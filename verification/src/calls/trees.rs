//! The windows in a layout tree.

use vstd::prelude::*;
use crate::tree::Node;

verus! {

/// A way from a node to a child of it.
pub enum Way {
    /// To a tiled child.
    Tiled(int),
    /// To a floating child.
    Floating(int),
}

/// The node that `path` leads to from `node`, if there is one.
pub open spec fn node_at(node: Node, path: Seq<Way>) -> Option<Node>
    decreases path.len(),
{
    if path.len() == 0 {
        Some(node)
    } else {
        match path[0] {
            Way::Tiled(i) => if 0 <= i < node.nodes@.len() {
                node_at(node.nodes@[i], path.drop_first())
            } else {
                None
            },
            Way::Floating(i) => if 0 <= i < node.floating_nodes@.len() {
                node_at(node.floating_nodes@[i], path.drop_first())
            } else {
                None
            },
        }
    }
}

/// Whether some path leads from `tree` to a node with the id `win` whose application is `app`,
/// letter for letter.
pub open spec fn has_window(tree: Node, win: i64, app: Seq<char>) -> bool {
    exists|path: Seq<Way>|
        (#[trigger] node_at(tree, path) matches Some(node) && node.id == win && (
        node.app_id matches Some(id) && id@ == app))
}

/// The windows of `app` in `tree`.
pub open spec fn windows_in(tree: Node, app: Seq<char>) -> Set<i64> {
    Set::new(|win: i64| has_window(tree, win, app))
}

proof fn lemma_way(tree: Node, child: Node, way: Way, win: i64, app: Seq<char>)
    requires
        has_window(child, win, app),
        match way {
            Way::Tiled(i) => 0 <= i < tree.nodes@.len() && tree.nodes@[i] == child,
            Way::Floating(i) => 0 <= i < tree.floating_nodes@.len() && tree.floating_nodes@[i]
                == child,
        },
    ensures
        has_window(tree, win, app),
{
    let path = choose|path: Seq<Way>|
        (#[trigger] node_at(child, path) matches Some(node) && node.id == win && (
        node.app_id matches Some(id) && id@ == app));
    let longer = seq![way] + path;
    assert(longer.drop_first() =~= path);
    assert(node_at(tree, longer) == node_at(child, path));
}

proof fn lemma_held_is_reached(tree: Node, win: i64, app: Seq<char>)
    requires
        tree.holds(win, app),
    ensures
        has_window(tree, win, app),
    decreases tree,
{
    if tree.id == win && tree.is_of(app) {
        assert(node_at(tree, Seq::empty()) == Some(tree));
    } else if exists|i: int| 0 <= i < tree.nodes@.len() && (#[trigger] tree.nodes@[i]).holds(
        win,
        app,
    ) {
        let i = choose|i: int| 0 <= i < tree.nodes@.len() && (#[trigger] tree.nodes@[i]).holds(
            win,
            app,
        );
        lemma_held_is_reached(tree.nodes@[i], win, app);
        lemma_way(tree, tree.nodes@[i], Way::Tiled(i), win, app);
    } else {
        let i = choose|i: int|
            0 <= i < tree.floating_nodes@.len() && (#[trigger] tree.floating_nodes@[i]).holds(
                win,
                app,
            );
        lemma_held_is_reached(tree.floating_nodes@[i], win, app);
        lemma_way(tree, tree.floating_nodes@[i], Way::Floating(i), win, app);
    }
}

proof fn lemma_reached_is_held(tree: Node, path: Seq<Way>, win: i64, app: Seq<char>)
    requires
        node_at(tree, path) matches Some(node) && node.id == win && (node.app_id matches Some(id)
            && id@ == app),
    ensures
        tree.holds(win, app),
    decreases path.len(),
{
    if path.len() > 0 {
        match path[0] {
            Way::Tiled(i) => {
                lemma_reached_is_held(tree.nodes@[i], path.drop_first(), win, app);
                assert(tree.nodes@[i].holds(win, app));
            },
            Way::Floating(i) => {
                lemma_reached_is_held(tree.floating_nodes@[i], path.drop_first(), win, app);
                assert(tree.floating_nodes@[i].holds(win, app));
            },
        }
    }
}

/// The windows of an application in a tree are the nodes, at any depth, tiled or floating, whose
/// application is that one.
pub proof fn windows_are_found_by_path(tree: Node, app: Seq<char>)
    ensures
        tree.windows(app) == windows_in(tree, app),
{
    assert forall|win: i64| tree.windows(app).contains(win) <==> windows_in(tree, app).contains(
        win,
    ) by {
        if tree.holds(win, app) {
            lemma_held_is_reached(tree, win, app);
        }
        if has_window(tree, win, app) {
            let path = choose|path: Seq<Way>|
                (#[trigger] node_at(tree, path) matches Some(node) && node.id == win && (
                node.app_id matches Some(id) && id@ == app));
            lemma_reached_is_held(tree, path, win, app);
        }
    }
    assert(tree.windows(app) =~= windows_in(tree, app));
}

/// A tree in which no node belongs to `app` has no window of `app`, however alike the names of
/// the applications are.
pub proof fn other_applications_have_no_window(tree: Node, app: Seq<char>)
    requires
        forall|path: Seq<Way>|
            (#[trigger] node_at(tree, path) matches Some(node) ==> (node.app_id matches Some(id)
                ==> id@ != app)),
    ensures
        tree.windows(app) == Set::<i64>::empty(),
{
    windows_are_found_by_path(tree, app);
    assert(windows_in(tree, app) =~= Set::<i64>::empty());
}

/// A node alone is a window of its own application, and of no other.
pub proof fn a_node_is_of_its_own_application(node: Node, app: Seq<char>)
    requires
        node.nodes@.len() == 0,
        node.floating_nodes@.len() == 0,
    ensures
        node.app_id matches Some(id) && id@ == app ==> node.windows(app) == set![node.id],
        !(node.app_id matches Some(id) && id@ == app) ==> node.windows(app) == Set::<i64>::empty(),
{
    if node.app_id matches Some(id) && id@ == app {
        assert(node.windows(app) =~= set![node.id]);
    } else {
        assert(node.windows(app) =~= Set::<i64>::empty());
    }
}

} // verus!
