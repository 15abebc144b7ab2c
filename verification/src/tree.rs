//! The layout tree of sway.

use std::collections::HashSet;
use vstd::prelude::*;
use crate::text;

verus! {

/// A node of the layout tree: a container, a workspace, an output or the root.
pub struct Node {
    /// The id that commands and events know the node by.
    pub id: i64,
    /// The application that a window belongs to, if it says.
    pub app_id: Option<String>,
    /// The tiled children.
    pub nodes: Vec<Node>,
    /// The floating children.
    pub floating_nodes: Vec<Node>,
}

impl Node {
    /// Whether the node itself is a window of `app`.
    pub open spec fn is_of(self, app: Seq<char>) -> bool {
        self.app_id is Some && self.app_id->0@ == app
    }

    /// Whether `win` is the id of a window of `app`, at this node or anywhere below it.
    pub open spec fn holds(self, win: i64, app: Seq<char>) -> bool
        decreases self,
    {
        ||| self.id == win && self.is_of(app)
        ||| exists|i: int| 0 <= i < self.nodes@.len() && (#[trigger] self.nodes@[i]).holds(win, app)
        ||| exists|i: int|
            0 <= i < self.floating_nodes@.len() && (#[trigger] self.floating_nodes@[i]).holds(
                win,
                app,
            )
    }

    /// The windows of `app` in the tree.
    pub open spec fn windows(self, app: Seq<char>) -> Set<i64> {
        Set::new(|win: i64| self.holds(win, app))
    }

    /// Adds the windows of `app` in the tree to `out`.
    pub(crate) fn collect_windows(&self, app: &str, out: &mut HashSet<i64>)
        ensures
            final(out)@ == old(out)@.union(self.windows(app@)),
        decreases self,
    {
        let of_app = match &self.app_id {
            Some(a) => text::same_text(a.as_str(), app),
            None => false,
        };
        if of_app {
            out.insert(self.id);
        }
        collect_list(&self.nodes, app, out);
        collect_list(&self.floating_nodes, app, out);
        assert(out@ =~= old(out)@.union(self.windows(app@)));
    }
}

/// The windows of `app` in any of several trees.
pub open spec fn list_windows(list: Seq<Node>, app: Seq<char>) -> Set<i64> {
    Set::new(|win: i64| exists|i: int| 0 <= i < list.len() && (#[trigger] list[i]).holds(win, app))
}

/// One tree more adds its own windows.
proof fn lemma_one_more(list: Seq<Node>, i: int, app: Seq<char>)
    requires
        0 <= i < list.len(),
    ensures
        list_windows(list.take(i + 1), app) == list_windows(list.take(i), app).union(
            list[i].windows(app),
        ),
{
    let more = list.take(i + 1);
    let less = list.take(i);
    assert forall|win: i64|
        list_windows(more, app).contains(win) <==> list_windows(less, app).union(
            list[i].windows(app),
        ).contains(win) by {
        if list_windows(more, app).contains(win) {
            let j = choose|j: int| 0 <= j < more.len() && (#[trigger] more[j]).holds(win, app);
            if j < i {
                assert(less[j].holds(win, app));
            }
        }
        if list_windows(less, app).contains(win) {
            let j = choose|j: int| 0 <= j < less.len() && (#[trigger] less[j]).holds(win, app);
            assert(more[j].holds(win, app));
        }
        if list[i].holds(win, app) {
            assert(more[i].holds(win, app));
        }
    }
    assert(list_windows(more, app) =~= list_windows(less, app).union(list[i].windows(app)));
}

fn collect_list(list: &Vec<Node>, app: &str, out: &mut HashSet<i64>)
    ensures
        final(out)@ == old(out)@.union(list_windows(list@, app@)),
    decreases list,
{
    let mut i: usize = 0;
    assert(out@ =~= old(out)@.union(list_windows(list@.take(0), app@)));
    while i < list.len()
        invariant
            i <= list@.len(),
            out@ == old(out)@.union(list_windows(list@.take(i as int), app@)),
        decreases list@.len() - i,
    {
        list[i].collect_windows(app, out);
        proof {
            lemma_one_more(list@, i as int, app@);
        }
        assert(out@ =~= old(out)@.union(list_windows(list@.take(i + 1), app@)));
        i = i + 1;
    }
    assert(list@.take(i as int) =~= list@);
}

} // verus!
