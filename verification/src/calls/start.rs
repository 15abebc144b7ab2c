//! How a daemon starts.

use vstd::prelude::*;
use crate::calls::tables;
use crate::calls::trees;
use crate::pad::{Pad, Scratchpad};
use crate::store::{ScratchpadStore, Startup};
use crate::table::Table;
use crate::tree::Node;

verus! {

/// The store that a daemon starts with.
pub open spec fn started(r: Startup) -> ScratchpadStore {
    match r {
        Startup::Ready(store) => store,
        Startup::QueryTree(store) => store,
    }
}

/// A daemon starts with the scratchpads of its configuration, and follows the application of each
/// of them and no other. None has a window yet, and all count as shown. Sway is asked for the
/// windows exactly when there is a scratchpad.
pub proof fn a_configuration_is_followed(pads: Table<Scratchpad>, r: Startup)
    requires
        call_ensures(ScratchpadStore::new, (Some(pads),), r),
    ensures
        tables::held(started(r).pads) == Some(pads@),
        started(r).status matches Some(status) && {
            &&& forall|name: Seq<char>| #[trigger]
                pads@.contains_key(name) ==> status@.contains_key(pads@[name].id)
            &&& forall|id: Seq<char>| #[trigger]
                status@.contains_key(id) ==> exists|name: Seq<char>| #[trigger]
                    pads@.contains_key(name) && pads@[name].id == id
            &&& forall|id: Seq<char>, win: i64|
                status@.contains_key(id) ==> !(#[trigger] status@[id].active.contains(win))
            &&& forall|id: Seq<char>|
                status@.contains_key(id) ==> (#[trigger] status@[id]).showing
        },
        r is QueryTree <==> exists|name: Seq<char>| pads@.contains_key(name),
{
    let status = started(r).status->0@;
    assert(started(r)@.status == Some(status));
    assert(status == crate::store::initial_status(pads@));
    assert forall|id: Seq<char>| #[trigger] status.contains_key(id) implies exists|
        name: Seq<char>,
    | #[trigger] pads@.contains_key(name) && pads@[name].id == id by {}
    if forall|name: Seq<char>| !pads@.contains_key(name) {
        assert(pads@ =~= Map::<Seq<char>, Pad>::empty());
    }
}

/// Without a configuration a daemon has no scratchpad, follows nothing, and does not ask sway.
pub proof fn without_a_configuration_there_is_nothing(r: Startup)
    requires
        call_ensures(ScratchpadStore::new, (None::<Table<Scratchpad>>,), r),
    ensures
        r is Ready,
        started(r).pads matches Some(pads) && forall|name: Seq<char>| !pads@.contains_key(name),
        started(r).status matches Some(status) && forall|id: Seq<char>| !status@.contains_key(id),
{
    assert(started(r)@.pads == Some(started(r).pads->0@));
    assert(started(r)@.status == Some(started(r).status->0@));
}

/// The windows in sway's tree are added to the applications that are followed, each to its own;
/// the scratchpads, what is followed, and what counts as shown stay.
pub proof fn open_windows_are_taken_over(
    store: ScratchpadStore,
    tree: Node,
    r: Result<ScratchpadStore, i32>,
)
    requires
        call_ensures(ScratchpadStore::with_tree, (store, Some(tree)), r),
        store.status is Some,
    ensures
        r matches Ok(after) && {
            &&& tables::held(after.pads) == tables::held(store.pads)
            &&& after.status is Some
            &&& forall|id: Seq<char>|
                after.status->0@.contains_key(id) <==> #[trigger] store.status->0@.contains_key(id)
            &&& forall|id: Seq<char>|
                #![trigger after.status->0@[id]]
                store.status->0@.contains_key(id) ==> after.status->0@[id].showing
                    == store.status->0@[id].showing && after.status->0@[id].active
                    == store.status->0@[id].active.union(trees::windows_in(tree, id))
        },
{
    let after = r->Ok_0;
    assert(store@.status == Some(store.status->0@));
    assert(after@.status == Some(after.status->0@));
    assert forall|id: Seq<char>|
        #![trigger after.status->0@[id]]
        store.status->0@.contains_key(id) implies after.status->0@[id].showing
        == store.status->0@[id].showing && after.status->0@[id].active
        == store.status->0@[id].active.union(trees::windows_in(tree, id)) by {
        trees::windows_are_found_by_path(tree, id);
    }
}

/// Where the status is lost, sway's tree brings nothing.
pub proof fn without_a_status_nothing_is_taken_over(
    store: ScratchpadStore,
    tree: Node,
    r: Result<ScratchpadStore, i32>,
)
    requires
        call_ensures(ScratchpadStore::with_tree, (store, Some(tree)), r),
        store.status is None,
    ensures
        r matches Ok(after) && after.status is None && tables::held(after.pads) == tables::held(
            store.pads,
        ),
{
}

/// A daemon that cannot have sway's tree ends with the code 10.
pub proof fn without_a_tree_the_daemon_ends(store: ScratchpadStore, r: Result<ScratchpadStore, i32>)
    requires
        call_ensures(ScratchpadStore::with_tree, (store, None::<Node>), r),
    ensures
        r matches Err(code) && code == 10,
{
}

/// From its configuration and sway's tree, a daemon starts with each scratchpad's application on
/// show and with exactly the windows that it has open.
pub proof fn a_daemon_starts_with_what_is_open(
    pads: Table<Scratchpad>,
    first: Startup,
    tree: Node,
    r: Result<ScratchpadStore, i32>,
    name: Seq<char>,
)
    requires
        call_ensures(ScratchpadStore::new, (Some(pads),), first),
        call_ensures(ScratchpadStore::with_tree, (started(first), Some(tree)), r),
        pads@.contains_key(name),
    ensures
        r matches Ok(after) && {
            let id = pads@[name].id;
            &&& tables::held(after.pads) == Some(pads@)
            &&& after.status is Some
            &&& after.status->0@.contains_key(id)
            &&& after.status->0@[id].showing
            &&& after.status->0@[id].active == trees::windows_in(tree, id)
        },
{
    let id = pads@[name].id;
    a_configuration_is_followed(pads, first);
    open_windows_are_taken_over(started(first), tree, r);
    let after = r->Ok_0;
    assert(started(first).status->0@.contains_key(id));
    assert(after.status->0@[id].active =~= trees::windows_in(tree, id));
}

} // verus!
