//! Requests to add, to remove and to list scratchpads.

use vstd::prelude::*;
use crate::calls::commands;
use crate::calls::tables;
use crate::calls::trees;
use crate::pad::{Pad, Scratchpad, Tracking};
use crate::reply::CmdResult;
use crate::store::{AddStep, Outcome, ScratchpadStore};
use crate::tree::Node;

verus! {

/// Whether `reply` says that the tables could not be had.
pub open spec fn is_lost(reply: CmdResult) -> bool {
    reply matches CmdResult::Failed(e) && e@ == "Could not access local data."@
}

/// Whether `pad` is the scratchpad `given`: its name, its application, and its command with every
/// argument.
pub open spec fn is_same(pad: Pad, given: Scratchpad) -> bool {
    &&& pad.name == given.name@
    &&& pad.id == given.id@
    &&& pad.program == given.program@
    &&& pad.args.len() == given.args@.len()
    &&& forall|i: int| 0 <= i < pad.args.len() ==> (#[trigger] pad.args[i]) == given.args@[i]@
}

/// A name that is taken is refused; with any other name sway is asked.
pub proof fn a_taken_name_is_refused(store: ScratchpadStore, name: &str, r: AddStep)
    requires
        call_ensures(ScratchpadStore::begin_add, (&store, name), r),
    ensures
        if store.pads is Some && store.pads->0@.contains_key(name@) {
            r matches AddStep::Answer(reply) && reply is BadInput
        } else {
            r is QueryTree
        },
{
    assert(store.pads is Some ==> store@.pads == Some(store.pads->0@));
}

/// A scratchpad that is added stands under its name as it was given; its application is on show,
/// with exactly the windows that it has in sway's tree, and all of these are shown. Nothing else
/// changes.
pub proof fn to_add_configures_and_shows(
    store: &mut ScratchpadStore,
    given: Scratchpad,
    tree: Node,
    r: Outcome,
)
    requires
        call_ensures(ScratchpadStore::add, (store, given, Ok::<Node, String>(tree)), r),
        old(store).pads is Some,
        old(store).status is Some,
    ensures
        r.reply is Done,
        final(store).pads matches Some(pads) && {
            &&& pads@.contains_key(given.name@)
            &&& is_same(pads@[given.name@], given)
            &&& pads@ == old(store).pads->0@.insert(given.name@, pads@[given.name@])
        },
        tables::held(final(store).status) == Some(
            old(store).status->0@.insert(
                given.id@,
                Tracking { active: trees::windows_in(tree, given.id@), showing: true },
            ),
        ),
        commands::shows_each(r.commands@, trees::windows_in(tree, given.id@)),
{
    tables::a_scratchpad_is_its_fields(given);
    trees::windows_are_found_by_path(tree, given.id@);
    commands::shown_one_by_one(r.commands@, trees::windows_in(tree, given.id@));
}

/// Where a table is lost, a scratchpad is not added and the failure is answered; the windows of
/// its application are shown all the same.
pub proof fn to_add_without_tables_fails(
    store: &mut ScratchpadStore,
    given: Scratchpad,
    tree: Node,
    r: Outcome,
)
    requires
        call_ensures(ScratchpadStore::add, (store, given, Ok::<Node, String>(tree)), r),
        old(store).pads is None || old(store).status is None,
    ensures
        is_lost(r.reply),
        tables::held(final(store).pads) == tables::held(old(store).pads),
        tables::held(final(store).status) == tables::held(old(store).status),
        commands::shows_each(r.commands@, trees::windows_in(tree, given.id@)),
{
    trees::windows_are_found_by_path(tree, given.id@);
    tables::a_scratchpad_is_its_fields(given);
    commands::shown_one_by_one(r.commands@, trees::windows_in(tree, given.id@));
}

/// Where sway cannot be asked, a scratchpad is not added, nothing is sent and the reason is
/// answered.
pub proof fn to_add_without_sway_fails(
    store: &mut ScratchpadStore,
    given: Scratchpad,
    e: String,
    r: Outcome,
)
    requires
        call_ensures(ScratchpadStore::add, (store, given, Err::<Node, String>(e)), r),
    ensures
        r.reply matches CmdResult::Failed(reason) && reason@ == e@,
        r.commands@.len() == 0,
        tables::held(final(store).pads) == tables::held(old(store).pads),
        tables::held(final(store).status) == tables::held(old(store).status),
{
}

/// A scratchpad that is removed is gone, and its application is no longer followed. Nothing else
/// changes.
pub proof fn to_remove_unconfigures(store: &mut ScratchpadStore, name: &str, r: CmdResult)
    requires
        call_ensures(ScratchpadStore::remove, (store, name), r),
        old(store).pads is Some,
        old(store).status is Some,
        old(store).pads->0@.contains_key(name@),
    ensures
        r is Done,
        tables::held(final(store).pads) == Some(old(store).pads->0@.remove(name@)),
        tables::held(final(store).status) == Some(
            old(store).status->0@.remove(old(store).pads->0@[name@].id),
        ),
{
}

/// A name that is not configured cannot be removed, and nothing changes.
pub proof fn to_remove_an_unknown_name_is_refused(
    store: &mut ScratchpadStore,
    name: &str,
    r: CmdResult,
)
    requires
        call_ensures(ScratchpadStore::remove, (store, name), r),
        old(store).pads is Some,
        !old(store).pads->0@.contains_key(name@),
    ensures
        r is BadInput,
        tables::held(final(store).pads) == tables::held(old(store).pads),
        tables::held(final(store).status) == tables::held(old(store).status),
{
}

/// Where the scratchpads are lost, nothing is removed and the failure is answered. Where only the
/// status is lost, the scratchpad is gone and the failure is answered.
pub proof fn to_remove_without_tables_fails(store: &mut ScratchpadStore, name: &str, r: CmdResult)
    requires
        call_ensures(ScratchpadStore::remove, (store, name), r),
        old(store).pads is None || (old(store).status is None && old(store).pads->0@.contains_key(
            name@,
        )),
    ensures
        is_lost(r),
        tables::held(final(store).status) == tables::held(old(store).status),
        old(store).pads is None ==> final(store).pads is None,
        old(store).pads is Some ==> tables::held(final(store).pads) == Some(
            old(store).pads->0@.remove(name@),
        ),
{
}

/// A name is listed exactly when it is there, and once; without the scratchpads none is.
pub proof fn names_are_listed(
    store: ScratchpadStore,
    names: Vec<String>,
    asked: &str,
    has: bool,
)
    requires
        call_ensures(ScratchpadStore::keys, (&store,), names),
        call_ensures(ScratchpadStore::contains_key, (&store, asked), has),
    ensures
        has <==> store.pads is Some && store.pads->0@.contains_key(asked@),
        has <==> exists|i: int| 0 <= i < names@.len() && (#[trigger] names@[i])@ == asked@,
        forall|i: int, j: int|
            0 <= i < j < names@.len() ==> (#[trigger] names@[i])@ != (#[trigger] names@[j])@,
        store.pads is None ==> names@.len() == 0,
{
    let texts = crate::text::texts(names@);
    assert(store@.pads == tables::held(store.pads));
    assert(texts.contains(asked@) <==> store@.has(asked@));
    if has {
        let i = choose|i: int| 0 <= i < texts.len() && texts[i] == asked@;
        assert(names@[i]@ == asked@);
    }
    if exists|i: int| 0 <= i < names@.len() && (#[trigger] names@[i])@ == asked@ {
        let i = choose|i: int| 0 <= i < names@.len() && (#[trigger] names@[i])@ == asked@;
        assert(texts[i] == asked@);
    }
    assert forall|i: int, j: int| 0 <= i < j < names@.len() implies (#[trigger] names@[i])@ != (
    #[trigger] names@[j])@ by {
        assert(texts[i] != texts[j]);
    }
    if store.pads is None && names@.len() > 0 {
        assert(texts.contains(texts[0]));
        assert(!store@.has(texts[0]));
    }
}

/// After a scratchpad is added it is there, after it is removed it is not, and in between and
/// after every other name is there or not as before.
pub proof fn what_is_added_can_be_removed(
    store: &mut ScratchpadStore,
    given: Scratchpad,
    tree: Node,
    added: Outcome,
    next: &mut ScratchpadStore,
    name: &str,
    removed: CmdResult,
    other: Seq<char>,
)
    requires
        old(store).pads is Some,
        old(store).status is Some,
        !old(store).pads->0@.contains_key(given.name@),
        call_ensures(ScratchpadStore::add, (store, given, Ok::<Node, String>(tree)), added),
        *old(next) == *final(store),
        name@ == given.name@,
        call_ensures(ScratchpadStore::remove, (next, name), removed),
    ensures
        added.reply is Done,
        removed is Done,
        final(store).pads->0@.contains_key(name@),
        tables::held(final(next).pads) == tables::held(old(store).pads),
        other != given.id@ && old(store).status->0@.contains_key(other) ==> {
            &&& final(next).status->0@.contains_key(other)
            &&& final(next).status->0@[other] == old(store).status->0@[other]
        },
{
    to_add_configures_and_shows(store, given, tree, added);
    to_remove_unconfigures(next, name, removed);
    assert(final(next).pads->0@ =~= old(store).pads->0@);
}

} // verus!
