//! Requests to toggle a scratchpad.

use vstd::prelude::*;
use crate::calls::commands;
use crate::calls::requests;
use crate::calls::tables;
use crate::calls::trees;
use crate::pad::{Scratchpad, Tracking};
use crate::reply::CmdResult;
use crate::store::{Outcome, ScratchpadStore};
use crate::toggle::{Link, ToggleStep};
use crate::tree::Node;

verus! {

/// Whether both tables can be had and `name` is configured.
pub open spec fn is_configured(store: ScratchpadStore, name: Seq<char>) -> bool {
    store.pads is Some && store.status is Some && store.pads->0@.contains_key(name)
}

/// Whether the application `app` has a window.
pub open spec fn has_windows(store: ScratchpadStore, app: Seq<char>) -> bool {
    store.status is Some && store.status->0@.contains_key(app) && exists|win: i64|
        store.status->0@[app].active.contains(win)
}

/// Whether the two stores hold the same.
pub open spec fn is_unchanged(a: ScratchpadStore, b: ScratchpadStore) -> bool {
    tables::held(a.pads) == tables::held(b.pads) && tables::held(a.status) == tables::held(b.status)
}

proof fn lemma_windows(store: ScratchpadStore, app: Seq<char>)
    ensures
        has_windows(store, app) <==> store@.windows_of(app) != Set::<i64>::empty(),
{
    let wins = store@.windows_of(app);
    if !has_windows(store, app) {
        assert(wins =~= Set::<i64>::empty());
    } else {
        let win = choose|win: i64| store.status->0@[app].active.contains(win);
        assert(wins.contains(win));
    }
}

/// To toggle a scratchpad whose windows are hidden fetches and places each of them, and no other
/// window. They count as shown then; nothing else changes.
pub proof fn hidden_windows_are_shown(
    store: &mut ScratchpadStore,
    name: &str,
    r: ToggleStep,
    app: Seq<char>,
)
    requires
        call_ensures(ScratchpadStore::toggle, (store, name, Link::Up), r),
        is_configured(*old(store), name@),
        app == old(store).pads->0@[name@].id,
        has_windows(*old(store), app),
        !old(store).status->0@[app].showing,
    ensures
        r matches ToggleStep::Send { commands, reply } && reply is Done && commands::shows_each(
            commands@,
            old(store).status->0@[app].active,
        ),
        tables::held(final(store).pads) == tables::held(old(store).pads),
        tables::held(final(store).status) == Some(
            old(store).status->0@.insert(
                app,
                Tracking { active: old(store).status->0@[app].active, showing: true },
            ),
        ),
{
    lemma_windows(*old(store), app);
    commands::shown_one_by_one(r->Send_commands@, old(store).status->0@[app].active);
}

/// To toggle a scratchpad whose windows are on show hides each of them, and no other window. They
/// count as hidden then; nothing else changes.
pub proof fn shown_windows_are_hidden(
    store: &mut ScratchpadStore,
    name: &str,
    r: ToggleStep,
    app: Seq<char>,
)
    requires
        call_ensures(ScratchpadStore::toggle, (store, name, Link::Up), r),
        is_configured(*old(store), name@),
        app == old(store).pads->0@[name@].id,
        has_windows(*old(store), app),
        old(store).status->0@[app].showing,
    ensures
        r matches ToggleStep::Send { commands, reply } && reply is Done && commands::hides_each(
            commands@,
            old(store).status->0@[app].active,
        ),
        tables::held(final(store).pads) == tables::held(old(store).pads),
        tables::held(final(store).status) == Some(
            old(store).status->0@.insert(
                app,
                Tracking { active: old(store).status->0@[app].active, showing: false },
            ),
        ),
{
    lemma_windows(*old(store), app);
    commands::hidden_one_by_one(r->Send_commands@, old(store).status->0@[app].active);
}

/// To toggle a scratchpad without windows starts its program with its arguments, whether or not
/// sway can be had. If its application is followed, it counts as shown then; nothing else changes.
pub proof fn without_windows_the_program_is_started(
    store: &mut ScratchpadStore,
    name: &str,
    link: Link,
    r: ToggleStep,
    app: Seq<char>,
)
    requires
        call_ensures(ScratchpadStore::toggle, (store, name, link), r),
        is_configured(*old(store), name@),
        app == old(store).pads->0@[name@].id,
        !has_windows(*old(store), app),
    ensures
        r matches ToggleStep::Launch { program, args, reply } && {
            let pad = old(store).pads->0@[name@];
            &&& reply is Done
            &&& program@ == pad.program
            &&& args@.len() == pad.args.len()
            &&& forall|i: int| 0 <= i < args@.len() ==> (#[trigger] args@[i])@ == pad.args[i]
        },
        tables::held(final(store).pads) == tables::held(old(store).pads),
        old(store).status->0@.contains_key(app) ==> tables::held(final(store).status) == Some(
            old(store).status->0@.insert(app, Tracking { active: Set::empty(), showing: true }),
        ),
        !old(store).status->0@.contains_key(app) ==> tables::held(final(store).status)
            == tables::held(old(store).status),
{
    lemma_windows(*old(store), app);
    let texts = crate::text::texts(r->args@);
    assert forall|i: int| 0 <= i < r->args@.len() implies (#[trigger] r->args@[i])@ == old(
        store).pads->0@[name@].args[i] by {
        assert(texts[i] == r->args@[i]@);
    }
    assert(texts.len() == r->args@.len());
}

/// Where there are windows to toggle, sway is asked for first; without it nothing changes, and
/// the reason is answered.
pub proof fn windows_are_toggled_through_sway(
    store: &mut ScratchpadStore,
    name: &str,
    link: Link,
    r: ToggleStep,
)
    requires
        call_ensures(ScratchpadStore::toggle, (store, name, link), r),
        is_configured(*old(store), name@),
        has_windows(*old(store), old(store).pads->0@[name@].id),
        !(link is Up),
    ensures
        link is Untried ==> r is Connect,
        link matches Link::Down(e) ==> (r matches ToggleStep::Answer(CmdResult::Failed(reason))
            && reason@ == e@),
        is_unchanged(*final(store), *old(store)),
{
    lemma_windows(*old(store), old(store).pads->0@[name@].id);
}

/// A name that is not configured is refused, a table that is lost is a failure, and nothing
/// changes.
pub proof fn nothing_to_toggle_is_answered(
    store: &mut ScratchpadStore,
    name: &str,
    link: Link,
    r: ToggleStep,
)
    requires
        call_ensures(ScratchpadStore::toggle, (store, name, link), r),
        !is_configured(*old(store), name@),
    ensures
        r matches ToggleStep::Answer(reply) && if old(store).pads is Some && !old(
            store).pads->0@.contains_key(name@) {
            reply is BadInput
        } else {
            requests::is_lost(reply)
        },
        is_unchanged(*final(store), *old(store)),
{
}

/// To toggle twice with sway at hand brings the store back, and what the one request hides the
/// other shows.
pub proof fn to_toggle_twice_turns_back(
    store: &mut ScratchpadStore,
    next: &mut ScratchpadStore,
    name: &str,
    first: ToggleStep,
    second: ToggleStep,
    app: Seq<char>,
)
    requires
        is_configured(*old(store), name@),
        app == old(store).pads->0@[name@].id,
        has_windows(*old(store), app),
        call_ensures(ScratchpadStore::toggle, (store, name, Link::Up), first),
        *old(next) == *final(store),
        call_ensures(ScratchpadStore::toggle, (next, name, Link::Up), second),
    ensures
        is_unchanged(*final(next), *old(store)),
        first is Send,
        second is Send,
        ({
            let wins = old(store).status->0@[app].active;
            ||| commands::hides_each(first->Send_commands@, wins) && commands::shows_each(
                second->Send_commands@,
                wins,
            )
            ||| commands::shows_each(first->Send_commands@, wins) && commands::hides_each(
                second->Send_commands@,
                wins,
            )
        }),
{
    let wins = old(store).status->0@[app].active;
    let win = choose|win: i64| wins.contains(win);
    if old(store).status->0@[app].showing {
        shown_windows_are_hidden(store, name, first, app);
        assert(old(next).status->0@[app].active.contains(win));
        hidden_windows_are_shown(next, name, second, app);
    } else {
        hidden_windows_are_shown(store, name, first, app);
        assert(old(next).status->0@[app].active.contains(win));
        shown_windows_are_hidden(next, name, second, app);
    }
    assert(final(next).status->0@ =~= old(store).status->0@);
}

/// A scratchpad that was added while its application had no window is started by its name: the
/// program that was given, with every argument that was given.
pub proof fn an_added_scratchpad_is_started(
    store: &mut ScratchpadStore,
    given: Scratchpad,
    tree: Node,
    added: Outcome,
    next: &mut ScratchpadStore,
    name: &str,
    link: Link,
    r: ToggleStep,
)
    requires
        old(store).pads is Some,
        old(store).status is Some,
        call_ensures(ScratchpadStore::add, (store, given, Ok::<Node, String>(tree)), added),
        forall|win: i64| !trees::has_window(tree, win, given.id@),
        *old(next) == *final(store),
        name@ == given.name@,
        call_ensures(ScratchpadStore::toggle, (next, name, link), r),
    ensures
        added.commands@.len() == 0,
        r matches ToggleStep::Launch { program, args, reply } && {
            &&& program@ == given.program@
            &&& args@.len() == given.args@.len()
            &&& forall|i: int| 0 <= i < args@.len() ==> (#[trigger] args@[i])@ == given.args@[i]@
        },
{
    requests::to_add_configures_and_shows(store, given, tree, added);
    let wins = trees::windows_in(tree, given.id@);
    assert(forall|win: i64| !wins.contains(win));
    let order = choose|order: Seq<i64>| #[trigger]
        commands::goes_through(order, wins) && added.commands@.len() == 2 * order.len();
    if order.len() > 0 {
        assert(order.contains(order[0]));
    }
    without_windows_the_program_is_started(next, name, link, r, given.id@);
    let pad = old(next).pads->0@[name@];
    assert forall|i: int| 0 <= i < r->args@.len() implies (#[trigger] r->args@[i])@
        == given.args@[i]@ by {
        assert(pad.args[i] == given.args@[i]@);
    }
}

} // verus!
