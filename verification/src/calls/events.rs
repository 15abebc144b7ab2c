//! What the listener makes of what it hears.

use vstd::prelude::*;
use crate::calls::commands;
use crate::calls::tables;
use crate::calls::toggling;
use crate::listen::{Heard, ListenStep, WindowChange, WindowEvent};
use crate::pad::Tracking;
use crate::store::ScratchpadStore;
use crate::toggle::{Link, ToggleStep};

verus! {

/// Whether `app` is followed.
pub open spec fn is_followed(store: ScratchpadStore, app: Seq<char>) -> bool {
    store.status is Some && store.status->0@.contains_key(app)
}

/// Whether `event` says that the window `win` of `app` opened.
pub open spec fn is_opening(event: WindowEvent, win: i64, app: Seq<char>) -> bool {
    event.change is New && event.id == win && (event.app_id matches Some(id) && id@ == app)
}

/// Whether `event` says that the window `win` of `app` closed.
pub open spec fn is_closing(event: WindowEvent, win: i64, app: Seq<char>) -> bool {
    event.change is Close && event.id == win && (event.app_id matches Some(id) && id@ == app)
}

/// A new window of an application that counts as hidden is hidden, whatever windows there are
/// already; it is remembered, and nothing else changes.
pub proof fn a_new_window_is_hidden_where_the_rest_is(
    store: &mut ScratchpadStore,
    event: WindowEvent,
    r: ListenStep,
    win: i64,
    app: Seq<char>,
)
    requires
        call_ensures(ScratchpadStore::listen, (store, &Heard::Window(event), Link::Up), r),
        is_opening(event, win, app),
        is_followed(*old(store), app),
        !old(store).status->0@[app].showing,
    ensures
        r matches ListenStep::Send(sent) && sent@.len() == 1 && sent@[0]@ == commands::hiding(win),
        tables::held(final(store).pads) == tables::held(old(store).pads),
        tables::held(final(store).status) == Some(
            old(store).status->0@.insert(
                app,
                Tracking { active: old(store).status->0@[app].active.insert(win), showing: false },
            ),
        ),
{
    lemma_opening(store, event, r, win, app);
    let texts = crate::text::texts(r->Send_0@);
    assert(texts =~= seq![crate::sway::hide_command(win)]);
    assert(texts.len() == r->Send_0@.len());
    assert(texts[0] == r->Send_0@[0]@);
    commands::one_window_is_hidden(win);
}

/// A new window of an application that counts as shown is fetched and placed, whatever windows
/// there are already; it is remembered, and nothing else changes.
pub proof fn a_new_window_is_shown_where_the_rest_is(
    store: &mut ScratchpadStore,
    event: WindowEvent,
    r: ListenStep,
    win: i64,
    app: Seq<char>,
)
    requires
        call_ensures(ScratchpadStore::listen, (store, &Heard::Window(event), Link::Up), r),
        is_opening(event, win, app),
        is_followed(*old(store), app),
        old(store).status->0@[app].showing,
    ensures
        r matches ListenStep::Send(sent) && sent@.len() == 2 && sent@[0]@ == commands::fetching(win)
            && sent@[1]@ == commands::placing(win),
        tables::held(final(store).pads) == tables::held(old(store).pads),
        tables::held(final(store).status) == Some(
            old(store).status->0@.insert(
                app,
                Tracking { active: old(store).status->0@[app].active.insert(win), showing: true },
            ),
        ),
{
    lemma_opening(store, event, r, win, app);
    let texts = crate::text::texts(r->Send_0@);
    commands::one_window_is_shown(win);
    assert(texts.len() == r->Send_0@.len());
    assert(texts[0] == r->Send_0@[0]@ && texts[1] == r->Send_0@[1]@);
}

proof fn lemma_opening(
    store: &mut ScratchpadStore,
    event: WindowEvent,
    r: ListenStep,
    win: i64,
    app: Seq<char>,
)
    requires
        call_ensures(ScratchpadStore::listen, (store, &Heard::Window(event), Link::Up), r),
        is_opening(event, win, app),
        is_followed(*old(store), app),
    ensures
        r matches ListenStep::Send(sent) && crate::text::texts(sent@) == old(store)@.greeting(
            app,
            win,
        ),
        final(store)@ == old(store)@.opened(app, win),
        old(store)@.pads == tables::held(old(store).pads),
        old(store)@.status == tables::held(old(store).status),
        final(store)@.pads == tables::held(final(store).pads),
        final(store)@.status == tables::held(final(store).status),
{
}

/// A window that closes is forgotten, and only that one: whether its application counts as shown
/// or hidden, it keeps all its other windows, and nothing else changes.
pub proof fn a_closed_window_is_forgotten_alone(
    store: &mut ScratchpadStore,
    event: WindowEvent,
    link: Link,
    r: ListenStep,
    win: i64,
    app: Seq<char>,
)
    requires
        call_ensures(ScratchpadStore::listen, (store, &Heard::Window(event), link), r),
        is_closing(event, win, app),
        is_followed(*old(store), app),
    ensures
        r is Wait,
        tables::held(final(store).pads) == tables::held(old(store).pads),
        tables::held(final(store).status) == Some(
            old(store).status->0@.insert(
                app,
                Tracking {
                    active: old(store).status->0@[app].active.remove(win),
                    showing: old(store).status->0@[app].showing,
                },
            ),
        ),
{
}

/// For a new window of an application that is followed, sway is asked for first; without it
/// nothing changes, and the listener waits.
pub proof fn a_new_window_needs_sway(
    store: &mut ScratchpadStore,
    event: WindowEvent,
    link: Link,
    r: ListenStep,
    win: i64,
    app: Seq<char>,
)
    requires
        call_ensures(ScratchpadStore::listen, (store, &Heard::Window(event), link), r),
        is_opening(event, win, app),
        is_followed(*old(store), app),
        !(link is Up),
    ensures
        link is Untried ==> r is Connect,
        link is Down ==> r is Wait,
        toggling::is_unchanged(*final(store), *old(store)),
{
}

/// A window that belongs to no application that is followed changes nothing, and neither does
/// anything else that happens to a window; the listener waits.
pub proof fn other_events_change_nothing(
    store: &mut ScratchpadStore,
    event: WindowEvent,
    link: Link,
    r: ListenStep,
)
    requires
        call_ensures(ScratchpadStore::listen, (store, &Heard::Window(event), link), r),
        event.change is Other || !(event.app_id matches Some(id) && is_followed(*old(store), id@)),
    ensures
        r is Wait,
        toggling::is_unchanged(*final(store), *old(store)),
{
}

/// The listener waits where it is subscribed, and past an event that is not about a window; it
/// subscribes again where the events end or break; and where it cannot, the daemon ends with the
/// code 10. None of this changes the store.
pub proof fn the_listener_goes_on(
    store: &mut ScratchpadStore,
    heard: Heard,
    link: Link,
    r: ListenStep,
)
    requires
        call_ensures(ScratchpadStore::listen, (store, &heard, link), r),
        !(heard is Window),
    ensures
        heard is Subscribed || heard is Unrelated ==> r is Wait,
        heard is Ended || heard is Broken ==> r is Subscribe,
        heard is NotSubscribed ==> (r matches ListenStep::Exit(code) && code == 10),
        toggling::is_unchanged(*final(store), *old(store)),
{
}

/// Where a program was started because its application had no window, the window that it opens is
/// fetched and placed, whether the application counted as shown or hidden before.
pub proof fn a_started_program_is_shown(
    store: &mut ScratchpadStore,
    name: &str,
    link: Link,
    started: ToggleStep,
    next: &mut ScratchpadStore,
    event: WindowEvent,
    r: ListenStep,
    win: i64,
    app: Seq<char>,
)
    requires
        toggling::is_configured(*old(store), name@),
        app == old(store).pads->0@[name@].id,
        is_followed(*old(store), app),
        !toggling::has_windows(*old(store), app),
        call_ensures(ScratchpadStore::toggle, (store, name, link), started),
        *old(next) == *final(store),
        is_opening(event, win, app),
        call_ensures(ScratchpadStore::listen, (next, &Heard::Window(event), Link::Up), r),
    ensures
        started is Launch,
        r matches ListenStep::Send(sent) && sent@.len() == 2 && sent@[0]@ == commands::fetching(win)
            && sent@[1]@ == commands::placing(win),
        final(next).status->0@[app].active == set![win],
        final(next).status->0@[app].showing,
{
    toggling::without_windows_the_program_is_started(store, name, link, started, app);
    a_new_window_is_shown_where_the_rest_is(next, event, r, win, app);
    assert(final(next).status->0@[app].active =~= set![win]);
}

/// A window that opens and then closes leaves the store as it was, unless it was known before.
pub proof fn a_window_comes_and_goes(
    store: &mut ScratchpadStore,
    opening: WindowEvent,
    first: ListenStep,
    next: &mut ScratchpadStore,
    closing: WindowEvent,
    link: Link,
    second: ListenStep,
    win: i64,
    app: Seq<char>,
)
    requires
        is_followed(*old(store), app),
        !old(store).status->0@[app].active.contains(win),
        is_opening(opening, win, app),
        is_closing(closing, win, app),
        call_ensures(ScratchpadStore::listen, (store, &Heard::Window(opening), Link::Up), first),
        *old(next) == *final(store),
        call_ensures(ScratchpadStore::listen, (next, &Heard::Window(closing), link), second),
    ensures
        toggling::is_unchanged(*final(next), *old(store)),
{
    let was = old(store).status->0@[app];
    if was.showing {
        a_new_window_is_shown_where_the_rest_is(store, opening, first, win, app);
    } else {
        a_new_window_is_hidden_where_the_rest_is(store, opening, first, win, app);
    }
    a_closed_window_is_forgotten_alone(next, closing, link, second, win, app);
    assert(was.active.insert(win).remove(win) =~= was.active);
    assert(final(next).status->0@[app] =~= was);
    assert(final(next).status->0@ =~= old(store).status->0@);
}

} // verus!
