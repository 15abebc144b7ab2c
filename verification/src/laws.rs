//! What holds of the store over several requests and events.

use vstd::prelude::*;
use crate::cli::{Ask, Intent};
use crate::listen::{ListenStep, WindowEvent};
use crate::pad::{Pad, Tracking};
use crate::reply::Reply;
use crate::save::{SaveEvent, SaveWork};
use crate::store::Store;
use crate::toggle::{Link, Turn};
use crate::tree::Node;

verus! {

impl Store {
    /// Every application that is followed is that of a scratchpad.
    pub open spec fn follows_only_configured(self) -> bool {
        self.intact() ==> forall|id: Seq<char>| #[trigger]
            self.status->0.contains_key(id) ==> self.configures(id)
    }

    /// The application of every scratchpad is followed.
    pub open spec fn follows_all_configured(self) -> bool {
        self.intact() ==> forall|name: Seq<char>| #[trigger]
            self.pads->0.contains_key(name) ==> self.status->0.contains_key(self.pads->0[name].id)
    }

    /// Whether `id` is the application of a scratchpad.
    pub open spec fn configures(self, id: Seq<char>) -> bool {
        exists|name: Seq<char>| #[trigger]
            self.pads->0.contains_key(name) && self.pads->0[name].id == id
    }

    /// Whether no scratchpad but `name` has the application of `name`.
    pub open spec fn owns_its_id(self, name: Seq<char>) -> bool {
        forall|other: Seq<char>| #[trigger]
            self.pads->0.contains_key(other) && other != name ==> self.pads->0[other].id
                != self.pads->0[name].id
    }
}

/// A scratchpad that was added is there as it was given, with the windows that its application
/// had. No other scratchpad changes.
pub proof fn add_configures(store: Store, pad: Pad, windows: Set<i64>, other: Seq<char>)
    requires
        store.intact(),
        other != pad.name,
    ensures
        store.addition(pad, windows).1 == Reply::Done,
        ({
            let after = store.addition(pad, windows).0;
            &&& after.has(pad.name)
            &&& after.pads->0[pad.name] == pad
            &&& after.windows_of(pad.id) == windows
            &&& after.has(other) == store.has(other)
            &&& after.has(other) ==> after.pads->0[other] == store.pads->0[other]
        }),
{
}

/// A scratchpad that was removed is gone, its application is no longer followed, and it cannot be
/// removed again. No other scratchpad changes.
pub proof fn remove_unconfigures(store: Store, name: Seq<char>, other: Seq<char>)
    requires
        store.intact(),
        store.has(name),
        other != name,
    ensures
        store.removal(name).1 == Reply::Done,
        ({
            let after = store.removal(name).0;
            &&& !after.has(name)
            &&& !after.status->0.contains_key(store.pads->0[name].id)
            &&& after.removal(name) == (after, Reply::BadInput)
            &&& after.has(other) == store.has(other)
            &&& after.has(other) ==> after.pads->0[other] == store.pads->0[other]
        }),
{
}

/// To remove a scratchpad right after it was added brings the scratchpads back; and the whole
/// store, unless its application was followed before.
pub proof fn remove_undoes_add(store: Store, pad: Pad, windows: Set<i64>)
    requires
        store.intact(),
        !store.has(pad.name),
    ensures
        ({
            let after = store.addition(pad, windows).0.removal(pad.name).0;
            &&& after.pads == store.pads
            &&& !store.status->0.contains_key(pad.id) ==> after == store
        }),
{
    let after = store.addition(pad, windows).0.removal(pad.name).0;
    assert(after.pads->0 =~= store.pads->0);
    if !store.status->0.contains_key(pad.id) {
        assert(after.status->0 =~= store.status->0);
    }
}

/// A request to add that does not succeed changes nothing.
pub proof fn failed_add_changes_nothing(store: Store, pad: Pad, windows: Set<i64>)
    requires
        store.addition(pad, windows).1 != Reply::Done,
    ensures
        store.addition(pad, windows).0 == store,
{
}

/// A request to remove that does not succeed changes nothing, unless the status of the
/// applications cannot be had.
pub proof fn failed_removal_changes_nothing(store: Store, name: Seq<char>)
    requires
        store.status is Some,
        store.removal(name).1 != Reply::Done,
    ensures
        store.removal(name).0 == store,
{
}

/// A daemon starts out following the applications of its scratchpads, all of them and no others.
/// They count as shown, and their windows are those in the layout tree.
pub proof fn startup_follows(pads: Map<Seq<char>, Pad>, tree: Node, name: Seq<char>)
    ensures
        Store::configured(pads).follows_only_configured(),
        Store::configured(pads).follows_all_configured(),
        ({
            let status = crate::store::with_windows(crate::store::initial_status(pads), tree);
            let started = Store { pads: Some(pads), status: Some(status) };
            &&& started.follows_only_configured()
            &&& started.follows_all_configured()
            &&& pads.contains_key(name) ==> status[pads[name].id] == (Tracking {
                active: tree.windows(pads[name].id),
                showing: true,
            })
        }),
{
    let first = crate::store::initial_status(pads);
    let started = Store {
        pads: Some(pads),
        status: Some(crate::store::with_windows(first, tree)),
    };
    assert forall|id: Seq<char>| #[trigger] first.contains_key(id) implies started.configures(id)
        && Store::configured(pads).configures(id) by {
        let n = choose|n: Seq<char>| #[trigger] pads.contains_key(n) && pads[n].id == id;
        assert(started.pads->0.contains_key(n));
        assert(Store::configured(pads).pads->0.contains_key(n));
    }
    assert forall|n: Seq<char>| #[trigger] pads.contains_key(n) implies first.contains_key(
        pads[n].id,
    ) by {}
    assert(started.status->0.dom() =~= first.dom());
    if pads.contains_key(name) {
        let id = pads[name].id;
        assert(crate::store::initial_status(pads).contains_key(id));
        assert(Set::<i64>::empty().union(tree.windows(id)) =~= tree.windows(id));
    }
}

/// A daemon that starts with the scratchpads of another store has the same scratchpads, and all
/// that it follows counts as shown, whatever counted as shown there.
pub proof fn restart_shows_all(store: Store, tree: Node, id: Seq<char>)
    requires
        store.pads is Some,
    ensures
        Store::configured(store.pads->0).pads == store.pads,
        ({
            let first = Store::configured(store.pads->0).status->0;
            let status = crate::store::with_windows(first, tree);
            &&& first.contains_key(id) ==> first[id].showing
            &&& status.contains_key(id) == first.contains_key(id)
            &&& status.contains_key(id) ==> status[id].showing
        }),
{
}

/// To add a scratchpad under a new name keeps it so that only applications of scratchpads are
/// followed.
pub proof fn add_keeps_only_configured(store: Store, pad: Pad, windows: Set<i64>)
    requires
        store.follows_only_configured(),
        !store.has(pad.name),
    ensures
        store.addition(pad, windows).0.follows_only_configured(),
{
    let after = store.addition(pad, windows).0;
    if store.intact() {
        assert forall|id: Seq<char>| #[trigger] after.status->0.contains_key(id) implies after.configures(
            id,
        ) by {
            if id == pad.id {
                assert(after.pads->0.contains_key(pad.name));
            } else {
                assert(store.status->0.contains_key(id));
                let name = choose|name: Seq<char>| #[trigger]
                    store.pads->0.contains_key(name) && store.pads->0[name].id == id;
                assert(after.pads->0.contains_key(name));
            }
        }
    }
}

/// To add a scratchpad keeps it so that the applications of all scratchpads are followed.
pub proof fn add_keeps_all_configured(store: Store, pad: Pad, windows: Set<i64>)
    requires
        store.follows_all_configured(),
    ensures
        store.addition(pad, windows).0.follows_all_configured(),
{
    let after = store.addition(pad, windows).0;
    if store.intact() {
        assert forall|name: Seq<char>| #[trigger]
            after.pads->0.contains_key(name) implies after.status->0.contains_key(
            after.pads->0[name].id,
        ) by {
            if name != pad.name {
                assert(store.pads->0.contains_key(name));
            }
        }
    }
}

/// To remove a scratchpad keeps it so that only applications of scratchpads are followed.
pub proof fn remove_keeps_only_configured(store: Store, name: Seq<char>)
    requires
        store.follows_only_configured(),
    ensures
        store.removal(name).0.follows_only_configured(),
{
    let after = store.removal(name).0;
    if store.intact() && store.has(name) {
        assert forall|id: Seq<char>| #[trigger] after.status->0.contains_key(id) implies after.configures(
            id,
        ) by {
            assert(store.status->0.contains_key(id));
            let other = choose|other: Seq<char>| #[trigger]
                store.pads->0.contains_key(other) && store.pads->0[other].id == id;
            assert(after.pads->0.contains_key(other));
        }
    }
}

/// To remove a scratchpad keeps it so that the applications of all scratchpads are followed,
/// unless another one has the same application.
pub proof fn remove_keeps_all_configured(store: Store, name: Seq<char>)
    requires
        store.follows_all_configured(),
        store.intact() && store.has(name) ==> store.owns_its_id(name),
    ensures
        store.removal(name).0.follows_all_configured(),
{
    let after = store.removal(name).0;
    if store.intact() && store.has(name) {
        assert forall|other: Seq<char>| #[trigger]
            after.pads->0.contains_key(other) implies after.status->0.contains_key(
            after.pads->0[other].id,
        ) by {
            assert(store.pads->0.contains_key(other));
        }
    }
}

/// Whatever is heard of a window, the scratchpads stay, the same applications are followed, and
/// each counts as shown or hidden as before.
pub proof fn listening_keeps_configuration(
    store: Store,
    event: WindowEvent,
    link: Link,
    after: Store,
    step: ListenStep,
)
    requires
        store.window_step(event, link, after, step),
    ensures
        after.pads == store.pads,
        after.status is Some == store.status is Some,
        store.status is Some ==> after.status->0.dom() == store.status->0.dom(),
        store.status is Some ==> forall|id: Seq<char>| #[trigger]
            store.status->0.contains_key(id) ==> after.status->0[id].showing
                == store.status->0[id].showing,
        store.follows_only_configured() ==> after.follows_only_configured(),
        store.follows_all_configured() ==> after.follows_all_configured(),
{
    if store.status is Some {
        assert(after.status->0.dom() =~= store.status->0.dom());
        assert(forall|id: Seq<char>| after.configures(id) == store.configures(id));
    }
}

/// What is heard of a window leaves the windows of every other application alone.
pub proof fn listening_keeps_others(
    store: Store,
    event: WindowEvent,
    link: Link,
    after: Store,
    step: ListenStep,
    app: Seq<char>,
)
    requires
        store.window_step(event, link, after, step),
        !event.is_of(app),
    ensures
        after.windows_of(app) == store.windows_of(app),
{
}

/// To toggle keeps the scratchpads, the windows of every application and whether it is followed,
/// and whether any other application counts as shown.
pub proof fn toggle_keeps_the_rest(store: Store, name: Seq<char>, pad: Pad, other: Seq<char>)
    requires
        store.turn(name) == Turn::Flip(pad),
    ensures
        ({
            let after = store.flipped(pad.id);
            &&& after.pads == store.pads
            &&& after.status->0.dom() == store.status->0.dom()
            &&& after.windows_of(other) == store.windows_of(other)
            &&& other != pad.id && store.status->0.contains_key(other) ==> after.status->0[other]
                == store.status->0[other]
            &&& store.follows_only_configured() ==> after.follows_only_configured()
            &&& store.follows_all_configured() ==> after.follows_all_configured()
        }),
{
    let after = store.flipped(pad.id);
    assert(store.status->0.contains_key(pad.id));
    assert(after.status->0.dom() =~= store.status->0.dom());
    assert(forall|id: Seq<char>| after.configures(id) == store.configures(id));
}

/// To start an application keeps the scratchpads, the windows of every application and whether it
/// is followed, and whether any other application counts as shown.
pub proof fn launch_keeps_the_rest(store: Store, name: Seq<char>, pad: Pad, other: Seq<char>)
    requires
        store.turn(name) == Turn::Launch(pad),
    ensures
        ({
            let after = store.awaiting(pad.id);
            &&& after.pads == store.pads
            &&& after.status->0.dom() == store.status->0.dom()
            &&& after.windows_of(other) == store.windows_of(other)
            &&& other != pad.id && store.status->0.contains_key(other) ==> after.status->0[other]
                == store.status->0[other]
            &&& store.follows_only_configured() ==> after.follows_only_configured()
            &&& store.follows_all_configured() ==> after.follows_all_configured()
        }),
{
    let after = store.awaiting(pad.id);
    assert(after.status->0.dom() =~= store.status->0.dom());
    assert(forall|id: Seq<char>| after.configures(id) == store.configures(id));
}

impl Store {
    /// Whether one request, answered in full, or one event turns the store into `after`. A
    /// scratchpad is added only under a new name.
    pub open spec fn can_become(self, after: Store) -> bool {
        ||| exists|pad: Pad, windows: Set<i64>|
            !self.has(pad.name) && after == (#[trigger] self.addition(pad, windows)).0
        ||| exists|name: Seq<char>| after == (#[trigger] self.removal(name)).0
        ||| exists|name: Seq<char>, pad: Pad|
            #![trigger self.turn(name), self.flipped(pad.id)]
            self.turn(name) == Turn::Flip(pad) && after == self.flipped(pad.id)
        ||| exists|name: Seq<char>, pad: Pad|
            #![trigger self.turn(name), self.awaiting(pad.id)]
            self.turn(name) == Turn::Launch(pad) && after == self.awaiting(pad.id)
        ||| exists|event: WindowEvent, link: Link, step: ListenStep| #[trigger]
            self.window_step(event, link, after, step)
    }
}

/// At every time in the life of a daemon, only applications of scratchpads are followed: it holds
/// of the first store in `life`, and each store comes of the one before.
pub proof fn always_only_configured(life: Seq<Store>, i: int)
    requires
        0 <= i < life.len(),
        life[0].follows_only_configured(),
        forall|j: int| 0 <= j < life.len() - 1 ==> (#[trigger] life[j]).can_become(life[j + 1]),
    ensures
        life[i].follows_only_configured(),
    decreases i,
{
    if i > 0 {
        always_only_configured(life, i - 1);
        let store = life[i - 1];
        let after = life[i];
        assert(store.can_become(life[i - 1 + 1]));
        if exists|pad: Pad, windows: Set<i64>|
            !store.has(pad.name) && after == (#[trigger] store.addition(pad, windows)).0 {
            let (pad, windows) = choose|pad: Pad, windows: Set<i64>|
                !store.has(pad.name) && after == (#[trigger] store.addition(pad, windows)).0;
            add_keeps_only_configured(store, pad, windows);
        } else if exists|name: Seq<char>| after == (#[trigger] store.removal(name)).0 {
            let name = choose|name: Seq<char>| after == (#[trigger] store.removal(name)).0;
            remove_keeps_only_configured(store, name);
        } else if exists|name: Seq<char>, pad: Pad|
            #![trigger store.turn(name), store.flipped(pad.id)]
            store.turn(name) == Turn::Flip(pad) && after == store.flipped(pad.id) {
            let (name, pad) = choose|name: Seq<char>, pad: Pad|
                #![trigger store.turn(name), store.flipped(pad.id)]
                store.turn(name) == Turn::Flip(pad) && after == store.flipped(pad.id);
            toggle_keeps_the_rest(store, name, pad, pad.id);
        } else if exists|name: Seq<char>, pad: Pad|
            #![trigger store.turn(name), store.awaiting(pad.id)]
            store.turn(name) == Turn::Launch(pad) && after == store.awaiting(pad.id) {
            let (name, pad) = choose|name: Seq<char>, pad: Pad|
                #![trigger store.turn(name), store.awaiting(pad.id)]
                store.turn(name) == Turn::Launch(pad) && after == store.awaiting(pad.id);
            launch_keeps_the_rest(store, name, pad, pad.id);
        } else {
            let (event, link, step) = choose|event: WindowEvent, link: Link, step: ListenStep|
                #[trigger] store.window_step(event, link, after, step);
            listening_keeps_configuration(store, event, link, after, step);
        }
    }
}

/// At every time in the life of a daemon, the applications of all scratchpads are followed: it
/// holds of the first store in `life`, each store comes of the one before, and no scratchpad is
/// removed while another has the same application.
pub proof fn always_all_configured(life: Seq<Store>, i: int)
    requires
        0 <= i < life.len(),
        life[0].follows_all_configured(),
        forall|j: int| 0 <= j < life.len() - 1 ==> (#[trigger] life[j]).can_become(life[j + 1]),
        forall|j: int, name: Seq<char>|
            0 <= j < life.len() - 1 && life[j].intact() && life[j].has(name) && life[j + 1] == (
            #[trigger] life[j].removal(name)).0 ==> life[j].owns_its_id(name),
    ensures
        life[i].follows_all_configured(),
    decreases i,
{
    if i > 0 {
        always_all_configured(life, i - 1);
        let store = life[i - 1];
        let after = life[i];
        assert(store.can_become(life[i - 1 + 1]));
        if exists|pad: Pad, windows: Set<i64>|
            !store.has(pad.name) && after == (#[trigger] store.addition(pad, windows)).0 {
            let (pad, windows) = choose|pad: Pad, windows: Set<i64>|
                !store.has(pad.name) && after == (#[trigger] store.addition(pad, windows)).0;
            add_keeps_all_configured(store, pad, windows);
        } else if exists|name: Seq<char>| after == (#[trigger] store.removal(name)).0 {
            let name = choose|name: Seq<char>| after == (#[trigger] store.removal(name)).0;
            assert(life[i - 1 + 1] == life[i - 1].removal(name).0);
            remove_keeps_all_configured(store, name);
        } else if exists|name: Seq<char>, pad: Pad|
            #![trigger store.turn(name), store.flipped(pad.id)]
            store.turn(name) == Turn::Flip(pad) && after == store.flipped(pad.id) {
            let (name, pad) = choose|name: Seq<char>, pad: Pad|
                #![trigger store.turn(name), store.flipped(pad.id)]
                store.turn(name) == Turn::Flip(pad) && after == store.flipped(pad.id);
            toggle_keeps_the_rest(store, name, pad, pad.id);
        } else if exists|name: Seq<char>, pad: Pad|
            #![trigger store.turn(name), store.awaiting(pad.id)]
            store.turn(name) == Turn::Launch(pad) && after == store.awaiting(pad.id) {
            let (name, pad) = choose|name: Seq<char>, pad: Pad|
                #![trigger store.turn(name), store.awaiting(pad.id)]
                store.turn(name) == Turn::Launch(pad) && after == store.awaiting(pad.id);
            launch_keeps_the_rest(store, name, pad, pad.id);
        } else {
            let (event, link, step) = choose|event: WindowEvent, link: Link, step: ListenStep|
                #[trigger] store.window_step(event, link, after, step);
            listening_keeps_configuration(store, event, link, after, step);
        }
    }
}

/// Where the applications of all scratchpads are followed, what happens to a window of a
/// scratchpad is taken in.
pub proof fn windows_of_scratchpads_are_followed(store: Store, name: Seq<char>, event: WindowEvent)
    requires
        store.intact(),
        store.follows_all_configured(),
        store.has(name),
        event.is_of(store.pads->0[name].id),
    ensures
        store.follows(event),
{
}

/// To toggle twice turns the windows back: what was hidden is shown, then hidden again, or the
/// other way round, and the store is as before.
pub proof fn toggle_twice(store: Store, name: Seq<char>, pad: Pad)
    requires
        store.turn(name) == Turn::Flip(pad),
    ensures
        store.flipped(pad.id).turn(name) == Turn::Flip(pad),
        store.flipped(pad.id).status->0[pad.id].showing != store.status->0[pad.id].showing,
        store.flipped(pad.id).flipped(pad.id) == store,
{
    let after = store.flipped(pad.id).flipped(pad.id);
    assert(store.status->0.contains_key(pad.id));
    assert(after.status->0[pad.id] =~= store.status->0[pad.id]);
    assert(after.status->0 =~= store.status->0);
}

/// The application of a scratchpad is started exactly when it has no windows.
pub proof fn launch_without_windows(store: Store, name: Seq<char>)
    requires
        store.intact(),
        store.has(name),
    ensures
        store.turn(name) is Launch <==> store.windows_of(store.pads->0[name].id) == Set::<
            i64,
        >::empty(),
        store.turn(name) is Flip <==> store.windows_of(store.pads->0[name].id) != Set::<
            i64,
        >::empty(),
{
}

/// Where an application is started because it has no windows, the window that it opens is shown,
/// whether the application counted as shown or hidden before; to toggle again hides it.
pub proof fn launched_window_is_shown(store: Store, name: Seq<char>, pad: Pad, win: i64)
    requires
        store.turn(name) == Turn::Launch(pad),
        store.status->0.contains_key(pad.id),
    ensures
        store.awaiting(pad.id).greeting(pad.id, win) == crate::sway::show_commands(win),
        ({
            let after = store.awaiting(pad.id).opened(pad.id, win);
            &&& after.turn(name) == Turn::Flip(pad)
            &&& after.flipping(pad.id, seq![crate::sway::hide_command(win)])
        }),
{
    let after = store.awaiting(pad.id).opened(pad.id, win);
    let order = seq![win];
    assert(after.windows_of(pad.id).contains(win));
    assert(order.to_set() =~= after.status->0[pad.id].active) by {
        assert(order[0] == win);
    }
    assert(crate::sway::lists(order, after.status->0[pad.id].active));
    assert(crate::sway::hide_all(order) =~= seq![crate::sway::hide_command(win)]);
}

/// To toggle a scratchpad that is hidden shows it: the windows that it has are shown, or its
/// application is started, and either way it counts as shown.
pub proof fn toggle_shows_what_is_hidden(store: Store, name: Seq<char>, commands: Seq<Seq<char>>)
    requires
        store.intact(),
        store.has(name),
        store.status->0.contains_key(store.pads->0[name].id),
        !store.status->0[store.pads->0[name].id].showing,
    ensures
        ({
            let pad = store.pads->0[name];
            match store.turn(name) {
                Turn::Refuse(_) => false,
                Turn::Launch(one) => one == pad && store.awaiting(pad.id).status->0[pad.id].showing,
                Turn::Flip(one) => {
                    &&& one == pad
                    &&& store.flipping(pad.id, commands) == crate::sway::shows(
                        commands,
                        store.windows_of(pad.id),
                    )
                    &&& store.flipped(pad.id).status->0[pad.id].showing
                },
            }
        }),
{
}

/// To toggle a scratchpad whose windows are on show hides them.
pub proof fn toggle_hides_what_is_shown(store: Store, name: Seq<char>, commands: Seq<Seq<char>>)
    requires
        store.intact(),
        store.has(name),
        store.windows_of(store.pads->0[name].id) != Set::<i64>::empty(),
        store.status->0[store.pads->0[name].id].showing,
    ensures
        ({
            let pad = store.pads->0[name];
            &&& store.turn(name) == Turn::Flip(pad)
            &&& store.flipping(pad.id, commands) == crate::sway::hides(
                commands,
                store.windows_of(pad.id),
            )
            &&& !store.flipped(pad.id).status->0[pad.id].showing
        }),
{
}

/// Once a window of a scratchpad opened, to toggle the scratchpad turns that window rather than
/// start the application again.
pub proof fn open_then_toggle(store: Store, name: Seq<char>, win: i64)
    requires
        store.intact(),
        store.has(name),
        store.status->0.contains_key(store.pads->0[name].id),
    ensures
        ({
            let pad = store.pads->0[name];
            let after = store.opened(pad.id, win);
            &&& after.windows_of(pad.id).contains(win)
            &&& after.turn(name) == Turn::Flip(pad)
        }),
{
    let pad = store.pads->0[name];
    assert(store.opened(pad.id, win).windows_of(pad.id).contains(win));
}

/// Once the last window of a scratchpad closed, to toggle the scratchpad starts its application.
pub proof fn close_then_toggle(store: Store, name: Seq<char>, win: i64)
    requires
        store.intact(),
        store.has(name),
        store.windows_of(store.pads->0[name].id) == set![win],
    ensures
        store.closed(store.pads->0[name].id, win).turn(name) == Turn::Launch(store.pads->0[name]),
{
    let pad = store.pads->0[name];
    assert(store.windows_of(pad.id).contains(win));
    assert(store.closed(pad.id, win).windows_of(pad.id) =~= Set::<i64>::empty());
}

/// A window that opens and closes leaves the store as if it had closed only; and as it was, if
/// the window was not known.
pub proof fn close_undoes_open(store: Store, app: Seq<char>, win: i64)
    requires
        store.status is Some,
        store.status->0.contains_key(app),
    ensures
        store.opened(app, win).closed(app, win) == store.closed(app, win),
        !store.windows_of(app).contains(win) ==> store.closed(app, win) == store,
{
    let was = store.status->0[app];
    let after = store.opened(app, win).closed(app, win);
    assert(was.active.insert(win).remove(win) =~= was.active.remove(win));
    assert(after.status->0 =~= store.closed(app, win).status->0);
    if !was.active.contains(win) {
        assert(was.active.remove(win) =~= was.active);
        assert(store.closed(app, win).status->0[app] =~= was);
        assert(store.closed(app, win).status->0 =~= store.status->0);
    }
}

/// To hear of the same new window again changes nothing more.
pub proof fn open_again(store: Store, app: Seq<char>, win: i64)
    requires
        store.status is Some,
        store.status->0.contains_key(app),
    ensures
        store.opened(app, win).opened(app, win) == store.opened(app, win),
{
    let was = store.status->0[app];
    assert(was.active.insert(win).insert(win) =~= was.active.insert(win));
    assert(store.opened(app, win).opened(app, win).status->0 =~= store.opened(
        app,
        win,
    ).status->0);
}

/// No step of saving answers that a scratchpad must not be named, and none but the last, a file
/// that was written, answers success.
pub proof fn saving_answers(store: Store, event: SaveEvent)
    ensures
        store.saving(event) != SaveWork::Answer(Reply::BadInput),
        store.saving(event) == SaveWork::Answer(Reply::Done) <==> (event matches SaveEvent::Written(
            result,
        ) && result is Ok),
{
}

/// What the work of saving comes to.
pub struct World {
    pub encoded: Result<(), String>,
    pub located: bool,
    pub base_found: bool,
    pub dir_found: bool,
    pub created: Result<(), String>,
    pub written: Result<(), String>,
}

impl World {
    /// What is known after a piece of work.
    pub open spec fn after(self, work: SaveWork) -> SaveEvent {
        match work {
            SaveWork::Encode => SaveEvent::Encoded(self.encoded),
            SaveWork::Locate => SaveEvent::Located(self.located),
            SaveWork::FindBase => SaveEvent::BaseFound(self.base_found),
            SaveWork::FindDir => SaveEvent::DirFound(self.dir_found),
            SaveWork::Create => SaveEvent::Created(self.created),
            SaveWork::Write => SaveEvent::Written(self.written),
            SaveWork::Answer(_) => SaveEvent::Begin,
        }
    }
}

impl Store {
    /// The answer that saving comes to in at most `steps` steps from `event` on.
    pub open spec fn saved(self, world: World, event: SaveEvent, steps: nat) -> Option<Reply>
        decreases steps,
    {
        match self.saving(event) {
            SaveWork::Answer(reply) => Some(reply),
            work => if steps == 0 {
                None
            } else {
                self.saved(world, world.after(work), (steps - 1) as nat)
            },
        }
    }
}

/// Saving ends with an answer. It is success exactly when the scratchpads can be had and turned
/// into text, the user's directory for configurations is known and exists, the directory in it
/// exists or can be created, and the file can be written.
pub proof fn saving_ends(store: Store, world: World)
    ensures
        store.saved(world, SaveEvent::Begin, 6) is Some,
        store.saved(world, SaveEvent::Begin, 6) == Some(Reply::Done) <==> {
            &&& store.pads is Some
            &&& world.encoded is Ok
            &&& world.located
            &&& world.base_found
            &&& world.dir_found || world.created is Ok
            &&& world.written is Ok
        },
{
    reveal_with_fuel(Store::saved, 7);
}

/// The client reads an answer to saving that it can handle, unless the scratchpads could not be
/// turned into text for a reason that reads like the refusal of a name.
pub proof fn saving_answers_are_read(store: Store, event: SaveEvent, reply: Reply)
    requires
        store.saving(event) == SaveWork::Answer(reply),
        event matches SaveEvent::Encoded(Err(e)) ==> e@ != "bad_input"@,
    ensures
        Ask::Save.admits(Reply::decode(reply.encode())),
{
    crate::reply::only_ok_is_ok(reply.encode());
    reveal_strlit("ok");
    reveal_strlit("bad_input");
    reveal_strlit("Could not access local data.");
    reveal_strlit("Could not determine config directory.");
    reveal_strlit("Could not create config directory: ");
    reveal_strlit("Could not write config file: ");
    if reply.encode() == "bad_input"@ {
        assert(reply.encode()[0] == 'b');
    }
}

/// A scratchpad whose name does not begin with `-` is toggled by its name alone.
pub proof fn plain_name_toggles(name: Seq<char>)
    requires
        !(name.len() > 0 && name[0] == '-'),
    ensures
        crate::cli::intent(seq![name]) == Intent::Call(Ask::Toggle(name)),
{
    reveal_strlit("-d");
    reveal_strlit("-a");
    reveal_strlit("-r");
    reveal_strlit("-s");
    assert("-d"@[0] == '-' && "-a"@[0] == '-' && "-r"@[0] == '-' && "-s"@[0] == '-');
}

/// Nothing but a single word that does not begin with `-` toggles a scratchpad.
pub proof fn only_plain_name_toggles(args: Seq<Seq<char>>, name: Seq<char>)
    requires
        crate::cli::intent(args) == Intent::Call(Ask::Toggle(name)),
    ensures
        args == seq![name],
        !(name.len() > 0 && name[0] == '-'),
{
    assert(args =~= seq![name]);
}

/// A command for one window is no command for another.
pub proof fn commands_name_their_window(a: i64, b: i64, command: Seq<char>)
    requires
        crate::sway::command_for(a, command) == crate::sway::command_for(b, command),
    ensures
        a == b,
{
    let front = "[con_id="@;
    let back = "] "@ + command;
    let da = crate::text::decimal(a as int);
    let db = crate::text::decimal(b as int);
    let whole = crate::sway::command_for(a, command);
    assert(whole =~= front + da + back);
    assert(crate::sway::command_for(b, command) =~= front + db + back);
    assert(whole.len() == front.len() + da.len() + back.len());
    assert(da =~= whole.subrange(front.len() as int, (front.len() + da.len()) as int));
    assert(db =~= whole.subrange(front.len() as int, (front.len() + db.len()) as int));
    crate::text::decimal_injective(a as int, b as int);
}

/// What the daemon answers of its own accord reaches the client as it was meant.
pub proof fn own_answers_arrive(reply: Reply)
    requires
        reply == Reply::Done || reply == Reply::BadInput || reply == Reply::local_data() || reply
            == crate::save::no_config_dir(),
    ensures
        Reply::decode(reply.encode()) == reply,
{
    reveal_strlit("ok");
    reveal_strlit("bad_input");
    reveal_strlit("Could not access local data.");
    reveal_strlit("Could not determine config directory.");
    assert("ok"@[0] == 'o' && "bad_input"@[0] == 'b');
    assert("Could not access local data."@[0] == 'C');
    assert("Could not determine config directory."@[0] == 'C');
    crate::reply::decode_encode(reply);
}

/// The answers to a removal, to an addition that sway took part in, and to the toggling of a name
/// with nothing to toggle, reach the client as they were meant.
pub proof fn request_answers_arrive(store: Store, name: Seq<char>, pad: Pad, windows: Set<i64>)
    ensures
        Reply::decode(store.removal(name).1.encode()) == store.removal(name).1,
        Reply::decode(store.addition(pad, windows).1.encode()) == store.addition(pad, windows).1,
        store.turn(name) matches Turn::Refuse(reply) ==> Reply::decode(reply.encode()) == reply,
{
    own_answers_arrive(store.removal(name).1);
    own_answers_arrive(store.addition(pad, windows).1);
    if store.turn(name) is Refuse {
        own_answers_arrive(store.turn(name)->Refuse_0);
    }
}

} // verus!
