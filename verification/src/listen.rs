//! Following the windows that open and close.

use vstd::prelude::*;
use crate::pad::Tracking;
use crate::store::{EXIT_FAILURE, ScratchpadStore, Store};
use crate::sway;
use crate::text;
use crate::toggle::Link;

verus! {

/// What happened to a window.
pub enum WindowChange {
    /// It opened.
    New,
    /// It closed.
    Close,
    /// Anything else.
    Other,
}

/// A window, and what happened to it.
pub struct WindowEvent {
    pub change: WindowChange,
    /// The id of the window.
    pub id: i64,
    /// The application that the window belongs to, if it says.
    pub app_id: Option<String>,
}

/// What the listener hears.
pub enum Heard {
    /// Sway sends its events.
    Subscribed,
    /// Sway cannot be had, or does not send its events.
    NotSubscribed,
    /// The events end.
    Ended,
    /// An event cannot be read.
    Broken,
    /// An event that is not about a window.
    Unrelated,
    /// An event about a window.
    Window(WindowEvent),
}

/// What the listener does next.
pub enum ListenStep {
    /// To subscribe to the events.
    Subscribe,
    /// To wait for the next event.
    Wait,
    /// To connect to sway, and to take the same event again with the connection.
    Connect,
    /// To send commands to sway, then to wait for the next event.
    Send(Vec<String>),
    /// To end the daemon with an exit code.
    Exit(i32),
}

impl WindowEvent {
    /// Whether the event is about a window of `app`.
    pub open spec fn is_of(self, app: Seq<char>) -> bool {
        self.app_id is Some && self.app_id->0@ == app
    }
}

impl Store {
    /// Whether the windows of the application in `event` are followed.
    pub open spec fn follows(self, event: WindowEvent) -> bool {
        &&& self.status is Some
        &&& event.app_id is Some
        &&& self.status->0.contains_key(event.app_id->0@)
    }

    /// The store after the window `win` of `app` opened.
    pub open spec fn opened(self, app: Seq<char>, win: i64) -> Store {
        let was = self.status->0[app];
        Store {
            pads: self.pads,
            status: Some(
                self.status->0.insert(
                    app,
                    Tracking { active: was.active.insert(win), showing: was.showing },
                ),
            ),
        }
    }

    /// The store after the window `win` of `app` closed.
    pub open spec fn closed(self, app: Seq<char>, win: i64) -> Store {
        let was = self.status->0[app];
        Store {
            pads: self.pads,
            status: Some(
                self.status->0.insert(
                    app,
                    Tracking { active: was.active.remove(win), showing: was.showing },
                ),
            ),
        }
    }

    /// The commands for a new window of `app`: it is shown or hidden as the others are.
    pub open spec fn greeting(self, app: Seq<char>, win: i64) -> Seq<Seq<char>> {
        if self.status->0[app].showing {
            sway::show_commands(win)
        } else {
            seq![sway::hide_command(win)]
        }
    }

    /// Whether `after` and `step` are what comes of the event `event`.
    pub open spec fn window_step(
        self,
        event: WindowEvent,
        link: Link,
        after: Store,
        step: ListenStep,
    ) -> bool {
        if !self.follows(event) {
            after == self && step is Wait
        } else {
            let app = event.app_id->0@;
            match event.change {
                WindowChange::New => match link {
                    Link::Untried => after == self && step is Connect,
                    Link::Down(_) => after == self && step is Wait,
                    Link::Up => {
                        &&& after == self.opened(app, event.id)
                        &&& step matches ListenStep::Send(commands) && text::texts(commands@)
                            == self.greeting(app, event.id)
                    },
                },
                WindowChange::Close => after == self.closed(app, event.id) && step is Wait,
                WindowChange::Other => after == self && step is Wait,
            }
        }
    }
}

impl ScratchpadStore {
    /// Takes in what the listener hears, and says what it does next.
    pub fn listen(&mut self, heard: &Heard, link: Link) -> (r: ListenStep)
        ensures
            match *heard {
                Heard::Subscribed => r is Wait && final(self)@ == old(self)@,
                Heard::NotSubscribed => r == ListenStep::Exit(EXIT_FAILURE) && final(self)@ == old(
                    self)@,
                Heard::Ended => r is Subscribe && final(self)@ == old(self)@,
                Heard::Broken => r is Subscribe && final(self)@ == old(self)@,
                Heard::Unrelated => r is Wait && final(self)@ == old(self)@,
                Heard::Window(event) => old(self)@.window_step(event, link, final(self)@, r),
            },
    {
        match heard {
            Heard::Subscribed => ListenStep::Wait,
            Heard::NotSubscribed => ListenStep::Exit(EXIT_FAILURE),
            Heard::Ended => ListenStep::Subscribe,
            Heard::Broken => ListenStep::Subscribe,
            Heard::Unrelated => ListenStep::Wait,
            Heard::Window(event) => self.window_event(event, link),
        }
    }

    fn window_event(&mut self, event: &WindowEvent, link: Link) -> (r: ListenStep)
        ensures
            old(self)@.window_step(*event, link, final(self)@, r),
    {
        let Some(app) = &event.app_id else {
            return ListenStep::Wait;
        };
        match event.change {
            WindowChange::New => match link {
                Link::Untried => {
                    let Some(status) = self.status_read() else {
                        return ListenStep::Wait;
                    };
                    if status.contains_key(app.as_str()) {
                        ListenStep::Connect
                    } else {
                        ListenStep::Wait
                    }
                },
                Link::Down(_) => ListenStep::Wait,
                Link::Up => {
                    let Some(status) = self.status_write() else {
                        return ListenStep::Wait;
                    };
                    let Some(mut one) = status.remove(app.as_str()) else {
                        assert(old(self)@.status->0.remove(app@) =~= old(self)@.status->0);
                        return ListenStep::Wait;
                    };
                    let mut commands: Vec<String> = Vec::new();
                    if one.showing {
                        commands = sway::show(event.id);
                    } else {
                        commands.push(sway::hide_window(event.id));
                        assert(text::texts(commands@) =~= seq![sway::hide_command(event.id)]);
                    }
                    one.active.insert(event.id);
                    status.insert(app.clone(), one);
                    assert(self@.status->0 =~= old(self)@.opened(app@, event.id).status->0);
                    ListenStep::Send(commands)
                },
            },
            WindowChange::Close => {
                let Some(status) = self.status_write() else {
                    return ListenStep::Wait;
                };
                let Some(mut one) = status.remove(app.as_str()) else {
                    assert(old(self)@.status->0.remove(app@) =~= old(self)@.status->0);
                    return ListenStep::Wait;
                };
                one.active.remove(&event.id);
                status.insert(app.clone(), one);
                assert(self@.status->0 =~= old(self)@.closed(app@, event.id).status->0);
                ListenStep::Wait
            },
            WindowChange::Other => ListenStep::Wait,
        }
    }
}

} // verus!
