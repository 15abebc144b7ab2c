//! Showing and hiding a scratchpad.

use vstd::prelude::*;
use crate::pad::{Pad, Tracking};
use crate::reply::{CmdResult, Reply};
use crate::store::{ScratchpadStore, Store};
use crate::sway;
use crate::text;

verus! {

/// Whether there is a connection to sway.
pub enum Link {
    /// None was tried.
    Untried,
    /// There is one.
    Up,
    /// There is none, for the reason given.
    Down(String),
}

/// What a request to toggle a scratchpad comes to.
pub enum ToggleStep {
    /// The answer.
    Answer(CmdResult),
    /// A connection to sway is needed, and the request is to be made again with it.
    Connect,
    /// To start the application, then to answer.
    Launch { program: String, args: Vec<String>, reply: CmdResult },
    /// To send commands to sway, then to answer.
    Send { commands: Vec<String>, reply: CmdResult },
}

/// What there is to toggle under a name.
pub enum Turn {
    /// Nothing, and what is answered.
    Refuse(Reply),
    /// An application without windows.
    Launch(Pad),
    /// The windows of the application of a scratchpad.
    Flip(Pad),
}

impl Store {
    /// The windows of `app`, if it has a status.
    pub open spec fn windows_of(self, app: Seq<char>) -> Set<i64> {
        if self.status is Some && self.status->0.contains_key(app) {
            self.status->0[app].active
        } else {
            Set::empty()
        }
    }

    /// What there is to toggle under `name`.
    pub open spec fn turn(self, name: Seq<char>) -> Turn {
        if self.pads is None {
            Turn::Refuse(Reply::local_data())
        } else if !self.has(name) {
            Turn::Refuse(Reply::BadInput)
        } else if self.status is None {
            Turn::Refuse(Reply::local_data())
        } else if self.windows_of(self.pads->0[name].id) == Set::<i64>::empty() {
            Turn::Launch(self.pads->0[name])
        } else {
            Turn::Flip(self.pads->0[name])
        }
    }

    /// The store with the application `app` on show if it was hidden, and hidden if it was on
    /// show.
    pub open spec fn flipped(self, app: Seq<char>) -> Store {
        let was = self.status->0[app];
        Store {
            pads: self.pads,
            status: Some(
                self.status->0.insert(app, Tracking { active: was.active, showing: !was.showing }),
            ),
        }
    }

    /// The store with the application `app`, which is being started, on show: the windows that it
    /// opens are shown. An application that is not followed stays so.
    pub open spec fn awaiting(self, app: Seq<char>) -> Store {
        if self.status is Some && self.status->0.contains_key(app) {
            Store {
                pads: self.pads,
                status: Some(
                    self.status->0.insert(
                        app,
                        Tracking { active: self.status->0[app].active, showing: true },
                    ),
                ),
            }
        } else {
            self
        }
    }

    /// Whether `commands` turn the windows of `app` from hidden to shown, or back.
    pub open spec fn flipping(self, app: Seq<char>, commands: Seq<Seq<char>>) -> bool {
        let was = self.status->0[app];
        if was.showing {
            sway::hides(commands, was.active)
        } else {
            sway::shows(commands, was.active)
        }
    }
}

impl ScratchpadStore {
    /// Shows the windows of the scratchpad `name` if they are hidden, and hides them if they are
    /// on show. Without windows the application is started, and put on show.
    pub fn toggle(&mut self, name: &str, link: Link) -> (r: ToggleStep)
        ensures
            match old(self)@.turn(name@) {
                Turn::Refuse(reply) => {
                    &&& r matches ToggleStep::Answer(answer) && answer@ == reply
                    &&& final(self)@ == old(self)@
                },
                Turn::Launch(pad) => {
                    &&& r matches ToggleStep::Launch { program, args, reply } && program@
                        == pad.program && text::texts(args@) == pad.args && reply@ == Reply::Done
                    &&& final(self)@ == old(self)@.awaiting(pad.id)
                },
                Turn::Flip(pad) => match link {
                    Link::Untried => r is Connect && final(self)@ == old(self)@,
                    Link::Down(e) => {
                        &&& r matches ToggleStep::Answer(answer) && answer@ == Reply::Failed(e@)
                        &&& final(self)@ == old(self)@
                    },
                    Link::Up => {
                        &&& r matches ToggleStep::Send { commands, reply } && old(self)@.flipping(
                            pad.id,
                            text::texts(commands@),
                        ) && reply@ == Reply::Done
                        &&& final(self)@ == old(self)@.flipped(pad.id)
                    },
                },
            },
    {
        let Some(pads) = self.pads_read() else {
            return ToggleStep::Answer(CmdResult::local_data_err());
        };
        let Some(pad) = pads.get(name) else {
            return ToggleStep::Answer(CmdResult::BadInput);
        };
        let Some(status) = self.status_read() else {
            return ToggleStep::Answer(CmdResult::local_data_err());
        };
        let idle = match status.get(pad.id.as_str()) {
            Some(one) => one.active.is_empty(),
            None => true,
        };
        if idle {
            let id = pad.id.clone();
            let program = pad.program.clone();
            let args = copied(&pad.args);
            if let Some(status) = self.status_write() {
                if let Some(mut one) = status.remove(id.as_str()) {
                    one.showing = true;
                    status.insert(id, one);
                }
            }
            assert(self@.status->0 =~= old(self)@.awaiting(id@).status->0);
            return ToggleStep::Launch { program, args, reply: CmdResult::Done };
        }
        match link {
            Link::Untried => ToggleStep::Connect,
            Link::Down(e) => ToggleStep::Answer(CmdResult::Failed(e)),
            Link::Up => {
                let id = pad.id.clone();
                let mut commands: Vec<String> = Vec::new();
                if let Some(status) = self.status_write() {
                    if let Some(mut one) = status.remove(id.as_str()) {
                        if one.showing {
                            commands = sway::hide_windows(&one.active);
                            one.showing = false;
                        } else {
                            commands = sway::show_windows(&one.active);
                            one.showing = true;
                        }
                        status.insert(id, one);
                    }
                }
                assert(self@.status->0 =~= old(self)@.flipped(id@).status->0);
                ToggleStep::Send { commands, reply: CmdResult::Done }
            },
        }
    }
}

fn copied(list: &Vec<String>) -> (r: Vec<String>)
    ensures
        text::texts(r@) == text::texts(list@),
{
    let mut out: Vec<String> = Vec::new();
    let mut i: usize = 0;
    while i < list.len()
        invariant
            i <= list@.len(),
            out@.len() == i,
            forall|j: int| 0 <= j < i ==> out@[j] == list@[j],
        decreases list@.len() - i,
    {
        out.push(list[i].clone());
        i = i + 1;
    }
    assert(out@ =~= list@);
    out
}

} // verus!
