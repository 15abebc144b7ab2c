//! Scratchpads, and what is known of their windows.

use std::collections::HashSet;
use vstd::prelude::*;
use crate::text;

verus! {

/// A scratchpad: an application, and the command that starts it.
pub struct Scratchpad {
    /// The name that requests know it by.
    pub name: String,
    /// The id that the windows of the application carry.
    pub id: String,
    /// The program to run.
    pub program: String,
    /// The arguments of the program.
    pub args: Vec<String>,
}

/// What a [`Scratchpad`] holds.
pub struct Pad {
    pub name: Seq<char>,
    pub id: Seq<char>,
    pub program: Seq<char>,
    pub args: Seq<Seq<char>>,
}

impl View for Scratchpad {
    type V = Pad;

    open spec fn view(&self) -> Pad {
        Pad {
            name: self.name@,
            id: self.id@,
            program: self.program@,
            args: text::texts(self.args@),
        }
    }
}

/// The windows of an application, and whether they are on show.
pub struct Status {
    /// The windows that are open.
    pub active: HashSet<i64>,
    /// Whether they are on show, rather than hidden.
    pub showing: bool,
}

/// What a [`Status`] holds.
#[verifier::ext_equal]
pub struct Tracking {
    pub active: Set<i64>,
    pub showing: bool,
}

impl View for Status {
    type V = Tracking;

    open spec fn view(&self) -> Tracking {
        Tracking { active: self.active@, showing: self.showing }
    }
}

impl Tracking {
    /// An application without windows. The first one to open is shown.
    pub open spec fn fresh() -> Tracking {
        Tracking { active: Set::empty(), showing: true }
    }
}

impl Status {
    /// An application without windows.
    pub fn new() -> (r: Self)
        ensures
            r@ == Tracking::fresh(),
    {
        Status { active: HashSet::new(), showing: true }
    }
}

} // verus!
