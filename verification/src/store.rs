//! The scratchpads that are configured, and the windows that they have.

use std::collections::HashSet;
use vstd::prelude::*;
use crate::pad::{Pad, Scratchpad, Status, Tracking};
use crate::reply::{CmdResult, Reply};
use crate::sway;
use crate::table::Table;
use crate::text;
use crate::tree::Node;

verus! {

/// The exit code after a failure that is nobody's input.
pub const EXIT_FAILURE: i32 = 10;

/// The scratchpads by name, and the status of their applications by id.
///
/// A table is missing when the lock that guards it is poisoned.
pub struct ScratchpadStore {
    pub pads: Option<Table<Scratchpad>>,
    pub status: Option<Table<Status>>,
}

/// What a [`ScratchpadStore`] holds.
pub struct Store {
    pub pads: Option<Map<Seq<char>, Pad>>,
    pub status: Option<Map<Seq<char>, Tracking>>,
}

impl View for ScratchpadStore {
    type V = Store;

    open spec fn view(&self) -> Store {
        Store {
            pads: match self.pads {
                Some(table) => Some(table@),
                None => None,
            },
            status: match self.status {
                Some(table) => Some(table@),
                None => None,
            },
        }
    }
}

/// The status table for `pads`: each application they name, without windows.
pub open spec fn initial_status(pads: Map<Seq<char>, Pad>) -> Map<Seq<char>, Tracking> {
    Map::new(
        |id: Seq<char>|
            exists|name: Seq<char>| #[trigger] pads.contains_key(name) && pads[name].id == id,
        |id: Seq<char>| Tracking::fresh(),
    )
}

/// A status table with the windows of a tree added to it.
pub open spec fn with_windows(status: Map<Seq<char>, Tracking>, tree: Node) -> Map<Seq<char>, Tracking> {
    Map::new(
        |id: Seq<char>| status.contains_key(id),
        |id: Seq<char>|
            Tracking {
                active: status[id].active.union(tree.windows(id)),
                showing: status[id].showing,
            },
    )
}

impl Store {
    /// The store that a configuration starts with.
    pub open spec fn configured(pads: Map<Seq<char>, Pad>) -> Store {
        Store { pads: Some(pads), status: Some(initial_status(pads)) }
    }

    /// Whether both tables can be had.
    pub open spec fn intact(self) -> bool {
        self.pads is Some && self.status is Some
    }

    /// Whether there is a scratchpad called `name`.
    pub open spec fn has(self, name: Seq<char>) -> bool {
        self.pads is Some && self.pads->0.contains_key(name)
    }

    /// The store with `pad` in it, and with `windows` as the windows of its application.
    pub open spec fn with_pad(self, pad: Pad, windows: Set<i64>) -> Store {
        Store {
            pads: Some(self.pads->0.insert(pad.name, pad)),
            status: Some(
                self.status->0.insert(pad.id, Tracking { active: windows, showing: true }),
            ),
        }
    }

    /// The store without the scratchpad `name`, and without the status of its application if
    /// that can be had.
    pub open spec fn without(self, name: Seq<char>) -> Store {
        Store {
            pads: Some(self.pads->0.remove(name)),
            status: match self.status {
                Some(status) => Some(status.remove(self.pads->0[name].id)),
                None => None,
            },
        }
    }
}

impl Store {
    /// The request to remove `name`: the store after it, and the answer.
    pub open spec fn removal(self, name: Seq<char>) -> (Store, Reply) {
        if self.pads is None {
            (self, Reply::local_data())
        } else if !self.has(name) {
            (self, Reply::BadInput)
        } else if self.status is None {
            (self.without(name), Reply::local_data())
        } else {
            (self.without(name), Reply::Done)
        }
    }

    /// The request to add `pad`, whose application has `windows` open: the store after it, and
    /// the answer.
    pub open spec fn addition(self, pad: Pad, windows: Set<i64>) -> (Store, Reply) {
        if self.intact() {
            (self.with_pad(pad, windows), Reply::Done)
        } else {
            (self, Reply::local_data())
        }
    }
}

/// What is left to do for a request: to send commands to sway, then to answer.
pub struct Outcome {
    pub commands: Vec<String>,
    pub reply: CmdResult,
}

/// What a request to add a scratchpad comes to before sway is asked.
pub enum AddStep {
    /// The answer.
    Answer(CmdResult),
    /// The layout tree is needed; [`ScratchpadStore::add`] takes it.
    QueryTree,
}

/// How a daemon starts.
pub enum Startup {
    /// The store is complete.
    Ready(ScratchpadStore),
    /// The store is complete but for the windows that are open already.
    QueryTree(ScratchpadStore),
}

impl ScratchpadStore {
    /// The store for a configuration; without one, an empty store. The layout tree is needed
    /// only where something is configured.
    pub fn new(config: Option<Table<Scratchpad>>) -> (r: Startup)
        ensures
            match config {
                Some(pads) => if pads@ == Map::<Seq<char>, Pad>::empty() {
                    r matches Startup::Ready(store) && store@ == Store::configured(pads@)
                } else {
                    r matches Startup::QueryTree(store) && store@ == Store::configured(pads@)
                },
                None => r matches Startup::Ready(store) && store@ == Store::configured(Map::empty()),
            },
    {
        let pads = match config {
            Some(pads) => pads,
            None => Table::new(),
        };
        let names = pads.keys();
        let ghost list = text::texts(names@);
        let mut status: Table<Status> = Table::new();
        let mut i: usize = 0;
        while i < names.len()
            invariant
                i <= names@.len(),
                list == text::texts(names@),
                list.to_set() == pads@.dom(),
                forall|id: Seq<char>| #[trigger]
                    status@.contains_key(id) <==> exists|j: int|
                        0 <= j < i && pads@[#[trigger] list[j]].id == id,
                forall|id: Seq<char>| #[trigger]
                    status@.contains_key(id) ==> status@[id] == Tracking::fresh(),
            decreases names@.len() - i,
        {
            let ghost before = status@;
            assert(list.contains(list[i as int]));
            if let Some(pad) = pads.get(names[i].as_str()) {
                status.insert(pad.id.clone(), Status::new());
            }
            proof {
                let id = pads@[list[i as int]].id;
                assert(status@ == before.insert(id, Tracking::fresh()));
                assert forall|k: Seq<char>| #[trigger]
                    status@.contains_key(k) <==> exists|j: int|
                        0 <= j < i + 1 && pads@[#[trigger] list[j]].id == k by {
                    if before.contains_key(k) {
                        let j = choose|j: int| 0 <= j < i && pads@[#[trigger] list[j]].id == k;
                        assert(pads@[list[j]].id == k);
                    }
                    if k == id {
                        assert(pads@[list[i as int]].id == k);
                    }
                }
            }
            i = i + 1;
        }
        proof {
            assert forall|id: Seq<char>|
                status@.contains_key(id) <==> #[trigger] initial_status(pads@).contains_key(id) by {
                if status@.contains_key(id) {
                    let j = choose|j: int| 0 <= j < i && pads@[#[trigger] list[j]].id == id;
                    assert(list.contains(list[j]));
                    assert(pads@.contains_key(list[j]));
                }
                if initial_status(pads@).contains_key(id) {
                    let name = choose|name: Seq<char>| #[trigger]
                        pads@.contains_key(name) && pads@[name].id == id;
                    assert(list.to_set().contains(name));
                    let j = choose|j: int| 0 <= j < list.len() && list[j] == name;
                    assert(pads@[list[j]].id == id);
                }
            }
            assert(status@ =~= initial_status(pads@));
        }
        let ready = pads.is_empty();
        let store = ScratchpadStore { pads: Some(pads), status: Some(status) };
        if ready {
            Startup::Ready(store)
        } else {
            Startup::QueryTree(store)
        }
    }

    /// The scratchpads, if they can be had.
    pub fn pads_read(&self) -> (r: Option<&Table<Scratchpad>>)
        ensures
            match r {
                Some(table) => self@.pads == Some(table@),
                None => self@.pads is None,
            },
    {
        self.pads.as_ref()
    }

    /// The status of the applications, if it can be had.
    pub fn status_read(&self) -> (r: Option<&Table<Status>>)
        ensures
            match r {
                Some(table) => self@.status == Some(table@),
                None => self@.status is None,
            },
    {
        self.status.as_ref()
    }

    /// The scratchpads, to change them, if they can be had.
    pub fn pads_write(&mut self) -> (r: Option<&mut Table<Scratchpad>>)
        ensures
            final(self)@.status == old(self)@.status,
            match r {
                Some(table) => old(self)@.pads == Some((*table)@) && final(self)@.pads == Some(
                    (*final(table))@,
                ),
                None => old(self)@.pads is None && final(self)@.pads is None,
            },
    {
        self.pads.as_mut()
    }

    /// The status of the applications, to change it, if it can be had.
    pub fn status_write(&mut self) -> (r: Option<&mut Table<Status>>)
        ensures
            final(self)@.pads == old(self)@.pads,
            match r {
                Some(table) => old(self)@.status == Some((*table)@) && final(self)@.status == Some(
                    (*final(table))@,
                ),
                None => old(self)@.status is None && final(self)@.status is None,
            },
    {
        self.status.as_mut()
    }

    /// Whether there is a scratchpad called `k`.
    pub fn contains_key(&self, k: &str) -> (r: bool)
        ensures
            r == self@.has(k@),
    {
        if let Some(read) = self.pads_read() {
            read.contains_key(k)
        } else {
            false
        }
    }

    /// The names of the scratchpads, each once, in no particular order; none if they cannot be
    /// had.
    pub fn keys(&self) -> (r: Vec<String>)
        ensures
            text::texts(r@).no_duplicates(),
            forall|name: Seq<char>| text::texts(r@).contains(name) <==> self@.has(name),
    {
        if let Some(read) = self.pads_read() {
            let names = read.keys();
            proof {
                let list = text::texts(names@);
                assert forall|name: Seq<char>| list.contains(name) <==> self@.has(name) by {
                    assert(list.to_set().contains(name) <==> list.contains(name));
                }
            }
            names
        } else {
            Vec::new()
        }
    }

    /// Removes the scratchpad `name`, and the status of its application.
    pub fn remove(&mut self, name: &str) -> (r: CmdResult)
        ensures
            (final(self)@, r@) == old(self)@.removal(name@),
    {
        let Some(pads) = self.pads_write() else {
            return CmdResult::local_data_err();
        };
        if let Some(pad) = pads.remove(name) {
            let Some(status) = self.status_write() else {
                return CmdResult::local_data_err();
            };
            status.remove(pad.id.as_str());
            CmdResult::Done
        } else {
            assert(old(self)@.pads->0.remove(name@) =~= old(self)@.pads->0);
            CmdResult::BadInput
        }
    }

    /// A request to add a scratchpad called `name` is refused if there is one.
    pub fn begin_add(&self, name: &str) -> (r: AddStep)
        ensures
            self@.has(name@) ==> (r matches AddStep::Answer(reply) && reply@ == Reply::BadInput),
            !self@.has(name@) ==> r is QueryTree,
    {
        if self.contains_key(name) {
            AddStep::Answer(CmdResult::BadInput)
        } else {
            AddStep::QueryTree
        }
    }

    /// Adds `s`, in the place of a scratchpad of that name. The windows that its application has
    /// in the layout tree are shown. Without a tree the reason is answered.
    pub fn add(&mut self, s: Scratchpad, tree: Result<Node, String>) -> (r: Outcome)
        ensures
            match tree {
                Ok(root) => {
                    &&& (final(self)@, r.reply@) == old(self)@.addition(s@, root.windows(s@.id))
                    &&& sway::shows(text::texts(r.commands@), root.windows(s@.id))
                },
                Err(e) => {
                    &&& final(self)@ == old(self)@
                    &&& r.reply@ == Reply::Failed(e@)
                    &&& r.commands@.len() == 0
                },
            },
    {
        let root = match tree {
            Ok(root) => root,
            Err(e) => {
                return Outcome { commands: Vec::new(), reply: CmdResult::Failed(e) };
            },
        };
        let mut active: HashSet<i64> = HashSet::new();
        root.collect_windows(s.id.as_str(), &mut active);
        assert(active@ =~= root.windows(s@.id));
        let commands = sway::show_windows(&active);
        if self.pads_read().is_none() || self.status_read().is_none() {
            return Outcome { commands, reply: CmdResult::local_data_err() };
        }
        if let Some(status) = self.status_write() {
            status.insert(s.id.clone(), Status { active, showing: true });
        }
        if let Some(pads) = self.pads_write() {
            pads.insert(s.name.clone(), s);
        }
        Outcome { commands, reply: CmdResult::Done }
    }

    /// The store with the windows of the layout tree in it. Without a tree the daemon exits, and
    /// the exit code is returned.
    pub fn with_tree(self, tree: Option<Node>) -> (r: Result<Self, i32>)
        ensures
            match tree {
                Some(root) => r matches Ok(store) && store@.pads == self@.pads && store@.status == (
                match self@.status {
                    Some(status) => Some(with_windows(status, root)),
                    None => None,
                }),
                None => r == Err::<Self, i32>(EXIT_FAILURE),
            },
    {
        let root = match tree {
            Some(root) => root,
            None => {
                return Err(EXIT_FAILURE);
            },
        };
        let pads = self.pads;
        let mut status = match self.status {
            Some(status) => status,
            None => {
                return Ok(ScratchpadStore { pads, status: None });
            },
        };
        let ids = status.keys();
        let ghost first = status@;
        let ghost list = text::texts(ids@);
        let mut i: usize = 0;
        while i < ids.len()
            invariant
                i <= ids@.len(),
                list == text::texts(ids@),
                list.no_duplicates(),
                list.to_set() == first.dom(),
                status@.dom() == first.dom(),
                forall|j: int|
                    0 <= j < i ==> status@[#[trigger] list[j]] == with_windows(first, root)[list[j]],
                forall|j: int| i <= j < ids@.len() ==> status@[#[trigger] list[j]] == first[list[j]],
            decreases ids@.len() - i,
        {
            assert(list.to_set().contains(list[i as int]));
            if let Some(mut one) = status.remove(ids[i].as_str()) {
                root.collect_windows(ids[i].as_str(), &mut one.active);
                status.insert(ids[i].clone(), one);
                assert(status@[list[i as int]] =~= with_windows(first, root)[list[i as int]]);
            }
            assert(status@.dom() =~= first.dom());
            i = i + 1;
        }
        proof {
            assert forall|id: Seq<char>| first.contains_key(id) implies #[trigger] status@[id]
                == with_windows(first, root)[id] by {
                assert(list.to_set().contains(id));
                let j = choose|j: int| 0 <= j < list.len() && list[j] == id;
                assert(status@[list[j]] == with_windows(first, root)[list[j]]);
            }
            assert(status@ =~= with_windows(first, root));
        }
        Ok(ScratchpadStore { pads, status: Some(status) })
    }
}

} // verus!
