//! A table of values, each under a name of its own.

use vstd::prelude::*;
use crate::text;

verus! {

/// Values by name. No two entries have the same name.
pub struct Table<V> {
    entries: Vec<(String, V)>,
}

impl<V: View> View for Table<V> {
    type V = Map<Seq<char>, V::V>;

    closed spec fn view(&self) -> Map<Seq<char>, V::V> {
        contents(self.entries@)
    }
}

/// What a list of entries holds under each name.
spec fn contents<V: View>(entries: Seq<(String, V)>) -> Map<Seq<char>, V::V> {
    Map::new(
        |k: Seq<char>| named_at(entries, k) is Some,
        |k: Seq<char>| entries[named_at(entries, k)->0].1@,
    )
}

/// An index at which the name `k` stands.
spec fn named_at<V>(entries: Seq<(String, V)>, k: Seq<char>) -> Option<int> {
    if exists|i: int| 0 <= i < entries.len() && (#[trigger] entries[i]).0@ == k {
        Some(choose|i: int| 0 <= i < entries.len() && (#[trigger] entries[i]).0@ == k)
    } else {
        None
    }
}

/// No name stands twice.
spec fn distinct<V>(entries: Seq<(String, V)>) -> bool {
    forall|i: int, j: int|
        0 <= i < j < entries.len() ==> (#[trigger] entries[i]).0@ != (#[trigger] entries[j]).0@
}

/// An entry is found under its name.
proof fn lemma_entry<V: View>(entries: Seq<(String, V)>, i: int)
    requires
        distinct(entries),
        0 <= i < entries.len(),
    ensures
        contents(entries).contains_key(entries[i].0@),
        contents(entries)[entries[i].0@] == entries[i].1@,
{
    let at = named_at(entries, entries[i].0@)->0;
    assert(entries[at].0@ == entries[i].0@);
}

/// A new entry under a new name extends the contents by that one.
proof fn lemma_push<V: View>(entries: Seq<(String, V)>, entry: (String, V))
    requires
        distinct(entries),
        !contents(entries).contains_key(entry.0@),
    ensures
        distinct(entries.push(entry)),
        contents(entries.push(entry)) == contents(entries).insert(entry.0@, entry.1@),
{
    let longer = entries.push(entry);
    assert forall|i: int| 0 <= i < entries.len() implies (#[trigger] entries[i]).0@ != entry.0@ by {
        lemma_entry(entries, i);
    }
    let expected = contents(entries).insert(entry.0@, entry.1@);
    assert forall|k: Seq<char>| #[trigger]
        contents(longer).contains_key(k) <==> expected.contains_key(k) by {
        if contents(longer).contains_key(k) {
            let at = named_at(longer, k)->0;
            if at < entries.len() {
                assert(entries[at].0@ == k);
            }
        }
        if contents(entries).contains_key(k) {
            let at = named_at(entries, k)->0;
            assert(longer[at].0@ == k);
        }
        if k == entry.0@ {
            assert(longer[entries.len() as int].0@ == k);
        }
    }
    assert forall|k: Seq<char>| #[trigger] contents(longer).contains_key(k) implies contents(
        longer,
    )[k] == expected[k] by {
        let at = named_at(longer, k)->0;
        lemma_entry(longer, at);
        if at < entries.len() {
            assert(entries[at].0@ == k);
            lemma_entry(entries, at);
        }
    }
    assert(contents(longer) =~= expected);
}

/// Without one entry, the contents lack its name and nothing else.
proof fn lemma_remove<V: View>(entries: Seq<(String, V)>, i: int)
    requires
        distinct(entries),
        0 <= i < entries.len(),
    ensures
        distinct(entries.remove(i)),
        contents(entries.remove(i)) == contents(entries).remove(entries[i].0@),
{
    let shorter = entries.remove(i);
    let expected = contents(entries).remove(entries[i].0@);
    assert forall|j: int, k: int| 0 <= j < k < shorter.len() implies (#[trigger] shorter[j]).0@ != (
    #[trigger] shorter[k]).0@ by {
        let j0 = if j < i { j } else { j + 1 };
        let k0 = if k < i { k } else { k + 1 };
        assert(entries[j0].0@ != entries[k0].0@);
    }
    assert forall|k: Seq<char>| #[trigger]
        contents(shorter).contains_key(k) <==> expected.contains_key(k) by {
        if contents(shorter).contains_key(k) {
            let at = named_at(shorter, k)->0;
            let at0 = if at < i { at } else { at + 1 };
            assert(shorter[at].0@ == k);
            assert(entries[at0].0@ == k);
            assert(entries[i].0@ != entries[at0].0@);
        }
        if expected.contains_key(k) {
            let at = named_at(entries, k)->0;
            let at1 = if at < i { at } else { at - 1 };
            assert(entries[at].0@ == k);
            assert(shorter[at1].0@ == k);
        }
    }
    assert forall|k: Seq<char>| #[trigger] contents(shorter).contains_key(k) implies contents(
        shorter,
    )[k] == expected[k] by {
        let at = named_at(shorter, k)->0;
        let at0 = if at < i { at } else { at + 1 };
        lemma_entry(shorter, at);
        assert(shorter[at].0@ == k);
        lemma_entry(entries, at0);
    }
    assert(contents(shorter) =~= expected);
}

impl<V> Table<V> {
    #[verifier::type_invariant]
    spec fn valid(self) -> bool {
        distinct(self.entries@)
    }
}

impl<V: View> Table<V> {
    /// An empty table.
    pub fn new() -> (r: Self)
        ensures
            r@ == Map::<Seq<char>, V::V>::empty(),
    {
        let r = Table { entries: Vec::new() };
        assert(r@ =~= Map::<Seq<char>, V::V>::empty());
        r
    }

    /// Whether the table has no entry.
    pub fn is_empty(&self) -> (r: bool)
        ensures
            r == (self@ == Map::<Seq<char>, V::V>::empty()),
    {
        proof {
            if self.entries@.len() > 0 {
                let k = self.entries@[0].0@;
                assert(self@.contains_key(k));
                assert(!Map::<Seq<char>, V::V>::empty().contains_key(k));
            } else {
                assert(self@ =~= Map::<Seq<char>, V::V>::empty());
            }
        }
        self.entries.len() == 0
    }

    /// The index of the entry under `name`.
    fn position(&self, name: &str) -> (r: Option<usize>)
        ensures
            match r {
                Some(i) => i < self.entries@.len() && self.entries@[i as int].0@ == name@,
                None => forall|i: int|
                    0 <= i < self.entries@.len() ==> (#[trigger] self.entries@[i]).0@ != name@,
            },
    {
        let mut i: usize = 0;
        while i < self.entries.len()
            invariant
                i <= self.entries@.len(),
                forall|j: int| 0 <= j < i ==> (#[trigger] self.entries@[j]).0@ != name@,
            decreases self.entries@.len() - i,
        {
            if text::same_text(self.entries[i].0.as_str(), name) {
                return Some(i);
            }
            i = i + 1;
        }
        None
    }

    /// Whether there is an entry under `name`.
    pub fn contains_key(&self, name: &str) -> (r: bool)
        ensures
            r == self@.contains_key(name@),
    {
        self.position(name).is_some()
    }

    /// The value under `name`.
    pub fn get(&self, name: &str) -> (r: Option<&V>)
        ensures
            match r {
                Some(v) => self@.contains_key(name@) && v@ == self@[name@],
                None => !self@.contains_key(name@),
            },
    {
        proof {
            use_type_invariant(self);
        }
        match self.position(name) {
            Some(i) => {
                proof {
                    lemma_entry(self.entries@, i as int);
                }
                Some(&self.entries[i].1)
            },
            None => None,
        }
    }

    /// Every name, each once. Nothing is said of their order.
    pub fn keys(&self) -> (r: Vec<String>)
        ensures
            text::texts(r@).no_duplicates(),
            text::texts(r@).to_set() == self@.dom(),
    {
        proof {
            use_type_invariant(self);
        }
        let mut out: Vec<String> = Vec::new();
        let mut i: usize = 0;
        while i < self.entries.len()
            invariant
                i <= self.entries@.len(),
                out@.len() == i,
                forall|j: int| 0 <= j < i ==> #[trigger] out@[j] == self.entries@[j].0,
            decreases self.entries@.len() - i,
        {
            out.push(self.entries[i].0.clone());
            i = i + 1;
        }
        proof {
            let names = text::texts(out@);
            assert forall|j: int, k: int| 0 <= j < k < names.len() implies names[j] != names[k] by {
                assert(self.entries@[j].0@ != self.entries@[k].0@);
            }
            assert forall|k: Seq<char>| names.to_set().contains(k) <==> self@.dom().contains(k) by {
                if names.contains(k) {
                    let j = choose|j: int| 0 <= j < names.len() && names[j] == k;
                    assert(self.entries@[j].0@ == k);
                }
                if self@.dom().contains(k) {
                    let j = named_at(self.entries@, k)->0;
                    assert(names[j] == k);
                }
            }
            assert(names.to_set() =~= self@.dom());
        }
        out
    }

    /// Puts `value` under `name`, in the place of what stood there.
    pub fn insert(&mut self, name: String, value: V)
        ensures
            final(self)@ == old(self)@.insert(name@, value@),
    {
        self.remove(name.as_str());
        proof {
            use_type_invariant(&*self);
        }
        let mut entries: Vec<(String, V)> = Vec::new();
        std::mem::swap(&mut entries, &mut self.entries);
        proof {
            lemma_push(entries@, (name, value));
        }
        entries.push((name, value));
        self.entries = entries;
        assert(self@ =~= old(self)@.insert(name@, value@));
    }

    /// Takes out what stands under `name`.
    pub fn remove(&mut self, name: &str) -> (r: Option<V>)
        ensures
            final(self)@ == old(self)@.remove(name@),
            match r {
                Some(v) => old(self)@.contains_key(name@) && v@ == old(self)@[name@],
                None => !old(self)@.contains_key(name@),
            },
    {
        proof {
            use_type_invariant(&*self);
        }
        match self.position(name) {
            Some(i) => {
                let mut entries: Vec<(String, V)> = Vec::new();
                std::mem::swap(&mut entries, &mut self.entries);
                proof {
                    lemma_remove(entries@, i as int);
                    lemma_entry(entries@, i as int);
                }
                let (_, value) = entries.remove(i);
                self.entries = entries;
                Some(value)
            },
            None => {
                assert(self@.remove(name@) =~= self@);
                None
            },
        }
    }
}

} // verus!
