//! Tables, and what they hold.

use vstd::prelude::*;
use crate::pad::{Scratchpad, Status};
use crate::store::ScratchpadStore;
use crate::table::Table;

verus! {

/// What a table holds, if it can be had.
pub open spec fn held<V: View>(table: Option<Table<V>>) -> Option<Map<Seq<char>, V::V>> {
    match table {
        Some(table) => Some(table@),
        None => None,
    }
}

/// What is put under a name is what stands there, and what stands under other names stays.
pub proof fn a_table_gives_back_what_was_put<V: View>(
    table: &mut Table<V>,
    name: String,
    value: V,
    asked: &str,
    before: Option<&V>,
    after: Option<&V>,
)
    requires
        call_ensures(Table::<V>::insert, (table, name, value), ()),
        call_ensures(Table::<V>::get, (&*old(table), asked), before),
        call_ensures(Table::<V>::get, (&*final(table), asked), after),
    ensures
        asked@ == name@ ==> (after matches Some(v) && v@ == value@),
        asked@ != name@ ==> after is Some == before is Some && (after is Some ==> after->0@
            == before->0@),
{
}

/// What is taken out is what stood there; nothing stands there any more, and what stands under
/// other names stays.
pub proof fn a_table_lacks_what_was_taken<V: View>(
    table: &mut Table<V>,
    name: &str,
    taken: Option<V>,
    asked: &str,
    before: Option<&V>,
    after: Option<&V>,
)
    requires
        call_ensures(Table::<V>::remove, (table, name), taken),
        call_ensures(Table::<V>::get, (&*old(table), asked), before),
        call_ensures(Table::<V>::get, (&*final(table), asked), after),
    ensures
        asked@ == name@ ==> after is None && taken is Some == before is Some && (taken is Some
            ==> taken->0@ == before->0@),
        asked@ != name@ ==> after is Some == before is Some && (after is Some ==> after->0@
            == before->0@),
{
}

/// A new table has nothing under any name, and is empty.
pub proof fn a_new_table_is_empty<V: View>(
    table: Table<V>,
    asked: &str,
    found: Option<&V>,
    empty: bool,
)
    requires
        call_ensures(Table::<V>::new, (), table),
        call_ensures(Table::<V>::get, (&table, asked), found),
        call_ensures(Table::<V>::is_empty, (&table,), empty),
    ensures
        found is None,
        empty,
{
}

/// The names of a table are those under which something stands, each once; there are none exactly
/// when it is empty.
pub proof fn a_table_lists_its_names<V: View>(
    table: Table<V>,
    names: Vec<String>,
    asked: &str,
    found: Option<&V>,
    has: bool,
    empty: bool,
)
    requires
        call_ensures(Table::<V>::keys, (&table,), names),
        call_ensures(Table::<V>::get, (&table, asked), found),
        call_ensures(Table::<V>::contains_key, (&table, asked), has),
        call_ensures(Table::<V>::is_empty, (&table,), empty),
    ensures
        has == found is Some,
        has <==> exists|i: int| 0 <= i < names@.len() && (#[trigger] names@[i])@ == asked@,
        forall|i: int, j: int|
            0 <= i < j < names@.len() ==> (#[trigger] names@[i])@ != (#[trigger] names@[j])@,
        empty <==> names@.len() == 0,
{
    let texts = crate::text::texts(names@);
    assert(texts.to_set().contains(asked@) <==> texts.contains(asked@));
    if has {
        let i = choose|i: int| 0 <= i < texts.len() && texts[i] == asked@;
        assert(names@[i]@ == asked@);
    }
    if exists|i: int| 0 <= i < names@.len() && (#[trigger] names@[i])@ == asked@ {
        let i = choose|i: int| 0 <= i < names@.len() && (#[trigger] names@[i])@ == asked@;
        assert(texts[i] == asked@);
    }
    assert forall|i: int, j: int| 0 <= i < j < names@.len() implies (#[trigger] names@[i])@ != (
    #[trigger] names@[j])@ by {
        assert(texts[i] != texts[j]);
    }
    if names@.len() > 0 {
        assert(texts.to_set().contains(texts[0]));
    } else {
        assert(table@.dom() =~= Set::<Seq<char>>::empty());
        assert(table@ =~= Map::<Seq<char>, V::V>::empty());
    }
}

/// What is said of a scratchpad is said of its own name, id, program and arguments.
pub proof fn a_scratchpad_is_its_fields(pad: Scratchpad)
    ensures
        pad@.name == pad.name@,
        pad@.id == pad.id@,
        pad@.program == pad.program@,
        pad@.args.len() == pad.args@.len(),
        forall|i: int| 0 <= i < pad.args@.len() ==> pad@.args[i] == (#[trigger] pad.args@[i])@,
{
}

/// What is said of a status is said of its own windows, and of whether they are on show.
pub proof fn a_status_is_its_fields(status: Status)
    ensures
        status@.active == status.active@,
        status@.showing == status.showing,
{
}

/// A new status has no windows, and counts as shown.
pub proof fn a_new_status_is_on_show(r: Status)
    requires
        call_ensures(Status::new, (), r),
    ensures
        forall|win: i64| !r.active@.contains(win),
        r.showing,
{
}

/// The tables are read as they are, and cannot be read exactly when they are lost.
pub proof fn tables_are_read_as_they_are(
    store: ScratchpadStore,
    pads: Option<&Table<Scratchpad>>,
    status: Option<&Table<Status>>,
)
    requires
        call_ensures(ScratchpadStore::pads_read, (&store,), pads),
        call_ensures(ScratchpadStore::status_read, (&store,), status),
    ensures
        pads is Some == store.pads is Some,
        pads is Some ==> pads->0@ == store.pads->0@,
        status is Some == store.status is Some,
        status is Some ==> status->0@ == store.status->0@,
{
}

/// What is written to the scratchpads is what they are then; the status stays.
pub proof fn scratchpads_are_written_in_place(
    store: &mut ScratchpadStore,
    table: Option<&mut Table<Scratchpad>>,
)
    requires
        call_ensures(ScratchpadStore::pads_write, (store,), table),
    ensures
        held(final(store).status) == held(old(store).status),
        table is Some == old(store).pads is Some,
        final(store).pads is Some == old(store).pads is Some,
        table matches Some(t) ==> (*t)@ == old(store).pads->0@ && (*final(t))@
            == final(store).pads->0@,
{
}

/// What is written to the status is what it is then; the scratchpads stay.
pub proof fn the_status_is_written_in_place(
    store: &mut ScratchpadStore,
    table: Option<&mut Table<Status>>,
)
    requires
        call_ensures(ScratchpadStore::status_write, (store,), table),
    ensures
        held(final(store).pads) == held(old(store).pads),
        table is Some == old(store).status is Some,
        final(store).status is Some == old(store).status is Some,
        table matches Some(t) ==> (*t)@ == old(store).status->0@ && (*final(t))@
            == final(store).status->0@,
{
}

} // verus!
