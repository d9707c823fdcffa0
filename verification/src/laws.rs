//! Laws of the item store: what its operations do one after another, and
//! what a listing holds while other callers write, on an engine that is
//! sound in the sense of the module `engine`.

use vstd::prelude::*;
use crate::engine::{
    carries_out, finds_all, finds_one, row_at, table_after, table_after_all, writes,
    written_whole, Executed, Stored, Table,
};
use crate::item::{Item, State};
use crate::statement::{Done, ItemRow};
use crate::store::{
    spec_create_result, spec_create_statement, spec_delete_result, spec_delete_statement,
    spec_read_many_from_state_result, spec_read_many_from_state_statement, spec_read_result,
    spec_read_statement, spec_update_result, spec_update_statement, StoreError,
};

verus! {

/// Creating a well-formed record succeeds with the id that the engine picked,
/// and reading under that id then gives the record back, equal to the one
/// handed in but for the id.
pub proof fn create_then_read(
    table: Table,
    record: Item,
    fresh: i64,
    inserted: Result<Done, String>,
    found: Result<ItemRow, String>,
)
    requires
        record@.valid(),
        !table.contains_key(fresh),
        carries_out(table, spec_create_statement(record)@, fresh, inserted),
        finds_one(
            table_after(table, spec_create_statement(record)@, fresh),
            spec_read_statement(fresh)@,
            found,
        ),
    ensures
        spec_create_result(inserted) == Ok::<i64, StoreError>(fresh),
        spec_read_result(fresh, found) matches Ok(item) && item@ == record@.with_id(fresh),
{
}

/// Creating a record leaves every record that was there as it was, and adds
/// one record and no more.
pub proof fn create_keeps_the_others(table: Table, record: Item, fresh: i64, other: i64)
    requires
        !table.contains_key(fresh),
        other != fresh,
    ensures
        ({
            let after = table_after(table, spec_create_statement(record)@, fresh);
            &&& after.contains_key(fresh)
            &&& after.contains_key(other) == table.contains_key(other)
            &&& table.contains_key(other) ==> after[other] == table[other]
        }),
{
}

/// Updating a record adds no record and removes none, and leaves every
/// record under another id as it was: a record keeps its id for life.
pub proof fn update_keeps_the_others(table: Table, record: Item, fresh: i64, other: i64)
    requires
        other != record.id,
    ensures
        ({
            let after = table_after(table, spec_update_statement(record)@, fresh);
            &&& after.dom() == table.dom()
            &&& table.contains_key(other) ==> after[other] == table[other]
        }),
{
    let after = table_after(table, spec_update_statement(record)@, fresh);
    assert(after.dom() =~= table.dom());
}

/// Deleting a record leaves every record under another id as it was.
pub proof fn delete_keeps_the_others(table: Table, id: i64, fresh: i64, other: i64)
    requires
        other != id,
    ensures
        ({
            let after = table_after(table, spec_delete_statement(id)@, fresh);
            &&& !after.contains_key(id)
            &&& after.contains_key(other) == table.contains_key(other)
            &&& table.contains_key(other) ==> after[other] == table[other]
        }),
{
}

/// Updating a record that is stored succeeds, and reading under its id then
/// gives the new name, quantity and state.
pub proof fn update_then_read(
    table: Table,
    record: Item,
    updated: Result<Done, String>,
    found: Result<ItemRow, String>,
)
    requires
        table.contains_key(record.id),
        carries_out(table, spec_update_statement(record)@, record.id, updated),
        finds_one(
            table_after(table, spec_update_statement(record)@, record.id),
            spec_read_statement(record.id)@,
            found,
        ),
    ensures
        spec_update_result(updated) == Ok::<(), StoreError>(()),
        spec_read_result(record.id, found) matches Ok(item) && item@ == record@,
{
}

/// Updating under an id that is not stored succeeds and changes nothing.
pub proof fn update_of_missing_id_changes_nothing(
    table: Table,
    record: Item,
    fresh: i64,
    updated: Result<Done, String>,
)
    requires
        !table.contains_key(record.id),
        carries_out(table, spec_update_statement(record)@, fresh, updated),
    ensures
        spec_update_result(updated) == Ok::<(), StoreError>(()),
        table_after(table, spec_update_statement(record)@, fresh) == table,
{
}

/// After a record was deleted, reading under its id fails with a storage
/// failure.
pub proof fn delete_then_read_fails(
    table: Table,
    id: i64,
    fresh: i64,
    deleted: Result<Done, String>,
    found: Result<ItemRow, String>,
)
    requires
        carries_out(table, spec_delete_statement(id)@, fresh, deleted),
        finds_one(
            table_after(table, spec_delete_statement(id)@, fresh),
            spec_read_statement(id)@,
            found,
        ),
    ensures
        spec_delete_result(deleted) == Ok::<(), StoreError>(()),
        spec_read_result(id, found) is Err,
{
}

/// Deleting twice is deleting once: the second deletion succeeds and leaves
/// the table as the first left it.
pub proof fn delete_twice(
    table: Table,
    id: i64,
    fresh: i64,
    again: Result<Done, String>,
)
    requires
        carries_out(
            table_after(table, spec_delete_statement(id)@, fresh),
            spec_delete_statement(id)@,
            fresh,
            again,
        ),
    ensures
        spec_delete_result(again) == Ok::<(), StoreError>(()),
        table_after(
            table_after(table, spec_delete_statement(id)@, fresh),
            spec_delete_statement(id)@,
            fresh,
        ) == table_after(table, spec_delete_statement(id)@, fresh),
{
    let once = table_after(table, spec_delete_statement(id)@, fresh);
    assert(once.remove(id) =~= once);
}

/// Whatever the table holds, and however it came to hold it, a listing by
/// state succeeds and every record in it is in the state that was asked for:
/// none in `Shopping` is listed under `Stock`, and none in `Stock` under
/// `Shopping`. Each listed record is one whole row of the table.
pub proof fn listing_holds_the_state_asked_for(
    table: Table,
    state: State,
    found: Result<Vec<ItemRow>, String>,
)
    requires
        finds_all(table, spec_read_many_from_state_statement(state)@, found),
    ensures
        spec_read_many_from_state_result(found) matches Ok(items) && forall|i: int|
            0 <= i < items.len() ==> {
                &&& (#[trigger] items[i]).state == state
                &&& table.contains_key(items[i].id)
                &&& items[i].name@ == table[items[i].id].name
                &&& items[i].quantity == table[items[i].id].quantity
                &&& items[i].state == State::decode(table[items[i].id].state)
            },
{
    let rows = found->Ok_0;
    let items = spec_read_many_from_state_result(found)->Ok_0;
    assert forall|i: int| 0 <= i < items.len() implies {
        &&& (#[trigger] items[i]).state == state
        &&& table.contains_key(items[i].id)
        &&& items[i].name@ == table[items[i].id].name
        &&& items[i].quantity == table[items[i].id].quantity
        &&& items[i].state == State::decode(table[items[i].id].state)
    } by {
        assert(table.contains_key(rows@[i].id));
        assert(rows@[i]@ == row_at(table, rows@[i].id));
        assert(items[i] == rows@[i].spec_item());
    }
}

/// A listing by state holds every stored record whose stored integer
/// decodes to the state asked for, under its own id, and holds it once.
pub proof fn listing_is_complete(
    table: Table,
    state: State,
    found: Result<Vec<ItemRow>, String>,
    id: i64,
)
    requires
        finds_all(table, spec_read_many_from_state_statement(state)@, found),
        table.contains_key(id),
        State::decode(table[id].state) == state,
    ensures
        spec_read_many_from_state_result(found) matches Ok(items) && exists|i: int|
            0 <= i < items.len() && (#[trigger] items[i]).id == id && items[i].name@
                == table[id].name && items[i].quantity == table[id].quantity,
        spec_read_many_from_state_result(found) matches Ok(items) && forall|i: int, j: int|
            0 <= i < j < items.len() ==> (#[trigger] items[i]).id != (#[trigger] items[j]).id,
{
    let rows = found->Ok_0;
    let items = spec_read_many_from_state_result(found)->Ok_0;
    let at = choose|i: int| 0 <= i < rows@.len() && #[trigger] rows@[i].id == id;
    assert(table.contains_key(rows@[at].id));
    assert(rows@[at]@ == row_at(table, id));
    assert(items[at] == rows@[at].spec_item());
    assert(0 <= at < items.len() && items[at].id == id && items[at].name@ == table[id].name
        && items[at].quantity == table[id].quantity);
    assert forall|i: int, j: int| 0 <= i < j < items.len() implies (#[trigger] items[i]).id != (
    #[trigger] items[j]).id by {
        assert(items[i] == rows@[i].spec_item());
        assert(items[j] == rows@[j].spec_item());
    }
}

/// A listing agrees with reading: a stored record is listed under the state
/// that reading it reports, and under no other. This holds of every row,
/// whatever integer its state is stored as.
pub proof fn listing_agrees_with_read(
    table: Table,
    id: i64,
    state: State,
    one: Result<ItemRow, String>,
    all: Result<Vec<ItemRow>, String>,
)
    requires
        table.contains_key(id),
        finds_one(table, spec_read_statement(id)@, one),
        finds_all(table, spec_read_many_from_state_statement(state)@, all),
    ensures
        spec_read_result(id, one) matches Ok(record) && spec_read_many_from_state_result(all)
            matches Ok(items) && ((exists|i: int|
            0 <= i < items.len() && (#[trigger] items[i]).id == id) <==> record.state == state),
{
    let record = spec_read_result(id, one)->Ok_0;
    let rows = all->Ok_0;
    let items = spec_read_many_from_state_result(all)->Ok_0;
    assert(record.state == State::decode(table[id].state));
    if record.state == state {
        listing_is_complete(table, state, all, id);
    } else {
        assert forall|i: int| 0 <= i < items.len() implies (#[trigger] items[i]).id != id by {
            assert(table.contains_key(rows@[i].id));
            assert(rows@[i]@ == row_at(table, rows@[i].id));
            assert(items[i] == rows@[i].spec_item());
        }
    }
}

/// No row is ever a mix of two writes: after any history of statements,
/// each row of the table is as one create or one update of the history wrote
/// it, or as it stood before the history.
pub proof fn every_row_was_written_whole(table: Table, history: Seq<Executed>, id: i64)
    requires
        table_after_all(table, history).contains_key(id),
    ensures
        written_whole(table, history, id),
    decreases history.len(),
{
    if history.len() > 0 {
        let earlier = history.drop_last();
        let before = table_after_all(table, earlier);
        let last = history.last();
        let row = table_after_all(table, history)[id];
        if writes(last.statement, row) {
            assert(history[history.len() - 1] == last);
        } else {
            assert(before.contains_key(id) && before[id] == row);
            every_row_was_written_whole(table, earlier, id);
            if !(table.contains_key(id) && table[id] == row) {
                let k = choose|k: int|
                    0 <= k < earlier.len() && writes((#[trigger] earlier[k]).statement, row);
                assert(history[k] == earlier[k]);
            }
        }
    }
}

/// A listing under concurrent writers: in whatever order the creates,
/// updates and deletes of other callers reached the table before the
/// listing was answered, every listed record is in the state asked for and
/// is one row as a single create or update wrote it whole.
pub proof fn listing_after_any_interleaving(
    table: Table,
    history: Seq<Executed>,
    state: State,
    found: Result<Vec<ItemRow>, String>,
)
    requires
        finds_all(
            table_after_all(table, history),
            spec_read_many_from_state_statement(state)@,
            found,
        ),
    ensures
        spec_read_many_from_state_result(found) matches Ok(items) && forall|i: int|
            0 <= i < items.len() ==> {
                let last = table_after_all(table, history);
                &&& (#[trigger] items[i]).state == state
                &&& last.contains_key(items[i].id)
                &&& items[i].name@ == last[items[i].id].name
                &&& items[i].quantity == last[items[i].id].quantity
                &&& items[i].state == State::decode(last[items[i].id].state)
                &&& written_whole(table, history, items[i].id)
            },
{
    let last = table_after_all(table, history);
    let items = spec_read_many_from_state_result(found)->Ok_0;
    listing_holds_the_state_asked_for(last, state, found);
    assert forall|i: int| 0 <= i < items.len() implies written_whole(
        table,
        history,
        (#[trigger] items[i]).id,
    ) by {
        every_row_was_written_whole(table, history, items[i].id);
    }
}

/// What a create or an update of the store writes is the record that it was
/// handed, whole: name and quantity as they are, and the state under a code
/// that decodes to it.
pub proof fn store_writes_the_record(record: Item)
    ensures
        writes(
            spec_create_statement(record)@,
            Stored { name: record.name@, quantity: record.quantity, state: record.state.spec_code() },
        ),
        writes(
            spec_update_statement(record)@,
            Stored { name: record.name@, quantity: record.quantity, state: record.state.spec_code() },
        ),
        State::decode(record.state.spec_code()) == record.state,
{
}

} // verus!
