//! What the relational engine is taken to do with the item statements.
//!
//! The engine itself runs outside this library. This module states, over a
//! table of rows, how a sound engine carries out each item statement and how
//! it answers. The laws of the store are proved against these statements.

use vstd::prelude::*;
use crate::item::Quantity;
use crate::statement::{Done, ItemRow, ItemRowView, StatementView};

verus! {

/// What the engine keeps of one item row, besides its id.
pub struct Stored {
    pub name: Seq<char>,
    pub quantity: Quantity,
    /// The stored integer of the state.
    pub state: i64,
}

/// The item table: what is stored, by id.
pub type Table = Map<i64, Stored>;

/// The row that the engine hands out for the id `id`.
pub open spec fn row_at(table: Table, id: i64) -> ItemRowView {
    ItemRowView {
        id,
        name: table[id].name,
        quantity: table[id].quantity,
        state: table[id].state,
    }
}

/// The item table once the engine has carried out `statement`. An insertion
/// adds its row under `fresh`, the id that the engine picks for it. A
/// replacement or a removal of an id that is not there changes nothing, and
/// neither does a question, nor a statement on another table.
pub open spec fn table_after(table: Table, statement: StatementView, fresh: i64) -> Table {
    match statement {
        StatementView::InsertItem { name, quantity, state } => table.insert(
            fresh,
            Stored { name, quantity, state },
        ),
        StatementView::DeleteItem { id } => table.remove(id),
        StatementView::UpdateItem { name, quantity, state, id } => {
            if table.contains_key(id) {
                table.insert(id, Stored { name, quantity, state })
            } else {
                table
            }
        },
        _ => table,
    }
}

/// One statement as the engine carried it out, with the id that the engine
/// had ready for an insertion.
pub struct Executed {
    pub statement: StatementView,
    pub fresh: i64,
}

/// The item table once the engine has carried out a history of statements,
/// one after another, starting from `table`. The engine carries out one
/// statement at a time: statements of callers that run side by side reach
/// the table in some such order.
pub open spec fn table_after_all(table: Table, history: Seq<Executed>) -> Table
    decreases history.len(),
{
    if history.len() == 0 {
        table
    } else {
        table_after(
            table_after_all(table, history.drop_last()),
            history.last().statement,
            history.last().fresh,
        )
    }
}

/// Whether `statement` writes a row that holds exactly `stored`: all three of
/// name, quantity and state, in one statement.
pub open spec fn writes(statement: StatementView, stored: Stored) -> bool {
    match statement {
        StatementView::InsertItem { name, quantity, state } => stored == (Stored {
            name,
            quantity,
            state,
        }),
        StatementView::UpdateItem { name, quantity, state, .. } => stored == (Stored {
            name,
            quantity,
            state,
        }),
        _ => false,
    }
}

/// Whether the row under `id` after `history` is one that a single statement
/// of the history wrote whole, or one that stood in `table` before and that
/// the history left as it was.
pub open spec fn written_whole(table: Table, history: Seq<Executed>, id: i64) -> bool {
    let row = table_after_all(table, history)[id];
    ||| table.contains_key(id) && table[id] == row
    ||| exists|k: int| 0 <= k < history.len() && writes((#[trigger] history[k]).statement, row)
}

/// Whether `answer` is how a sound engine answers an item statement that it
/// is told to carry out: it reports the rows that it added, changed or
/// removed and, for an insertion, the id under which the new row stands. Of
/// other statements nothing is said.
pub open spec fn carries_out(
    table: Table,
    statement: StatementView,
    fresh: i64,
    answer: Result<Done, String>,
) -> bool {
    match statement {
        StatementView::InsertItem { .. } => {
            &&& answer matches Ok(done)
            &&& done.rows_affected == 1
            &&& done.last_insert_rowid == fresh
        },
        StatementView::DeleteItem { id } => {
            &&& answer matches Ok(done)
            &&& done.rows_affected == if table.contains_key(id) {
                1u64
            } else {
                0u64
            }
        },
        StatementView::UpdateItem { id, .. } => {
            &&& answer matches Ok(done)
            &&& done.rows_affected == if table.contains_key(id) {
                1u64
            } else {
                0u64
            }
        },
        _ => true,
    }
}

/// Whether `answer` is how a sound engine answers the question for one item
/// row: with the row of the id asked for, or, where the table has no such
/// row, with a failure. Of other statements nothing is said.
pub open spec fn finds_one(table: Table, statement: StatementView, answer: Result<ItemRow, String>) -> bool {
    match statement {
        StatementView::SelectItem { id } => {
            if table.contains_key(id) {
                answer matches Ok(row) && row@ == row_at(table, id)
            } else {
                answer is Err
            }
        },
        _ => true,
    }
}

/// Whether an item statement that asks for many rows asks for a row with
/// this stored state.
pub open spec fn asks_for(statement: StatementView, stored: i64) -> bool {
    match statement {
        StatementView::SelectItemsByState { state } => stored == state,
        StatementView::SelectItemsExceptState { state } => stored != state,
        _ => false,
    }
}

/// Whether `answer` is how a sound engine answers a question for many item
/// rows: with each row that the statement asks for, once, in an order of its
/// own, and with no other row. Of other statements nothing is said.
pub open spec fn finds_all(table: Table, statement: StatementView, answer: Result<Vec<ItemRow>, String>) -> bool {
    if statement is SelectItemsByState || statement is SelectItemsExceptState {
        &&& answer matches Ok(rows)
        &&& forall|i: int|
            0 <= i < rows@.len() ==> {
                &&& table.contains_key(#[trigger] rows@[i].id)
                &&& rows@[i]@ == row_at(table, rows@[i].id)
                &&& asks_for(statement, rows@[i].state)
            }
        &&& forall|i: int, j: int|
            0 <= i < j < rows@.len() ==> #[trigger] rows@[i].id != #[trigger] rows@[j].id
        &&& forall|id: i64|
            #[trigger] table.contains_key(id) && asks_for(statement, table[id].state)
                ==> exists|i: int| 0 <= i < rows@.len() && #[trigger] rows@[i].id == id
    } else {
        true
    }
}

} // verus!
