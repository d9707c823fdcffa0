//! The item store over a relational engine: for each of its five operations,
//! the statement that is sent and what is made of the engine's answer.
//!
//! The engine's answer reaches these functions as a plain value. A failure
//! of the engine comes as its diagnostic, and leaves as a `StoreError` that
//! holds the same diagnostic.

use vstd::prelude::*;
use vstd::string::StringExecFns;
use crate::item::{Item, State, SHOPPING_CODE};
use crate::statement::{Done, ItemRow, Statement};

verus! {

/// Why a store operation failed.
#[derive(Debug, PartialEq, Eq)]
pub enum StoreError {
    /// The engine failed; the field holds its diagnostic.
    SqlError(String),
}

impl StoreError {
    /// The engine's diagnostic.
    pub open spec fn spec_diagnostic(&self) -> Seq<char> {
        match self {
            StoreError::SqlError(diagnostic) => diagnostic@,
        }
    }

    /// The engine's diagnostic, as it came.
    pub fn diagnostic(&self) -> (text: &str)
        ensures
            text@ == self.spec_diagnostic(),
    {
        match self {
            StoreError::SqlError(diagnostic) => diagnostic.as_str(),
        }
    }

    /// The failure in words: the kind of the failure, then the diagnostic.
    pub fn to_string(&self) -> (text: String)
        ensures
            text@ == "SqlError: "@ + self.spec_diagnostic(),
    {
        match self {
            StoreError::SqlError(diagnostic) => {
                String::from_str("SqlError: ").concat(diagnostic.as_str())
            },
        }
    }
}

impl ItemRow {
    /// The item that a row stands for: the row's id, name and quantity, and
    /// the state that its stored integer decodes to.
    pub open spec fn spec_item(self) -> Item {
        Item {
            id: self.id,
            name: self.name,
            quantity: self.quantity,
            state: State::decode(self.state),
        }
    }

    /// Turns the row into the item that it stands for.
    pub fn into_item(self) -> (item: Item)
        ensures
            item == self.spec_item(),
    {
        Item {
            id: self.id,
            name: self.name,
            quantity: self.quantity,
            state: State::from(self.state),
        }
    }
}

/// The insertion that stores `record`. The record's own id is not part of it.
pub open spec fn spec_create_statement(record: Item) -> Statement {
    Statement::InsertItem {
        name: record.name,
        quantity: record.quantity,
        state: record.state.spec_code(),
    }
}

/// The id of a stored record: the one that the engine reports for the
/// insertion.
pub open spec fn spec_create_result(answer: Result<Done, String>) -> Result<i64, StoreError> {
    match answer {
        Ok(done) => Ok(done.last_insert_rowid),
        Err(diagnostic) => Err(StoreError::SqlError(diagnostic)),
    }
}

/// The removal of the record with this id.
pub open spec fn spec_delete_statement(id: i64) -> Statement {
    Statement::DeleteItem { id }
}

/// A removal succeeds whenever the engine carried it out, whether or not a
/// row was there to remove.
pub open spec fn spec_delete_result(answer: Result<Done, String>) -> Result<(), StoreError> {
    match answer {
        Ok(_) => Ok(()),
        Err(diagnostic) => Err(StoreError::SqlError(diagnostic)),
    }
}

/// The replacement of name, quantity and state of the record with
/// `record.id`.
pub open spec fn spec_update_statement(record: Item) -> Statement {
    Statement::UpdateItem {
        name: record.name,
        quantity: record.quantity,
        state: record.state.spec_code(),
        id: record.id,
    }
}

/// A replacement succeeds whenever the engine carried it out, whether or not
/// a row was there to change.
pub open spec fn spec_update_result(answer: Result<Done, String>) -> Result<(), StoreError> {
    match answer {
        Ok(_) => Ok(()),
        Err(diagnostic) => Err(StoreError::SqlError(diagnostic)),
    }
}

/// The question for the record with this id.
pub open spec fn spec_read_statement(id: i64) -> Statement {
    Statement::SelectItem { id }
}

/// The record read under `id`: the item of the row that the engine found,
/// under the id that was asked for.
pub open spec fn spec_read_result(id: i64, answer: Result<ItemRow, String>) -> Result<
    Item,
    StoreError,
> {
    match answer {
        Ok(row) => Ok(
            Item {
                id,
                name: row.name,
                quantity: row.quantity,
                state: State::decode(row.state),
            },
        ),
        Err(diagnostic) => Err(StoreError::SqlError(diagnostic)),
    }
}

/// The question for the records in `state`, which goes by the state that a
/// stored integer decodes to: for `Shopping` the rows that hold its reserved
/// code, for `Stock` the rows that hold any other integer.
pub open spec fn spec_read_many_from_state_statement(state: State) -> Statement {
    match state {
        State::Shopping => Statement::SelectItemsByState { state: SHOPPING_CODE },
        State::Stock => Statement::SelectItemsExceptState { state: SHOPPING_CODE },
    }
}

/// The records listed: the items of the rows that the engine found, in the
/// engine's order.
pub open spec fn spec_read_many_from_state_result(answer: Result<Vec<ItemRow>, String>) -> Result<
    Seq<Item>,
    StoreError,
> {
    match answer {
        Ok(rows) => Ok(rows@.map_values(|row: ItemRow| row.spec_item())),
        Err(diagnostic) => Err(StoreError::SqlError(diagnostic)),
    }
}

/// The statement that stores `record` as a new row.
pub fn create_statement(record: Item) -> (statement: Statement)
    ensures
        statement == spec_create_statement(record),
{
    let state = record.state.code();
    Statement::InsertItem { name: record.name, quantity: record.quantity, state }
}

/// What `create` returns for the engine's answer to its insertion.
pub fn create_result(answer: Result<Done, String>) -> (result: Result<i64, StoreError>)
    ensures
        result == spec_create_result(answer),
{
    match answer {
        Ok(done) => Ok(done.last_insert_rowid),
        Err(diagnostic) => Err(StoreError::SqlError(diagnostic)),
    }
}

/// The statement that removes the record with this id.
pub fn delete_statement(id: i64) -> (statement: Statement)
    ensures
        statement == spec_delete_statement(id),
{
    Statement::DeleteItem { id }
}

/// What `delete` returns for the engine's answer to its removal.
pub fn delete_result(answer: Result<Done, String>) -> (result: Result<(), StoreError>)
    ensures
        result == spec_delete_result(answer),
{
    match answer {
        Ok(_) => Ok(()),
        Err(diagnostic) => Err(StoreError::SqlError(diagnostic)),
    }
}

/// The statement that replaces the record with `record.id`.
pub fn update_statement(record: Item) -> (statement: Statement)
    ensures
        statement == spec_update_statement(record),
{
    let state = record.state.code();
    Statement::UpdateItem { name: record.name, quantity: record.quantity, state, id: record.id }
}

/// What `update` returns for the engine's answer to its replacement.
pub fn update_result(answer: Result<Done, String>) -> (result: Result<(), StoreError>)
    ensures
        result == spec_update_result(answer),
{
    match answer {
        Ok(_) => Ok(()),
        Err(diagnostic) => Err(StoreError::SqlError(diagnostic)),
    }
}

/// The statement that asks for the record with this id.
pub fn read_statement(id: i64) -> (statement: Statement)
    ensures
        statement == spec_read_statement(id),
{
    Statement::SelectItem { id }
}

/// What `read` returns for the engine's answer to its question, which is
/// one row or a failure.
pub fn read_result(id: i64, answer: Result<ItemRow, String>) -> (result: Result<Item, StoreError>)
    ensures
        result == spec_read_result(id, answer),
{
    match answer {
        Ok(row) => Ok(
            Item {
                id,
                name: row.name,
                quantity: row.quantity,
                state: State::from(row.state),
            },
        ),
        Err(diagnostic) => Err(StoreError::SqlError(diagnostic)),
    }
}

/// The statement that asks for the records in `state`.
pub fn read_many_from_state_statement(state: State) -> (statement: Statement)
    ensures
        statement == spec_read_many_from_state_statement(state),
{
    match state {
        State::Shopping => Statement::SelectItemsByState { state: SHOPPING_CODE },
        State::Stock => Statement::SelectItemsExceptState { state: SHOPPING_CODE },
    }
}

/// What `read_many_from_state` returns for the engine's answer to its
/// question, which is the rows found or a failure.
pub fn read_many_from_state_result(answer: Result<Vec<ItemRow>, String>) -> (result: Result<
    Vec<Item>,
    StoreError,
>)
    ensures
        match spec_read_many_from_state_result(answer) {
            Ok(items) => result matches Ok(listed) && listed@ == items,
            Err(error) => result == Err::<Vec<Item>, StoreError>(error),
        },
{
    match answer {
        Ok(rows) => {
            let ghost wanted = rows@.map_values(|row: ItemRow| row.spec_item());
            let mut items: Vec<Item> = Vec::new();
            let mut index: usize = 0;
            while index < rows.len()
                invariant
                    index <= rows.len(),
                    wanted == rows@.map_values(|row: ItemRow| row.spec_item()),
                    items@ == wanted.subrange(0, index as int),
                decreases rows.len() - index,
            {
                let row = &rows[index];
                items.push(
                    Item {
                        id: row.id,
                        name: row.name.clone(),
                        quantity: row.quantity,
                        state: State::from(row.state),
                    },
                );
                index = index + 1;
            }
            assert(items@ == wanted);
            Ok(items)
        },
        Err(diagnostic) => Err(StoreError::SqlError(diagnostic)),
    }
}

} // verus!
