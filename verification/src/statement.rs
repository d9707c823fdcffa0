//! The parameterized statements that the stores send to the relational
//! engine, and the shapes in which the engine answers.
//!
//! A statement's text is fixed by its kind. Values travel beside the text,
//! as parameters in the order of the text's placeholders, and never inside it.

use vstd::prelude::*;
use crate::item::Quantity;
use crate::media::MediaKind;

verus! {

/// One value bound to a placeholder.
#[derive(Debug, PartialEq, Eq)]
pub enum Value {
    Text(String),
    Real(Quantity),
    Integer(i64),
    Kind(MediaKind),
}

/// A bound value as contracts see it.
pub enum ValueView {
    Text(Seq<char>),
    Real(Quantity),
    Integer(i64),
    Kind(MediaKind),
}

impl View for Value {
    type V = ValueView;

    open spec fn view(&self) -> ValueView {
        match self {
            Value::Text(text) => ValueView::Text(text@),
            Value::Real(quantity) => ValueView::Real(*quantity),
            Value::Integer(number) => ValueView::Integer(*number),
            Value::Kind(kind) => ValueView::Kind(*kind),
        }
    }
}

/// The views of a sequence of bound values, in order.
pub open spec fn value_views(values: Seq<Value>) -> Seq<ValueView> {
    values.map_values(|value: Value| value@)
}

/// A statement for the engine, with the values it carries.
#[derive(Debug, PartialEq, Eq)]
pub enum Statement {
    /// Adds a row to the item table; the engine assigns its id.
    InsertItem { name: String, quantity: Quantity, state: i64 },
    /// Removes the item row with this id, if there is one.
    DeleteItem { id: i64 },
    /// Replaces name, quantity and state of the item row with this id, if
    /// there is one.
    UpdateItem { name: String, quantity: Quantity, state: i64, id: i64 },
    /// Asks for the item row with this id.
    SelectItem { id: i64 },
    /// Asks for the item rows whose stored state is this integer.
    SelectItemsByState { state: i64 },
    /// Asks for the item rows whose stored state is any integer but this one.
    SelectItemsExceptState { state: i64 },
    /// Adds a row to the media table; the engine assigns its id.
    InsertMedia { title: String, path: String, kind: MediaKind, conceptual_path: String },
    /// Asks for the media rows listed under this virtual folder.
    SelectMedia { conceptual_path: String },
}

/// A statement as contracts see it.
pub enum StatementView {
    InsertItem { name: Seq<char>, quantity: Quantity, state: i64 },
    DeleteItem { id: i64 },
    UpdateItem { name: Seq<char>, quantity: Quantity, state: i64, id: i64 },
    SelectItem { id: i64 },
    SelectItemsByState { state: i64 },
    SelectItemsExceptState { state: i64 },
    InsertMedia { title: Seq<char>, path: Seq<char>, kind: MediaKind, conceptual_path: Seq<char> },
    SelectMedia { conceptual_path: Seq<char> },
}

impl StatementView {
    /// The statement's text. It depends on the kind of the statement alone.
    pub open spec fn sql(self) -> Seq<char> {
        match self {
            StatementView::InsertItem { .. } =>
                "INSERT INTO item ( name, quantity, state ) VALUES (?1, ?2, ?3)"@,
            StatementView::DeleteItem { .. } => "DELETE FROM item WHERE id = ?1"@,
            StatementView::UpdateItem { .. } =>
                "UPDATE item SET name = ?1, quantity = ?2, state = ?3 WHERE id = ?4"@,
            StatementView::SelectItem { .. } =>
                "SELECT id, name, quantity, state FROM item WHERE id = ?1"@,
            StatementView::SelectItemsByState { .. } =>
                "SELECT id, name, quantity, state FROM item WHERE state = ?1"@,
            StatementView::SelectItemsExceptState { .. } =>
                "SELECT id, name, quantity, state FROM item WHERE state <> ?1"@,
            StatementView::InsertMedia { .. } =>
                "INSERT INTO media (title, path, kind, conceptual_path) VALUES (?, ?, ?, ?)"@,
            StatementView::SelectMedia { .. } =>
                "SELECT id, title, path, kind, conceptual_path FROM media WHERE conceptual_path = ?"@,
        }
    }

    /// The values to bind, in the order of the text's placeholders.
    pub open spec fn parameters(self) -> Seq<ValueView> {
        match self {
            StatementView::InsertItem { name, quantity, state } => seq![
                ValueView::Text(name),
                ValueView::Real(quantity),
                ValueView::Integer(state),
            ],
            StatementView::DeleteItem { id } => seq![ValueView::Integer(id)],
            StatementView::UpdateItem { name, quantity, state, id } => seq![
                ValueView::Text(name),
                ValueView::Real(quantity),
                ValueView::Integer(state),
                ValueView::Integer(id),
            ],
            StatementView::SelectItem { id } => seq![ValueView::Integer(id)],
            StatementView::SelectItemsByState { state } => seq![ValueView::Integer(state)],
            StatementView::SelectItemsExceptState { state } => seq![ValueView::Integer(state)],
            StatementView::InsertMedia { title, path, kind, conceptual_path } => seq![
                ValueView::Text(title),
                ValueView::Text(path),
                ValueView::Kind(kind),
                ValueView::Text(conceptual_path),
            ],
            StatementView::SelectMedia { conceptual_path } => seq![
                ValueView::Text(conceptual_path),
            ],
        }
    }
}

impl View for Statement {
    type V = StatementView;

    open spec fn view(&self) -> StatementView {
        match self {
            Statement::InsertItem { name, quantity, state } => StatementView::InsertItem {
                name: name@,
                quantity: *quantity,
                state: *state,
            },
            Statement::DeleteItem { id } => StatementView::DeleteItem { id: *id },
            Statement::UpdateItem { name, quantity, state, id } => StatementView::UpdateItem {
                name: name@,
                quantity: *quantity,
                state: *state,
                id: *id,
            },
            Statement::SelectItem { id } => StatementView::SelectItem { id: *id },
            Statement::SelectItemsByState { state } => StatementView::SelectItemsByState {
                state: *state,
            },
            Statement::SelectItemsExceptState { state } => StatementView::SelectItemsExceptState {
                state: *state,
            },
            Statement::InsertMedia { title, path, kind, conceptual_path } =>
                StatementView::InsertMedia {
                    title: title@,
                    path: path@,
                    kind: *kind,
                    conceptual_path: conceptual_path@,
                },
            Statement::SelectMedia { conceptual_path } => StatementView::SelectMedia {
                conceptual_path: conceptual_path@,
            },
        }
    }
}

impl Statement {
    /// The text to prepare. No value of the statement is part of it.
    pub fn sql(&self) -> (text: &'static str)
        ensures
            text@ == self@.sql(),
    {
        match self {
            Statement::InsertItem { .. } =>
                "INSERT INTO item ( name, quantity, state ) VALUES (?1, ?2, ?3)",
            Statement::DeleteItem { .. } => "DELETE FROM item WHERE id = ?1",
            Statement::UpdateItem { .. } =>
                "UPDATE item SET name = ?1, quantity = ?2, state = ?3 WHERE id = ?4",
            Statement::SelectItem { .. } =>
                "SELECT id, name, quantity, state FROM item WHERE id = ?1",
            Statement::SelectItemsByState { .. } =>
                "SELECT id, name, quantity, state FROM item WHERE state = ?1",
            Statement::SelectItemsExceptState { .. } =>
                "SELECT id, name, quantity, state FROM item WHERE state <> ?1",
            Statement::InsertMedia { .. } =>
                "INSERT INTO media (title, path, kind, conceptual_path) VALUES (?, ?, ?, ?)",
            Statement::SelectMedia { .. } =>
                "SELECT id, title, path, kind, conceptual_path FROM media WHERE conceptual_path = ?",
        }
    }

    /// The values to bind, in the order of the text's placeholders.
    pub fn parameters(&self) -> (values: Vec<Value>)
        ensures
            value_views(values@) == self@.parameters(),
    {
        let mut values: Vec<Value> = Vec::new();
        match self {
            Statement::InsertItem { name, quantity, state } => {
                values.push(Value::Text(name.clone()));
                values.push(Value::Real(*quantity));
                values.push(Value::Integer(*state));
            },
            Statement::DeleteItem { id } => {
                values.push(Value::Integer(*id));
            },
            Statement::UpdateItem { name, quantity, state, id } => {
                values.push(Value::Text(name.clone()));
                values.push(Value::Real(*quantity));
                values.push(Value::Integer(*state));
                values.push(Value::Integer(*id));
            },
            Statement::SelectItem { id } => {
                values.push(Value::Integer(*id));
            },
            Statement::SelectItemsByState { state } => {
                values.push(Value::Integer(*state));
            },
            Statement::SelectItemsExceptState { state } => {
                values.push(Value::Integer(*state));
            },
            Statement::InsertMedia { title, path, kind, conceptual_path } => {
                values.push(Value::Text(title.clone()));
                values.push(Value::Text(path.clone()));
                values.push(Value::Kind(*kind));
                values.push(Value::Text(conceptual_path.clone()));
            },
            Statement::SelectMedia { conceptual_path } => {
                values.push(Value::Text(conceptual_path.clone()));
            },
        }
        assert(value_views(values@) =~= self@.parameters());
        values
    }
}

/// What the engine reports of a statement that it carried out.
#[derive(Clone, Copy, Debug, PartialEq, Eq, Structural)]
pub struct Done {
    /// The id of the row that the last insertion added.
    pub last_insert_rowid: i64,
    /// How many rows the statement added, changed or removed.
    pub rows_affected: u64,
}

/// One row of the item table as the engine hands it out.
#[derive(Debug, PartialEq, Eq)]
pub struct ItemRow {
    pub id: i64,
    pub name: String,
    pub quantity: Quantity,
    /// The stored integer of the state, undecoded.
    pub state: i64,
}

/// An item row as contracts see it.
pub struct ItemRowView {
    pub id: i64,
    pub name: Seq<char>,
    pub quantity: Quantity,
    pub state: i64,
}

impl View for ItemRow {
    type V = ItemRowView;

    open spec fn view(&self) -> ItemRowView {
        ItemRowView { id: self.id, name: self.name@, quantity: self.quantity, state: self.state }
    }
}

} // verus!
