//! What the pantry's request handlers decide: the record that a form asks
//! for, and the reply that an outcome of the store is answered with.
//!
//! Decoding a request, calling the store and rendering a page are the
//! caller's part.

use vstd::prelude::*;
use vstd::string::StringExecFns;
use crate::item::{Item, Quantity, State};
use crate::pages::{
    presentation, spec_presentation, ItemTemplate, StateItemsErrorTemplate, StateItemsTemplate,
    UpdateItemFormTemplate,
};
use crate::store::StoreError;

verus! {

/// The request succeeded.
pub const OK: u16 = 200;

/// The request succeeded and made a new record.
pub const CREATED: u16 = 201;

/// The request succeeded and there is nothing to show.
pub const NO_CONTENT: u16 = 204;

/// The request failed on this side.
pub const INTERNAL_SERVER_ERROR: u16 = 500;

/// The form that asks for a new item.
#[derive(Debug, PartialEq, Eq)]
pub struct CreateItemForm {
    pub name: String,
    pub quantity: Quantity,
    pub state: State,
}

impl CreateItemForm {
    /// The record to create. Its id is the placeholder 0: storage assigns
    /// the real one.
    pub fn into_record(self) -> (record: Item)
        ensures
            record == (Item { id: 0, name: self.name, quantity: self.quantity, state: self.state }),
    {
        Item::new(0, self.name, self.quantity, self.state)
    }
}

/// The form that changes an item.
#[derive(Debug, PartialEq, Eq)]
pub struct UpdateItemForm {
    pub id: i64,
    pub name: String,
    pub quantity: Quantity,
    pub state: State,
}

impl UpdateItemForm {
    /// The record to store in place of the one with the form's id.
    pub fn into_record(self) -> (record: Item)
        ensures
            record == (Item {
                id: self.id,
                name: self.name,
                quantity: self.quantity,
                state: self.state,
            }),
    {
        Item::new(self.id, self.name, self.quantity, self.state)
    }
}

/// The query that asks for the listing of one state.
#[derive(Clone, Copy, Debug, PartialEq, Eq)]
pub struct QueryParameters {
    pub state: State,
}

/// A page to render.
#[derive(Debug, PartialEq, Eq)]
pub enum Page {
    StateItems(StateItemsTemplate),
    StateItemsError(StateItemsErrorTemplate),
    UpdateItemForm(UpdateItemFormTemplate),
}

/// What a reply carries.
#[derive(Debug, PartialEq, Eq)]
pub enum Body {
    Empty,
    Text(&'static str),
    Page(Page),
}

/// A handler's answer: the status and what goes with it.
#[derive(Debug, PartialEq, Eq)]
pub struct Reply {
    pub status: u16,
    pub body: Body,
}

/// What a rendered reply holds.
#[derive(Debug, PartialEq, Eq)]
pub enum Content {
    Plain(String),
    Html(String),
}

/// A reply whose page has been rendered.
#[derive(Debug, PartialEq, Eq)]
pub struct Rendered {
    pub status: u16,
    pub content: Content,
}

/// The message of the page shown when the listing of `state` failed.
pub open spec fn listing_failure(state: State) -> Seq<char> {
    "Failed to get items in "@ + spec_presentation(state).name@ + "."@
}

/// The lines that show `items`, in their order.
pub open spec fn lines_of(items: Seq<Item>) -> Seq<ItemTemplate> {
    items.map_values(|item: Item| ItemTemplate::of(item))
}

/// The reply to a request that asked for a new item.
pub fn create_item(result: &Result<i64, StoreError>) -> (reply: Reply)
    ensures
        result is Ok ==> reply == (Reply { status: CREATED, body: Body::Empty }),
        result is Err ==> reply == (Reply {
            status: INTERNAL_SERVER_ERROR,
            body: Body::Text("Failed to create item"),
        }),
{
    match result {
        Ok(_) => Reply { status: CREATED, body: Body::Empty },
        Err(_) => Reply { status: INTERNAL_SERVER_ERROR, body: Body::Text("Failed to create item") },
    }
}

/// The reply to a request that asked for an item to be deleted.
pub fn delete_item(result: &Result<(), StoreError>) -> (reply: Reply)
    ensures
        result is Ok ==> reply == (Reply { status: NO_CONTENT, body: Body::Empty }),
        result is Err ==> reply == (Reply {
            status: INTERNAL_SERVER_ERROR,
            body: Body::Text("Failed to update item"),
        }),
{
    match result {
        Ok(_) => Reply { status: NO_CONTENT, body: Body::Empty },
        Err(_) => Reply { status: INTERNAL_SERVER_ERROR, body: Body::Text("Failed to update item") },
    }
}

/// The reply to a request that asked for an item to be changed.
pub fn update_item(result: &Result<(), StoreError>) -> (reply: Reply)
    ensures
        result is Ok ==> reply == (Reply { status: OK, body: Body::Empty }),
        result is Err ==> reply == (Reply {
            status: INTERNAL_SERVER_ERROR,
            body: Body::Text("Failed to update item"),
        }),
{
    match result {
        Ok(_) => Reply { status: OK, body: Body::Empty },
        Err(_) => Reply { status: INTERNAL_SERVER_ERROR, body: Body::Text("Failed to update item") },
    }
}

/// The reply to a request that asked for the form in which an item is
/// edited: the form, filled with the item as it was read.
pub fn get_update_item(result: Result<Item, StoreError>) -> (reply: Reply)
    ensures
        match result {
            Ok(item) => reply == (Reply {
                status: OK,
                body: Body::Page(
                    Page::UpdateItemForm(
                        UpdateItemFormTemplate {
                            id: item.id,
                            name: item.name,
                            quantity: item.quantity,
                            original_state: item.state,
                        },
                    ),
                ),
            }),
            Err(_) => reply == (Reply {
                status: INTERNAL_SERVER_ERROR,
                body: Body::Text("Failed to get requested item"),
            }),
        },
{
    match result {
        Ok(item) => {
            let template = UpdateItemFormTemplate::new(
                item.id,
                item.name,
                item.quantity,
                item.state,
            );
            Reply { status: OK, body: Body::Page(Page::UpdateItemForm(template)) }
        },
        Err(_) => Reply {
            status: INTERNAL_SERVER_ERROR,
            body: Body::Text("Failed to get requested item"),
        },
    }
}

/// The reply to a request that asked for the listing of one state: the
/// listing with one line for each item read, in their order, or the page
/// that says that the listing of this state failed.
pub fn state_items(query: QueryParameters, result: Result<Vec<Item>, StoreError>) -> (reply: Reply)
    ensures
        match result {
            Ok(items) => {
                &&& reply.status == OK
                &&& reply.body matches Body::Page(Page::StateItems(page))
                &&& page.state == spec_presentation(query.state)
                &&& page.items@ == lines_of(items@)
                &&& page.transitions@ == seq![
                    spec_presentation(crate::pages::other_state(query.state)),
                ]
            },
            Err(_) => {
                &&& reply.status == INTERNAL_SERVER_ERROR
                &&& reply.body matches Body::Page(Page::StateItemsError(page))
                &&& page.error_message@ == listing_failure(query.state)
            },
        },
{
    match result {
        Ok(items) => {
            let ghost wanted = lines_of(items@);
            let mut lines: Vec<ItemTemplate> = Vec::new();
            let mut index: usize = 0;
            while index < items.len()
                invariant
                    index <= items.len(),
                    wanted == lines_of(items@),
                    lines@ == wanted.subrange(0, index as int),
                decreases items.len() - index,
            {
                let item = &items[index];
                lines.push(ItemTemplate::new(item.id, item.name.clone(), item.quantity));
                index = index + 1;
            }
            assert(lines@ == wanted);
            let template = StateItemsTemplate::new(query.state, lines);
            Reply { status: OK, body: Body::Page(Page::StateItems(template)) }
        },
        Err(_) => {
            let name = presentation(query.state).name;
            let message = String::from_str("Failed to get items in ").concat(name).concat(".");
            let template = StateItemsErrorTemplate::new(message);
            Reply {
                status: INTERNAL_SERVER_ERROR,
                body: Body::Page(Page::StateItemsError(template)),
            }
        },
    }
}

/// The rendered reply for a page: the page's text under the status meant
/// for it, or, where rendering failed, a plain message that says why.
pub fn into_response(status: u16, rendered: Result<String, String>) -> (response: Rendered)
    ensures
        match rendered {
            Ok(html) => response == (Rendered { status, content: Content::Html(html) }),
            Err(error) => {
                &&& response.status == INTERNAL_SERVER_ERROR
                &&& response.content matches Content::Plain(text)
                &&& text@ == "Failed to render template. Error: "@ + error@
            },
        },
{
    match rendered {
        Ok(html) => Rendered { status, content: Content::Html(html) },
        Err(error) => Rendered {
            status: INTERNAL_SERVER_ERROR,
            content: Content::Plain(
                String::from_str("Failed to render template. Error: ").concat(error.as_str()),
            ),
        },
    }
}

} // verus!
