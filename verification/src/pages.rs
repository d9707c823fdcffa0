//! What the pages of the pantry show: the values that a template is filled
//! with. Rendering them is left to the caller.

use vstd::prelude::*;
use crate::item::{Item, Quantity, State};

verus! {

/// How a state is shown.
#[derive(Clone, Copy, Debug, PartialEq, Eq)]
pub struct StatePresentation {
    /// The name under which the state travels in forms and queries.
    pub id: &'static str,
    /// The name shown to the user.
    pub name: &'static str,
    /// The caption of the button that moves an item into the state.
    pub move_description: &'static str,
    /// The style class of the state's colour.
    pub css_color: &'static str,
}

/// How `Stock` is shown.
pub open spec fn spec_stock_presentation() -> StatePresentation {
    StatePresentation {
        id: "stock",
        name: "Stock",
        move_description: "Move to Stock",
        css_color: "bg-success",
    }
}

/// How `Shopping` is shown.
pub open spec fn spec_shopping_presentation() -> StatePresentation {
    StatePresentation {
        id: "shopping",
        name: "Shopping",
        move_description: "Move to Shopping",
        css_color: "bg-warning",
    }
}

/// How `state` is shown.
pub open spec fn spec_presentation(state: State) -> StatePresentation {
    match state {
        State::Stock => spec_stock_presentation(),
        State::Shopping => spec_shopping_presentation(),
    }
}

/// The state that an item in `state` can be moved to.
pub open spec fn other_state(state: State) -> State {
    match state {
        State::Stock => State::Shopping,
        State::Shopping => State::Stock,
    }
}

/// How `state` is shown.
pub fn presentation(state: State) -> (shown: StatePresentation)
    ensures
        shown == spec_presentation(state),
{
    match state {
        State::Stock => StatePresentation {
            id: "stock",
            name: "Stock",
            move_description: "Move to Stock",
            css_color: "bg-success",
        },
        State::Shopping => StatePresentation {
            id: "shopping",
            name: "Shopping",
            move_description: "Move to Shopping",
            css_color: "bg-warning",
        },
    }
}

/// One line of a listing.
#[derive(Debug, PartialEq, Eq)]
pub struct ItemTemplate {
    pub id: i64,
    pub name: String,
    pub quantity: Quantity,
}

impl ItemTemplate {
    /// A line made of the three given parts, unchanged.
    pub fn new(id: i64, name: String, quantity: Quantity) -> (line: ItemTemplate)
        ensures
            line == (ItemTemplate { id, name, quantity }),
    {
        ItemTemplate { id, name, quantity }
    }

    /// The line that shows `item`.
    pub open spec fn of(item: Item) -> ItemTemplate {
        ItemTemplate { id: item.id, name: item.name, quantity: item.quantity }
    }
}

/// The listing of the items in one state.
#[derive(Debug, PartialEq, Eq)]
pub struct StateItemsTemplate {
    /// The state that is listed.
    pub state: StatePresentation,
    pub items: Vec<ItemTemplate>,
    /// The states that a listed item can be moved to.
    pub transitions: [StatePresentation; 1],
}

impl StateItemsTemplate {
    /// The listing of `items` under `state`. From either state an item can be
    /// moved to the other one, and nowhere else.
    pub fn new(state: State, items: Vec<ItemTemplate>) -> (page: StateItemsTemplate)
        ensures
            page.state == spec_presentation(state),
            page.items == items,
            page.transitions@ == seq![spec_presentation(other_state(state))],
    {
        let (shown, transitions) = match state {
            State::Stock => (presentation(State::Stock), [presentation(State::Shopping)]),
            State::Shopping => (presentation(State::Shopping), [presentation(State::Stock)]),
        };
        assert(transitions@ =~= seq![spec_presentation(other_state(state))]);
        StateItemsTemplate { state: shown, items, transitions }
    }
}

/// The page shown when a listing could not be had.
#[derive(Debug, PartialEq, Eq)]
pub struct StateItemsErrorTemplate {
    pub error_message: String,
}

impl StateItemsErrorTemplate {
    /// The page that shows this message.
    pub fn new(error_message: String) -> (page: StateItemsErrorTemplate)
        ensures
            page.error_message == error_message,
    {
        StateItemsErrorTemplate { error_message }
    }
}

/// The form in which an item is edited.
#[derive(Debug, PartialEq, Eq)]
pub struct UpdateItemFormTemplate {
    pub id: i64,
    pub name: String,
    pub quantity: Quantity,
    /// The state of the item when the form was made.
    pub original_state: State,
}

impl UpdateItemFormTemplate {
    /// A form made of the four given parts, unchanged.
    pub fn new(id: i64, name: String, quantity: Quantity, original_state: State) -> (form:
        UpdateItemFormTemplate)
        ensures
            form == (UpdateItemFormTemplate { id, name, quantity, original_state }),
    {
        UpdateItemFormTemplate { id, name, quantity, original_state }
    }
}

} // verus!
