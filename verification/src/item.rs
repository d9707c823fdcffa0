//! Pantry items: what is kept of each, and where it currently is.

use vstd::prelude::*;
use vstd::std_specs::convert::FromSpecImpl;

verus! {

/// Where a pantry item currently is.
#[derive(Clone, Copy, Debug, PartialEq, Eq, Structural)]
pub enum State {
    /// The item is in stock.
    Stock,
    /// The item is on the shopping list.
    Shopping,
}

/// The stored integer that stands for `Stock`.
pub const STOCK_CODE: i64 = 0;

/// The stored integer reserved for `Shopping`.
pub const SHOPPING_CODE: i64 = 2;

impl State {
    /// The state that a stored integer stands for: `Shopping` for the one
    /// reserved code, `Stock` for every other integer.
    pub open spec fn decode(code: i64) -> State {
        if code == SHOPPING_CODE {
            State::Shopping
        } else {
            State::Stock
        }
    }

    /// The integer under which a state is stored.
    pub open spec fn spec_code(self) -> i64 {
        match self {
            State::Stock => STOCK_CODE,
            State::Shopping => SHOPPING_CODE,
        }
    }

    /// The lower-case name under which a state travels in forms and queries.
    pub open spec fn spec_label(self) -> Seq<char> {
        match self {
            State::Stock => "stock"@,
            State::Shopping => "shopping"@,
        }
    }

    /// The integer under which this state is stored. Decoding it gives the
    /// state back.
    #[verifier::when_used_as_spec(spec_code)]
    pub fn code(self) -> (code: i64)
        ensures
            code == self.spec_code(),
            State::decode(code) == self,
    {
        match self {
            State::Stock => STOCK_CODE,
            State::Shopping => SHOPPING_CODE,
        }
    }

    /// The lower-case name of this state.
    pub fn label(self) -> (label: &'static str)
        ensures
            label@ == self.spec_label(),
    {
        match self {
            State::Stock => "stock",
            State::Shopping => "shopping",
        }
    }

    /// The name of this state as an owned string.
    pub fn to_string(&self) -> (text: String)
        ensures
            text@ == self.spec_label(),
    {
        self.label().to_owned()
    }
}

impl From<i64> for State {
    /// Decodes a stored integer. Every integer decodes: an unknown one is
    /// taken for `Stock`.
    fn from(value: i64) -> (state: State)
        ensures
            state == State::decode(value),
    {
        if value == SHOPPING_CODE {
            State::Shopping
        } else {
            State::Stock
        }
    }
}

impl FromSpecImpl<i64> for State {
    open spec fn obeys_from_spec() -> bool {
        true
    }

    open spec fn from_spec(value: i64) -> State {
        State::decode(value)
    }
}

/// Decoding never fails and is lenient: the reserved code stands for
/// `Shopping`, and every other integer, in range or not, for `Stock`.
pub proof fn decode_is_total(code: i64)
    ensures
        code == SHOPPING_CODE ==> State::decode(code) == State::Shopping,
        code != SHOPPING_CODE ==> State::decode(code) == State::Stock,
{
}

/// Encoding is the inverse of decoding: a state's code decodes to the state,
/// and the two states have different codes.
pub proof fn code_decodes_to_its_state(state: State, other: State)
    ensures
        State::decode(state.spec_code()) == state,
        state.spec_code() == other.spec_code() ==> state == other,
{
}

/// The bit pattern of positive infinity, the largest non-negative binary64.
pub const POSITIVE_INFINITY_BITS: u64 = 0x7FF0_0000_0000_0000;

/// The bit pattern of negative zero, which compares equal to zero.
pub const NEGATIVE_ZERO_BITS: u64 = 0x8000_0000_0000_0000;

/// An amount of an item: a binary64 number, held as its bit pattern.
#[derive(Clone, Copy, Debug, PartialEq, Eq, Structural)]
pub struct Quantity {
    pub bits: u64,
}

impl Quantity {
    /// Whether the number is at least zero. The patterns from zero up to
    /// positive infinity are, and so is negative zero; the other negative
    /// numbers and the patterns that are no number are not.
    pub open spec fn spec_is_non_negative(self) -> bool {
        self.bits <= POSITIVE_INFINITY_BITS || self.bits == NEGATIVE_ZERO_BITS
    }

    /// The amount with the given bit pattern.
    pub fn from_bits(bits: u64) -> (quantity: Quantity)
        ensures
            quantity.bits == bits,
    {
        Quantity { bits }
    }

    /// The bit pattern of this amount.
    pub fn to_bits(self) -> (bits: u64)
        ensures
            bits == self.bits,
    {
        self.bits
    }

    /// Whether the number is at least zero.
    #[verifier::when_used_as_spec(spec_is_non_negative)]
    pub fn is_non_negative(self) -> (yes: bool)
        ensures
            yes == self.spec_is_non_negative(),
    {
        self.bits <= POSITIVE_INFINITY_BITS || self.bits == NEGATIVE_ZERO_BITS
    }
}

/// One pantry item.
#[derive(Debug, PartialEq, Eq)]
pub struct Item {
    /// The identity that storage assigned; 0 until the item is stored.
    pub id: i64,
    pub name: String,
    pub quantity: Quantity,
    pub state: State,
}

/// An item as contracts see it.
pub struct ItemView {
    pub id: i64,
    pub name: Seq<char>,
    pub quantity: Quantity,
    pub state: State,
}

impl ItemView {
    /// A well-formed item has a name and an amount of at least zero.
    pub open spec fn valid(self) -> bool {
        self.name.len() > 0 && self.quantity.is_non_negative()
    }

    /// The same item under another identity.
    pub open spec fn with_id(self, id: i64) -> ItemView {
        ItemView { id, ..self }
    }
}

impl View for Item {
    type V = ItemView;

    open spec fn view(&self) -> ItemView {
        ItemView { id: self.id, name: self.name@, quantity: self.quantity, state: self.state }
    }
}

impl Clone for Item {
    fn clone(&self) -> (copy: Item)
        ensures
            copy == *self,
    {
        Item {
            id: self.id,
            name: self.name.clone(),
            quantity: self.quantity,
            state: self.state,
        }
    }
}

impl Item {
    /// An item made of the four given parts, unchanged.
    pub fn new(id: i64, name: String, quantity: Quantity, state: State) -> (item: Item)
        ensures
            item.id == id,
            item.name == name,
            item.quantity == quantity,
            item.state == state,
    {
        Item { id, name, quantity, state }
    }

    /// Whether the item is well formed: named, and of an amount of at
    /// least zero.
    pub fn is_valid(&self) -> (yes: bool)
        ensures
            yes == self@.valid(),
    {
        !self.name.as_str().is_empty() && self.quantity.is_non_negative()
    }
}

} // verus!
