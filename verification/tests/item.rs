use pantry::item::{
    Item, Quantity, State, NEGATIVE_ZERO_BITS, POSITIVE_INFINITY_BITS, SHOPPING_CODE, STOCK_CODE,
};

fn amount(number: f64) -> Quantity {
    Quantity::from_bits(number.to_bits())
}

#[test]
fn reserved_code_decodes_to_shopping() {
    assert_eq!(State::from(2), State::Shopping);
    assert_eq!(SHOPPING_CODE, 2);
}

#[test]
fn stock_code_decodes_to_stock() {
    assert_eq!(State::from(0), State::Stock);
    assert_eq!(STOCK_CODE, 0);
}

#[test]
fn out_of_range_codes_decode_to_stock() {
    for code in [1, 3, -1, 7, 100, i64::MAX, i64::MIN] {
        assert_eq!(State::from(code), State::Stock);
    }
}

#[test]
fn into_decodes_like_from() {
    let shopping: State = 2i64.into();
    let stock: State = 9i64.into();
    assert_eq!(shopping, State::Shopping);
    assert_eq!(stock, State::Stock);
}

#[test]
fn code_is_the_inverse_of_decode() {
    assert_eq!(State::Stock.code(), 0);
    assert_eq!(State::Shopping.code(), 2);
    for state in [State::Stock, State::Shopping] {
        assert_eq!(State::from(state.code()), state);
    }
    assert_ne!(State::Stock.code(), State::Shopping.code());
}

#[test]
fn states_are_named_in_lower_case() {
    assert_eq!(State::Stock.label(), "stock");
    assert_eq!(State::Shopping.label(), "shopping");
    assert_eq!(State::Stock.to_string(), "stock");
    assert_eq!(State::Shopping.to_string(), "shopping");
}

#[test]
fn quantity_keeps_its_bits() {
    let two = amount(2.0);
    assert_eq!(two.to_bits(), 0x4000_0000_0000_0000);
    assert_eq!(f64::from_bits(two.to_bits()), 2.0);
    assert_eq!(Quantity::from_bits(17).bits, 17);
}

#[test]
fn non_negative_agrees_with_the_number() {
    let numbers = [
        0.0,
        -0.0,
        2.0,
        0.5,
        1e300,
        f64::MIN_POSITIVE,
        f64::MAX,
        f64::INFINITY,
        -1.0,
        -0.25,
        -1e-300,
        f64::MIN,
        f64::NEG_INFINITY,
        f64::NAN,
        -f64::NAN,
    ];
    for number in numbers {
        assert_eq!(amount(number).is_non_negative(), number >= 0.0, "{number}");
    }
}

#[test]
fn non_negative_at_the_edges_of_the_patterns() {
    assert!(Quantity::from_bits(0).is_non_negative());
    assert!(Quantity::from_bits(POSITIVE_INFINITY_BITS).is_non_negative());
    assert!(!Quantity::from_bits(POSITIVE_INFINITY_BITS + 1).is_non_negative());
    assert!(!Quantity::from_bits(NEGATIVE_ZERO_BITS - 1).is_non_negative());
    assert!(Quantity::from_bits(NEGATIVE_ZERO_BITS).is_non_negative());
    assert!(!Quantity::from_bits(NEGATIVE_ZERO_BITS + 1).is_non_negative());
    assert!(!Quantity::from_bits(u64::MAX).is_non_negative());
}

#[test]
fn new_keeps_the_four_parts() {
    let item = Item::new(7, "Milk".to_string(), amount(2.0), State::Shopping);
    assert_eq!(item.id, 7);
    assert_eq!(item.name, "Milk");
    assert_eq!(item.quantity, amount(2.0));
    assert_eq!(item.state, State::Shopping);
}

#[test]
fn new_accepts_the_placeholder_id() {
    let item = Item::new(0, "Eggs".to_string(), amount(12.0), State::Stock);
    assert_eq!(item.id, 0);
    assert!(item.is_valid());
}

#[test]
fn an_item_without_a_name_is_not_valid() {
    let item = Item::new(1, String::new(), amount(1.0), State::Stock);
    assert!(!item.is_valid());
}

#[test]
fn an_item_with_a_negative_quantity_is_not_valid() {
    let item = Item::new(1, "Salt".to_string(), amount(-1.0), State::Stock);
    assert!(!item.is_valid());
    let item = Item::new(1, "Salt".to_string(), amount(f64::NAN), State::Stock);
    assert!(!item.is_valid());
}

#[test]
fn an_item_with_quantity_zero_is_valid() {
    let item = Item::new(1, "Salt".to_string(), amount(0.0), State::Shopping);
    assert!(item.is_valid());
}

#[test]
fn clone_gives_an_equal_item() {
    let item = Item::new(3, "Rice".to_string(), amount(1.5), State::Stock);
    assert_eq!(item.clone(), item);
}
