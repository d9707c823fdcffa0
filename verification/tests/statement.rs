use pantry::item::{Item, Quantity, State};
use pantry::media::MediaKind;
use pantry::statement::{Statement, Value};
use pantry::store::{
    create_statement, delete_statement, read_many_from_state_statement, read_statement,
    update_statement,
};

fn bits_of(number: f64) -> Quantity {
    Quantity::from_bits(number.to_bits())
}

fn milk(id: i64, state: State) -> Item {
    Item::new(id, "Milk".to_string(), bits_of(2.0), state)
}

#[test]
fn create_inserts_name_quantity_and_state() {
    let statement = create_statement(milk(0, State::Stock));
    assert_eq!(
        statement,
        Statement::InsertItem { name: "Milk".to_string(), quantity: bits_of(2.0), state: 0 }
    );
    assert_eq!(statement.sql(), "INSERT INTO item ( name, quantity, state ) VALUES (?1, ?2, ?3)");
    assert_eq!(
        statement.parameters(),
        vec![Value::Text("Milk".to_string()), Value::Real(bits_of(2.0)), Value::Integer(0)]
    );
}

#[test]
fn create_ignores_the_id_of_the_record() {
    assert_eq!(create_statement(milk(0, State::Shopping)), create_statement(milk(41, State::Shopping)));
}

#[test]
fn create_stores_shopping_under_its_reserved_code() {
    let statement = create_statement(milk(0, State::Shopping));
    assert_eq!(statement.parameters()[2], Value::Integer(2));
}

#[test]
fn delete_removes_by_id() {
    let statement = delete_statement(5);
    assert_eq!(statement, Statement::DeleteItem { id: 5 });
    assert_eq!(statement.sql(), "DELETE FROM item WHERE id = ?1");
    assert_eq!(statement.parameters(), vec![Value::Integer(5)]);
}

#[test]
fn update_replaces_by_id() {
    let statement = update_statement(milk(9, State::Shopping));
    assert_eq!(
        statement,
        Statement::UpdateItem { name: "Milk".to_string(), quantity: bits_of(2.0), state: 2, id: 9 }
    );
    assert_eq!(
        statement.sql(),
        "UPDATE item SET name = ?1, quantity = ?2, state = ?3 WHERE id = ?4"
    );
    assert_eq!(
        statement.parameters(),
        vec![
            Value::Text("Milk".to_string()),
            Value::Real(bits_of(2.0)),
            Value::Integer(2),
            Value::Integer(9),
        ]
    );
}

#[test]
fn read_asks_by_id() {
    let statement = read_statement(-3);
    assert_eq!(statement, Statement::SelectItem { id: -3 });
    assert_eq!(statement.sql(), "SELECT id, name, quantity, state FROM item WHERE id = ?1");
    assert_eq!(statement.parameters(), vec![Value::Integer(-3)]);
}

#[test]
fn the_shopping_listing_asks_for_the_reserved_code() {
    let shopping = read_many_from_state_statement(State::Shopping);
    assert_eq!(shopping, Statement::SelectItemsByState { state: 2 });
    assert_eq!(shopping.sql(), "SELECT id, name, quantity, state FROM item WHERE state = ?1");
    assert_eq!(shopping.parameters(), vec![Value::Integer(2)]);
}

#[test]
fn the_stock_listing_asks_for_every_other_code() {
    let stock = read_many_from_state_statement(State::Stock);
    assert_eq!(stock, Statement::SelectItemsExceptState { state: 2 });
    assert_eq!(stock.sql(), "SELECT id, name, quantity, state FROM item WHERE state <> ?1");
    assert_eq!(stock.parameters(), vec![Value::Integer(2)]);
}

#[test]
fn the_text_does_not_depend_on_the_values() {
    let plain = create_statement(milk(0, State::Stock));
    let hostile = create_statement(Item::new(
        0,
        "x'); DROP TABLE item; --".to_string(),
        bits_of(1.0),
        State::Stock,
    ));
    assert_eq!(plain.sql(), hostile.sql());
    assert_eq!(hostile.parameters()[0], Value::Text("x'); DROP TABLE item; --".to_string()));
}

#[test]
fn media_insertion_binds_four_values() {
    let statement = Statement::InsertMedia {
        title: "song.flac".to_string(),
        path: "uploads/song.flac".to_string(),
        kind: MediaKind::Music,
        conceptual_path: "/uploads".to_string(),
    };
    assert_eq!(
        statement.sql(),
        "INSERT INTO media (title, path, kind, conceptual_path) VALUES (?, ?, ?, ?)"
    );
    assert_eq!(
        statement.parameters(),
        vec![
            Value::Text("song.flac".to_string()),
            Value::Text("uploads/song.flac".to_string()),
            Value::Kind(MediaKind::Music),
            Value::Text("/uploads".to_string()),
        ]
    );
}

#[test]
fn each_text_has_one_placeholder_for_each_value() {
    let statements = vec![
        create_statement(milk(0, State::Stock)),
        delete_statement(1),
        update_statement(milk(1, State::Stock)),
        read_statement(1),
        read_many_from_state_statement(State::Stock),
        read_many_from_state_statement(State::Shopping),
        Statement::InsertMedia {
            title: String::new(),
            path: String::new(),
            kind: MediaKind::Other,
            conceptual_path: String::new(),
        },
        Statement::SelectMedia { conceptual_path: String::new() },
    ];
    for statement in statements {
        let placeholders = statement.sql().matches('?').count();
        assert_eq!(placeholders, statement.parameters().len(), "{}", statement.sql());
    }
}
