use std::future::Future;

use pantry::item::{Item, Quantity, State};
use pantry::media::{get_media_items, MediaFilter, MediaKind};
use pantry::statement::{Done, ItemRow, Statement, Value};
use pantry::store::{
    create_result, create_statement, delete_result, delete_statement, read_many_from_state_result,
    read_many_from_state_statement, read_result, read_statement, update_result, update_statement,
    StoreError,
};
use pantry::upload::{step, UploadAction, UploadEvent, UploadState};
use sqlx::sqlite::{SqlitePool, SqlitePoolOptions, SqliteRow};
use sqlx::Row;

const ITEM_TABLE: &str = "CREATE TABLE item (
    id INTEGER PRIMARY KEY AUTOINCREMENT,
    name TEXT NOT NULL,
    quantity REAL NOT NULL,
    state INTEGER NOT NULL
)";

const MEDIA_TABLE: &str = "CREATE TABLE media (
    id INTEGER PRIMARY KEY AUTOINCREMENT,
    title TEXT NOT NULL,
    path TEXT NOT NULL,
    kind TEXT NOT NULL,
    conceptual_path TEXT
)";

fn block_on<F: Future>(future: F) -> F::Output {
    tokio::runtime::Builder::new_current_thread()
        .enable_all()
        .build()
        .expect("a runtime")
        .block_on(future)
}

async fn open() -> SqlitePool {
    let pool = SqlitePoolOptions::new()
        .max_connections(1)
        .connect("sqlite::memory:")
        .await
        .expect("an engine in memory");
    sqlx::query(ITEM_TABLE).execute(&pool).await.expect("the item table");
    sqlx::query(MEDIA_TABLE).execute(&pool).await.expect("the media table");
    pool
}

fn stored(number: f64) -> Quantity {
    Quantity::from_bits(number.to_bits())
}

fn bound(
    statement: &Statement,
) -> sqlx::query::Query<'static, sqlx::Sqlite, sqlx::sqlite::SqliteArguments<'static>> {
    let mut query = sqlx::query(statement.sql());
    for value in statement.parameters() {
        query = match value {
            Value::Text(text) => query.bind(text),
            Value::Real(quantity) => query.bind(f64::from_bits(quantity.to_bits())),
            Value::Integer(number) => query.bind(number),
            Value::Kind(kind) => query.bind(format!("{kind:?}")),
        };
    }
    query
}

fn item_row(row: SqliteRow) -> ItemRow {
    ItemRow {
        id: row.get("id"),
        name: row.get("name"),
        quantity: stored(row.get("quantity")),
        state: row.get("state"),
    }
}

async fn execute(pool: &SqlitePool, statement: &Statement) -> Result<Done, String> {
    bound(statement)
        .execute(pool)
        .await
        .map(|done| Done {
            last_insert_rowid: done.last_insert_rowid(),
            rows_affected: done.rows_affected(),
        })
        .map_err(|error| error.to_string())
}

async fn fetch_one(pool: &SqlitePool, statement: &Statement) -> Result<ItemRow, String> {
    bound(statement).fetch_one(pool).await.map(item_row).map_err(|error| error.to_string())
}

async fn fetch_all(pool: &SqlitePool, statement: &Statement) -> Result<Vec<ItemRow>, String> {
    bound(statement)
        .fetch_all(pool)
        .await
        .map(|rows| rows.into_iter().map(item_row).collect())
        .map_err(|error| error.to_string())
}

async fn create(pool: &SqlitePool, record: Item) -> Result<i64, StoreError> {
    create_result(execute(pool, &create_statement(record)).await)
}

async fn read(pool: &SqlitePool, id: i64) -> Result<Item, StoreError> {
    read_result(id, fetch_one(pool, &read_statement(id)).await)
}

async fn update(pool: &SqlitePool, record: Item) -> Result<(), StoreError> {
    update_result(execute(pool, &update_statement(record)).await)
}

async fn delete(pool: &SqlitePool, id: i64) -> Result<(), StoreError> {
    delete_result(execute(pool, &delete_statement(id)).await)
}

async fn list(pool: &SqlitePool, state: State) -> Result<Vec<Item>, StoreError> {
    read_many_from_state_result(fetch_all(pool, &read_many_from_state_statement(state)).await)
}

async fn list_both(pool: &SqlitePool) -> Vec<Item> {
    let mut items = list(pool, State::Stock).await.expect("the stock");
    items.extend(list(pool, State::Shopping).await.expect("the shopping list"));
    items.sort_by_key(|item| item.id);
    items
}

#[test]
fn milk_goes_from_stock_to_the_shopping_list_and_away() {
    block_on(async {
        let pool = open().await;
        let id = create(&pool, Item::new(0, "Milk".to_string(), stored(2.0), State::Stock))
            .await
            .expect("created");
        assert_eq!(id, 1);

        let in_stock = Item::new(1, "Milk".to_string(), stored(2.0), State::Stock);
        assert!(list(&pool, State::Stock).await.expect("listed").contains(&in_stock));

        let wanted = Item::new(1, "Milk".to_string(), stored(0.0), State::Shopping);
        update(&pool, wanted.clone()).await.expect("updated");
        assert!(list(&pool, State::Shopping).await.expect("listed").contains(&wanted));
        let stock = list(&pool, State::Stock).await.expect("listed");
        assert!(stock.iter().all(|item| item.id != 1));

        delete(&pool, 1).await.expect("deleted");
        assert!(read(&pool, 1).await.is_err());
    });
}

#[test]
fn a_created_record_reads_back_equal_but_for_the_id() {
    block_on(async {
        let pool = open().await;
        let records = [
            Item::new(0, "Milk".to_string(), stored(2.0), State::Stock),
            Item::new(77, "Tea".to_string(), stored(0.0), State::Shopping),
            Item::new(-5, "Caf\u{e9} au lait".to_string(), stored(0.125), State::Shopping),
            Item::new(0, "x'); DROP TABLE item; --".to_string(), stored(1e300), State::Stock),
        ];
        for record in records {
            let id = create(&pool, record.clone()).await.expect("created");
            let read_back = read(&pool, id).await.expect("read");
            assert_eq!(read_back, Item::new(id, record.name, record.quantity, record.state));
        }
    });
}

#[test]
fn created_records_get_ids_of_their_own() {
    block_on(async {
        let pool = open().await;
        let first = create(&pool, Item::new(0, "Milk".to_string(), stored(2.0), State::Stock))
            .await
            .expect("created");
        let second = create(&pool, Item::new(0, "Milk".to_string(), stored(2.0), State::Stock))
            .await
            .expect("created");
        assert_eq!((first, second), (1, 2));
        assert_eq!(list_both(&pool).await.len(), 2);
    });
}

#[test]
fn an_updated_record_reads_back_as_updated() {
    block_on(async {
        let pool = open().await;
        let id = create(&pool, Item::new(0, "Milk".to_string(), stored(2.0), State::Stock))
            .await
            .expect("created");
        let other = create(&pool, Item::new(0, "Tea".to_string(), stored(1.0), State::Stock))
            .await
            .expect("created");
        let changed = Item::new(id, "Oat milk".to_string(), stored(3.5), State::Shopping);
        update(&pool, changed.clone()).await.expect("updated");
        assert_eq!(read(&pool, id).await.expect("read"), changed);
        assert_eq!(
            read(&pool, other).await.expect("read"),
            Item::new(other, "Tea".to_string(), stored(1.0), State::Stock)
        );
    });
}

#[test]
fn updating_a_missing_id_succeeds_and_changes_nothing() {
    block_on(async {
        let pool = open().await;
        create(&pool, Item::new(0, "Milk".to_string(), stored(2.0), State::Stock))
            .await
            .expect("created");
        let before = list_both(&pool).await;
        let missing = Item::new(99, "Ghost".to_string(), stored(1.0), State::Shopping);
        assert_eq!(update(&pool, missing).await, Ok(()));
        assert_eq!(list_both(&pool).await, before);
        assert!(read(&pool, 99).await.is_err());
    });
}

#[test]
fn a_deleted_record_cannot_be_read() {
    block_on(async {
        let pool = open().await;
        let id = create(&pool, Item::new(0, "Milk".to_string(), stored(2.0), State::Stock))
            .await
            .expect("created");
        assert_eq!(delete(&pool, id).await, Ok(()));
        match read(&pool, id).await {
            Err(StoreError::SqlError(diagnostic)) => assert!(!diagnostic.is_empty()),
            Ok(item) => panic!("read {item:?} after its deletion"),
        }
    });
}

#[test]
fn deleting_twice_is_deleting_once() {
    block_on(async {
        let pool = open().await;
        let kept = create(&pool, Item::new(0, "Tea".to_string(), stored(1.0), State::Stock))
            .await
            .expect("created");
        let id = create(&pool, Item::new(0, "Milk".to_string(), stored(2.0), State::Stock))
            .await
            .expect("created");
        assert_eq!(delete(&pool, id).await, Ok(()));
        let after_first = list_both(&pool).await;
        assert_eq!(delete(&pool, id).await, Ok(()));
        assert_eq!(list_both(&pool).await, after_first);
        assert_eq!(after_first.len(), 1);
        assert_eq!(after_first[0].id, kept);
    });
}

#[test]
fn deleting_a_missing_id_succeeds() {
    block_on(async {
        let pool = open().await;
        assert_eq!(delete(&pool, 12).await, Ok(()));
    });
}

#[test]
fn a_listing_holds_only_the_state_asked_for() {
    block_on(async {
        let pool = open().await;
        let states = [State::Stock, State::Shopping, State::Shopping, State::Stock, State::Stock];
        for (number, state) in states.into_iter().enumerate() {
            create(&pool, Item::new(0, format!("item {number}"), stored(1.0), state))
                .await
                .expect("created");
        }
        update(&pool, Item::new(1, "item 0".to_string(), stored(1.0), State::Shopping))
            .await
            .expect("updated");
        let stock = list(&pool, State::Stock).await.expect("listed");
        let shopping = list(&pool, State::Shopping).await.expect("listed");
        assert!(stock.iter().all(|item| item.state == State::Stock));
        assert!(shopping.iter().all(|item| item.state == State::Shopping));
        let mut stock_ids: Vec<i64> = stock.iter().map(|item| item.id).collect();
        let mut shopping_ids: Vec<i64> = shopping.iter().map(|item| item.id).collect();
        stock_ids.sort();
        shopping_ids.sort();
        assert_eq!(stock_ids, vec![4, 5]);
        assert_eq!(shopping_ids, vec![1, 2, 3]);
    });
}

#[test]
fn a_stored_state_out_of_range_reads_as_stock() {
    block_on(async {
        let pool = open().await;
        sqlx::query("INSERT INTO item (name, quantity, state) VALUES ('Old', 1.0, 7)")
            .execute(&pool)
            .await
            .expect("inserted");
        let old = Item::new(1, "Old".to_string(), stored(1.0), State::Stock);
        assert_eq!(read(&pool, 1).await, Ok(old.clone()));
        assert_eq!(list(&pool, State::Stock).await, Ok(vec![old]));
        assert_eq!(list(&pool, State::Shopping).await, Ok(vec![]));
    });
}

#[test]
fn a_record_is_listed_under_the_state_that_read_reports() {
    block_on(async {
        let pool = open().await;
        let codes = [0i64, 1, 2, 3, 7, -3, i64::MAX, i64::MIN, 2, 0];
        for code in codes {
            sqlx::query("INSERT INTO item (name, quantity, state) VALUES ('Item', 1.0, ?1)")
                .bind(code)
                .execute(&pool)
                .await
                .expect("inserted");
        }
        let stock = list(&pool, State::Stock).await.expect("listed");
        let shopping = list(&pool, State::Shopping).await.expect("listed");
        assert_eq!(stock.len() + shopping.len(), codes.len());
        for (at, code) in codes.into_iter().enumerate() {
            let id = at as i64 + 1;
            let record = read(&pool, id).await.expect("read");
            let expected = if code == 2 { State::Shopping } else { State::Stock };
            assert_eq!(record.state, expected, "code {code}");
            let in_stock = stock.iter().filter(|item| item.id == id).count();
            let in_shopping = shopping.iter().filter(|item| item.id == id).count();
            match record.state {
                State::Stock => assert_eq!((in_stock, in_shopping), (1, 0), "code {code}"),
                State::Shopping => assert_eq!((in_stock, in_shopping), (0, 1), "code {code}"),
            }
            assert!(stock.iter().chain(shopping.iter()).any(|item| *item == record));
        }
    });
}

fn written(writer: i64, round: i64) -> Item {
    let state = if (writer + round) % 2 == 0 { State::Stock } else { State::Shopping };
    let number = (writer * 1000 + round) as f64;
    Item::new(0, format!("{writer}/{round}/{}", state.label()), stored(number), state)
}

fn is_one_write(item: &Item) -> bool {
    let number = f64::from_bits(item.quantity.to_bits()) as i64;
    let expected = written(number / 1000, number % 1000);
    item.name == expected.name && item.quantity == expected.quantity && item.state == expected.state
}

#[test]
fn a_listing_among_writers_holds_whole_rows_of_its_state() {
    block_on(async {
        let pool = open().await;
        let mut tasks = Vec::new();
        for writer in 1..=4i64 {
            let pool = pool.clone();
            tasks.push(tokio::spawn(async move {
                for round in 0..25i64 {
                    let id = create(&pool, written(writer, round)).await.expect("created");
                    let mut changed = written(writer, round + 100);
                    changed.id = (id + writer) % 40 + 1;
                    update(&pool, changed).await.expect("updated");
                }
            }));
        }
        let reader = {
            let pool = pool.clone();
            tokio::spawn(async move {
                let mut seen = 0;
                for _ in 0..50 {
                    for state in [State::Stock, State::Shopping] {
                        for item in list(&pool, state).await.expect("listed") {
                            assert_eq!(item.state, state);
                            assert!(is_one_write(&item), "{item:?}");
                            seen += 1;
                        }
                    }
                }
                seen
            })
        };
        for task in tasks {
            task.await.expect("a writer");
        }
        reader.await.expect("the reader");
        let all = list_both(&pool).await;
        assert_eq!(all.len(), 100);
        assert!(all.iter().all(is_one_write));
    });
}

#[test]
fn a_failure_of_the_engine_comes_back_as_a_store_error() {
    block_on(async {
        let pool = open().await;
        sqlx::query("DROP TABLE item").execute(&pool).await.expect("dropped");
        let record = Item::new(0, "Milk".to_string(), stored(2.0), State::Stock);
        for result in [
            create(&pool, record.clone()).await.map(|_| ()),
            update(&pool, record).await,
            delete(&pool, 1).await,
            read(&pool, 1).await.map(|_| ()),
            list(&pool, State::Stock).await.map(|_| ()),
        ] {
            match result {
                Err(error) => {
                    assert!(error.diagnostic().contains("no such table"), "{error:?}");
                    assert!(error.to_string().starts_with("SqlError: "));
                }
                Ok(()) => panic!("the table is gone"),
            }
        }
    });
}

#[test]
fn an_uploaded_photo_is_catalogued_as_an_image() {
    block_on(async {
        let pool = open().await;
        let state = UploadState::Write {
            filename: "photo.jpg".to_string(),
            path: "uploads/photo.jpg".to_string(),
            content_type: Some("image/jpeg".to_string()),
        };
        let (state, action) = step(state, UploadEvent::Written(Ok(()))).expect("a step");
        let statement = match action {
            UploadAction::Execute(statement) => statement,
            other => panic!("expected the catalogue row, got {other:?}"),
        };
        let inserted = execute(&pool, &statement).await;
        assert_eq!(inserted, Ok(Done { last_insert_rowid: 1, rows_affected: 1 }));
        let (state, _) = step(state, UploadEvent::Inserted(inserted)).expect("a step");
        assert_eq!(state, UploadState::Finished);

        let listing = get_media_items(MediaFilter { conceptual_path: "/uploads".to_string() });
        let rows = bound(&listing).fetch_all(&pool).await.expect("listed");
        assert_eq!(rows.len(), 1);
        assert_eq!(rows[0].get::<i64, _>("id"), 1);
        assert_eq!(rows[0].get::<String, _>("title"), "photo.jpg");
        assert!(rows[0].get::<String, _>("path").ends_with("/photo.jpg"));
        assert_eq!(rows[0].get::<String, _>("kind"), format!("{:?}", MediaKind::Image));
        assert_eq!(rows[0].get::<Option<String>, _>("conceptual_path"), Some("/uploads".to_string()));

        let elsewhere = get_media_items(MediaFilter { conceptual_path: "/films".to_string() });
        assert!(bound(&elsewhere).fetch_all(&pool).await.expect("listed").is_empty());
    });
}

#[test]
fn a_quantity_that_is_no_number_is_not_stored() {
    block_on(async {
        let pool = open().await;
        let record = Item::new(0, "Milk".to_string(), stored(f64::NAN), State::Stock);
        assert!(!record.is_valid());
        match create(&pool, record).await {
            Err(StoreError::SqlError(diagnostic)) => {
                assert!(diagnostic.contains("item.quantity"), "{diagnostic}")
            }
            Ok(id) => panic!("stored under {id}"),
        }
        assert_eq!(list_both(&pool).await, vec![]);
    });
}

#[test]
fn the_engine_reports_the_rows_it_touched() {
    block_on(async {
        let pool = open().await;
        let milk = Item::new(0, "Milk".to_string(), stored(2.0), State::Stock);
        let inserted = execute(&pool, &create_statement(milk.clone())).await;
        assert_eq!(inserted, Ok(Done { last_insert_rowid: 1, rows_affected: 1 }));
        let inserted = execute(&pool, &create_statement(milk)).await;
        assert_eq!(inserted, Ok(Done { last_insert_rowid: 2, rows_affected: 1 }));

        let tea = Item::new(2, "Tea".to_string(), stored(1.0), State::Shopping);
        let updated = execute(&pool, &update_statement(tea.clone())).await.expect("updated");
        assert_eq!(updated.rows_affected, 1);
        let missing = Item::new(9, "Tea".to_string(), stored(1.0), State::Shopping);
        let updated = execute(&pool, &update_statement(missing)).await.expect("updated");
        assert_eq!(updated.rows_affected, 0);

        let deleted = execute(&pool, &delete_statement(1)).await.expect("deleted");
        assert_eq!(deleted.rows_affected, 1);
        let deleted = execute(&pool, &delete_statement(1)).await.expect("deleted");
        assert_eq!(deleted.rows_affected, 0);

        assert_eq!(fetch_one(&pool, &read_statement(2)).await.map(ItemRow::into_item), Ok(tea));
        assert!(fetch_one(&pool, &read_statement(1)).await.is_err());
    });
}
