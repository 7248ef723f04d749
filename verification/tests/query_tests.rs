use typed_schema::error::DatabaseError;
use typed_schema::executor::{decode_row, decode_rows, encode_insert, encode_select};
use typed_schema::handle::{
    abandon, checkout, InsertHandle, InsertOutcome, InsertReply, QueryHandle, QueryReply,
};
use typed_schema::pool::{Lease, Pool, SlotState};
use typed_schema::projection::Projection;
use typed_schema::record::{collect_text, values_fit, Record};
use typed_schema::reply::{failure_text, http_status, is_get_users, join, reply_text};
use typed_schema::schema::{ColumnDescriptor, Registry, RegistryEntry};
use typed_schema::value::{clone_values, Value, ValueKind};

fn users() -> RegistryEntry {
    RegistryEntry::new(
        "Users".to_string(),
        vec![
            ColumnDescriptor::new("id".to_string(), ValueKind::UInt64),
            ColumnDescriptor::new("name".to_string(), ValueKind::Text),
            ColumnDescriptor::new("email".to_string(), ValueKind::Text),
            ColumnDescriptor::new("password".to_string(), ValueKind::Text),
        ],
    )
}

fn john_values() -> Vec<Value> {
    vec![
        Value::UInt64(1),
        Value::Text("John Doe".to_string()),
        Value::Text("john.doe@example.com".to_string()),
        Value::Text("password".to_string()),
    ]
}

fn john() -> Record {
    Record::new(&users(), john_values()).unwrap()
}

fn only_name() -> QueryHandle {
    let entry = users();
    let projection =
        Projection::selected("Users".to_string()).column(entry.column(&"name".to_string()).unwrap());
    QueryHandle::new(&entry, projection).unwrap()
}

#[test]
fn record_is_fully_populated() {
    let record = john();
    assert_eq!(record.table_name, "Users");
    assert_eq!(record.values, john_values());
    assert_eq!(record.fetched, vec![true, true, true, true]);
    assert!(record.fits(&users()));
    assert!(record.is_complete());
    assert_eq!(record.clone(), record);
    assert_eq!(clone_values(&john_values()), john_values());
}

#[test]
fn record_of_another_shape_is_refused() {
    let entry = users();
    assert_eq!(Record::new(&entry, vec![Value::UInt64(1)]), Err(DatabaseError::ColumnMismatch));
    let swapped = vec![
        Value::Text("John Doe".to_string()),
        Value::UInt64(1),
        Value::Text("a".to_string()),
        Value::Text("b".to_string()),
    ];
    assert!(!values_fit(&entry, &swapped));
    assert_eq!(Record::new(&entry, swapped), Err(DatabaseError::ColumnMismatch));
}

#[test]
fn insert_request_holds_every_column_in_order() {
    let request = encode_insert(&users(), &john()).unwrap();
    assert_eq!(request.table_name, "Users");
    assert_eq!(request.columns, vec!["id", "name", "email", "password"]);
    assert_eq!(request.values, john_values());
}

#[test]
fn insert_of_a_partial_record_is_refused() {
    let record = decode_row(&only_name().selection, &vec![Value::Text("x".to_string())]).unwrap();
    assert!(!record.is_complete());
    assert_eq!(encode_insert(&users(), &record), Err(DatabaseError::ColumnMismatch));
}

#[test]
fn select_request_names_the_chosen_columns_in_order() {
    let entry = users();
    let projection = Projection::selected("Users".to_string())
        .column(entry.column(&"password".to_string()).unwrap())
        .column(entry.column(&"id".to_string()).unwrap());
    let selection = projection.resolve(&entry).unwrap();
    let request = encode_select(&selection);
    assert_eq!(request.table_name, "Users");
    assert_eq!(request.columns, vec!["password", "id"]);
    let all = Projection::selected("Users".to_string()).resolve(&entry).unwrap();
    assert_eq!(encode_select(&all).columns, vec!["id", "name", "email", "password"]);
}

#[test]
fn insert_then_full_select_gives_the_record_back() {
    let entry = users();
    let request = encode_insert(&entry, &john()).unwrap();
    let handle = QueryHandle::new(&entry, Projection::selected("Users".to_string())).unwrap();
    let records = decode_rows(&handle.selection, &vec![request.values]).unwrap();
    assert_eq!(records, vec![john()]);
}

#[test]
fn select_of_name_leaves_other_fields_default() {
    let mut registry = Registry::new();
    assert_eq!(registry.register(users()), Ok(()));
    let entry = registry.lookup(&"Users".to_string()).unwrap().clone();
    let mut pool = Pool::new(1);

    let insert = InsertHandle::new(Record::new(&entry, john_values()).unwrap());
    let step = insert.start(&entry, &mut pool).unwrap();
    assert_eq!(step.lease, Lease { slot: 0, fresh: true });
    assert_eq!(step.request.values, john_values());
    assert_eq!(
        insert.finish(&mut pool, step.lease, InsertReply::Acknowledged),
        Ok(InsertOutcome { rows_written: 1 })
    );

    let name = entry.column(&"name".to_string()).unwrap();
    let query =
        QueryHandle::new(&entry, Projection::selected("Users".to_string()).column(name.clone()))
            .unwrap();
    let step = query.start(&mut pool).unwrap();
    assert_eq!(step.lease, Lease { slot: 0, fresh: false });
    assert_eq!(step.request.columns, vec!["name"]);
    let reply = QueryReply::Rows(vec![vec![Value::Text("John Doe".to_string())]]);
    let records = query.finish(&mut pool, step.lease, &reply).unwrap();
    assert_eq!(pool.state(0), Some(SlotState::Idle));

    assert_eq!(records.len(), 1);
    assert_eq!(
        records[0].values,
        vec![
            Value::UInt64(0),
            Value::Text("John Doe".to_string()),
            Value::Text(String::new()),
            Value::Text(String::new()),
        ]
    );
    assert_eq!(records[0].fetched, vec![false, true, false, false]);
    assert_eq!(records[0].get(&entry, &name), Ok(Some(Value::Text("John Doe".to_string()))));
    let email = entry.column(&"email".to_string()).unwrap();
    assert_eq!(records[0].get(&entry, &email), Ok(None));
    assert_eq!(collect_text(&records, &entry, &name), Ok(vec!["John Doe".to_string()]));
    assert_eq!(collect_text(&records, &entry, &email), Err(DatabaseError::ColumnMismatch));
}

#[test]
fn decode_places_values_by_position() {
    let entry = users();
    let projection = Projection::selected("Users".to_string())
        .column(entry.column(&"email".to_string()).unwrap())
        .column(entry.column(&"id".to_string()).unwrap());
    let selection = projection.resolve(&entry).unwrap();
    let row = vec![Value::Text("a@b.c".to_string()), Value::UInt64(9)];
    let record = decode_row(&selection, &row).unwrap();
    assert_eq!(
        record.values,
        vec![
            Value::UInt64(9),
            Value::Text(String::new()),
            Value::Text("a@b.c".to_string()),
            Value::Text(String::new()),
        ]
    );
    assert_eq!(record.fetched, vec![true, false, true, false]);
}

#[test]
fn decode_does_not_carry_data_between_rows() {
    let entry = users();
    let handle = only_name();
    let full = QueryHandle::new(&entry, Projection::selected("Users".to_string())).unwrap();
    let first = decode_row(&full.selection, &john_values()).unwrap();
    assert_eq!(first, john());
    let second = decode_row(&handle.selection, &vec![Value::Text("Jane".to_string())]).unwrap();
    assert_eq!(second.values[0], Value::UInt64(0));
    assert_eq!(second.values[2], Value::Text(String::new()));
    assert_eq!(second.values[3], Value::Text(String::new()));
}

#[test]
fn row_of_the_wrong_shape_is_a_decode_error() {
    let handle = only_name();
    assert_eq!(decode_row(&handle.selection, &vec![]), Err(DatabaseError::DecodeError));
    assert_eq!(
        decode_row(&handle.selection, &vec![Value::UInt64(3)]),
        Err(DatabaseError::DecodeError)
    );
    let rows = vec![
        vec![Value::Text("John Doe".to_string())],
        vec![Value::Text("a".to_string()), Value::Text("b".to_string())],
    ];
    assert_eq!(decode_rows(&handle.selection, &rows), Err(DatabaseError::DecodeError));
}

#[test]
fn decode_error_aborts_the_query_and_closes_the_connection() {
    let handle = only_name();
    let mut pool = Pool::new(1);
    let step = handle.start(&mut pool).unwrap();
    let reply = QueryReply::Rows(vec![vec![Value::Text("ok".to_string())], vec![Value::Bool(true)]]);
    assert_eq!(handle.finish(&mut pool, step.lease, &reply), Err(DatabaseError::DecodeError));
    assert_eq!(pool.state(0), Some(SlotState::Closed));
}

#[test]
fn failed_round_trip_is_a_connection_error() {
    let handle = only_name();
    let mut pool = Pool::new(1);
    let step = handle.start(&mut pool).unwrap();
    assert_eq!(
        handle.finish(&mut pool, step.lease, &QueryReply::Failed),
        Err(DatabaseError::ConnectionError)
    );
    assert_eq!(pool.state(0), Some(SlotState::Closed));
    let insert = InsertHandle::new(john());
    let step = insert.start(&users(), &mut pool).unwrap();
    assert_eq!(
        insert.finish(&mut pool, step.lease, InsertReply::Failed),
        Err(DatabaseError::ConnectionError)
    );
    assert_eq!(pool.state(0), Some(SlotState::Closed));
}

#[test]
fn rejected_insert_is_a_constraint_violation_and_keeps_the_connection() {
    let entry = users();
    let mut pool = Pool::new(1);
    let insert = InsertHandle::new(john());
    let first = insert.start(&entry, &mut pool).unwrap();
    assert_eq!(
        insert.finish(&mut pool, first.lease, InsertReply::Acknowledged),
        Ok(InsertOutcome { rows_written: 1 })
    );
    let second = insert.start(&entry, &mut pool).unwrap();
    assert_eq!(
        insert.finish(&mut pool, second.lease, InsertReply::Rejected),
        Err(DatabaseError::ConstraintViolation)
    );
    assert_eq!(pool.state(0), Some(SlotState::Idle));
    assert_eq!(pool.acquire(), Ok(Lease { slot: 0, fresh: false }));
}

#[test]
fn handle_reports_an_exhausted_pool_as_connection_error() {
    let mut pool = Pool::new(0);
    assert_eq!(checkout(&mut pool), Err(DatabaseError::ConnectionError));
    let insert = InsertHandle::new(john());
    assert_eq!(insert.start(&users(), &mut pool), Err(DatabaseError::ConnectionError));
    assert_eq!(only_name().start(&mut pool), Err(DatabaseError::ConnectionError));
}

#[test]
fn insert_of_a_foreign_record_takes_no_connection() {
    let posts = RegistryEntry::new(
        "Posts".to_string(),
        vec![ColumnDescriptor::new("id".to_string(), ValueKind::UInt64)],
    );
    let mut pool = Pool::new(1);
    let insert = InsertHandle::new(john());
    assert_eq!(insert.start(&posts, &mut pool), Err(DatabaseError::ColumnMismatch));
    assert_eq!(pool.state(0), Some(SlotState::Closed));
    let id_of_posts = posts.column(&"id".to_string()).unwrap();
    assert_eq!(john().get(&users(), &id_of_posts), Err(DatabaseError::ColumnMismatch));
    assert_eq!(
        QueryHandle::new(&users(), Projection::selected("Users".to_string()).column(id_of_posts)),
        Err(DatabaseError::ColumnMismatch)
    );
}

#[test]
fn abandoned_operation_closes_its_connection() {
    let mut pool = Pool::new(2);
    let lease = checkout(&mut pool).unwrap();
    abandon(&mut pool, lease);
    assert_eq!(pool.state(lease.slot), Some(SlotState::Closed));
}

#[test]
fn get_users_replies_with_the_names() {
    let names = vec!["John Doe".to_string()];
    assert_eq!(reply_text("get_users", &names), "John Doe");
    assert_eq!(
        reply_text("anything_else", &names),
        "Invalid message. Use 'get_users' to get users."
    );
    assert!(is_get_users("get_users"));
    assert!(!is_get_users("get_users "));
    assert!(!is_get_users(""));
}

#[test]
fn names_are_joined_by_comma_and_space() {
    assert_eq!(join(&vec![], ", "), "");
    assert_eq!(join(&vec!["a".to_string()], ", "), "a");
    let three = vec!["John Doe".to_string(), "Jane".to_string(), "".to_string()];
    assert_eq!(join(&three, ", "), "John Doe, Jane, ");
    assert_eq!(reply_text("get_users", &three), "John Doe, Jane, ");
    assert_eq!(reply_text("get_users", &vec![]), "");
}

#[test]
fn failures_map_to_server_errors() {
    assert_eq!(http_status(DatabaseError::ConnectionError), 503);
    assert_eq!(http_status(DatabaseError::PoolExhausted), 503);
    assert_eq!(http_status(DatabaseError::ConstraintViolation), 500);
    assert_eq!(http_status(DatabaseError::DecodeError), 500);
    assert_eq!(http_status(DatabaseError::ColumnMismatch), 500);
    assert_eq!(failure_text(), "The request could not be completed.");
}
