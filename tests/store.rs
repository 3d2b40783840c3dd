use message_store::error::ServiceError;
use message_store::message::{MessageRequest, MessageResponse};
use message_store::reply::Outcome;
use message_store::row::{message_from_row, messages_from_rows, Row};
use message_store::schema::{bootstrap_statements, Schema, SchemaError, SchemaStatement};
use message_store::seed::{initial_test_data, initial_test_request, needs_seed};
use message_store::statements::{CREATE_KEYSPACE, CREATE_TABLE};
use message_store::table::MessageTable;

fn create(channel_id: i64, message_id: i64, author_id: i64, content: &str) -> MessageRequest {
    MessageRequest {
        channel_id: Some(channel_id),
        message_id: Some(message_id),
        author_id: Some(author_id),
        content: Some(content.to_string()),
        message_id_offset: None,
    }
}

fn list(channel_id: i64, offset: i64) -> MessageRequest {
    MessageRequest {
        channel_id: Some(channel_id),
        message_id: None,
        author_id: None,
        content: None,
        message_id_offset: Some(offset),
    }
}

fn empty_request() -> MessageRequest {
    MessageRequest { channel_id: None, message_id: None, author_id: None, content: None, message_id_offset: None }
}

fn summary(ms: &[MessageResponse]) -> Vec<(i64, i64, i64, String)> {
    ms.iter().map(|m| (m.channel_id, m.message_id, m.author_id, m.content.clone())).collect()
}

fn listed(t: &MessageTable, channel_id: i64, offset: i64) -> Vec<(i64, i64, i64, String)> {
    summary(&t.get_messages(&list(channel_id, offset)).unwrap())
}

#[test]
fn two_creates_then_list_newest_first() {
    let mut t = MessageTable::new();
    let a = t.add_message(&create(1, 1, 1, "Hello"));
    let b = t.add_message(&create(1, 2, 1, "World"));
    assert_eq!(a.status(), 201);
    assert_eq!(b.status(), 201);
    assert_eq!(
        listed(&t, 1, 0),
        vec![(1, 2, 1, "World".to_string()), (1, 1, 1, "Hello".to_string())]
    );
}

#[test]
fn list_orders_descending() {
    let mut t = MessageTable::new();
    t.add_message(&create(1, 2, 7, "b"));
    t.add_message(&create(1, 1, 7, "a"));
    t.add_message(&create(1, 3, 7, "c"));
    let ids: Vec<i64> = listed(&t, 1, 0).iter().map(|m| m.1).collect();
    assert_eq!(ids, vec![3, 2, 1]);
}

#[test]
fn create_with_no_fields_writes_zero_row() {
    let mut t = MessageTable::new();
    assert_eq!(t.add_message(&empty_request()), Outcome::Created);
    assert_eq!(listed(&t, 0, -1), vec![(0, 0, 0, String::new())]);
}

#[test]
fn create_then_list_from_predecessor_returns_that_row() {
    let mut t = MessageTable::new();
    t.add_message(&create(4, 3, 1, "older"));
    t.add_message(&create(5, 50, 1, "elsewhere"));
    t.add_message(&create(4, 10, 9, "new"));
    assert_eq!(listed(&t, 4, 9), vec![(4, 10, 9, "new".to_string())]);
}

#[test]
fn create_at_existing_key_overwrites() {
    let mut t = MessageTable::new();
    t.add_message(&create(1, 1, 1, "first"));
    t.add_message(&create(1, 1, 2, "second"));
    assert_eq!(listed(&t, 1, 0), vec![(1, 1, 2, "second".to_string())]);
}

#[test]
fn delete_missing_and_present_key_same_outcome() {
    let mut t = MessageTable::new();
    t.add_message(&create(1, 1, 1, "x"));
    let key = MessageRequest { channel_id: Some(1), message_id: Some(1), ..empty_request() };
    let present = t.delete_message(&key);
    let missing = t.delete_message(&key);
    assert_eq!(present, missing);
    assert_eq!(present.status(), 200);
    assert_eq!(present.body(), "Message deleted successfully");
    assert!(listed(&t, 1, 0).is_empty());
}

#[test]
fn delete_without_fields_removes_zero_key() {
    let mut t = MessageTable::new();
    t.add_message(&empty_request());
    t.add_message(&create(0, 1, 0, "kept"));
    t.delete_message(&empty_request());
    assert_eq!(listed(&t, 0, -1), vec![(0, 1, 0, "kept".to_string())]);
}

#[test]
fn update_changes_content_only() {
    let mut t = MessageTable::new();
    t.add_message(&create(2, 5, 42, "before"));
    t.add_message(&create(2, 6, 43, "other"));
    let edit = MessageRequest {
        channel_id: Some(2),
        message_id: Some(5),
        author_id: Some(99),
        content: Some("after".to_string()),
        message_id_offset: None,
    };
    let r = t.edit_message(&edit);
    assert_eq!(r.status(), 200);
    assert_eq!(r.body(), "Message updated successfully");
    assert_eq!(
        listed(&t, 2, 0),
        vec![(2, 6, 43, "other".to_string()), (2, 5, 42, "after".to_string())]
    );
}

#[test]
fn update_of_missing_key_leaves_row_without_author() {
    let mut t = MessageTable::new();
    let edit = MessageRequest { channel_id: Some(3), message_id: Some(1), content: Some("c".to_string()), ..empty_request() };
    t.edit_message(&edit);
    assert_eq!(t.get_messages(&list(3, 0)), Err(ServiceError::Internal));
    assert_eq!(ServiceError::Internal.status(), 500);
}

#[test]
fn list_returns_at_most_ten() {
    let mut t = MessageTable::new();
    for i in 1..=25 {
        t.add_message(&create(8, i, 1, "m"));
    }
    let ids: Vec<i64> = listed(&t, 8, 0).iter().map(|m| m.1).collect();
    assert_eq!(ids, (16..=25).rev().collect::<Vec<i64>>());
    let below: Vec<i64> = listed(&t, 8, 20).iter().map(|m| m.1).collect();
    assert_eq!(below, vec![25, 24, 23, 22, 21]);
}

#[test]
fn list_of_unknown_channel_is_empty() {
    let mut t = MessageTable::new();
    t.add_message(&create(1, 1, 1, "x"));
    assert_eq!(t.get_messages(&empty_request()), Ok(vec![]));
}

#[test]
fn list_request_defaults_to_zero() {
    let q = empty_request().list_query();
    assert_eq!((q.channel_id, q.message_id_offset), (0, 0));
    let q = list(7, 3).list_query();
    assert_eq!((q.channel_id, q.message_id_offset), (7, 3));
}

#[test]
fn request_conversions_take_given_fields() {
    let req = create(1, 2, 3, "text");
    let m = req.new_message();
    assert_eq!((m.channel_id, m.message_id, m.author_id, m.content.as_str()), (1, 2, 3, "text"));
    let k = req.message_key();
    assert_eq!((k.channel_id, k.message_id), (1, 2));
    let u = req.content_update();
    assert_eq!((u.channel_id, u.message_id, u.content.as_str()), (1, 2, "text"));
    let z = empty_request().new_message();
    assert_eq!((z.channel_id, z.message_id, z.author_id, z.content.as_str()), (0, 0, 0, ""));
}

#[test]
fn rows_map_to_messages() {
    let rows = vec![
        Row { channel_id: 1, message_id: 2, author_id: Some(3), content: Some("a".to_string()) },
        Row { channel_id: 1, message_id: 1, author_id: Some(4), content: Some("b".to_string()) },
    ];
    let ms = messages_from_rows(Some(rows)).unwrap();
    assert_eq!(summary(&ms), vec![(1, 2, 3, "a".to_string()), (1, 1, 4, "b".to_string())]);
    assert_eq!(messages_from_rows(None), Ok(vec![]));
}

#[test]
fn row_with_null_column_is_internal_error() {
    let null_content = Row { channel_id: 1, message_id: 1, author_id: Some(1), content: None };
    assert!(message_from_row(&null_content).is_none());
    let rows = vec![Row { channel_id: 1, message_id: 2, author_id: None, content: Some("x".to_string()) }];
    assert_eq!(messages_from_rows(Some(rows)), Err(ServiceError::Internal));
}

#[test]
fn error_statuses() {
    assert_eq!(ServiceError::Unavailable.status(), 503);
    assert_eq!(ServiceError::BadRequest.status(), 400);
    assert_eq!(ServiceError::Internal.message(), "internal error");
}

#[test]
fn outcome_replies() {
    assert_eq!(Outcome::Created.body(), "Message added successfully");
    assert_eq!(Outcome::Deleted.status(), 200);
    assert_eq!(Outcome::Updated.status(), 200);
}

#[test]
fn bootstrap_twice_succeeds_without_change() {
    let mut s = Schema::empty();
    assert_eq!(s.bootstrap(), Ok(()));
    let once = s;
    assert_eq!(s.bootstrap(), Ok(()));
    assert_eq!(s, once);
    assert_eq!(s, Schema { keyspace: true, table: true });
}

#[test]
fn table_needs_keyspace() {
    let mut s = Schema::empty();
    assert_eq!(s.apply(SchemaStatement::CreateTable), Err(SchemaError::KeyspaceMissing));
    assert_eq!(s, Schema::empty());
    assert_eq!(s.apply(SchemaStatement::CreateKeyspace), Ok(()));
    assert_eq!(s.apply(SchemaStatement::CreateTable), Ok(()));
}

#[test]
fn bootstrap_statements_in_order() {
    let sts = bootstrap_statements();
    assert_eq!(sts, vec![SchemaStatement::CreateKeyspace, SchemaStatement::CreateTable]);
    assert_eq!(sts[0].cql(), CREATE_KEYSPACE);
    assert_eq!(sts[1].cql(), CREATE_TABLE);
    assert!(CREATE_TABLE.contains("IF NOT EXISTS"));
}

#[test]
fn seed_fixture_fills_empty_channel() {
    let mut t = MessageTable::new();
    let probe = initial_test_request();
    let before = t.get_messages(&probe).unwrap();
    assert!(needs_seed(&before));
    for req in initial_test_data() {
        t.add_message(&req);
    }
    let after = t.get_messages(&probe).unwrap();
    assert!(!needs_seed(&after));
    assert_eq!(
        summary(&after),
        vec![
            (1, 3, 1, "!".to_string()),
            (1, 2, 1, "World".to_string()),
            (1, 1, 1, "Hello".to_string())
        ]
    );
}
