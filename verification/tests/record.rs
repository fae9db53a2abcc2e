use scalar_surreal::record::{
    deleted, found, listed, put, unpublished, DraftTable, Item, MetaTable, PublishedTable,
    RecordId, RecordIdKey, SurrealItem,
};
use scalar_surreal::wrapper::Wrapper;
use serde_json::Value;
use surrealdb::types::Datetime;

fn time(seconds: i64) -> Datetime {
    Datetime::from_timestamp(seconds, 0).unwrap()
}

fn record_id(table: &str, key: &str) -> RecordId {
    RecordId { table: table.to_string(), key: RecordIdKey::String(key.to_string()) }
}

fn item(id: &str) -> Item<u8> {
    Item {
        id: id.to_string(),
        created_at: time(1),
        modified_at: time(2),
        published_at: Some(time(3)),
        inner: 4,
    }
}

fn record(id: &str) -> SurrealItem<u8> {
    SurrealItem {
        id: record_id("post", id),
        created_at: time(1),
        modified_at: time(2),
        published_at: Some(time(3)),
        inner: Wrapper::new(4),
    }
}

#[test]
fn item_becomes_its_record() {
    assert_eq!(SurrealItem::from(item("first"), "post"), record("first"));
}

#[test]
fn record_becomes_its_item() {
    assert_eq!(Item::from(record("first")), item("first"));
}

#[test]
fn item_is_read_back_as_it_was_stored() {
    assert_eq!(Item::from(SurrealItem::from(item("first"), "post")), item("first"));
}

#[test]
fn record_is_stored_back_as_it_was_read() {
    assert_eq!(SurrealItem::from(Item::from(record("first")), "post"), record("first"));
}

#[test]
fn found_record_is_an_item() {
    assert_eq!(found(Some(record("first"))), Some(item("first")));
    assert_eq!(found::<u8>(None), None);
}

#[test]
fn listed_records_keep_their_order() {
    assert_eq!(
        listed(vec![record("b"), record("a"), record("c")]),
        vec![item("b"), item("a"), item("c")]
    );
    assert_eq!(listed::<u8>(vec![]), vec![]);
}

#[test]
fn put_names_the_record_it_holds() {
    let request = put("post", item("first"));
    assert_eq!(request.table, "post");
    assert_eq!(request.key, "first");
    assert_eq!(request.content, record("first"));
    assert_eq!(request.content.id, record_id("post", "first"));
}

#[test]
fn unpublished_content_is_unwrapped() {
    assert_eq!(unpublished(Some(Wrapper::new(7))), Some(7));
    assert_eq!(unpublished::<u8>(None), None);
}

fn meta() -> MetaTable {
    MetaTable {
        id: record_id("post_meta", "first"),
        created_at: time(10),
        modified_at: time(20),
        draft: Some(record_id("post_draft", "first")),
        published: None,
    }
}

fn published() -> PublishedTable {
    PublishedTable {
        id: record_id("post", "first"),
        inner: Value::from("published"),
        published_at: time(30),
    }
}

fn draft() -> DraftTable {
    DraftTable { id: record_id("post_draft", "first"), inner: Value::from("draft") }
}

fn removed(published_at: Option<Datetime>, inner: Value) -> Option<Item<Value>> {
    Some(Item {
        id: "first".to_string(),
        created_at: time(10),
        modified_at: time(20),
        published_at,
        inner,
    })
}

#[test]
fn deleted_item_has_the_content_of_its_draft() {
    assert_eq!(
        deleted(Some(meta()), Some(published()), Some(draft())),
        removed(Some(time(30)), Value::from("draft"))
    );
    assert_eq!(
        deleted(Some(meta()), None, Some(draft())),
        removed(None, Value::from("draft"))
    );
}

#[test]
fn deleted_item_without_draft_has_its_published_content() {
    assert_eq!(
        deleted(Some(meta()), Some(published()), None),
        removed(Some(time(30)), Value::from("published"))
    );
}

#[test]
fn deleted_item_without_content_is_null() {
    assert_eq!(deleted(Some(meta()), None, None), removed(None, Value::Null));
    assert_eq!(deleted(Some(meta()), None, None).unwrap().inner.to_string(), "null");
}

#[test]
fn nothing_known_is_no_item() {
    assert_eq!(deleted(None, Some(published()), Some(draft())), None);
}
