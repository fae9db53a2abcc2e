//! Records as the database stores them, and the items that they stand for.

use vstd::prelude::*;

use crate::json::{json_text, null};
use crate::wrapper::Wrapper;

verus! {

/// The key of a record within its table.
#[derive(Debug, PartialEq)]
pub enum RecordIdKey {
    Number(i64),
    String(String),
    /// A key of another kind, which no document has.
    Other,
}

/// The identity of a record: its table and its key there.
#[derive(Debug, PartialEq)]
pub struct RecordId {
    pub table: String,
    pub key: RecordIdKey,
}

/// What is known about a document, with links to its draft and its published version.
#[derive(Debug, PartialEq)]
pub struct MetaTable {
    pub id: RecordId,
    pub created_at: surrealdb::types::Datetime,
    pub modified_at: surrealdb::types::Datetime,
    pub draft: Option<RecordId>,
    pub published: Option<RecordId>,
}

/// The draft of a document.
#[derive(Debug, PartialEq)]
pub struct DraftTable {
    pub id: RecordId,
    pub inner: serde_json::Value,
}

/// The published version of a document.
#[derive(Debug, PartialEq)]
pub struct PublishedTable {
    pub id: RecordId,
    pub inner: serde_json::Value,
    pub published_at: surrealdb::types::Datetime,
}

/// A document with its content of type `D`, as its users see it.
#[derive(Debug, PartialEq)]
pub struct Item<D> {
    pub id: String,
    pub created_at: surrealdb::types::Datetime,
    pub modified_at: surrealdb::types::Datetime,
    pub published_at: Option<surrealdb::types::Datetime>,
    pub inner: D,
}

/// A document with its content of type `D`, as the database answers it.
#[derive(Debug, PartialEq)]
pub struct SurrealItem<D> {
    pub id: RecordId,
    pub created_at: surrealdb::types::Datetime,
    pub modified_at: surrealdb::types::Datetime,
    pub published_at: Option<surrealdb::types::Datetime>,
    pub inner: Wrapper<D>,
}

impl<D> SurrealItem<D> {
    /// The item that the record stands for. Its id is the record's key.
    pub open spec fn item(self) -> Item<D>
        recommends
            self.id.key is String,
    {
        Item {
            id: self.id.key->String_0,
            created_at: self.created_at,
            modified_at: self.modified_at,
            published_at: self.published_at,
            inner: self.inner.0,
        }
    }

    /// The record of an item in the table `table`.
    pub open spec fn stands_for(self, table: Seq<char>, item: Item<D>) -> bool {
        &&& self.id.table@ == table
        &&& self.id.key == RecordIdKey::String(item.id)
        &&& self.created_at == item.created_at
        &&& self.modified_at == item.modified_at
        &&& self.published_at == item.published_at
        &&& self.inner == Wrapper(item.inner)
    }

    /// Turns an item into its record in the table `table`.
    pub fn from(item: Item<D>, table: &str) -> (record: SurrealItem<D>)
        ensures
            record.stands_for(table@, item),
            record.id.table@ == table@,
            record.id.key == RecordIdKey::String(item.id),
            record.created_at == item.created_at,
            record.modified_at == item.modified_at,
            record.published_at == item.published_at,
            record.inner.0 == item.inner,
    {
        SurrealItem {
            id: RecordId { table: table.to_owned(), key: RecordIdKey::String(item.id) },
            created_at: item.created_at,
            modified_at: item.modified_at,
            published_at: item.published_at,
            inner: Wrapper::new(item.inner),
        }
    }
}

impl<D> Item<D> {
    /// Turns a record into the item that it stands for. Documents have strings for keys.
    pub fn from(record: SurrealItem<D>) -> (item: Item<D>)
        requires
            record.id.key is String,
        ensures
            item == record.item(),
            RecordIdKey::String(item.id) == record.id.key,
            item.created_at == record.created_at,
            item.modified_at == record.modified_at,
            item.published_at == record.published_at,
            item.inner == record.inner.0,
    {
        let id = match record.id.key {
            RecordIdKey::String(id) => id,
            _ => String::new(),
        };
        Item {
            id,
            created_at: record.created_at,
            modified_at: record.modified_at,
            published_at: record.published_at,
            inner: record.inner.0,
        }
    }
}

/// A record of an item stands for that item: what was stored is read back.
pub proof fn item_survives_storage<D>(table: Seq<char>, item: Item<D>, record: SurrealItem<D>)
    requires
        record.stands_for(table, item),
    ensures
        record.id.key is String,
        record.item() == item,
{
}

/// The item of a record is stored in that record's table as that record.
pub proof fn record_survives_reading<D>(record: SurrealItem<D>)
    requires
        record.id.key is String,
    ensures
        record.stands_for(record.id.table@, record.item()),
{
}

/// Turns the record that was found, if one was, into its item.
pub fn found<D>(record: Option<SurrealItem<D>>) -> (item: Option<Item<D>>)
    requires
        record matches Some(record) ==> record.id.key is String,
    ensures
        item == (match record {
            Some(record) => Some(record.item()),
            None => None,
        }),
{
    match record {
        Some(record) => Some(Item::from(record)),
        None => None,
    }
}

/// Turns the records of some documents into their items, in the same order.
pub fn listed<D>(records: Vec<SurrealItem<D>>) -> (items: Vec<Item<D>>)
    requires
        forall|i: int| 0 <= i < records@.len() ==> (#[trigger] records@[i]).id.key is String,
    ensures
        items@ == records@.map_values(|record: SurrealItem<D>| record.item()),
{
    let mut items: Vec<Item<D>> = Vec::new();
    for record in rest: records
        invariant
            rest.seq() == records@,
            forall|i: int| 0 <= i < records@.len() ==> (#[trigger] records@[i]).id.key is String,
            items@ == records@.take(rest.index()).map_values(
                |record: SurrealItem<D>| record.item(),
            ),
    {
        items.push(Item::from(record));
    }
    items
}

/// What is sent to store an item: its content, under the key that it has in its table.
#[derive(Debug, PartialEq)]
pub struct PutRequest<D> {
    pub table: String,
    pub key: String,
    pub content: SurrealItem<D>,
}

/// Stores an item as it is in the table `table`, replacing what stands under its id.
pub fn put<D>(table: &str, item: Item<D>) -> (request: PutRequest<D>)
    ensures
        request.table@ == table@,
        request.key == item.id,
        request.content.stands_for(table@, item),
{
    PutRequest {
        table: table.to_owned(),
        key: item.id.clone(),
        content: SurrealItem::from(item, table),
    }
}

/// An item is stored under the identity that its content names.
pub proof fn put_names_its_target<D>(table: Seq<char>, item: Item<D>, request: PutRequest<D>)
    requires
        request.table@ == table,
        request.key == item.id,
        request.content.stands_for(table, item),
    ensures
        request.content.id.table@ == request.table@,
        request.content.id.key == RecordIdKey::String(request.key),
{
}

/// Unwraps the content that a document had, if one was answered.
pub fn unpublished<D>(content: Option<Wrapper<D>>) -> (inner: Option<D>)
    ensures
        inner == (match content {
            Some(wrapper) => Some(wrapper.0),
            None => None,
        }),
{
    match content {
        Some(wrapper) => Some(wrapper.0),
        None => None,
    }
}

/// When a document was published, if it was.
pub open spec fn publication(published: Option<PublishedTable>) -> Option<
    surrealdb::types::Datetime,
> {
    match published {
        Some(published) => Some(published.published_at),
        None => None,
    }
}

/// The content of a document: that of its draft, else that of its published version.
pub open spec fn content(published: Option<PublishedTable>, draft: Option<DraftTable>) -> Option<
    serde_json::Value,
> {
    match (published, draft) {
        (_, Some(draft)) => Some(draft.inner),
        (Some(published), None) => Some(published.inner),
        (None, None) => None,
    }
}

/// Puts together the item that was removed, from what was known about the document, its
/// published version and its draft. A document of which nothing was known is no item; one
/// without content has the content `null`.
pub fn deleted(
    meta: Option<MetaTable>,
    published: Option<PublishedTable>,
    draft: Option<DraftTable>,
) -> (item: Option<Item<serde_json::Value>>)
    requires
        meta matches Some(meta) ==> meta.id.key is String,
    ensures
        item is Some <==> meta is Some,
        item matches Some(item) ==> {
            &&& RecordIdKey::String(item.id) == meta->0.id.key
            &&& item.created_at == meta->0.created_at
            &&& item.modified_at == meta->0.modified_at
            &&& item.published_at == publication(published)
            &&& content(published, draft) matches Some(inner) ==> item.inner == inner
            &&& content(published, draft) is None ==> json_text(item.inner) == "null"@
        },
{
    match meta {
        Some(meta) => {
            let id = match meta.id.key {
                RecordIdKey::String(id) => id,
                _ => String::new(),
            };
            let (published_at, published_inner) = match published {
                Some(published) => (Some(published.published_at), Some(published.inner)),
                None => (None, None),
            };
            let inner = match (draft, published_inner) {
                (Some(draft), _) => draft.inner,
                (None, Some(inner)) => inner,
                (None, None) => null(),
            };
            Some(
                Item {
                    id,
                    created_at: meta.created_at,
                    modified_at: meta.modified_at,
                    published_at,
                    inner,
                },
            )
        },
        None => None,
    }
}

/// An item has the fields of its record, each of them the one of the same name; its id is the
/// record's key and its content what the record wraps.
pub proof fn item_has_the_fields_of_its_record<D>(record: SurrealItem<D>, item: Item<D>)
    requires
        record.id.key is String,
        call_ensures(Item::<D>::from, (record,), item),
    ensures
        record.id.key == RecordIdKey::String(item.id),
        item.created_at == record.created_at,
        item.modified_at == record.modified_at,
        item.published_at == record.published_at,
        item.inner == record.inner.0,
{
}

/// A record has the fields of its item, each of them the one of the same name, in the table that
/// was given.
pub proof fn record_has_the_fields_of_its_item<D>(
    item: Item<D>,
    table: &str,
    record: SurrealItem<D>,
)
    requires
        call_ensures(SurrealItem::<D>::from, (item, table), record),
    ensures
        record.id.table@ == table@,
        record.id.key == RecordIdKey::String(item.id),
        record.created_at == item.created_at,
        record.modified_at == item.modified_at,
        record.published_at == item.published_at,
        record.inner.0 == item.inner,
{
}

/// Turning an item into its record and that record into its item gives the item back.
pub proof fn item_is_given_back<D>(
    item: Item<D>,
    table: &str,
    record: SurrealItem<D>,
    back: Item<D>,
)
    requires
        call_ensures(SurrealItem::<D>::from, (item, table), record),
        call_ensures(Item::<D>::from, (record,), back),
    ensures
        record.id.key is String,
        back == item,
{
}

/// One document is found exactly where a record was, and is then the item of that record.
pub proof fn found_item_is_that_of_the_record<D>(
    record: Option<SurrealItem<D>>,
    found_item: Option<Item<D>>,
    item: Item<D>,
)
    requires
        record matches Some(record) ==> record.id.key is String && call_ensures(
            Item::<D>::from,
            (record,),
            item,
        ),
        call_ensures(found::<D>, (record,), found_item),
    ensures
        record is None ==> found_item is None,
        record is Some ==> found_item == Some(item),
{
}

/// As many documents are listed as there are records, each the item of the record in its place.
pub proof fn listed_items_are_those_of_the_records<D>(
    records: Vec<SurrealItem<D>>,
    items: Vec<Item<D>>,
    i: int,
)
    requires
        forall|j: int| 0 <= j < records@.len() ==> (#[trigger] records@[j]).id.key is String,
        call_ensures(listed::<D>, (records,), items),
        0 <= i < records@.len(),
    ensures
        items@.len() == records@.len(),
        RecordIdKey::String(items@[i].id) == records@[i].id.key,
        items@[i].created_at == records@[i].created_at,
        items@[i].modified_at == records@[i].modified_at,
        items@[i].published_at == records@[i].published_at,
        items@[i].inner == records@[i].inner.0,
{
}

/// An item is put under its own id in the table that was given, with all that it holds.
pub proof fn put_sends_the_item<D>(table: &str, item: Item<D>, request: PutRequest<D>)
    requires
        call_ensures(put::<D>, (table, item), request),
    ensures
        request.table@ == table@,
        request.key == item.id,
        request.content.id.table@ == table@,
        request.content.id.key == RecordIdKey::String(item.id),
        request.content.created_at == item.created_at,
        request.content.modified_at == item.modified_at,
        request.content.published_at == item.published_at,
        request.content.inner.0 == item.inner,
{
}

/// The content that was answered is handed on as it is, and nothing in place of none.
pub proof fn unpublished_content_is_handed_on<D>(content: Option<Wrapper<D>>, inner: Option<D>)
    requires
        call_ensures(unpublished::<D>, (content,), inner),
    ensures
        content is Some <==> inner is Some,
        content matches Some(wrapper) ==> inner == Some(wrapper.0),
{
}

/// A removed document is answered exactly where something was known about it. It then has the
/// id and the times that were known, the time of its publication if it had one, and the content
/// of its draft, or else of its published version, or else null.
pub proof fn removed_item_is_what_was_removed(
    meta: Option<MetaTable>,
    published: Option<PublishedTable>,
    draft: Option<DraftTable>,
    item: Option<Item<serde_json::Value>>,
)
    requires
        meta matches Some(meta) ==> meta.id.key is String,
        call_ensures(deleted, (meta, published, draft), item),
    ensures
        item is Some <==> meta is Some,
        item matches Some(item) ==> {
            &&& RecordIdKey::String(item.id) == meta->0.id.key
            &&& item.created_at == meta->0.created_at
            &&& item.modified_at == meta->0.modified_at
            &&& published is None ==> item.published_at is None
            &&& published matches Some(published) ==> item.published_at == Some(
                published.published_at,
            )
            &&& draft matches Some(draft) ==> item.inner == draft.inner
            &&& draft is None && published is Some ==> item.inner == published->0.inner
            &&& draft is None && published is None ==> json_text(item.inner) == "null"@
        },
{
}

} // verus!
