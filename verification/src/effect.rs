//! What the scripts of the operations on documents do to the tables.
//!
//! The tables hold rows. Each statement of a script is read for what it does to them, and a
//! script does what its statements do, one after the other. On this reading the laws below
//! say what each operation is for: what is stored, linked and dropped, what is answered, and
//! that nothing else is touched. They speak of the rows as the script leaves them; whether they
//! stay so is for the steps that end its transaction.

use vstd::prelude::*;

use crate::binding::{last_binding_counts, variables, BoundView};
use crate::document::{
    delete, delete_draft_statements, delete_statements, draft, draft_statements, publish,
    publish_statements, remove_draft, unpublish, unpublish_statements,
};
use crate::plan::Plan;
use crate::record::{Item, SurrealItem};
use crate::script::{item_selection, SEPARATOR};
use crate::text::joined;

verus! {

/// The identity of a row: its table and its key there.
pub struct RowId {
    pub table: Seq<char>,
    pub key: Seq<char>,
}

/// A row. It has what its table has columns for.
pub struct Row {
    pub inner: Option<serde_json::Value>,
    pub published_at: Option<surrealdb::types::Datetime>,
    pub draft: Option<RowId>,
    pub published: Option<RowId>,
}

/// The rows of the tables, and the rows that a script has named so far.
pub struct Tables {
    pub rows: Map<RowId, Row>,
    pub named: Map<Seq<char>, RowId>,
}

/// The row of a document's published version.
pub open spec fn published_row(doc: Seq<char>, id: Seq<char>) -> RowId {
    RowId { table: doc, key: id }
}

/// The row of a document's draft.
pub open spec fn draft_row(doc: Seq<char>, id: Seq<char>) -> RowId {
    RowId { table: doc + "_draft"@, key: id }
}

/// The row of what is known about a document.
pub open spec fn meta_row(doc: Seq<char>, id: Seq<char>) -> RowId {
    RowId { table: doc + "_meta"@, key: id }
}

/// A row that has nothing yet.
pub open spec fn blank() -> Row {
    Row { inner: None, published_at: None, draft: None, published: None }
}

impl Tables {
    /// The row of this identity, or a blank one where there is none.
    pub open spec fn row(self, id: RowId) -> Row {
        if self.rows.contains_key(id) {
            self.rows[id]
        } else {
            blank()
        }
    }

    /// The tables with a row named.
    pub open spec fn name(self, name: Seq<char>, id: RowId) -> Tables {
        Tables { named: self.named.insert(name, id), ..self }
    }

    /// The tables with a row in place of the one of this identity.
    pub open spec fn put(self, id: RowId, row: Row) -> Tables {
        Tables { rows: self.rows.insert(id, row), ..self }
    }

    /// The tables without the row of this identity.
    pub open spec fn drop(self, id: RowId) -> Tables {
        Tables { rows: self.rows.remove(id), ..self }
    }
}

/// What a statement does to the tables, where the script sees the variables `seen`. A statement
/// of which nothing is known does anything.
pub open spec fn done(
    statement: Seq<char>,
    seen: Map<Seq<char>, BoundView>,
    tables: Tables,
) -> Tables {
    let doc = seen["doc"@]->Text_0;
    let id = seen["id"@]->Text_0;
    let published_id = tables.named["published_id"@];
    let draft_id = tables.named["draft_id"@];
    let meta_id = tables.named["meta_id"@];
    if statement == "LET $published_id = type::thing($doc, $id)"@ {
        tables.name("published_id"@, published_row(doc, id))
    } else if statement == "LET $draft_id = type::thing(string::concat($doc, '_draft'), $id)"@ {
        tables.name("draft_id"@, draft_row(doc, id))
    } else if statement == "LET $meta_id = type::thing(string::concat($doc, '_meta'), $id)"@ {
        tables.name("meta_id"@, meta_row(doc, id))
    } else if statement == "UPSERT $draft_id SET inner = $inner"@ {
        tables.put(
            draft_id,
            Row { inner: Some(seen["inner"@]->Json_0), ..tables.row(draft_id) },
        )
    } else if statement
        == "UPSERT $draft_id SET inner = (SELECT VALUE inner FROM ONLY $published_id)"@ {
        tables.put(
            draft_id,
            Row { inner: tables.row(published_id).inner, ..tables.row(draft_id) },
        )
    } else if statement
        == "UPSERT $published_id SET inner = $inner, published_at = IF $publish_at IS NOT NONE { <datetime>$publish_at } ELSE { NONE }"@ {
        tables.put(
            published_id,
            Row {
                inner: Some(seen["inner"@]->Json_0),
                published_at: seen["publish_at"@]->Time_0,
                ..tables.row(published_id)
            },
        )
    } else if statement == "UPSERT $meta_id SET draft = $draft_id, modified_at = time::now()"@ {
        tables.put(meta_id, Row { draft: Some(draft_id), ..tables.row(meta_id) })
    } else if statement
        == "UPSERT $meta_id SET published = $published_id, modified_at = time::now(), draft = NONE"@ {
        tables.put(
            meta_id,
            Row { published: Some(published_id), draft: None, ..tables.row(meta_id) },
        )
    } else if statement
        == "UPDATE $meta_id SET draft = $draft_id, published = NONE, modified_at = time::now()"@ {
        if tables.rows.contains_key(meta_id) {
            tables.put(
                meta_id,
                Row { draft: Some(draft_id), published: None, ..tables.row(meta_id) },
            )
        } else {
            tables
        }
    } else if statement == "DELETE $draft_id"@ || statement == "DELETE $draft_id RETURN BEFORE"@ {
        tables.drop(draft_id)
    } else if statement == "DELETE $published_id RETURN BEFORE"@ {
        tables.drop(published_id)
    } else if statement == "DELETE $meta_id RETURN BEFORE"@ {
        tables.drop(meta_id)
    } else if statement == "DELETE $meta_id WHERE published IS NONE"@ {
        if tables.row(meta_id).published is None {
            tables.drop(meta_id)
        } else {
            tables
        }
    } else if statement.len() > 0 && statement[0] == 'S' {
        tables
    } else {
        arbitrary()
    }
}

/// The tables after the first `n` statements of a script.
pub open spec fn after(
    statements: Seq<Seq<char>>,
    n: nat,
    seen: Map<Seq<char>, BoundView>,
    rows: Map<RowId, Row>,
) -> Tables
    decreases n,
{
    if n == 0 {
        Tables { rows, named: Map::empty() }
    } else {
        done(statements[n - 1], seen, after(statements, (n - 1) as nat, seen, rows))
    }
}

/// The rows after a script.
pub open spec fn rows_after(
    statements: Seq<Seq<char>>,
    seen: Map<Seq<char>, BoundView>,
    rows: Map<RowId, Row>,
) -> Map<RowId, Row> {
    after(statements, statements.len(), seen, rows).rows
}

/// What reading the item of a document answers: its content and the time of its publication,
/// where anything is known about it. The content is that of its draft where it has one.
pub open spec fn answered(rows: Map<RowId, Row>, meta: RowId) -> Option<
    (Option<serde_json::Value>, Option<surrealdb::types::Datetime>),
> {
    let tables = Tables { rows, named: Map::empty() };
    if !rows.contains_key(meta) {
        None
    } else {
        let known = rows[meta];
        let published = match known.published {
            Some(id) => tables.row(id),
            None => blank(),
        };
        Some(
            (
                match known.draft {
                    Some(id) => tables.row(id).inner,
                    None => published.inner,
                },
                published.published_at,
            ),
        )
    }
}

/// No rows but those of one document differ.
pub open spec fn only_this_document(
    before: Map<RowId, Row>,
    later: Map<RowId, Row>,
    doc: Seq<char>,
    id: Seq<char>,
) -> bool {
    forall|other: RowId|
        other != published_row(doc, id) && other != draft_row(doc, id) && other != meta_row(doc, id)
            ==> (#[trigger] later.contains_key(other) <==> before.contains_key(other)) && (
        before.contains_key(other) ==> later[other] == before[other])
}

/// The statements and the names of the scripts are told apart.
proof fn statements_are_told_apart()
    ensures
        "LET $published_id = type::thing($doc, $id)"@.len() == 42,
        "LET $draft_id = type::thing(string::concat($doc, '_draft'), $id)"@.len() == 64,
        "LET $draft_id = type::thing(string::concat($doc, '_draft'), $id)"@[0] == 'L',
        "LET $meta_id = type::thing(string::concat($doc, '_meta'), $id)"@.len() == 62,
        "UPSERT $draft_id SET inner = $inner"@.len() == 35,
        "UPSERT $draft_id SET inner = (SELECT VALUE inner FROM ONLY $published_id)"@.len() == 73,
        "UPSERT $published_id SET inner = $inner, published_at = IF $publish_at IS NOT NONE { <datetime>$publish_at } ELSE { NONE }"@.len()
            == 122,
        "UPSERT $meta_id SET draft = $draft_id, modified_at = time::now()"@.len() == 64,
        "UPSERT $meta_id SET draft = $draft_id, modified_at = time::now()"@[0] == 'U',
        "UPSERT $meta_id SET published = $published_id, modified_at = time::now(), draft = NONE"@.len()
            == 86,
        "UPDATE $meta_id SET draft = $draft_id, published = NONE, modified_at = time::now()"@.len()
            == 82,
        "DELETE $draft_id"@.len() == 16,
        "DELETE $draft_id RETURN BEFORE"@.len() == 30,
        "DELETE $published_id RETURN BEFORE"@.len() == 34,
        "DELETE $meta_id RETURN BEFORE"@.len() == 29,
        "DELETE $meta_id WHERE published IS NONE"@.len() == 39,
        item_selection("$meta_id"@).len() > 122,
        item_selection("$meta_id"@)[0] == 'S',
        "published_id"@.len() == 12,
        "draft_id"@.len() == 8,
        "meta_id"@.len() == 7,
        "_draft"@.len() == 6,
        "_meta"@.len() == 5,
        "doc"@.len() == 3,
        "id"@.len() == 2,
        "inner"@.len() == 5,
        "publish_at"@.len() == 10,
{
    reveal_strlit("LET $published_id = type::thing($doc, $id)");
    reveal_strlit("LET $draft_id = type::thing(string::concat($doc, '_draft'), $id)");
    reveal_strlit("LET $meta_id = type::thing(string::concat($doc, '_meta'), $id)");
    reveal_strlit("UPSERT $draft_id SET inner = $inner");
    reveal_strlit("UPSERT $draft_id SET inner = (SELECT VALUE inner FROM ONLY $published_id)");
    reveal_strlit("UPSERT $published_id SET inner = $inner, published_at = IF $publish_at IS NOT NONE { <datetime>$publish_at } ELSE { NONE }");
    reveal_strlit("UPSERT $meta_id SET draft = $draft_id, modified_at = time::now()");
    reveal_strlit("UPSERT $meta_id SET published = $published_id, modified_at = time::now(), draft = NONE");
    reveal_strlit("UPDATE $meta_id SET draft = $draft_id, published = NONE, modified_at = time::now()");
    reveal_strlit("DELETE $draft_id");
    reveal_strlit("DELETE $draft_id RETURN BEFORE");
    reveal_strlit("DELETE $published_id RETURN BEFORE");
    reveal_strlit("DELETE $meta_id RETURN BEFORE");
    reveal_strlit("DELETE $meta_id WHERE published IS NONE");
    reveal_strlit("SELECT
                id,
                created_at,
                modified_at,
                IF draft IS NOT NONE THEN draft.inner ELSE published.inner END AS inner,
                published.published_at AS published_at
            FROM ");
    reveal_strlit("published_id");
    reveal_strlit("draft_id");
    reveal_strlit("meta_id");
    reveal_strlit("_draft");
    reveal_strlit("_meta");
    reveal_strlit("doc");
    reveal_strlit("id");
    reveal_strlit("inner");
    reveal_strlit("publish_at");
}

/// The rows of a document are three.
proof fn rows_are_three(doc: Seq<char>, id: Seq<char>)
    ensures
        published_row(doc, id) != draft_row(doc, id),
        published_row(doc, id) != meta_row(doc, id),
        draft_row(doc, id) != meta_row(doc, id),
{
    statements_are_told_apart();
    assert(draft_row(doc, id).table.len() == doc.len() + 6);
    assert(meta_row(doc, id).table.len() == doc.len() + 5);
}

/// Storing a draft: afterwards the draft of the document holds the data, it is linked to the
/// document, and reading the item answers with the data. The published version and every other
/// document stay as they were.
pub proof fn storing_a_draft_stores_it(
    doc: &str,
    id: &str,
    data: serde_json::Value,
    plan: Plan,
    rows: Map<RowId, Row>,
)
    requires
        call_ensures(draft, (doc, id, data), plan),
    ensures
        ({
            let (published, own, meta) = (
                published_row(doc@, id@),
                draft_row(doc@, id@),
                meta_row(doc@, id@),
            );
            let later = rows_after(
                draft_statements(),
                variables(plan@[1]->Query_0.bindings),
                rows,
            );
            &&& plan@[1]->Query_0.text == "\n            "@ + joined(draft_statements(), SEPARATOR@)
                + SEPARATOR@
            &&& later.contains_key(own) && later[own].inner == Some(data)
            &&& later.contains_key(meta) && later[meta].draft == Some(own)
            &&& answered(later, meta) matches Some((content, _)) && content == Some(data)
            &&& later.contains_key(published) <==> rows.contains_key(published)
            &&& rows.contains_key(published) ==> later[published] == rows[published]
            &&& rows.contains_key(meta) ==> later[meta].published == rows[meta].published
            &&& only_this_document(rows, later, doc@, id@)
        }),
{
    statements_are_told_apart();
    rows_are_three(doc@, id@);
    reveal_with_fuel(after, 6);
}

/// Publishing: afterwards the published version of the document holds the data and the time that
/// were given, it alone is linked to the document, and the draft is gone. Reading the item answers
/// with that data and time. Every other document stays as it was.
pub proof fn publishing_publishes(
    doc: &str,
    id: &str,
    publish_at: Option<surrealdb::types::Datetime>,
    data: serde_json::Value,
    plan: Plan,
    rows: Map<RowId, Row>,
)
    requires
        call_ensures(publish, (doc, id, publish_at, data), plan),
    ensures
        ({
            let (own, draft_id, meta) = (
                published_row(doc@, id@),
                draft_row(doc@, id@),
                meta_row(doc@, id@),
            );
            let later = rows_after(
                publish_statements(),
                variables(plan@[1]->Query_0.bindings),
                rows,
            );
            &&& plan@[1]->Query_0.text == joined(publish_statements(), SEPARATOR@) + ";"@
            &&& later.contains_key(own) && later[own].inner == Some(data)
            &&& later[own].published_at == publish_at
            &&& !later.contains_key(draft_id)
            &&& later.contains_key(meta) && later[meta].published == Some(own)
            &&& later[meta].draft is None
            &&& answered(later, meta) == Some((Some(data), publish_at))
            &&& only_this_document(rows, later, doc@, id@)
        }),
{
    statements_are_told_apart();
    rows_are_three(doc@, id@);
    reveal_with_fuel(after, 8);
}

/// Unpublishing: afterwards the draft of the document holds what its published version held, and
/// that version is gone. Where anything was known about the document the draft alone is linked to
/// it, and reading the item answers with that content and no time of publication. Every other
/// document stays as it was.
pub proof fn unpublishing_makes_a_draft(
    doc: &str,
    id: &str,
    plan: Plan,
    rows: Map<RowId, Row>,
    content: serde_json::Value,
)
    requires
        rows.contains_key(published_row(doc@, id@)),
        rows[published_row(doc@, id@)].inner == Some(content),
        call_ensures(unpublish, (doc, id), plan),
    ensures
        ({
            let (published, own, meta) = (
                published_row(doc@, id@),
                draft_row(doc@, id@),
                meta_row(doc@, id@),
            );
            let later = rows_after(
                unpublish_statements(),
                variables(plan@[1]->Query_0.bindings),
                rows,
            );
            &&& plan@[1]->Query_0.text == joined(unpublish_statements(), SEPARATOR@) + ";"@
            &&& later.contains_key(own) && later[own].inner == Some(content)
            &&& !later.contains_key(published)
            &&& later.contains_key(meta) <==> rows.contains_key(meta)
            &&& rows.contains_key(meta) ==> {
                &&& later[meta].draft == Some(own)
                &&& later[meta].published is None
                &&& answered(later, meta) == Some(
                    (Some(content), None::<surrealdb::types::Datetime>),
                )
            }
            &&& only_this_document(rows, later, doc@, id@)
        }),
{
    statements_are_told_apart();
    rows_are_three(doc@, id@);
    reveal_with_fuel(after, 7);
}

/// Removing a document: afterwards it has no row in any of its three tables, and reading the item
/// answers with nothing. Before the statement whose reply is read for what was known, for the
/// published version and for the draft, that row still is what it was. Every other document stays
/// as it was.
pub proof fn removing_a_document_removes_it(
    doc: &str,
    id: &str,
    plan: Plan,
    rows: Map<RowId, Row>,
)
    requires
        call_ensures(delete, (doc, id), plan),
    ensures
        ({
            let (published, draft_id, meta) = (
                published_row(doc@, id@),
                draft_row(doc@, id@),
                meta_row(doc@, id@),
            );
            let seen = variables(plan@[1]->Query_0.bindings);
            let later = rows_after(delete_statements(), seen, rows);
            let before_third = after(delete_statements(), 3, seen, rows);
            let before_fourth = after(delete_statements(), 4, seen, rows);
            let before_fifth = after(delete_statements(), 5, seen, rows);
            &&& plan@[1]->Query_0.text == joined(delete_statements(), ";\n                    "@)
                + ";"@
            &&& !later.contains_key(published)
            &&& !later.contains_key(draft_id)
            &&& !later.contains_key(meta)
            &&& answered(later, meta) is None
            &&& plan@[4]->Take_0 == 3 && before_third.rows == rows
            &&& before_fourth.rows == rows.remove(meta)
            &&& plan@[5]->Take_0 == 4 && before_fourth.row(published) == before_third.row(published)
            &&& before_fifth.rows == rows.remove(meta).remove(published)
            &&& plan@[6]->Take_0 == 5 && before_fifth.row(draft_id) == before_third.row(draft_id)
            &&& only_this_document(rows, later, doc@, id@)
        }),
{
    statements_are_told_apart();
    rows_are_three(doc@, id@);
    reveal_with_fuel(after, 7);
}

/// Removing the draft of a document that was found: afterwards the draft is gone, and what is
/// known about the document is gone exactly if it has no published version, which stays as it was.
/// Every other document stays as it was.
pub proof fn removing_a_draft_removes_it(
    doc: &str,
    id: &str,
    before: Option<SurrealItem<serde_json::Value>>,
    removal: Option<(Item<serde_json::Value>, Plan)>,
    rows: Map<RowId, Row>,
)
    requires
        before matches Some(record) && record.id.key is String,
        call_ensures(remove_draft, (doc, id, before), removal),
        rows.contains_key(meta_row(doc@, id@)),
    ensures
        ({
            let (published, draft_id, meta) = (
                published_row(doc@, id@),
                draft_row(doc@, id@),
                meta_row(doc@, id@),
            );
            let (_, plan) = removal->0;
            let later = rows_after(
                delete_draft_statements(),
                variables(plan@[1]->Query_0.bindings),
                rows,
            );
            &&& removal is Some
            &&& plan@[1]->Query_0.text == joined(delete_draft_statements(), SEPARATOR@) + ";"@
            &&& !later.contains_key(draft_id)
            &&& later.contains_key(meta) <==> rows[meta].published is Some
            &&& rows[meta].published is Some ==> later[meta] == rows[meta]
            &&& later.contains_key(published) <==> rows.contains_key(published)
            &&& rows.contains_key(published) ==> later[published] == rows[published]
            &&& only_this_document(rows, later, doc@, id@)
        }),
{
    removal_sees_the_document(doc, id, before, removal);
    statements_are_told_apart();
    rows_are_three(doc@, id@);
    reveal_with_fuel(after, 5);
}

/// The script that removes a draft sees the document.
proof fn removal_sees_the_document(
    doc: &str,
    id: &str,
    before: Option<SurrealItem<serde_json::Value>>,
    removal: Option<(Item<serde_json::Value>, Plan)>,
)
    requires
        before matches Some(record) && record.id.key is String,
        call_ensures(remove_draft, (doc, id, before), removal),
    ensures
        ({
            let (_, plan) = removal->0;
            let seen = variables(plan@[1]->Query_0.bindings);
            &&& seen["doc"@] == BoundView::Text(doc@)
            &&& seen["id"@] == BoundView::Text(id@)
        }),
{
    let (_, plan) = removal->0;
    let bindings = plan@[1]->Query_0.bindings;
    statements_are_told_apart();
    last_binding_counts(bindings, 0);
    last_binding_counts(bindings, 1);
}

/// Publishing a document and turning it back into a draft leaves its content as the draft: reading
/// the item answers with the data that was published, and with no time of publication.
pub proof fn unpublishing_undoes_publishing(
    doc: &str,
    id: &str,
    publish_at: Option<surrealdb::types::Datetime>,
    data: serde_json::Value,
    published: Plan,
    unpublished: Plan,
    rows: Map<RowId, Row>,
)
    requires
        call_ensures(publish, (doc, id, publish_at, data), published),
        call_ensures(unpublish, (doc, id), unpublished),
    ensures
        ({
            let between = rows_after(
                publish_statements(),
                variables(published@[1]->Query_0.bindings),
                rows,
            );
            let later = rows_after(
                unpublish_statements(),
                variables(unpublished@[1]->Query_0.bindings),
                between,
            );
            &&& answered(between, meta_row(doc@, id@)) == Some((Some(data), publish_at))
            &&& answered(later, meta_row(doc@, id@)) == Some(
                (Some(data), None::<surrealdb::types::Datetime>),
            )
            &&& !later.contains_key(published_row(doc@, id@))
        }),
{
    let between = rows_after(
        publish_statements(),
        variables(published@[1]->Query_0.bindings),
        rows,
    );
    publishing_publishes(doc, id, publish_at, data, published, rows);
    unpublishing_makes_a_draft(doc, id, unpublished, between, data);
}

} // verus!
