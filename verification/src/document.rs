//! Operations on the documents of one kind.
//!
//! A kind of document has an identifier, `doc` below, which is also the name of the table
//! of its published versions. Identifiers and contents reach the database as bindings, so
//! that the scripts are the same for every document.

use vstd::prelude::*;

use crate::binding::{
    bindings_view, distinctly_named, last_binding_counts, only_bound_names_are_seen, variables,
    Bound, BoundView,
};
use crate::plan::{
    commits_checked, reads_checked, Plan, Request, RequestView, Step, StepView,
};
use crate::record::{Item, RecordIdKey, SurrealItem};
use crate::script::{
    item_selection, select_items, DELETE_DRAFT, LET_DRAFT_ID, LET_META_ID, LET_PUBLISHED_ID,
    SEPARATOR,
};
use crate::text::{join, joined, joined_so_far, texts};

verus! {

/// Binds a document: its kind and its id.
pub open spec fn document_bindings(doc: Seq<char>, id: Seq<char>) -> Seq<(Seq<char>, BoundView)> {
    seq![("doc"@, BoundView::Text(doc)), ("id"@, BoundView::Text(id))]
}

/// Binds a document: its kind and its id.
fn bind_document(doc: &str, id: &str) -> (bindings: Vec<(String, Bound)>)
    ensures
        bindings_view(bindings@) == document_bindings(doc@, id@),
{
    let mut bindings: Vec<(String, Bound)> = Vec::new();
    bindings.push(("doc".to_owned(), Bound::Text(doc.to_owned())));
    bindings.push(("id".to_owned(), Bound::Text(id.to_owned())));
    assert(bindings_view(bindings@) =~= document_bindings(doc@, id@));
    bindings
}

/// The statements that store a draft.
pub open spec fn draft_statements() -> Seq<Seq<char>> {
    seq![
        LET_DRAFT_ID@,
        LET_META_ID@,
        "UPSERT $draft_id SET inner = $inner"@,
        "UPSERT $meta_id SET draft = $draft_id, modified_at = time::now()"@,
        item_selection("$meta_id"@),
    ]
}

/// The steps that store a draft and read the item back.
pub open spec fn draft_steps(doc: Seq<char>, id: Seq<char>, data: serde_json::Value) -> Seq<
    StepView,
> {
    seq![
        StepView::Begin,
        StepView::Query(
            RequestView {
                text: "\n            "@ + joined(draft_statements(), SEPARATOR@) + SEPARATOR@,
                bindings: document_bindings(doc, id).push(("inner"@, BoundView::Json(data))),
            },
        ),
        StepView::Check,
        StepView::Commit,
        StepView::Take(4),
    ]
}

/// Stores `data` as the draft of a document. The last reply is the item as it then is.
pub fn draft(doc: &str, id: &str, data: serde_json::Value) -> (plan: Plan)
    ensures
        plan@ == draft_steps(doc@, id@, data),
        variables(plan@[1]->Query_0.bindings) == map![
            "doc"@ => BoundView::Text(doc@),
            "id"@ => BoundView::Text(id@),
            "inner"@ => BoundView::Json(data),
        ],
{
    let statements = vec![
        LET_DRAFT_ID.to_owned(),
        LET_META_ID.to_owned(),
        "UPSERT $draft_id SET inner = $inner".to_owned(),
        "UPSERT $meta_id SET draft = $draft_id, modified_at = time::now()".to_owned(),
        select_items("$meta_id"),
    ];
    assert(texts(statements@) =~= draft_statements());
    let text = "\n            ".to_owned().concat(join(&statements, SEPARATOR).as_str()).concat(
        SEPARATOR,
    );
    let mut bindings = bind_document(doc, id);
    bindings.push(("inner".to_owned(), Bound::Json(data)));
    assert(bindings_view(bindings@) =~= document_bindings(doc@, id@).push(
        ("inner"@, BoundView::Json(data)),
    ));
    let plan = Plan {
        steps: vec![
            Step::Begin,
            Step::Query(Request { text, bindings }),
            Step::Check,
            Step::Commit,
            Step::Take(4),
        ],
    };
    assert(plan@ =~= draft_steps(doc@, id@, data));
    proof {
        draft_variables(doc@, id@, data);
    }
    plan
}

/// The script that reads the item of one document. No separator stands after the first line.
pub open spec fn get_by_id_text() -> Seq<char> {
    LET_META_ID@ + "\n            "@ + item_selection("$meta_id"@)
}

/// What reading one document sends.
pub open spec fn get_by_id_request(doc: Seq<char>, id: Seq<char>) -> RequestView {
    RequestView { text: get_by_id_text(), bindings: document_bindings(doc, id) }
}

/// Writes the request that reads one document.
fn request_by_id(doc: &str, id: &str) -> (request: Request)
    ensures
        request@ == get_by_id_request(doc@, id@),
{
    let text = LET_META_ID.to_owned().concat("\n            ").concat(
        select_items("$meta_id").as_str(),
    );
    Request { text, bindings: bind_document(doc, id) }
}

/// The steps that read one document.
pub open spec fn get_by_id_steps(doc: Seq<char>, id: Seq<char>) -> Seq<StepView> {
    seq![StepView::Query(get_by_id_request(doc, id)), StepView::Check, StepView::Take(1)]
}

/// Reads the item of one document. The last reply is the item, if there is one.
pub fn get_by_id(doc: &str, id: &str) -> (plan: Plan)
    ensures
        plan@ == get_by_id_steps(doc@, id@),
        variables(plan@[0]->Query_0.bindings) == map![
            "doc"@ => BoundView::Text(doc@),
            "id"@ => BoundView::Text(id@),
        ],
{
    let plan = Plan {
        steps: vec![Step::Query(request_by_id(doc, id)), Step::Check, Step::Take(1)],
    };
    assert(plan@ =~= get_by_id_steps(doc@, id@));
    proof {
        document_variables(doc@, id@);
    }
    plan
}

/// What reading all documents of a kind sends.
pub open spec fn get_all_request(doc: Seq<char>) -> RequestView {
    RequestView {
        text: item_selection("type::table(string::concat($doc, '_meta'))"@),
        bindings: seq![("doc"@, BoundView::Text(doc))],
    }
}

/// The steps that read all documents of a kind.
pub open spec fn get_all_steps(doc: Seq<char>) -> Seq<StepView> {
    seq![StepView::Query(get_all_request(doc)), StepView::Check, StepView::Take(0)]
}

/// Reads the items of all documents of a kind. The last reply is the list of them.
pub fn get_all(doc: &str) -> (plan: Plan)
    ensures
        plan@ == get_all_steps(doc@),
{
    let text = select_items("type::table(string::concat($doc, '_meta'))");
    let bindings = vec![("doc".to_owned(), Bound::Text(doc.to_owned()))];
    assert(bindings_view(bindings@) =~= get_all_request(doc@).bindings);
    let plan = Plan {
        steps: vec![Step::Query(Request { text, bindings }), Step::Check, Step::Take(0)],
    };
    assert(plan@ =~= get_all_steps(doc@));
    plan
}

/// The statements that remove a draft.
pub open spec fn delete_draft_statements() -> Seq<Seq<char>> {
    seq![LET_DRAFT_ID@, LET_META_ID@, DELETE_DRAFT@, "DELETE $meta_id WHERE published IS NONE"@]
}

/// The steps with which the removal of a draft starts: the document is read as it is.
pub open spec fn delete_draft_steps(doc: Seq<char>, id: Seq<char>) -> Seq<StepView> {
    get_by_id_steps(doc, id)
}

/// Starts the removal of the draft of a document. The last reply is the item as it is before, if
/// there is one, on which [`remove_draft`] goes on.
pub fn delete_draft(doc: &str, id: &str) -> (plan: Plan)
    ensures
        plan@ == delete_draft_steps(doc@, id@),
{
    get_by_id(doc, id)
}

/// The steps that remove a draft.
pub open spec fn remove_draft_steps(doc: Seq<char>, id: Seq<char>) -> Seq<StepView> {
    seq![
        StepView::Begin,
        StepView::Query(
            RequestView {
                text: joined(delete_draft_statements(), SEPARATOR@) + ";"@,
                bindings: document_bindings(doc, id),
            },
        ),
    ]
}

/// How the removal of a draft goes on after a document was read: with its item and the steps
/// that remove its draft, or not at all where there was no document.
pub open spec fn draft_removal(
    doc: Seq<char>,
    id: Seq<char>,
    before: Option<SurrealItem<serde_json::Value>>,
) -> Option<(Item<serde_json::Value>, Seq<StepView>)> {
    match before {
        Some(record) => Some((record.item(), remove_draft_steps(doc, id))),
        None => None,
    }
}

/// Goes on with the removal of a draft, from what [`delete_draft`] read: gives the item as it was
/// before, which is the answer, and the steps that remove the draft, and all that is known about
/// the document where it was never published. Where no document was found nothing is left to do.
/// The replies of the removal are neither checked nor is its transaction committed.
pub fn remove_draft(
    doc: &str,
    id: &str,
    before: Option<SurrealItem<serde_json::Value>>,
) -> (removal: Option<(Item<serde_json::Value>, Plan)>)
    requires
        before matches Some(record) ==> record.id.key is String,
    ensures
        removal is Some <==> draft_removal(doc@, id@, before) is Some,
        removal matches Some((item, plan)) ==> draft_removal(doc@, id@, before) == Some(
            (item, plan@),
        ),
{
    match before {
        Some(record) => {
            let statements = vec![
                LET_DRAFT_ID.to_owned(),
                LET_META_ID.to_owned(),
                DELETE_DRAFT.to_owned(),
                "DELETE $meta_id WHERE published IS NONE".to_owned(),
            ];
            assert(texts(statements@) =~= delete_draft_statements());
            let text = join(&statements, SEPARATOR).concat(";");
            let plan = Plan {
                steps: vec![
                    Step::Begin,
                    Step::Query(Request { text, bindings: bind_document(doc, id) }),
                ],
            };
            assert(plan@ =~= remove_draft_steps(doc@, id@));
            Some((Item::from(record), plan))
        },
        None => None,
    }
}

/// The statements that publish a document.
pub open spec fn publish_statements() -> Seq<Seq<char>> {
    seq![
        LET_PUBLISHED_ID@,
        LET_DRAFT_ID@,
        LET_META_ID@,
        "UPSERT $published_id SET inner = $inner, published_at = IF $publish_at IS NOT NONE { <datetime>$publish_at } ELSE { NONE }"@,
        "UPSERT $meta_id SET published = $published_id, modified_at = time::now(), draft = NONE"@,
        DELETE_DRAFT@,
        item_selection("$meta_id"@),
    ]
}

/// What publishing a document binds.
pub open spec fn publish_bindings(
    doc: Seq<char>,
    id: Seq<char>,
    publish_at: Option<surrealdb::types::Datetime>,
    data: serde_json::Value,
) -> Seq<(Seq<char>, BoundView)> {
    document_bindings(doc, id) + seq![
        ("publish_at"@, BoundView::Time(publish_at)),
        ("inner"@, BoundView::Json(data)),
    ]
}

/// The steps that publish a document and read the item back.
pub open spec fn publish_steps(
    doc: Seq<char>,
    id: Seq<char>,
    publish_at: Option<surrealdb::types::Datetime>,
    data: serde_json::Value,
) -> Seq<StepView> {
    seq![
        StepView::Begin,
        StepView::Query(
            RequestView {
                text: joined(publish_statements(), SEPARATOR@) + ";"@,
                bindings: publish_bindings(doc, id, publish_at, data),
            },
        ),
        StepView::Check,
        StepView::Take(6),
    ]
}

/// Publishes `data` as a document, at `publish_at` where that is given, and drops its draft.
/// The last reply is the item as it then is. The transaction is not committed.
pub fn publish(
    doc: &str,
    id: &str,
    publish_at: Option<surrealdb::types::Datetime>,
    data: serde_json::Value,
) -> (plan: Plan)
    ensures
        plan@ == publish_steps(doc@, id@, publish_at, data),
        variables(plan@[1]->Query_0.bindings) == map![
            "doc"@ => BoundView::Text(doc@),
            "id"@ => BoundView::Text(id@),
            "publish_at"@ => BoundView::Time(publish_at),
            "inner"@ => BoundView::Json(data),
        ],
{
    let statements = vec![
        LET_PUBLISHED_ID.to_owned(),
        LET_DRAFT_ID.to_owned(),
        LET_META_ID.to_owned(),
        "UPSERT $published_id SET inner = $inner, published_at = IF $publish_at IS NOT NONE { <datetime>$publish_at } ELSE { NONE }".to_owned(),
        "UPSERT $meta_id SET published = $published_id, modified_at = time::now(), draft = NONE".to_owned(),
        DELETE_DRAFT.to_owned(),
        select_items("$meta_id"),
    ];
    assert(texts(statements@) =~= publish_statements());
    let text = join(&statements, SEPARATOR).concat(";");
    let mut bindings = bind_document(doc, id);
    bindings.push(("publish_at".to_owned(), Bound::Time(publish_at)));
    bindings.push(("inner".to_owned(), Bound::Json(data)));
    assert(bindings_view(bindings@) =~= publish_bindings(doc@, id@, publish_at, data));
    let plan = Plan {
        steps: vec![
            Step::Begin,
            Step::Query(Request { text, bindings }),
            Step::Check,
            Step::Take(6),
        ],
    };
    assert(plan@ =~= publish_steps(doc@, id@, publish_at, data));
    proof {
        publish_variables(doc@, id@, publish_at, data);
    }
    plan
}

/// The statements that turn a published document back into a draft.
pub open spec fn unpublish_statements() -> Seq<Seq<char>> {
    seq![
        LET_META_ID@,
        LET_DRAFT_ID@,
        LET_PUBLISHED_ID@,
        "UPSERT $draft_id SET inner = (SELECT VALUE inner FROM ONLY $published_id)"@,
        "UPDATE $meta_id SET draft = $draft_id, published = NONE, modified_at = time::now()"@,
        "DELETE $published_id RETURN BEFORE"@,
    ]
}

/// The steps that turn a published document back into a draft.
pub open spec fn unpublish_steps(doc: Seq<char>, id: Seq<char>) -> Seq<StepView> {
    seq![
        StepView::Begin,
        StepView::Query(
            RequestView {
                text: joined(unpublish_statements(), SEPARATOR@) + ";"@,
                bindings: document_bindings(doc, id),
            },
        ),
        StepView::Check,
        StepView::Commit,
        StepView::Take(6),
    ]
}

/// Turns a published document back into a draft. The reply read is the one after that to the
/// last statement.
pub fn unpublish(doc: &str, id: &str) -> (plan: Plan)
    ensures
        plan@ == unpublish_steps(doc@, id@),
        variables(plan@[1]->Query_0.bindings) == map![
            "doc"@ => BoundView::Text(doc@),
            "id"@ => BoundView::Text(id@),
        ],
{
    let statements = vec![
        LET_META_ID.to_owned(),
        LET_DRAFT_ID.to_owned(),
        LET_PUBLISHED_ID.to_owned(),
        "UPSERT $draft_id SET inner = (SELECT VALUE inner FROM ONLY $published_id)".to_owned(),
        "UPDATE $meta_id SET draft = $draft_id, published = NONE, modified_at = time::now()".to_owned(),
        "DELETE $published_id RETURN BEFORE".to_owned(),
    ];
    assert(texts(statements@) =~= unpublish_statements());
    let text = join(&statements, SEPARATOR).concat(";");
    let plan = Plan {
        steps: vec![
            Step::Begin,
            Step::Query(Request { text, bindings: bind_document(doc, id) }),
            Step::Check,
            Step::Commit,
            Step::Take(6),
        ],
    };
    assert(plan@ =~= unpublish_steps(doc@, id@));
    proof {
        document_variables(doc@, id@);
    }
    plan
}

/// The statements that remove a document altogether.
pub open spec fn delete_statements() -> Seq<Seq<char>> {
    seq![
        LET_PUBLISHED_ID@,
        LET_DRAFT_ID@,
        LET_META_ID@,
        "DELETE $meta_id RETURN BEFORE"@,
        "DELETE $published_id RETURN BEFORE"@,
        "DELETE $draft_id RETURN BEFORE"@,
    ]
}

/// The steps that remove a document altogether and read what was removed.
pub open spec fn delete_steps(doc: Seq<char>, id: Seq<char>) -> Seq<StepView> {
    seq![
        StepView::Begin,
        StepView::Query(
            RequestView {
                text: joined(delete_statements(), ";\n                    "@) + ";"@,
                bindings: document_bindings(doc, id),
            },
        ),
        StepView::Check,
        StepView::Commit,
        StepView::Take(3),
        StepView::Take(4),
        StepView::Take(5),
    ]
}

/// Removes a document altogether. The replies read are what was known about it, its published
/// version and its draft, each if there was one.
pub fn delete(doc: &str, id: &str) -> (plan: Plan)
    ensures
        plan@ == delete_steps(doc@, id@),
        variables(plan@[1]->Query_0.bindings) == map![
            "doc"@ => BoundView::Text(doc@),
            "id"@ => BoundView::Text(id@),
        ],
{
    let statements = vec![
        LET_PUBLISHED_ID.to_owned(),
        LET_DRAFT_ID.to_owned(),
        LET_META_ID.to_owned(),
        "DELETE $meta_id RETURN BEFORE".to_owned(),
        "DELETE $published_id RETURN BEFORE".to_owned(),
        "DELETE $draft_id RETURN BEFORE".to_owned(),
    ];
    assert(texts(statements@) =~= delete_statements());
    let text = join(&statements, ";\n                    ").concat(";");
    let plan = Plan {
        steps: vec![
            Step::Begin,
            Step::Query(Request { text, bindings: bind_document(doc, id) }),
            Step::Check,
            Step::Commit,
            Step::Take(3),
            Step::Take(4),
            Step::Take(5),
        ],
    };
    assert(plan@ =~= delete_steps(doc@, id@));
    proof {
        document_variables(doc@, id@);
    }
    plan
}

/// The script of a step that sends one.
pub open spec fn script_of(step: StepView) -> Seq<char> {
    step->Query_0.text
}

/// The reply that storing a draft reads, and the one that publishing reads, are those to the
/// statement that reads the item.
pub proof fn writes_answer_with_the_item(
    doc: Seq<char>,
    id: Seq<char>,
    publish_at: Option<surrealdb::types::Datetime>,
    data: serde_json::Value,
)
    ensures
        draft_statements()[draft_steps(doc, id, data).last()->Take_0 as int] == item_selection(
            "$meta_id"@,
        ),
        publish_statements()[publish_steps(doc, id, publish_at, data).last()->Take_0 as int]
            == item_selection("$meta_id"@),
{
}

/// An item is read by its id with the statement by which drafting and publishing answer.
pub proof fn reads_agree_with_writes()
    ensures
        get_by_id_text() == LET_META_ID@ + "\n            "@ + draft_statements().last(),
        draft_statements().last() == publish_statements().last(),
{
}

/// The replies that removing a document reads are those to the statements that remove what is
/// known about it, its published version and its draft.
pub proof fn removal_answers_with_what_it_removed(doc: Seq<char>, id: Seq<char>)
    ensures
        delete_statements()[delete_steps(doc, id)[4]->Take_0 as int]
            == "DELETE $meta_id RETURN BEFORE"@,
        delete_statements()[delete_steps(doc, id)[5]->Take_0 as int]
            == "DELETE $published_id RETURN BEFORE"@,
        delete_statements()[delete_steps(doc, id)[6]->Take_0 as int]
            == "DELETE $draft_id RETURN BEFORE"@,
{
}

/// The reply that turning a published document back into a draft reads is none of those to its
/// statements: it is numbered after the last of them.
pub proof fn unpublishing_reads_past_its_replies(doc: Seq<char>, id: Seq<char>)
    ensures
        unpublish_steps(doc, id).last()->Take_0 == unpublish_statements().len(),
{
}

/// No operation on documents commits what it did not check, and none reads an unchecked reply.
pub proof fn operations_check_first(
    doc: Seq<char>,
    id: Seq<char>,
    publish_at: Option<surrealdb::types::Datetime>,
    data: serde_json::Value,
)
    ensures
        commits_checked(draft_steps(doc, id, data)),
        commits_checked(delete_draft_steps(doc, id)),
        commits_checked(remove_draft_steps(doc, id)),
        commits_checked(publish_steps(doc, id, publish_at, data)),
        commits_checked(unpublish_steps(doc, id)),
        commits_checked(delete_steps(doc, id)),
        commits_checked(get_all_steps(doc)),
        commits_checked(get_by_id_steps(doc, id)),
        reads_checked(draft_steps(doc, id, data)),
        reads_checked(delete_draft_steps(doc, id)),
        reads_checked(remove_draft_steps(doc, id)),
        reads_checked(publish_steps(doc, id, publish_at, data)),
        reads_checked(unpublish_steps(doc, id)),
        reads_checked(delete_steps(doc, id)),
        reads_checked(get_all_steps(doc)),
        reads_checked(get_by_id_steps(doc, id)),
{
    assert(draft_steps(doc, id, data)[2] is Check);
    assert(delete_draft_steps(doc, id)[1] is Check);
    assert(publish_steps(doc, id, publish_at, data)[2] is Check);
    assert(unpublish_steps(doc, id)[2] is Check);
    assert(delete_steps(doc, id)[2] is Check);
    assert(get_all_steps(doc)[1] is Check);
    assert(get_by_id_steps(doc, id)[1] is Check);
}

/// Before its draft is removed, a document is read by its id. Until then no transaction is begun
/// and nothing else is sent.
pub proof fn draft_is_read_before_removal(doc: Seq<char>, id: Seq<char>)
    ensures
        delete_draft_steps(doc, id) == get_by_id_steps(doc, id),
        forall|i: int|
            0 <= i < delete_draft_steps(doc, id).len() ==> !((#[trigger] delete_draft_steps(
                doc,
                id,
            )[i]) is Begin),
        forall|i: int|
            0 <= i < delete_draft_steps(doc, id).len() && (#[trigger] delete_draft_steps(
                doc,
                id,
            )[i]) is Query ==> delete_draft_steps(doc, id)[i] == StepView::Query(
                get_by_id_request(doc, id),
            ),
{
}

/// A draft is removed if and only if its document was found, and the answer is then the item
/// that was found. Where none was found, no step is left: no transaction is begun and no removal
/// is sent.
pub proof fn only_a_found_draft_is_removed(
    doc: Seq<char>,
    id: Seq<char>,
    before: Option<SurrealItem<serde_json::Value>>,
)
    ensures
        before is None ==> draft_removal(doc, id, before) is None,
        before matches Some(record) ==> draft_removal(doc, id, before) == Some(
            (record.item(), remove_draft_steps(doc, id)),
        ),
        remove_draft_steps(doc, id)[0] is Begin,
        remove_draft_steps(doc, id)[1] is Query,
{
}

/// The scripts are the same for all documents: what tells documents apart is bound.
pub proof fn scripts_are_fixed(
    doc: Seq<char>,
    id: Seq<char>,
    publish_at: Option<surrealdb::types::Datetime>,
    data: serde_json::Value,
    other_doc: Seq<char>,
    other_id: Seq<char>,
    other_publish_at: Option<surrealdb::types::Datetime>,
    other_data: serde_json::Value,
)
    ensures
        script_of(draft_steps(doc, id, data)[1]) == script_of(
            draft_steps(other_doc, other_id, other_data)[1],
        ),
        script_of(delete_draft_steps(doc, id)[0]) == script_of(
            delete_draft_steps(other_doc, other_id)[0],
        ),
        script_of(remove_draft_steps(doc, id)[1]) == script_of(
            remove_draft_steps(other_doc, other_id)[1],
        ),
        script_of(publish_steps(doc, id, publish_at, data)[1]) == script_of(
            publish_steps(other_doc, other_id, other_publish_at, other_data)[1],
        ),
        script_of(unpublish_steps(doc, id)[1]) == script_of(
            unpublish_steps(other_doc, other_id)[1],
        ),
        script_of(delete_steps(doc, id)[1]) == script_of(delete_steps(other_doc, other_id)[1]),
        script_of(get_all_steps(doc)[0]) == script_of(get_all_steps(other_doc)[0]),
        script_of(get_by_id_steps(doc, id)[0]) == script_of(
            get_by_id_steps(other_doc, other_id)[0],
        ),
{
}

/// No operation binds a name twice, so that its script sees all that it binds.
pub proof fn bindings_are_named_distinctly(
    doc: Seq<char>,
    id: Seq<char>,
    publish_at: Option<surrealdb::types::Datetime>,
    data: serde_json::Value,
)
    ensures
        distinctly_named(document_bindings(doc, id)),
        distinctly_named(document_bindings(doc, id).push(("inner"@, BoundView::Json(data)))),
        distinctly_named(publish_bindings(doc, id, publish_at, data)),
{
    reveal_strlit("doc");
    reveal_strlit("id");
    reveal_strlit("inner");
    reveal_strlit("publish_at");
    assert("doc"@.len() == 3);
    assert("id"@.len() == 2);
    assert("inner"@.len() == 5);
    assert("publish_at"@.len() == 10);
}

/// The names that operations bind differ.
proof fn names_differ()
    ensures
        "doc"@.len() == 3,
        "id"@.len() == 2,
        "inner"@.len() == 5,
        "publish_at"@.len() == 10,
{
    reveal_strlit("doc");
    reveal_strlit("id");
    reveal_strlit("inner");
    reveal_strlit("publish_at");
}

/// What a script sees of a document.
proof fn document_variables(doc: Seq<char>, id: Seq<char>)
    ensures
        variables(document_bindings(doc, id)) == map![
            "doc"@ => BoundView::Text(doc),
            "id"@ => BoundView::Text(id),
        ],
{
    let bindings = document_bindings(doc, id);
    let seen = variables(bindings);
    let wanted = map![
        "doc"@ => BoundView::Text(doc),
        "id"@ => BoundView::Text(id),
    ];
    names_differ();
    assert(bindings[0].0 == "doc"@);
    assert(bindings[1].0 == "id"@);
    last_binding_counts(bindings, 0);
    last_binding_counts(bindings, 1);
    assert forall|name: Seq<char>| #[trigger]
        seen.dom().contains(name) <==> wanted.dom().contains(name) by {
        only_bound_names_are_seen(bindings, name);
    }
    assert(seen.dom() =~= wanted.dom());
    assert(seen =~= wanted);
}

/// What the script that stores a draft sees.
proof fn draft_variables(doc: Seq<char>, id: Seq<char>, data: serde_json::Value)
    ensures
        variables(document_bindings(doc, id).push(("inner"@, BoundView::Json(data)))) == map![
            "doc"@ => BoundView::Text(doc),
            "id"@ => BoundView::Text(id),
            "inner"@ => BoundView::Json(data),
        ],
{
    let bindings = document_bindings(doc, id).push(("inner"@, BoundView::Json(data)));
    let seen = variables(bindings);
    let wanted = map![
        "doc"@ => BoundView::Text(doc),
        "id"@ => BoundView::Text(id),
        "inner"@ => BoundView::Json(data),
    ];
    names_differ();
    assert(bindings[0].0 == "doc"@);
    assert(bindings[1].0 == "id"@);
    assert(bindings[2].0 == "inner"@);
    last_binding_counts(bindings, 0);
    last_binding_counts(bindings, 1);
    last_binding_counts(bindings, 2);
    assert forall|name: Seq<char>| #[trigger]
        seen.dom().contains(name) <==> wanted.dom().contains(name) by {
        only_bound_names_are_seen(bindings, name);
    }
    assert(seen.dom() =~= wanted.dom());
    assert(seen =~= wanted);
}

/// What the script that publishes a document sees.
proof fn publish_variables(
    doc: Seq<char>,
    id: Seq<char>,
    publish_at: Option<surrealdb::types::Datetime>,
    data: serde_json::Value,
)
    ensures
        variables(publish_bindings(doc, id, publish_at, data)) == map![
            "doc"@ => BoundView::Text(doc),
            "id"@ => BoundView::Text(id),
            "publish_at"@ => BoundView::Time(publish_at),
            "inner"@ => BoundView::Json(data),
        ],
{
    let bindings = publish_bindings(doc, id, publish_at, data);
    let seen = variables(bindings);
    let wanted = map![
        "doc"@ => BoundView::Text(doc),
        "id"@ => BoundView::Text(id),
        "publish_at"@ => BoundView::Time(publish_at),
        "inner"@ => BoundView::Json(data),
    ];
    names_differ();
    assert(bindings[0].0 == "doc"@);
    assert(bindings[1].0 == "id"@);
    assert(bindings[2].0 == "publish_at"@);
    assert(bindings[3].0 == "inner"@);
    last_binding_counts(bindings, 0);
    last_binding_counts(bindings, 1);
    last_binding_counts(bindings, 2);
    last_binding_counts(bindings, 3);
    assert forall|name: Seq<char>| #[trigger]
        seen.dom().contains(name) <==> wanted.dom().contains(name) by {
        only_bound_names_are_seen(bindings, name);
    }
    assert(seen.dom() =~= wanted.dom());
    assert(seen =~= wanted);
}

/// Storing a draft sends, in a transaction that is committed once its replies were checked, a
/// script that sees exactly the document and the data that were given. It stores the data in the
/// draft of that document, links the draft to it and reads its item, which is the reply read.
pub proof fn draft_is_stored_as_given(doc: &str, id: &str, data: serde_json::Value, plan: Plan)
    requires
        call_ensures(draft, (doc, id, data), plan),
    ensures
        plan@.len() == 5,
        plan@[0] is Begin,
        plan@[1] is Query,
        plan@[2] is Check,
        plan@[3] is Commit,
        plan@[4] == StepView::Take(4),
        plan@[1]->Query_0.text == "\n            "@ + ("LET $draft_id = type::thing(string::concat($doc, '_draft'), $id)"@
            + ";\n            "@ + "LET $meta_id = type::thing(string::concat($doc, '_meta'), $id)"@
            + ";\n            "@ + "UPSERT $draft_id SET inner = $inner"@
            + ";\n            "@ + "UPSERT $meta_id SET draft = $draft_id, modified_at = time::now()"@
            + ";\n            "@ + ("SELECT
                id,
                created_at,
                modified_at,
                IF draft IS NOT NONE THEN draft.inner ELSE published.inner END AS inner,
                published.published_at AS published_at
            FROM "@ + "$meta_id"@ + "
            FETCH draft, published"@)) + ";\n            "@,
        variables(plan@[1]->Query_0.bindings) == map![
            "doc"@ => BoundView::Text(doc@),
            "id"@ => BoundView::Text(id@),
            "inner"@ => BoundView::Json(data),
        ],
{
    draft_variables(doc@, id@, data);
    let parts = draft_statements();
    joined_so_far(parts, SEPARATOR@, 1);
    joined_so_far(parts, SEPARATOR@, 2);
    joined_so_far(parts, SEPARATOR@, 3);
    joined_so_far(parts, SEPARATOR@, 4);
}

/// Publishing sends, in a transaction, a script that sees exactly the document, the time and the
/// data that were given. It stores the data and the time in the published version of that
/// document, links it, drops the draft and reads the item, which is the reply read.
pub proof fn published_as_given(
    doc: &str,
    id: &str,
    publish_at: Option<surrealdb::types::Datetime>,
    data: serde_json::Value,
    plan: Plan,
)
    requires
        call_ensures(publish, (doc, id, publish_at, data), plan),
    ensures
        plan@.len() == 4,
        plan@[0] is Begin,
        plan@[1] is Query,
        plan@[2] is Check,
        plan@[3] == StepView::Take(6),
        plan@[1]->Query_0.text == "LET $published_id = type::thing($doc, $id)"@
            + ";\n            "@ + "LET $draft_id = type::thing(string::concat($doc, '_draft'), $id)"@
            + ";\n            "@ + "LET $meta_id = type::thing(string::concat($doc, '_meta'), $id)"@
            + ";\n            "@ + "UPSERT $published_id SET inner = $inner, published_at = IF $publish_at IS NOT NONE { <datetime>$publish_at } ELSE { NONE }"@
            + ";\n            "@ + "UPSERT $meta_id SET published = $published_id, modified_at = time::now(), draft = NONE"@
            + ";\n            "@ + "DELETE $draft_id"@
            + ";\n            "@ + ("SELECT
                id,
                created_at,
                modified_at,
                IF draft IS NOT NONE THEN draft.inner ELSE published.inner END AS inner,
                published.published_at AS published_at
            FROM "@ + "$meta_id"@ + "
            FETCH draft, published"@) + ";"@,
        variables(plan@[1]->Query_0.bindings) == map![
            "doc"@ => BoundView::Text(doc@),
            "id"@ => BoundView::Text(id@),
            "publish_at"@ => BoundView::Time(publish_at),
            "inner"@ => BoundView::Json(data),
        ],
{
    publish_variables(doc@, id@, publish_at, data);
    let parts = publish_statements();
    joined_so_far(parts, SEPARATOR@, 1);
    joined_so_far(parts, SEPARATOR@, 2);
    joined_so_far(parts, SEPARATOR@, 3);
    joined_so_far(parts, SEPARATOR@, 4);
    joined_so_far(parts, SEPARATOR@, 5);
    joined_so_far(parts, SEPARATOR@, 6);
}

/// Turning a published document back into a draft sends, in a transaction that is committed
/// once its replies were checked, a script that sees exactly the document that was given. It
/// stores the published content in the draft, links the draft alone and drops the published
/// version.
pub proof fn unpublished_as_given(doc: &str, id: &str, plan: Plan)
    requires
        call_ensures(unpublish, (doc, id), plan),
    ensures
        plan@.len() == 5,
        plan@[0] is Begin,
        plan@[1] is Query,
        plan@[2] is Check,
        plan@[3] is Commit,
        plan@[4] == StepView::Take(6),
        plan@[1]->Query_0.text == "LET $meta_id = type::thing(string::concat($doc, '_meta'), $id)"@
            + ";\n            "@ + "LET $draft_id = type::thing(string::concat($doc, '_draft'), $id)"@
            + ";\n            "@ + "LET $published_id = type::thing($doc, $id)"@
            + ";\n            "@ + "UPSERT $draft_id SET inner = (SELECT VALUE inner FROM ONLY $published_id)"@
            + ";\n            "@ + "UPDATE $meta_id SET draft = $draft_id, published = NONE, modified_at = time::now()"@
            + ";\n            "@ + "DELETE $published_id RETURN BEFORE"@ + ";"@,
        variables(plan@[1]->Query_0.bindings) == map![
            "doc"@ => BoundView::Text(doc@),
            "id"@ => BoundView::Text(id@),
        ],
{
    document_variables(doc@, id@);
    let parts = unpublish_statements();
    joined_so_far(parts, SEPARATOR@, 1);
    joined_so_far(parts, SEPARATOR@, 2);
    joined_so_far(parts, SEPARATOR@, 3);
    joined_so_far(parts, SEPARATOR@, 4);
    joined_so_far(parts, SEPARATOR@, 5);
}

/// Removing a document sends, in a transaction that is committed once its replies were checked,
/// a script that sees exactly the document that was given. It drops what is known about it, its
/// published version and its draft, and the replies read are what each of them was.
pub proof fn removed_as_given(doc: &str, id: &str, plan: Plan)
    requires
        call_ensures(delete, (doc, id), plan),
    ensures
        plan@.len() == 7,
        plan@[0] is Begin,
        plan@[1] is Query,
        plan@[2] is Check,
        plan@[3] is Commit,
        plan@[4] == StepView::Take(3),
        plan@[5] == StepView::Take(4),
        plan@[6] == StepView::Take(5),
        plan@[1]->Query_0.text == "LET $published_id = type::thing($doc, $id)"@
            + ";\n                    "@ + "LET $draft_id = type::thing(string::concat($doc, '_draft'), $id)"@
            + ";\n                    "@ + "LET $meta_id = type::thing(string::concat($doc, '_meta'), $id)"@
            + ";\n                    "@ + "DELETE $meta_id RETURN BEFORE"@
            + ";\n                    "@ + "DELETE $published_id RETURN BEFORE"@
            + ";\n                    "@ + "DELETE $draft_id RETURN BEFORE"@ + ";"@,
        variables(plan@[1]->Query_0.bindings) == map![
            "doc"@ => BoundView::Text(doc@),
            "id"@ => BoundView::Text(id@),
        ],
{
    document_variables(doc@, id@);
    let parts = delete_statements();
    joined_so_far(parts, ";\n                    "@, 1);
    joined_so_far(parts, ";\n                    "@, 2);
    joined_so_far(parts, ";\n                    "@, 3);
    joined_so_far(parts, ";\n                    "@, 4);
    joined_so_far(parts, ";\n                    "@, 5);
}

/// Reading one document sends a script that sees exactly the document that was given, and reads
/// the item of what is known about it.
pub proof fn one_document_is_asked_for(doc: &str, id: &str, plan: Plan)
    requires
        call_ensures(get_by_id, (doc, id), plan),
    ensures
        plan@.len() == 3,
        plan@[0] is Query,
        plan@[1] is Check,
        plan@[2] == StepView::Take(1),
        plan@[0]->Query_0.text == "LET $meta_id = type::thing(string::concat($doc, '_meta'), $id)"@ + "\n            "@ + ("SELECT
                id,
                created_at,
                modified_at,
                IF draft IS NOT NONE THEN draft.inner ELSE published.inner END AS inner,
                published.published_at AS published_at
            FROM "@ + "$meta_id"@ + "
            FETCH draft, published"@),
        variables(plan@[0]->Query_0.bindings) == map![
            "doc"@ => BoundView::Text(doc@),
            "id"@ => BoundView::Text(id@),
        ],
{
    document_variables(doc@, id@);
}

/// Reading all documents sends a script that sees exactly the kind that was given, and reads the
/// items of what is known about the documents of that kind.
pub proof fn all_documents_are_asked_for(doc: &str, plan: Plan)
    requires
        call_ensures(get_all, (doc,), plan),
    ensures
        plan@.len() == 3,
        plan@[0] is Query,
        plan@[1] is Check,
        plan@[2] == StepView::Take(0),
        plan@[0]->Query_0.text == ("SELECT
                id,
                created_at,
                modified_at,
                IF draft IS NOT NONE THEN draft.inner ELSE published.inner END AS inner,
                published.published_at AS published_at
            FROM "@ + "type::table(string::concat($doc, '_meta'))"@ + "
            FETCH draft, published"@),
        variables(plan@[0]->Query_0.bindings) == map!["doc"@ => BoundView::Text(doc@)],
{
    let bindings = plan@[0]->Query_0.bindings;
    let wanted = map!["doc"@ => BoundView::Text(doc@)];
    last_binding_counts(bindings, 0);
    assert forall|name: Seq<char>| #[trigger]
        variables(bindings).dom().contains(name) <==> wanted.dom().contains(name) by {
        only_bound_names_are_seen(bindings, name);
        if name == "doc"@ {
            assert(bindings[0].0 == name);
        }
    }
    assert(variables(bindings).dom() =~= wanted.dom());
    assert(variables(bindings) =~= wanted);
}

/// Removing a draft starts by reading the document as reading it by its id does. What follows
/// depends on what was found: where nothing was, nothing follows. Where a record was, the answer
/// is its item, and a transaction is begun in which a script sees exactly the document that was
/// given, drops its draft, and drops what is known about it where it is not published.
pub proof fn draft_is_removed_as_given(
    doc: &str,
    id: &str,
    reading: Plan,
    by_id: Plan,
    before: Option<SurrealItem<serde_json::Value>>,
    removal: Option<(Item<serde_json::Value>, Plan)>,
)
    requires
        before matches Some(record) ==> record.id.key is String,
        call_ensures(delete_draft, (doc, id), reading),
        call_ensures(get_by_id, (doc, id), by_id),
        call_ensures(remove_draft, (doc, id, before), removal),
    ensures
        reading@ == by_id@,
        before is None ==> removal is None,
        before matches Some(record) ==> {
            let (item, plan) = removal->0;
            &&& removal is Some
            &&& record.id.key == RecordIdKey::String(item.id)
            &&& item.created_at == record.created_at
            &&& item.modified_at == record.modified_at
            &&& item.published_at == record.published_at
            &&& item.inner == record.inner.0
            &&& plan@.len() == 2
            &&& plan@[0] is Begin
            &&& plan@[1] is Query
            &&& plan@[1]->Query_0.text == "LET $draft_id = type::thing(string::concat($doc, '_draft'), $id)"@
            + ";\n            "@ + "LET $meta_id = type::thing(string::concat($doc, '_meta'), $id)"@
            + ";\n            "@ + "DELETE $draft_id"@
            + ";\n            "@ + "DELETE $meta_id WHERE published IS NONE"@ + ";"@
            &&& variables(plan@[1]->Query_0.bindings) == map![
            "doc"@ => BoundView::Text(doc@),
            "id"@ => BoundView::Text(id@),
        ]
        },
{
    document_variables(doc@, id@);
    let parts = delete_draft_statements();
    joined_so_far(parts, SEPARATOR@, 1);
    joined_so_far(parts, SEPARATOR@, 2);
    joined_so_far(parts, SEPARATOR@, 3);
}

} // verus!
