use scalar_surreal::binding::Bound;
use scalar_surreal::document::{
    delete, delete_draft, draft, get_all, get_by_id, publish, remove_draft, unpublish,
};
use scalar_surreal::plan::{Plan, Request, Step};
use scalar_surreal::record::{Item, RecordId, RecordIdKey, SurrealItem};
use scalar_surreal::wrapper::Wrapper;
use serde_json::Value;
use surrealdb::types::Datetime;

fn text(name: &str, value: &str) -> (String, Bound) {
    (name.to_string(), Bound::Text(value.to_string()))
}

fn json(name: &str, value: Value) -> (String, Bound) {
    (name.to_string(), Bound::Json(value))
}

fn query(script: &str, bindings: Vec<(String, Bound)>) -> Step {
    Step::Query(Request { text: script.to_string(), bindings })
}

const GET_BY_ID: &str = "LET $meta_id = type::thing(string::concat($doc, '_meta'), $id)
            SELECT
                id,
                created_at,
                modified_at,
                IF draft IS NOT NONE THEN draft.inner ELSE published.inner END AS inner,
                published.published_at AS published_at
            FROM $meta_id
            FETCH draft, published";

#[test]
fn draft_is_stored_checked_committed_and_read_back() {
    let script = "
            LET $draft_id = type::thing(string::concat($doc, '_draft'), $id);
            LET $meta_id = type::thing(string::concat($doc, '_meta'), $id);
            UPSERT $draft_id SET inner = $inner;
            UPSERT $meta_id SET draft = $draft_id, modified_at = time::now();
            SELECT
                id,
                created_at,
                modified_at,
                IF draft IS NOT NONE THEN draft.inner ELSE published.inner END AS inner,
                published.published_at AS published_at
            FROM $meta_id
            FETCH draft, published;
            ";
    assert_eq!(
        draft("post", "first", Value::from("words")),
        Plan {
            steps: vec![
                Step::Begin,
                query(
                    script,
                    vec![
                        text("doc", "post"),
                        text("id", "first"),
                        json("inner", Value::from("words")),
                    ],
                ),
                Step::Check,
                Step::Commit,
                Step::Take(4),
            ],
        }
    );
}

fn record(id: &str) -> SurrealItem<Value> {
    SurrealItem {
        id: RecordId {
            table: "post_meta".to_string(),
            key: RecordIdKey::String(id.to_string()),
        },
        created_at: Datetime::from_timestamp(1, 0).unwrap(),
        modified_at: Datetime::from_timestamp(2, 0).unwrap(),
        published_at: None,
        inner: Wrapper::new(Value::from("words")),
    }
}

#[test]
fn draft_removal_reads_first() {
    assert_eq!(
        delete_draft("post", "first"),
        Plan {
            steps: vec![
                query(GET_BY_ID, vec![text("doc", "post"), text("id", "first")]),
                Step::Check,
                Step::Take(1),
            ],
        }
    );
    assert_eq!(delete_draft("post", "first"), get_by_id("post", "first"));
}

#[test]
fn found_draft_is_removed_without_commit() {
    let script = "LET $draft_id = type::thing(string::concat($doc, '_draft'), $id);
            LET $meta_id = type::thing(string::concat($doc, '_meta'), $id);
            DELETE $draft_id;
            DELETE $meta_id WHERE published IS NONE;";
    let (before, plan) = remove_draft("post", "first", Some(record("first"))).unwrap();
    assert_eq!(before, Item::from(record("first")));
    assert_eq!(
        plan,
        Plan {
            steps: vec![
                Step::Begin,
                query(script, vec![text("doc", "post"), text("id", "first")]),
            ],
        }
    );
}

#[test]
fn draft_that_was_not_found_is_not_removed() {
    assert_eq!(remove_draft("post", "first", None), None);
}

#[test]
fn publication_binds_its_time() {
    let script = "LET $published_id = type::thing($doc, $id);
            LET $draft_id = type::thing(string::concat($doc, '_draft'), $id);
            LET $meta_id = type::thing(string::concat($doc, '_meta'), $id);
            UPSERT $published_id SET inner = $inner, published_at = IF $publish_at IS NOT NONE { <datetime>$publish_at } ELSE { NONE };
            UPSERT $meta_id SET published = $published_id, modified_at = time::now(), draft = NONE;
            DELETE $draft_id;
            SELECT
                id,
                created_at,
                modified_at,
                IF draft IS NOT NONE THEN draft.inner ELSE published.inner END AS inner,
                published.published_at AS published_at
            FROM $meta_id
            FETCH draft, published;";
    let time = Datetime::from_timestamp(1_700_000_000, 5).unwrap();
    let plan = |at: Option<Datetime>| Plan {
        steps: vec![
            Step::Begin,
            query(
                script,
                vec![
                    text("doc", "post"),
                    text("id", "first"),
                    ("publish_at".to_string(), Bound::Time(at)),
                    json("inner", Value::from(true)),
                ],
            ),
            Step::Check,
            Step::Take(6),
        ],
    };
    assert_eq!(publish("post", "first", Some(time), Value::from(true)), plan(Some(time)));
    assert_eq!(publish("post", "first", None, Value::from(true)), plan(None));
    assert_ne!(publish("post", "first", Some(time), Value::from(true)), plan(None));
}

#[test]
fn unpublication_reads_the_reply_after_the_last() {
    let script = "LET $meta_id = type::thing(string::concat($doc, '_meta'), $id);
            LET $draft_id = type::thing(string::concat($doc, '_draft'), $id);
            LET $published_id = type::thing($doc, $id);
            UPSERT $draft_id SET inner = (SELECT VALUE inner FROM ONLY $published_id);
            UPDATE $meta_id SET draft = $draft_id, published = NONE, modified_at = time::now();
            DELETE $published_id RETURN BEFORE;";
    assert_eq!(
        unpublish("post", "first"),
        Plan {
            steps: vec![
                Step::Begin,
                query(script, vec![text("doc", "post"), text("id", "first")]),
                Step::Check,
                Step::Commit,
                Step::Take(6),
            ],
        }
    );
}

#[test]
fn deletion_reads_what_it_removed() {
    let script = "LET $published_id = type::thing($doc, $id);
                    LET $draft_id = type::thing(string::concat($doc, '_draft'), $id);
                    LET $meta_id = type::thing(string::concat($doc, '_meta'), $id);
                    DELETE $meta_id RETURN BEFORE;
                    DELETE $published_id RETURN BEFORE;
                    DELETE $draft_id RETURN BEFORE;";
    assert_eq!(
        delete("post", "first"),
        Plan {
            steps: vec![
                Step::Begin,
                query(script, vec![text("doc", "post"), text("id", "first")]),
                Step::Check,
                Step::Commit,
                Step::Take(3),
                Step::Take(4),
                Step::Take(5),
            ],
        }
    );
}

#[test]
fn all_documents_are_read_from_the_meta_table() {
    let script = "SELECT
                id,
                created_at,
                modified_at,
                IF draft IS NOT NONE THEN draft.inner ELSE published.inner END AS inner,
                published.published_at AS published_at
            FROM type::table(string::concat($doc, '_meta'))
            FETCH draft, published";
    assert_eq!(
        get_all("post"),
        Plan {
            steps: vec![query(script, vec![text("doc", "post")]), Step::Check, Step::Take(0)],
        }
    );
}

#[test]
fn one_document_is_read_by_its_id() {
    assert_eq!(
        get_by_id("post", "first"),
        Plan {
            steps: vec![
                query(GET_BY_ID, vec![text("doc", "post"), text("id", "first")]),
                Step::Check,
                Step::Take(1),
            ],
        }
    );
}

fn requests(plan: &Plan) -> Vec<&Request> {
    let mut requests = Vec::new();
    for step in &plan.steps {
        if let Step::Query(request) = step {
            requests.push(request);
        }
    }
    requests
}

/// The names after each `$` of a script.
fn variables(script: &str) -> Vec<String> {
    script
        .split('$')
        .skip(1)
        .map(|rest| {
            rest.chars().take_while(|c| c.is_alphanumeric() || *c == '_').collect::<String>()
        })
        .collect()
}

#[test]
fn every_variable_of_a_script_is_bound_or_defined() {
    let plans = vec![
        draft("post", "first", Value::Null),
        delete_draft("post", "first"),
        remove_draft("post", "first", Some(record("first"))).unwrap().1,
        publish("post", "first", None, Value::Null),
        unpublish("post", "first"),
        delete("post", "first"),
        get_all("post"),
        get_by_id("post", "first"),
    ];
    for plan in &plans {
        for request in requests(plan) {
            for name in variables(&request.text) {
                let bound = request.bindings.iter().any(|binding| binding.0 == name);
                let defined = request.text.contains(&format!("LET ${name} ="));
                assert!(bound || defined, "{name} in {}", request.text);
            }
        }
    }
}

#[test]
fn scripts_do_not_depend_on_the_document() {
    let hostile = "x'); DELETE post; --";
    let one = draft("post", "first", Value::Null);
    let other = draft("page", hostile, Value::from(hostile));
    assert_eq!(requests(&one)[0].text, requests(&other)[0].text);
    assert_eq!(requests(&other)[0].bindings[1], text("id", hostile));
}
