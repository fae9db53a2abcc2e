use scalar_surreal::binding::Bound;
use scalar_surreal::expr::{Expression, Operand};
use scalar_surreal::plan::{Plan, Request, Step};
use scalar_surreal::validation::{
    all_match, any_match, none_match, vctx_all, vctx_any, vctx_none,
};
use serde_json::Value;

fn unique() -> Expression {
    Expression::Equals { lhs: Operand::CurrentField, rhs: Operand::Value(Value::from("hello")) }
}

fn bindings() -> Vec<(String, Bound)> {
    vec![
        ("excl_id".to_string(), Bound::Text("first".to_string())),
        ("b0".to_string(), Bound::Json(Value::from("hello"))),
    ]
}

const MATCHES: &str =
    "count(SELECT * FROM post WHERE record::id(id) != $excl_id AND (inner.slug = $b0))";

fn matches_plan() -> Plan {
    Plan {
        steps: vec![
            Step::Query(Request { text: MATCHES.to_string(), bindings: bindings() }),
            Step::Check,
            Step::Take(0),
        ],
    }
}

#[test]
fn all_counts_matches_and_documents() {
    let text = "count(SELECT * FROM post WHERE record::id(id) != $excl_id AND (inner.slug = $b0));
                    count(SELECT * FROM post WHERE record::id(id) != $excl_id)";
    assert_eq!(
        vctx_all("post", "first", "slug", unique()),
        Plan {
            steps: vec![
                Step::Query(Request { text: text.to_string(), bindings: bindings() }),
                Step::Check,
                Step::Take(0),
                Step::Take(1),
            ],
        }
    );
}

#[test]
fn none_counts_matches() {
    assert_eq!(vctx_none("post", "first", "slug", unique()), matches_plan());
}

#[test]
fn any_counts_matches() {
    assert_eq!(vctx_any("post", "first", "slug", unique()), matches_plan());
}

#[test]
fn several_literals_follow_the_excluded_document() {
    let plan = vctx_any(
        "post",
        "first",
        "slug",
        Expression::NotEquals {
            lhs: Operand::Value(Value::from(1)),
            rhs: Operand::Value(Value::from(2)),
        },
    );
    let Step::Query(request) = &plan.steps[0] else {
        panic!("a script");
    };
    let names: Vec<&str> = request.bindings.iter().map(|binding| binding.0.as_str()).collect();
    assert_eq!(names, vec!["excl_id", "b0", "b1"]);
    assert_eq!(request.bindings[0].1, Bound::Text("first".to_string()));
    assert_eq!(request.bindings[2].1, Bound::Json(Value::from(2)));
}

#[test]
fn answers_follow_from_the_counts() {
    assert!(all_match(3, 3));
    assert!(!all_match(2, 3));
    assert!(all_match(0, 0));
    assert!(none_match(0));
    assert!(!none_match(1));
    assert!(any_match(1));
    assert!(!any_match(0));
}
