use scalar_surreal::expr::{compile_expression, resolve_value, Expression, Operand};
use serde_json::Value;

fn literal(n: i64) -> Operand {
    Operand::Value(Value::from(n))
}

fn ident(name: &str) -> Operand {
    Operand::Ident(name.to_string())
}

fn binding(name: &str, n: i64) -> (String, Value) {
    (name.to_string(), Value::from(n))
}

fn equals(lhs: Operand, rhs: Operand) -> Expression {
    Expression::Equals { lhs, rhs }
}

fn and(lhs: Expression, rhs: Expression) -> Expression {
    Expression::And { lhs: Box::new(lhs), rhs: Box::new(rhs) }
}

fn or(lhs: Expression, rhs: Expression) -> Expression {
    Expression::Or { lhs: Box::new(lhs), rhs: Box::new(rhs) }
}

#[test]
fn equals_binds_its_literal() {
    let (bindings, clause) =
        compile_expression("slug", equals(Operand::CurrentField, literal(7)));
    assert_eq!(clause, "inner.slug = $b0");
    assert_eq!(bindings, vec![binding("b0", 7)]);
}

#[test]
fn not_equals_compares_fields() {
    let (bindings, clause) = compile_expression(
        "slug",
        Expression::NotEquals { lhs: ident("title"), rhs: Operand::CurrentField },
    );
    assert_eq!(clause, "inner.title != inner.slug");
    assert_eq!(bindings, vec![]);
}

#[test]
fn two_literals_of_a_comparison_are_numbered() {
    let (bindings, clause) = compile_expression("slug", equals(literal(1), literal(2)));
    assert_eq!(clause, "$b0 = $b1");
    assert_eq!(bindings, vec![binding("b0", 1), binding("b1", 2)]);
}

#[test]
fn connectives_are_bracketed() {
    let (bindings, clause) = compile_expression(
        "slug",
        or(
            and(
                equals(Operand::CurrentField, ident("a")),
                equals(Operand::CurrentField, literal(3)),
            ),
            equals(ident("b"), ident("c")),
        ),
    );
    assert_eq!(clause, "((inner.slug = inner.a AND inner.slug = $b0) OR inner.b = inner.c)");
    assert_eq!(bindings, vec![binding("b0", 3)]);
}

#[test]
fn literals_on_both_sides_share_a_name() {
    let (bindings, clause) = compile_expression(
        "slug",
        and(
            equals(Operand::CurrentField, literal(1)),
            equals(Operand::CurrentField, literal(2)),
        ),
    );
    assert_eq!(clause, "(inner.slug = $b0 AND inner.slug = $b0)");
    assert_eq!(bindings, vec![binding("b0", 1), binding("b0", 2)]);
}

#[test]
fn literals_are_bound_from_left_to_right() {
    let (bindings, _) = compile_expression(
        "slug",
        or(
            equals(literal(4), literal(5)),
            and(equals(ident("x"), literal(6)), equals(literal(7), ident("y"))),
        ),
    );
    let values: Vec<Value> = bindings.into_iter().map(|binding| binding.1).collect();
    assert_eq!(values, vec![Value::from(4), Value::from(5), Value::from(6), Value::from(7)]);
}

#[test]
fn clause_is_the_same_for_other_literals() {
    let clause = |value: Value| {
        compile_expression("slug", equals(Operand::CurrentField, Operand::Value(value))).1
    };
    assert_eq!(clause(Value::from("1 OR true")), clause(Value::Null));
}

#[test]
fn a_literal_is_named_by_the_number_of_those_before_it() {
    let mut bindings: Vec<(String, Value)> = Vec::new();
    for n in 0..1205 {
        bindings.push(binding("x", n));
    }
    let written = resolve_value(&mut bindings, "slug", literal(9));
    assert_eq!(written, "$b1205");
    assert_eq!(bindings.len(), 1206);
    assert_eq!(bindings[1205], binding("b1205", 9));
    assert_eq!(bindings[1204], binding("x", 1204));
}

#[test]
fn fields_bind_nothing() {
    let mut bindings: Vec<(String, Value)> = Vec::new();
    assert_eq!(resolve_value(&mut bindings, "slug", Operand::CurrentField), "inner.slug");
    assert_eq!(resolve_value(&mut bindings, "slug", ident("title")), "inner.title");
    assert!(bindings.is_empty());
}

#[test]
fn names_are_the_places_in_a_comparison() {
    let compiled = compile_expression(
        "slug",
        and(
            equals(literal(1), literal(2)),
            or(equals(ident("a"), literal(3)), equals(literal(4), literal(5))),
        ),
    );
    let names: Vec<&str> = compiled.0.iter().map(|binding| binding.0.as_str()).collect();
    assert_eq!(names, vec!["b0", "b1", "b0", "b0", "b1"]);
    let other = compile_expression(
        "slug",
        and(
            equals(literal(9), literal(9)),
            or(equals(ident("a"), literal(9)), equals(literal(9), literal(9))),
        ),
    );
    let other_names: Vec<&str> = other.0.iter().map(|binding| binding.0.as_str()).collect();
    assert_eq!(names, other_names);
}

#[test]
fn current_field_and_its_name_compile_alike() {
    assert_eq!(
        compile_expression("slug", or(
            equals(Operand::CurrentField, literal(1)),
            equals(ident("a"), Operand::CurrentField),
        )),
        compile_expression("slug", or(
            equals(ident("slug"), literal(1)),
            equals(ident("a"), ident("slug")),
        ))
    );
}
