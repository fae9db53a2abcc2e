//! Conditions on the fields of a document, and the SurrealQL that they compile to.

use vstd::prelude::*;

use crate::binding::{distinct_bindings_all_count, distinctly_named, variables};
use crate::text::{append_decimal, decimal_is_injective};

verus! {

/// An operand of a comparison.
#[derive(Debug, PartialEq)]
pub enum Operand {
    /// The field that the condition is asked of.
    CurrentField,
    /// Another field of the document, by name.
    Ident(String),
    /// A literal.
    Value(serde_json::Value),
}

/// A condition on a document.
#[derive(Debug, PartialEq)]
#[allow(inconsistent_fields)]
pub enum Expression {
    Equals { lhs: Operand, rhs: Operand },
    NotEquals { lhs: Operand, rhs: Operand },
    And { lhs: Box<Expression>, rhs: Box<Expression> },
    Or { lhs: Box<Expression>, rhs: Box<Expression> },
}

/// What some bindings bind, in order: each a name and the literal that it stands for.
pub open spec fn bound(bindings: Seq<(String, serde_json::Value)>) -> Seq<
    (Seq<char>, serde_json::Value),
> {
    bindings.map_values(|binding: (String, serde_json::Value)| (binding.0@, binding.1))
}

/// The name of the binding that follows `n` others.
pub open spec fn binding_name(n: nat) -> Seq<char> {
    "b"@ + crate::text::decimal(n)
}

impl Operand {
    /// How the operand is written where `n` literals are bound already.
    pub open spec fn written(self, field_name: Seq<char>, n: nat) -> Seq<char> {
        match self {
            Operand::CurrentField => "inner."@ + field_name,
            Operand::Ident(ident) => "inner."@ + ident@,
            Operand::Value(_) => "$"@ + binding_name(n),
        }
    }

    /// The literals of the operand: itself, or none.
    pub open spec fn literals(self) -> Seq<serde_json::Value> {
        match self {
            Operand::Value(literal) => seq![literal],
            _ => Seq::empty(),
        }
    }

    /// What the operand binds where `n` literals are bound already.
    pub open spec fn binds(self, n: nat) -> Seq<(Seq<char>, serde_json::Value)> {
        match self {
            Operand::Value(literal) => seq![(binding_name(n), literal)],
            _ => Seq::empty(),
        }
    }
}

/// Two operands around an operator.
pub open spec fn comparison(
    field_name: Seq<char>,
    lhs: Operand,
    operator: Seq<char>,
    rhs: Operand,
) -> Seq<char> {
    lhs.written(field_name, 0) + operator + rhs.written(field_name, lhs.literals().len())
}

/// Two conditions around a connective, in brackets.
pub open spec fn connected(lhs: Seq<char>, connective: Seq<char>, rhs: Seq<char>) -> Seq<char> {
    "("@ + lhs + connective + rhs + ")"@
}

impl Expression {
    /// The condition as SurrealQL writes it after `WHERE`.
    pub open spec fn clause(self, field_name: Seq<char>) -> Seq<char>
        decreases self,
    {
        match self {
            Expression::Equals { lhs, rhs } => comparison(field_name, lhs, " = "@, rhs),
            Expression::NotEquals { lhs, rhs } => comparison(field_name, lhs, " != "@, rhs),
            Expression::And { lhs, rhs } => connected(
                lhs.clause(field_name),
                " AND "@,
                rhs.clause(field_name),
            ),
            Expression::Or { lhs, rhs } => connected(
                lhs.clause(field_name),
                " OR "@,
                rhs.clause(field_name),
            ),
        }
    }

    /// What the condition binds, in order. Each comparison numbers its literals from zero.
    pub open spec fn binds(self) -> Seq<(Seq<char>, serde_json::Value)>
        decreases self,
    {
        match self {
            Expression::Equals { lhs, rhs } => lhs.binds(0) + rhs.binds(lhs.literals().len()),
            Expression::NotEquals { lhs, rhs } => lhs.binds(0) + rhs.binds(lhs.literals().len()),
            Expression::And { lhs, rhs } => lhs.binds() + rhs.binds(),
            Expression::Or { lhs, rhs } => lhs.binds() + rhs.binds(),
        }
    }

    /// The literals of the condition, from left to right.
    pub open spec fn literals(self) -> Seq<serde_json::Value>
        decreases self,
    {
        match self {
            Expression::Equals { lhs, rhs } => lhs.literals() + rhs.literals(),
            Expression::NotEquals { lhs, rhs } => lhs.literals() + rhs.literals(),
            Expression::And { lhs, rhs } => lhs.literals() + rhs.literals(),
            Expression::Or { lhs, rhs } => lhs.literals() + rhs.literals(),
        }
    }
}

/// Compiles a condition on the field `field_name` to a clause and to what the clause binds.
pub fn compile_expression(field_name: &str, expression: Expression) -> (compiled: (
    Vec<(String, serde_json::Value)>,
    String,
))
    ensures
        bound(compiled.0@) == expression.binds(),
        compiled.1@ == expression.clause(field_name@),
    decreases expression,
{
    match expression {
        Expression::Equals { lhs, rhs } => compile_comparison(field_name, lhs, " = ", rhs),
        Expression::NotEquals { lhs, rhs } => compile_comparison(field_name, lhs, " != ", rhs),
        Expression::And { lhs, rhs } => {
            let left = compile_expression(field_name, *lhs);
            let right = compile_expression(field_name, *rhs);
            connect(left, " AND ", right)
        },
        Expression::Or { lhs, rhs } => {
            let left = compile_expression(field_name, *lhs);
            let right = compile_expression(field_name, *rhs);
            connect(left, " OR ", right)
        },
    }
}

/// Compiles one comparison, numbering its literals from zero.
fn compile_comparison(field_name: &str, lhs: Operand, operator: &str, rhs: Operand) -> (compiled: (
    Vec<(String, serde_json::Value)>,
    String,
))
    ensures
        bound(compiled.0@) == lhs.binds(0) + rhs.binds(lhs.literals().len()),
        compiled.1@ == comparison(field_name@, lhs, operator@, rhs),
{
    let mut bindings: Vec<(String, serde_json::Value)> = Vec::new();
    let left = resolve_value(&mut bindings, field_name, lhs);
    let right = resolve_value(&mut bindings, field_name, rhs);
    assert(bound(bindings@) =~= lhs.binds(0) + rhs.binds(lhs.literals().len()));
    (bindings, left.concat(operator).concat(right.as_str()))
}

/// Puts two compiled conditions around a connective; what they bind is not renamed.
fn connect(
    left: (Vec<(String, serde_json::Value)>, String),
    connective: &str,
    right: (Vec<(String, serde_json::Value)>, String),
) -> (compiled: (Vec<(String, serde_json::Value)>, String))
    ensures
        bound(compiled.0@) == bound(left.0@) + bound(right.0@),
        compiled.1@ == connected(left.1@, connective@, right.1@),
{
    let (mut bindings, left_clause) = left;
    let (mut right_bindings, right_clause) = right;
    let ghost left_bound = bound(bindings@);
    let ghost right_bound = bound(right_bindings@);
    bindings.append(&mut right_bindings);
    assert(bound(bindings@) =~= left_bound + right_bound);
    let clause = "(".to_owned().concat(left_clause.as_str()).concat(connective).concat(
        right_clause.as_str(),
    ).concat(")");
    (bindings, clause)
}

/// Writes one operand, and binds it where it is a literal. The fields of a document lie in
/// its `inner` object.
pub fn resolve_value(
    bindings: &mut Vec<(String, serde_json::Value)>,
    field_name: &str,
    value: Operand,
) -> (written: String)
    ensures
        written@ == value.written(field_name@, old(bindings)@.len()),
        bound(final(bindings)@) == bound(old(bindings)@) + value.binds(old(bindings)@.len()),
        value is CurrentField ==> written@ == "inner."@ + field_name@,
        value matches Operand::Ident(ident) ==> written@ == "inner."@ + ident@,
        value !is Value ==> bound(final(bindings)@) == bound(old(bindings)@),
        value matches Operand::Value(literal) ==> {
            let name = "b"@ + crate::text::decimal(old(bindings)@.len());
            written@ == "$"@ + name && bound(final(bindings)@) == bound(old(bindings)@).push(
                (name, literal),
            )
        },
{
    match value {
        Operand::CurrentField => {
            assert(bound(bindings@) =~= bound(old(bindings)@) + value.binds(old(bindings)@.len()));
            "inner.".to_owned().concat(field_name)
        },
        Operand::Ident(ident) => {
            assert(bound(bindings@) =~= bound(old(bindings)@) + value.binds(old(bindings)@.len()));
            "inner.".to_owned().concat(ident.as_str())
        },
        Operand::Value(literal) => {
            let mut name = "b".to_owned();
            append_decimal(&mut name, bindings.len());
            let written = "$".to_owned().concat(name.as_str());
            let ghost named = name@;
            bindings.push((name, literal));
            assert(bound(bindings@) =~= bound(old(bindings)@) + value.binds(old(bindings)@.len()));
            assert(bound(bindings@) =~= bound(old(bindings)@).push((named, literal)));
            written
        },
    }
}

impl Expression {
    /// At most one side of each connective holds literals.
    pub open spec fn literals_on_one_side(self) -> bool
        decreases self,
    {
        match self {
            Expression::Equals { .. } => true,
            Expression::NotEquals { .. } => true,
            Expression::And { lhs, rhs } => {
                &&& lhs.literals_on_one_side()
                &&& rhs.literals_on_one_side()
                &&& lhs.literals().len() == 0 || rhs.literals().len() == 0
            },
            Expression::Or { lhs, rhs } => {
                &&& lhs.literals_on_one_side()
                &&& rhs.literals_on_one_side()
                &&& lhs.literals().len() == 0 || rhs.literals().len() == 0
            },
        }
    }
}

impl Operand {
    /// The two operands differ at most in which literal they are.
    pub open spec fn same_form(self, other: Operand) -> bool {
        match (self, other) {
            (Operand::CurrentField, Operand::CurrentField) => true,
            (Operand::Ident(name), Operand::Ident(other_name)) => name@ == other_name@,
            (Operand::Value(_), Operand::Value(_)) => true,
            _ => false,
        }
    }
}

impl Expression {
    /// The two conditions differ at most in their literals.
    pub open spec fn same_form(self, other: Expression) -> bool
        decreases self,
    {
        match (self, other) {
            (
                Expression::Equals { lhs, rhs },
                Expression::Equals { lhs: other_lhs, rhs: other_rhs },
            ) => lhs.same_form(other_lhs) && rhs.same_form(other_rhs),
            (
                Expression::NotEquals { lhs, rhs },
                Expression::NotEquals { lhs: other_lhs, rhs: other_rhs },
            ) => lhs.same_form(other_lhs) && rhs.same_form(other_rhs),
            (
                Expression::And { lhs, rhs },
                Expression::And { lhs: other_lhs, rhs: other_rhs },
            ) => lhs.same_form(*other_lhs) && rhs.same_form(*other_rhs),
            (
                Expression::Or { lhs, rhs },
                Expression::Or { lhs: other_lhs, rhs: other_rhs },
            ) => lhs.same_form(*other_lhs) && rhs.same_form(*other_rhs),
            _ => false,
        }
    }
}

/// Every literal of a condition is bound, once, in the order in which it is written.
pub proof fn literals_are_bound_in_order(expression: Expression)
    ensures
        expression.binds().map_values(|binding: (Seq<char>, serde_json::Value)| binding.1)
            == expression.literals(),
    decreases expression,
{
    let value_of = |binding: (Seq<char>, serde_json::Value)| binding.1;
    match expression {
        Expression::Equals { lhs, rhs } => {
            assert(expression.binds().map_values(value_of) =~= expression.literals());
        },
        Expression::NotEquals { lhs, rhs } => {
            assert(expression.binds().map_values(value_of) =~= expression.literals());
        },
        Expression::And { lhs, rhs } => {
            literals_are_bound_in_order(*lhs);
            literals_are_bound_in_order(*rhs);
            assert(expression.binds().map_values(value_of) =~= lhs.binds().map_values(value_of)
                + rhs.binds().map_values(value_of));
        },
        Expression::Or { lhs, rhs } => {
            literals_are_bound_in_order(*lhs);
            literals_are_bound_in_order(*rhs);
            assert(expression.binds().map_values(value_of) =~= lhs.binds().map_values(value_of)
                + rhs.binds().map_values(value_of));
        },
    }
}

/// The clause of a condition does not depend on its literals: they reach the database as
/// bindings only.
pub proof fn clause_does_not_depend_on_literals(
    expression: Expression,
    other: Expression,
    field_name: Seq<char>,
)
    requires
        expression.same_form(other),
    ensures
        expression.clause(field_name) == other.clause(field_name),
    decreases expression,
{
    match (expression, other) {
        (
            Expression::And { lhs, rhs },
            Expression::And { lhs: other_lhs, rhs: other_rhs },
        ) => {
            clause_does_not_depend_on_literals(*lhs, *other_lhs, field_name);
            clause_does_not_depend_on_literals(*rhs, *other_rhs, field_name);
        },
        (
            Expression::Or { lhs, rhs },
            Expression::Or { lhs: other_lhs, rhs: other_rhs },
        ) => {
            clause_does_not_depend_on_literals(*lhs, *other_lhs, field_name);
            clause_does_not_depend_on_literals(*rhs, *other_rhs, field_name);
        },
        _ => {},
    }
}

/// Two bindings of one number have one name, two of different numbers have two.
pub proof fn binding_names_are_distinct(m: nat, n: nat)
    ensures
        binding_name(m) == binding_name(n) <==> m == n,
{
    if binding_name(m) == binding_name(n) {
        let skipped = "b"@.len() as int;
        assert(binding_name(m).skip(skipped) =~= crate::text::decimal(m));
        assert(binding_name(n).skip(skipped) =~= crate::text::decimal(n));
        decimal_is_injective(m, n);
    }
}

/// A condition with literals binds the first number.
proof fn first_binding(expression: Expression)
    ensures
        expression.binds().len() == expression.literals().len(),
        expression.binds().len() > 0 ==> expression.binds()[0].0 == binding_name(0),
    decreases expression,
{
    match expression {
        Expression::And { lhs, rhs } => {
            first_binding(*lhs);
            first_binding(*rhs);
        },
        Expression::Or { lhs, rhs } => {
            first_binding(*lhs);
            first_binding(*rhs);
        },
        _ => {},
    }
}

/// The bindings of two conditions, one after the other, are named distinctly if and only if
/// those of each are and one of the two binds nothing.
proof fn distinct_on_both_sides(lhs: Expression, rhs: Expression)
    ensures
        distinctly_named(lhs.binds() + rhs.binds()) <==> {
            &&& distinctly_named(lhs.binds())
            &&& distinctly_named(rhs.binds())
            &&& lhs.literals().len() == 0 || rhs.literals().len() == 0
        },
{
    first_binding(lhs);
    first_binding(rhs);
    let all = lhs.binds() + rhs.binds();
    if distinctly_named(all) {
        assert forall|i: int, j: int| 0 <= i < j < lhs.binds().len() implies (
        #[trigger] lhs.binds()[i]).0 != (#[trigger] lhs.binds()[j]).0 by {
            assert(all[i].0 != all[j].0);
        }
        let n = lhs.binds().len() as int;
        assert forall|i: int, j: int| 0 <= i < j < rhs.binds().len() implies (
        #[trigger] rhs.binds()[i]).0 != (#[trigger] rhs.binds()[j]).0 by {
            assert(all[n + i].0 != all[n + j].0);
        }
        if lhs.binds().len() > 0 && rhs.binds().len() > 0 {
            assert(all[0].0 != all[n].0);
        }
    } else if lhs.literals().len() == 0 {
        assert(all =~= rhs.binds());
    } else if rhs.literals().len() == 0 {
        assert(all =~= lhs.binds());
    }
}

/// A condition names its literals distinctly if and only if no connective has literals on
/// both sides.
pub proof fn literals_are_named_distinctly(expression: Expression)
    ensures
        distinctly_named(expression.binds()) <==> expression.literals_on_one_side(),
    decreases expression,
{
    match expression {
        Expression::Equals { .. } => {
            binding_names_are_distinct(0, 1);
        },
        Expression::NotEquals { .. } => {
            binding_names_are_distinct(0, 1);
        },
        Expression::And { lhs, rhs } => {
            literals_are_named_distinctly(*lhs);
            literals_are_named_distinctly(*rhs);
            distinct_on_both_sides(*lhs, *rhs);
        },
        Expression::Or { lhs, rhs } => {
            literals_are_named_distinctly(*lhs);
            literals_are_named_distinctly(*rhs);
            distinct_on_both_sides(*lhs, *rhs);
        },
    }
}

/// Where no connective has literals on both sides, the name given to each literal stands for
/// that literal.
pub proof fn literals_are_seen(expression: Expression, i: int)
    requires
        expression.literals_on_one_side(),
        0 <= i < expression.literals().len(),
    ensures
        expression.binds().len() == expression.literals().len(),
        variables(expression.binds()).contains_key(expression.binds()[i].0),
        variables(expression.binds())[expression.binds()[i].0] == expression.literals()[i],
{
    literals_are_named_distinctly(expression);
    literals_are_bound_in_order(expression);
    let value_of = |binding: (Seq<char>, serde_json::Value)| binding.1;
    assert(expression.binds().map_values(value_of)[i] == expression.literals()[i]);
    distinct_bindings_all_count(expression.binds(), i);
}

impl Expression {
    /// Which literal of its comparison the literal at `i` is, counted from zero.
    pub open spec fn place(self, i: int) -> nat
        decreases self,
    {
        match self {
            Expression::Equals { .. } => i as nat,
            Expression::NotEquals { .. } => i as nat,
            Expression::And { lhs, rhs } => if i < lhs.literals().len() {
                lhs.place(i)
            } else {
                rhs.place(i - lhs.literals().len())
            },
            Expression::Or { lhs, rhs } => if i < lhs.literals().len() {
                lhs.place(i)
            } else {
                rhs.place(i - lhs.literals().len())
            },
        }
    }
}

/// A literal is named by its place in its comparison. There are two places, so that a condition
/// binds `b0` and `b1` alone, and `b1` only right after the `b0` of the same comparison.
pub proof fn names_tell_the_place(expression: Expression, i: int)
    requires
        0 <= i < expression.binds().len(),
    ensures
        expression.binds()[i].0 == binding_name(expression.place(i)),
        expression.place(i) <= 1,
        expression.place(i) == 1 ==> i > 0 && expression.place(i - 1) == 0,
        binding_name(0) == "b0"@,
        binding_name(1) == "b1"@,
    decreases expression,
{
    reveal_strlit("b");
    reveal_strlit("b0");
    reveal_strlit("b1");
    assert(binding_name(0) =~= "b0"@);
    assert(binding_name(1) =~= "b1"@);
    match expression {
        Expression::And { lhs, rhs } => {
            first_binding(*lhs);
            let n = lhs.binds().len();
            if i < n {
                names_tell_the_place(*lhs, i);
            } else {
                names_tell_the_place(*rhs, i - n);
            }
        },
        Expression::Or { lhs, rhs } => {
            first_binding(*lhs);
            let n = lhs.binds().len();
            if i < n {
                names_tell_the_place(*lhs, i);
            } else {
                names_tell_the_place(*rhs, i - n);
            }
        },
        _ => {},
    }
}

/// Conditions that differ at most in their literals bind the same names.
pub proof fn names_do_not_depend_on_literals(expression: Expression, other: Expression)
    requires
        expression.same_form(other),
    ensures
        expression.binds().map_values(|binding: (Seq<char>, serde_json::Value)| binding.0)
            == other.binds().map_values(|binding: (Seq<char>, serde_json::Value)| binding.0),
    decreases expression,
{
    let name_of = |binding: (Seq<char>, serde_json::Value)| binding.0;
    match (expression, other) {
        (
            Expression::And { lhs, rhs },
            Expression::And { lhs: other_lhs, rhs: other_rhs },
        ) => {
            names_do_not_depend_on_literals(*lhs, *other_lhs);
            names_do_not_depend_on_literals(*rhs, *other_rhs);
            assert(expression.binds().map_values(name_of) =~= lhs.binds().map_values(name_of)
                + rhs.binds().map_values(name_of));
            assert(other.binds().map_values(name_of) =~= other_lhs.binds().map_values(name_of)
                + other_rhs.binds().map_values(name_of));
        },
        (
            Expression::Or { lhs, rhs },
            Expression::Or { lhs: other_lhs, rhs: other_rhs },
        ) => {
            names_do_not_depend_on_literals(*lhs, *other_lhs);
            names_do_not_depend_on_literals(*rhs, *other_rhs);
            assert(expression.binds().map_values(name_of) =~= lhs.binds().map_values(name_of)
                + rhs.binds().map_values(name_of));
            assert(other.binds().map_values(name_of) =~= other_lhs.binds().map_values(name_of)
                + other_rhs.binds().map_values(name_of));
        },
        _ => {
            assert(expression.binds().map_values(name_of) =~= other.binds().map_values(name_of));
        },
    }
}

impl Operand {
    /// The field that the operand is, if it is one.
    pub open spec fn field(self, field_name: Seq<char>) -> Option<Seq<char>> {
        match self {
            Operand::CurrentField => Some(field_name),
            Operand::Ident(ident) => Some(ident@),
            Operand::Value(_) => None,
        }
    }

    /// The two operands are one field or one literal, where the condition is asked of
    /// `field_name`.
    pub open spec fn same_on(self, other: Operand, field_name: Seq<char>) -> bool {
        &&& self.field(field_name) == other.field(field_name)
        &&& self.literals() == other.literals()
    }
}

impl Expression {
    /// The two conditions differ at most in whether `field_name`, of which they are asked, is the
    /// current field or is named.
    pub open spec fn same_on(self, other: Expression, field_name: Seq<char>) -> bool
        decreases self,
    {
        match (self, other) {
            (
                Expression::Equals { lhs, rhs },
                Expression::Equals { lhs: other_lhs, rhs: other_rhs },
            ) => lhs.same_on(other_lhs, field_name) && rhs.same_on(other_rhs, field_name),
            (
                Expression::NotEquals { lhs, rhs },
                Expression::NotEquals { lhs: other_lhs, rhs: other_rhs },
            ) => lhs.same_on(other_lhs, field_name) && rhs.same_on(other_rhs, field_name),
            (
                Expression::And { lhs, rhs },
                Expression::And { lhs: other_lhs, rhs: other_rhs },
            ) => lhs.same_on(*other_lhs, field_name) && rhs.same_on(*other_rhs, field_name),
            (
                Expression::Or { lhs, rhs },
                Expression::Or { lhs: other_lhs, rhs: other_rhs },
            ) => lhs.same_on(*other_lhs, field_name) && rhs.same_on(*other_rhs, field_name),
            _ => false,
        }
    }
}

/// An operand is written and bound alike whether it is the current field or that field by name.
proof fn operands_compile_alike(lhs: Operand, other: Operand, field_name: Seq<char>, n: nat)
    requires
        lhs.same_on(other, field_name),
    ensures
        lhs.written(field_name, n) == other.written(field_name, n),
        lhs.binds(n) == other.binds(n),
{
    assert(lhs is Value ==> lhs.literals()[0] == other.literals()[0]);
}

/// The current field and that field by name compile alike: conditions that differ only in this
/// have one clause and bind the same.
pub proof fn current_field_is_its_name(
    expression: Expression,
    other: Expression,
    field_name: Seq<char>,
)
    requires
        expression.same_on(other, field_name),
    ensures
        expression.clause(field_name) == other.clause(field_name),
        expression.binds() == other.binds(),
    decreases expression,
{
    match (expression, other) {
        (
            Expression::Equals { lhs, rhs },
            Expression::Equals { lhs: other_lhs, rhs: other_rhs },
        ) => {
            operands_compile_alike(lhs, other_lhs, field_name, 0);
            operands_compile_alike(rhs, other_rhs, field_name, lhs.literals().len());
        },
        (
            Expression::NotEquals { lhs, rhs },
            Expression::NotEquals { lhs: other_lhs, rhs: other_rhs },
        ) => {
            operands_compile_alike(lhs, other_lhs, field_name, 0);
            operands_compile_alike(rhs, other_rhs, field_name, lhs.literals().len());
        },
        (
            Expression::And { lhs, rhs },
            Expression::And { lhs: other_lhs, rhs: other_rhs },
        ) => {
            current_field_is_its_name(*lhs, *other_lhs, field_name);
            current_field_is_its_name(*rhs, *other_rhs, field_name);
        },
        (
            Expression::Or { lhs, rhs },
            Expression::Or { lhs: other_lhs, rhs: other_rhs },
        ) => {
            current_field_is_its_name(*lhs, *other_lhs, field_name);
            current_field_is_its_name(*rhs, *other_rhs, field_name);
        },
        _ => {},
    }
}

/// A condition binds its literals under its names, each pair in its place.
pub proof fn bound_pairs_are_kept(bindings: Seq<(String, serde_json::Value)>, i: int)
    requires
        0 <= i < bindings.len(),
    ensures
        bound(bindings).len() == bindings.len(),
        bound(bindings)[i].0 == bindings[i].0@,
        bound(bindings)[i].1 == bindings[i].1,
{
}

/// What an operand of a comparison reads, where the first literal of the comparison is `$b0`
/// and the second `$b1`.
proof fn operands_are_written(field_name: Seq<char>, operand: Operand)
    ensures
        operand is CurrentField ==> operand.written(field_name, 0) == "inner."@ + field_name
            && operand.written(field_name, 1) == "inner."@ + field_name,
        operand matches Operand::Ident(ident) ==> operand.written(field_name, 0) == "inner."@
            + ident@ && operand.written(field_name, 1) == "inner."@ + ident@,
        operand is Value ==> operand.written(field_name, 0) == "$b0"@ && operand.written(
            field_name,
            1,
        ) == "$b1"@,
        binding_name(0) == "b0"@,
        binding_name(1) == "b1"@,
{
    reveal_strlit("$");
    reveal_strlit("b");
    reveal_strlit("b0");
    reveal_strlit("b1");
    reveal_strlit("$b0");
    reveal_strlit("$b1");
    assert(binding_name(0) =~= "b0"@);
    assert(binding_name(1) =~= "b1"@);
    assert("$"@ + binding_name(0) =~= "$b0"@);
    assert("$"@ + binding_name(1) =~= "$b1"@);
}

/// Comparing two operands for equality and for inequality gives the same bindings, and clauses
/// that differ in the operator alone. Each operand reads as the field that it is or as the
/// literal bound for it, the left one on the left.
pub proof fn comparisons_differ_in_the_operator(
    field_name: &str,
    lhs: Operand,
    rhs: Operand,
    left: Seq<char>,
    right: Seq<char>,
    equal: (Vec<(String, serde_json::Value)>, String),
    unequal: (Vec<(String, serde_json::Value)>, String),
)
    requires
        lhs is CurrentField ==> left == "inner."@ + field_name@,
        lhs matches Operand::Ident(ident) ==> left == "inner."@ + ident@,
        lhs is Value ==> left == "$b0"@,
        rhs is CurrentField ==> right == "inner."@ + field_name@,
        rhs matches Operand::Ident(ident) ==> right == "inner."@ + ident@,
        rhs is Value && lhs is Value ==> right == "$b1"@,
        rhs is Value && lhs !is Value ==> right == "$b0"@,
        call_ensures(compile_expression, (field_name, Expression::Equals { lhs, rhs }), equal),
        call_ensures(compile_expression, (field_name, Expression::NotEquals { lhs, rhs }), unequal),
    ensures
        equal.1@ == left + " = "@ + right,
        unequal.1@ == left + " != "@ + right,
        equal.1@ != unequal.1@,
        bound(equal.0@) == bound(unequal.0@),
{
    operands_are_written(field_name@, lhs);
    operands_are_written(field_name@, rhs);
    assert(lhs.literals().len() == (if lhs is Value {
        1nat
    } else {
        0
    }));
    reveal_strlit(" = ");
    reveal_strlit(" != ");
    assert(equal.1@.len() + 1 == unequal.1@.len());
}

/// A comparison binds its literals and nothing else: the left one first.
pub proof fn comparison_binds_its_literals(
    field_name: &str,
    lhs: Operand,
    rhs: Operand,
    compiled: (Vec<(String, serde_json::Value)>, String),
)
    requires
        call_ensures(compile_expression, (field_name, Expression::Equals { lhs, rhs }), compiled)
            || call_ensures(
            compile_expression,
            (field_name, Expression::NotEquals { lhs, rhs }),
            compiled,
        ),
    ensures
        lhs !is Value && rhs !is Value ==> bound(compiled.0@).len() == 0,
        (lhs matches Operand::Value(literal) && rhs !is Value) ==> bound(compiled.0@) == seq![
            ("b0"@, lhs->Value_0),
        ],
        (rhs is Value && lhs !is Value) ==> bound(compiled.0@) == seq![("b0"@, rhs->Value_0)],
        (lhs is Value && rhs is Value) ==> bound(compiled.0@) == seq![
            ("b0"@, lhs->Value_0),
            ("b1"@, rhs->Value_0),
        ],
{
    operands_are_written(field_name@, lhs);
    if lhs is Value && rhs is Value {
        assert(lhs.literals().len() == 1);
        assert(bound(compiled.0@) =~= seq![("b0"@, lhs->Value_0), ("b1"@, rhs->Value_0)]);
    } else if lhs is Value {
        assert(bound(compiled.0@) =~= seq![("b0"@, lhs->Value_0)]);
    } else if rhs is Value {
        assert(lhs.literals().len() == 0);
        assert(bound(compiled.0@) =~= seq![("b0"@, rhs->Value_0)]);
    }
}

/// Connecting two conditions puts their clauses in brackets around the connective, the left one
/// on the left, and binds what the left one binds and then what the right one binds.
pub proof fn connectives_keep_both_sides(
    field_name: &str,
    lhs: Expression,
    rhs: Expression,
    left: (Vec<(String, serde_json::Value)>, String),
    right: (Vec<(String, serde_json::Value)>, String),
    both: (Vec<(String, serde_json::Value)>, String),
    either: (Vec<(String, serde_json::Value)>, String),
)
    requires
        call_ensures(compile_expression, (field_name, lhs), left),
        call_ensures(compile_expression, (field_name, rhs), right),
        call_ensures(
            compile_expression,
            (field_name, Expression::And { lhs: Box::new(lhs), rhs: Box::new(rhs) }),
            both,
        ),
        call_ensures(
            compile_expression,
            (field_name, Expression::Or { lhs: Box::new(lhs), rhs: Box::new(rhs) }),
            either,
        ),
    ensures
        both.1@ == "("@ + left.1@ + " AND "@ + right.1@ + ")"@,
        either.1@ == "("@ + left.1@ + " OR "@ + right.1@ + ")"@,
        bound(both.0@) == bound(left.0@) + bound(right.0@),
        bound(either.0@) == bound(left.0@) + bound(right.0@),
{
}

} // verus!
