//! What conditions mean on a document, and that their clauses say so.
//!
//! A condition is true or false of a document, whose fields have values. Its clause is read
//! the way SurrealQL reads it: fields by name within `inner`, literals by the variables that
//! are bound for them, comparisons by their operators and brackets around connectives. The
//! clause has one reading, and that is what the condition means.

use vstd::prelude::*;

use crate::binding::{distinct_bindings_all_count, variables};
use crate::expr::{
    binding_name, bound, compile_expression, literals_are_named_distinctly, Expression, Operand,
};

verus! {

/// The value of a field, if the document has it.
pub open spec fn field_value(
    fields: Map<Seq<char>, serde_json::Value>,
    name: Seq<char>,
) -> Option<serde_json::Value> {
    if fields.contains_key(name) {
        Some(fields[name])
    } else {
        None
    }
}

/// The value of an operand on a document.
pub open spec fn operand_value(
    operand: Operand,
    field_name: Seq<char>,
    fields: Map<Seq<char>, serde_json::Value>,
) -> Option<serde_json::Value> {
    match operand {
        Operand::CurrentField => field_value(fields, field_name),
        Operand::Ident(ident) => field_value(fields, ident@),
        Operand::Value(literal) => Some(literal),
    }
}

/// A condition holds of a document, where `alike` tells which values are equal.
pub open spec fn holds(
    expression: Expression,
    field_name: Seq<char>,
    fields: Map<Seq<char>, serde_json::Value>,
    alike: spec_fn(Option<serde_json::Value>, Option<serde_json::Value>) -> bool,
) -> bool
    decreases expression,
{
    match expression {
        Expression::Equals { lhs, rhs } => alike(
            operand_value(lhs, field_name, fields),
            operand_value(rhs, field_name, fields),
        ),
        Expression::NotEquals { lhs, rhs } => !alike(
            operand_value(lhs, field_name, fields),
            operand_value(rhs, field_name, fields),
        ),
        Expression::And { lhs, rhs } => holds(*lhs, field_name, fields, alike) && holds(
            *rhs,
            field_name,
            fields,
            alike,
        ),
        Expression::Or { lhs, rhs } => holds(*lhs, field_name, fields, alike) || holds(
            *rhs,
            field_name,
            fields,
            alike,
        ),
    }
}

/// A name that has neither blanks nor brackets.
pub open spec fn plain(name: Seq<char>) -> bool {
    forall|i: int|
        0 <= i < name.len() ==> #[trigger] name[i] != ' ' && name[i] != '(' && name[i] != ')'
}

/// `text` names a field of the document.
pub open spec fn names_field(text: Seq<char>) -> bool {
    text.len() >= 6 && text.take(6) == "inner."@
}

/// `text` names a variable of the script.
pub open spec fn names_variable(text: Seq<char>) -> bool {
    text.len() >= 1 && text[0] == '$'
}

/// `text` is one side of a comparison.
pub open spec fn is_term(text: Seq<char>) -> bool {
    plain(text) && (names_field(text) || names_variable(text))
}

/// What one side of a comparison is, where the script sees the variables `seen`.
pub open spec fn term_value(
    text: Seq<char>,
    seen: Map<Seq<char>, serde_json::Value>,
    fields: Map<Seq<char>, serde_json::Value>,
) -> Option<serde_json::Value> {
    if names_variable(text) {
        field_value(seen, text.skip(1))
    } else {
        field_value(fields, text.skip(6))
    }
}

/// `text` is two sides around an operator.
pub open spec fn compares(
    text: Seq<char>,
    left: Seq<char>,
    operator: Seq<char>,
    right: Seq<char>,
) -> bool {
    is_term(left) && is_term(right) && text == left + operator + right
}

/// `text` is two shorter texts around a connective, in brackets.
pub open spec fn connects(
    text: Seq<char>,
    left: Seq<char>,
    connective: Seq<char>,
    right: Seq<char>,
) -> bool {
    &&& text == "("@ + left + connective + right + ")"@
    &&& left.len() < text.len()
    &&& right.len() < text.len()
}

/// `truth` is that of both `p` and `q`.
pub open spec fn conjunction(truth: bool, p: bool, q: bool) -> bool {
    truth == (p && q)
}

/// `truth` is that of `p` or `q`.
pub open spec fn disjunction(truth: bool, p: bool, q: bool) -> bool {
    truth == (p || q)
}

/// The clause `text` reads as `truth` on a document.
pub open spec fn says(
    text: Seq<char>,
    seen: Map<Seq<char>, serde_json::Value>,
    fields: Map<Seq<char>, serde_json::Value>,
    alike: spec_fn(Option<serde_json::Value>, Option<serde_json::Value>) -> bool,
    truth: bool,
) -> bool
    decreases text.len(),
{
    ||| exists|left: Seq<char>, right: Seq<char>|
        #[trigger] compares(text, left, " = "@, right) && truth == alike(
            term_value(left, seen, fields),
            term_value(right, seen, fields),
        )
    ||| exists|left: Seq<char>, right: Seq<char>|
        #[trigger] compares(text, left, " != "@, right) && truth == !alike(
            term_value(left, seen, fields),
            term_value(right, seen, fields),
        )
    ||| exists|left: Seq<char>, right: Seq<char>, p: bool, q: bool|
        #[trigger] connects(text, left, " AND "@, right) && #[trigger] conjunction(truth, p, q)
            && says(left, seen, fields, alike, p) && says(right, seen, fields, alike, q)
    ||| exists|left: Seq<char>, right: Seq<char>, p: bool, q: bool|
        #[trigger] connects(text, left, " OR "@, right) && #[trigger] disjunction(truth, p, q)
            && says(left, seen, fields, alike, p) && says(right, seen, fields, alike, q)
}

/// All fields that a condition on `field_name` names have plain names.
pub open spec fn plainly_named(expression: Expression, field_name: Seq<char>) -> bool
    decreases expression,
{
    match expression {
        Expression::Equals { lhs, rhs } => {
            &&& plain(field_name)
            &&& lhs matches Operand::Ident(ident) ==> plain(ident@)
            &&& rhs matches Operand::Ident(ident) ==> plain(ident@)
        },
        Expression::NotEquals { lhs, rhs } => {
            &&& plain(field_name)
            &&& lhs matches Operand::Ident(ident) ==> plain(ident@)
            &&& rhs matches Operand::Ident(ident) ==> plain(ident@)
        },
        Expression::And { lhs, rhs } => plainly_named(*lhs, field_name) && plainly_named(
            *rhs,
            field_name,
        ),
        Expression::Or { lhs, rhs } => plainly_named(*lhs, field_name) && plainly_named(
            *rhs,
            field_name,
        ),
    }
}

/// A field is written as a term that names it.
proof fn field_is_a_term(
    name: Seq<char>,
    seen: Map<Seq<char>, serde_json::Value>,
    fields: Map<Seq<char>, serde_json::Value>,
)
    requires
        plain(name),
    ensures
        is_term("inner."@ + name),
        term_value("inner."@ + name, seen, fields) == field_value(fields, name),
{
    reveal_strlit("inner.");
    let text = "inner."@ + name;
    assert(text.take(6) =~= "inner."@);
    assert(text.skip(6) =~= name);
    assert forall|i: int| 0 <= i < text.len() implies #[trigger] text[i] != ' ' && text[i] != '('
        && text[i] != ')' by {
        if i >= 6 {
            assert(text[i] == name[i - 6]);
        }
    }
    assert(text[0] == 'i');
}

/// A literal is written as a term that names the variable bound for it.
proof fn literal_is_a_term(
    n: nat,
    seen: Map<Seq<char>, serde_json::Value>,
    fields: Map<Seq<char>, serde_json::Value>,
)
    requires
        n <= 1,
    ensures
        is_term("$"@ + binding_name(n)),
        term_value("$"@ + binding_name(n), seen, fields) == field_value(seen, binding_name(n)),
{
    reveal_strlit("$");
    reveal_strlit("b");
    let text = "$"@ + binding_name(n);
    assert(binding_name(n).len() == 2);
    assert(text.skip(1) =~= binding_name(n));
    assert(text[0] == '$');
    assert(text[1] == 'b');
    assert(text[2] == '0' || text[2] == '1');
}

/// An operand is written as a term of its value, if its literal is seen.
proof fn operand_is_a_term(
    operand: Operand,
    n: nat,
    field_name: Seq<char>,
    seen: Map<Seq<char>, serde_json::Value>,
    fields: Map<Seq<char>, serde_json::Value>,
)
    requires
        n <= 1,
        plain(field_name),
        operand matches Operand::Ident(ident) ==> plain(ident@),
        operand matches Operand::Value(literal) ==> field_value(seen, binding_name(n)) == Some(
            literal,
        ),
    ensures
        is_term(operand.written(field_name, n)),
        term_value(operand.written(field_name, n), seen, fields) == operand_value(
            operand,
            field_name,
            fields,
        ),
{
    match operand {
        Operand::CurrentField => field_is_a_term(field_name, seen, fields),
        Operand::Ident(ident) => field_is_a_term(ident@, seen, fields),
        Operand::Value(literal) => literal_is_a_term(n, seen, fields),
    }
}

/// The script sees each literal of a condition under the name bound for it.
spec fn literals_seen(expression: Expression, seen: Map<Seq<char>, serde_json::Value>) -> bool {
    forall|i: int|
        0 <= i < expression.binds().len() ==> field_value(
            seen,
            (#[trigger] expression.binds()[i]).0,
        ) == Some(expression.binds()[i].1)
}

/// The two sides of a comparison are terms of their values.
proof fn sides_are_terms(
    expression: Expression,
    lhs: Operand,
    rhs: Operand,
    field_name: Seq<char>,
    seen: Map<Seq<char>, serde_json::Value>,
    fields: Map<Seq<char>, serde_json::Value>,
)
    requires
        expression == (Expression::Equals { lhs, rhs }) || expression == (Expression::NotEquals {
            lhs,
            rhs,
        }),
        plainly_named(expression, field_name),
        literals_seen(expression, seen),
    ensures
        lhs.literals().len() <= 1,
        is_term(lhs.written(field_name, 0)),
        is_term(rhs.written(field_name, lhs.literals().len())),
        term_value(lhs.written(field_name, 0), seen, fields) == operand_value(
            lhs,
            field_name,
            fields,
        ),
        term_value(rhs.written(field_name, lhs.literals().len()), seen, fields) == operand_value(
            rhs,
            field_name,
            fields,
        ),
{
    let n = lhs.literals().len();
    let binds = expression.binds();
    assert(binds == lhs.binds(0) + rhs.binds(n));
    if lhs is Value {
        assert(binds[0] == (binding_name(0), lhs->Value_0));
    }
    if rhs is Value {
        assert(binds[n as int] == (binding_name(n), rhs->Value_0));
    }
    operand_is_a_term(lhs, 0, field_name, seen, fields);
    operand_is_a_term(rhs, n, field_name, seen, fields);
}

/// The clause of a condition reads as the condition holds, where its literals are seen.
proof fn clause_reads_as_it_holds(
    expression: Expression,
    field_name: Seq<char>,
    seen: Map<Seq<char>, serde_json::Value>,
    fields: Map<Seq<char>, serde_json::Value>,
    alike: spec_fn(Option<serde_json::Value>, Option<serde_json::Value>) -> bool,
)
    requires
        plainly_named(expression, field_name),
        literals_seen(expression, seen),
    ensures
        says(
            expression.clause(field_name),
            seen,
            fields,
            alike,
            holds(expression, field_name, fields, alike),
        ),
    decreases expression,
{
    let text = expression.clause(field_name);
    match expression {
        Expression::Equals { lhs, rhs } => {
            sides_are_terms(expression, lhs, rhs, field_name, seen, fields);
            assert(compares(
                text,
                lhs.written(field_name, 0),
                " = "@,
                rhs.written(field_name, lhs.literals().len()),
            ));
        },
        Expression::NotEquals { lhs, rhs } => {
            sides_are_terms(expression, lhs, rhs, field_name, seen, fields);
            assert(compares(
                text,
                lhs.written(field_name, 0),
                " != "@,
                rhs.written(field_name, lhs.literals().len()),
            ));
        },
        Expression::And { lhs, rhs } => {
            sides_are_seen(expression, *lhs, *rhs, seen);
            clause_reads_as_it_holds(*lhs, field_name, seen, fields, alike);
            clause_reads_as_it_holds(*rhs, field_name, seen, fields, alike);
            reveal_strlit("(");
            reveal_strlit(")");
            assert(connects(text, lhs.clause(field_name), " AND "@, rhs.clause(field_name)));
            assert(conjunction(
                holds(expression, field_name, fields, alike),
                holds(*lhs, field_name, fields, alike),
                holds(*rhs, field_name, fields, alike),
            ));
        },
        Expression::Or { lhs, rhs } => {
            sides_are_seen(expression, *lhs, *rhs, seen);
            clause_reads_as_it_holds(*lhs, field_name, seen, fields, alike);
            clause_reads_as_it_holds(*rhs, field_name, seen, fields, alike);
            reveal_strlit("(");
            reveal_strlit(")");
            assert(connects(text, lhs.clause(field_name), " OR "@, rhs.clause(field_name)));
            assert(disjunction(
                holds(expression, field_name, fields, alike),
                holds(*lhs, field_name, fields, alike),
                holds(*rhs, field_name, fields, alike),
            ));
        },
    }
}

/// Where the literals of two connected conditions are seen, those of each are.
proof fn sides_are_seen(
    expression: Expression,
    lhs: Expression,
    rhs: Expression,
    seen: Map<Seq<char>, serde_json::Value>,
)
    requires
        expression.binds() == lhs.binds() + rhs.binds(),
        literals_seen(expression, seen),
    ensures
        literals_seen(lhs, seen),
        literals_seen(rhs, seen),
{
    assert forall|i: int| 0 <= i < lhs.binds().len() implies field_value(
        seen,
        (#[trigger] lhs.binds()[i]).0,
    ) == Some(lhs.binds()[i].1) by {
        assert(expression.binds()[i] == lhs.binds()[i]);
    }
    assert forall|i: int| 0 <= i < rhs.binds().len() implies field_value(
        seen,
        (#[trigger] rhs.binds()[i]).0,
    ) == Some(rhs.binds()[i].1) by {
        assert(expression.binds()[lhs.binds().len() + i] == rhs.binds()[i]);
    }
}

/// `text` can be read as a condition.
spec fn readable(text: Seq<char>) -> bool
    decreases text.len(),
{
    ||| exists|left: Seq<char>, right: Seq<char>| #[trigger] compares(text, left, " = "@, right)
    ||| exists|left: Seq<char>, right: Seq<char>| #[trigger] compares(text, left, " != "@, right)
    ||| exists|left: Seq<char>, right: Seq<char>|
        #[trigger] connects(text, left, " AND "@, right) && readable(left) && readable(right)
    ||| exists|left: Seq<char>, right: Seq<char>|
        #[trigger] connects(text, left, " OR "@, right) && readable(left) && readable(right)
}

/// What reads as something can be read.
proof fn what_says_is_readable(
    text: Seq<char>,
    seen: Map<Seq<char>, serde_json::Value>,
    fields: Map<Seq<char>, serde_json::Value>,
    alike: spec_fn(Option<serde_json::Value>, Option<serde_json::Value>) -> bool,
    truth: bool,
)
    requires
        says(text, seen, fields, alike, truth),
    ensures
        readable(text),
    decreases text.len(),
{
    if exists|left: Seq<char>, right: Seq<char>| #[trigger] compares(text, left, " = "@, right) {
    } else if exists|left: Seq<char>, right: Seq<char>|
        #[trigger] compares(text, left, " != "@, right) {
    } else if exists|left: Seq<char>, right: Seq<char>, p: bool, q: bool|
        #[trigger] connects(text, left, " AND "@, right) && #[trigger] conjunction(truth, p, q)
            && says(left, seen, fields, alike, p) && says(right, seen, fields, alike, q) {
        let (left, right, p, q) = choose|left: Seq<char>, right: Seq<char>, p: bool, q: bool|
            #[trigger] connects(text, left, " AND "@, right) && #[trigger] conjunction(truth, p, q)
                && says(left, seen, fields, alike, p) && says(right, seen, fields, alike, q);
        what_says_is_readable(left, seen, fields, alike, p);
        what_says_is_readable(right, seen, fields, alike, q);
    } else {
        let (left, right, p, q) = choose|left: Seq<char>, right: Seq<char>, p: bool, q: bool|
            #[trigger] connects(text, left, " OR "@, right) && #[trigger] disjunction(truth, p, q)
                && says(left, seen, fields, alike, p) && says(right, seen, fields, alike, q);
        what_says_is_readable(left, seen, fields, alike, p);
        what_says_is_readable(right, seen, fields, alike, q);
    }
}

/// The operator of a comparison.
spec fn operator(equal: bool) -> Seq<char> {
    if equal {
        " = "@
    } else {
        " != "@
    }
}

/// The connective of two conditions.
spec fn connective(both: bool) -> Seq<char> {
    if both {
        " AND "@
    } else {
        " OR "@
    }
}

/// What operators and connectives are made of.
proof fn operators_are_told_apart()
    ensures
        operator(true) == seq![' ', '=', ' '],
        operator(false) == seq![' ', '!', '=', ' '],
        connective(true) == seq![' ', 'A', 'N', 'D', ' '],
        connective(false) == seq![' ', 'O', 'R', ' '],
        "("@ == seq!['('],
        ")"@ == seq![')'],
        "inner."@.len() == 6,
        "inner."@[0] == 'i',
{
    reveal_strlit(" = ");
    reveal_strlit(" != ");
    reveal_strlit(" AND ");
    reveal_strlit(" OR ");
    reveal_strlit("(");
    reveal_strlit(")");
    reveal_strlit("inner.");
    assert(operator(true) =~= seq![' ', '=', ' ']);
    assert(operator(false) =~= seq![' ', '!', '=', ' ']);
    assert(connective(true) =~= seq![' ', 'A', 'N', 'D', ' ']);
    assert(connective(false) =~= seq![' ', 'O', 'R', ' ']);
    assert("("@ =~= seq!['(']);
    assert(")"@ =~= seq![')']);
}

/// A term starts with neither a blank nor a bracket.
proof fn term_has_a_first_letter(text: Seq<char>)
    requires
        is_term(text),
    ensures
        text.len() > 0,
        text[0] == 'i' || text[0] == '$',
{
    operators_are_told_apart();
    if names_field(text) {
        assert(text.take(6)[0] == text[0]);
    }
}

/// A comparison splits into its sides in one way, also where one starts as the other goes on.
proof fn comparison_splits_in_one_way(
    text: Seq<char>,
    l1: Seq<char>,
    e1: bool,
    r1: Seq<char>,
    longer: Seq<char>,
    l2: Seq<char>,
    e2: bool,
    r2: Seq<char>,
)
    requires
        compares(text, l1, operator(e1), r1),
        compares(longer, l2, operator(e2), r2),
        text.len() <= longer.len(),
        longer.take(text.len() as int) == text,
    ensures
        l1 == l2,
        e1 == e2,
        text.len() == longer.len() ==> r1 == r2,
        text.len() < longer.len() ==> longer[text.len() as int] != ' ' && longer[text.len() as int]
            != ')',
{
    operators_are_told_apart();
    assert forall|i: int| 0 <= i < text.len() implies text[i] == longer[i] by {
        assert(longer.take(text.len() as int)[i] == longer[i]);
    }
    let n1 = l1.len() as int;
    let n2 = l2.len() as int;
    assert(text[n1] == ' ');
    assert(longer[n2] == ' ');
    if n1 < n2 {
        assert(longer[n1] == l2[n1]);
        assert(false);
    }
    if n2 < n1 {
        assert(text[n2] == l1[n2]);
        assert(false);
    }
    assert(l1 =~= l2) by {
        assert forall|i: int| 0 <= i < n1 implies l1[i] == l2[i] by {
            assert(text[i] == l1[i]);
            assert(longer[i] == l2[i]);
        }
    }
    assert(text[n1 + 1] == operator(e1)[1]);
    assert(longer[n1 + 1] == operator(e2)[1]);
    assert(e1 == e2);
    let start = n1 + operator(e1).len();
    if text.len() == longer.len() {
        assert(r1 =~= r2) by {
            assert forall|i: int| 0 <= i < r1.len() implies r1[i] == r2[i] by {
                assert(text[start + i] == r1[i]);
                assert(longer[start + i] == r2[i]);
            }
        }
    } else {
        assert(longer[text.len() as int] == r2[text.len() - start]);
    }
}

/// How `text` can be read, outermost first.
spec fn is_comparison(text: Seq<char>, left: Seq<char>, equal: bool, right: Seq<char>) -> bool {
    compares(text, left, operator(equal), right)
}

/// How `text` can be read, outermost first.
spec fn is_connection(text: Seq<char>, left: Seq<char>, both: bool, right: Seq<char>) -> bool {
    connects(text, left, connective(both), right) && readable(left) && readable(right)
}

/// What can be read is a comparison, which starts with a letter, or a connection, which starts
/// with a bracket.
proof fn readable_in_one_of_two_ways(text: Seq<char>)
    requires
        readable(text),
    ensures
        text.len() > 0,
        text[0] != '(' ==> exists|l: Seq<char>, e: bool, r: Seq<char>|
            #[trigger] is_comparison(text, l, e, r),
        text[0] == '(' ==> exists|l: Seq<char>, b: bool, r: Seq<char>|
            #[trigger] is_connection(text, l, b, r),
{
    operators_are_told_apart();
    if exists|l: Seq<char>, r: Seq<char>| #[trigger] compares(text, l, " = "@, r) {
        let (l, r) = choose|l: Seq<char>, r: Seq<char>| #[trigger] compares(text, l, " = "@, r);
        term_has_a_first_letter(l);
        assert(text[0] == l[0]);
        assert(is_comparison(text, l, true, r));
    } else if exists|l: Seq<char>, r: Seq<char>| #[trigger] compares(text, l, " != "@, r) {
        let (l, r) = choose|l: Seq<char>, r: Seq<char>| #[trigger] compares(text, l, " != "@, r);
        term_has_a_first_letter(l);
        assert(text[0] == l[0]);
        assert(is_comparison(text, l, false, r));
    } else if exists|l: Seq<char>, r: Seq<char>|
        #[trigger] connects(text, l, " AND "@, r) && readable(l) && readable(r) {
        let (l, r) = choose|l: Seq<char>, r: Seq<char>|
            #[trigger] connects(text, l, " AND "@, r) && readable(l) && readable(r);
        assert(text[0] == '(');
        assert(is_connection(text, l, true, r));
    } else {
        let (l, r) = choose|l: Seq<char>, r: Seq<char>|
            #[trigger] connects(text, l, " OR "@, r) && readable(l) && readable(r);
        assert(text[0] == '(');
        assert(is_connection(text, l, false, r));
    }
}

/// A connection splits into its sides in one way, and none is the start of a longer one.
proof fn connection_splits_in_one_way(
    text: Seq<char>,
    l1: Seq<char>,
    b1: bool,
    r1: Seq<char>,
    longer: Seq<char>,
    l2: Seq<char>,
    b2: bool,
    r2: Seq<char>,
)
    requires
        is_connection(text, l1, b1, r1),
        is_connection(longer, l2, b2, r2),
        text.len() <= longer.len(),
        longer.take(text.len() as int) == text,
    ensures
        text == longer,
        l1 == l2,
        b1 == b2,
        r1 == r2,
    decreases longer.len(), 1int,
{
    operators_are_told_apart();
    assert forall|i: int| 0 <= i < text.len() implies text[i] == longer[i] by {
        assert(longer.take(text.len() as int)[i] == longer[i]);
    }
    let n1 = l1.len() as int;
    let n2 = l2.len() as int;
    assert(text[1 + n1] == ' ');
    assert(longer[1 + n2] == ' ');
    assert forall|i: int| 0 <= i < n1 && i < n2 implies l1[i] == l2[i] by {
        assert(text[1 + i] == l1[i]);
        assert(longer[1 + i] == l2[i]);
    }
    if n1 < n2 {
        assert(l2.take(n1) =~= l1);
        assert(longer[1 + n1] == l2[n1]);
        reading_ends_where_it_ends(l1, l2);
        assert(false);
    }
    if n2 < n1 {
        assert(l1.take(n2) =~= l2);
        assert(text[1 + n2] == l1[n2]);
        reading_ends_where_it_ends(l2, l1);
        assert(false);
    }
    assert(l1 =~= l2);
    assert(text[2 + n1] == connective(b1)[1]);
    assert(longer[2 + n1] == connective(b2)[1]);
    assert(b1 == b2);
    let start = 1 + n1 + connective(b1).len();
    let m1 = r1.len() as int;
    let m2 = r2.len() as int;
    assert forall|i: int| 0 <= i < m1 && i < m2 implies r1[i] == r2[i] by {
        assert(text[start + i] == r1[i]);
        assert(longer[start + i] == r2[i]);
    }
    if m1 < m2 {
        assert(r2.take(m1) =~= r1);
        assert(text[start + m1] == ')');
        assert(longer[start + m1] == r2[m1]);
        reading_ends_where_it_ends(r1, r2);
        assert(false);
    }
    assert(m1 == m2);
    assert(r1 =~= r2);
    assert(text =~= longer);
}

/// Where what can be read starts as something longer does that can be read, the longer one goes
/// on with neither a blank nor a closing bracket.
proof fn reading_ends_where_it_ends(text: Seq<char>, longer: Seq<char>)
    requires
        readable(text),
        readable(longer),
        text.len() < longer.len(),
        longer.take(text.len() as int) == text,
    ensures
        longer[text.len() as int] != ' ',
        longer[text.len() as int] != ')',
    decreases longer.len(), 2int,
{
    readable_in_one_of_two_ways(text);
    readable_in_one_of_two_ways(longer);
    assert(longer.take(text.len() as int)[0] == longer[0]);
    if text[0] == '(' {
        let (l1, b1, r1) = choose|l: Seq<char>, b: bool, r: Seq<char>|
            #[trigger] is_connection(text, l, b, r);
        let (l2, b2, r2) = choose|l: Seq<char>, b: bool, r: Seq<char>|
            #[trigger] is_connection(longer, l, b, r);
        connection_splits_in_one_way(text, l1, b1, r1, longer, l2, b2, r2);
    } else {
        let (l1, e1, r1) = choose|l: Seq<char>, e: bool, r: Seq<char>|
            #[trigger] is_comparison(text, l, e, r);
        let (l2, e2, r2) = choose|l: Seq<char>, e: bool, r: Seq<char>|
            #[trigger] is_comparison(longer, l, e, r);
        comparison_splits_in_one_way(text, l1, e1, r1, longer, l2, e2, r2);
    }
}

/// What a comparison reads as, or what two conditions read as that are connected.
spec fn truth_of(
    text: Seq<char>,
    seen: Map<Seq<char>, serde_json::Value>,
    fields: Map<Seq<char>, serde_json::Value>,
    alike: spec_fn(Option<serde_json::Value>, Option<serde_json::Value>) -> bool,
    truth: bool,
    left: Seq<char>,
    flag: bool,
    right: Seq<char>,
    p: bool,
    q: bool,
) -> bool {
    ||| is_comparison(text, left, flag, right) && truth == (flag == alike(
        term_value(left, seen, fields),
        term_value(right, seen, fields),
    ))
    ||| is_connection(text, left, flag, right) && says(left, seen, fields, alike, p) && says(
        right,
        seen,
        fields,
        alike,
        q,
    ) && truth == (if flag {
        p && q
    } else {
        p || q
    })
}

/// A reading of a clause, taken apart.
proof fn reading_taken_apart(
    text: Seq<char>,
    seen: Map<Seq<char>, serde_json::Value>,
    fields: Map<Seq<char>, serde_json::Value>,
    alike: spec_fn(Option<serde_json::Value>, Option<serde_json::Value>) -> bool,
    truth: bool,
) -> (parts: (Seq<char>, bool, Seq<char>, bool, bool))
    requires
        says(text, seen, fields, alike, truth),
    ensures
        truth_of(text, seen, fields, alike, truth, parts.0, parts.1, parts.2, parts.3, parts.4),
{
    if exists|left: Seq<char>, right: Seq<char>|
        #[trigger] compares(text, left, " = "@, right) && truth == alike(
            term_value(left, seen, fields),
            term_value(right, seen, fields),
        ) {
        let (l, r) = choose|left: Seq<char>, right: Seq<char>|
            #[trigger] compares(text, left, " = "@, right) && truth == alike(
                term_value(left, seen, fields),
                term_value(right, seen, fields),
            );
        (l, true, r, true, true)
    } else if exists|left: Seq<char>, right: Seq<char>|
        #[trigger] compares(text, left, " != "@, right) && truth == !alike(
            term_value(left, seen, fields),
            term_value(right, seen, fields),
        ) {
        let (l, r) = choose|left: Seq<char>, right: Seq<char>|
            #[trigger] compares(text, left, " != "@, right) && truth == !alike(
                term_value(left, seen, fields),
                term_value(right, seen, fields),
            );
        (l, false, r, true, true)
    } else if exists|left: Seq<char>, right: Seq<char>, p: bool, q: bool|
        #[trigger] connects(text, left, " AND "@, right) && #[trigger] conjunction(truth, p, q)
            && says(left, seen, fields, alike, p) && says(right, seen, fields, alike, q) {
        let (l, r, p, q) = choose|left: Seq<char>, right: Seq<char>, p: bool, q: bool|
            #[trigger] connects(text, left, " AND "@, right) && #[trigger] conjunction(truth, p, q)
                && says(left, seen, fields, alike, p) && says(right, seen, fields, alike, q);
        what_says_is_readable(l, seen, fields, alike, p);
        what_says_is_readable(r, seen, fields, alike, q);
        (l, true, r, p, q)
    } else {
        let (l, r, p, q) = choose|left: Seq<char>, right: Seq<char>, p: bool, q: bool|
            #[trigger] connects(text, left, " OR "@, right) && #[trigger] disjunction(truth, p, q)
                && says(left, seen, fields, alike, p) && says(right, seen, fields, alike, q);
        what_says_is_readable(l, seen, fields, alike, p);
        what_says_is_readable(r, seen, fields, alike, q);
        (l, false, r, p, q)
    }
}

/// A clause does not read both as true and as false on one document.
pub proof fn clause_has_one_reading(
    text: Seq<char>,
    seen: Map<Seq<char>, serde_json::Value>,
    fields: Map<Seq<char>, serde_json::Value>,
    alike: spec_fn(Option<serde_json::Value>, Option<serde_json::Value>) -> bool,
    truth: bool,
    other: bool,
)
    requires
        says(text, seen, fields, alike, truth),
        says(text, seen, fields, alike, other),
    ensures
        truth == other,
    decreases text.len(),
{
    let (l1, f1, r1, p1, q1) = reading_taken_apart(text, seen, fields, alike, truth);
    let (l2, f2, r2, p2, q2) = reading_taken_apart(text, seen, fields, alike, other);
    operators_are_told_apart();
    assert(text.take(text.len() as int) =~= text);
    if is_comparison(text, l1, f1, r1) {
        term_has_a_first_letter(l1);
        assert(text[0] == l1[0]);
    }
    if is_comparison(text, l2, f2, r2) {
        term_has_a_first_letter(l2);
        assert(text[0] == l2[0]);
    }
    if is_connection(text, l1, f1, r1) {
        assert(text[0] == '(');
    }
    if is_connection(text, l2, f2, r2) {
        assert(text[0] == '(');
    }
    if text[0] == '(' {
        connection_splits_in_one_way(text, l1, f1, r1, text, l2, f2, r2);
        clause_has_one_reading(l1, seen, fields, alike, p1, p2);
        clause_has_one_reading(r1, seen, fields, alike, q1, q2);
    } else {
        comparison_splits_in_one_way(text, l1, f1, r1, text, l2, f2, r2);
    }
}

/// A compiled condition says what the condition means: on every document its clause, with what
/// it binds, reads as true exactly if the condition holds, and as false exactly if it does not.
/// The fields have plain names, and no connective has literals on both sides.
pub proof fn compiled_condition_says_what_it_means(
    field_name: &str,
    expression: Expression,
    compiled: (Vec<(String, serde_json::Value)>, String),
    fields: Map<Seq<char>, serde_json::Value>,
    alike: spec_fn(Option<serde_json::Value>, Option<serde_json::Value>) -> bool,
    truth: bool,
)
    requires
        plainly_named(expression, field_name@),
        expression.literals_on_one_side(),
        call_ensures(compile_expression, (field_name, expression), compiled),
    ensures
        says(compiled.1@, variables(bound(compiled.0@)), fields, alike, truth) <==> truth == holds(
            expression,
            field_name@,
            fields,
            alike,
        ),
{
    let seen = variables(expression.binds());
    literals_are_named_distinctly(expression);
    assert forall|i: int| 0 <= i < expression.binds().len() implies field_value(
        seen,
        (#[trigger] expression.binds()[i]).0,
    ) == Some(expression.binds()[i].1) by {
        distinct_bindings_all_count(expression.binds(), i);
    }
    let meant = holds(expression, field_name@, fields, alike);
    clause_reads_as_it_holds(expression, field_name@, seen, fields, alike);
    if says(compiled.1@, seen, fields, alike, truth) {
        clause_has_one_reading(compiled.1@, seen, fields, alike, truth, meant);
    }
}

/// As their compiled clauses read, inequality is the negation of equality.
pub proof fn inequality_negates_equality(
    field_name: &str,
    lhs: Operand,
    rhs: Operand,
    equal: (Vec<(String, serde_json::Value)>, String),
    unequal: (Vec<(String, serde_json::Value)>, String),
    fields: Map<Seq<char>, serde_json::Value>,
    alike: spec_fn(Option<serde_json::Value>, Option<serde_json::Value>) -> bool,
    truth: bool,
)
    requires
        plain(field_name@),
        lhs matches Operand::Ident(ident) ==> plain(ident@),
        rhs matches Operand::Ident(ident) ==> plain(ident@),
        call_ensures(compile_expression, (field_name, Expression::Equals { lhs, rhs }), equal),
        call_ensures(compile_expression, (field_name, Expression::NotEquals { lhs, rhs }), unequal),
    ensures
        says(equal.1@, variables(bound(equal.0@)), fields, alike, truth) <==> says(
            unequal.1@,
            variables(bound(unequal.0@)),
            fields,
            alike,
            !truth,
        ),
{
    let equals = Expression::Equals { lhs, rhs };
    let differs = Expression::NotEquals { lhs, rhs };
    compiled_condition_says_what_it_means(field_name, equals, equal, fields, alike, truth);
    compiled_condition_says_what_it_means(field_name, differs, unequal, fields, alike, !truth);
}

} // verus!
