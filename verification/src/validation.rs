//! Questions that validations ask about the other published documents of a kind.

use vstd::prelude::*;

use crate::binding::{bindings_view, last_binding_counts, variables, Bound, BoundView};
use crate::expr::{
    binding_name, bound, clause_does_not_depend_on_literals, compile_expression,
    literals_are_seen, names_tell_the_place, Expression,
};
use crate::plan::{reads_checked, Plan, Request, RequestView, Step, StepView};

verus! {

/// Counts the documents other than the excluded one that meet a condition.
pub open spec fn counting_matches(doc: Seq<char>, clause: Seq<char>) -> Seq<char> {
    "count(SELECT * FROM "@ + doc + " WHERE record::id(id) != $excl_id AND ("@ + clause + "))"@
}

/// Counts the documents other than the excluded one.
pub open spec fn counting_all(doc: Seq<char>) -> Seq<char> {
    "count(SELECT * FROM "@ + doc + " WHERE record::id(id) != $excl_id)"@
}

/// Writes the statement that counts the matches of a condition.
fn count_matches(doc: &str, clause: &str) -> (statement: String)
    ensures
        statement@ == counting_matches(doc@, clause@),
{
    "count(SELECT * FROM ".to_owned().concat(doc).concat(
        " WHERE record::id(id) != $excl_id AND (",
    ).concat(clause).concat("))")
}

/// Writes the statement that counts all documents but the excluded one.
fn count_all(doc: &str) -> (statement: String)
    ensures
        statement@ == counting_all(doc@),
{
    "count(SELECT * FROM ".to_owned().concat(doc).concat(" WHERE record::id(id) != $excl_id)")
}

/// What a question binds: the id of the excluded document, then what its condition binds.
pub open spec fn question_bindings(
    excl_id: Seq<char>,
    condition: Seq<(Seq<char>, serde_json::Value)>,
) -> Seq<(Seq<char>, BoundView)> {
    seq![("excl_id"@, BoundView::Text(excl_id))] + condition.map_values(
        |binding: (Seq<char>, serde_json::Value)| (binding.0, BoundView::Json(binding.1)),
    )
}

/// Binds the excluded document and what a condition binds.
fn bind_question(excl_id: &str, condition: Vec<(String, serde_json::Value)>) -> (bindings: Vec<
    (String, Bound),
>)
    ensures
        bindings_view(bindings@) == question_bindings(excl_id@, bound(condition@)),
{
    let mut bindings: Vec<(String, Bound)> = Vec::new();
    bindings.push(("excl_id".to_owned(), Bound::Text(excl_id.to_owned())));
    let ghost wanted = question_bindings(excl_id@, bound(condition@));
    assert(bindings_view(bindings@) =~= wanted.take(1));
    for binding in rest: condition
        invariant
            rest.seq() == condition@,
            wanted == question_bindings(excl_id@, bound(condition@)),
            bindings_view(bindings@) == wanted.take(rest.index() + 1),
    {
        let ghost i = rest.index();
        let ghost before = bindings_view(bindings@);
        assert(bound(condition@)[i] == (binding.0@, binding.1));
        bindings.push((binding.0, Bound::Json(binding.1)));
        assert(bindings_view(bindings@) =~= before.push(wanted[i + 1]));
        assert(wanted.take(i + 2) =~= before.push(wanted[i + 1]));
    }
    assert(wanted.take(condition@.len() as int + 1) =~= wanted);
    bindings
}

/// The statements that ask whether all other documents meet a condition.
pub open spec fn all_statements(doc: Seq<char>, clause: Seq<char>) -> Seq<Seq<char>> {
    seq![counting_matches(doc, clause), counting_all(doc)]
}

/// The steps that ask whether all other documents meet a condition.
pub open spec fn all_steps(
    doc: Seq<char>,
    excl_id: Seq<char>,
    field_name: Seq<char>,
    expression: Expression,
) -> Seq<StepView> {
    seq![
        StepView::Query(
            RequestView {
                text: crate::text::joined(
                    all_statements(doc, expression.clause(field_name)),
                    ";\n                    "@,
                ),
                bindings: question_bindings(excl_id, expression.binds()),
            },
        ),
        StepView::Check,
        StepView::Take(0),
        StepView::Take(1),
    ]
}

/// Asks whether all documents other than `excl_id` meet a condition. The replies are the
/// number of those that do and the number of all.
pub fn vctx_all(doc: &str, excl_id: &str, field_name: &str, expression: Expression) -> (plan: Plan)
    ensures
        plan@ == all_steps(doc@, excl_id@, field_name@, expression),
{
    let (condition, clause) = compile_expression(field_name, expression);
    let statements = vec![count_matches(doc, clause.as_str()), count_all(doc)];
    assert(crate::text::texts(statements@) =~= all_statements(doc@, clause@));
    let text = crate::text::join(&statements, ";\n                    ");
    let bindings = bind_question(excl_id, condition);
    let plan = Plan {
        steps: vec![
            Step::Query(Request { text, bindings }),
            Step::Check,
            Step::Take(0),
            Step::Take(1),
        ],
    };
    assert(plan@ =~= all_steps(doc@, excl_id@, field_name@, expression));
    plan
}

/// The steps that count the other documents that meet a condition.
pub open spec fn matches_steps(
    doc: Seq<char>,
    excl_id: Seq<char>,
    field_name: Seq<char>,
    expression: Expression,
) -> Seq<StepView> {
    seq![
        StepView::Query(
            RequestView {
                text: counting_matches(doc, expression.clause(field_name)),
                bindings: question_bindings(excl_id, expression.binds()),
            },
        ),
        StepView::Check,
        StepView::Take(0),
    ]
}

/// Plans the count of the other documents that meet a condition.
fn plan_matches(doc: &str, excl_id: &str, field_name: &str, expression: Expression) -> (plan: Plan)
    ensures
        plan@ == matches_steps(doc@, excl_id@, field_name@, expression),
{
    let (condition, clause) = compile_expression(field_name, expression);
    let text = count_matches(doc, clause.as_str());
    let bindings = bind_question(excl_id, condition);
    let plan = Plan {
        steps: vec![Step::Query(Request { text, bindings }), Step::Check, Step::Take(0)],
    };
    assert(plan@ =~= matches_steps(doc@, excl_id@, field_name@, expression));
    plan
}

/// Asks whether no document other than `excl_id` meets a condition. The reply is the number
/// of those that do.
pub fn vctx_none(doc: &str, excl_id: &str, field_name: &str, expression: Expression) -> (plan: Plan)
    ensures
        plan@ == matches_steps(doc@, excl_id@, field_name@, expression),
{
    plan_matches(doc, excl_id, field_name, expression)
}

/// Asks whether a document other than `excl_id` meets a condition. The reply is the number of
/// those that do.
pub fn vctx_any(doc: &str, excl_id: &str, field_name: &str, expression: Expression) -> (plan: Plan)
    ensures
        plan@ == matches_steps(doc@, excl_id@, field_name@, expression),
{
    plan_matches(doc, excl_id, field_name, expression)
}

/// All of `total` documents match where `matching` of them do.
pub open spec fn holds_of_all(matching: usize, total: usize) -> bool {
    matching == total
}

/// No document matches where `matching` of them do.
pub open spec fn holds_of_none(matching: usize) -> bool {
    matching == 0
}

/// Some document matches where `matching` of them do.
pub open spec fn holds_of_any(matching: usize) -> bool {
    matching > 0
}

/// Answers whether all documents match, from the replies to [`vctx_all`].
pub fn all_match(matching: usize, total: usize) -> (all: bool)
    ensures
        all == holds_of_all(matching, total),
        all <==> matching == total,
{
    matching == total
}

/// Answers whether no document matches, from the reply to [`vctx_none`].
pub fn none_match(matching: usize) -> (none: bool)
    ensures
        none == holds_of_none(matching),
        none <==> matching == 0,
{
    matching == 0
}

/// Answers whether some document matches, from the reply to [`vctx_any`].
pub fn any_match(matching: usize) -> (any: bool)
    ensures
        any == holds_of_any(matching),
        any <==> matching > 0,
{
    matching > 0
}

/// Of one count, either none or any holds; all and none hold together only of no documents.
pub proof fn answers_agree(matching: usize, total: usize)
    requires
        matching <= total,
    ensures
        holds_of_none(matching) <==> !holds_of_any(matching),
        holds_of_all(matching, total) && holds_of_none(matching) <==> total == 0,
        holds_of_all(matching, total) && total > 0 ==> holds_of_any(matching),
{
}

/// The variable `excl_id` of a question is the excluded document, whatever its condition
/// binds.
pub proof fn excluded_document_is_seen(excl_id: Seq<char>, expression: Expression)
    ensures
        variables(question_bindings(excl_id, expression.binds())).contains_key("excl_id"@),
        variables(question_bindings(excl_id, expression.binds()))["excl_id"@] == BoundView::Text(
            excl_id,
        ),
{
    let bindings = question_bindings(excl_id, expression.binds());
    assert forall|j: int| 0 < j < bindings.len() implies (#[trigger] bindings[j]).0
        != "excl_id"@ by {
        names_tell_the_place(expression, j - 1);
        let n = expression.place(j - 1);
        reveal_strlit("excl_id");
        reveal_strlit("b");
        assert(binding_name(n)[0] == 'b');
        assert("excl_id"@[0] == 'e');
    }
    last_binding_counts(bindings, 0);
}

/// What some bindings make of a condition's name is the same whether or not the excluded
/// document is bound before them.
proof fn condition_variables(
    excl_id: Seq<char>,
    condition: Seq<(Seq<char>, serde_json::Value)>,
    name: Seq<char>,
)
    requires
        variables(condition).contains_key(name),
    ensures
        variables(question_bindings(excl_id, condition)).contains_key(name),
        variables(question_bindings(excl_id, condition))[name] == BoundView::Json(
            variables(condition)[name],
        ),
    decreases condition.len(),
{
    let bindings = question_bindings(excl_id, condition);
    assert(bindings.drop_last() =~= question_bindings(excl_id, condition.drop_last()));
    if name != condition.last().0 {
        condition_variables(excl_id, condition.drop_last(), name);
    }
}

/// Where no connective of a question's condition has literals on both sides, the name given to
/// each literal stands for that literal.
pub proof fn question_literals_are_seen(excl_id: Seq<char>, expression: Expression, i: int)
    requires
        expression.literals_on_one_side(),
        0 <= i < expression.literals().len(),
    ensures
        ({
            let seen = variables(question_bindings(excl_id, expression.binds()));
            let name = expression.binds()[i].0;
            seen.contains_key(name) && seen[name] == BoundView::Json(expression.literals()[i])
        }),
{
    literals_are_seen(expression, i);
    condition_variables(excl_id, expression.binds(), expression.binds()[i].0);
}

/// The script of a question depends neither on the excluded document nor on the literals of
/// its condition.
pub proof fn question_script_is_fixed(
    doc: Seq<char>,
    excl_id: Seq<char>,
    other_excl_id: Seq<char>,
    field_name: Seq<char>,
    expression: Expression,
    other: Expression,
)
    requires
        expression.same_form(other),
    ensures
        all_steps(doc, excl_id, field_name, expression)[0]->Query_0.text == all_steps(
            doc,
            other_excl_id,
            field_name,
            other,
        )[0]->Query_0.text,
        matches_steps(doc, excl_id, field_name, expression)[0]->Query_0.text == matches_steps(
            doc,
            other_excl_id,
            field_name,
            other,
        )[0]->Query_0.text,
{
    clause_does_not_depend_on_literals(expression, other, field_name);
}

/// No question reads an unchecked reply.
pub proof fn questions_check_first(
    doc: Seq<char>,
    excl_id: Seq<char>,
    field_name: Seq<char>,
    expression: Expression,
)
    ensures
        reads_checked(all_steps(doc, excl_id, field_name, expression)),
        reads_checked(matches_steps(doc, excl_id, field_name, expression)),
{
    assert(all_steps(doc, excl_id, field_name, expression)[1] is Check);
    assert(matches_steps(doc, excl_id, field_name, expression)[1] is Check);
}

/// Asking of all documents sends the compiled condition with what it binds, and the excluded
/// document. The first reply is the number of the others that meet it, the second the number of
/// all others.
pub proof fn question_of_all_is_asked(
    doc: &str,
    excl_id: &str,
    field_name: &str,
    expression: Expression,
    compiled: (Vec<(String, serde_json::Value)>, String),
    plan: Plan,
)
    requires
        call_ensures(compile_expression, (field_name, expression), compiled),
        call_ensures(vctx_all, (doc, excl_id, field_name, expression), plan),
    ensures
        plan@.len() == 4,
        plan@[0] is Query,
        plan@[0]->Query_0.text == "count(SELECT * FROM "@ + doc@
            + " WHERE record::id(id) != $excl_id AND ("@ + compiled.1@ + "))"@
            + ";\n                    "@ + "count(SELECT * FROM "@ + doc@
            + " WHERE record::id(id) != $excl_id)"@,
        plan@[0]->Query_0.bindings.len() == compiled.0@.len() + 1,
        plan@[0]->Query_0.bindings[0] == ("excl_id"@, BoundView::Text(excl_id@)),
        forall|i: int|
            0 <= i < compiled.0@.len() ==> #[trigger] plan@[0]->Query_0.bindings[i + 1] == (
                compiled.0@[i].0@,
                BoundView::Json(compiled.0@[i].1),
            ),
        plan@[1] is Check,
        plan@[2] == StepView::Take(0),
        plan@[3] == StepView::Take(1),
{
    let bindings = plan@[0]->Query_0.bindings;
    let condition = bound(compiled.0@);
    assert(condition == expression.binds());
    assert forall|i: int| 0 <= i < compiled.0@.len() implies #[trigger] bindings[i + 1] == (
        compiled.0@[i].0@,
        BoundView::Json(compiled.0@[i].1),
    ) by {
        assert(condition[i] == (compiled.0@[i].0@, compiled.0@[i].1));
    }
    let clause = compiled.1@;
    let statements = all_statements(doc@, clause);
    assert(statements.drop_last() =~= seq![statements[0]]);
    reveal_with_fuel(crate::text::joined, 3);
    assert(plan@[0]->Query_0.text =~= "count(SELECT * FROM "@ + doc@
        + " WHERE record::id(id) != $excl_id AND ("@ + clause + "))"@
        + ";\n                    "@ + "count(SELECT * FROM "@ + doc@
        + " WHERE record::id(id) != $excl_id)"@);
}

/// Asking of none of the documents sends the compiled condition with what it binds, and the
/// excluded document. The reply is the number of the others that meet it.
pub proof fn question_of_none_is_asked(
    doc: &str,
    excl_id: &str,
    field_name: &str,
    expression: Expression,
    compiled: (Vec<(String, serde_json::Value)>, String),
    plan: Plan,
)
    requires
        call_ensures(compile_expression, (field_name, expression), compiled),
        call_ensures(vctx_none, (doc, excl_id, field_name, expression), plan),
    ensures
        plan@.len() == 3,
        plan@[0] is Query,
        plan@[0]->Query_0.text == "count(SELECT * FROM "@ + doc@
            + " WHERE record::id(id) != $excl_id AND ("@ + compiled.1@ + "))"@,
        plan@[0]->Query_0.bindings.len() == compiled.0@.len() + 1,
        plan@[0]->Query_0.bindings[0] == ("excl_id"@, BoundView::Text(excl_id@)),
        forall|i: int|
            0 <= i < compiled.0@.len() ==> #[trigger] plan@[0]->Query_0.bindings[i + 1] == (
                compiled.0@[i].0@,
                BoundView::Json(compiled.0@[i].1),
            ),
        plan@[1] is Check,
        plan@[2] == StepView::Take(0),
{
    let bindings = plan@[0]->Query_0.bindings;
    let condition = bound(compiled.0@);
    assert(condition == expression.binds());
    assert forall|i: int| 0 <= i < compiled.0@.len() implies #[trigger] bindings[i + 1] == (
        compiled.0@[i].0@,
        BoundView::Json(compiled.0@[i].1),
    ) by {
        assert(condition[i] == (compiled.0@[i].0@, compiled.0@[i].1));
    }
}

/// Asking of any of the documents sends the compiled condition with what it binds, and the
/// excluded document. The reply is the number of the others that meet it.
pub proof fn question_of_any_is_asked(
    doc: &str,
    excl_id: &str,
    field_name: &str,
    expression: Expression,
    compiled: (Vec<(String, serde_json::Value)>, String),
    plan: Plan,
)
    requires
        call_ensures(compile_expression, (field_name, expression), compiled),
        call_ensures(vctx_any, (doc, excl_id, field_name, expression), plan),
    ensures
        plan@.len() == 3,
        plan@[0] is Query,
        plan@[0]->Query_0.text == "count(SELECT * FROM "@ + doc@
            + " WHERE record::id(id) != $excl_id AND ("@ + compiled.1@ + "))"@,
        plan@[0]->Query_0.bindings.len() == compiled.0@.len() + 1,
        plan@[0]->Query_0.bindings[0] == ("excl_id"@, BoundView::Text(excl_id@)),
        forall|i: int|
            0 <= i < compiled.0@.len() ==> #[trigger] plan@[0]->Query_0.bindings[i + 1] == (
                compiled.0@[i].0@,
                BoundView::Json(compiled.0@[i].1),
            ),
        plan@[1] is Check,
        plan@[2] == StepView::Take(0),
{
    let bindings = plan@[0]->Query_0.bindings;
    let condition = bound(compiled.0@);
    assert(condition == expression.binds());
    assert forall|i: int| 0 <= i < compiled.0@.len() implies #[trigger] bindings[i + 1] == (
        compiled.0@[i].0@,
        BoundView::Json(compiled.0@[i].1),
    ) by {
        assert(condition[i] == (compiled.0@[i].0@, compiled.0@[i].1));
    }
}

/// How many of some documents meet a condition.
pub open spec fn number_met(met: Seq<bool>) -> nat
    decreases met.len(),
{
    if met.len() == 0 {
        0
    } else {
        number_met(met.drop_last()) + (if met.last() {
            1nat
        } else {
            0
        })
    }
}

/// As many documents meet a condition as there are exactly if each does, and none exactly if
/// each does not.
proof fn number_met_tells(met: Seq<bool>)
    ensures
        number_met(met) <= met.len(),
        number_met(met) == met.len() <==> forall|i: int| 0 <= i < met.len() ==> #[trigger] met[i],
        number_met(met) == 0 <==> forall|i: int| 0 <= i < met.len() ==> !#[trigger] met[i],
    decreases met.len(),
{
    if met.len() > 0 {
        let fewer = met.drop_last();
        number_met_tells(fewer);
        assert(forall|i: int| 0 <= i < fewer.len() ==> fewer[i] == met[i]);
        if forall|i: int| 0 <= i < met.len() ==> #[trigger] met[i] {
            assert(met[met.len() - 1]);
            assert(forall|i: int| 0 <= i < fewer.len() ==> #[trigger] fewer[i]);
        }
        if forall|i: int| 0 <= i < met.len() ==> !#[trigger] met[i] {
            assert(!met[met.len() - 1]);
            assert(forall|i: int| 0 <= i < fewer.len() ==> !#[trigger] fewer[i]);
        }
        if number_met(met) == met.len() {
            assert forall|i: int| 0 <= i < met.len() implies #[trigger] met[i] by {
                if i < fewer.len() {
                    assert(fewer[i]);
                }
            }
        }
        if number_met(met) == 0 {
            assert forall|i: int| 0 <= i < met.len() implies !#[trigger] met[i] by {
                if i < fewer.len() {
                    assert(!fewer[i]);
                }
            }
        }
    }
}

/// From the number of the other documents that meet a condition, and that of all of them, all is
/// answered exactly if each meets it, none exactly if no one does and any exactly if one does.
pub proof fn counts_answer_the_questions(
    met: Seq<bool>,
    matching: usize,
    total: usize,
    all: bool,
    none: bool,
    any: bool,
)
    requires
        matching == number_met(met),
        total == met.len(),
        call_ensures(all_match, (matching, total), all),
        call_ensures(none_match, (matching,), none),
        call_ensures(any_match, (matching,), any),
    ensures
        all <==> forall|i: int| 0 <= i < met.len() ==> #[trigger] met[i],
        none <==> forall|i: int| 0 <= i < met.len() ==> !#[trigger] met[i],
        any <==> exists|i: int| 0 <= i < met.len() && #[trigger] met[i],
{
    number_met_tells(met);
}

} // verus!
