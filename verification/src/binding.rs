//! Named values that are sent along with a script.

use vstd::prelude::*;

verus! {

/// Declares `surrealdb::types::Datetime` to the verifier. A value of it is opaque.
#[verifier::external_type_specification]
#[verifier::external_body]
pub struct ExDatetime(surrealdb::types::Datetime);

/// A value that a script can name.
#[derive(Debug, PartialEq)]
pub enum Bound {
    Text(String),
    Json(serde_json::Value),
    /// A point in time, or none.
    Time(Option<surrealdb::types::Datetime>),
}

/// What a bound value is.
pub enum BoundView {
    Text(Seq<char>),
    Json(serde_json::Value),
    Time(Option<surrealdb::types::Datetime>),
}

impl View for Bound {
    type V = BoundView;

    open spec fn view(&self) -> BoundView {
        match *self {
            Bound::Text(text) => BoundView::Text(text@),
            Bound::Json(json) => BoundView::Json(json),
            Bound::Time(time) => BoundView::Time(time),
        }
    }
}

/// What some bindings bind, in order.
pub open spec fn bindings_view(bindings: Seq<(String, Bound)>) -> Seq<(Seq<char>, BoundView)> {
    bindings.map_values(|binding: (String, Bound)| (binding.0@, binding.1@))
}

/// The variables that a script sees under some bindings: where a name is bound more than
/// once, the last binding counts.
pub open spec fn variables<T>(bindings: Seq<(Seq<char>, T)>) -> Map<Seq<char>, T>
    decreases bindings.len(),
{
    if bindings.len() == 0 {
        Map::empty()
    } else {
        variables(bindings.drop_last()).insert(bindings.last().0, bindings.last().1)
    }
}

/// No name is bound twice.
pub open spec fn distinctly_named<T>(bindings: Seq<(Seq<char>, T)>) -> bool {
    forall|i: int, j: int|
        0 <= i < j < bindings.len() ==> (#[trigger] bindings[i]).0 != (#[trigger] bindings[j]).0
}

/// A binding whose name is not bound again after it is what the script sees under that name.
pub proof fn last_binding_counts<T>(bindings: Seq<(Seq<char>, T)>, i: int)
    requires
        0 <= i < bindings.len(),
        forall|j: int| i < j < bindings.len() ==> (#[trigger] bindings[j]).0 != bindings[i].0,
    ensures
        variables(bindings).contains_key(bindings[i].0),
        variables(bindings)[bindings[i].0] == bindings[i].1,
    decreases bindings.len(),
{
    if i < bindings.len() - 1 {
        last_binding_counts(bindings.drop_last(), i);
    }
}

/// Where no name is bound twice, the script sees every binding.
pub proof fn distinct_bindings_all_count<T>(bindings: Seq<(Seq<char>, T)>, i: int)
    requires
        distinctly_named(bindings),
        0 <= i < bindings.len(),
    ensures
        variables(bindings).contains_key(bindings[i].0),
        variables(bindings)[bindings[i].0] == bindings[i].1,
{
    last_binding_counts(bindings, i);
}

/// A script sees the names that are bound, and no others.
pub proof fn only_bound_names_are_seen<T>(bindings: Seq<(Seq<char>, T)>, name: Seq<char>)
    ensures
        variables(bindings).contains_key(name) <==> exists|i: int|
            0 <= i < bindings.len() && (#[trigger] bindings[i]).0 == name,
    decreases bindings.len(),
{
    if bindings.len() > 0 {
        let fewer = bindings.drop_last();
        only_bound_names_are_seen(fewer, name);
        if bindings.last().0 == name {
            assert(bindings[bindings.len() - 1].0 == name);
        } else {
            if variables(fewer).contains_key(name) {
                let i = choose|i: int| 0 <= i < fewer.len() && (#[trigger] fewer[i]).0 == name;
                assert(bindings[i].0 == name);
            }
            if exists|i: int| 0 <= i < bindings.len() && (#[trigger] bindings[i]).0 == name {
                let i = choose|i: int|
                    0 <= i < bindings.len() && (#[trigger] bindings[i]).0 == name;
                assert(fewer[i].0 == name);
            }
        }
    }
}

/// A binding binds what it holds, whole, under its own name and in its place.
pub proof fn bindings_bind_what_they_hold(bindings: Seq<(String, Bound)>, i: int)
    requires
        0 <= i < bindings.len(),
    ensures
        bindings_view(bindings).len() == bindings.len(),
        bindings_view(bindings)[i].0 == bindings[i].0@,
        bindings[i].1 matches Bound::Text(text) ==> bindings_view(bindings)[i].1
            == BoundView::Text(text@),
        bindings[i].1 matches Bound::Json(json) ==> bindings_view(bindings)[i].1
            == BoundView::Json(json),
        bindings[i].1 matches Bound::Time(time) ==> bindings_view(bindings)[i].1
            == BoundView::Time(time),
{
}

} // verus!
