//! Values that reach the database through their serialized form.

use surrealdb::types::{SerdeWrapper, SurrealValue};
use vstd::prelude::*;

use crate::error::{says_deserialization, WrappedError};

verus! {

/// Declares `surrealdb::types::Value` to the verifier. A value of it is opaque.
#[verifier::external_type_specification]
#[verifier::external_body]
pub struct ExDatabaseValue(surrealdb::types::Value);

/// What a value of the database holds, as far as it is told apart here.
pub enum Held {
    /// A string.
    Text(Seq<char>),
    /// A whole number that is stored as such.
    Number(int),
    /// A whole number that is stored as a decimal.
    Decimal(int),
    /// A truth value.
    Flag(bool),
    /// Null.
    Null,
    /// Anything else: a date, a record id, an array, an object and the like.
    Other,
}

/// What a value of the database holds.
pub uninterp spec fn held(value: surrealdb::types::Value) -> Held;

/// Calls `surrealdb::types::SerdeWrapper::into_value` on a string, which serializes to a
/// string of the database.
#[verifier::external_body]
fn store_text(text: String) -> (value: surrealdb::types::Value)
    ensures
        held(value) == Held::Text(text@),
{
    SerdeWrapper(text).into_value()
}

/// The error of `surrealdb::types::SerdeWrapper::from_value` for a string, on a value that is
/// none.
pub uninterp spec fn text_failure(value: surrealdb::types::Value) -> surrealdb::types::Error;

/// Calls `surrealdb::types::SerdeWrapper::from_value` for a string, which takes a string of the
/// database. Its error on anything else depends on the value alone, and says that a value could
/// not be deserialized.
#[verifier::external_body]
fn load_text(value: surrealdb::types::Value) -> (text: Result<String, WrappedError>)
    ensures
        text is Ok <==> held(value) is Text,
        text matches Ok(text) ==> held(value) == Held::Text(text@),
        text matches Err(error) ==> error.0 == text_failure(value) && says_deserialization(
            error.0,
        ),
{
    SerdeWrapper::<String>::from_value(value).map(|wrapper| wrapper.0).map_err(WrappedError)
}

/// Calls `surrealdb::types::SerdeWrapper::into_value` on a truth value, which serializes to a
/// truth value of the database.
#[verifier::external_body]
fn store_flag(flag: bool) -> (value: surrealdb::types::Value)
    ensures
        held(value) == Held::Flag(flag),
{
    SerdeWrapper(flag).into_value()
}

/// The error of `surrealdb::types::SerdeWrapper::from_value` for a truth value, on a value that is
/// none.
pub uninterp spec fn flag_failure(value: surrealdb::types::Value) -> surrealdb::types::Error;

/// Calls `surrealdb::types::SerdeWrapper::from_value` for a truth value, which takes a truth
/// value of the database. Its error on anything else depends on the value alone, and says that a
/// value could not be deserialized.
#[verifier::external_body]
fn load_flag(value: surrealdb::types::Value) -> (flag: Result<bool, WrappedError>)
    ensures
        flag is Ok <==> held(value) is Flag,
        flag matches Ok(flag) ==> held(value) == Held::Flag(flag),
        flag matches Err(error) ==> error.0 == flag_failure(value) && says_deserialization(
            error.0,
        ),
{
    SerdeWrapper::<bool>::from_value(value).map(|wrapper| wrapper.0).map_err(WrappedError)
}

/// Calls `surrealdb::types::SerdeWrapper::into_value` on the unit value, which serializes to null.
#[verifier::external_body]
fn store_unit(unit: ()) -> (value: surrealdb::types::Value)
    ensures
        held(value) is Null,
{
    SerdeWrapper(unit).into_value()
}

/// The error of `surrealdb::types::SerdeWrapper::from_value` for the unit value, on a value that is
/// none.
pub uninterp spec fn unit_failure(value: surrealdb::types::Value) -> surrealdb::types::Error;

/// Calls `surrealdb::types::SerdeWrapper::from_value` for the unit value, which takes null. Its
/// error on anything else depends on the value alone, and says that a value could not be
/// deserialized.
#[verifier::external_body]
fn load_unit(value: surrealdb::types::Value) -> (unit: Result<(), WrappedError>)
    ensures
        unit is Ok <==> held(value) is Null,
        unit matches Err(error) ==> error.0 == unit_failure(value) && says_deserialization(
            error.0,
        ),
{
    SerdeWrapper::<()>::from_value(value).map(|wrapper| wrapper.0).map_err(WrappedError)
}

/// A value that is converted by serializing it, for types that the database has no
/// conversion of its own for.
#[derive(Debug, PartialEq)]
pub struct Wrapper<T>(pub T);

impl<T> Wrapper<T> {
    /// Wraps a value.
    pub fn new(value: T) -> (wrapper: Wrapper<T>)
        ensures
            wrapper.0 == value,
    {
        Wrapper(value)
    }

    /// Wraps a value that was deserialized, or hands on the database's error.
    pub fn from_deserialized(deserialized: Result<T, WrappedError>) -> (wrapper: Result<
        Wrapper<T>,
        surrealdb::types::Error,
    >)
        ensures
            wrapper == (match deserialized {
                Ok(value) => Ok(Wrapper(value)),
                Err(error) => Err(error.0),
            }),
    {
        match deserialized {
            Ok(value) => Ok(Wrapper::new(value)),
            Err(error) => Err(surrealdb::types::Error::from(error)),
        }
    }
}

/// `read` is what reading a string from `value` gives: it, or an error where there is none.
pub open spec fn reads_text(
    value: surrealdb::types::Value,
    read: Result<Wrapper<String>, surrealdb::types::Error>,
) -> bool {
    &&& read is Ok <==> held(value) is Text
    &&& read matches Ok(wrapper) ==> held(value) == Held::Text(wrapper.0@)
    &&& read matches Err(error) ==> error == text_failure(value) && says_deserialization(error)
}

impl Wrapper<String> {
    /// Turns a string into one of the database.
    pub fn into_value(self) -> (value: surrealdb::types::Value)
        ensures
            held(value) == Held::Text(self.0@),
    {
        store_text(self.0)
    }

    /// Reads a string of the database. A value that is none is an error.
    pub fn from_value(value: surrealdb::types::Value) -> (read: Result<
        Wrapper<String>,
        surrealdb::types::Error,
    >)
        ensures
            reads_text(value, read),
    {
        Wrapper::from_deserialized(load_text(value))
    }
}

/// `read` is what reading a truth value from `value` gives: it, or an error where there is none.
pub open spec fn reads_flag(
    value: surrealdb::types::Value,
    read: Result<Wrapper<bool>, surrealdb::types::Error>,
) -> bool {
    &&& read is Ok <==> held(value) is Flag
    &&& read matches Ok(wrapper) ==> held(value) == Held::Flag(wrapper.0)
    &&& read matches Err(error) ==> error == flag_failure(value) && says_deserialization(error)
}

impl Wrapper<bool> {
    /// Turns a truth value into one of the database.
    pub fn into_value(self) -> (value: surrealdb::types::Value)
        ensures
            held(value) == Held::Flag(self.0),
    {
        store_flag(self.0)
    }

    /// Reads a truth value of the database. A value that is none is an error.
    pub fn from_value(value: surrealdb::types::Value) -> (read: Result<
        Wrapper<bool>,
        surrealdb::types::Error,
    >)
        ensures
            reads_flag(value, read),
    {
        Wrapper::from_deserialized(load_flag(value))
    }
}

/// `read` is what reading the unit value from `value` gives: it, or an error where there is none.
pub open spec fn reads_unit(
    value: surrealdb::types::Value,
    read: Result<Wrapper<()>, surrealdb::types::Error>,
) -> bool {
    &&& read is Ok <==> held(value) is Null
    &&& read matches Err(error) ==> error == unit_failure(value) && says_deserialization(error)
}

impl Wrapper<()> {
    /// Turns the unit value into null.
    pub fn into_value(self) -> (value: surrealdb::types::Value)
        ensures
            held(value) is Null,
    {
        store_unit(self.0)
    }

    /// Reads null as the unit value. Any other value is an error.
    pub fn from_value(value: surrealdb::types::Value) -> (read: Result<
        Wrapper<()>,
        surrealdb::types::Error,
    >)
        ensures
            reads_unit(value, read),
    {
        Wrapper::from_deserialized(load_unit(value))
    }
}

/// A string that was stored is read back.
pub proof fn text_survives_storage(
    text: Seq<char>,
    value: surrealdb::types::Value,
    read: Result<Wrapper<String>, surrealdb::types::Error>,
)
    requires
        held(value) == Held::Text(text),
        reads_text(value, read),
    ensures
        read matches Ok(wrapper) && wrapper.0@ == text,
{
}

/// A truth value that was stored is read back.
pub proof fn flag_survives_storage(
    flag: bool,
    value: surrealdb::types::Value,
    read: Result<Wrapper<bool>, surrealdb::types::Error>,
)
    requires
        held(value) == Held::Flag(flag),
        reads_flag(value, read),
    ensures
        read matches Ok(wrapper) && wrapper.0 == flag,
{
}

/// The unit value that was stored is read back.
pub proof fn unit_survives_storage(
    value: surrealdb::types::Value,
    read: Result<Wrapper<()>, surrealdb::types::Error>,
)
    requires
        held(value) is Null,
        reads_unit(value, read),
    ensures
        read is Ok,
{
}

/// Storing a string and reading it gives it back.
pub proof fn stored_text_is_given_back(
    wrapper: Wrapper<String>,
    value: surrealdb::types::Value,
    read: Result<Wrapper<String>, surrealdb::types::Error>,
)
    requires
        call_ensures(Wrapper::<String>::into_value, (wrapper,), value),
        call_ensures(Wrapper::<String>::from_value, (value,), read),
    ensures
        held(value) == Held::Text(wrapper.0@),
        read is Ok,
        read->Ok_0.0@ == wrapper.0@,
{
}

/// Storing a truth value and reading it gives it back.
pub proof fn stored_flag_is_given_back(
    wrapper: Wrapper<bool>,
    value: surrealdb::types::Value,
    read: Result<Wrapper<bool>, surrealdb::types::Error>,
)
    requires
        call_ensures(Wrapper::<bool>::into_value, (wrapper,), value),
        call_ensures(Wrapper::<bool>::from_value, (value,), read),
    ensures
        held(value) == Held::Flag(wrapper.0),
        read == Ok::<Wrapper<bool>, surrealdb::types::Error>(wrapper),
{
}

/// Storing the unit value and reading it succeeds.
pub proof fn stored_unit_is_given_back(
    wrapper: Wrapper<()>,
    value: surrealdb::types::Value,
    read: Result<Wrapper<()>, surrealdb::types::Error>,
)
    requires
        call_ensures(Wrapper::<()>::into_value, (wrapper,), value),
        call_ensures(Wrapper::<()>::from_value, (value,), read),
    ensures
        held(value) is Null,
        read is Ok,
{
}

/// A value is read as a string, as a truth value or as the unit value exactly where it is one,
/// and so as one of them at most. Where it is none, reading hands on the deserializer's error.
pub proof fn values_are_read_as_what_they_are(
    value: surrealdb::types::Value,
    text: Result<Wrapper<String>, surrealdb::types::Error>,
    flag: Result<Wrapper<bool>, surrealdb::types::Error>,
    unit: Result<Wrapper<()>, surrealdb::types::Error>,
)
    requires
        call_ensures(Wrapper::<String>::from_value, (value,), text),
        call_ensures(Wrapper::<bool>::from_value, (value,), flag),
        call_ensures(Wrapper::<()>::from_value, (value,), unit),
    ensures
        text is Ok <==> held(value) is Text,
        flag is Ok <==> held(value) is Flag,
        unit is Ok <==> held(value) is Null,
        text matches Ok(text) ==> held(value) == Held::Text(text.0@),
        flag matches Ok(flag) ==> held(value) == Held::Flag(flag.0),
        text matches Err(error) ==> error == text_failure(value),
        flag matches Err(error) ==> error == flag_failure(value),
        unit matches Err(error) ==> error == unit_failure(value),
{
}

/// Wrapping keeps the value, and wrapping what was deserialized keeps the value or the error.
pub proof fn wrapping_keeps_the_value<T>(
    value: T,
    wrapper: Wrapper<T>,
    deserialized: Result<T, WrappedError>,
    wrapped: Result<Wrapper<T>, surrealdb::types::Error>,
)
    requires
        call_ensures(Wrapper::<T>::new, (value,), wrapper),
        call_ensures(Wrapper::<T>::from_deserialized, (deserialized,), wrapped),
    ensures
        wrapper.0 == value,
        deserialized is Ok <==> wrapped is Ok,
        deserialized matches Ok(value) ==> wrapped->Ok_0.0 == value,
        deserialized matches Err(error) ==> wrapped->Err_0 == error.0,
{
}

} // verus!
