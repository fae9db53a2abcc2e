//! Whole numbers that reach the database through their serialized form.

use surrealdb::types::{SerdeWrapper, SurrealValue};
use vstd::prelude::*;

use crate::error::{says_deserialization, WrappedError};
use crate::wrapper::{held, Held, Wrapper};

verus! {

/// The whole number that a value of the database holds as such, if it is between `low` and `high`.
pub open spec fn number_within(value: surrealdb::types::Value, low: int, high: int) -> Option<int> {
    match held(value) {
        Held::Number(number) => if low <= number <= high {
            Some(number)
        } else {
            None
        },
        _ => None,
    }
}

/// Calls `surrealdb::types::SerdeWrapper::into_value` on an `i8`, which serializes to a whole
/// number of the database.
#[verifier::external_body]
fn store_i8(number: i8) -> (value: surrealdb::types::Value)
    ensures
        held(value) == Held::Number(number as int),
{
    SerdeWrapper(number).into_value()
}

/// The error of `surrealdb::types::SerdeWrapper::from_value` for an `i8`, on a value that is none.
pub uninterp spec fn i8_failure(value: surrealdb::types::Value) -> surrealdb::types::Error;

/// Calls `surrealdb::types::SerdeWrapper::from_value` for an `i8`, which takes a whole number of
/// the database that fits and is stored as such. Its error on anything else depends on the value
/// alone, and says that a value could not be deserialized.
#[verifier::external_body]
fn load_i8(value: surrealdb::types::Value) -> (number: Result<i8, WrappedError>)
    ensures
        number is Ok <==> number_within(value, i8::MIN as int, i8::MAX as int) is Some,
        number matches Ok(number) ==> held(value) == Held::Number(number as int),
        number matches Err(error) ==> error.0 == i8_failure(value) && says_deserialization(
            error.0,
        ),
{
    SerdeWrapper::<i8>::from_value(value).map(|wrapper| wrapper.0).map_err(WrappedError)
}

/// Calls `surrealdb::types::SerdeWrapper::into_value` on an `i16`, which serializes to a whole
/// number of the database.
#[verifier::external_body]
fn store_i16(number: i16) -> (value: surrealdb::types::Value)
    ensures
        held(value) == Held::Number(number as int),
{
    SerdeWrapper(number).into_value()
}

/// The error of `surrealdb::types::SerdeWrapper::from_value` for an `i16`, on a value that is none.
pub uninterp spec fn i16_failure(value: surrealdb::types::Value) -> surrealdb::types::Error;

/// Calls `surrealdb::types::SerdeWrapper::from_value` for an `i16`, which takes a whole number of
/// the database that fits and is stored as such. Its error on anything else depends on the value
/// alone, and says that a value could not be deserialized.
#[verifier::external_body]
fn load_i16(value: surrealdb::types::Value) -> (number: Result<i16, WrappedError>)
    ensures
        number is Ok <==> number_within(value, i16::MIN as int, i16::MAX as int) is Some,
        number matches Ok(number) ==> held(value) == Held::Number(number as int),
        number matches Err(error) ==> error.0 == i16_failure(value) && says_deserialization(
            error.0,
        ),
{
    SerdeWrapper::<i16>::from_value(value).map(|wrapper| wrapper.0).map_err(WrappedError)
}

/// Calls `surrealdb::types::SerdeWrapper::into_value` on an `i32`, which serializes to a whole
/// number of the database.
#[verifier::external_body]
fn store_i32(number: i32) -> (value: surrealdb::types::Value)
    ensures
        held(value) == Held::Number(number as int),
{
    SerdeWrapper(number).into_value()
}

/// The error of `surrealdb::types::SerdeWrapper::from_value` for an `i32`, on a value that is none.
pub uninterp spec fn i32_failure(value: surrealdb::types::Value) -> surrealdb::types::Error;

/// Calls `surrealdb::types::SerdeWrapper::from_value` for an `i32`, which takes a whole number of
/// the database that fits and is stored as such. Its error on anything else depends on the value
/// alone, and says that a value could not be deserialized.
#[verifier::external_body]
fn load_i32(value: surrealdb::types::Value) -> (number: Result<i32, WrappedError>)
    ensures
        number is Ok <==> number_within(value, i32::MIN as int, i32::MAX as int) is Some,
        number matches Ok(number) ==> held(value) == Held::Number(number as int),
        number matches Err(error) ==> error.0 == i32_failure(value) && says_deserialization(
            error.0,
        ),
{
    SerdeWrapper::<i32>::from_value(value).map(|wrapper| wrapper.0).map_err(WrappedError)
}

/// Calls `surrealdb::types::SerdeWrapper::into_value` on an `i64`, which serializes to a whole
/// number of the database.
#[verifier::external_body]
fn store_i64(number: i64) -> (value: surrealdb::types::Value)
    ensures
        held(value) == Held::Number(number as int),
{
    SerdeWrapper(number).into_value()
}

/// The error of `surrealdb::types::SerdeWrapper::from_value` for an `i64`, on a value that is none.
pub uninterp spec fn i64_failure(value: surrealdb::types::Value) -> surrealdb::types::Error;

/// Calls `surrealdb::types::SerdeWrapper::from_value` for an `i64`, which takes a whole number of
/// the database that fits and is stored as such. Its error on anything else depends on the value
/// alone, and says that a value could not be deserialized.
#[verifier::external_body]
fn load_i64(value: surrealdb::types::Value) -> (number: Result<i64, WrappedError>)
    ensures
        number is Ok <==> number_within(value, i64::MIN as int, i64::MAX as int) is Some,
        number matches Ok(number) ==> held(value) == Held::Number(number as int),
        number matches Err(error) ==> error.0 == i64_failure(value) && says_deserialization(
            error.0,
        ),
{
    SerdeWrapper::<i64>::from_value(value).map(|wrapper| wrapper.0).map_err(WrappedError)
}

/// Calls `surrealdb::types::SerdeWrapper::into_value` on a `u8`, which serializes to a whole
/// number of the database.
#[verifier::external_body]
fn store_u8(number: u8) -> (value: surrealdb::types::Value)
    ensures
        held(value) == Held::Number(number as int),
{
    SerdeWrapper(number).into_value()
}

/// The error of `surrealdb::types::SerdeWrapper::from_value` for a `u8`, on a value that is none.
pub uninterp spec fn u8_failure(value: surrealdb::types::Value) -> surrealdb::types::Error;

/// Calls `surrealdb::types::SerdeWrapper::from_value` for a `u8`, which takes a whole number of
/// the database that fits and is stored as such. Its error on anything else depends on the value
/// alone, and says that a value could not be deserialized.
#[verifier::external_body]
fn load_u8(value: surrealdb::types::Value) -> (number: Result<u8, WrappedError>)
    ensures
        number is Ok <==> number_within(value, u8::MIN as int, u8::MAX as int) is Some,
        number matches Ok(number) ==> held(value) == Held::Number(number as int),
        number matches Err(error) ==> error.0 == u8_failure(value) && says_deserialization(
            error.0,
        ),
{
    SerdeWrapper::<u8>::from_value(value).map(|wrapper| wrapper.0).map_err(WrappedError)
}

/// Calls `surrealdb::types::SerdeWrapper::into_value` on a `u16`, which serializes to a whole
/// number of the database.
#[verifier::external_body]
fn store_u16(number: u16) -> (value: surrealdb::types::Value)
    ensures
        held(value) == Held::Number(number as int),
{
    SerdeWrapper(number).into_value()
}

/// The error of `surrealdb::types::SerdeWrapper::from_value` for a `u16`, on a value that is none.
pub uninterp spec fn u16_failure(value: surrealdb::types::Value) -> surrealdb::types::Error;

/// Calls `surrealdb::types::SerdeWrapper::from_value` for a `u16`, which takes a whole number of
/// the database that fits and is stored as such. Its error on anything else depends on the value
/// alone, and says that a value could not be deserialized.
#[verifier::external_body]
fn load_u16(value: surrealdb::types::Value) -> (number: Result<u16, WrappedError>)
    ensures
        number is Ok <==> number_within(value, u16::MIN as int, u16::MAX as int) is Some,
        number matches Ok(number) ==> held(value) == Held::Number(number as int),
        number matches Err(error) ==> error.0 == u16_failure(value) && says_deserialization(
            error.0,
        ),
{
    SerdeWrapper::<u16>::from_value(value).map(|wrapper| wrapper.0).map_err(WrappedError)
}

/// Calls `surrealdb::types::SerdeWrapper::into_value` on a `u32`, which serializes to a whole
/// number of the database.
#[verifier::external_body]
fn store_u32(number: u32) -> (value: surrealdb::types::Value)
    ensures
        held(value) == Held::Number(number as int),
{
    SerdeWrapper(number).into_value()
}

/// The error of `surrealdb::types::SerdeWrapper::from_value` for a `u32`, on a value that is none.
pub uninterp spec fn u32_failure(value: surrealdb::types::Value) -> surrealdb::types::Error;

/// Calls `surrealdb::types::SerdeWrapper::from_value` for a `u32`, which takes a whole number of
/// the database that fits and is stored as such. Its error on anything else depends on the value
/// alone, and says that a value could not be deserialized.
#[verifier::external_body]
fn load_u32(value: surrealdb::types::Value) -> (number: Result<u32, WrappedError>)
    ensures
        number is Ok <==> number_within(value, u32::MIN as int, u32::MAX as int) is Some,
        number matches Ok(number) ==> held(value) == Held::Number(number as int),
        number matches Err(error) ==> error.0 == u32_failure(value) && says_deserialization(
            error.0,
        ),
{
    SerdeWrapper::<u32>::from_value(value).map(|wrapper| wrapper.0).map_err(WrappedError)
}

/// Calls `surrealdb::types::SerdeWrapper::into_value` on a `u64`, which serializes to a whole
/// number of the database where it fits an `i64`, and to the decimal of the same value where it does not.
#[verifier::external_body]
fn store_u64(number: u64) -> (value: surrealdb::types::Value)
    ensures
        held(value) == (if number <= i64::MAX {
            Held::Number(number as int)
        } else {
            Held::Decimal(number as int)
        }),
{
    SerdeWrapper(number).into_value()
}

/// The error of `surrealdb::types::SerdeWrapper::from_value` for a `u64`, on a value that is none.
pub uninterp spec fn u64_failure(value: surrealdb::types::Value) -> surrealdb::types::Error;

/// Calls `surrealdb::types::SerdeWrapper::from_value` for a `u64`, which takes a whole number of
/// the database that fits and is stored as such. Its error on anything else depends on the value
/// alone, and says that a value could not be deserialized.
#[verifier::external_body]
fn load_u64(value: surrealdb::types::Value) -> (number: Result<u64, WrappedError>)
    ensures
        number is Ok <==> number_within(value, u64::MIN as int, u64::MAX as int) is Some,
        number matches Ok(number) ==> held(value) == Held::Number(number as int),
        number matches Err(error) ==> error.0 == u64_failure(value) && says_deserialization(
            error.0,
        ),
{
    SerdeWrapper::<u64>::from_value(value).map(|wrapper| wrapper.0).map_err(WrappedError)
}

impl Wrapper<i8> {
    /// Turns an `i8` into a whole number of the database.
    pub fn into_value(self) -> (value: surrealdb::types::Value)
        ensures
            held(value) == Held::Number(self.0 as int),
    {
        store_i8(self.0)
    }

    /// Reads an `i8`. A value that is no whole number of the database, or does not fit, is an
    /// error.
    pub fn from_value(value: surrealdb::types::Value) -> (read: Result<
        Wrapper<i8>,
        surrealdb::types::Error,
    >)
        ensures
            read is Ok <==> number_within(value, i8::MIN as int, i8::MAX as int) is Some,
            read matches Ok(wrapper) ==> number_within(value, i8::MIN as int, i8::MAX as int)
                == Some(wrapper.0 as int),
            read matches Err(error) ==> error == i8_failure(value) && says_deserialization(
                error,
            ),
    {
        Wrapper::from_deserialized(load_i8(value))
    }
}

impl Wrapper<i16> {
    /// Turns an `i16` into a whole number of the database.
    pub fn into_value(self) -> (value: surrealdb::types::Value)
        ensures
            held(value) == Held::Number(self.0 as int),
    {
        store_i16(self.0)
    }

    /// Reads an `i16`. A value that is no whole number of the database, or does not fit, is an
    /// error.
    pub fn from_value(value: surrealdb::types::Value) -> (read: Result<
        Wrapper<i16>,
        surrealdb::types::Error,
    >)
        ensures
            read is Ok <==> number_within(value, i16::MIN as int, i16::MAX as int) is Some,
            read matches Ok(wrapper) ==> number_within(value, i16::MIN as int, i16::MAX as int)
                == Some(wrapper.0 as int),
            read matches Err(error) ==> error == i16_failure(value) && says_deserialization(
                error,
            ),
    {
        Wrapper::from_deserialized(load_i16(value))
    }
}

impl Wrapper<i32> {
    /// Turns an `i32` into a whole number of the database.
    pub fn into_value(self) -> (value: surrealdb::types::Value)
        ensures
            held(value) == Held::Number(self.0 as int),
    {
        store_i32(self.0)
    }

    /// Reads an `i32`. A value that is no whole number of the database, or does not fit, is an
    /// error.
    pub fn from_value(value: surrealdb::types::Value) -> (read: Result<
        Wrapper<i32>,
        surrealdb::types::Error,
    >)
        ensures
            read is Ok <==> number_within(value, i32::MIN as int, i32::MAX as int) is Some,
            read matches Ok(wrapper) ==> number_within(value, i32::MIN as int, i32::MAX as int)
                == Some(wrapper.0 as int),
            read matches Err(error) ==> error == i32_failure(value) && says_deserialization(
                error,
            ),
    {
        Wrapper::from_deserialized(load_i32(value))
    }
}

impl Wrapper<i64> {
    /// Turns an `i64` into a whole number of the database.
    pub fn into_value(self) -> (value: surrealdb::types::Value)
        ensures
            held(value) == Held::Number(self.0 as int),
    {
        store_i64(self.0)
    }

    /// Reads an `i64`. A value that is no whole number of the database, or does not fit, is an
    /// error.
    pub fn from_value(value: surrealdb::types::Value) -> (read: Result<
        Wrapper<i64>,
        surrealdb::types::Error,
    >)
        ensures
            read is Ok <==> number_within(value, i64::MIN as int, i64::MAX as int) is Some,
            read matches Ok(wrapper) ==> number_within(value, i64::MIN as int, i64::MAX as int)
                == Some(wrapper.0 as int),
            read matches Err(error) ==> error == i64_failure(value) && says_deserialization(
                error,
            ),
    {
        Wrapper::from_deserialized(load_i64(value))
    }
}

impl Wrapper<u8> {
    /// Turns a `u8` into a whole number of the database.
    pub fn into_value(self) -> (value: surrealdb::types::Value)
        ensures
            held(value) == Held::Number(self.0 as int),
    {
        store_u8(self.0)
    }

    /// Reads a `u8`. A value that is no whole number of the database, or does not fit, is an
    /// error.
    pub fn from_value(value: surrealdb::types::Value) -> (read: Result<
        Wrapper<u8>,
        surrealdb::types::Error,
    >)
        ensures
            read is Ok <==> number_within(value, u8::MIN as int, u8::MAX as int) is Some,
            read matches Ok(wrapper) ==> number_within(value, u8::MIN as int, u8::MAX as int)
                == Some(wrapper.0 as int),
            read matches Err(error) ==> error == u8_failure(value) && says_deserialization(
                error,
            ),
    {
        Wrapper::from_deserialized(load_u8(value))
    }
}

impl Wrapper<u16> {
    /// Turns a `u16` into a whole number of the database.
    pub fn into_value(self) -> (value: surrealdb::types::Value)
        ensures
            held(value) == Held::Number(self.0 as int),
    {
        store_u16(self.0)
    }

    /// Reads a `u16`. A value that is no whole number of the database, or does not fit, is an
    /// error.
    pub fn from_value(value: surrealdb::types::Value) -> (read: Result<
        Wrapper<u16>,
        surrealdb::types::Error,
    >)
        ensures
            read is Ok <==> number_within(value, u16::MIN as int, u16::MAX as int) is Some,
            read matches Ok(wrapper) ==> number_within(value, u16::MIN as int, u16::MAX as int)
                == Some(wrapper.0 as int),
            read matches Err(error) ==> error == u16_failure(value) && says_deserialization(
                error,
            ),
    {
        Wrapper::from_deserialized(load_u16(value))
    }
}

impl Wrapper<u32> {
    /// Turns a `u32` into a whole number of the database.
    pub fn into_value(self) -> (value: surrealdb::types::Value)
        ensures
            held(value) == Held::Number(self.0 as int),
    {
        store_u32(self.0)
    }

    /// Reads a `u32`. A value that is no whole number of the database, or does not fit, is an
    /// error.
    pub fn from_value(value: surrealdb::types::Value) -> (read: Result<
        Wrapper<u32>,
        surrealdb::types::Error,
    >)
        ensures
            read is Ok <==> number_within(value, u32::MIN as int, u32::MAX as int) is Some,
            read matches Ok(wrapper) ==> number_within(value, u32::MIN as int, u32::MAX as int)
                == Some(wrapper.0 as int),
            read matches Err(error) ==> error == u32_failure(value) && says_deserialization(
                error,
            ),
    {
        Wrapper::from_deserialized(load_u32(value))
    }
}

impl Wrapper<u64> {
    /// Turns a `u64` into a whole number of the database, or into a decimal where it is too large.
    pub fn into_value(self) -> (value: surrealdb::types::Value)
        ensures
            held(value) == (if self.0 <= i64::MAX {
                Held::Number(self.0 as int)
            } else {
                Held::Decimal(self.0 as int)
            }),
    {
        store_u64(self.0)
    }

    /// Reads a `u64`. A value that is no whole number of the database, or does not fit, is an
    /// error.
    pub fn from_value(value: surrealdb::types::Value) -> (read: Result<
        Wrapper<u64>,
        surrealdb::types::Error,
    >)
        ensures
            read is Ok <==> number_within(value, u64::MIN as int, u64::MAX as int) is Some,
            read matches Ok(wrapper) ==> number_within(value, u64::MIN as int, u64::MAX as int)
                == Some(wrapper.0 as int),
            read matches Err(error) ==> error == u64_failure(value) && says_deserialization(
                error,
            ),
    {
        Wrapper::from_deserialized(load_u64(value))
    }
}

/// A whole number that was stored is read back by every type that it fits, whichever type it
/// was stored from.
pub proof fn number_survives_storage(
    number: int,
    value: surrealdb::types::Value,
    low: int,
    high: int,
)
    requires
        held(value) == Held::Number(number),
    ensures
        low <= number <= high ==> number_within(value, low, high) == Some(number),
        !(low <= number <= high) ==> number_within(value, low, high) is None,
{
}

/// A whole number that was stored as a decimal is read back by no type of whole numbers.
pub proof fn decimal_is_not_read_back(
    number: int,
    value: surrealdb::types::Value,
    low: int,
    high: int,
)
    requires
        held(value) == Held::Decimal(number),
    ensures
        number_within(value, low, high) is None,
{
}

/// Storing an `i8` and reading it gives it back.
pub proof fn stored_i8_is_given_back(
    wrapper: Wrapper<i8>,
    value: surrealdb::types::Value,
    read: Result<Wrapper<i8>, surrealdb::types::Error>,
)
    requires
        call_ensures(Wrapper::<i8>::into_value, (wrapper,), value),
        call_ensures(Wrapper::<i8>::from_value, (value,), read),
    ensures
        held(value) == Held::Number(wrapper.0 as int),
        read == Ok::<Wrapper<i8>, surrealdb::types::Error>(wrapper),
{
}

/// An `i8` is read from a whole number that fits it and from nothing else: the number is then
/// the one that is held, and otherwise the deserializer's error is handed on.
pub proof fn i8_is_read_where_it_fits(
    value: surrealdb::types::Value,
    read: Result<Wrapper<i8>, surrealdb::types::Error>,
)
    requires
        call_ensures(Wrapper::<i8>::from_value, (value,), read),
    ensures
        read is Ok <==> held(value) is Number && i8::MIN <= held(value)->Number_0 <= i8::MAX,
        read matches Ok(wrapper) ==> wrapper.0 == held(value)->Number_0,
        read matches Err(error) ==> error == i8_failure(value),
{
}

/// Storing an `i16` and reading it gives it back.
pub proof fn stored_i16_is_given_back(
    wrapper: Wrapper<i16>,
    value: surrealdb::types::Value,
    read: Result<Wrapper<i16>, surrealdb::types::Error>,
)
    requires
        call_ensures(Wrapper::<i16>::into_value, (wrapper,), value),
        call_ensures(Wrapper::<i16>::from_value, (value,), read),
    ensures
        held(value) == Held::Number(wrapper.0 as int),
        read == Ok::<Wrapper<i16>, surrealdb::types::Error>(wrapper),
{
}

/// An `i16` is read from a whole number that fits it and from nothing else: the number is then
/// the one that is held, and otherwise the deserializer's error is handed on.
pub proof fn i16_is_read_where_it_fits(
    value: surrealdb::types::Value,
    read: Result<Wrapper<i16>, surrealdb::types::Error>,
)
    requires
        call_ensures(Wrapper::<i16>::from_value, (value,), read),
    ensures
        read is Ok <==> held(value) is Number && i16::MIN <= held(value)->Number_0 <= i16::MAX,
        read matches Ok(wrapper) ==> wrapper.0 == held(value)->Number_0,
        read matches Err(error) ==> error == i16_failure(value),
{
}

/// Storing an `i32` and reading it gives it back.
pub proof fn stored_i32_is_given_back(
    wrapper: Wrapper<i32>,
    value: surrealdb::types::Value,
    read: Result<Wrapper<i32>, surrealdb::types::Error>,
)
    requires
        call_ensures(Wrapper::<i32>::into_value, (wrapper,), value),
        call_ensures(Wrapper::<i32>::from_value, (value,), read),
    ensures
        held(value) == Held::Number(wrapper.0 as int),
        read == Ok::<Wrapper<i32>, surrealdb::types::Error>(wrapper),
{
}

/// An `i32` is read from a whole number that fits it and from nothing else: the number is then
/// the one that is held, and otherwise the deserializer's error is handed on.
pub proof fn i32_is_read_where_it_fits(
    value: surrealdb::types::Value,
    read: Result<Wrapper<i32>, surrealdb::types::Error>,
)
    requires
        call_ensures(Wrapper::<i32>::from_value, (value,), read),
    ensures
        read is Ok <==> held(value) is Number && i32::MIN <= held(value)->Number_0 <= i32::MAX,
        read matches Ok(wrapper) ==> wrapper.0 == held(value)->Number_0,
        read matches Err(error) ==> error == i32_failure(value),
{
}

/// Storing an `i64` and reading it gives it back.
pub proof fn stored_i64_is_given_back(
    wrapper: Wrapper<i64>,
    value: surrealdb::types::Value,
    read: Result<Wrapper<i64>, surrealdb::types::Error>,
)
    requires
        call_ensures(Wrapper::<i64>::into_value, (wrapper,), value),
        call_ensures(Wrapper::<i64>::from_value, (value,), read),
    ensures
        held(value) == Held::Number(wrapper.0 as int),
        read == Ok::<Wrapper<i64>, surrealdb::types::Error>(wrapper),
{
}

/// An `i64` is read from a whole number that fits it and from nothing else: the number is then
/// the one that is held, and otherwise the deserializer's error is handed on.
pub proof fn i64_is_read_where_it_fits(
    value: surrealdb::types::Value,
    read: Result<Wrapper<i64>, surrealdb::types::Error>,
)
    requires
        call_ensures(Wrapper::<i64>::from_value, (value,), read),
    ensures
        read is Ok <==> held(value) is Number && i64::MIN <= held(value)->Number_0 <= i64::MAX,
        read matches Ok(wrapper) ==> wrapper.0 == held(value)->Number_0,
        read matches Err(error) ==> error == i64_failure(value),
{
}

/// Storing a `u8` and reading it gives it back.
pub proof fn stored_u8_is_given_back(
    wrapper: Wrapper<u8>,
    value: surrealdb::types::Value,
    read: Result<Wrapper<u8>, surrealdb::types::Error>,
)
    requires
        call_ensures(Wrapper::<u8>::into_value, (wrapper,), value),
        call_ensures(Wrapper::<u8>::from_value, (value,), read),
    ensures
        held(value) == Held::Number(wrapper.0 as int),
        read == Ok::<Wrapper<u8>, surrealdb::types::Error>(wrapper),
{
}

/// A `u8` is read from a whole number that fits it and from nothing else: the number is then
/// the one that is held, and otherwise the deserializer's error is handed on.
pub proof fn u8_is_read_where_it_fits(
    value: surrealdb::types::Value,
    read: Result<Wrapper<u8>, surrealdb::types::Error>,
)
    requires
        call_ensures(Wrapper::<u8>::from_value, (value,), read),
    ensures
        read is Ok <==> held(value) is Number && u8::MIN <= held(value)->Number_0 <= u8::MAX,
        read matches Ok(wrapper) ==> wrapper.0 == held(value)->Number_0,
        read matches Err(error) ==> error == u8_failure(value),
{
}

/// Storing a `u16` and reading it gives it back.
pub proof fn stored_u16_is_given_back(
    wrapper: Wrapper<u16>,
    value: surrealdb::types::Value,
    read: Result<Wrapper<u16>, surrealdb::types::Error>,
)
    requires
        call_ensures(Wrapper::<u16>::into_value, (wrapper,), value),
        call_ensures(Wrapper::<u16>::from_value, (value,), read),
    ensures
        held(value) == Held::Number(wrapper.0 as int),
        read == Ok::<Wrapper<u16>, surrealdb::types::Error>(wrapper),
{
}

/// A `u16` is read from a whole number that fits it and from nothing else: the number is then
/// the one that is held, and otherwise the deserializer's error is handed on.
pub proof fn u16_is_read_where_it_fits(
    value: surrealdb::types::Value,
    read: Result<Wrapper<u16>, surrealdb::types::Error>,
)
    requires
        call_ensures(Wrapper::<u16>::from_value, (value,), read),
    ensures
        read is Ok <==> held(value) is Number && u16::MIN <= held(value)->Number_0 <= u16::MAX,
        read matches Ok(wrapper) ==> wrapper.0 == held(value)->Number_0,
        read matches Err(error) ==> error == u16_failure(value),
{
}

/// Storing a `u32` and reading it gives it back.
pub proof fn stored_u32_is_given_back(
    wrapper: Wrapper<u32>,
    value: surrealdb::types::Value,
    read: Result<Wrapper<u32>, surrealdb::types::Error>,
)
    requires
        call_ensures(Wrapper::<u32>::into_value, (wrapper,), value),
        call_ensures(Wrapper::<u32>::from_value, (value,), read),
    ensures
        held(value) == Held::Number(wrapper.0 as int),
        read == Ok::<Wrapper<u32>, surrealdb::types::Error>(wrapper),
{
}

/// A `u32` is read from a whole number that fits it and from nothing else: the number is then
/// the one that is held, and otherwise the deserializer's error is handed on.
pub proof fn u32_is_read_where_it_fits(
    value: surrealdb::types::Value,
    read: Result<Wrapper<u32>, surrealdb::types::Error>,
)
    requires
        call_ensures(Wrapper::<u32>::from_value, (value,), read),
    ensures
        read is Ok <==> held(value) is Number && u32::MIN <= held(value)->Number_0 <= u32::MAX,
        read matches Ok(wrapper) ==> wrapper.0 == held(value)->Number_0,
        read matches Err(error) ==> error == u32_failure(value),
{
}

/// Storing a `u64` and reading it gives it back where it fits an `i64`. A larger one is stored as
/// its decimal, which reading refuses.
pub proof fn stored_u64_is_given_back(
    wrapper: Wrapper<u64>,
    value: surrealdb::types::Value,
    read: Result<Wrapper<u64>, surrealdb::types::Error>,
)
    requires
        call_ensures(Wrapper::<u64>::into_value, (wrapper,), value),
        call_ensures(Wrapper::<u64>::from_value, (value,), read),
    ensures
        wrapper.0 <= i64::MAX ==> held(value) == Held::Number(wrapper.0 as int),
        wrapper.0 <= i64::MAX ==> read == Ok::<Wrapper<u64>, surrealdb::types::Error>(wrapper),
        wrapper.0 > i64::MAX ==> held(value) == Held::Decimal(wrapper.0 as int),
        wrapper.0 > i64::MAX ==> read is Err,
{
}

/// A `u64` is read from a whole number that fits it and from nothing else: the number is then
/// the one that is held, and otherwise the deserializer's error is handed on.
pub proof fn u64_is_read_where_it_fits(
    value: surrealdb::types::Value,
    read: Result<Wrapper<u64>, surrealdb::types::Error>,
)
    requires
        call_ensures(Wrapper::<u64>::from_value, (value,), read),
    ensures
        read is Ok <==> held(value) is Number && u64::MIN <= held(value)->Number_0 <= u64::MAX,
        read matches Ok(wrapper) ==> wrapper.0 == held(value)->Number_0,
        read matches Err(error) ==> error == u64_failure(value),
{
}

} // verus!
