//! Errors of the database, and what they mean for an authentication.

use surrealdb::types::{
    AuthError, ErrorDetails as Details, NotAllowedError, SerializationError as Side,
};
use vstd::prelude::*;

verus! {

/// Declares `surrealdb::types::Error` to the verifier. A value of it is opaque.
#[verifier::external_type_specification]
#[verifier::external_body]
pub struct ExDatabaseError(surrealdb::types::Error);

/// Which side of a conversion failed.
#[derive(Clone, Copy, Debug, PartialEq, Eq, Structural)]
pub enum Conversion {
    Serialization,
    Deserialization,
}

/// The kinds of error that this crate tells apart.
#[derive(Clone, Copy, Debug, PartialEq, Eq, Structural)]
pub enum ErrorKind {
    /// A malformed request.
    Validation,
    /// Wrong credentials.
    InvalidAuth,
    /// A token that has expired.
    TokenExpired,
    /// A session that has expired.
    SessionExpired,
    /// A value that could not be converted.
    Conversion(Option<Conversion>),
    /// An unexpected error.
    Internal,
    /// Any other error.
    Other,
}

/// What `surrealdb::types::Error::message` returns.
pub uninterp spec fn error_message(error: surrealdb::types::Error) -> Seq<char>;

/// The kind that `surrealdb::types::Error::details` tells.
pub uninterp spec fn error_kind(error: surrealdb::types::Error) -> ErrorKind;

/// What `surrealdb::types::Error::serialization` makes of a message and the side that failed.
pub uninterp spec fn serialization_error(
    message: Seq<char>,
    side: Option<Conversion>,
) -> surrealdb::types::Error;

/// The error says that a value could not be deserialized.
pub open spec fn says_deserialization(error: surrealdb::types::Error) -> bool {
    error_kind(error) == ErrorKind::Conversion(Some(Conversion::Deserialization))
}

/// `surrealdb::types::Error::message` returns the message that the error holds.
pub assume_specification[ surrealdb::types::Error::message ](
    error: &surrealdb::types::Error,
) -> (message: &str)
    ensures
        message@ == error_message(*error),
;

/// Calls `surrealdb::types::Error::details` and tells its variants apart: those that a
/// decision depends on one by one, the rest as `Other`.
#[verifier::external_body]
pub(crate) fn kind_of(error: &surrealdb::types::Error) -> (kind: ErrorKind)
    ensures
        kind == error_kind(*error),
{
    match error.details() {
        Details::Validation(_) => ErrorKind::Validation,
        Details::NotAllowed(Some(NotAllowedError::Auth(auth))) => match auth {
            AuthError::InvalidAuth => ErrorKind::InvalidAuth,
            AuthError::TokenExpired => ErrorKind::TokenExpired,
            AuthError::SessionExpired => ErrorKind::SessionExpired,
            _ => ErrorKind::Other,
        },
        Details::Serialization(None) => ErrorKind::Conversion(None),
        Details::Serialization(Some(Side::Serialization)) => ErrorKind::Conversion(Some(Conversion::Serialization)),
        Details::Serialization(Some(Side::Deserialization)) => ErrorKind::Conversion(Some(Conversion::Deserialization)),
        Details::Internal => ErrorKind::Internal,
        _ => ErrorKind::Other,
    }
}

/// Calls `surrealdb::types::Error::serialization`, which makes an error of a failed conversion
/// with the message and the details that it is given, and nothing that does not follow from them.
#[verifier::external_body]
fn conversion_error(message: String, side: Option<Conversion>) -> (error: surrealdb::types::Error)
    ensures
        error == serialization_error(message@, side),
        error_message(error) == message@,
        error_kind(error) == ErrorKind::Conversion(side),
{
    let details = match side {
        None => None,
        Some(Conversion::Serialization) => Some(Side::Serialization),
        Some(Conversion::Deserialization) => Some(Side::Deserialization),
    };
    surrealdb::types::Error::serialization(message, details)
}

/// An error of the database in the hands of a serializer.
#[derive(Debug, PartialEq)]
pub struct WrappedError(pub surrealdb::types::Error);

impl WrappedError {
    /// An error of a failed conversion.
    pub fn serialization(message: String, details: Option<Conversion>) -> (error: WrappedError)
        ensures
            error.0 == serialization_error(message@, details),
            error_message(error.0) == message@,
            error_kind(error.0) == ErrorKind::Conversion(details),
    {
        WrappedError(conversion_error(message, details))
    }

    /// The message of the error.
    pub fn message(&self) -> (message: String)
        ensures
            message@ == error_message(self.0),
    {
        self.0.message().to_owned()
    }
}

impl From<WrappedError> for surrealdb::types::Error {
    fn from(value: WrappedError) -> (error: surrealdb::types::Error) {
        value.0
    }
}

impl vstd::std_specs::convert::FromSpecImpl<WrappedError> for surrealdb::types::Error {
    open spec fn obeys_from_spec() -> bool {
        true
    }

    open spec fn from_spec(value: WrappedError) -> surrealdb::types::Error {
        value.0
    }
}

/// Why a user could not be authenticated.
#[derive(Debug, PartialEq)]
pub enum AuthenticationError<E> {
    /// The token is not, or no longer, good.
    BadToken,
    /// The credentials are not those of a user.
    BadCredentials,
    /// The database failed.
    Database(E),
}

/// An error of this kind, with this message, rejects a token.
pub open spec fn rejects_token(kind: ErrorKind, message: Seq<char>) -> bool {
    match kind {
        ErrorKind::Validation => true,
        ErrorKind::InvalidAuth => true,
        ErrorKind::TokenExpired => true,
        ErrorKind::SessionExpired => true,
        ErrorKind::Internal => message == "InvalidToken"@,
        _ => false,
    }
}

/// An error of this kind rejects credentials.
pub open spec fn rejects_credentials(kind: ErrorKind) -> bool {
    match kind {
        ErrorKind::Validation => true,
        ErrorKind::InvalidAuth => true,
        _ => false,
    }
}

/// Decides whether an error rejects a token.
pub fn is_bad_token(kind: ErrorKind, message: &str) -> (bad: bool)
    ensures
        bad == rejects_token(kind, message@),
        bad <==> kind is Validation || kind is InvalidAuth || kind is TokenExpired
            || kind is SessionExpired || (kind is Internal && message@ == "InvalidToken"@),
{
    match kind {
        ErrorKind::Validation => true,
        ErrorKind::InvalidAuth => true,
        ErrorKind::TokenExpired => true,
        ErrorKind::SessionExpired => true,
        ErrorKind::Internal => message.to_owned() == "InvalidToken".to_owned(),
        _ => false,
    }
}

/// Decides whether an error rejects credentials.
pub fn is_bad_credentials(kind: ErrorKind) -> (bad: bool)
    ensures
        bad == rejects_credentials(kind),
        bad <==> kind is Validation || kind is InvalidAuth,
{
    match kind {
        ErrorKind::Validation => true,
        ErrorKind::InvalidAuth => true,
        _ => false,
    }
}

/// What a failed authentication with a token means.
pub open spec fn token_failure(error: surrealdb::types::Error) -> AuthenticationError<
    surrealdb::types::Error,
> {
    if rejects_token(error_kind(error), error_message(error)) {
        AuthenticationError::BadToken
    } else {
        AuthenticationError::Database(error)
    }
}

/// What a failed sign-in means.
pub open spec fn signin_failure(error: surrealdb::types::Error) -> AuthenticationError<
    surrealdb::types::Error,
> {
    if rejects_credentials(error_kind(error)) {
        AuthenticationError::BadCredentials
    } else {
        AuthenticationError::Database(error)
    }
}

/// Tells what a failed authentication with a token means.
pub fn explain_token_failure(error: surrealdb::types::Error) -> (failure: AuthenticationError<
    surrealdb::types::Error,
>)
    ensures
        failure == token_failure(error),
        failure is BadToken || failure == AuthenticationError::Database(error),
{
    if is_bad_token(kind_of(&error), error.message()) {
        AuthenticationError::BadToken
    } else {
        AuthenticationError::Database(error)
    }
}

/// Tells what a failed sign-in means.
pub fn explain_signin_failure(error: surrealdb::types::Error) -> (failure: AuthenticationError<
    surrealdb::types::Error,
>)
    ensures
        failure == signin_failure(error),
        failure is BadCredentials || failure == AuthenticationError::Database(error),
{
    if is_bad_credentials(kind_of(&error)) {
        AuthenticationError::BadCredentials
    } else {
        AuthenticationError::Database(error)
    }
}

/// An error is blamed on the token only when authenticating and on the credentials only when
/// signing in; one that is blamed on neither is handed on as it is.
pub proof fn blame_is_placed(error: surrealdb::types::Error)
    ensures
        !(token_failure(error) is BadCredentials),
        !(signin_failure(error) is BadToken),
        token_failure(error) matches AuthenticationError::Database(handed_on) ==> handed_on
            == error,
        signin_failure(error) matches AuthenticationError::Database(handed_on) ==> handed_on
            == error,
{
}

/// Whatever rejects credentials rejects a token as well.
pub proof fn bad_credentials_are_bad_tokens(error: surrealdb::types::Error)
    ensures
        signin_failure(error) is BadCredentials ==> token_failure(error) is BadToken,
{
}

/// A token is rejected by a malformed request, by wrong credentials, by an expired token or
/// session, and by the unexpected error that bears the name of an invalid token. Any other error
/// is the database's, and is handed on as it is.
pub proof fn token_is_rejected_for_these(
    error: surrealdb::types::Error,
    failure: AuthenticationError<surrealdb::types::Error>,
)
    requires
        call_ensures(explain_token_failure, (error,), failure),
    ensures
        failure is BadToken <==> {
            ||| error_kind(error) is Validation
            ||| error_kind(error) is InvalidAuth
            ||| error_kind(error) is TokenExpired
            ||| error_kind(error) is SessionExpired
            ||| error_kind(error) is Internal && error_message(error) == "InvalidToken"@
        },
        failure !is BadToken ==> failure == AuthenticationError::Database(error),
{
}

/// Credentials are rejected by a malformed request and by wrong credentials. Any other error is
/// the database's, and is handed on as it is.
pub proof fn credentials_are_rejected_for_these(
    error: surrealdb::types::Error,
    failure: AuthenticationError<surrealdb::types::Error>,
)
    requires
        call_ensures(explain_signin_failure, (error,), failure),
    ensures
        failure is BadCredentials <==> error_kind(error) is Validation || error_kind(
            error,
        ) is InvalidAuth,
        failure !is BadCredentials ==> failure == AuthenticationError::Database(error),
{
}

/// The message of a token's error counts for an unexpected error alone, and never for
/// credentials.
pub proof fn message_counts_for_unexpected_errors_alone(
    kind: ErrorKind,
    message: &str,
    other: &str,
    bad: bool,
    other_bad: bool,
    bad_credentials: bool,
)
    requires
        call_ensures(is_bad_token, (kind, message), bad),
        call_ensures(is_bad_token, (kind, other), other_bad),
        call_ensures(is_bad_credentials, (kind,), bad_credentials),
    ensures
        kind !is Internal ==> bad == other_bad,
        kind is Internal ==> (bad <==> message@ == "InvalidToken"@),
        bad_credentials ==> bad,
        bad_credentials ==> kind is Validation || kind is InvalidAuth,
        kind is Validation || kind is InvalidAuth ==> bad_credentials,
        kind is Conversion || kind is Other ==> !bad,
        kind is TokenExpired || kind is SessionExpired ==> bad && !bad_credentials,
{
}

/// An error of a failed conversion has the message and the side that it was made of, whether it
/// is asked as it is or as the database's error.
pub proof fn conversion_error_says_what_failed(
    message: String,
    details: Option<Conversion>,
    error: WrappedError,
    told: String,
    unwrapped: surrealdb::types::Error,
)
    requires
        call_ensures(WrappedError::serialization, (message, details), error),
        call_ensures(WrappedError::message, (&error,), told),
        call_ensures(
            <surrealdb::types::Error as From<WrappedError>>::from,
            (error,),
            unwrapped,
        ),
    ensures
        told@ == message@,
        unwrapped == error.0,
        error_message(unwrapped) == message@,
        error_kind(unwrapped) == ErrorKind::Conversion(details),
{
}

/// An error that says that a value could not be deserialized is one of a conversion, and rejects
/// neither a token nor credentials.
pub proof fn failed_reading_rejects_nobody(
    error: surrealdb::types::Error,
    token: AuthenticationError<surrealdb::types::Error>,
    signin: AuthenticationError<surrealdb::types::Error>,
)
    requires
        says_deserialization(error),
        call_ensures(explain_token_failure, (error,), token),
        call_ensures(explain_signin_failure, (error,), signin),
    ensures
        error_kind(error) == ErrorKind::Conversion(Some(Conversion::Deserialization)),
        token == AuthenticationError::Database(error),
        signin == AuthenticationError::Database(error),
{
}

} // verus!
