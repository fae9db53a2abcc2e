use scalar_surreal::error::{
    explain_signin_failure, explain_token_failure, is_bad_credentials, is_bad_token,
    AuthenticationError, Conversion, ErrorKind, WrappedError,
};
use surrealdb::types::{
    AuthError, Error, ErrorDetails, NotAllowedError, SerializationError, ValidationError,
};

fn not_allowed(details: Option<NotAllowedError>) -> Error {
    Error::not_allowed("no".to_string(), details)
}

fn auth(error: AuthError) -> Error {
    not_allowed(Some(NotAllowedError::Auth(error)))
}

#[test]
fn malformed_request_is_a_bad_token_or_bad_credentials() {
    let plain = Error::validation("no".to_string(), None);
    let parse = Error::validation("no".to_string(), ValidationError::Parse);
    assert_eq!(explain_token_failure(plain.clone()), AuthenticationError::BadToken);
    assert_eq!(explain_token_failure(parse.clone()), AuthenticationError::BadToken);
    assert_eq!(explain_signin_failure(plain), AuthenticationError::BadCredentials);
    assert_eq!(explain_signin_failure(parse), AuthenticationError::BadCredentials);
}

#[test]
fn invalid_auth_is_a_bad_token_or_bad_credentials() {
    assert_eq!(
        explain_token_failure(auth(AuthError::InvalidAuth)),
        AuthenticationError::BadToken
    );
    assert_eq!(
        explain_signin_failure(auth(AuthError::InvalidAuth)),
        AuthenticationError::BadCredentials
    );
}

#[test]
fn expired_token_or_session_is_a_bad_token_only() {
    for error in vec![AuthError::TokenExpired, AuthError::SessionExpired] {
        assert_eq!(explain_token_failure(auth(error.clone())), AuthenticationError::BadToken);
        assert_eq!(
            explain_signin_failure(auth(error.clone())),
            AuthenticationError::Database(auth(error))
        );
    }
}

#[test]
fn internal_error_is_a_bad_token_by_its_message() {
    let named = Error::internal("InvalidToken".to_string());
    let other = Error::internal("InvalidToken!".to_string());
    assert_eq!(explain_token_failure(named.clone()), AuthenticationError::BadToken);
    assert_eq!(explain_token_failure(other.clone()), AuthenticationError::Database(other));
    assert_eq!(explain_signin_failure(named.clone()), AuthenticationError::Database(named));
}

#[test]
fn other_errors_are_handed_on() {
    let errors = vec![
        not_allowed(None),
        not_allowed(Some(NotAllowedError::Scripting)),
        auth(AuthError::InvalidPass),
        Error::thrown("InvalidToken".to_string()),
        Error::query("InvalidToken".to_string(), None),
        Error::serialization("InvalidToken".to_string(), None),
        Error::connection("InvalidToken".to_string(), None),
    ];
    for error in errors {
        assert_eq!(
            explain_token_failure(error.clone()),
            AuthenticationError::Database(error.clone())
        );
        assert_eq!(explain_signin_failure(error.clone()), AuthenticationError::Database(error));
    }
}

#[test]
fn decisions_depend_on_kind_and_message() {
    assert!(is_bad_token(ErrorKind::Validation, ""));
    assert!(is_bad_token(ErrorKind::InvalidAuth, ""));
    assert!(is_bad_token(ErrorKind::TokenExpired, ""));
    assert!(is_bad_token(ErrorKind::SessionExpired, ""));
    assert!(is_bad_token(ErrorKind::Internal, "InvalidToken"));
    assert!(!is_bad_token(ErrorKind::Internal, ""));
    assert!(!is_bad_token(ErrorKind::Conversion(None), "InvalidToken"));
    assert!(!is_bad_token(ErrorKind::Other, "InvalidToken"));
    assert!(is_bad_credentials(ErrorKind::Validation));
    assert!(is_bad_credentials(ErrorKind::InvalidAuth));
    assert!(!is_bad_credentials(ErrorKind::TokenExpired));
    assert!(!is_bad_credentials(ErrorKind::SessionExpired));
    assert!(!is_bad_credentials(ErrorKind::Internal));
    assert!(!is_bad_credentials(ErrorKind::Conversion(Some(Conversion::Serialization))));
    assert!(!is_bad_credentials(ErrorKind::Other));
}

#[test]
fn conversion_error_holds_its_message_and_side() {
    let sides = vec![
        (None, None),
        (Some(Conversion::Serialization), Some(SerializationError::Serialization)),
        (Some(Conversion::Deserialization), Some(SerializationError::Deserialization)),
    ];
    for (side, details) in sides {
        let wrapped = WrappedError::serialization("broken".to_string(), side);
        assert_eq!(wrapped.message(), "broken");
        let error = Error::from(wrapped);
        assert_eq!(error.message(), "broken");
        assert_eq!(error.details(), &ErrorDetails::Serialization(details.clone()));
        assert_eq!(error, Error::serialization("broken".to_string(), details));
    }
}
