use openidconnect::{EndUserPictureUrl, LanguageTag, LocalizedClaim};
use scalar_surreal::error::AuthenticationError;
use scalar_surreal::plan::{Plan, Request, Step};
use scalar_surreal::session::{
    authenticate, explain_authenticate_failure, OidcClaim, OidcUserInfo, RecordAccess,
    SurrealConnection, SurrealStore, SurrealUser, User,
};
use scalar_surreal::wrapper::Wrapper;
use surrealdb::types::{AuthError, Error};

fn connection() -> SurrealConnection<u8> {
    SurrealConnection::new("site".to_string(), "main".to_string(), 5)
}

fn store() -> SurrealStore<u8> {
    SurrealStore::new::<String>(Ok(5), "site".to_string(), "main".to_string()).unwrap()
}

#[test]
fn connection_derefs_to_its_client() {
    assert_eq!(*connection(), 5);
}

#[test]
fn store_hands_on_the_error_of_connecting() {
    let failed = SurrealStore::<u8>::new(Err("refused"), "site".to_string(), "main".to_string());
    assert_eq!(failed.err(), Some("refused"));
    assert_eq!(*store().instance(), 5);
}

#[test]
fn connection_is_prepared() {
    assert_eq!(
        store().init(),
        Plan {
            steps: vec![
                Step::UseNamespace("site".to_string()),
                Step::UseDatabase("main".to_string()),
            ],
        }
    );
}

#[test]
fn root_connection_is_prepared() {
    assert_eq!(
        store().init_system(),
        Plan {
            steps: vec![
                Step::UseNamespace("site".to_string()),
                Step::UseDatabase("main".to_string()),
                Step::SigninRoot { username: "root".to_string(), password: "root".to_string() },
            ],
        }
    );
}

#[test]
fn connection_of_a_store_signs_in_by_the_namespace() {
    let access = store().connection(6).signin("secret".to_string());
    assert_eq!(
        access,
        RecordAccess {
            namespace: "site".to_string(),
            database: "site".to_string(),
            access: "sc__editor".to_string(),
            params: Wrapper::new("secret".to_string()),
        }
    );
    assert_eq!(*store().connection(6), 6);
}

#[test]
fn credentials_are_sent_to_the_connection_database() {
    assert_eq!(
        connection().signin(7),
        RecordAccess {
            namespace: "site".to_string(),
            database: "main".to_string(),
            access: "sc__editor".to_string(),
            params: Wrapper::new(7),
        }
    );
}

fn user_info(picture: Option<LocalizedClaim<EndUserPictureUrl>>) -> OidcUserInfo {
    OidcUserInfo {
        subject: "sub".to_string(),
        preferred_username: Some("ada".to_string()),
        email: Some("ada@example.com".to_string()),
        picture,
    }
}

fn claim(pfp_url: Option<&str>) -> OidcClaim {
    OidcClaim {
        subject: "sub".to_string(),
        username: "ada".to_string(),
        email: "ada@example.com".to_string(),
        pfp_url: pfp_url.map(|url| url.to_string()),
    }
}

fn url(text: &str) -> EndUserPictureUrl {
    EndUserPictureUrl::new(text.to_string())
}

#[test]
fn identity_of_a_provider_is_sent() {
    let access = connection().signin_oidc(user_info(Some(LocalizedClaim::from(url("pic")))));
    assert_eq!(
        access,
        RecordAccess {
            namespace: "site".to_string(),
            database: "main".to_string(),
            access: "sc__editor".to_string(),
            params: claim(Some("pic")),
        }
    );
}

#[test]
fn picture_is_the_one_without_a_locale() {
    let mut pictures: LocalizedClaim<EndUserPictureUrl> = LocalizedClaim::new();
    pictures.insert(Some(LanguageTag::new("de".to_string())), url("german"));
    assert_eq!(OidcClaim::new(user_info(Some(pictures.clone()))), claim(None));
    pictures.insert(None, url("default"));
    assert_eq!(OidcClaim::new(user_info(Some(pictures))), claim(Some("default")));
    assert_eq!(OidcClaim::new(user_info(None)), claim(None));
}

#[test]
fn chosen_picture_is_kept() {
    assert_eq!(
        OidcClaim::with_picture(user_info(None), Some("chosen".to_string())),
        claim(Some("chosen"))
    );
}

#[test]
fn token_is_authenticated_and_the_user_read() {
    let text = "SELECT *, IF pfp_url = NONE {string::concat(\"https://gravatar.com/avatar/\", crypto::sha256(email))} ELSE {pfp_url} as profile_picture_url OMIT id, password FROM $auth";
    assert_eq!(
        authenticate("jwt"),
        Plan {
            steps: vec![
                Step::Authenticate("jwt".to_string()),
                Step::Query(Request { text: text.to_string(), bindings: vec![] }),
                Step::Take(0),
            ],
        }
    );
}

#[test]
fn only_the_first_step_rejects_the_token() {
    let expired = || Error::not_allowed("expired".to_string(), AuthError::TokenExpired);
    assert_eq!(explain_authenticate_failure(0, expired()), AuthenticationError::BadToken);
    assert_eq!(
        explain_authenticate_failure(1, expired()),
        AuthenticationError::Database(expired())
    );
}

#[test]
fn user_of_the_database_becomes_a_user() {
    let user = User::from(SurrealUser {
        email: "ada@example.com".to_string(),
        name: "ada".to_string(),
        profile_picture_url: "pic".to_string(),
        admin: true,
    });
    assert_eq!(
        user,
        User {
            email: "ada@example.com".to_string(),
            name: "ada".to_string(),
            profile_picture_url: "pic".to_string(),
            admin: true,
        }
    );
}
