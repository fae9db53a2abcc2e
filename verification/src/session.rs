//! Connections, and the users that work through them.

use vstd::prelude::*;

use crate::error::{explain_token_failure, token_failure, AuthenticationError};
use crate::plan::{Plan, Request, RequestView, Step, StepView};
use crate::wrapper::Wrapper;

verus! {

/// Declares `openidconnect::LocalizedClaim` to the verifier. A value of it is opaque.
#[verifier::external_type_specification]
#[verifier::external_body]
#[verifier::reject_recursive_types(T)]
pub struct ExLocalizedClaim<T>(openidconnect::LocalizedClaim<T>);

/// Declares `openidconnect::EndUserPictureUrl` to the verifier. A value of it is opaque.
#[verifier::external_type_specification]
#[verifier::external_body]
pub struct ExEndUserPictureUrl(openidconnect::EndUserPictureUrl);

/// The URLs that a localized picture holds, by language tag. The one without a tag is the
/// default.
pub uninterp spec fn localized_pictures(
    picture: openidconnect::LocalizedClaim<openidconnect::EndUserPictureUrl>,
) -> Map<Option<Seq<char>>, Seq<char>>;

/// Calls `openidconnect::LocalizedClaim::get` without a locale, which returns the default
/// entry if there is one.
#[verifier::external_body]
fn default_picture(
    picture: &openidconnect::LocalizedClaim<openidconnect::EndUserPictureUrl>,
) -> (url: Option<String>)
    ensures
        url is Some <==> localized_pictures(*picture).contains_key(None),
        url matches Some(url) ==> url@ == localized_pictures(*picture)[None],
{
    picture.get(None).map(|url| url.as_str().to_owned())
}

/// A connection to a database by way of a client `C`.
#[derive(Clone, Debug)]
pub struct SurrealConnection<C> {
    namespace: String,
    db: String,
    inner: C,
}

impl<C> SurrealConnection<C> {
    /// The namespace that users of the connection sign in to.
    pub closed spec fn namespace(&self) -> Seq<char> {
        self.namespace@
    }

    /// The database that users of the connection sign in to.
    pub closed spec fn db(&self) -> Seq<char> {
        self.db@
    }

    /// The client.
    pub closed spec fn inner(&self) -> C {
        self.inner
    }

    /// A connection by way of the client `inner`.
    #[must_use]
    pub fn new(namespace: String, db: String, inner: C) -> (connection: SurrealConnection<C>)
        ensures
            connection.namespace() == namespace@,
            connection.db() == db@,
            connection.inner() == inner,
    {
        SurrealConnection { namespace, db, inner }
    }
}

impl<C> std::ops::Deref for SurrealConnection<C> {
    type Target = C;

    fn deref(&self) -> (inner: &C)
        ensures
            *inner == self.inner(),
    {
        &self.inner
    }
}

/// Where connections come from: a client `C` that is connected but works nowhere yet.
#[derive(Clone, Debug)]
pub struct SurrealStore<C> {
    namespace: String,
    db: String,
    inner_instance: C,
}

/// The name and the password of the root user.
pub const ROOT: &'static str = "root";

impl<C> SurrealStore<C> {
    /// The namespace to work in.
    pub closed spec fn namespace(&self) -> Seq<char> {
        self.namespace@
    }

    /// The database to work in.
    pub closed spec fn db(&self) -> Seq<char> {
        self.db@
    }

    /// The client.
    pub closed spec fn inner_instance(&self) -> C {
        self.inner_instance
    }

    /// A store on the client that connecting gave, or the error that it gave.
    pub fn new<E>(connected: Result<C, E>, namespace: String, db: String) -> (store: Result<
        SurrealStore<C>,
        E,
    >)
        ensures
            store is Ok <==> connected is Ok,
            store matches Ok(store) ==> {
                &&& store.namespace() == namespace@
                &&& store.db() == db@
                &&& connected == Ok::<C, E>(store.inner_instance())
            },
            store matches Err(error) ==> connected == Err::<C, E>(error),
    {
        match connected {
            Ok(inner_instance) => Ok(SurrealStore { namespace, db, inner_instance }),
            Err(error) => Err(error),
        }
    }

    /// The client, to make connections of.
    pub fn instance(&self) -> (instance: &C)
        ensures
            *instance == self.inner_instance(),
    {
        &self.inner_instance
    }

    /// The steps that prepare a connection.
    pub open spec fn init_steps(&self) -> Seq<StepView> {
        seq![StepView::UseNamespace(self.namespace()), StepView::UseDatabase(self.db())]
    }

    /// Prepares a connection of the store's client.
    pub fn init(&self) -> (plan: Plan)
        ensures
            plan@ == self.init_steps(),
            plan@ == seq![
                StepView::UseNamespace(self.namespace()),
                StepView::UseDatabase(self.db()),
            ],
    {
        let plan = Plan {
            steps: vec![
                Step::UseNamespace(self.namespace.clone()),
                Step::UseDatabase(self.db.clone()),
            ],
        };
        assert(plan@ =~= self.init_steps());
        plan
    }

    /// The steps that prepare a connection of the root user.
    pub open spec fn init_system_steps(&self) -> Seq<StepView> {
        self.init_steps().push(StepView::SigninRoot { username: ROOT@, password: ROOT@ })
    }

    /// Prepares a connection of the store's client for the root user.
    pub fn init_system(&self) -> (plan: Plan)
        ensures
            plan@ == self.init_system_steps(),
            plan@ == seq![
                StepView::UseNamespace(self.namespace()),
                StepView::UseDatabase(self.db()),
                (StepView::SigninRoot { username: "root"@, password: "root"@ }),
            ],
    {
        let plan = Plan {
            steps: vec![
                Step::UseNamespace(self.namespace.clone()),
                Step::UseDatabase(self.db.clone()),
                Step::SigninRoot { username: ROOT.to_owned(), password: ROOT.to_owned() },
            ],
        };
        assert(plan@ =~= self.init_system_steps());
        plan
    }

    /// The connection that a prepared client makes. Its database bears the name of the
    /// namespace.
    pub fn connection(&self, inner: C) -> (connection: SurrealConnection<C>)
        ensures
            connection.namespace() == self.namespace(),
            connection.db() == self.namespace(),
            connection.inner() == inner,
    {
        SurrealConnection::new(self.namespace.clone(), self.namespace.clone(), inner)
    }
}

/// A user, as the database answers it.
#[derive(Debug, PartialEq)]
pub struct SurrealUser {
    pub email: String,
    pub name: String,
    pub profile_picture_url: String,
    pub admin: bool,
}

/// A user.
#[derive(Debug, PartialEq)]
pub struct User {
    pub email: String,
    pub name: String,
    pub profile_picture_url: String,
    pub admin: bool,
}

impl From<SurrealUser> for User {
    fn from(value: SurrealUser) -> (user: User)
        ensures
            user.email == value.email,
            user.name == value.name,
            user.profile_picture_url == value.profile_picture_url,
            user.admin == value.admin,
    {
        User {
            email: value.email,
            name: value.name,
            profile_picture_url: value.profile_picture_url,
            admin: value.admin,
        }
    }
}

impl vstd::std_specs::convert::FromSpecImpl<SurrealUser> for User {
    open spec fn obeys_from_spec() -> bool {
        true
    }

    open spec fn from_spec(value: SurrealUser) -> User {
        User {
            email: value.email,
            name: value.name,
            profile_picture_url: value.profile_picture_url,
            admin: value.admin,
        }
    }
}

/// Reads the authenticated user. One without a picture gets that of the avatar service.
pub const SELECT_USER: &'static str = "SELECT *, IF pfp_url = NONE {string::concat(\"https://gravatar.com/avatar/\", crypto::sha256(email))} ELSE {pfp_url} as profile_picture_url OMIT id, password FROM $auth";

/// The steps that authenticate with a token and read the user.
pub open spec fn authenticate_steps(jwt: Seq<char>) -> Seq<StepView> {
    seq![
        StepView::Authenticate(jwt),
        StepView::Query(RequestView { text: SELECT_USER@, bindings: Seq::empty() }),
        StepView::Take(0),
    ]
}

/// Authenticates with a token. The reply is the user.
pub fn authenticate(jwt: &str) -> (plan: Plan)
    ensures
        plan@ == authenticate_steps(jwt@),
{
    let request = Request { text: SELECT_USER.to_owned(), bindings: Vec::new() };
    assert(request@ =~= RequestView { text: SELECT_USER@, bindings: Seq::empty() });
    let plan = Plan {
        steps: vec![Step::Authenticate(jwt.to_owned()), Step::Query(request), Step::Take(0)],
    };
    assert(plan@ =~= authenticate_steps(jwt@));
    plan
}

/// What an error means that ended [`authenticate`] at the step of this number.
pub open spec fn authenticate_failure(
    step: usize,
    error: surrealdb::types::Error,
) -> AuthenticationError<surrealdb::types::Error> {
    if step == 0 {
        token_failure(error)
    } else {
        AuthenticationError::Database(error)
    }
}

/// Tells what an error means that ended [`authenticate`] at the step of this number: only the
/// first step can reject the token.
pub fn explain_authenticate_failure(
    step: usize,
    error: surrealdb::types::Error,
) -> (failure: AuthenticationError<surrealdb::types::Error>)
    ensures
        failure == authenticate_failure(step, error),
        step == 0 ==> failure == token_failure(error),
        step > 0 ==> failure == AuthenticationError::Database(error),
{
    if step == 0 {
        explain_token_failure(error)
    } else {
        AuthenticationError::Database(error)
    }
}

/// The access method, and the table, of the users.
pub const EDITOR: &'static str = "sc__editor";

/// What is sent to sign in a user with parameters of type `P`.
#[derive(Debug, PartialEq)]
pub struct RecordAccess<P> {
    pub namespace: String,
    pub database: String,
    pub access: String,
    pub params: P,
}

impl<P> RecordAccess<P> {
    /// Signs in to a namespace and a database as a user, with these parameters.
    pub open spec fn signs_in(
        self,
        namespace: Seq<char>,
        database: Seq<char>,
        params: P,
    ) -> bool {
        &&& self.namespace@ == namespace
        &&& self.database@ == database
        &&& self.access@ == EDITOR@
        &&& self.params == params
    }
}

impl<C> SurrealConnection<C> {
    /// Asks for access as a user, with these parameters.
    fn access<P>(&self, params: P) -> (access: RecordAccess<P>)
        ensures
            access.signs_in(self.namespace(), self.db(), params),
    {
        RecordAccess {
            namespace: self.namespace.clone(),
            database: self.db.clone(),
            access: EDITOR.to_owned(),
            params,
        }
    }

    /// Signs in with credentials.
    pub fn signin<P>(&self, credentials: P) -> (access: RecordAccess<Wrapper<P>>)
        ensures
            access.signs_in(self.namespace(), self.db(), Wrapper(credentials)),
            access.namespace@ == self.namespace(),
            access.database@ == self.db(),
            access.access@ == "sc__editor"@,
            access.params.0 == credentials,
    {
        self.access(Wrapper::new(credentials))
    }

    /// Signs in with what an identity provider says of a user, who must have a name and an
    /// email address there.
    pub fn signin_oidc(&self, user_info: OidcUserInfo) -> (access: RecordAccess<OidcClaim>)
        requires
            user_info.preferred_username is Some,
            user_info.email is Some,
        ensures
            access.params.claims(user_info),
            access.signs_in(self.namespace(), self.db(), access.params),
            access.namespace@ == self.namespace(),
            access.database@ == self.db(),
            access.access@ == "sc__editor"@,
    {
        let claim = OidcClaim::new(user_info);
        self.access(claim)
    }
}

/// What an identity provider says of a user.
#[derive(Debug, PartialEq)]
pub struct OidcUserInfo {
    pub subject: String,
    pub preferred_username: Option<String>,
    pub email: Option<String>,
    pub picture: Option<openidconnect::LocalizedClaim<openidconnect::EndUserPictureUrl>>,
}

/// The parameters of a sign-in by way of an identity provider.
#[derive(Debug, PartialEq)]
pub struct OidcClaim {
    pub subject: String,
    pub username: String,
    pub email: String,
    pub pfp_url: Option<String>,
}

impl OidcUserInfo {
    /// The URL of the user's picture: the one for no locale in particular, if there is one.
    pub open spec fn picture_url(self) -> Option<Seq<char>> {
        match self.picture {
            Some(picture) => if localized_pictures(picture).contains_key(None) {
                Some(localized_pictures(picture)[None])
            } else {
                None
            },
            None => None,
        }
    }
}

impl OidcClaim {
    /// The parameters are those of this user.
    pub open spec fn claims(self, user_info: OidcUserInfo) -> bool {
        &&& self.subject == user_info.subject
        &&& Some(self.username) == user_info.preferred_username
        &&& Some(self.email) == user_info.email
        &&& self.pfp_url is Some <==> user_info.picture_url() is Some
        &&& self.pfp_url matches Some(url) ==> Some(url@) == user_info.picture_url()
    }

    /// The parameters of a user who has a name and an email address.
    pub fn new(user_info: OidcUserInfo) -> (claim: OidcClaim)
        requires
            user_info.preferred_username is Some,
            user_info.email is Some,
        ensures
            claim.claims(user_info),
            claim.subject == user_info.subject,
            Some(claim.username) == user_info.preferred_username,
            Some(claim.email) == user_info.email,
    {
        let pfp_url = match &user_info.picture {
            Some(picture) => default_picture(picture),
            None => None,
        };
        OidcClaim::with_picture(user_info, pfp_url)
    }

    /// The parameters of a user who has a name and an email address, with the picture that
    /// was chosen.
    pub fn with_picture(user_info: OidcUserInfo, pfp_url: Option<String>) -> (claim: OidcClaim)
        requires
            user_info.preferred_username is Some,
            user_info.email is Some,
        ensures
            claim.subject == user_info.subject,
            Some(claim.username) == user_info.preferred_username,
            Some(claim.email) == user_info.email,
            claim.pfp_url == pfp_url,
    {
        OidcClaim {
            subject: user_info.subject,
            username: user_info.preferred_username.unwrap(),
            email: user_info.email.unwrap(),
            pfp_url,
        }
    }
}

/// A user is the one that the database answered, in every field: nobody is given a name, an
/// address, a picture or a right that is not theirs.
pub proof fn user_is_the_one_answered(value: SurrealUser, user: User)
    requires
        call_ensures(<User as From<SurrealUser>>::from, (value,), user),
    ensures
        user.email == value.email,
        user.name == value.name,
        user.profile_picture_url == value.profile_picture_url,
        user.admin == value.admin,
{
}

/// Different answers of the database are different users.
pub proof fn users_are_told_apart(value: SurrealUser, other: SurrealUser, user: User)
    requires
        call_ensures(<User as From<SurrealUser>>::from, (value,), user),
        call_ensures(<User as From<SurrealUser>>::from, (other,), user),
    ensures
        value == other,
{
}

/// A connection works through the client that it was made of, and signs in to the namespace and
/// the database that it was made for, as a user, with the credentials as they are.
pub proof fn credentials_go_where_the_connection_is<C, P>(
    namespace: String,
    db: String,
    inner: C,
    connection: SurrealConnection<C>,
    client: &C,
    credentials: P,
    access: RecordAccess<Wrapper<P>>,
)
    requires
        call_ensures(SurrealConnection::<C>::new, (namespace, db, inner), connection),
        call_ensures(
            <SurrealConnection<C> as std::ops::Deref>::deref,
            (&connection,),
            client,
        ),
        call_ensures(SurrealConnection::<C>::signin::<P>, (&connection, credentials), access),
    ensures
        *client == inner,
        access.namespace@ == namespace@,
        access.database@ == db@,
        access.access@ == "sc__editor"@,
        access.params.0 == credentials,
{
}

/// Signing in by way of an identity provider goes where the connection is, as a user, with the
/// subject, the name and the address that the provider gave. The picture is the one for no locale
/// in particular, and there is none where the provider gave none of that kind.
pub proof fn claims_go_where_the_connection_is<C>(
    namespace: String,
    db: String,
    inner: C,
    connection: SurrealConnection<C>,
    user_info: OidcUserInfo,
    access: RecordAccess<OidcClaim>,
)
    requires
        user_info.preferred_username is Some,
        user_info.email is Some,
        call_ensures(SurrealConnection::<C>::new, (namespace, db, inner), connection),
        call_ensures(SurrealConnection::<C>::signin_oidc, (&connection, user_info), access),
    ensures
        access.namespace@ == namespace@,
        access.database@ == db@,
        access.access@ == "sc__editor"@,
        access.params.subject == user_info.subject,
        Some(access.params.username) == user_info.preferred_username,
        Some(access.params.email) == user_info.email,
        user_info.picture is None ==> access.params.pfp_url is None,
        user_info.picture matches Some(picture) ==> {
            let pictures = localized_pictures(picture);
            &&& access.params.pfp_url is Some <==> pictures.contains_key(None)
            &&& access.params.pfp_url matches Some(url) ==> url@ == pictures[None]
        },
{
}

/// The parameters of a sign-in with a chosen picture are those of the user, with that picture.
pub proof fn chosen_picture_is_claimed(
    user_info: OidcUserInfo,
    pfp_url: Option<String>,
    claim: OidcClaim,
)
    requires
        user_info.preferred_username is Some,
        user_info.email is Some,
        call_ensures(OidcClaim::with_picture, (user_info, pfp_url), claim),
    ensures
        claim.subject == user_info.subject,
        claim.username == user_info.preferred_username->0,
        claim.email == user_info.email->0,
        claim.pfp_url == pfp_url,
{
}

/// A store is made exactly where connecting succeeded. It prepares its client for the namespace
/// and the database that it was made for, and for the root user signs in as root besides. A
/// connection of it signs in to the namespace, and to the database of that name.
pub proof fn store_prepares_what_it_was_made_for<C, E>(
    connected: Result<C, E>,
    namespace: String,
    db: String,
    made: Result<SurrealStore<C>, E>,
    instance: &C,
    init: Plan,
    init_system: Plan,
    inner: C,
    connection: SurrealConnection<C>,
)
    requires
        call_ensures(SurrealStore::<C>::new::<E>, (connected, namespace, db), made),
        made matches Ok(store) ==> {
            &&& call_ensures(SurrealStore::<C>::instance, (&store,), instance)
            &&& call_ensures(SurrealStore::<C>::init, (&store,), init)
            &&& call_ensures(SurrealStore::<C>::init_system, (&store,), init_system)
            &&& call_ensures(SurrealStore::<C>::connection, (&store, inner), connection)
        },
    ensures
        connected matches Err(error) ==> made == Err::<SurrealStore<C>, E>(error),
        connected matches Ok(client) ==> {
            &&& made is Ok
            &&& *instance == client
            &&& init@ == seq![StepView::UseNamespace(namespace@), StepView::UseDatabase(db@)]
            &&& init_system@ == seq![
                StepView::UseNamespace(namespace@),
                StepView::UseDatabase(db@),
                (StepView::SigninRoot { username: "root"@, password: "root"@ }),
            ]
            &&& connection.namespace() == namespace@
            &&& connection.db() == namespace@
            &&& connection.inner() == inner
        },
{
}

/// A token is sent as it is, and the user is read after that: every column but the id and the
/// password, with a picture in any case. The user is the reply to the only statement.
pub proof fn token_is_sent_and_the_user_read(jwt: &str, plan: Plan)
    requires
        call_ensures(authenticate, (jwt,), plan),
    ensures
        plan@.len() == 3,
        plan@[0] == StepView::Authenticate(jwt@),
        plan@[1] is Query,
        plan@[1]->Query_0.text
            == "SELECT *, IF pfp_url = NONE {string::concat(\"https://gravatar.com/avatar/\", crypto::sha256(email))} ELSE {pfp_url} as profile_picture_url OMIT id, password FROM $auth"@,
        plan@[1]->Query_0.bindings.len() == 0,
        plan@[2] == StepView::Take(0),
{
}

/// Only the step that sends the token can reject it: what fails later is the database's error,
/// handed on as it is.
pub proof fn only_sending_the_token_rejects_it(
    step: usize,
    error: surrealdb::types::Error,
    failure: AuthenticationError<surrealdb::types::Error>,
    explained: AuthenticationError<surrealdb::types::Error>,
)
    requires
        call_ensures(explain_authenticate_failure, (step, error), failure),
        call_ensures(explain_token_failure, (error,), explained),
    ensures
        step == 0 ==> failure == explained,
        step > 0 ==> failure == AuthenticationError::Database(error),
        failure !is BadCredentials,
{
}

} // verus!
