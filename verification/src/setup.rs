//! The tables, fields and access rules that documents and users need.

use vstd::prelude::*;

use crate::plan::{commits_checked, Plan, Request, RequestView, Step, StepView};
use crate::script::SEPARATOR;
use crate::session::SurrealConnection;
use crate::text::{join, joined, joined_so_far, texts};

verus! {

/// The table of the drafts of a kind of document.
pub open spec fn draft_table(doc: Seq<char>) -> Seq<char> {
    doc + "_draft"@
}

/// The table of what is known about the documents of a kind.
pub open spec fn meta_table(doc: Seq<char>) -> Seq<char> {
    doc + "_meta"@
}

/// The statements that set up the tables of a kind of document.
pub open spec fn table_statements(
    published: Seq<char>,
    draft: Seq<char>,
    meta: Seq<char>,
) -> Seq<Seq<char>> {
    seq![
        "DEFINE TABLE OVERWRITE "@ + published + " SCHEMAFULL PERMISSIONS FOR select WHERE true FOR create, update, delete WHERE $auth.id IS NOT NONE"@,
        "DEFINE FIELD OVERWRITE published_at ON "@ + published + " TYPE datetime DEFAULT time::now()"@,
        "DEFINE FIELD IF NOT EXISTS inner ON "@ + published + " TYPE object FLEXIBLE"@,
        "UPDATE "@ + published + " SET published_at = time::now() WHERE published_at = NONE"@,
        "DEFINE TABLE OVERWRITE "@ + draft + " SCHEMAFULL PERMISSIONS FOR select, create, update, delete WHERE $auth.id IS NOT NONE"@,
        "DEFINE FIELD IF NOT EXISTS inner ON "@ + draft + " TYPE object FLEXIBLE"@,
        "DEFINE TABLE OVERWRITE "@ + meta + " SCHEMAFULL PERMISSIONS FOR select, create, update, delete WHERE $auth.id IS NOT NONE"@,
        "DEFINE FIELD IF NOT EXISTS created_at ON "@ + meta + " TYPE datetime DEFAULT time::now()"@,
        "DEFINE FIELD IF NOT EXISTS modified_at ON "@ + meta + " TYPE datetime"@,
        "DEFINE FIELD IF NOT EXISTS draft ON "@ + meta + " TYPE option<record<"@ + draft + ">>"@,
        "DEFINE FIELD IF NOT EXISTS published ON "@ + meta + " TYPE option<record<"@ + published + ">>"@,
        "DEFINE FUNCTION OVERWRITE fn::"@ + published + "_public() { RETURN (array::map(SELECT inner FROM "@ + published + " WHERE published_at < time::now(), |$v| $v.inner)) }"@,
    ]
}

/// Writes the statements that set up the tables of a kind of document.
fn define_tables(published: &str, draft: &str, meta: &str) -> (statements: Vec<String>)
    ensures
        texts(statements@) == table_statements(published@, draft@, meta@),
{
    let statements = vec![
        "DEFINE TABLE OVERWRITE ".to_owned().concat(published).concat(" SCHEMAFULL PERMISSIONS FOR select WHERE true FOR create, update, delete WHERE $auth.id IS NOT NONE"),
        "DEFINE FIELD OVERWRITE published_at ON ".to_owned().concat(published).concat(" TYPE datetime DEFAULT time::now()"),
        "DEFINE FIELD IF NOT EXISTS inner ON ".to_owned().concat(published).concat(" TYPE object FLEXIBLE"),
        "UPDATE ".to_owned().concat(published).concat(" SET published_at = time::now() WHERE published_at = NONE"),
        "DEFINE TABLE OVERWRITE ".to_owned().concat(draft).concat(" SCHEMAFULL PERMISSIONS FOR select, create, update, delete WHERE $auth.id IS NOT NONE"),
        "DEFINE FIELD IF NOT EXISTS inner ON ".to_owned().concat(draft).concat(" TYPE object FLEXIBLE"),
        "DEFINE TABLE OVERWRITE ".to_owned().concat(meta).concat(" SCHEMAFULL PERMISSIONS FOR select, create, update, delete WHERE $auth.id IS NOT NONE"),
        "DEFINE FIELD IF NOT EXISTS created_at ON ".to_owned().concat(meta).concat(" TYPE datetime DEFAULT time::now()"),
        "DEFINE FIELD IF NOT EXISTS modified_at ON ".to_owned().concat(meta).concat(" TYPE datetime"),
        "DEFINE FIELD IF NOT EXISTS draft ON ".to_owned().concat(meta).concat(" TYPE option<record<").concat(draft).concat(">>"),
        "DEFINE FIELD IF NOT EXISTS published ON ".to_owned().concat(meta).concat(" TYPE option<record<").concat(published).concat(">>"),
        "DEFINE FUNCTION OVERWRITE fn::".to_owned().concat(published).concat("_public() { RETURN (array::map(SELECT inner FROM ").concat(published).concat(" WHERE published_at < time::now(), |$v| $v.inner)) }"),
    ];
    assert(texts(statements@) =~= table_statements(published@, draft@, meta@));
    statements
}

/// The steps that run a script for its effect, all of it or nothing.
pub open spec fn setup_steps(text: Seq<char>) -> Seq<StepView> {
    seq![
        StepView::Begin,
        StepView::Query(RequestView { text, bindings: Seq::empty() }),
        StepView::Check,
        StepView::Commit,
    ]
}

/// Runs a script for its effect, all of it or nothing.
fn set_up(text: String) -> (plan: Plan)
    ensures
        plan@ == setup_steps(text@),
{
    let request = Request { text, bindings: Vec::new() };
    assert(request@ =~= RequestView { text: text@, bindings: Seq::empty() });
    let plan = Plan {
        steps: vec![Step::Begin, Step::Query(request), Step::Check, Step::Commit],
    };
    assert(plan@ =~= setup_steps(text@));
    plan
}

/// The script that sets up the tables of a kind of document.
pub open spec fn init_doc_text(doc: Seq<char>) -> Seq<char> {
    joined(table_statements(doc, draft_table(doc), meta_table(doc)), SEPARATOR@) + ";"@
}

/// The statements that set up the users.
pub open spec fn user_statements() -> Seq<Seq<char>> {
    seq![
        "DEFINE TABLE OVERWRITE sc__editor SCHEMAFULL PERMISSIONS FOR select, update, delete WHERE id = $auth.id OR $auth.admin = true FOR create WHERE $auth.admin = true"@,
        "DEFINE FIELD IF NOT EXISTS name ON sc__editor TYPE string"@,
        "DEFINE FIELD IF NOT EXISTS email ON sc__editor TYPE string ASSERT string::is_email($value)"@,
        "DEFINE FIELD IF NOT EXISTS password ON sc__editor TYPE option<string>"@,
        "DEFINE FIELD IF NOT EXISTS admin ON sc__editor TYPE bool"@,
        "DEFINE FIELD IF NOT EXISTS oidc_subject ON sc__editor TYPE option<string>"@,
        "DEFINE FIELD IF NOT EXISTS pfp_url ON sc__editor TYPE option<string>"@,
        "DEFINE INDEX IF NOT EXISTS email ON sc__editor FIELDS email UNIQUE"@,
        "DEFINE INDEX IF NOT EXISTS oidc_subject ON sc__editor FIELDS oidc_subject UNIQUE"@,
        DEFINE_ACCESS@,
    ]
}

/// How a user gets access: by the subject that an identity provider names, who becomes a user
/// if they are none yet, or else by email address and password.
pub const DEFINE_ACCESS: &'static str = "DEFINE ACCESS OVERWRITE sc__editor ON DATABASE TYPE RECORD SIGNIN (RETURN IF $subject != NONE
	{

		LET $intermediate_query = (SELECT * FROM sc__editor WHERE oidc_subject = $subject);

		IF $intermediate_query = []
			{
				RETURN (INSERT INTO sc__editor {
					admin: true,
					email: $email,
					name: $username,
					oidc_subject: $subject,
					pfp_url: $pfp_url
				});
			}
		ELSE
			{
				RETURN $intermediate_query;
			}
		;

            }
            ELSE
	{
		RETURN (SELECT * FROM sc__editor WHERE email = $email AND crypto::argon2::compare(password, $password));
	}
            )";

/// The script that sets up the users.
pub open spec fn init_auth_text() -> Seq<char> {
    joined(user_statements(), SEPARATOR@)
}

impl<C> SurrealConnection<C> {
    /// Sets up the tables of a kind of document. Most of the time, this is a completely safe
    /// operation.
    pub fn init_doc(&self, doc: &str) -> (plan: Plan)
        ensures
            plan@ == setup_steps(init_doc_text(doc@)),
    {
        let draft = doc.to_owned().concat("_draft");
        let meta = doc.to_owned().concat("_meta");
        let statements = define_tables(doc, draft.as_str(), meta.as_str());
        set_up(join(&statements, SEPARATOR).concat(";"))
    }

    /// Sets up the users. This is usually safe to run at every start.
    pub fn init_auth(&self) -> (plan: Plan)
        ensures
            plan@ == setup_steps(init_auth_text()),
    {
        let statements = vec![
            "DEFINE TABLE OVERWRITE sc__editor SCHEMAFULL PERMISSIONS FOR select, update, delete WHERE id = $auth.id OR $auth.admin = true FOR create WHERE $auth.admin = true".to_owned(),
            "DEFINE FIELD IF NOT EXISTS name ON sc__editor TYPE string".to_owned(),
            "DEFINE FIELD IF NOT EXISTS email ON sc__editor TYPE string ASSERT string::is_email($value)".to_owned(),
            "DEFINE FIELD IF NOT EXISTS password ON sc__editor TYPE option<string>".to_owned(),
            "DEFINE FIELD IF NOT EXISTS admin ON sc__editor TYPE bool".to_owned(),
            "DEFINE FIELD IF NOT EXISTS oidc_subject ON sc__editor TYPE option<string>".to_owned(),
            "DEFINE FIELD IF NOT EXISTS pfp_url ON sc__editor TYPE option<string>".to_owned(),
            "DEFINE INDEX IF NOT EXISTS email ON sc__editor FIELDS email UNIQUE".to_owned(),
            "DEFINE INDEX IF NOT EXISTS oidc_subject ON sc__editor FIELDS oidc_subject UNIQUE".to_owned(),
            DEFINE_ACCESS.to_owned(),
        ];
        assert(texts(statements@) =~= user_statements());
        set_up(join(&statements, SEPARATOR))
    }
}

/// Says that the tables of a kind of document could not be set up, and why.
pub fn init_doc_failure(doc: &str, error: &str) -> (message: String)
    ensures
        message@ == "setting up tables for "@ + doc@ + " failed: "@ + error@,
{
    "setting up tables for ".to_owned().concat(doc).concat(" failed: ").concat(error)
}

/// A kind of document has three tables of different names.
pub proof fn tables_are_distinct(doc: Seq<char>)
    ensures
        draft_table(doc) != doc,
        meta_table(doc) != doc,
        draft_table(doc) != meta_table(doc),
{
    reveal_strlit("_draft");
    reveal_strlit("_meta");
    assert(draft_table(doc).len() == doc.len() + 6);
    assert(meta_table(doc).len() == doc.len() + 5);
}

/// What is set up is committed only once it was checked.
pub proof fn setup_checks_first(text: Seq<char>)
    ensures
        commits_checked(setup_steps(text)),
{
}

/// The tables of a kind of document are set up by these definitions. The published table bears
/// the name of the kind, and the other two that name and an ending. Everybody reads what is
/// published and only an authenticated user anything else; the links of what is known about a
/// document lead to the other two tables; the published contents are offered by a function.
pub proof fn tables_are_set_up_by_these<C>(connection: SurrealConnection<C>, doc: &str, plan: Plan)
    requires
        call_ensures(SurrealConnection::<C>::init_doc, (&connection, doc), plan),
    ensures
        plan@.len() == 4,
        plan@[0] is Begin,
        plan@[1] is Query,
        plan@[1]->Query_0.text == ("DEFINE TABLE OVERWRITE "@ + doc@ + " SCHEMAFULL PERMISSIONS FOR select WHERE true FOR create, update, delete WHERE $auth.id IS NOT NONE"@)
            + ";\n            "@ + ("DEFINE FIELD OVERWRITE published_at ON "@ + doc@ + " TYPE datetime DEFAULT time::now()"@)
            + ";\n            "@ + ("DEFINE FIELD IF NOT EXISTS inner ON "@ + doc@ + " TYPE object FLEXIBLE"@)
            + ";\n            "@ + ("UPDATE "@ + doc@ + " SET published_at = time::now() WHERE published_at = NONE"@)
            + ";\n            "@ + ("DEFINE TABLE OVERWRITE "@ + (doc@ + "_draft"@) + " SCHEMAFULL PERMISSIONS FOR select, create, update, delete WHERE $auth.id IS NOT NONE"@)
            + ";\n            "@ + ("DEFINE FIELD IF NOT EXISTS inner ON "@ + (doc@ + "_draft"@) + " TYPE object FLEXIBLE"@)
            + ";\n            "@ + ("DEFINE TABLE OVERWRITE "@ + (doc@ + "_meta"@) + " SCHEMAFULL PERMISSIONS FOR select, create, update, delete WHERE $auth.id IS NOT NONE"@)
            + ";\n            "@ + ("DEFINE FIELD IF NOT EXISTS created_at ON "@ + (doc@ + "_meta"@) + " TYPE datetime DEFAULT time::now()"@)
            + ";\n            "@ + ("DEFINE FIELD IF NOT EXISTS modified_at ON "@ + (doc@ + "_meta"@) + " TYPE datetime"@)
            + ";\n            "@ + ("DEFINE FIELD IF NOT EXISTS draft ON "@ + (doc@ + "_meta"@) + " TYPE option<record<"@ + (doc@ + "_draft"@) + ">>"@)
            + ";\n            "@ + ("DEFINE FIELD IF NOT EXISTS published ON "@ + (doc@ + "_meta"@) + " TYPE option<record<"@ + doc@ + ">>"@)
            + ";\n            "@ + ("DEFINE FUNCTION OVERWRITE fn::"@ + doc@ + "_public() { RETURN (array::map(SELECT inner FROM "@ + doc@ + " WHERE published_at < time::now(), |$v| $v.inner)) }"@) + ";"@,
        plan@[1]->Query_0.bindings.len() == 0,
        plan@[2] is Check,
        plan@[3] is Commit,
{
    let parts = table_statements(doc@, draft_table(doc@), meta_table(doc@));
    joined_so_far(parts, SEPARATOR@, 1);
    joined_so_far(parts, SEPARATOR@, 2);
    joined_so_far(parts, SEPARATOR@, 3);
    joined_so_far(parts, SEPARATOR@, 4);
    joined_so_far(parts, SEPARATOR@, 5);
    joined_so_far(parts, SEPARATOR@, 6);
    joined_so_far(parts, SEPARATOR@, 7);
    joined_so_far(parts, SEPARATOR@, 8);
    joined_so_far(parts, SEPARATOR@, 9);
    joined_so_far(parts, SEPARATOR@, 10);
    joined_so_far(parts, SEPARATOR@, 11);
}

/// The users are set up by these definitions. A user sees and changes what is theirs and an
/// administrator everything; addresses and subjects are unique; a subject of an identity provider
/// gets access as a user, who is made if there is none, and anybody else by address and password.
pub proof fn users_are_set_up_by_these<C>(connection: SurrealConnection<C>, plan: Plan)
    requires
        call_ensures(SurrealConnection::<C>::init_auth, (&connection,), plan),
    ensures
        plan@.len() == 4,
        plan@[0] is Begin,
        plan@[1] is Query,
        plan@[1]->Query_0.text == "DEFINE TABLE OVERWRITE sc__editor SCHEMAFULL PERMISSIONS FOR select, update, delete WHERE id = $auth.id OR $auth.admin = true FOR create WHERE $auth.admin = true"@
            + ";\n            "@ + "DEFINE FIELD IF NOT EXISTS name ON sc__editor TYPE string"@
            + ";\n            "@ + "DEFINE FIELD IF NOT EXISTS email ON sc__editor TYPE string ASSERT string::is_email($value)"@
            + ";\n            "@ + "DEFINE FIELD IF NOT EXISTS password ON sc__editor TYPE option<string>"@
            + ";\n            "@ + "DEFINE FIELD IF NOT EXISTS admin ON sc__editor TYPE bool"@
            + ";\n            "@ + "DEFINE FIELD IF NOT EXISTS oidc_subject ON sc__editor TYPE option<string>"@
            + ";\n            "@ + "DEFINE FIELD IF NOT EXISTS pfp_url ON sc__editor TYPE option<string>"@
            + ";\n            "@ + "DEFINE INDEX IF NOT EXISTS email ON sc__editor FIELDS email UNIQUE"@
            + ";\n            "@ + "DEFINE INDEX IF NOT EXISTS oidc_subject ON sc__editor FIELDS oidc_subject UNIQUE"@
            + ";\n            "@ + "DEFINE ACCESS OVERWRITE sc__editor ON DATABASE TYPE RECORD SIGNIN (RETURN IF $subject != NONE
	{

		LET $intermediate_query = (SELECT * FROM sc__editor WHERE oidc_subject = $subject);

		IF $intermediate_query = []
			{
				RETURN (INSERT INTO sc__editor {
					admin: true,
					email: $email,
					name: $username,
					oidc_subject: $subject,
					pfp_url: $pfp_url
				});
			}
		ELSE
			{
				RETURN $intermediate_query;
			}
		;

            }
            ELSE
	{
		RETURN (SELECT * FROM sc__editor WHERE email = $email AND crypto::argon2::compare(password, $password));
	}
            )"@,
        plan@[1]->Query_0.bindings.len() == 0,
        plan@[2] is Check,
        plan@[3] is Commit,
{
    let parts = user_statements();
    joined_so_far(parts, SEPARATOR@, 1);
    joined_so_far(parts, SEPARATOR@, 2);
    joined_so_far(parts, SEPARATOR@, 3);
    joined_so_far(parts, SEPARATOR@, 4);
    joined_so_far(parts, SEPARATOR@, 5);
    joined_so_far(parts, SEPARATOR@, 6);
    joined_so_far(parts, SEPARATOR@, 7);
    joined_so_far(parts, SEPARATOR@, 8);
    joined_so_far(parts, SEPARATOR@, 9);
}

/// The message of a failed setup names the kind of document and tells the error, both whole.
pub proof fn failed_setup_is_told(doc: &str, error: &str, message: String)
    requires
        call_ensures(init_doc_failure, (doc, error), message),
    ensures
        message@ == "setting up tables for "@ + doc@ + " failed: "@ + error@,
{
}

} // verus!
