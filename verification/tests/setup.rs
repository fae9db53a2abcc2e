use scalar_surreal::plan::{Plan, Request, Step};
use scalar_surreal::session::SurrealConnection;
use scalar_surreal::setup::init_doc_failure;

fn connection() -> SurrealConnection<u8> {
    SurrealConnection::new("site".to_string(), "main".to_string(), 0)
}

fn set_up(text: String) -> Plan {
    Plan {
        steps: vec![
            Step::Begin,
            Step::Query(Request { text, bindings: vec![] }),
            Step::Check,
            Step::Commit,
        ],
    }
}

#[test]
fn tables_of_a_document_are_set_up() {
    let published_table = "post";
    let draft_table = "post_draft";
    let meta_table = "post_meta";
    let script = format!("DEFINE TABLE OVERWRITE {published_table} SCHEMAFULL PERMISSIONS FOR select WHERE true FOR create, update, delete WHERE $auth.id IS NOT NONE;
            DEFINE FIELD OVERWRITE published_at ON {published_table} TYPE datetime DEFAULT time::now();
            DEFINE FIELD IF NOT EXISTS inner ON {published_table} TYPE object FLEXIBLE;
            UPDATE {published_table} SET published_at = time::now() WHERE published_at = NONE;
            DEFINE TABLE OVERWRITE {draft_table} SCHEMAFULL PERMISSIONS FOR select, create, update, delete WHERE $auth.id IS NOT NONE;
            DEFINE FIELD IF NOT EXISTS inner ON {draft_table} TYPE object FLEXIBLE;
            DEFINE TABLE OVERWRITE {meta_table} SCHEMAFULL PERMISSIONS FOR select, create, update, delete WHERE $auth.id IS NOT NONE;
            DEFINE FIELD IF NOT EXISTS created_at ON {meta_table} TYPE datetime DEFAULT time::now();
            DEFINE FIELD IF NOT EXISTS modified_at ON {meta_table} TYPE datetime;
            DEFINE FIELD IF NOT EXISTS draft ON {meta_table} TYPE option<record<{draft_table}>>;
            DEFINE FIELD IF NOT EXISTS published ON {meta_table} TYPE option<record<{published_table}>>;
            DEFINE FUNCTION OVERWRITE fn::{published_table}_public() {{ RETURN (array::map(SELECT inner FROM {published_table} WHERE published_at < time::now(), |$v| $v.inner)) }};");
    assert_eq!(connection().init_doc("post"), set_up(script));
}

#[test]
fn users_are_set_up() {
    let script = "DEFINE TABLE OVERWRITE sc__editor SCHEMAFULL PERMISSIONS FOR select, update, delete WHERE id = $auth.id OR $auth.admin = true FOR create WHERE $auth.admin = true;
            DEFINE FIELD IF NOT EXISTS name ON sc__editor TYPE string;
            DEFINE FIELD IF NOT EXISTS email ON sc__editor TYPE string ASSERT string::is_email($value);
            DEFINE FIELD IF NOT EXISTS password ON sc__editor TYPE option<string>;
            DEFINE FIELD IF NOT EXISTS admin ON sc__editor TYPE bool;
            DEFINE FIELD IF NOT EXISTS oidc_subject ON sc__editor TYPE option<string>;
            DEFINE FIELD IF NOT EXISTS pfp_url ON sc__editor TYPE option<string>;
            DEFINE INDEX IF NOT EXISTS email ON sc__editor FIELDS email UNIQUE;
            DEFINE INDEX IF NOT EXISTS oidc_subject ON sc__editor FIELDS oidc_subject UNIQUE;
            DEFINE ACCESS OVERWRITE sc__editor ON DATABASE TYPE RECORD SIGNIN (RETURN IF $subject != NONE
	{

		LET $intermediate_query = (SELECT * FROM sc__editor WHERE oidc_subject = $subject);

		IF $intermediate_query = []
			{
				RETURN (INSERT INTO sc__editor {
					admin: true,
					email: $email,
					name: $username,
					oidc_subject: $subject,
					pfp_url: $pfp_url
				});
			}
		ELSE
			{
				RETURN $intermediate_query;
			}
		;

            }
            ELSE
	{
		RETURN (SELECT * FROM sc__editor WHERE email = $email AND crypto::argon2::compare(password, $password));
	}
            )";
    assert_eq!(connection().init_auth(), set_up(script.to_string()));
}

#[test]
fn table_names_differ() {
    let Step::Query(request) = &connection().init_doc("a").steps[1] else {
        panic!("a script");
    };
    assert!(request.text.contains("DEFINE TABLE OVERWRITE a SCHEMAFULL"));
    assert!(request.text.contains("DEFINE TABLE OVERWRITE a_draft SCHEMAFULL"));
    assert!(request.text.contains("DEFINE TABLE OVERWRITE a_meta SCHEMAFULL"));
}

#[test]
fn failed_setup_names_the_table_and_the_error() {
    assert_eq!(
        init_doc_failure("post", "no connection"),
        "setting up tables for post failed: no connection"
    );
}
