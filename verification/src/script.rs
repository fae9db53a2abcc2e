//! The statements that scripts are made of.

use vstd::prelude::*;

verus! {

/// What stands between two statements of a script.
pub const SEPARATOR: &'static str = ";
            ";

/// Names the record of a document's draft.
pub const LET_DRAFT_ID: &'static str =
    "LET $draft_id = type::thing(string::concat($doc, '_draft'), $id)";

/// Names the record of what is known about a document.
pub const LET_META_ID: &'static str =
    "LET $meta_id = type::thing(string::concat($doc, '_meta'), $id)";

/// Names the record of a document's published version.
pub const LET_PUBLISHED_ID: &'static str = "LET $published_id = type::thing($doc, $id)";

/// Removes a document's draft.
pub const DELETE_DRAFT: &'static str = "DELETE $draft_id";

/// The columns of an item: the draft's content where there is a draft, else that of the
/// published version.
pub const SELECT_ITEM: &'static str = "SELECT
                id,
                created_at,
                modified_at,
                IF draft IS NOT NONE THEN draft.inner ELSE published.inner END AS inner,
                published.published_at AS published_at
            FROM ";

/// Resolves the links of an item to the records behind them.
pub const FETCH_VERSIONS: &'static str = "
            FETCH draft, published";

/// The statement that reads items from `source`.
pub open spec fn item_selection(source: Seq<char>) -> Seq<char> {
    SELECT_ITEM@ + source + FETCH_VERSIONS@
}

/// Writes the statement that reads items from `source`.
pub fn select_items(source: &str) -> (statement: String)
    ensures
        statement@ == item_selection(source@),
{
    SELECT_ITEM.to_owned().concat(source).concat(FETCH_VERSIONS)
}

/// An item is read with its id and its times, with its draft's content where it has a draft and
/// its published content otherwise, and with the time of its publication.
pub proof fn items_are_read_whole(source: &str, statement: String)
    requires
        call_ensures(select_items, (source,), statement),
    ensures
        statement@ == "SELECT
                id,
                created_at,
                modified_at,
                IF draft IS NOT NONE THEN draft.inner ELSE published.inner END AS inner,
                published.published_at AS published_at
            FROM "@ + source@ + "
            FETCH draft, published"@,
{
}

} // verus!
