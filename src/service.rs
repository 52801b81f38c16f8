//! The request cycle as decisions: what a request path asks for, what to do
//! with the page that was fetched for it, and when the exact lookup falls back
//! to the fuzzy one. Fetching the page is the caller's part.

use vstd::prelude::*;
use vstd::utf8::{decode_utf8, valid_utf8};
use crate::error::LookupError;
use crate::lookup::{lookup_result, lookup_rows, opt_view};
use crate::page::{optab_rows, page_rows};
use crate::text::{decode_text, lower_of, lowercase, strip_slashes, strip_slashes_of};

verus! {

/// The body returned for a request that names no opcode.
pub const USAGE: &'static str = "Please specify a libSQL/SQLite opcode in the path, e.g. /init";

/// The path that browsers ask for on their own; it gets an empty answer.
pub const FAVICON: &'static str = "favicon.ico";

/// What the service does next.
#[derive(Debug, PartialEq, Eq)]
pub enum Action {
    /// Answer with this body; `None` is an empty body.
    Reply(Option<String>),
    /// Fetch the reference page and look `key` up in it, exactly or not.
    Fetch { key: String, exact: bool },
}

/// The lookup key of a request path: without its leading and trailing
/// slashes, in lower case.
pub open spec fn lookup_key(path: Seq<char>) -> Seq<char> {
    lower_of(strip_slashes(path))
}

/// Derives the lookup key from a request path.
pub fn lookup_key_of(path: &str) -> (r: String)
    ensures
        r@ == lookup_key(path@),
        r@.len() == 0 <==> strip_slashes(path@).len() == 0,
{
    lowercase(strip_slashes_of(path))
}

/// What the first step of a request is, given its lookup key.
pub open spec fn start_action(key: Seq<char>, r: Action) -> bool {
    if key.len() == 0 {
        r matches Action::Reply(Some(body)) && body@ == USAGE@
    } else if key == FAVICON@ {
        r == Action::Reply(None)
    } else {
        r matches Action::Fetch { key: k, exact } && k@ == key && exact
    }
}

/// The first step of a request for `path`: the usage text for an empty key,
/// an empty body for the favicon, otherwise an exact lookup of the key.
pub fn start(path: &str) -> (r: Action)
    ensures
        start_action(lookup_key(path@), r),
        strip_slashes(path@).len() == 0 <==> (r matches Action::Reply(Some(body)) && body@ == USAGE@),
{
    let key = lookup_key_of(path);
    if key.as_str().is_empty() {
        return Action::Reply(Some(USAGE.to_owned()));
    }
    let favicon = FAVICON.to_owned();
    if key == favicon {
        Action::Reply(None)
    } else {
        Action::Fetch { key, exact: true }
    }
}

/// The step after a lookup of `key` found `found`.
pub open spec fn next_action(key: Seq<char>, exact: bool, found: Option<Seq<char>>, r: Action) -> bool {
    if exact && found is None {
        r matches Action::Fetch { key: k, exact: e } && k@ == key && !e
    } else {
        r matches Action::Reply(body) && opt_view(body) == found
    }
}

/// Decides the step after a lookup: an exact lookup that found nothing is
/// retried as a fuzzy one; any other outcome is the answer.
pub fn after_lookup(key: &str, exact: bool, found: Option<String>) -> (r: Action)
    ensures
        next_action(key@, exact, opt_view(found), r),
{
    if exact && found.is_none() {
        Action::Fetch { key: key.to_owned(), exact: false }
    } else {
        Action::Reply(found)
    }
}

/// Looks `opcode_name` up in a fetched page: the page must be UTF-8 text;
/// the answer is that of the lookup over the page's opcode rows.
pub fn fetch_opcode_info(page: &[u8], opcode_name: &str, exact_match: bool) -> (r: Result<
    Option<String>,
    LookupError,
>)
    ensures
        !valid_utf8(page@) ==> r == Err::<Option<String>, LookupError>(LookupError::Decode),
        valid_utf8(page@) ==> (r matches Ok(found) && opt_view(found) == lookup_result(
            page_rows(decode_utf8(page@)),
            opcode_name@,
            exact_match,
        )),
{
    let text = match decode_text(page) {
        Some(t) => t,
        None => {
            return Err(LookupError::Decode);
        },
    };
    let rows = optab_rows(text.as_str());
    let found = lookup_rows(&rows, opcode_name, exact_match);
    Ok(found)
}

/// Handles the page fetched for a lookup of `key`: the lookup itself, then
/// the step that follows it.
pub fn on_page(key: &str, exact: bool, page: &[u8]) -> (r: Result<Action, LookupError>)
    ensures
        !valid_utf8(page@) ==> r == Err::<Action, LookupError>(LookupError::Decode),
        valid_utf8(page@) ==> (r matches Ok(a) && next_action(
            key@,
            exact,
            lookup_result(page_rows(decode_utf8(page@)), key@, exact),
            a,
        )),
{
    match fetch_opcode_info(page, key, exact) {
        Ok(found) => Ok(after_lookup(key, exact, found)),
        Err(e) => Err(e),
    }
}

} // verus!
