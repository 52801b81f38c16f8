//! Text primitives on `str`: the pieces of `std` that the lookup relies on,
//! each with the contract the rest of the library proves against.

use vstd::prelude::*;
use vstd::string::StrSliceExecFns;
use vstd::utf8::{decode_utf8, valid_utf8};

verus! {

/// `needle` occurs in `hay` as a contiguous run of characters.
pub open spec fn is_infix(needle: Seq<char>, hay: Seq<char>) -> bool {
    exists|i: int|
        0 <= i && i + needle.len() <= hay.len() && #[trigger] hay.subrange(i, i + needle.len())
            == needle
}

/// The characters with the Unicode `White_Space` property.
pub open spec fn is_white_space(c: char) -> bool {
    let u = c as u32;
    (0x9 <= u && u <= 0xd) || u == 0x20 || u == 0x85 || u == 0xa0 || u == 0x1680 || (0x2000 <= u
        && u <= 0x200a) || u == 0x2028 || u == 0x2029 || u == 0x202f || u == 0x205f || u == 0x3000
}

/// `s` without its leading white space.
pub open spec fn trim_start_of(s: Seq<char>) -> Seq<char>
    decreases s.len(),
{
    if s.len() > 0 && is_white_space(s[0]) {
        trim_start_of(s.drop_first())
    } else {
        s
    }
}

/// `s` without its trailing white space.
pub open spec fn trim_end_of(s: Seq<char>) -> Seq<char>
    decreases s.len(),
{
    if s.len() > 0 && is_white_space(s.last()) {
        trim_end_of(s.drop_last())
    } else {
        s
    }
}

/// `s` without its leading and trailing white space.
pub open spec fn trim_of(s: Seq<char>) -> Seq<char> {
    trim_end_of(trim_start_of(s))
}

/// The lower-case form of a string, as Unicode defines it.
pub uninterp spec fn lower_of(s: Seq<char>) -> Seq<char>;

/// Relies on `str::to_lowercase`: the result depends on the characters alone,
/// and is empty exactly when the input is (each character maps to one or
/// more characters).
#[verifier::external_body]
pub(crate) fn lowercase(s: &str) -> (r: String)
    ensures
        r@ == lower_of(s@),
        r@.len() == 0 <==> s@.len() == 0,
{
    s.to_lowercase()
}

/// Relies on `str::trim`: leading and trailing characters with the
/// `White_Space` property are removed.
#[verifier::external_body]
pub(crate) fn trim(s: &str) -> (r: String)
    ensures
        r@ == trim_of(s@),
{
    s.trim().to_string()
}

/// Relies on `str::contains` with a `&str` pattern: true exactly when
/// `needle` occurs in `hay`.
#[verifier::external_body]
pub(crate) fn contains(hay: &str, needle: &str) -> (r: bool)
    ensures
        r == is_infix(needle@, hay@),
{
    hay.contains(needle)
}

/// Relies on `std::str::from_utf8`: the bytes are decoded exactly when they
/// are well-formed UTF-8.
#[verifier::external_body]
pub(crate) fn decode_text(bytes: &[u8]) -> (r: Option<String>)
    ensures
        r is Some <==> valid_utf8(bytes@),
        r matches Some(s) ==> s@ == decode_utf8(bytes@),
{
    std::str::from_utf8(bytes).ok().map(String::from)
}

/// `path` with one leading and one trailing slash removed, where present.
pub open spec fn strip_slashes(path: Seq<char>) -> Seq<char> {
    let inner = if path.len() > 0 && path[0] == '/' {
        path.drop_first()
    } else {
        path
    };
    if inner.len() > 0 && inner.last() == '/' {
        inner.drop_last()
    } else {
        inner
    }
}

/// Removes one leading and one trailing `/` from `path`, where present.
pub fn strip_slashes_of(path: &str) -> (r: &str)
    ensures
        r@ == strip_slashes(path@),
{
    let len = path.unicode_len();
    let mut from: usize = 0;
    if len > 0 && path.get_char(0) == '/' {
        from = 1;
    }
    let mut to: usize = len;
    if to > from && path.get_char(to - 1) == '/' {
        to = to - 1;
    }
    let r = path.substring_char(from, to);
    proof {
        let inner = if path@.len() > 0 && path@[0] == '/' {
            path@.drop_first()
        } else {
            path@
        };
        assert(inner =~= path@.subrange(from as int, len as int));
        if to < len {
            assert(inner.drop_last() =~= path@.subrange(from as int, to as int));
        }
    }
    r
}

} // verus!
