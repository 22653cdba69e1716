use vstd::prelude::*;
use vstd::utf8::{decode_utf8, valid_utf8};

verus! {

/// The text that Rust's `Debug` formatting gives for a string: the string in
/// double quotes, with quotes, backslashes and control characters escaped.
pub uninterp spec fn spec_debug_string(s: Seq<char>) -> Seq<char>;

/// Calls std's `format!("{:?}", s)`. Trusted: its result is taken to be
/// `spec_debug_string(s)`, a function of `s` alone; nothing more is stated.
#[verifier::external_body]
pub(crate) fn debug_string(s: &str) -> (res: String)
    ensures
        res@ == spec_debug_string(s@),
{
    format!("{:?}", s)
}

/// The text of the first capture group in the leftmost match of the regular
/// expression `pattern` in `text`; `None` when the pattern does not compile,
/// nothing matches, or the group took no part in the match.
pub uninterp spec fn spec_first_capture(pattern: Seq<char>, text: Seq<char>) -> Option<Seq<char>>;

/// Calls `regex::Regex::new(pattern)` and then `captures(text)` and
/// `get(1)` on the result. Trusted: the result is taken to be
/// `spec_first_capture(pattern, text)`, a function of the two texts alone;
/// a pattern that does not compile gives `None`. Which match and group the
/// regex crate picks is not stated here.
#[verifier::external_body]
pub(crate) fn first_capture(pattern: &str, text: &str) -> (res: Option<String>)
    ensures
        match res {
            Some(s) => spec_first_capture(pattern@, text@) == Some(s@),
            None => spec_first_capture(pattern@, text@) is None,
        },
{
    let re = regex::Regex::new(pattern).ok()?;
    re.captures(text).and_then(|c| c.get(1)).map(|m| m.as_str().to_string())
}

/// Calls `String::from_utf8(bytes)`. Trusted: it succeeds exactly when the
/// bytes are valid UTF-8 and then holds the characters they encode; the
/// error is turned into `None`.
#[verifier::external_body]
pub(crate) fn utf8_string(bytes: Vec<u8>) -> (res: Option<String>)
    ensures
        res is Some <==> valid_utf8(bytes@),
        res matches Some(s) ==> s@ == decode_utf8(bytes@),
{
    String::from_utf8(bytes).ok()
}

/// The parent of the path `p` (the path without its last component), as
/// `std::path::Path::parent` computes it; `None` for the root or an empty path.
pub uninterp spec fn spec_path_parent(p: Seq<char>) -> Option<Seq<char>>;

/// Calls `std::path::Path::new(p).parent()`. Trusted: the result is taken
/// to be `spec_path_parent(p)`, a function of `p` alone.
#[verifier::external_body]
pub(crate) fn path_parent(p: &str) -> (res: Option<String>)
    ensures
        match res {
            Some(s) => spec_path_parent(p@) == Some(s@),
            None => spec_path_parent(p@) is None,
        },
{
    std::path::Path::new(p).parent().map(|q| q.to_string_lossy().into_owned())
}

/// The text that Rust's `Debug` formatting gives for the path `p`: the path
/// in double quotes, with its characters escaped as std escapes paths.
pub uninterp spec fn spec_debug_path(p: Seq<char>) -> Seq<char>;

/// Calls std's `format!("{:?}", std::path::Path::new(p))`. Trusted: its
/// result is taken to be `spec_debug_path(p)`, a function of `p` alone;
/// nothing more is stated.
#[verifier::external_body]
pub(crate) fn debug_path(p: &str) -> (res: String)
    ensures
        res@ == spec_debug_path(p@),
{
    format!("{:?}", std::path::Path::new(p))
}

} // verus!
