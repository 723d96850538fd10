//! What this library takes on trust: the parts of the standard library and of
//! other crates that it calls, each with the contract that it relies on. None of
//! these contracts is proved here.

use std::path::PathBuf;
use vstd::prelude::*;

verus! {

/// `String::push` appends one character to the string.
pub assume_specification[ String::push ](text: &mut String, ch: char)
    ensures
        final(text)@ == old(text)@.push(ch),
;

/// The text that `str::to_lowercase` makes of `text`: each character in its
/// lower case.
pub uninterp spec fn lowercase(text: Seq<char>) -> Seq<char>;

/// `str::to_lowercase` gives the text in lower case.
pub assume_specification[ str::to_lowercase ](text: &str) -> (lowered: String)
    ensures
        lowered@ == lowercase(text@),
;

/// The text that `str::trim` leaves of `text`: `text` without the white space
/// at its start and at its end.
pub uninterp spec fn trimmed(text: Seq<char>) -> Seq<char>;

/// `str::trim` gives the text without the white space around it.
pub assume_specification[ str::trim ](text: &str) -> (inner: &str)
    ensures
        inner@ == trimmed(text@),
;

/// A path of the file system. Nothing of what it holds is known here.
#[verifier::external_type_specification]
#[verifier::external_body]
pub struct ExPathBuf(PathBuf);

/// The error of `serde_json`. Nothing of what it holds is known here.
#[verifier::external_type_specification]
#[verifier::external_body]
pub struct ExJsonError(serde_json::Error);

/// The path that `PathBuf::push` makes of the path `base` and the path `part`.
/// Where `part` is relative, that is `part` below `base`.
pub uninterp spec fn pushed(base: PathBuf, part: Seq<char>) -> PathBuf;

/// The JSON string literal that `serde_json::to_string` writes for `text`:
/// the text in double quotes, with the escapes that JSON asks for.
pub uninterp spec fn json_string(text: Seq<char>) -> Seq<char>;

/// `dirs::config_dir`: the directory in which this user's programs keep their
/// settings. It is taken from the environment, so nothing is known of it, and
/// there may be none.
#[verifier::external_body]
pub(crate) fn config_dir() -> (dir: Option<PathBuf>) {
    dirs::config_dir()
}

/// `PathBuf::push`: `base`, extended by `part`.
#[verifier::external_body]
pub(crate) fn child(base: PathBuf, part: &str) -> (path: PathBuf)
    ensures
        path == pushed(base, part@),
{
    let mut path = base;
    path.push(part);
    path
}

/// `serde_json::to_string` on a string: its JSON string literal. The call
/// succeeds on every string: it writes to a byte vector, which takes all that
/// is written to it, and a string gives the writer nothing else to refuse.
#[verifier::external_body]
pub(crate) fn quote(text: &str) -> (quoted: Result<String, serde_json::Error>)
    ensures
        quoted is Ok,
        quoted matches Ok(literal) ==> literal@ == json_string(text@),
{
    serde_json::to_string(text)
}

} // verus!
