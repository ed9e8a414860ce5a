//! Values that the process module shows to the host.
use vstd::prelude::*;
use vstd::string::StrSliceExecFns;

verus! {

/// `dir` with `sep` appended, unless it already ends with `sep`.
pub open spec fn with_separator(dir: Seq<char>, sep: char) -> Seq<char> {
    if dir.len() > 0 && dir.last() == sep {
        dir
    } else {
        dir.push(sep)
    }
}

/// Whether the last character of `s` is `c`.
fn ends_with_char(s: &str, c: char) -> (r: bool)
    ensures
        r == (s@.len() > 0 && s@.last() == c),
{
    let n = s.unicode_len();
    n > 0 && s.get_char(n - 1) == c
}

/// Relies on `String::push`: appends one character.
#[verifier::external_body]
fn push_char(s: &mut String, c: char)
    ensures
        final(s)@ == old(s)@.push(c),
{
    s.push(c)
}

/// Relies on `std::path::MAIN_SEPARATOR`: the platform's path separator,
/// `/` on Unix and `\` on Windows.
#[verifier::external_body]
fn main_separator() -> (r: char)
    ensures
        r == '/' || r == '\\',
{
    std::path::MAIN_SEPARATOR
}

/// Appends `sep` to `dir` unless `dir` already ends with it.
pub fn with_trailing_separator(dir: String, sep: char) -> (r: String)
    ensures
        r@ == with_separator(dir@, sep),
{
    let mut out = dir;
    if !ends_with_char(out.as_str(), sep) {
        push_char(&mut out, sep);
    }
    out
}

/// The working directory as the host sees it: always ending with the
/// platform's path separator, which is added only when missing.
pub fn host_cwd(dir: String) -> (r: String)
    ensures
        r@.len() > 0,
        r@.last() == '/' || r@.last() == '\\',
        r@ == with_separator(dir@, r@.last()),
{
    let sep = main_separator();
    with_trailing_separator(dir, sep)
}

/// A directory shown through `with_separator` ends with the separator, and
/// showing it again changes nothing.
pub proof fn lemma_separator_idempotent(dir: Seq<char>, sep: char)
    ensures
        with_separator(dir, sep).len() > 0,
        with_separator(dir, sep).last() == sep,
        with_separator(with_separator(dir, sep), sep) == with_separator(dir, sep),
{
}

} // verus!
