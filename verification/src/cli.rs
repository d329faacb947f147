//! Checks and clean-up of the values given on the command line.

use crate::text::{string_of, to_chars};
use vstd::prelude::*;

verus! {

/// `s` without the `/` characters at its end.
pub open spec fn without_trailing_slashes(s: Seq<char>) -> Seq<char>
    decreases s.len(),
{
    if s.len() > 0 && s.last() == '/' {
        without_trailing_slashes(s.drop_last())
    } else {
        s
    }
}

/// The answer to a source directory given on the command line: the
/// directory's name where it is a directory, else a message that says it is
/// none.
pub open spec fn validated(s: Seq<char>, is_dir: bool) -> Result<Seq<char>, Seq<char>> {
    if is_dir {
        Ok(s)
    } else {
        Err(s + " is not a directory"@)
    }
}

/// The reading of a validation result.
pub open spec fn result_text(r: Result<String, String>) -> Result<Seq<char>, Seq<char>> {
    match r {
        Ok(s) => Ok(s@),
        Err(e) => Err(e@),
    }
}

/// Accepts the source directory `s` where `is_dir` says that it is an
/// existing directory, and refuses it with a message where it is not.
pub fn directory_validator(s: &str, is_dir: bool) -> (r: Result<String, String>)
    ensures
        result_text(r) == validated(s@, is_dir),
{
    if is_dir {
        Ok(String::from_str(s))
    } else {
        let mut message = String::from_str(s);
        message.append(" is not a directory");
        Err(message)
    }
}

/// The prefix under which the site is served, as it is put into templates:
/// the configured value without the `/` characters at its end.
pub fn trim_root_dir(root_dir: &str) -> (trimmed: String)
    ensures
        trimmed@ == without_trailing_slashes(root_dir@),
{
    let chars = to_chars(root_dir);
    let mut end: usize = chars.len();
    assert(chars@.take(end as int) =~= chars@);
    while end > 0 && chars[end - 1] == '/'
        invariant
            end <= chars.len(),
            without_trailing_slashes(chars@) == without_trailing_slashes(chars@.take(end as int)),
        decreases end,
    {
        assert(chars@.take(end as int).drop_last() =~= chars@.take(end - 1));
        end -= 1;
    }
    string_of(&chars, 0, end)
}

} // verus!
