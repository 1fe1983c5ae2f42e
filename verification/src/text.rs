//! Small helpers on path and message text.

use vstd::prelude::*;
use vstd::string::*;

verus! {

/// The texts of a sequence of strings, in order.
pub open spec fn texts(strings: Seq<String>) -> Seq<Seq<char>> {
    strings.map_values(|s: String| s@)
}

/// The text that Rust's `Debug` formatting gives for a string: the string in
/// double quotes, with the characters that need it escaped.
pub uninterp spec fn debug_text(text: Seq<char>) -> Seq<char>;

/// Formats `text` with `{:?}`, the `Debug` impl of `str`. Trusted: the
/// result is named by [`debug_text`], nothing more is claimed of it.
#[verifier::external_body]
pub(crate) fn debug_quoted(text: &str) -> (quoted: String)
    ensures
        quoted@ == debug_text(text@),
{
    format!("{:?}", text)
}

/// Appends `c` with `String::push`. Trusted: the text grows by exactly this
/// character at its end.
#[verifier::external_body]
pub(crate) fn push_char(text: &mut String, c: char)
    ensures
        final(text)@ == old(text)@.push(c),
{
    text.push(c)
}

/// `before`, then `text` as `Debug` formatting shows it.
pub fn quoted_after(before: &str, text: &str) -> (message: String)
    ensures
        message@ == before@ + debug_text(text@),
{
    let mut message = String::from_str(before);
    message.append(debug_quoted(text).as_str());
    message
}

/// `before`, then `text` as `Debug` formatting shows it, then `after`.
pub fn quoted_between(before: &str, text: &str, after: &str) -> (message: String)
    ensures
        message@ == before@ + debug_text(text@) + after@,
{
    let mut message = quoted_after(before, text);
    message.append(after);
    message
}

/// `name` placed under the directory `base`: the two are joined by one `/`,
/// unless `base` is empty or already ends in one.
pub open spec fn joined(base: Seq<char>, name: Seq<char>) -> Seq<char> {
    if base.len() == 0 {
        name
    } else if base.last() == '/' {
        base + name
    } else {
        base + seq!['/'] + name
    }
}

/// Joins a relative `name` to the directory `base`.
pub fn join_path(base: &str, name: &str) -> (path: String)
    ensures
        path@ == joined(base@, name@),
{
    let n = base.unicode_len();
    if n == 0 {
        return String::from_str(name);
    }
    let mut path = String::from_str(base);
    if base.get_char(n - 1) != '/' {
        proof {
            reveal_strlit("/");
            assert("/"@ =~= seq!['/']);
        }
        path.append("/");
    }
    path.append(name);
    path
}

/// `first` followed by `second`.
pub fn append_str(first: &str, second: &str) -> (text: String)
    ensures
        text@ == first@ + second@,
{
    let mut text = String::from_str(first);
    text.append(second);
    text
}

} // verus!
