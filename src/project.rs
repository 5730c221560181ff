//! The directory name of a new project, derived from the name it was given:
//! separators become dashes between the alphanumeric words, everything else
//! is dropped, and the result is lower case.

use vstd::prelude::*;
use vstd::string::{StrSliceExecFns, StringExecFns};

verus! {

/// What `char::is_alphanumeric` says of a character.
pub uninterp spec fn is_alphanumeric_char(c: char) -> bool;

/// What `char::is_numeric` says of a character.
pub uninterp spec fn is_numeric_char(c: char) -> bool;

/// What `str::to_lowercase` gives for a text.
pub uninterp spec fn lower_of(s: Seq<char>) -> Seq<char>;

/// Relies on `char::is_alphanumeric`, whose answer depends on the character
/// alone.
#[verifier::external_body]
fn alphanumeric(c: char) -> (r: bool)
    ensures
        r == is_alphanumeric_char(c),
{
    c.is_alphanumeric()
}

/// Relies on `char::is_numeric`, whose answer depends on the character alone.
#[verifier::external_body]
fn numeric(c: char) -> (r: bool)
    ensures
        r == is_numeric_char(c),
{
    c.is_numeric()
}

/// Relies on `str::to_lowercase`: the result depends on the characters alone.
#[verifier::external_body]
fn lowercase(s: &str) -> (r: String)
    ensures
        r@ == lower_of(s@),
{
    s.to_lowercase()
}

/// Relies on `String`'s `FromIterator<char>`: the string of the characters,
/// in order.
#[verifier::external_body]
fn string_from_chars(v: &Vec<char>) -> (r: String)
    ensures
        r@ == v@,
{
    v.iter().collect()
}

/// A character that separates words of a name.
pub open spec fn is_separator(c: char) -> bool {
    c == ' ' || c == '-' || c == '_'
}

/// The name with separators turned into spaces and all characters but
/// alphanumeric ones and separators dropped.
pub open spec fn word_chars(cs: Seq<char>) -> Seq<char>
    decreases cs.len(),
{
    if cs.len() == 0 {
        seq![]
    } else {
        let p = word_chars(cs.drop_last());
        let c = cs.last();
        if is_separator(c) {
            p.push(' ')
        } else if is_alphanumeric_char(c) {
            p.push(c)
        } else {
            p
        }
    }
}

/// The words of `t` (its runs of characters other than spaces), joined by
/// dashes.
pub open spec fn dash_words(t: Seq<char>) -> Seq<char>
    decreases t.len(),
{
    if t.len() == 0 {
        seq![]
    } else {
        let p = dash_words(t.drop_last());
        let c = t.last();
        if c == ' ' {
            p
        } else if t.len() >= 2 && t[t.len() - 2] == ' ' && p.len() > 0 {
            p.push('-').push(c)
        } else {
            p.push(c)
        }
    }
}

/// The directory name for a project name.
pub open spec fn path_name(name: Seq<char>) -> Seq<char> {
    lower_of(dash_words(word_chars(name)))
}

/// The directory name for a project name.
pub fn normalize_name_to_path(name: &str) -> (r: String)
    ensures
        r@ == path_name(name@),
{
    let n = name.unicode_len();
    let mut words: Vec<char> = Vec::new();
    let mut out: Vec<char> = Vec::new();
    let mut i: usize = 0;
    while i < n
        invariant
            i <= n,
            n == name@.len(),
            words@ == word_chars(name@.take(i as int)),
            out@ == dash_words(words@),
        decreases n - i,
    {
        let c = name.get_char(i);
        assert(name@.take(i + 1).drop_last() =~= name@.take(i as int));
        let ghost before = words@;
        if c == ' ' || c == '-' || c == '_' {
            words.push(' ');
            assert(words@.drop_last() =~= before);
        } else if alphanumeric(c) {
            let k = words.len();
            if k > 0 && words[k - 1] == ' ' && out.len() > 0 {
                out.push('-');
            }
            words.push(c);
            assert(words@.drop_last() =~= before);
            out.push(c);
        }
        i = i + 1;
    }
    assert(name@.take(n as int) =~= name@);
    let joined = string_from_chars(&out);
    lowercase(joined.as_str())
}

/// The error of a project name that gives no usable directory name.
#[derive(Debug, Clone)]
pub struct NewError(pub String);

/// Text of the error for a name that leaves nothing.
pub const EMPTY_NAME: &'static str = "project name can't be empty";

/// Text of the error for a name that starts with a digit.
pub const NUMERIC_START: &'static str = "project name can't start with a number";

/// The directory name for a project name, where it is usable: not empty and
/// not starting with a numeric character.
pub fn project_dir_name(name: &str) -> (r: Result<String, NewError>)
    ensures
        path_name(name@).len() == 0 ==> (r matches Err(e) && e.0@ == EMPTY_NAME@),
        path_name(name@).len() > 0 && is_numeric_char(path_name(name@)[0]) ==> (r matches Err(e)
            && e.0@ == NUMERIC_START@),
        path_name(name@).len() > 0 && !is_numeric_char(path_name(name@)[0]) ==> (r matches Ok(d)
            && d@ == path_name(name@)),
{
    let d = normalize_name_to_path(name);
    if d.as_str().unicode_len() == 0 {
        return Err(NewError(String::from_str(EMPTY_NAME)));
    }
    if numeric(d.as_str().get_char(0)) {
        return Err(NewError(String::from_str(NUMERIC_START)));
    }
    Ok(d)
}

} // verus!
