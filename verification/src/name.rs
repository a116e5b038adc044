//! Directory names derived from application names.

use vstd::prelude::*;

verus! {

/// The character that stands for `c` in a directory name: a space becomes a
/// hyphen, an ASCII capital becomes its small letter, anything else stays.
pub open spec fn kebab_char(c: char) -> char {
    if c == ' ' {
        '-'
    } else if 'A' <= c && c <= 'Z' {
        ((c as u8 + 32) as u8) as char
    } else {
        c
    }
}

/// The directory name of an application: its name, character by character
/// through [`kebab_char`].
pub open spec fn kebab(name: Seq<char>) -> Seq<char> {
    Seq::new(name.len(), |i: int| kebab_char(name[i]))
}

/// `String::push` appends one character to the end of the string.
pub assume_specification[ String::push ](s: &mut String, ch: char)
    ensures
        final(s)@ == old(s)@.push(ch),
;

/// Computes [`kebab_char`].
pub fn normalize_char(c: char) -> (out: char)
    ensures
        out == kebab_char(c),
{
    if c == ' ' {
        '-'
    } else if 'A' <= c && c <= 'Z' {
        let code: u8 = c as u8;
        (code + 32) as char
    } else {
        c
    }
}

/// The lower-case, hyphenated form of `app_name` that is used as the name of
/// the application's configuration directory.
pub fn normalize_app_name(app_name: &str) -> (out: String)
    ensures
        out@ == kebab(app_name@),
{
    let mut out = String::new();
    for c in chars: app_name.chars()
        invariant
            chars.seq() == app_name@,
            out@ == kebab(app_name@.take(chars.index() as int)),
    {
        out.push(normalize_char(c));
        assert(out@ =~= kebab(app_name@.take(chars.index() + 1)));
    }
    assert(app_name@.take(app_name@.len() as int) =~= app_name@);
    out
}

/// A normalized name has as many characters as the name it was made from.
pub proof fn kebab_keeps_length(name: Seq<char>)
    ensures
        kebab(name).len() == name.len(),
{
}

/// A normalized name holds no space and no ASCII capital.
pub proof fn kebab_has_no_space_or_capital(name: Seq<char>, i: int)
    requires
        0 <= i < name.len(),
    ensures
        kebab(name)[i] != ' ',
        !('A' <= kebab(name)[i] && kebab(name)[i] <= 'Z'),
{
}

/// Normalizing a normalized name changes nothing.
pub proof fn kebab_is_idempotent(name: Seq<char>)
    ensures
        kebab(kebab(name)) == kebab(name),
{
    assert(kebab(kebab(name)) =~= kebab(name));
}

} // verus!
