//! What this crate takes on trust from the crates it calls. Nothing here
//! is proved: each contract restates what the called crate documents.

use vstd::prelude::*;

verus! {

// ---------------------------------------------------------------------
// regex
// ---------------------------------------------------------------------
/// What `Regex::replace_all` gives for the expression compiled from
/// `pattern`; nothing where `Regex::new` refuses the pattern.
pub uninterp spec fn regex_replaced(pattern: Seq<char>, text: Seq<char>, replacement: Seq<
    char,
>) -> Option<Seq<char>>;

/// What `Regex::is_match` gives for the expression compiled from
/// `pattern`; nothing where `Regex::new` refuses the pattern.
pub uninterp spec fn regex_matches(pattern: Seq<char>, text: Seq<char>) -> Option<bool>;

/// `regex::Regex::new` followed by `Regex::replace_all`: every match of
/// the pattern in `text`, left to right and without overlap, is replaced.
/// The result depends on the three texts alone.
#[verifier::external_body]
pub(crate) fn replace_all(pattern: &str, text: &str, replacement: &str) -> (r: Option<String>)
    ensures
        match r {
            Some(s) => regex_replaced(pattern@, text@, replacement@) == Some(s@),
            None => regex_replaced(pattern@, text@, replacement@) is None,
        },
{
    match regex::Regex::new(pattern) {
        Ok(re) => Some(re.replace_all(text, replacement).into_owned()),
        Err(_) => None,
    }
}

/// `regex::Regex::new` followed by `Regex::is_match`: whether the pattern
/// matches somewhere in `text`. The result depends on the two texts alone.
#[verifier::external_body]
pub(crate) fn is_match(pattern: &str, text: &str) -> (r: Option<bool>)
    ensures
        r == regex_matches(pattern@, text@),
{
    match regex::Regex::new(pattern) {
        Ok(re) => Some(re.is_match(text)),
        Err(_) => None,
    }
}

// ---------------------------------------------------------------------
// sanitize-filename
// ---------------------------------------------------------------------
/// What `sanitize_filename::sanitize` gives for `name` where the crate
/// was built for Windows (`windows`) or for another system.
pub uninterp spec fn sanitized(name: Seq<char>, windows: bool) -> Seq<char>;

/// `sanitize_filename::sanitize`: `name` without the characters that no
/// file name may hold. The crate applies further rules when it was built
/// for Windows, so the result is one of two, each fixed by `name`.
#[verifier::external_body]
pub(crate) fn sanitize(name: &str) -> (r: String)
    ensures
        r@ == sanitized(name@, true) || r@ == sanitized(name@, false),
{
    sanitize_filename::sanitize(name)
}

// ---------------------------------------------------------------------
// rust-ini
// ---------------------------------------------------------------------
/// `ini::Ini`, a configuration in memory, taken as it is.
#[verifier::external_type_specification]
#[verifier::external_body]
pub struct ExIni(ini::Ini);

/// What a configuration holds in its named sections: for a section name
/// and a key, the first value of the key in the first section of that
/// name.
pub uninterp spec fn ini_values(conf: ini::Ini) -> Map<(Seq<char>, Seq<char>), Seq<char>>;

/// No value at all.
pub open spec fn no_values() -> Map<(Seq<char>, Seq<char>), Seq<char>> {
    Map::empty()
}

/// `Ini::new`: a configuration without named sections.
#[verifier::external_body]
pub(crate) fn ini_new() -> (conf: ini::Ini)
    ensures
        ini_values(conf) == no_values(),
{
    ini::Ini::new()
}

/// `Ini::get_from`: the first value of `key` in the first section named
/// `section`, if there is one.
#[verifier::external_body]
pub(crate) fn ini_get(conf: &ini::Ini, section: &str, key: &str) -> (r: Option<String>)
    ensures
        match r {
            Some(v) => ini_values(*conf).contains_key((section@, key@)) && ini_values(
                *conf,
            )[(section@, key@)] == v@,
            None => !ini_values(*conf).contains_key((section@, key@)),
        },
{
    match conf.get_from(Some(section), key) {
        Some(v) => Some(v.to_string()),
        None => None,
    }
}

/// `Ini::set_to`: `key` in the first section named `section` gets
/// `value` as its one value; the section is made if there is none.
/// Nothing else changes.
#[verifier::external_body]
pub(crate) fn ini_set(conf: &mut ini::Ini, section: &str, key: &str, value: &str)
    ensures
        ini_values(*final(conf)) == ini_values(*old(conf)).insert((section@, key@), value@),
{
    conf.set_to(Some(section), key.to_string(), value.to_string());
}

// ---------------------------------------------------------------------
// unicode-width
// ---------------------------------------------------------------------
/// What `UnicodeWidthStr::width` gives for a text: the number of columns
/// that it takes on a terminal.
pub uninterp spec fn text_width(text: Seq<char>) -> nat;

/// `unicode_width::UnicodeWidthStr::width`: the number of columns that
/// `text` takes, which depends on `text` alone.
#[verifier::external_body]
pub(crate) fn width_of(text: &str) -> (w: usize)
    ensures
        w == text_width(text@),
{
    unicode_width::UnicodeWidthStr::width(text)
}

// ---------------------------------------------------------------------
// The standard library
// ---------------------------------------------------------------------
/// What `str::to_lowercase` gives for a text.
pub uninterp spec fn lowercase_of(text: Seq<char>) -> Seq<char>;

/// `str::to_lowercase`: the lower-case form of `text` as Unicode defines
/// it, which depends on `text` alone.
#[verifier::external_body]
pub(crate) fn lowercase(text: &str) -> (r: String)
    ensures
        r@ == lowercase_of(text@),
{
    text.to_lowercase()
}

/// `String::push` appends one character.
pub assume_specification[ String::push ](s: &mut String, c: char)
    ensures
        final(s)@ == old(s)@.push(c),
;

/// `String::pop` takes the last character off and returns it; an empty
/// string stays empty and gives nothing.
pub assume_specification[ String::pop ](s: &mut String) -> (r: Option<char>)
    ensures
        r == if old(s)@.len() > 0 {
            Some(old(s)@.last())
        } else {
            None
        },
        final(s)@ == if old(s)@.len() > 0 {
            old(s)@.drop_last()
        } else {
            old(s)@
        },
;

} // verus!
