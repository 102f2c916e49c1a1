//! File names as the first release made them.

use vstd::prelude::*;
use crate::items::texts;
use crate::playlist::{extension, extension_of};
use crate::text::{chars_of, contains, contains_text, push_all, string_of};

verus! {

/// The characters that no file name may hold.
pub open spec fn is_reserved(c: char) -> bool {
    c == '\\' || c == '/' || c == ':' || c == '*' || c == '?' || c == '"' || c == '<' || c == '>'
        || c == '|'
}

/// `name` with `_` in place of each reserved character.
pub open spec fn with_reserved_replaced(name: Seq<char>) -> Seq<char> {
    Seq::new(
        name.len(),
        |i: int|
            if is_reserved(name[i]) {
                '_'
            } else {
                name[i]
            },
    )
}

/// Replaces each character that no file name may hold by `_`.
pub fn sanitize_filename(name: &str) -> (r: String)
    ensures
        r@ == with_reserved_replaced(name@),
{
    let chars = chars_of(name);
    let mut out: Vec<char> = Vec::new();
    let mut i: usize = 0;
    while i < chars.len()
        invariant
            i <= chars@.len(),
            out@.len() == i,
            forall|k: int|
                0 <= k < i ==> out@[k] == if is_reserved(chars@[k]) {
                    '_'
                } else {
                    chars@[k]
                },
        decreases chars@.len() - i,
    {
        let c = chars[i];
        let reserved = c == '\\' || c == '/' || c == ':' || c == '*' || c == '?' || c == '"' || c
            == '<' || c == '>' || c == '|';
        out.push(
            if reserved {
                '_'
            } else {
                c
            },
        );
        i += 1;
    }
    assert(out@ =~= with_reserved_replaced(name@));
    string_of(out.as_slice())
}

/// The extension for the file of `url`, with its dot: `.mp4` for a
/// stream list, else what the address carries, else `.mp4`.
pub open spec fn dotted_extension(url: Seq<char>) -> Seq<char> {
    if contains_text(url, ".m3u8"@) {
        ".mp4"@
    } else {
        match extension_of(url) {
            Some(e) => "."@ + e,
            None => ".mp4"@,
        }
    }
}

/// The extension, with its dot, for the file that `url` is saved to.
pub fn get_file_extension(url: &str) -> (r: String)
    ensures
        r@ == dotted_extension(url@),
{
    let chars = chars_of(url);
    let list = chars_of(".m3u8");
    if contains(chars.as_slice(), list.as_slice()) {
        return ".mp4".to_owned();
    }
    match extension(chars.as_slice()) {
        Some(e) => {
            let mut out = chars_of(".");
            push_all(&mut out, e);
            string_of(out.as_slice())
        },
        None => ".mp4".to_owned(),
    }
}

/// The arguments with which the first release fetches `url` into
/// `output`: overwrite and progress flags, the input, stream copy and the
/// output, then `-limit_rate` and the limit if there is one.
pub open spec fn first_command_line(url: Seq<char>, speed_limit: Option<String>, output: Seq<
    char,
>) -> Seq<Seq<char>> {
    seq!["-y"@, "-progress"@, "pipe:1"@, "-i"@, url, "-c"@, "copy"@, output] + (match speed_limit {
        Some(l) => seq!["-limit_rate"@, l@],
        None => seq![],
    })
}

/// Builds the arguments with which the first release fetches `url` into
/// `output`.
pub fn first_command(url: &str, speed_limit: &Option<String>, output: &str) -> (args: Vec<String>)
    ensures
        texts(args@) == first_command_line(url@, *speed_limit, output@),
{
    let mut args: Vec<String> = Vec::new();
    args.push("-y".to_owned());
    args.push("-progress".to_owned());
    args.push("pipe:1".to_owned());
    args.push("-i".to_owned());
    args.push(url.to_owned());
    args.push("-c".to_owned());
    args.push("copy".to_owned());
    args.push(output.to_owned());
    match speed_limit {
        Some(l) => {
            args.push("-limit_rate".to_owned());
            args.push(l.clone());
        },
        None => {},
    }
    assert(texts(args@) =~= first_command_line(url@, *speed_limit, output@));
    args
}

} // verus!
