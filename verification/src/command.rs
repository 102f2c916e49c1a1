//! The command line of the media tool for one item.

use vstd::prelude::*;
use vstd::slice::slice_subrange;
use crate::items::{texts, LinkInfo, Subtitle};
use crate::outside::{lowercase, lowercase_of};
use crate::text::{chars_of, decimal_digits, push_all, push_decimal, string_of};

verus! {

/// One `-i` and the address for each of the first `n` subtitle tracks.
pub open spec fn subtitle_inputs(subs: Seq<Subtitle>, n: nat) -> Seq<Seq<char>>
    decreases n,
{
    if n == 0 || n > subs.len() {
        seq![]
    } else {
        subtitle_inputs(subs, (n - 1) as nat) + seq!["-i"@, subs[n - 1].url@]
    }
}

/// The language of a track: the first three characters of its name, in
/// lower case.
pub open spec fn language_tag(name: Seq<char>) -> Seq<char> {
    lowercase_of(
        if name.len() > 3 {
            name.take(3)
        } else {
            name
        },
    )
}

/// The flags of subtitle stream number `i`: language, title, and the
/// default disposition where the track asks for it.
pub open spec fn subtitle_flags(sub: Subtitle, i: nat) -> Seq<Seq<char>> {
    seq![
        "-metadata:s:s:"@ + decimal_digits(i),
        "language="@ + language_tag(sub.name@),
        "-metadata:s:s:"@ + decimal_digits(i),
        "title="@ + sub.name@,
    ] + if sub.default {
        seq!["-disposition:s:"@ + decimal_digits(i), "default"@]
    } else {
        seq![]
    }
}

/// The flags of the first `n` subtitle streams, in order.
pub open spec fn subtitle_metadata(subs: Seq<Subtitle>, n: nat) -> Seq<Seq<char>>
    decreases n,
{
    if n == 0 || n > subs.len() {
        seq![]
    } else {
        subtitle_metadata(subs, (n - 1) as nat) + subtitle_flags(subs[n - 1], (n - 1) as nat)
    }
}

/// The arguments for one item: overwrite and progress flags, the referer
/// header if there is one, the primary input, one input per subtitle
/// track, stream copy, the flags of each subtitle stream, the title, the
/// rate limit if there is one, and the output path last.
pub open spec fn command_line(item: LinkInfo, speed_limit: Option<String>, output: Seq<char>)
    -> Seq<Seq<char>> {
    seq!["-y"@, "-progress"@, "pipe:1"@] + (match item.referer {
        Some(r) => seq!["-headers"@, "Referer: "@ + r@ + "\r\n"@],
        None => seq![],
    }) + seq!["-i"@, item.url@] + subtitle_inputs(item.subtitles@, item.subtitles@.len())
        + seq!["-c"@, "copy"@] + subtitle_metadata(item.subtitles@, item.subtitles@.len())
        + seq!["-metadata"@, "title="@ + item.name@] + (match speed_limit {
        Some(l) => seq!["-maxrate"@, l@],
        None => seq![],
    }) + seq![output]
}

fn push_text(args: &mut Vec<String>, s: String)
    ensures
        texts(final(args)@) == texts(old(args)@).push(s@),
{
    args.push(s);
    assert(texts(args@) =~= texts(old(args)@).push(s@));
}

fn push_str(args: &mut Vec<String>, s: &str)
    ensures
        texts(final(args)@) == texts(old(args)@).push(s@),
{
    push_text(args, s.to_owned());
}

/// `a` followed by `b`.
pub fn join(a: &str, b: &str) -> (r: String)
    ensures
        r@ == a@ + b@,
{
    let mut out = chars_of(a);
    let tail = chars_of(b);
    push_all(&mut out, tail.as_slice());
    string_of(out.as_slice())
}

/// `prefix` followed by the decimal digits of `i`.
pub fn numbered(prefix: &str, i: usize) -> (r: String)
    ensures
        r@ == prefix@ + decimal_digits(i as nat),
{
    let mut out = chars_of(prefix);
    push_decimal(&mut out, i as u64);
    string_of(out.as_slice())
}

fn language(name: &str) -> (r: String)
    ensures
        r@ == language_tag(name@),
{
    let chars = chars_of(name);
    if chars.len() > 3 {
        let head = string_of(slice_subrange(chars.as_slice(), 0, 3));
        lowercase(head.as_str())
    } else {
        lowercase(name)
    }
}

fn push_subtitle_flags(args: &mut Vec<String>, sub: &Subtitle, i: usize)
    ensures
        texts(final(args)@) == texts(old(args)@) + subtitle_flags(*sub, i as nat),
{
    push_text(args, numbered("-metadata:s:s:", i));
    let lang = language(sub.name.as_str());
    push_text(args, join("language=", lang.as_str()));
    push_text(args, numbered("-metadata:s:s:", i));
    push_text(args, join("title=", sub.name.as_str()));
    if sub.default {
        push_text(args, numbered("-disposition:s:", i));
        push_str(args, "default");
    }
    assert(texts(args@) =~= texts(old(args)@) + subtitle_flags(*sub, i as nat));
}

/// Builds the arguments for `item`, to be written to `output`.
pub fn build_command(item: &LinkInfo, speed_limit: &Option<String>, output: &str) -> (args: Vec<
    String,
>)
    ensures
        texts(args@) == command_line(*item, *speed_limit, output@),
{
    let mut args: Vec<String> = Vec::new();
    assert(texts(args@) =~= seq![]);
    push_str(&mut args, "-y");
    push_str(&mut args, "-progress");
    push_str(&mut args, "pipe:1");
    match &item.referer {
        Some(r) => {
            push_str(&mut args, "-headers");
            let head = join("Referer: ", r.as_str());
            push_text(&mut args, join(head.as_str(), "\r\n"));
        },
        None => {},
    }
    push_str(&mut args, "-i");
    push_text(&mut args, item.url.clone());
    let ghost head = texts(args@);
    assert(head =~= seq!["-y"@, "-progress"@, "pipe:1"@] + (match item.referer {
        Some(r) => seq!["-headers"@, "Referer: "@ + r@ + "\r\n"@],
        None => seq![],
    }) + seq!["-i"@, item.url@]);
    let n = item.subtitles.len();
    let mut i: usize = 0;
    while i < n
        invariant
            i <= n,
            n == item.subtitles@.len(),
            texts(args@) == head + subtitle_inputs(item.subtitles@, i as nat),
        decreases n - i,
    {
        push_str(&mut args, "-i");
        push_text(&mut args, item.subtitles[i].url.clone());
        i += 1;
        assert(texts(args@) =~= head + subtitle_inputs(item.subtitles@, i as nat));
    }
    push_str(&mut args, "-c");
    push_str(&mut args, "copy");
    let ghost middle = texts(args@);
    assert(middle =~= head + subtitle_inputs(item.subtitles@, n as nat) + seq!["-c"@, "copy"@]);
    let mut k: usize = 0;
    while k < n
        invariant
            k <= n,
            n == item.subtitles@.len(),
            texts(args@) == middle + subtitle_metadata(item.subtitles@, k as nat),
        decreases n - k,
    {
        push_subtitle_flags(&mut args, &item.subtitles[k], k);
        k += 1;
        assert(texts(args@) =~= middle + subtitle_metadata(item.subtitles@, k as nat));
    }
    push_str(&mut args, "-metadata");
    push_text(&mut args, join("title=", item.name.as_str()));
    match speed_limit {
        Some(l) => {
            push_str(&mut args, "-maxrate");
            push_text(&mut args, l.clone());
        },
        None => {},
    }
    push_str(&mut args, output);
    assert(texts(args@) =~= command_line(*item, *speed_limit, output@));
    args
}

/// The primary input comes before every subtitle input, and the output
/// path is the last argument.
pub proof fn law_output_is_last(item: LinkInfo, speed_limit: Option<String>, output: Seq<char>)
    ensures
        command_line(item, speed_limit, output).len() > 0,
        command_line(item, speed_limit, output).last() == output,
        command_line(item, speed_limit, output)[0] == "-y"@,
{
}

} // verus!
