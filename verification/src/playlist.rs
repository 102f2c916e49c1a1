//! Reading a playlist: which items it names, and what to call their files.
//!
//! A playlist is read as lines. `#EXTVLCOPT:http-referrer=` sets the
//! referer of the items that follow, `#EXT-X-MEDIA:TYPE=SUBTITLES` adds a
//! subtitle track to the next item, and `#EXTINF:` names the item whose
//! address stands on the next line.

use vstd::prelude::*;
use vstd::slice::slice_subrange;
use crate::items::{
    episode_views, link_views, option_text, subtitle_views, texts, Episode, EpisodeView, LinkInfo,
    LinkView, Subtitle, SubtitleView,
};
use crate::outside::{regex_replaced, replace_all};
use crate::progress::{before_char, take_before_char};
use crate::text::{
    chars_of, contains, contains_text, decimal_digits, ends_with, find_char, find_from, first_char, first_occurrence, has_prefix, has_suffix, last_char, lemma_first_occurrence, push_decimal, rfind_char, starts_with, string_of, trim, trimmed,
};

verus! {

// ---------------------------------------------------------------------
// The grammar
// ---------------------------------------------------------------------
/// What follows `prefix` in `line`, if `line` begins with it.
pub open spec fn rest_after(line: Seq<char>, prefix: Seq<char>) -> Option<Seq<char>> {
    if has_prefix(line, prefix) {
        Some(line.skip(prefix.len() as int))
    } else {
        None
    }
}

/// The value of the first attribute at or after `from` that `opener`
/// (a name, `=` and a quote) opens: one or more characters up to the next
/// quote. An opener followed by nothing, or never closed, opens none.
pub open spec fn attribute_from(line: Seq<char>, opener: Seq<char>, from: int) -> Option<
    Seq<char>,
>
    decreases line.len() - from + 1,
{
    match first_occurrence(line, opener, from) {
        None => None,
        Some(p) => match first_char(line, '"', p + opener.len()) {
            Some(q) if q > p + opener.len() => Some(line.subrange(p + opener.len(), q)),
            _ => if from <= p < line.len() {
                attribute_from(line, opener, p + 1)
            } else {
                None
            },
        },
    }
}

/// What stands between the first comma and the second one, or the end.
pub open spec fn second_field(info: Seq<char>) -> Option<Seq<char>> {
    match first_char(info, ',', 0) {
        None => None,
        Some(c) => Some(before_char(info.skip(c + 1), ',')),
    }
}

/// `name` without `suffix`, if it ends with it.
pub open spec fn without_suffix(name: Seq<char>, suffix: Seq<char>) -> Option<Seq<char>> {
    if has_suffix(name, suffix) {
        Some(name.take(name.len() - suffix.len()))
    } else {
        None
    }
}

/// The title and the quality tag of an item named `name`. Where the last
/// `[` stands before the last `]`, the tag is what they enclose, brackets
/// included, and the title is what stands before the tag, trimmed.
/// Otherwise there is no tag and the title is the name without a trailing
/// `.mp4` or `.m3u8`.
pub open spec fn title_and_quality(name: Seq<char>) -> (Seq<char>, Option<Seq<char>>) {
    match (last_char(name, '['), last_char(name, ']')) {
        (Some(a), Some(b)) if a < b => (trimmed(name.take(a)), Some(name.subrange(a, b + 1))),
        _ => (
            match without_suffix(name, ".mp4"@) {
                Some(s) => s,
                None => match without_suffix(name, ".m3u8"@) {
                    Some(s) => s,
                    None => name,
                },
            },
            None,
        ),
    }
}

/// What has been read so far.
pub struct Scan {
    /// The referer of the items to come.
    pub referer: Option<Seq<char>>,
    /// The subtitle tracks of the next item.
    pub subtitles: Seq<SubtitleView>,
    /// The items found.
    pub links: Seq<LinkView>,
}

/// The subtitle track that a line declares, if it names an address.
pub open spec fn subtitle_of(line: Seq<char>) -> Option<SubtitleView> {
    match attribute_from(line, "URI=\""@, 0) {
        Some(url) => Some(
            SubtitleView {
                name: match attribute_from(line, "NAME=\""@, 0) {
                    Some(n) => n,
                    None => "Subtitle"@,
                },
                url,
                default: contains_text(line, "DEFAULT=YES"@),
            },
        ),
        None => None,
    }
}

/// The name that an `#EXTINF:` line gives, or `Episode` and the number of
/// the item where it gives none.
pub open spec fn item_name(info: Seq<char>, found: nat) -> Seq<char> {
    match second_field(info) {
        Some(n) => n,
        None => "Episode "@ + decimal_digits(found + 1),
    }
}

/// What has been read after line number `i`.
pub open spec fn step(state: Scan, lines: Seq<Seq<char>>, i: int) -> Scan {
    let line = lines[i];
    if has_prefix(line, "#EXTVLCOPT:http-referrer="@) {
        Scan { referer: rest_after(line, "#EXTVLCOPT:http-referrer="@), ..state }
    } else if has_prefix(line, "#EXT-X-MEDIA:TYPE=SUBTITLES"@) {
        match subtitle_of(line) {
            Some(sub) => Scan { subtitles: state.subtitles.push(sub), ..state },
            None => state,
        }
    } else if has_prefix(line, "#EXTINF:"@) {
        if i + 1 < lines.len() && !has_prefix(lines[i + 1], "#"@) {
            let name = item_name(rest_after(line, "#EXTINF:"@)->0, state.links.len());
            Scan {
                links: state.links.push(
                    LinkView {
                        id: state.links.len() as usize,
                        name: title_and_quality(name).0,
                        url: lines[i + 1],
                        referer: state.referer,
                        subtitles: state.subtitles,
                        quality: title_and_quality(name).1,
                    },
                ),
                subtitles: seq![],
                ..state
            }
        } else {
            state
        }
    } else {
        state
    }
}

/// What has been read after the first `n` lines.
pub open spec fn scanned(lines: Seq<Seq<char>>, n: nat) -> Scan
    decreases n,
{
    if n == 0 {
        Scan { referer: None, subtitles: seq![], links: seq![] }
    } else {
        step(scanned(lines, (n - 1) as nat), lines, n - 1)
    }
}

/// The items that a playlist names, in order.
pub open spec fn playlist_items(lines: Seq<Seq<char>>) -> Seq<LinkView> {
    scanned(lines, lines.len()).links
}

// ---------------------------------------------------------------------
// Reading
// ---------------------------------------------------------------------
/// What follows `prefix` in `line`.
pub fn strip_prefix<'a>(line: &'a [char], prefix: &[char]) -> (r: Option<&'a [char]>)
    ensures
        match r {
            Some(rest) => rest_after(line@, prefix@) == Some(rest@),
            None => rest_after(line@, prefix@) is None,
        },
{
    if starts_with(line, prefix) {
        let rest = slice_subrange(line, prefix.len(), line.len());
        assert(rest@ =~= line@.skip(prefix.len() as int));
        Some(rest)
    } else {
        None
    }
}

/// `name` without `suffix`.
pub fn strip_suffix<'a>(name: &'a [char], suffix: &[char]) -> (r: Option<&'a [char]>)
    ensures
        match r {
            Some(rest) => without_suffix(name@, suffix@) == Some(rest@),
            None => without_suffix(name@, suffix@) is None,
        },
{
    if ends_with(name, suffix) {
        let rest = slice_subrange(name, 0, name.len() - suffix.len());
        assert(rest@ =~= name@.take(name.len() - suffix.len()));
        Some(rest)
    } else {
        None
    }
}

/// The value of the first attribute that `opener` opens.
pub fn attribute<'a>(line: &'a [char], opener: &[char]) -> (r: Option<&'a [char]>)
    ensures
        match r {
            Some(v) => attribute_from(line@, opener@, 0) == Some(v@),
            None => attribute_from(line@, opener@, 0) is None,
        },
{
    let mut from: usize = 0;
    loop
        invariant
            attribute_from(line@, opener@, from as int) == attribute_from(line@, opener@, 0),
        decreases line.len() + 1 - from,
    {
        let p = match find_from(line, opener, from) {
            Some(p) => p,
            None => {
                return None;
            },
        };
        proof {
            lemma_first_occurrence(line@, opener@, from as int);
        }
        let start = p + opener.len();
        match find_char(line, '"', start) {
            Some(q) => {
                if q > start {
                    return Some(slice_subrange(line, start, q));
                }
            },
            None => {},
        }
        if p >= line.len() {
            return None;
        }
        from = p + 1;
    }
}

/// What stands between the first comma and the second one.
pub fn take_second_field(info: &[char]) -> (r: Option<&[char]>)
    ensures
        match r {
            Some(f) => second_field(info@) == Some(f@),
            None => second_field(info@) is None,
        },
{
    match find_char(info, ',', 0) {
        Some(c) => {
            let rest = slice_subrange(info, c + 1, info.len());
            assert(rest@ =~= info@.skip(c + 1));
            Some(take_before_char(rest, ','))
        },
        None => None,
    }
}

/// Splits the name of an item into title and quality tag.
pub fn split_title(name: &[char]) -> (r: (String, Option<String>))
    ensures
        (r.0@, option_text(r.1)) == title_and_quality(name@),
{
    match (rfind_char(name, '['), rfind_char(name, ']')) {
        (Some(a), Some(b)) => {
            if a < b {
                let head = slice_subrange(name, 0, a);
                assert(head@ =~= name@.take(a as int));
                let tag = slice_subrange(name, a, b + 1);
                return (string_of(trim(head)), Some(string_of(tag)));
            }
        },
        _ => {},
    }
    let mp4 = chars_of(".mp4");
    let m3u8 = chars_of(".m3u8");
    let title = match strip_suffix(name, mp4.as_slice()) {
        Some(s) => s,
        None => match strip_suffix(name, m3u8.as_slice()) {
            Some(s) => s,
            None => name,
        },
    };
    (string_of(title), None)
}

fn read_subtitle(line: &[char]) -> (r: Option<Subtitle>)
    ensures
        match r {
            Some(sub) => subtitle_of(line@) == Some(sub@),
            None => subtitle_of(line@) is None,
        },
{
    let uri = chars_of("URI=\"");
    let url = match attribute(line, uri.as_slice()) {
        Some(u) => u,
        None => {
            return None;
        },
    };
    let key = chars_of("NAME=\"");
    let name = match attribute(line, key.as_slice()) {
        Some(n) => string_of(n),
        None => "Subtitle".to_owned(),
    };
    let flag = chars_of("DEFAULT=YES");
    Some(Subtitle { name, url: string_of(url), default: contains(line, flag.as_slice()) })
}

fn read_item_name(info: &[char], found: usize) -> (r: Vec<char>)
    requires
        found < usize::MAX,
    ensures
        r@ == item_name(info@, found as nat),
{
    match take_second_field(info) {
        Some(n) => {
            let mut out: Vec<char> = Vec::new();
            crate::text::push_all(&mut out, n);
            assert(out@ =~= n@);
            out
        },
        None => {
            let mut out = chars_of("Episode ");
            push_decimal(&mut out, (found + 1) as u64);
            out
        },
    }
}

fn copy_referer(referer: &Option<String>) -> (r: Option<String>)
    ensures
        option_text(r) == option_text(*referer),
{
    match referer {
        Some(s) => Some(s.clone()),
        None => None,
    }
}

/// Reads the items of a playlist given as its lines.
pub fn parse_m3u(lines: &Vec<String>) -> (links: Vec<LinkInfo>)
    ensures
        link_views(links@) == playlist_items(texts(lines@)),
{
    let ghost all = texts(lines@);
    let mut links: Vec<LinkInfo> = Vec::new();
    let mut referer: Option<String> = None;
    let mut subtitles: Vec<Subtitle> = Vec::new();
    let referrer_tag = chars_of("#EXTVLCOPT:http-referrer=");
    let subtitle_tag = chars_of("#EXT-X-MEDIA:TYPE=SUBTITLES");
    let item_tag = chars_of("#EXTINF:");
    let hash = chars_of("#");
    let n = lines.len();
    let mut i: usize = 0;
    assert(link_views(links@) =~= seq![]);
    assert(subtitle_views(subtitles@) =~= seq![]);
    while i < n
        invariant
            i <= n,
            n == lines@.len(),
            all == texts(lines@),
            referrer_tag@ == "#EXTVLCOPT:http-referrer="@,
            subtitle_tag@ == "#EXT-X-MEDIA:TYPE=SUBTITLES"@,
            item_tag@ == "#EXTINF:"@,
            hash@ == "#"@,
            links@.len() <= i,
            scanned(all, i as nat) == (Scan {
                referer: option_text(referer),
                subtitles: subtitle_views(subtitles@),
                links: link_views(links@),
            }),
        decreases n - i,
    {
        let ghost before = scanned(all, i as nat);
        let line = chars_of(lines[i].as_str());
        assert(line@ == all[i as int]);
        if let Some(rest) = strip_prefix(line.as_slice(), referrer_tag.as_slice()) {
            referer = Some(string_of(rest));
        } else if starts_with(line.as_slice(), subtitle_tag.as_slice()) {
            match read_subtitle(line.as_slice()) {
                Some(sub) => {
                    let ghost old_subs = subtitle_views(subtitles@);
                    subtitles.push(sub);
                    assert(subtitle_views(subtitles@) =~= old_subs.push(sub@));
                },
                None => {},
            }
        } else if let Some(info) = strip_prefix(line.as_slice(), item_tag.as_slice()) {
            if i + 1 < n {
                let next = chars_of(lines[i + 1].as_str());
                assert(next@ == all[i + 1]);
                if !starts_with(next.as_slice(), hash.as_slice()) {
                    let name = read_item_name(info, links.len());
                    let (title, quality) = split_title(name.as_slice());
                    let ghost old_links = link_views(links@);
                    let ghost old_subs = subtitle_views(subtitles@);
                    let mut taken: Vec<Subtitle> = Vec::new();
                    std::mem::swap(&mut taken, &mut subtitles);
                    let link = LinkInfo {
                        id: links.len(),
                        name: title,
                        url: lines[i + 1].clone(),
                        referer: copy_referer(&referer),
                        subtitles: taken,
                        quality,
                    };
                    links.push(link);
                    assert(link_views(links@) =~= old_links.push(link@));
                    assert(subtitle_views(subtitles@) =~= seq![]);
                }
            }
        }
        i += 1;
        assert(scanned(all, i as nat) == step(before, all, i - 1));
    }
    links
}

// ---------------------------------------------------------------------
// The simple reader
// ---------------------------------------------------------------------
/// What the simple reader has read so far: the name that waits for its
/// address, and the episodes found.
pub struct EpisodeScan {
    pub pending_name: Seq<char>,
    pub episodes: Seq<EpisodeView>,
}

/// What the simple reader has read after `line`. An `#EXTINF:` line sets
/// the waiting name to its second field, trimmed; a line that is neither
/// empty nor a comment is the address of the waiting name, if one waits.
pub open spec fn episode_step(state: EpisodeScan, line: Seq<char>) -> EpisodeScan {
    if has_prefix(line, "#EXTINF:"@) {
        match second_field(line) {
            Some(n) => EpisodeScan { pending_name: trimmed(n), ..state },
            None => state,
        }
    } else if !has_prefix(line, "#"@) && trimmed(line).len() > 0 {
        if state.pending_name.len() > 0 {
            EpisodeScan {
                pending_name: seq![],
                episodes: state.episodes.push(
                    EpisodeView { name: state.pending_name, url: trimmed(line) },
                ),
            }
        } else {
            state
        }
    } else {
        state
    }
}

/// What the simple reader has read after the first `n` lines.
pub open spec fn episodes_scanned(lines: Seq<Seq<char>>, n: nat) -> EpisodeScan
    decreases n,
{
    if n == 0 || n > lines.len() {
        EpisodeScan { pending_name: seq![], episodes: seq![] }
    } else {
        episode_step(episodes_scanned(lines, (n - 1) as nat), lines[n - 1])
    }
}

/// Reads names and addresses from a playlist given as its lines.
pub fn parse_m3u_file(lines: &Vec<String>) -> (episodes: Vec<Episode>)
    ensures
        episode_views(episodes@) == episodes_scanned(texts(lines@), lines@.len()).episodes,
{
    let ghost all = texts(lines@);
    let mut episodes: Vec<Episode> = Vec::new();
    let mut current: Vec<char> = Vec::new();
    let item_tag = chars_of("#EXTINF:");
    let hash = chars_of("#");
    let n = lines.len();
    let mut i: usize = 0;
    assert(episode_views(episodes@) =~= seq![]);
    while i < n
        invariant
            i <= n,
            n == lines@.len(),
            all == texts(lines@),
            item_tag@ == "#EXTINF:"@,
            hash@ == "#"@,
            episodes_scanned(all, i as nat) == (EpisodeScan {
                pending_name: current@,
                episodes: episode_views(episodes@),
            }),
        decreases n - i,
    {
        let line = chars_of(lines[i].as_str());
        assert(line@ == all[i as int]);
        if starts_with(line.as_slice(), item_tag.as_slice()) {
            match take_second_field(line.as_slice()) {
                Some(field) => {
                    let name = trim(field);
                    current = Vec::new();
                    crate::text::push_all(&mut current, name);
                    assert(current@ =~= name@);
                },
                None => {},
            }
        } else if !starts_with(line.as_slice(), hash.as_slice()) {
            let url = trim(line.as_slice());
            if url.len() > 0 && current.len() > 0 {
                let ghost old_eps = episode_views(episodes@);
                let ep = Episode { name: string_of(current.as_slice()), url: string_of(url) };
                episodes.push(ep);
                assert(episode_views(episodes@) =~= old_eps.push(ep@));
                current = Vec::new();
                assert(current@ =~= seq![]);
            }
        }
        i += 1;
    }
    episodes
}

// ---------------------------------------------------------------------
// The lenient reader
// ---------------------------------------------------------------------
/// What stands after the last comma of `line`, or all of it.
pub open spec fn after_last_comma(line: Seq<char>) -> Seq<char> {
    match last_char(line, ',') {
        Some(i) => line.skip(i + 1),
        None => line,
    }
}

/// The last segment of `url` without its extension, where that leaves
/// something. The segment `..` leaves nothing.
pub open spec fn stem_of(url: Seq<char>) -> Option<Seq<char>> {
    let name = last_segment(url);
    let stem = match last_char(name, '.') {
        Some(i) => if i > 0 {
            name.take(i)
        } else {
            name
        },
        None => name,
    };
    if stem.len() > 0 && name != seq!['.', '.'] {
        Some(stem)
    } else {
        None
    }
}

/// What the lenient reader has read so far: the name that waits for its
/// address, if one does, and the entries found.
pub struct EntryScan {
    pub pending_name: Option<Seq<char>>,
    pub entries: Seq<EpisodeView>,
}

/// What the lenient reader has read after `raw`. The line is trimmed. An
/// `#EXTINF` line sets the waiting name to what follows its last comma,
/// trimmed. A line that is neither empty nor a comment is an address: it
/// makes an entry if it holds `://`, under the waiting name, or the stem
/// of the address, or `Track_` and the number of the entry. The waiting
/// name is used up either way.
pub open spec fn entry_step(state: EntryScan, raw: Seq<char>) -> EntryScan {
    let line = trimmed(raw);
    if line.len() == 0 {
        state
    } else if has_prefix(line, "#EXTINF"@) {
        EntryScan { pending_name: Some(trimmed(after_last_comma(line))), ..state }
    } else if has_prefix(line, "#"@) {
        state
    } else {
        let name = match state.pending_name {
            Some(n) => n,
            None => match stem_of(line) {
                Some(s) => s,
                None => "Track_"@ + decimal_digits(state.entries.len() + 1),
            },
        };
        EntryScan {
            pending_name: None,
            entries: if contains_text(line, "://"@) {
                state.entries.push(EpisodeView { name, url: line })
            } else {
                state.entries
            },
        }
    }
}

/// What the lenient reader has read after the first `n` lines.
pub open spec fn entries_scanned(lines: Seq<Seq<char>>, n: nat) -> EntryScan
    decreases n,
{
    if n == 0 || n > lines.len() {
        EntryScan { pending_name: None, entries: seq![] }
    } else {
        entry_step(entries_scanned(lines, (n - 1) as nat), lines[n - 1])
    }
}

fn stem(url: &[char]) -> (r: Option<&[char]>)
    ensures
        match r {
            Some(s) => stem_of(url@) == Some(s@),
            None => stem_of(url@) is None,
        },
{
    let name = segment(url);
    let stem = match rfind_char(name, '.') {
        Some(i) => {
            if i > 0 {
                let s = slice_subrange(name, 0, i);
                assert(s@ =~= name@.take(i as int));
                s
            } else {
                name
            }
        },
        None => name,
    };
    let dots = name.len() == 2 && name[0] == '.' && name[1] == '.';
    assert(dots == (name@ == seq!['.', '.'])) by {
        if dots {
            assert(name@ =~= seq!['.', '.']);
        }
    }
    if stem.len() > 0 && !dots {
        Some(stem)
    } else {
        None
    }
}

/// Reads names and addresses from a playlist given as its lines, making
/// up a name where the playlist gives none.
pub fn parse_entries(lines: &Vec<String>) -> (entries: Vec<Episode>)
    ensures
        episode_views(entries@) == entries_scanned(texts(lines@), lines@.len()).entries,
{
    let ghost all = texts(lines@);
    let mut entries: Vec<Episode> = Vec::new();
    let mut current: Option<String> = None;
    let item_tag = chars_of("#EXTINF");
    let hash = chars_of("#");
    let scheme = chars_of("://");
    let n = lines.len();
    let mut i: usize = 0;
    assert(episode_views(entries@) =~= seq![]);
    while i < n
        invariant
            i <= n,
            n == lines@.len(),
            all == texts(lines@),
            item_tag@ == "#EXTINF"@,
            hash@ == "#"@,
            scheme@ == "://"@,
            entries@.len() <= i,
            entries_scanned(all, i as nat) == (EntryScan {
                pending_name: option_text(current),
                entries: episode_views(entries@),
            }),
        decreases n - i,
    {
        let raw = chars_of(lines[i].as_str());
        assert(raw@ == all[i as int]);
        let line = trim(raw.as_slice());
        if line.len() == 0 {
        } else if starts_with(line, item_tag.as_slice()) {
            let tail = match rfind_char(line, ',') {
                Some(c) => {
                    let s = slice_subrange(line, c + 1, line.len());
                    assert(s@ =~= line@.skip(c + 1));
                    s
                },
                None => line,
            };
            current = Some(string_of(trim(tail)));
        } else if starts_with(line, hash.as_slice()) {
        } else {
            let mut taken: Option<String> = None;
            std::mem::swap(&mut taken, &mut current);
            let name = match taken {
                Some(n) => n,
                None => match stem(line) {
                    Some(s) => string_of(s),
                    None => {
                        let mut out = chars_of("Track_");
                        push_decimal(&mut out, (entries.len() + 1) as u64);
                        string_of(out.as_slice())
                    },
                },
            };
            if contains(line, scheme.as_slice()) {
                let ghost old_entries = episode_views(entries@);
                let entry = Episode { name, url: string_of(line) };
                entries.push(entry);
                assert(episode_views(entries@) =~= old_entries.push(entry@));
            }
        }
        i += 1;
    }
    entries
}

// ---------------------------------------------------------------------
// File names
// ---------------------------------------------------------------------
/// `url` without the `/` characters at its end.
pub open spec fn without_trailing_slashes(url: Seq<char>) -> Seq<char>
    decreases url.len(),
{
    if url.len() > 0 && url.last() == '/' {
        without_trailing_slashes(url.drop_last())
    } else {
        url
    }
}

/// The last segment of `url`: what stands after its last `/`, any `/` at
/// its very end not counted.
pub open spec fn last_segment(url: Seq<char>) -> Seq<char> {
    let core = without_trailing_slashes(url);
    match last_char(core, '/') {
        Some(i) => core.skip(i + 1),
        None => core,
    }
}

/// The extension that the last segment of `url` carries: what stands
/// after its last `.`, which may be nothing. A segment without a `.`, one
/// whose only `.` begins it, and the segment `..` carry none.
pub open spec fn extension_of(url: Seq<char>) -> Option<Seq<char>> {
    let name = last_segment(url);
    match last_char(name, '.') {
        Some(i) => if i > 0 && name != seq!['.', '.'] {
            Some(name.skip(i + 1))
        } else {
            None
        },
        None => None,
    }
}

/// The extension for the file of `url`: `.mp4` for a stream list, else
/// the extension that the address carries if it is not empty, else
/// `mp4`.
pub open spec fn file_extension(url: Seq<char>) -> Seq<char> {
    if contains_text(url, ".m3u8"@) {
        ".mp4"@
    } else {
        match extension_of(url) {
            Some(e) => if e.len() > 0 {
                e
            } else {
                "mp4"@
            },
            None => "mp4"@,
        }
    }
}

/// The last segment of `url`.
pub fn segment(url: &[char]) -> (r: &[char])
    ensures
        r@ == last_segment(url@),
{
    let mut n: usize = url.len();
    assert(url@.take(n as int) =~= url@);
    while n > 0 && url[n - 1] == '/'
        invariant
            n <= url.len(),
            without_trailing_slashes(url@.take(n as int)) == without_trailing_slashes(url@),
        decreases n,
    {
        assert(url@.take(n as int).drop_last() =~= url@.take(n as int - 1));
        n -= 1;
    }
    let core = slice_subrange(url, 0, n);
    assert(core@ =~= url@.take(n as int));
    match rfind_char(core, '/') {
        Some(i) => {
            let s = slice_subrange(core, i + 1, core.len());
            assert(s@ =~= core@.skip(i + 1));
            s
        },
        None => core,
    }
}

/// The extension that the last segment of `url` carries.
pub fn extension(url: &[char]) -> (r: Option<&[char]>)
    ensures
        match r {
            Some(e) => extension_of(url@) == Some(e@),
            None => extension_of(url@) is None,
        },
{
    let name = segment(url);
    match rfind_char(name, '.') {
        Some(i) => {
            let dots = name.len() == 2 && name[0] == '.' && name[1] == '.';
            assert(dots == (name@ == seq!['.', '.'])) by {
                if dots {
                    assert(name@ =~= seq!['.', '.']);
                }
            }
            if i > 0 && !dots {
                let e = slice_subrange(name, i + 1, name.len());
                assert(e@ =~= name@.skip(i + 1));
                Some(e)
            } else {
                None
            }
        },
        None => None,
    }
}

/// The extension for the file that `url` is saved to.
pub fn get_file_extension(url: &str) -> (r: String)
    ensures
        r@ == file_extension(url@),
{
    let chars = chars_of(url);
    let list = chars_of(".m3u8");
    if contains(chars.as_slice(), list.as_slice()) {
        return ".mp4".to_owned();
    }
    match extension(chars.as_slice()) {
        Some(e) => {
            if e.len() > 0 {
                string_of(e)
            } else {
                "mp4".to_owned()
            }
        },
        None => "mp4".to_owned(),
    }
}

/// The extension guessed for the file of `url`, with its dot: what the
/// address carries, cut at a `?`, or `.mp4`.
pub open spec fn guessed_extension(url: Seq<char>) -> Seq<char> {
    match extension_of(url) {
        Some(e) => "."@ + before_char(e, '?'),
        None => ".mp4"@,
    }
}

/// Guesses the extension for the file of `url`.
pub fn guess_extension(url: &str) -> (r: String)
    ensures
        r@ == guessed_extension(url@),
{
    let chars = chars_of(url);
    match extension(chars.as_slice()) {
        Some(e) => {
            let mut out = chars_of(".");
            crate::text::push_all(&mut out, take_before_char(e, '?'));
            string_of(out.as_slice())
        },
        None => ".mp4".to_owned(),
    }
}

/// `path` without the quotes around it: every `"` and `'` at its
/// beginning and at its end is dropped.
pub open spec fn unquoted(path: Seq<char>) -> Seq<char>
    decreases path.len(),
{
    if path.len() == 0 {
        path
    } else if path[0] == '"' || path[0] == '\'' {
        unquoted(path.drop_first())
    } else if path.last() == '"' || path.last() == '\'' {
        unquoted(path.drop_last())
    } else {
        path
    }
}

/// Drops the quotes around a path as typed or pasted.
pub fn sanitize_path(path: &str) -> (r: String)
    ensures
        r@ == unquoted(path@),
{
    let chars = chars_of(path);
    let n = chars.len();
    let mut a: usize = 0;
    assert(chars@.subrange(0, n as int) =~= chars@);
    while a < n && (chars[a] == '"' || chars[a] == '\'')
        invariant
            a <= n,
            n == chars@.len(),
            unquoted(chars@.subrange(a as int, n as int)) == unquoted(chars@),
        decreases n - a,
    {
        assert(chars@.subrange(a as int, n as int).drop_first() =~= chars@.subrange(
            a as int + 1,
            n as int,
        ));
        a += 1;
    }
    let mut b: usize = n;
    while a < b && (chars[b - 1] == '"' || chars[b - 1] == '\'')
        invariant
            a <= b <= n,
            n == chars@.len(),
            a < b ==> !(chars@[a as int] == '"' || chars@[a as int] == '\''),
            unquoted(chars@.subrange(a as int, b as int)) == unquoted(chars@),
        decreases b - a,
    {
        assert(chars@.subrange(a as int, b as int).drop_last() =~= chars@.subrange(
            a as int,
            b as int - 1,
        ));
        b -= 1;
    }
    string_of(slice_subrange(chars.as_slice(), a, b))
}

/// The characters that no file name may hold, as a character class.
pub open spec fn reserved_class() -> Seq<char> {
    "[\\\\/:*?\"<>|]"@
}

/// What `sanitize_filename` gives for `name`: each match of the class of
/// reserved characters replaced by `_`.
pub open spec fn sanitized_filename(name: Seq<char>) -> Seq<char> {
    match regex_replaced(reserved_class(), name, "_"@) {
        Some(s) => s,
        None => name,
    }
}

/// `name` with each character that no file name may hold replaced by
/// `_`.
pub fn sanitize_filename(name: &str) -> (r: String)
    ensures
        r@ == sanitized_filename(name@),
{
    match replace_all("[\\\\/:*?\"<>|]", name, "_") {
        Some(s) => s,
        None => name.to_owned(),
    }
}

} // verus!
