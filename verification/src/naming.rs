//! The names of the files that items are saved to.

use vstd::prelude::*;
use vstd::slice::slice_subrange;
use crate::items::{link_views, LinkInfo, LinkView};
use crate::outside::{is_match, regex_matches, regex_replaced, replace_all, sanitize, sanitized};
use crate::playlist::{file_extension, get_file_extension, sanitize_filename, sanitized_filename};
use crate::status::{lemma_position_of, position_of};
use crate::text::{chars_of, is_space, is_space_char, push_all, string_of};

verus! {

/// The ids of those of the first `n` items that are called `name`.
pub open spec fn same_name_ids(all: Seq<LinkView>, name: Seq<char>, n: nat) -> Seq<usize>
    decreases n,
{
    if n == 0 || n > all.len() {
        seq![]
    } else if all[n - 1].name == name {
        same_name_ids(all, name, (n - 1) as nat).push(all[n - 1].id)
    } else {
        same_name_ids(all, name, (n - 1) as nat)
    }
}

/// Whether the quality tag is added to the name of `link`: it has a tag,
/// other items have its name, and it is not the first of them.
pub open spec fn needs_tag(link: LinkView, all: Seq<LinkView>) -> bool {
    let ids = same_name_ids(all, link.name, all.len());
    &&& link.quality is Some
    &&& ids.len() > 1
    &&& position_of(ids, link.id) matches Some(p) && p > 0
}

/// The name of `link` among `all`, with the quality tag where needed.
pub open spec fn tagged_name(link: LinkView, all: Seq<LinkView>) -> Seq<char> {
    if needs_tag(link, all) {
        link.name + " "@ + link.quality->0
    } else {
        link.name
    }
}

/// The file name for a name that was made safe.
pub open spec fn output_file_for(safe_name: Seq<char>) -> Seq<char> {
    safe_name + ".mkv"@
}

/// The file name for a name that was made safe: the name and `.mkv`.
pub fn output_file_name(safe_name: &str) -> (r: String)
    ensures
        r@ == output_file_for(safe_name@),
{
    let mut out = chars_of(safe_name);
    let ext = chars_of(".mkv");
    push_all(&mut out, ext.as_slice());
    string_of(out.as_slice())
}

fn has_earlier_namesake(link: &LinkInfo, all: &Vec<LinkInfo>) -> (r: bool)
    ensures
        r == {
            let ids = same_name_ids(link_views(all@), link@.name, all@.len());
            ids.len() > 1 && (position_of(ids, link.id) matches Some(p) && p > 0)
        },
{
    let mut ids: Vec<usize> = Vec::new();
    let mut i: usize = 0;
    while i < all.len()
        invariant
            i <= all@.len(),
            ids@ == same_name_ids(link_views(all@), link@.name, i as nat),
        decreases all@.len() - i,
    {
        if all[i].name == link.name {
            ids.push(all[i].id);
        }
        i += 1;
    }
    if ids.len() <= 1 {
        return false;
    }
    proof {
        lemma_position_of(ids@, link.id);
    }
    if ids[0] == link.id {
        return false;
    }
    let mut k: usize = 1;
    while k < ids.len()
        invariant
            1 <= k <= ids@.len(),
            ids@.len() > 1,
            ids@ == same_name_ids(link_views(all@), link@.name, all@.len()),
            forall|j: int| 0 <= j < k ==> ids@[j] != link.id,
        decreases ids@.len() - k,
    {
        if ids[k] == link.id {
            proof {
                lemma_position_of(ids@, link.id);
            }
            return true;
        }
        k += 1;
    }
    proof {
        lemma_position_of(ids@, link.id);
    }
    false
}

/// The name of `link` among `all_links`, with the quality tag where
/// needed.
pub fn display_name(link: &LinkInfo, all_links: &Vec<LinkInfo>) -> (r: String)
    ensures
        r@ == tagged_name(link@, link_views(all_links@)),
{
    match &link.quality {
        Some(q) => {
            if has_earlier_namesake(link, all_links) {
                let mut out = chars_of(link.name.as_str());
                let space = chars_of(" ");
                let tag = chars_of(q.as_str());
                push_all(&mut out, space.as_slice());
                push_all(&mut out, tag.as_slice());
                string_of(out.as_slice())
            } else {
                link.name.clone()
            }
        },
        None => link.name.clone(),
    }
}

/// The name of the file that `link_info` is saved to: its name among
/// `all_links`, made safe for a file system, and `.mkv`.
pub fn get_output_file(link_info: &LinkInfo, all_links: &Vec<LinkInfo>) -> (r: String)
    ensures
        r@ == output_file_for(sanitized(tagged_name(link_info@, link_views(all_links@)), true))
            || r@ == output_file_for(
            sanitized(tagged_name(link_info@, link_views(all_links@)), false),
        ),
{
    let name = display_name(link_info, all_links);
    let safe = sanitize(name.as_str());
    output_file_name(safe.as_str())
}

// ---------------------------------------------------------------------
// Names for the older file layout
// ---------------------------------------------------------------------
/// `s` without one leading `c`.
pub open spec fn without_leading(s: Seq<char>, c: char) -> Seq<char> {
    if s.len() > 0 && s[0] == c {
        s.drop_first()
    } else {
        s
    }
}

/// `s` without one leading `c`.
pub fn trim_start_match(s: &[char], c: char) -> (r: &[char])
    ensures
        r@ == without_leading(s@, c),
{
    if s.len() > 0 && s[0] == c {
        let rest = slice_subrange(s, 1, s.len());
        assert(rest@ =~= s@.drop_first());
        rest
    } else {
        s
    }
}

/// The file name for an episode: its name with the reserved characters
/// replaced, a `.`, and the extension that its address asks for.
pub open spec fn episode_file(name: Seq<char>, url: Seq<char>) -> Seq<char> {
    sanitized_filename(name) + "."@ + without_leading(file_extension(url), '.')
}

/// The file name for the episode called `name` whose address is `url`.
pub fn episode_file_name(name: &str, url: &str) -> (r: String)
    ensures
        r@ == episode_file(name@, url@),
{
    let safe = sanitize_filename(name);
    let ext = get_file_extension(url);
    let ext_chars = chars_of(ext.as_str());
    let mut out = chars_of(safe.as_str());
    let dot = chars_of(".");
    push_all(&mut out, dot.as_slice());
    push_all(&mut out, trim_start_match(ext_chars.as_slice(), '.'));
    string_of(out.as_slice())
}

// ---------------------------------------------------------------------
// Names that Windows accepts
// ---------------------------------------------------------------------
/// The control characters: U+0000 to U+001F and U+007F to U+009F.
pub open spec fn is_control(c: char) -> bool {
    let u = c as u32;
    u <= 0x1F || 0x7F <= u <= 0x9F
}

/// `s` without its control characters.
pub open spec fn without_controls(s: Seq<char>) -> Seq<char>
    decreases s.len(),
{
    if s.len() == 0 {
        s
    } else if is_control(s.last()) {
        without_controls(s.drop_last())
    } else {
        without_controls(s.drop_last()).push(s.last())
    }
}

/// `s` without the white space and the dots at its beginning and end.
pub open spec fn without_edges(s: Seq<char>) -> Seq<char>
    decreases s.len(),
{
    if s.len() == 0 {
        s
    } else if is_space(s[0]) || s[0] == '.' {
        without_edges(s.drop_first())
    } else if is_space(s.last()) || s.last() == '.' {
        without_edges(s.drop_last())
    } else {
        s
    }
}

/// The name after the reserved characters were replaced: trimmed, and
/// with `_` in front where nothing is left or where `reserved` says that
/// the name is one of the device names.
pub open spec fn finished_name(replaced: Seq<char>, reserved: Option<bool>) -> Seq<char> {
    let core = without_edges(replaced);
    if reserved == Some(true) || core.len() == 0 {
        "_"@ + core
    } else {
        core
    }
}

/// A file name that Windows accepts, made from `filename`: control
/// characters dropped, each of `< > : " / | ? *` replaced by `_`, white
/// space and dots trimmed, and `_` put in front of an empty name or a
/// device name.
pub open spec fn windows_name(filename: Seq<char>) -> Seq<char> {
    let clean = without_controls(filename);
    let replaced = match regex_replaced("[<>:\"/\\|?*]"@, clean, "_"@) {
        Some(s) => s,
        None => clean,
    };
    finished_name(
        replaced,
        regex_matches("^(?i)(CON|PRN|AUX|NUL|COM[1-9]|LPT[1-9])$"@, without_edges(replaced)),
    )
}

fn drop_controls(s: &[char]) -> (r: Vec<char>)
    ensures
        r@ == without_controls(s@),
{
    let mut r: Vec<char> = Vec::new();
    let mut i: usize = 0;
    assert(s@.take(0) =~= seq![]);
    while i < s.len()
        invariant
            i <= s.len(),
            r@ == without_controls(s@.take(i as int)),
        decreases s.len() - i,
    {
        let c = s[i];
        let u = c as u32;
        assert(s@.take(i + 1).drop_last() =~= s@.take(i as int));
        if !(u <= 0x1F || (0x7F <= u && u <= 0x9F)) {
            r.push(c);
        }
        i += 1;
    }
    assert(s@.take(s.len() as int) =~= s@);
    r
}

fn trim_edges(s: &[char]) -> (r: &[char])
    ensures
        r@ == without_edges(s@),
{
    let n = s.len();
    let mut a: usize = 0;
    assert(s@.subrange(0, n as int) =~= s@);
    while a < n && (is_space_char(s[a]) || s[a] == '.')
        invariant
            a <= n,
            n == s.len(),
            without_edges(s@.subrange(a as int, n as int)) == without_edges(s@),
        decreases n - a,
    {
        assert(s@.subrange(a as int, n as int).drop_first() =~= s@.subrange(a as int + 1, n as int));
        a += 1;
    }
    let mut b: usize = n;
    while a < b && (is_space_char(s[b - 1]) || s[b - 1] == '.')
        invariant
            a <= b <= n,
            n == s.len(),
            a < b ==> !(is_space(s@[a as int]) || s@[a as int] == '.'),
            without_edges(s@.subrange(a as int, b as int)) == without_edges(s@),
        decreases b - a,
    {
        assert(s@.subrange(a as int, b as int).drop_last() =~= s@.subrange(a as int, b as int - 1));
        b -= 1;
    }
    slice_subrange(s, a, b)
}

/// Finishes a name whose reserved characters were replaced; `reserved`
/// says whether the trimmed name is a device name.
pub fn finish_name(replaced: &str, reserved: Option<bool>) -> (r: String)
    ensures
        r@ == finished_name(replaced@, reserved),
{
    let chars = chars_of(replaced);
    let core = trim_edges(chars.as_slice());
    let is_reserved = match reserved {
        Some(b) => b,
        None => false,
    };
    if is_reserved || core.len() == 0 {
        let mut out = chars_of("_");
        push_all(&mut out, core);
        string_of(out.as_slice())
    } else {
        string_of(core)
    }
}

/// Makes a file name that Windows accepts from `filename`.
pub fn windows_file_name(filename: &str) -> (r: String)
    ensures
        r@ == windows_name(filename@),
{
    let chars = chars_of(filename);
    let clean = string_of(drop_controls(chars.as_slice()).as_slice());
    let replaced = match replace_all("[<>:\"/\\|?*]", clean.as_str(), "_") {
        Some(s) => s,
        None => clean,
    };
    let replaced_chars = chars_of(replaced.as_str());
    let core = string_of(trim_edges(replaced_chars.as_slice()));
    let reserved = is_match("^(?i)(CON|PRN|AUX|NUL|COM[1-9]|LPT[1-9])$", core.as_str());
    finish_name(replaced.as_str(), reserved)
}

} // verus!
