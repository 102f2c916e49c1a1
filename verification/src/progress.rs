//! Progress extraction from the text that the media tool prints.
//!
//! The tool prints lines that mix diagnostics and progress. A line that
//! mentions `Duration` may carry the total length of the media; a line with
//! `time=` carries the position reached. Both are written as
//! `HH:MM:SS[.frac]`. Times are held in microseconds.

use vstd::prelude::*;
use vstd::slice::slice_subrange;
use crate::text::{
    all_digits, chars_of, contains, contains_text, decimal_value, digit_char, digit_of,
    digit_value, find_char, find_from, lemma_first_char_is, lemma_first_char_none,
    lemma_first_occurrence_is, lemma_no_occurrence_without_first, occurs_at,
    first_char, first_occurrence, has_prefix, is_digit, is_digit_char, is_space, is_space_char,
    lemma_first_occurrence, parse_decimal, starts_with, string_of, trim, trimmed,
};

verus! {

/// Microseconds in a second.
pub const MICROS_PER_SECOND: u64 = 1_000_000;

/// Hundredths of a percent in a whole.
pub const FULL_PERCENT: u32 = 10_000;

// ---------------------------------------------------------------------
// The grammar of a time token
// ---------------------------------------------------------------------
/// What one or more decimal digits write; nothing for anything else.
pub open spec fn digits_number(s: Seq<char>) -> Option<nat> {
    if s.len() > 0 && all_digits(s) {
        Some(decimal_value(s))
    } else {
        None
    }
}

/// The digits after the decimal point, as microseconds: the first six count,
/// missing ones are zero.
pub open spec fn fraction_micros(frac: Seq<char>) -> nat {
    decimal_value((frac + seq!['0', '0', '0', '0', '0', '0']).take(6))
}

/// Microseconds written as `SS` or `SS.frac`.
pub open spec fn seconds_micros(s: Seq<char>) -> Option<nat> {
    match first_char(s, '.', 0) {
        None => match digits_number(s) {
            Some(v) => Some(v * 1_000_000),
            None => None,
        },
        Some(dot) => match (digits_number(s.take(dot)), digits_number(s.skip(dot + 1))) {
            (Some(v), Some(_)) => Some(v * 1_000_000 + fraction_micros(s.skip(dot + 1))),
            _ => None,
        },
    }
}

/// Microseconds written as `HH:MM:SS[.frac]`: exactly two colons, digits
/// between them, no bound on any part.
pub open spec fn clock_micros(token: Seq<char>) -> Option<nat> {
    match first_char(token, ':', 0) {
        None => None,
        Some(c1) => match first_char(token, ':', c1 + 1) {
            None => None,
            Some(c2) => if first_char(token, ':', c2 + 1) is Some {
                None
            } else {
                match (
                    digits_number(token.subrange(0, c1)),
                    digits_number(token.subrange(c1 + 1, c2)),
                    seconds_micros(token.skip(c2 + 1)),
                ) {
                    (Some(h), Some(m), Some(us)) => Some((h * 3600 + m * 60) * 1_000_000 + us),
                    _ => None,
                }
            },
        },
    }
}

/// The time that a token writes, where it fits 64 bits.
pub open spec fn clock_value(token: Seq<char>) -> Option<u64> {
    match clock_micros(token) {
        Some(us) => if us <= u64::MAX {
            Some(us as u64)
        } else {
            None
        },
        None => None,
    }
}

/// The part of `line` between the first `marker` and the next one, or the
/// end of the line.
pub open spec fn after_marker(line: Seq<char>, marker: Seq<char>) -> Option<Seq<char>> {
    match first_occurrence(line, marker, 0) {
        None => None,
        Some(i) => match first_occurrence(line, marker, i + marker.len()) {
            Some(j) => Some(line.subrange(i + marker.len(), j)),
            None => Some(line.subrange(i + marker.len(), line.len() as int)),
        },
    }
}

/// The part of `s` before the first `c`, or all of it.
pub open spec fn before_char(s: Seq<char>, c: char) -> Seq<char> {
    match first_char(s, c, 0) {
        Some(i) => s.take(i),
        None => s,
    }
}

/// The first position at or after `from` whose character is white space
/// (`space`) or is not (`!space`); the length of `s` where there is none.
pub open spec fn scan(s: Seq<char>, from: int, space: bool) -> int
    decreases s.len() - from,
{
    if from < 0 || from >= s.len() {
        s.len() as int
    } else if is_space(s[from]) == space {
        from
    } else {
        scan(s, from + 1, space)
    }
}

/// The first run of characters of `s` that holds no white space.
pub open spec fn first_word(s: Seq<char>) -> Option<Seq<char>> {
    let a = scan(s, 0, false);
    if a >= s.len() {
        None
    } else {
        Some(s.subrange(a, scan(s, a, true)))
    }
}

/// The total length that a line announces after `Duration: `, up to the
/// next comma. `N/A` and anything that is no time give nothing.
pub open spec fn duration_of(line: Seq<char>) -> Option<u64> {
    match after_marker(line, "Duration: "@) {
        None => None,
        Some(rest) => {
            let field = before_char(rest, ',');
            if contains_text(field, "N/A"@) {
                None
            } else {
                clock_value(trimmed(field))
            }
        },
    }
}

/// The position that a line reports after `time=`, up to the next white
/// space.
pub open spec fn time_of(line: Seq<char>) -> Option<u64> {
    match after_marker(line, "time="@) {
        None => None,
        Some(rest) => match first_word(rest) {
            None => None,
            Some(word) => clock_value(word),
        },
    }
}

fn check_digits(s: &[char]) -> (r: bool)
    ensures
        r == (s@.len() > 0 && all_digits(s@)),
{
    if s.len() == 0 {
        return false;
    }
    let mut i: usize = 0;
    while i < s.len()
        invariant
            i <= s.len(),
            forall|j: int| 0 <= j < i ==> is_digit(#[trigger] s@[j]),
        decreases s.len() - i,
    {
        if !is_digit_char(s[i]) {
            return false;
        }
        i += 1;
    }
    true
}

fn parse_fraction(frac: &[char]) -> (r: u64)
    requires
        all_digits(frac@),
    ensures
        r == fraction_micros(frac@),
        r < 1_000_000,
{
    let ghost padded = (frac@ + seq!['0', '0', '0', '0', '0', '0']).take(6);
    let mut acc: u64 = 0;
    let mut i: usize = 0;
    let mut bound: u64 = 1;
    while i < 6
        invariant
            i <= 6,
            padded == (frac@ + seq!['0', '0', '0', '0', '0', '0']).take(6),
            all_digits(frac@),
            acc == decimal_value(padded.take(i as int)),
            acc < bound,
            bound <= 1_000_000,
            i < 6 ==> bound <= 100_000,
            i < 5 ==> bound <= 10_000,
            i < 4 ==> bound <= 1_000,
            i < 3 ==> bound <= 100,
            i < 2 ==> bound <= 10,
            i < 1 ==> bound <= 1,
        decreases 6 - i,
    {
        let c: char = if i < frac.len() {
            frac[i]
        } else {
            '0'
        };
        assert(padded[i as int] == c);
        assert(is_digit(c));
        let d = digit_of(c);
        proof {
            assert(padded.take(i + 1).drop_last() =~= padded.take(i as int));
            assert(padded.take(i + 1).last() == c);
        }
        acc = acc * 10 + d;
        bound = bound * 10;
        i += 1;
    }
    assert(padded.take(6) =~= padded);
    acc
}

/// Reads `SS` or `SS.frac`. Gives nothing where the text is no such
/// number or the whole seconds pass 64 bits.
fn parse_seconds(s: &[char]) -> (r: Option<(u64, u64)>)
    ensures
        match r {
            Some((whole, frac)) => seconds_micros(s@) == Some(
                (whole * 1_000_000 + frac) as nat,
            ) && frac < 1_000_000,
            None => match seconds_micros(s@) {
                Some(us) => us > u64::MAX,
                None => true,
            },
        },
{
    match find_char(s, '.', 0) {
        None => {
            match parse_decimal(s, u64::MAX) {
                Some(v) => Some((v, 0)),
                None => None,
            }
        },
        Some(dot) => {
            let whole = slice_subrange(s, 0, dot);
            let frac = slice_subrange(s, dot + 1, s.len());
            assert(whole@ =~= s@.take(dot as int));
            assert(frac@ =~= s@.skip(dot + 1));
            if !check_digits(frac) {
                return None;
            }
            match parse_decimal(whole, u64::MAX) {
                Some(v) => Some((v, parse_fraction(frac))),
                None => None,
            }
        },
    }
}

/// Reads a time written as `HH:MM:SS[.frac]`, in microseconds.
pub fn parse_clock(token: &[char]) -> (r: Option<u64>)
    ensures
        r == clock_value(token@),
{
    let c1 = match find_char(token, ':', 0) {
        Some(i) => i,
        None => {
            return None;
        },
    };
    let c2 = match find_char(token, ':', c1 + 1) {
        Some(i) => i,
        None => {
            return None;
        },
    };
    if find_char(token, ':', c2 + 1).is_some() {
        return None;
    }
    let hs = slice_subrange(token, 0, c1);
    let ms = slice_subrange(token, c1 + 1, c2);
    let ss = slice_subrange(token, c2 + 1, token.len());
    assert(ss@ =~= token@.skip(c2 + 1));
    let h = match parse_decimal(hs, u64::MAX) {
        Some(v) => v,
        None => {
            return None;
        },
    };
    let m = match parse_decimal(ms, u64::MAX) {
        Some(v) => v,
        None => {
            return None;
        },
    };
    let (s, frac) = match parse_seconds(ss) {
        Some(p) => p,
        None => {
            return None;
        },
    };
    let total: u128 = ((h as u128) * 3600 + (m as u128) * 60 + (s as u128)) * 1_000_000 + (
    frac as u128);
    if total > u64::MAX as u128 {
        None
    } else {
        Some(total as u64)
    }
}

/// The part of `line` between the first `marker` and the next one.
pub fn take_after_marker<'a>(line: &'a [char], marker: &[char]) -> (r: Option<&'a [char]>)
    ensures
        match after_marker(line@, marker@) {
            Some(s) => r matches Some(got) && got@ == s,
            None => r is None,
        },
{
    let i = match find_from(line, marker, 0) {
        Some(i) => i,
        None => {
            return None;
        },
    };
    proof {
        lemma_first_occurrence(line@, marker@, 0);
    }
    let start = i + marker.len();
    match find_from(line, marker, start) {
        Some(j) => {
            proof {
                lemma_first_occurrence(line@, marker@, start as int);
            }
            Some(slice_subrange(line, start, j))
        },
        None => Some(slice_subrange(line, start, line.len())),
    }
}

/// The part of `s` before the first `c`.
pub fn take_before_char(s: &[char], c: char) -> (r: &[char])
    ensures
        r@ == before_char(s@, c),
{
    match find_char(s, c, 0) {
        Some(i) => {
            assert(s@.subrange(0, i as int) =~= s@.take(i as int));
            slice_subrange(s, 0, i)
        },
        None => s,
    }
}

fn scan_from(s: &[char], from: usize, space: bool) -> (r: usize)
    requires
        from <= s.len(),
    ensures
        r == scan(s@, from as int, space),
        from <= r <= s.len(),
{
    let mut i: usize = from;
    while i < s.len() && is_space_char(s[i]) != space
        invariant
            from <= i <= s.len(),
            scan(s@, i as int, space) == scan(s@, from as int, space),
        decreases s.len() - i,
    {
        i += 1;
    }
    i
}

/// The first run of characters of `s` that holds no white space.
pub fn take_first_word(s: &[char]) -> (r: Option<&[char]>)
    ensures
        match first_word(s@) {
            Some(w) => r matches Some(got) && got@ == w,
            None => r is None,
        },
{
    let a = scan_from(s, 0, false);
    if a >= s.len() {
        None
    } else {
        let b = scan_from(s, a, true);
        Some(slice_subrange(s, a, b))
    }
}

/// The total length that `line` announces, in microseconds.
pub fn parse_ffmpeg_duration(line: &str) -> (r: Option<u64>)
    ensures
        r == duration_of(line@),
{
    let chars = chars_of(line);
    let marker = chars_of("Duration: ");
    let rest = match take_after_marker(chars.as_slice(), marker.as_slice()) {
        Some(rest) => rest,
        None => {
            return None;
        },
    };
    let field = take_before_char(rest, ',');
    let na = chars_of("N/A");
    if contains(field, na.as_slice()) {
        return None;
    }
    parse_clock(trim(field))
}

/// The position that `line` reports, in microseconds.
pub fn parse_ffmpeg_time(line: &str) -> (r: Option<u64>)
    ensures
        r == time_of(line@),
{
    let chars = chars_of(line);
    let marker = chars_of("time=");
    let rest = match take_after_marker(chars.as_slice(), marker.as_slice()) {
        Some(rest) => rest,
        None => {
            return None;
        },
    };
    match take_first_word(rest) {
        Some(word) => parse_clock(word),
        None => None,
    }
}

/// The speed that the tool itself reports: what follows `speed=` in
/// the first word, from position `from` on, that begins with it.
pub open spec fn reported_speed_from(line: Seq<char>, from: int) -> Option<Seq<char>>
    decreases line.len() - from,
{
    let a = scan(line, from, false);
    if from < 0 || a >= line.len() {
        None
    } else {
        let b = scan(line, a, true);
        if has_prefix(line.subrange(a, b), "speed="@) {
            Some(line.subrange(a + 6, b))
        } else if from <= a < b <= line.len() {
            reported_speed_from(line, b)
        } else {
            None
        }
    }
}

/// The speed that the tool itself reports in `line`, such as `1.23x`.
pub fn extract_speed_from_ffmpeg_line(line: &str) -> (r: Option<String>)
    ensures
        match r {
            Some(s) => reported_speed_from(line@, 0) == Some(s@),
            None => reported_speed_from(line@, 0) is None,
        },
{
    let chars = chars_of(line);
    let marker = chars_of("speed=");
    proof {
        reveal_strlit("speed=");
    }
    let n = chars.len();
    let mut from: usize = 0;
    loop
        invariant
            from <= n,
            n == chars@.len(),
            chars@ == line@,
            marker@ == "speed="@,
            marker@.len() == 6,
            reported_speed_from(chars@, from as int) == reported_speed_from(chars@, 0),
        decreases n - from,
    {
        let a = scan_from(chars.as_slice(), from, false);
        if a >= n {
            return None;
        }
        let b = scan_from(chars.as_slice(), a, true);
        let word = slice_subrange(chars.as_slice(), a, b);
        if starts_with(word, marker.as_slice()) {
            return Some(string_of(slice_subrange(chars.as_slice(), a + 6, b)));
        }
        if a >= b {
            return None;
        }
        from = b;
    }
}

// ---------------------------------------------------------------------
// Figures
// ---------------------------------------------------------------------
/// The share of `total` that `position` is, in hundredths of a percent and
/// at most a whole. A total of zero counts as reached.
pub open spec fn percent_of(position: u64, total: u64) -> u32 {
    if total == 0 || position >= total {
        FULL_PERCENT
    } else {
        (position as int * 10_000 / total as int) as u32
    }
}

/// Media time per wall-clock time, in thousandths, at most `u64::MAX`; zero
/// where no wall-clock time has passed.
pub open spec fn speed_of(position: u64, elapsed: u64) -> u64 {
    if elapsed == 0 {
        0
    } else if position as int * 1000 / elapsed as int > u64::MAX {
        u64::MAX
    } else {
        (position as int * 1000 / elapsed as int) as u64
    }
}

/// Seconds still needed at the speed seen so far, at most `u64::MAX`:
/// unknown while nothing has been transferred or no time has passed.
pub open spec fn eta_of(position: u64, total: u64, elapsed: u64) -> Option<u64> {
    if position == 0 || elapsed == 0 {
        None
    } else {
        let left: int = if total > position {
            total - position
        } else {
            0
        };
        let secs = left * elapsed as int / position as int / 1_000_000;
        if secs > u64::MAX {
            Some(u64::MAX)
        } else {
            Some(secs as u64)
        }
    }
}

/// The share of `total` that `position` is, in hundredths of a percent.
pub fn percent(position: u64, total: u64) -> (r: u32)
    ensures
        r == percent_of(position, total),
        r <= FULL_PERCENT,
{
    if total == 0 || position >= total {
        FULL_PERCENT
    } else {
        let q: u128 = (position as u128) * 10_000 / (total as u128);
        assert(q < 10_000) by (nonlinear_arith)
            requires
                q == (position as int * 10_000) / total as int,
                position < total,
                total > 0,
        ;
        q as u32
    }
}

/// Media time per wall-clock time, in thousandths.
pub fn speed(position: u64, elapsed: u64) -> (r: u64)
    ensures
        r == speed_of(position, elapsed),
{
    if elapsed == 0 {
        0
    } else {
        let q: u128 = (position as u128) * 1000 / (elapsed as u128);
        if q > u64::MAX as u128 {
            u64::MAX
        } else {
            q as u64
        }
    }
}

/// Seconds still needed at the speed seen so far.
pub fn eta(position: u64, total: u64, elapsed: u64) -> (r: Option<u64>)
    ensures
        r == eta_of(position, total, elapsed),
{
    if position == 0 || elapsed == 0 {
        None
    } else {
        let left: u64 = if total > position {
            total - position
        } else {
            0
        };
        assert(left as int * elapsed as int <= 0xFFFF_FFFF_FFFF_FFFF * 0xFFFF_FFFF_FFFF_FFFF)
            by (nonlinear_arith)
            requires
                0 <= left <= 0xFFFF_FFFF_FFFF_FFFF,
                0 <= elapsed <= 0xFFFF_FFFF_FFFF_FFFF,
        ;
        let secs: u128 = (left as u128) * (elapsed as u128) / (position as u128) / 1_000_000;
        if secs > u64::MAX as u128 {
            Some(u64::MAX)
        } else {
            Some(secs as u64)
        }
    }
}

// ---------------------------------------------------------------------
// The parser
// ---------------------------------------------------------------------
/// What one progress line tells.
#[derive(Clone, Copy, Debug, PartialEq, Eq, Structural)]
pub struct ProgressSnapshot {
    /// Media time reached, in microseconds.
    pub position: u64,
    /// Share of the total, in hundredths of a percent; unknown while no
    /// total has been seen.
    pub percent: Option<u32>,
    /// Media time per wall-clock time, in thousandths.
    pub speed: u64,
    /// Seconds still needed; unknown without a total or a speed.
    pub eta_seconds: Option<u64>,
}

/// What the parser keeps between the lines of one attempt.
#[derive(Clone, Copy, Debug, PartialEq, Eq, Structural)]
pub struct ProgressParser {
    /// The first total length seen.
    pub total_duration: Option<u64>,
    /// The last position seen.
    pub last_timestamp: Option<u64>,
}

/// The figures for `position`, with `total` as far as it is known, after
/// `elapsed` microseconds of wall-clock time.
pub open spec fn snapshot_of(position: u64, total: Option<u64>, elapsed: u64) -> ProgressSnapshot {
    ProgressSnapshot {
        position,
        percent: match total {
            Some(t) => Some(percent_of(position, t)),
            None => None,
        },
        speed: speed_of(position, elapsed),
        eta_seconds: match total {
            Some(t) => eta_of(position, t, elapsed),
            None => None,
        },
    }
}

impl ProgressParser {
    /// The parser at the start of an attempt.
    pub open spec fn fresh() -> ProgressParser {
        ProgressParser { total_duration: None, last_timestamp: None }
    }

    /// The parser after `line`, and what the line tells. A line that
    /// mentions `Duration` sets the total if none is known yet and tells
    /// nothing. Any other line tells a snapshot if it carries a time, and
    /// leaves the parser as it is if not.
    pub open spec fn fed(self, line: Seq<char>, elapsed: u64) -> (
        ProgressParser,
        Option<ProgressSnapshot>,
    ) {
        if contains_text(line, "Duration"@) {
            match self.total_duration {
                Some(_) => (self, None),
                None => (
                    ProgressParser { total_duration: duration_of(line), ..self },
                    None,
                ),
            }
        } else {
            match time_of(line) {
                Some(t) => (
                    ProgressParser { last_timestamp: Some(t), ..self },
                    Some(snapshot_of(t, self.total_duration, elapsed)),
                ),
                None => (self, None),
            }
        }
    }

    /// The parser at the start of an attempt.
    pub fn new() -> (p: ProgressParser)
        ensures
            p == ProgressParser::fresh(),
    {
        ProgressParser { total_duration: None, last_timestamp: None }
    }

    /// Takes one line of output, `elapsed` microseconds after the attempt
    /// began.
    pub fn feed(&mut self, line: &str, elapsed: u64) -> (r: Option<ProgressSnapshot>)
        ensures
            (*final(self), r) == old(self).fed(line@, elapsed),
    {
        let chars = chars_of(line);
        let word = chars_of("Duration");
        if contains(chars.as_slice(), word.as_slice()) {
            if self.total_duration.is_none() {
                self.total_duration = parse_ffmpeg_duration(line);
            }
            None
        } else {
            match parse_ffmpeg_time(line) {
                Some(t) => {
                    self.last_timestamp = Some(t);
                    Some(snapshot(t, self.total_duration, elapsed))
                },
                None => None,
            }
        }
    }
}

/// The figures for `position`, `elapsed` microseconds after the attempt began.
pub fn snapshot(position: u64, total: Option<u64>, elapsed: u64) -> (r: ProgressSnapshot)
    ensures
        r == snapshot_of(position, total, elapsed),
{
    ProgressSnapshot {
        position,
        percent: match total {
            Some(t) => Some(percent(position, t)),
            None => None,
        },
        speed: speed(position, elapsed),
        eta_seconds: match total {
            Some(t) => eta(position, t, elapsed),
            None => None,
        },
    }
}

/// Later totals are ignored: once a total is known, no line changes it.
pub proof fn law_first_duration_wins(p: ProgressParser, line: Seq<char>, elapsed: u64)
    requires
        p.total_duration is Some,
    ensures
        p.fed(line, elapsed).0.total_duration == p.total_duration,
{
}

/// A line that carries no readable time changes nothing and tells nothing,
/// unless it mentions `Duration`.
pub proof fn law_unreadable_line_is_skipped(p: ProgressParser, line: Seq<char>, elapsed: u64)
    requires
        !contains_text(line, "Duration"@),
        time_of(line) is None,
    ensures
        p.fed(line, elapsed) == (p, None::<ProgressSnapshot>),
{
}

/// Without a total the percentage and the time left are unknown, and the
/// line is still read.
pub proof fn law_percent_needs_duration(p: ProgressParser, line: Seq<char>, elapsed: u64)
    requires
        p.total_duration is None,
        !contains_text(line, "Duration"@),
        time_of(line) is Some,
    ensures
        p.fed(line, elapsed).1 matches Some(s) && s.percent is None && s.eta_seconds is None
            && s.position == time_of(line)->0,
{
}

// ---------------------------------------------------------------------
// Lines of the usual shape
// ---------------------------------------------------------------------
/// A time as the tool prints it: two digits each for hours, minutes,
/// seconds and hundredths.
pub open spec fn two_digit_clock(h: nat, m: nat, s: nat, cs: nat) -> Seq<char> {
    seq![
        digit_char(h / 10),
        digit_char(h % 10),
        ':',
        digit_char(m / 10),
        digit_char(m % 10),
        ':',
        digit_char(s / 10),
        digit_char(s % 10),
        '.',
        digit_char(cs / 10),
        digit_char(cs % 10),
    ]
}

/// The microseconds that such a time stands for.
pub open spec fn two_digit_micros(h: nat, m: nat, s: nat, cs: nat) -> nat {
    (h * 3600 + m * 60 + s) * 1_000_000 + cs * 10_000
}

/// Two digits write ten times the first and the second.
pub proof fn lemma_two_digits(s: Seq<char>)
    requires
        s.len() == 2,
        is_digit(s[0]),
        is_digit(s[1]),
    ensures
        digits_number(s) == Some(digit_value(s[0]) * 10 + digit_value(s[1])),
{
    reveal_with_fuel(decimal_value, 3);
    assert(s.drop_last().drop_last().len() == 0);
    assert(s.drop_last().last() == s[0]);
}

/// Two digits after the point are hundredths of a second.
pub proof fn lemma_two_digit_fraction(s: Seq<char>)
    requires
        s.len() == 2,
        is_digit(s[0]),
        is_digit(s[1]),
    ensures
        fraction_micros(s) == (digit_value(s[0]) * 10 + digit_value(s[1])) * 10_000,
{
    let padded = (s + seq!['0', '0', '0', '0', '0', '0']).take(6);
    assert(padded =~= seq![s[0], s[1], '0', '0', '0', '0']);
    let five = padded.drop_last();
    let four = five.drop_last();
    let three = four.drop_last();
    let two = three.drop_last();
    assert(two =~= s);
    lemma_two_digits(s);
    assert(decimal_value(three) == decimal_value(two) * 10 + digit_value(three.last()));
    assert(decimal_value(four) == decimal_value(three) * 10 + digit_value(four.last()));
    assert(decimal_value(five) == decimal_value(four) * 10 + digit_value(five.last()));
    assert(decimal_value(padded) == decimal_value(five) * 10 + digit_value(padded.last()));
    assert(digit_value('0') == 0);
}

/// A time of two digits per part reads as what it stands for.
pub proof fn lemma_two_digit_clock(h: nat, m: nat, s: nat, cs: nat)
    requires
        h < 100,
        m < 100,
        s < 100,
        cs < 100,
    ensures
        clock_value(two_digit_clock(h, m, s, cs)) == Some(two_digit_micros(h, m, s, cs) as u64),
        two_digit_micros(h, m, s, cs) <= u64::MAX,
{
    let t = two_digit_clock(h, m, s, cs);
    assert(t.len() == 11);
    assert forall|j: int| 0 <= j < 11 && j != 2 && j != 5 && j != 8 implies is_digit(
        #[trigger] t[j],
    ) by {}
    lemma_first_char_is(t, ':', 0, 2);
    lemma_first_char_is(t, ':', 3, 5);
    assert forall|j: int| 6 <= j < t.len() implies t[j] != ':' by {
        if j != 8 {
            assert(is_digit(t[j]));
        }
    }
    lemma_first_char_none(t, ':', 6);
    let hh = t.subrange(0, 2);
    let mm = t.subrange(3, 5);
    let rest = t.skip(6);
    assert(hh[0] == t[0] && hh[1] == t[1]);
    assert(mm[0] == t[3] && mm[1] == t[4]);
    lemma_two_digits(hh);
    lemma_two_digits(mm);
    assert(rest.len() == 5);
    assert(rest[0] == t[6] && rest[1] == t[7] && rest[2] == '.' && rest[3] == t[9] && rest[4]
        == t[10]);
    lemma_first_char_is(rest, '.', 0, 2);
    let ss = rest.take(2);
    let ff = rest.skip(3);
    assert(ss[0] == t[6] && ss[1] == t[7]);
    assert(ff[0] == t[9] && ff[1] == t[10]);
    lemma_two_digits(ss);
    lemma_two_digits(ff);
    lemma_two_digit_fraction(ff);
    assert(digit_value(t[0]) * 10 + digit_value(t[1]) == h);
    assert(digit_value(t[3]) * 10 + digit_value(t[4]) == m);
    assert(digit_value(t[6]) * 10 + digit_value(t[7]) == s);
    assert(digit_value(t[9]) * 10 + digit_value(t[10]) == cs);
    assert(seconds_micros(rest) == Some(s * 1_000_000 + cs * 10_000));
    assert(clock_micros(t) == Some((h * 3600 + m * 60) * 1_000_000 + (s * 1_000_000 + cs * 10_000)));
}

/// `scan` stops at `k` where no character from `from` up to `k` is what
/// is looked for and the one at `k` is, or the text ends there.
pub proof fn lemma_scan_is(s: Seq<char>, from: int, space: bool, k: int)
    requires
        0 <= from <= k <= s.len(),
        forall|j: int| from <= j < k ==> is_space(s[j]) != space,
        k == s.len() || is_space(s[k]) == space,
    ensures
        scan(s, from, space) == k,
    decreases k - from,
{
    if from < k {
        lemma_scan_is(s, from + 1, space, k);
    }
}

/// No part of a time of two digits per part is white space, a comma, or
/// a letter.
pub proof fn lemma_two_digit_clock_chars(h: nat, m: nat, s: nat, cs: nat, j: int)
    requires
        h < 100,
        m < 100,
        s < 100,
        cs < 100,
        0 <= j < 11,
    ensures
        ({
            let c = two_digit_clock(h, m, s, cs)[j];
            &&& !is_space(c)
            &&& c != ','
            &&& c != 'D'
            &&& c != 't'
            &&& c != 'N'
        }),
{
    let t = two_digit_clock(h, m, s, cs);
    if j != 2 && j != 5 && j != 8 {
        assert(is_digit(t[j]));
    }
}

/// The text that the tool prints before the total length.
pub open spec fn duration_line(prefix: Seq<char>, clock: Seq<char>, rest: Seq<char>) -> Seq<char> {
    prefix + "Duration: "@ + clock + seq![','] + rest
}

/// The text that the tool prints for the position reached.
pub open spec fn time_line(prefix: Seq<char>, clock: Seq<char>, rest: Seq<char>) -> Seq<char> {
    prefix + "time="@ + clock + rest
}

/// A line that holds `Duration: `, a time of two digits per part and a
/// comma announces that time, whatever stands before it without a `D`
/// and whatever follows the comma.
pub proof fn law_duration_line_is_read(
    prefix: Seq<char>,
    h: nat,
    m: nat,
    s: nat,
    cs: nat,
    rest: Seq<char>,
)
    requires
        h < 100,
        m < 100,
        s < 100,
        cs < 100,
        forall|j: int| 0 <= j < prefix.len() ==> prefix[j] != 'D',
    ensures
        duration_of(duration_line(prefix, two_digit_clock(h, m, s, cs), rest)) == Some(
            two_digit_micros(h, m, s, cs) as u64,
        ),
        contains_text(duration_line(prefix, two_digit_clock(h, m, s, cs), rest), "Duration"@),
{
    reveal_strlit("Duration: ");
    reveal_strlit("Duration");
    reveal_strlit("N/A");
    let marker = "Duration: "@;
    let tok = two_digit_clock(h, m, s, cs);
    let line = duration_line(prefix, tok, rest);
    let k = prefix.len() as int;
    let start = k + 10;
    assert(line.len() == k + 22 + rest.len());
    assert forall|j: int| 0 <= j < 11 implies line[start + j] == tok[j] by {}
    assert(line[start + 11] == ',');
    assert(line.subrange(k, k + 10) =~= marker);
    assert(line.subrange(k, k + 8) =~= "Duration"@);
    lemma_no_occurrence_without_first(line, marker, 0, k);
    lemma_first_occurrence_is(line, marker, 0, k);
    lemma_first_occurrence(line, "Duration"@, 0);
    assert(occurs_at(line, "Duration"@, k));
    assert forall|j: int| start <= j < start + 12 implies line[j] != 'D' by {
        if j < start + 11 {
            lemma_two_digit_clock_chars(h, m, s, cs, j - start);
        }
    }
    lemma_no_occurrence_without_first(line, marker, start, start + 12);
    lemma_first_occurrence(line, marker, start);
    let r = after_marker(line, marker)->0;
    assert(r.len() >= 12);
    assert forall|j: int| 0 <= j < 11 implies r[j] == tok[j] by {}
    assert(r[11] == ',');
    assert forall|j: int| 0 <= j < 11 implies r[j] != ',' by {
        lemma_two_digit_clock_chars(h, m, s, cs, j);
    }
    lemma_first_char_is(r, ',', 0, 11);
    let field = before_char(r, ',');
    assert(field =~= tok);
    assert forall|j: int| 0 <= j < tok.len() implies tok[j] != "N/A"@[0] by {
        lemma_two_digit_clock_chars(h, m, s, cs, j);
    }
    lemma_no_occurrence_without_first(tok, "N/A"@, 0, tok.len() as int + 1);
    lemma_first_occurrence(tok, "N/A"@, 0);
    lemma_two_digit_clock_chars(h, m, s, cs, 0);
    lemma_two_digit_clock_chars(h, m, s, cs, 10);
    assert(trimmed(tok) == tok);
    lemma_two_digit_clock(h, m, s, cs);
}

/// A line that holds `time=` and a time of two digits per part, followed
/// by white space or by nothing, reports that time, whatever stands before
/// it without a `t`.
pub proof fn law_time_line_is_read(
    prefix: Seq<char>,
    h: nat,
    m: nat,
    s: nat,
    cs: nat,
    rest: Seq<char>,
)
    requires
        h < 100,
        m < 100,
        s < 100,
        cs < 100,
        forall|j: int| 0 <= j < prefix.len() ==> prefix[j] != 't',
        rest.len() == 0 || is_space(rest[0]),
    ensures
        time_of(time_line(prefix, two_digit_clock(h, m, s, cs), rest)) == Some(
            two_digit_micros(h, m, s, cs) as u64,
        ),
{
    reveal_strlit("time=");
    let marker = "time="@;
    let tok = two_digit_clock(h, m, s, cs);
    let line = time_line(prefix, tok, rest);
    let k = prefix.len() as int;
    let start = k + 5;
    assert(line.len() == k + 16 + rest.len());
    assert forall|j: int| 0 <= j < 11 implies line[start + j] == tok[j] by {}
    assert(line.subrange(k, k + 5) =~= marker);
    lemma_no_occurrence_without_first(line, marker, 0, k);
    lemma_first_occurrence_is(line, marker, 0, k);
    assert forall|j: int| start <= j < start + 12 && j < line.len() implies line[j] != 't' by {
        if j < start + 11 {
            lemma_two_digit_clock_chars(h, m, s, cs, j - start);
        } else {
            assert(line[j] == rest[0]);
        }
    }
    lemma_no_occurrence_without_first(line, marker, start, start + 12);
    lemma_first_occurrence(line, marker, start);
    let r = after_marker(line, marker)->0;
    assert(r.len() >= 11);
    assert forall|j: int| 0 <= j < 11 implies r[j] == tok[j] by {}
    assert forall|j: int| 0 <= j < 11 implies is_space(r[j]) != true by {
        lemma_two_digit_clock_chars(h, m, s, cs, j);
    }
    if r.len() > 11 {
        assert(r[11] == rest[0]);
    }
    lemma_scan_is(r, 0, false, 0);
    lemma_scan_is(r, 0, true, 11);
    assert(first_word(r)->0 =~= tok);
    lemma_two_digit_clock(h, m, s, cs);
}

/// A line that reports a position and holds no `D` is not taken for a
/// line that announces the total length.
pub proof fn lemma_time_line_mentions_no_duration(
    prefix: Seq<char>,
    h: nat,
    m: nat,
    s: nat,
    cs: nat,
    rest: Seq<char>,
)
    requires
        h < 100,
        m < 100,
        s < 100,
        cs < 100,
        forall|j: int| 0 <= j < prefix.len() ==> prefix[j] != 'D',
        forall|j: int| 0 <= j < rest.len() ==> rest[j] != 'D',
    ensures
        !contains_text(time_line(prefix, two_digit_clock(h, m, s, cs), rest), "Duration"@),
{
    reveal_strlit("Duration");
    reveal_strlit("time=");
    let tok = two_digit_clock(h, m, s, cs);
    let line = time_line(prefix, tok, rest);
    let k = prefix.len() as int;
    assert forall|j: int| 0 <= j < line.len() implies line[j] != "Duration"@[0] by {
        if j < k {
        } else if j < k + 5 {
            assert(line[j] == "time="@[j - k]);
        } else if j < k + 16 {
            assert(line[j] == tok[j - k - 5]);
            lemma_two_digit_clock_chars(h, m, s, cs, j - k - 5);
        } else {
            assert(line[j] == rest[j - k - 16]);
        }
    }
    lemma_no_occurrence_without_first(line, "Duration"@, 0, line.len() as int + 1);
    lemma_first_occurrence(line, "Duration"@, 0);
}

/// Five minutes are one half of ten.
pub proof fn lemma_half_of_ten_minutes()
    ensures
        two_digit_micros(0, 10, 0, 0) == 600_000_000,
        two_digit_micros(0, 5, 0, 0) == 300_000_000,
        percent_of(300_000_000, 600_000_000) == 5000,
{
    assert(300_000_000int * 10_000 / 600_000_000 == 5000);
}

/// Of the usual two lines: after a line that announces the total length,
/// a line that reports a position tells that position with its share of
/// the total.
pub proof fn law_usual_lines_give_the_share(
    first: Seq<char>,
    whole: u64,
    second: Seq<char>,
    reached: u64,
    first_elapsed: u64,
    elapsed: u64,
)
    requires
        contains_text(first, "Duration"@),
        duration_of(first) == Some(whole),
        !contains_text(second, "Duration"@),
        time_of(second) == Some(reached),
    ensures
        ({
            let parser = ProgressParser::fresh().fed(first, first_elapsed).0;
            &&& ProgressParser::fresh().fed(first, first_elapsed).1 is None
            &&& parser.total_duration == Some(whole)
            &&& parser.fed(second, elapsed).1 == Some(snapshot_of(reached, Some(whole), elapsed))
            &&& parser.fed(second, elapsed).1->0.percent == Some(percent_of(reached, whole))
        }),
{
}

/// The example: after `Duration: 00:10:00.00,` a line with
/// `time=00:05:00.00` shows one half, whatever else the two lines hold
/// around these, as long as no `D` stands before the first and no `D` and
/// no `t` around the second, and white space or nothing follows the time.
pub proof fn law_half_way_example(
    before_total: Seq<char>,
    after_total: Seq<char>,
    before_time: Seq<char>,
    after_time: Seq<char>,
    first_elapsed: u64,
    elapsed: u64,
)
    requires
        forall|j: int| 0 <= j < before_total.len() ==> before_total[j] != 'D',
        forall|j: int|
            0 <= j < before_time.len() ==> before_time[j] != 't' && before_time[j] != 'D',
        forall|j: int| 0 <= j < after_time.len() ==> after_time[j] != 'D',
        after_time.len() == 0 || is_space(after_time[0]),
    ensures
        ({
            let first = duration_line(before_total, two_digit_clock(0, 10, 0, 0), after_total);
            let second = time_line(before_time, two_digit_clock(0, 5, 0, 0), after_time);
            let parser = ProgressParser::fresh().fed(first, first_elapsed).0;
            &&& ProgressParser::fresh().fed(first, first_elapsed).1 is None
            &&& parser.fed(second, elapsed).1 matches Some(told) && told.percent == Some(5000u32)
                && told.position == 300_000_000
        }),
{
    let first = duration_line(before_total, two_digit_clock(0, 10, 0, 0), after_total);
    let second = time_line(before_time, two_digit_clock(0, 5, 0, 0), after_time);
    law_duration_line_is_read(before_total, 0, 10, 0, 0, after_total);
    law_time_line_is_read(before_time, 0, 5, 0, 0, after_time);
    lemma_time_line_mentions_no_duration(before_time, 0, 5, 0, 0, after_time);
    lemma_half_of_ten_minutes();
    law_usual_lines_give_the_share(
        first,
        600_000_000,
        second,
        300_000_000,
        first_elapsed,
        elapsed,
    );
}

/// The texts `00:10:00.00` and `00:05:00.00` are the times of two digits
/// per part for ten and for five minutes.
pub proof fn lemma_example_clocks()
    ensures
        "00:10:00.00"@ == two_digit_clock(0, 10, 0, 0),
        "00:05:00.00"@ == two_digit_clock(0, 5, 0, 0),
{
    reveal_strlit("00:10:00.00");
    reveal_strlit("00:05:00.00");
    assert("00:10:00.00"@ =~= two_digit_clock(0, 10, 0, 0));
    assert("00:05:00.00"@ =~= two_digit_clock(0, 5, 0, 0));
}

} // verus!
