//! Settings as a configuration file holds them: reading them with their
//! defaults, and writing them back.

use vstd::prelude::*;
use crate::items::{
    option_text, slots_or_default, Settings, DEFAULT_PARALLEL_DOWNLOADS, DEFAULT_RETRIES, DEFAULT_TIMEOUT_SECS,
};
use crate::outside::{ini_get, ini_new, ini_set, ini_values, no_values};
use vstd::slice::slice_subrange;
use crate::text::{
    all_digits, chars_of, decimal_digits, decimal_value, digit_char, digit_value, find_char,
    first_char, is_digit, parse_unsigned, push_decimal, string_of, trim, trimmed, unsigned_number,
};

verus! {

/// Settings as a value.
pub struct SettingsView {
    pub parallel_downloads: usize,
    pub retries: u32,
    pub speed_limit: Option<Seq<char>>,
    pub timeout: u64,
    pub ffmpeg_path: Seq<char>,
}

impl View for Settings {
    type V = SettingsView;

    open spec fn view(&self) -> SettingsView {
        SettingsView {
            parallel_downloads: self.parallel_downloads,
            retries: self.retries,
            speed_limit: option_text(self.speed_limit),
            timeout: self.timeout,
            ffmpeg_path: self.ffmpeg_path@,
        }
    }
}

/// The value of `key` in the section `Settings`.
pub open spec fn setting(values: Map<(Seq<char>, Seq<char>), Seq<char>>, key: Seq<char>)
    -> Option<Seq<char>> {
    if values.contains_key(("Settings"@, key)) {
        Some(values[("Settings"@, key)])
    } else {
        None
    }
}

/// The number that a value writes, or `default` where the value is
/// missing, is no number, is below `min` or is above `max`.
pub open spec fn number_or(value: Option<Seq<char>>, min: nat, max: nat, default: nat) -> nat {
    match value {
        Some(v) => match unsigned_number(v, max) {
            Some(n) => if n >= min {
                n
            } else {
                default
            },
            None => default,
        },
        None => default,
    }
}

/// The settings that a configuration gives: each value that is missing
/// or cannot be read has its default, and so has a number of slots of
/// zero, with which no download could run; an empty speed limit is none.
pub open spec fn loaded(values: Map<(Seq<char>, Seq<char>), Seq<char>>) -> SettingsView {
    SettingsView {
        parallel_downloads: number_or(
            setting(values, "parallel_downloads"@),
            1,
            usize::MAX as nat,
            DEFAULT_PARALLEL_DOWNLOADS as nat,
        ) as usize,
        retries: number_or(
            setting(values, "retries"@),
            0,
            u32::MAX as nat,
            DEFAULT_RETRIES as nat,
        ) as u32,
        speed_limit: match setting(values, "speed_limit"@) {
            Some(v) => if v.len() == 0 {
                None
            } else {
                Some(v)
            },
            None => None,
        },
        timeout: number_or(
            setting(values, "timeout"@),
            0,
            u64::MAX as nat,
            DEFAULT_TIMEOUT_SECS as nat,
        ) as u64,
        ffmpeg_path: match setting(values, "ffmpeg_path"@) {
            Some(v) => v,
            None => "ffmpeg"@,
        },
    }
}

/// What is written for settings: five values in the section `Settings`,
/// numbers in decimal, no speed limit as an empty value.
pub open spec fn saved(s: SettingsView) -> Map<(Seq<char>, Seq<char>), Seq<char>> {
    no_values().insert(
        ("Settings"@, "parallel_downloads"@),
        decimal_digits(s.parallel_downloads as nat),
    ).insert(("Settings"@, "retries"@), decimal_digits(s.retries as nat)).insert(
        ("Settings"@, "speed_limit"@),
        match s.speed_limit {
            Some(v) => v,
            None => seq![],
        },
    ).insert(("Settings"@, "timeout"@), decimal_digits(s.timeout as nat)).insert(
        ("Settings"@, "ffmpeg_path"@),
        s.ffmpeg_path,
    )
}

fn read_number(conf: &ini::Ini, key: &str, min: u64, max: u64, default: u64) -> (r: u64)
    requires
        min <= default <= max,
    ensures
        r == number_or(
            setting(ini_values(*conf), key@),
            min as nat,
            max as nat,
            default as nat,
        ),
        min <= r <= max,
{
    match ini_get(conf, "Settings", key) {
        Some(v) => {
            let chars = chars_of(v.as_str());
            match parse_unsigned(chars.as_slice(), max) {
                Some(n) => {
                    if n >= min {
                        n
                    } else {
                        default
                    }
                },
                None => default,
            }
        },
        None => default,
    }
}

/// Reads the settings from a configuration. Whatever the configuration
/// holds, the settings have at least one slot.
pub fn load_settings(conf: &ini::Ini) -> (s: Settings)
    ensures
        s@ == loaded(ini_values(*conf)),
        s.parallel_downloads >= 1,
{
    let parallel_downloads = read_number(
        conf,
        "parallel_downloads",
        1,
        usize::MAX as u64,
        DEFAULT_PARALLEL_DOWNLOADS as u64,
    ) as usize;
    let retries = read_number(conf, "retries", 0, u32::MAX as u64, DEFAULT_RETRIES as u64) as u32;
    let speed_limit = match ini_get(conf, "Settings", "speed_limit") {
        Some(v) => {
            if v.as_str().is_empty() {
                None
            } else {
                Some(v)
            }
        },
        None => None,
    };
    let timeout = read_number(conf, "timeout", 0, u64::MAX, DEFAULT_TIMEOUT_SECS);
    let ffmpeg_path = match ini_get(conf, "Settings", "ffmpeg_path") {
        Some(v) => v,
        None => "ffmpeg".to_owned(),
    };
    Settings { parallel_downloads, retries, speed_limit, timeout, ffmpeg_path }
}

fn decimal(n: u64) -> (s: String)
    ensures
        s@ == decimal_digits(n as nat),
{
    let mut out: Vec<char> = Vec::new();
    push_decimal(&mut out, n);
    assert(out@ =~= decimal_digits(n as nat));
    string_of(out.as_slice())
}

/// The configuration that holds `settings`.
pub fn save_settings(settings: &Settings) -> (conf: ini::Ini)
    ensures
        ini_values(conf) == saved(settings@),
{
    let mut conf = ini_new();
    ini_set(
        &mut conf,
        "Settings",
        "parallel_downloads",
        decimal(settings.parallel_downloads as u64).as_str(),
    );
    ini_set(&mut conf, "Settings", "retries", decimal(settings.retries as u64).as_str());
    match &settings.speed_limit {
        Some(v) => ini_set(&mut conf, "Settings", "speed_limit", v.as_str()),
        None => {
            proof {
                reveal_strlit("");
            }
            assert(""@ =~= seq![]);
            ini_set(&mut conf, "Settings", "speed_limit", "")
        },
    }
    ini_set(&mut conf, "Settings", "timeout", decimal(settings.timeout).as_str());
    ini_set(&mut conf, "Settings", "ffmpeg_path", settings.ffmpeg_path.as_str());
    conf
}

/// The decimal digits of a number are digits, at least one, and write the
/// number.
pub proof fn lemma_decimal_digits_read_back(n: nat)
    ensures
        decimal_digits(n).len() > 0,
        all_digits(decimal_digits(n)),
        decimal_value(decimal_digits(n)) == n,
    decreases n,
{
    let d = digit_char(n % 10);
    assert(is_digit(d) && digit_value(d) == n % 10);
    if n < 10 {
        assert(decimal_digits(n).drop_last() =~= seq![]);
        assert(decimal_value(seq![]) == 0);
    } else {
        lemma_decimal_digits_read_back(n / 10);
        let s = decimal_digits(n);
        assert(s.drop_last() =~= decimal_digits(n / 10));
        assert(s.last() == d);
        assert forall|i: int| 0 <= i < s.len() implies is_digit(#[trigger] s[i]) by {
            if i < s.len() - 1 {
                assert(s[i] == decimal_digits(n / 10)[i]);
            }
        }
    }
}

/// What was written for a number is read back as that number.
pub proof fn lemma_number_reads_back(n: nat, min: nat, max: nat, default: nat)
    requires
        min <= n <= max,
    ensures
        number_or(Some(decimal_digits(n)), min, max, default) == n,
{
    lemma_decimal_digits_read_back(n);
    let s = decimal_digits(n);
    assert(is_digit(s[0]));
    assert(s[0] != '+');
}

/// Whatever a configuration holds, the settings read from it have at
/// least one slot.
pub proof fn law_loaded_settings_have_a_slot(values: Map<(Seq<char>, Seq<char>), Seq<char>>)
    ensures
        loaded(values).parallel_downloads >= 1,
{
}

/// Settings with at least one slot that were written are read back as
/// they were, unless the speed limit is an empty text, which is read back
/// as none.
pub proof fn law_settings_round_trip(s: SettingsView)
    requires
        s.parallel_downloads >= 1,
        s.speed_limit != Some(Seq::<char>::empty()),
    ensures
        loaded(saved(s)) == s,
{
    reveal_strlit("parallel_downloads");
    reveal_strlit("retries");
    reveal_strlit("speed_limit");
    reveal_strlit("timeout");
    reveal_strlit("ffmpeg_path");
    let k1 = "parallel_downloads"@;
    let k2 = "retries"@;
    let k3 = "speed_limit"@;
    let k4 = "timeout"@;
    let k5 = "ffmpeg_path"@;
    assert(k2[0] != k4[0]);
    assert(k3[0] != k5[0]);
    assert(k1.len() == 18 && k2.len() == 7 && k3.len() == 11 && k4.len() == 7 && k5.len() == 11);
    let m = saved(s);
    assert(setting(m, k1) == Some(decimal_digits(s.parallel_downloads as nat)));
    assert(setting(m, k2) == Some(decimal_digits(s.retries as nat)));
    assert(setting(m, k4) == Some(decimal_digits(s.timeout as nat)));
    assert(setting(m, k5) == Some(s.ffmpeg_path));
    assert(setting(m, k3) == Some(
        match s.speed_limit {
            Some(v) => v,
            None => seq![],
        },
    ));
    lemma_number_reads_back(
        s.parallel_downloads as nat,
        1,
        usize::MAX as nat,
        DEFAULT_PARALLEL_DOWNLOADS as nat,
    );
    lemma_number_reads_back(s.retries as nat, 0, u32::MAX as nat, DEFAULT_RETRIES as nat);
    lemma_number_reads_back(s.timeout as nat, 0, u64::MAX as nat, DEFAULT_TIMEOUT_SECS as nat);
    match s.speed_limit {
        Some(v) => {
            assert(v.len() > 0) by {
                if v.len() == 0 {
                    assert(v =~= Seq::<char>::empty());
                }
            }
        },
        None => {},
    }
}

// ---------------------------------------------------------------------
// Changing settings
// ---------------------------------------------------------------------
/// A setting that the user can change.
#[derive(Clone, Copy, Debug, PartialEq, Eq, Structural)]
pub enum SettingField {
    ParallelDownloads,
    Retries,
    SpeedLimit,
    Timeout,
    FfmpegPath,
}

/// The setting that a choice names: `1` to `5`, white space around it
/// ignored; anything else names none.
pub open spec fn field_of(choice: Seq<char>) -> Option<SettingField> {
    let c = trimmed(choice);
    if c == seq!['1'] {
        Some(SettingField::ParallelDownloads)
    } else if c == seq!['2'] {
        Some(SettingField::Retries)
    } else if c == seq!['3'] {
        Some(SettingField::SpeedLimit)
    } else if c == seq!['4'] {
        Some(SettingField::Timeout)
    } else if c == seq!['5'] {
        Some(SettingField::FfmpegPath)
    } else {
        None
    }
}

/// The settings that a list of choices names, in the order of the list;
/// commas separate the choices.
pub open spec fn fields_of(choices: Seq<char>) -> Seq<SettingField>
    decreases choices.len(),
{
    let (head, rest) = match first_char(choices, ',', 0) {
        Some(c) => if 0 <= c < choices.len() {
            (choices.take(c), Some(choices.skip(c + 1)))
        } else {
            (choices, None)
        },
        None => (choices, None),
    };
    (match field_of(head) {
        Some(f) => seq![f],
        None => seq![],
    }) + (match rest {
        Some(r) => fields_of(r),
        None => seq![],
    })
}

fn read_field(choice: &[char]) -> (r: Option<SettingField>)
    ensures
        r == field_of(choice@),
{
    let c = trim(choice);
    if c.len() != 1 {
        return None;
    }
    let d = c[0];
    assert(c@ =~= seq![d]);
    if d == '1' {
        Some(SettingField::ParallelDownloads)
    } else if d == '2' {
        Some(SettingField::Retries)
    } else if d == '3' {
        Some(SettingField::SpeedLimit)
    } else if d == '4' {
        Some(SettingField::Timeout)
    } else if d == '5' {
        Some(SettingField::FfmpegPath)
    } else {
        None
    }
}

/// Reads which settings the user wants to change from a list such as
/// `1,3`.
pub fn chosen_fields(choices: &str) -> (r: Vec<SettingField>)
    ensures
        r@ == fields_of(choices@),
{
    let chars = chars_of(choices);
    let n = chars.len();
    let mut r: Vec<SettingField> = Vec::new();
    let mut start: usize = 0;
    assert(chars@.skip(0) =~= chars@);
    loop
        invariant_except_break
            r@ + fields_of(chars@.skip(start as int)) == fields_of(chars@),
        invariant
            start <= n,
            n == chars@.len(),
        ensures
            r@ == fields_of(chars@),
        decreases n - start,
    {
        let rest = slice_subrange(chars.as_slice(), start, n);
        assert(rest@ =~= chars@.skip(start as int));
        let ghost before = r@;
        match find_char(rest, ',', 0) {
            Some(c) => {
                let head = slice_subrange(rest, 0, c);
                assert(head@ =~= rest@.take(c as int));
                match read_field(head) {
                    Some(f) => {
                        r.push(f);
                    },
                    None => {},
                }
                assert(rest@.skip(c + 1) =~= chars@.skip(start + c + 1));
                assert(r@ + fields_of(chars@.skip(start + c + 1)) =~= before + fields_of(rest@));
                start = start + c + 1;
            },
            None => {
                match read_field(rest) {
                    Some(f) => {
                        r.push(f);
                    },
                    None => {},
                }
                assert(r@ =~= before + fields_of(rest@));
                break ;
            },
        }
    }
    r
}

/// The number of slots that the user typed: the default where it is
/// zero, with which no download could run.
pub fn parallel_downloads_from(typed: usize) -> (n: usize)
    ensures
        n == slots_or_default(typed),
        n >= 1,
{
    if typed == 0 {
        DEFAULT_PARALLEL_DOWNLOADS
    } else {
        typed
    }
}

/// The speed limit that the user typed: none where the text is empty.
pub fn speed_limit_from(text: String) -> (r: Option<String>)
    ensures
        option_text(r) == if text@.len() == 0 {
            None
        } else {
            Some(text@)
        },
{
    if text.as_str().is_empty() {
        None
    } else {
        Some(text)
    }
}

} // verus!
