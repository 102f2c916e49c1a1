//! The plain data that the batch works on: what is to be fetched, and how.

use vstd::prelude::*;
use crate::text::{chars_of, push_signed, signed_digits, string_of};

verus! {

/// One subtitle track of an item.
#[derive(Debug, Clone, PartialEq, Eq)]
pub struct Subtitle {
    pub name: String,
    pub url: String,
    pub default: bool,
}

/// One item of the playlist.
#[derive(Debug, Clone, PartialEq, Eq)]
pub struct LinkInfo {
    /// Unique in the batch.
    pub id: usize,
    pub name: String,
    pub url: String,
    pub referer: Option<String>,
    pub subtitles: Vec<Subtitle>,
    /// A tag such as `[720p]`, kept with its brackets.
    pub quality: Option<String>,
}

/// How a batch runs.
#[derive(Debug, Clone, PartialEq, Eq)]
pub struct Settings {
    /// Number of slots; at least one job runs at a time.
    pub parallel_downloads: usize,
    /// A failed attempt is repeated while its number, counted from one,
    /// is below this.
    pub retries: u32,
    /// Rate limit handed to the tool, such as `500k`.
    pub speed_limit: Option<String>,
    /// Seconds that one attempt may take.
    pub timeout: u64,
    /// The tool to run.
    pub ffmpeg_path: String,
}

/// The settings as the older configuration file holds them.
#[derive(Debug, Clone, PartialEq, Eq)]
pub struct Config {
    pub parallel_downloads: usize,
    pub retries: usize,
    pub speed_limit: Option<String>,
    pub timeout: u64,
}

/// A name and an address, as the simple playlist reader gives them.
#[derive(Debug, Clone, PartialEq, Eq)]
pub struct Episode {
    pub name: String,
    pub url: String,
}

/// Where the tool was found, and whether the settings should remember it.
#[derive(Debug, Clone, PartialEq, Eq)]
pub struct ResolveResult {
    pub path: String,
    pub config_needs_update: bool,
}

/// What ends a run before the batch starts.
#[derive(Debug, Clone, Copy, PartialEq, Eq, Structural)]
pub enum AppError {
    /// The tool left with this code.
    FfmpegError(i32),
    /// The user declined to go on.
    UserCancelled,
}

/// A subtitle track as a value.
pub struct SubtitleView {
    pub name: Seq<char>,
    pub url: Seq<char>,
    pub default: bool,
}

/// An item as a value.
pub struct LinkView {
    pub id: usize,
    pub name: Seq<char>,
    pub url: Seq<char>,
    pub referer: Option<Seq<char>>,
    pub subtitles: Seq<SubtitleView>,
    pub quality: Option<Seq<char>>,
}

/// An episode as a value.
pub struct EpisodeView {
    pub name: Seq<char>,
    pub url: Seq<char>,
}

/// The text of a string that may be missing.
pub open spec fn option_text(s: Option<String>) -> Option<Seq<char>> {
    match s {
        Some(s) => Some(s@),
        None => None,
    }
}

/// The texts of a list of strings.
pub open spec fn texts(v: Seq<String>) -> Seq<Seq<char>> {
    Seq::new(v.len(), |i: int| v[i]@)
}

/// The subtitle tracks of a list as values.
pub open spec fn subtitle_views(v: Seq<Subtitle>) -> Seq<SubtitleView> {
    Seq::new(v.len(), |i: int| v[i]@)
}

/// The items of a list as values.
pub open spec fn link_views(v: Seq<LinkInfo>) -> Seq<LinkView> {
    Seq::new(v.len(), |i: int| v[i]@)
}

/// The episodes of a list as values.
pub open spec fn episode_views(v: Seq<Episode>) -> Seq<EpisodeView> {
    Seq::new(v.len(), |i: int| v[i]@)
}

impl View for Subtitle {
    type V = SubtitleView;

    open spec fn view(&self) -> SubtitleView {
        SubtitleView { name: self.name@, url: self.url@, default: self.default }
    }
}

impl View for LinkInfo {
    type V = LinkView;

    open spec fn view(&self) -> LinkView {
        LinkView {
            id: self.id,
            name: self.name@,
            url: self.url@,
            referer: option_text(self.referer),
            subtitles: subtitle_views(self.subtitles@),
            quality: option_text(self.quality),
        }
    }
}

impl View for Episode {
    type V = EpisodeView;

    open spec fn view(&self) -> EpisodeView {
        EpisodeView { name: self.name@, url: self.url@ }
    }
}

/// Slots of a fresh installation.
pub const DEFAULT_PARALLEL_DOWNLOADS: usize = 4;

/// Attempt limit of a fresh installation.
pub const DEFAULT_RETRIES: u32 = 3;

/// Seconds allowed per attempt in a fresh installation.
pub const DEFAULT_TIMEOUT_SECS: u64 = 30;

/// A number of slots that lets downloads run: `n`, or the default where
/// `n` is zero.
pub open spec fn slots_or_default(n: usize) -> usize {
    if n == 0 {
        DEFAULT_PARALLEL_DOWNLOADS
    } else {
        n
    }
}

impl Settings {
    /// Whether `self` is the settings of a fresh installation.
    pub open spec fn is_default(&self) -> bool {
        &&& self.parallel_downloads == DEFAULT_PARALLEL_DOWNLOADS
        &&& self.retries == DEFAULT_RETRIES
        &&& self.speed_limit is None
        &&& self.timeout == DEFAULT_TIMEOUT_SECS
        &&& self.ffmpeg_path@ == "ffmpeg"@
    }
}

impl Default for Settings {
    fn default() -> (s: Settings)
        ensures
            s.is_default(),
    {
        Settings {
            parallel_downloads: DEFAULT_PARALLEL_DOWNLOADS,
            retries: DEFAULT_RETRIES,
            speed_limit: None,
            timeout: DEFAULT_TIMEOUT_SECS,
            ffmpeg_path: "ffmpeg".to_owned(),
        }
    }
}

impl Default for Config {
    fn default() -> (c: Config)
        ensures
            c.parallel_downloads == 4,
            c.retries == 3,
            c.speed_limit is None,
            c.timeout == 30,
    {
        Config { parallel_downloads: 4, retries: 3, speed_limit: None, timeout: 30 }
    }
}

impl AppError {
    /// The text shown for the error.
    pub open spec fn message_text(self) -> Seq<char> {
        match self {
            AppError::FfmpegError(code) => "ffmpeg exited with code "@ + signed_digits(code as int),
            AppError::UserCancelled => "User cancelled operation"@,
        }
    }

    /// The text shown for the error.
    pub fn message(&self) -> (s: String)
        ensures
            s@ == self.message_text(),
    {
        match self {
            AppError::FfmpegError(code) => {
                let mut out = chars_of("ffmpeg exited with code ");
                push_signed(&mut out, *code as i64);
                string_of(out.as_slice())
            },
            AppError::UserCancelled => "User cancelled operation".to_owned(),
        }
    }
}

/// The settings as the full front end keeps them: what is not set has
/// its default when it is asked for.
#[derive(Debug, Clone, PartialEq, Eq)]
pub struct SessionSettings {
    pub download_dir: Option<String>,
    pub ffmpeg_path: Option<String>,
    pub parallel_downloads: Option<usize>,
    pub retries: Option<usize>,
    pub speed_limit: Option<String>,
    pub timeout_seconds: Option<u64>,
}

/// Seconds allowed per attempt where the full front end has no setting.
pub const DEFAULT_SESSION_TIMEOUT_SECS: u64 = 60;

impl Default for SessionSettings {
    fn default() -> (s: SessionSettings)
        ensures
            s.download_dir is None,
            s.ffmpeg_path is None,
            s.parallel_downloads == Some(DEFAULT_PARALLEL_DOWNLOADS),
            s.retries == Some(3usize),
            s.speed_limit is None,
            s.timeout_seconds == Some(DEFAULT_SESSION_TIMEOUT_SECS),
    {
        SessionSettings {
            download_dir: None,
            ffmpeg_path: None,
            parallel_downloads: Some(DEFAULT_PARALLEL_DOWNLOADS),
            retries: Some(3),
            speed_limit: None,
            timeout_seconds: Some(DEFAULT_SESSION_TIMEOUT_SECS),
        }
    }
}

impl SessionSettings {
    /// How many downloads run at a time, at least one: four where
    /// nothing is set, or zero is.
    pub fn get_parallel_downloads(&self) -> (n: usize)
        ensures
            n == match self.parallel_downloads {
                Some(v) => slots_or_default(v),
                None => DEFAULT_PARALLEL_DOWNLOADS,
            },
            n >= 1,
    {
        match self.parallel_downloads {
            Some(v) => {
                if v == 0 {
                    DEFAULT_PARALLEL_DOWNLOADS
                } else {
                    v
                }
            },
            None => DEFAULT_PARALLEL_DOWNLOADS,
        }
    }

    /// The attempt limit: three where nothing is set.
    pub fn get_retries(&self) -> (n: usize)
        ensures
            n == match self.retries {
                Some(v) => v,
                None => 3usize,
            },
    {
        match self.retries {
            Some(v) => v,
            None => 3,
        }
    }

    /// Seconds allowed per attempt: sixty where nothing is set.
    pub fn get_timeout(&self) -> (secs: u64)
        ensures
            secs == match self.timeout_seconds {
                Some(v) => v,
                None => DEFAULT_SESSION_TIMEOUT_SECS,
            },
    {
        match self.timeout_seconds {
            Some(v) => v,
            None => DEFAULT_SESSION_TIMEOUT_SECS,
        }
    }

    /// The tool to run: `ffmpeg` on the search path where nothing is set.
    pub fn get_ffmpeg_cmd(&self) -> (cmd: String)
        ensures
            cmd@ == match self.ffmpeg_path {
                Some(p) => p@,
                None => "ffmpeg"@,
            },
    {
        match &self.ffmpeg_path {
            Some(p) => p.clone(),
            None => "ffmpeg".to_owned(),
        }
    }
}

} // verus!
