//! Where the media tool is taken from.

use vstd::prelude::*;
use crate::items::ResolveResult;
use crate::text::same_text;

verus! {

/// What was found out about the tool before the decision.
#[derive(Debug, Clone, Copy, PartialEq, Eq, Structural)]
pub struct Probe {
    /// The tool on the search path answers.
    pub system_tool_runs: bool,
    /// The configured path names a file.
    pub configured_is_file: bool,
    /// A copy of the tool lies in the configuration folder.
    pub bundled_exists: bool,
}

/// Where the tool is taken from.
#[derive(Debug, Clone, Copy, PartialEq, Eq, Structural)]
pub enum ToolSource {
    /// The tool on the search path.
    System,
    /// The path from the settings.
    Configured,
    /// The copy in the configuration folder.
    Bundled,
    /// Nowhere yet: the user is asked whether to fetch it.
    AskToDownload,
}

/// The source for the tool. A setting of `ffmpeg`, or none, stands for
/// the search path; any other setting is a path and is taken if it names
/// a file. Failing that the bundled copy is taken, and failing that the
/// user is asked.
pub open spec fn source_for(configured: Seq<char>, probe: Probe) -> ToolSource {
    if (configured == "ffmpeg"@ || configured.len() == 0) && probe.system_tool_runs {
        ToolSource::System
    } else if !(configured == "ffmpeg"@ || configured.len() == 0) && probe.configured_is_file {
        ToolSource::Configured
    } else if probe.bundled_exists {
        ToolSource::Bundled
    } else {
        ToolSource::AskToDownload
    }
}

/// What is reported for a source: the path to run, and whether the
/// settings should remember it. Nothing is reported while the user has
/// to be asked.
pub open spec fn resolved(configured: Seq<char>, bundled: Seq<char>, source: ToolSource)
    -> Option<(Seq<char>, bool)> {
    match source {
        ToolSource::System => Some(("ffmpeg"@, false)),
        ToolSource::Configured => Some((configured, false)),
        ToolSource::Bundled => Some((bundled, configured != bundled)),
        ToolSource::AskToDownload => None,
    }
}

/// Decides where the tool is taken from.
pub fn choose_source(configured: &str, probe: Probe) -> (s: ToolSource)
    ensures
        s == source_for(configured@, probe),
{
    let from_path = same_text(configured, "ffmpeg") || configured.is_empty();
    if from_path && probe.system_tool_runs {
        ToolSource::System
    } else if !from_path && probe.configured_is_file {
        ToolSource::Configured
    } else if probe.bundled_exists {
        ToolSource::Bundled
    } else {
        ToolSource::AskToDownload
    }
}

/// The result for the tool configured as `ffmpeg_path`, with `bundled`
/// the path of the copy in the configuration folder.
pub fn resolve_path(ffmpeg_path: &str, bundled: &str, probe: Probe) -> (r: Option<ResolveResult>)
    ensures
        match r {
            Some(found) => resolved(ffmpeg_path@, bundled@, source_for(ffmpeg_path@, probe))
                == Some((found.path@, found.config_needs_update)),
            None => source_for(ffmpeg_path@, probe) is AskToDownload,
        },
{
    match choose_source(ffmpeg_path, probe) {
        ToolSource::System => Some(
            ResolveResult { path: "ffmpeg".to_owned(), config_needs_update: false },
        ),
        ToolSource::Configured => Some(
            ResolveResult { path: ffmpeg_path.to_owned(), config_needs_update: false },
        ),
        ToolSource::Bundled => Some(
            ResolveResult { path: bundled.to_owned(), config_needs_update: !same_text(ffmpeg_path, bundled) },
        ),
        ToolSource::AskToDownload => None,
    }
}

/// The result once the user had the tool fetched to `downloaded`.
pub fn resolved_after_download(downloaded: &str) -> (r: ResolveResult)
    ensures
        r.path@ == downloaded@,
        r.config_needs_update,
{
    ResolveResult { path: downloaded.to_owned(), config_needs_update: true }
}

} // verus!
