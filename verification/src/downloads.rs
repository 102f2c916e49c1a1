//! One download of the simple front end: an episode, the file it is saved
//! to, and its job.

use vstd::prelude::*;
use crate::items::{texts, Episode};
use crate::naming::{episode_file, episode_file_name};
use crate::runner::{Action, Event, JobRunner};
use crate::status::DownloadStatus;

verus! {

/// The arguments that fetch `url` into `output`: overwrite and progress
/// flags, the input, stream copy, the rate limit if there is one, and the
/// output last.
pub open spec fn simple_command_line(url: Seq<char>, speed_limit: Option<String>, output: Seq<
    char,
>) -> Seq<Seq<char>> {
    seq!["-y"@, "-progress"@, "pipe:1"@, "-i"@, url, "-c"@, "copy"@] + (match speed_limit {
        Some(l) => seq!["-maxrate"@, l@],
        None => seq![],
    }) + seq![output]
}

/// Builds the arguments that fetch `url` into `output`.
pub fn simple_command(url: &str, speed_limit: &Option<String>, output: &str) -> (args: Vec<String>)
    ensures
        texts(args@) == simple_command_line(url@, *speed_limit, output@),
{
    let mut args: Vec<String> = Vec::new();
    args.push("-y".to_owned());
    args.push("-progress".to_owned());
    args.push("pipe:1".to_owned());
    args.push("-i".to_owned());
    args.push(url.to_owned());
    args.push("-c".to_owned());
    args.push("copy".to_owned());
    match speed_limit {
        Some(l) => {
            args.push("-maxrate".to_owned());
            args.push(l.clone());
        },
        None => {},
    }
    args.push(output.to_owned());
    assert(texts(args@) =~= simple_command_line(url@, *speed_limit, output@));
    args
}

/// The arguments with which the full front end fetches `url` into
/// `output`: the input, stream copy, the overwrite flag, `-limit_rate` and
/// the limit if there is one, and the output last.
pub open spec fn session_command_line(url: Seq<char>, speed_limit: Option<String>, output: Seq<
    char,
>) -> Seq<Seq<char>> {
    seq!["-i"@, url, "-c"@, "copy"@, "-y"@] + (match speed_limit {
        Some(l) => seq!["-limit_rate"@, l@],
        None => seq![],
    }) + seq![output]
}

/// Builds the arguments with which the full front end fetches `url` into
/// `output`.
pub fn session_command(url: &str, speed_limit: &Option<String>, output: &str) -> (args: Vec<String>)
    ensures
        texts(args@) == session_command_line(url@, *speed_limit, output@),
{
    let mut args: Vec<String> = Vec::new();
    args.push("-i".to_owned());
    args.push(url.to_owned());
    args.push("-c".to_owned());
    args.push("copy".to_owned());
    args.push("-y".to_owned());
    match speed_limit {
        Some(l) => {
            args.push("-limit_rate".to_owned());
            args.push(l.clone());
        },
        None => {},
    }
    args.push(output.to_owned());
    assert(texts(args@) =~= session_command_line(url@, *speed_limit, output@));
    args
}

/// An episode on its way to a file.
#[derive(Debug, PartialEq, Eq)]
pub struct Download {
    pub episode: Episode,
    /// The name of the file, without its folder.
    pub output_name: String,
    pub runner: JobRunner,
}

impl Download {
    /// What always holds of a download: its job is well-formed.
    pub open spec fn wf(&self) -> bool {
        self.runner.wf()
    }

    /// Where the download stands.
    pub open spec fn status(&self) -> DownloadStatus {
        self.runner.status
    }

    /// A download of `episode` that waits for its turn.
    pub fn new(episode: Episode, id: usize, max_retries: u32) -> (d: Download)
        ensures
            d.episode == episode,
            d.output_name@ == episode_file(episode.name@, episode.url@),
            d.runner == JobRunner::pending(id, max_retries),
            d.wf(),
    {
        let output_name = episode_file_name(episode.name.as_str(), episode.url.as_str());
        Download { episode, output_name, runner: JobRunner::new(id, max_retries) }
    }

    /// Gives the download its turn and returns the arguments of its
    /// process, to be written to `output`; none if it does not wait.
    pub fn start(&mut self, speed_limit: &Option<String>, output: &str) -> (args: Option<
        Vec<String>,
    >)
        requires
            old(self).wf(),
        ensures
            final(self).runner == old(self).runner.started().0,
            final(self).episode == old(self).episode,
            final(self).output_name == old(self).output_name,
            final(self).wf(),
            match args {
                Some(a) => old(self).status() is Pending && texts(a@) == simple_command_line(
                    old(self).episode.url@,
                    *speed_limit,
                    output@,
                ),
                None => !(old(self).status() is Pending),
            },
    {
        match self.runner.start() {
            Action::Spawn => Some(simple_command(self.episode.url.as_str(), speed_limit, output)),
            _ => None,
        }
    }

    /// Takes what was learnt of the process and says what is to be done.
    pub fn update_progress(&mut self, event: Event) -> (a: Action)
        requires
            old(self).wf(),
        ensures
            (final(self).runner, a) == old(self).runner.stepped(false, event),
            final(self).episode == old(self).episode,
            final(self).output_name == old(self).output_name,
            final(self).wf(),
    {
        self.runner.step(false, event)
    }

    /// Holds a running download, lets a held one go on, and leaves any
    /// other as it is.
    pub fn toggle_pause(&mut self) -> (a: Action)
        requires
            old(self).wf(),
        ensures
            (final(self).runner, a) == (if old(self).status() is Paused {
                old(self).runner.resumed()
            } else {
                old(self).runner.paused()
            }),
            final(self).episode == old(self).episode,
            final(self).output_name == old(self).output_name,
            final(self).wf(),
    {
        match self.runner.status {
            DownloadStatus::Paused { .. } => self.runner.resume(),
            _ => self.runner.pause(),
        }
    }

    /// Ends the download unless it has ended; its process, if one
    /// exists, is to be ended.
    pub fn cancel(&mut self) -> (a: Action)
        requires
            old(self).wf(),
        ensures
            (final(self).runner, a) == old(self).runner.stepped(false, Event::CancelRequested),
            final(self).episode == old(self).episode,
            final(self).output_name == old(self).output_name,
            final(self).wf(),
    {
        self.runner.step(false, Event::CancelRequested)
    }
}

} // verus!
