use anilink_downloader::command::{build_command, join, numbered};
use anilink_downloader::classic::first_command;
use anilink_downloader::downloads::{session_command, simple_command, Download};
use anilink_downloader::items::{Episode, LinkInfo, Subtitle};
use anilink_downloader::runner::{Action, Event};
use anilink_downloader::status::DownloadStatus;

fn strings(v: &[&str]) -> Vec<String> {
    v.iter().map(|s| s.to_string()).collect()
}

#[test]
fn command_line_with_everything() {
    let item = LinkInfo {
        id: 0,
        name: "Show 01".to_string(),
        url: "http://host/a.m3u8".to_string(),
        referer: Some("http://ref/".to_string()),
        subtitles: vec![
            Subtitle { name: "English".to_string(), url: "http://s/en.vtt".to_string(), default: true },
            Subtitle { name: "DE".to_string(), url: "http://s/de.vtt".to_string(), default: false },
        ],
        quality: None,
    };
    let args = build_command(&item, &Some("500k".to_string()), "out/Show 01.mkv");
    assert_eq!(
        args,
        strings(&[
            "-y", "-progress", "pipe:1",
            "-headers", "Referer: http://ref/\r\n",
            "-i", "http://host/a.m3u8",
            "-i", "http://s/en.vtt",
            "-i", "http://s/de.vtt",
            "-c", "copy",
            "-metadata:s:s:0", "language=eng",
            "-metadata:s:s:0", "title=English",
            "-disposition:s:0", "default",
            "-metadata:s:s:1", "language=de",
            "-metadata:s:s:1", "title=DE",
            "-metadata", "title=Show 01",
            "-maxrate", "500k",
            "out/Show 01.mkv",
        ])
    );
}

#[test]
fn command_line_with_nothing_optional() {
    let item = LinkInfo {
        id: 3,
        name: "x".to_string(),
        url: "u".to_string(),
        referer: None,
        subtitles: vec![],
        quality: Some("[720p]".to_string()),
    };
    assert_eq!(
        build_command(&item, &None, "x.mkv"),
        strings(&["-y", "-progress", "pipe:1", "-i", "u", "-c", "copy", "-metadata", "title=x", "x.mkv"])
    );
}

#[test]
fn language_tag_is_lower_case() {
    let item = LinkInfo {
        id: 3,
        name: "x".to_string(),
        url: "u".to_string(),
        referer: None,
        subtitles: vec![Subtitle { name: "ÉCOLE".to_string(), url: "s".to_string(), default: false }],
        quality: None,
    };
    let args = build_command(&item, &None, "o");
    assert_eq!(args[10], "language=éco");
    assert_eq!(args[12], "title=ÉCOLE");
}

#[test]
fn small_builders() {
    assert_eq!(join("ab", "cd"), "abcd");
    assert_eq!(join("", ""), "");
    assert_eq!(numbered("n", 0), "n0");
    assert_eq!(numbered("-metadata:s:s:", 120), "-metadata:s:s:120");
    assert_eq!(numbered("", usize::MAX), usize::MAX.to_string());
}

#[test]
fn simple_command_line() {
    assert_eq!(
        simple_command("http://u", &None, "o.mp4"),
        strings(&["-y", "-progress", "pipe:1", "-i", "http://u", "-c", "copy", "o.mp4"])
    );
    assert_eq!(
        simple_command("http://u", &Some("2M".to_string()), "o.mp4"),
        strings(&["-y", "-progress", "pipe:1", "-i", "http://u", "-c", "copy", "-maxrate", "2M", "o.mp4"])
    );
}

#[test]
fn command_lines_of_the_other_front_ends() {
    assert_eq!(
        session_command("http://u", &None, "o.mp4"),
        strings(&["-i", "http://u", "-c", "copy", "-y", "o.mp4"])
    );
    assert_eq!(
        session_command("http://u", &Some("1M".to_string()), "o.mp4"),
        strings(&["-i", "http://u", "-c", "copy", "-y", "-limit_rate", "1M", "o.mp4"])
    );
    assert_eq!(
        first_command("http://u", &None, "o.mp4"),
        strings(&["-y", "-progress", "pipe:1", "-i", "http://u", "-c", "copy", "o.mp4"])
    );
    assert_eq!(
        first_command("http://u", &Some("1M".to_string()), "o.mp4"),
        strings(&["-y", "-progress", "pipe:1", "-i", "http://u", "-c", "copy", "o.mp4", "-limit_rate", "1M"])
    );
}

#[test]
fn a_download_follows_its_job() {
    let episode = Episode { name: "Ep: 1?".to_string(), url: "http://h/v/ep1.m3u8".to_string() };
    let mut d = Download::new(episode, 4, 2);
    assert_eq!(d.output_name, "Ep_ 1_.mp4");
    assert_eq!(d.runner.status, DownloadStatus::Pending);
    assert_eq!(d.toggle_pause(), Action::Nothing);
    let args = d.start(&None, "dir/Ep_ 1_.mp4").unwrap();
    assert_eq!(args.last().unwrap(), "dir/Ep_ 1_.mp4");
    assert_eq!(args[4], "http://h/v/ep1.m3u8");
    assert!(d.start(&None, "x").is_none());
    assert_eq!(d.update_progress(Event::SpawnSucceeded), Action::Nothing);
    assert_eq!(d.toggle_pause(), Action::Suspend);
    assert_eq!(d.runner.status, DownloadStatus::Paused { attempt: 1 });
    assert_eq!(d.toggle_pause(), Action::Resume);
    assert_eq!(d.cancel(), Action::Kill);
    assert_eq!(d.runner.status, DownloadStatus::Cancelled);
    assert_eq!(d.cancel(), Action::Nothing);
    let other = Download::new(Episode { name: "a".to_string(), url: "http://h/a.webm".to_string() }, 1, 1);
    assert_eq!(other.output_name, "a.webm");
    let plain = Download::new(Episode { name: "a".to_string(), url: "http://h/a".to_string() }, 1, 1);
    assert_eq!(plain.output_name, "a.mp4");
}
