use anilink_downloader::progress::{
    eta, parse_clock, parse_ffmpeg_duration, parse_ffmpeg_time, percent, snapshot, speed,
    ProgressParser, ProgressSnapshot,
};
use anilink_downloader::text::chars_of;

#[test]
fn duration_then_time_gives_half() {
    let mut parser = ProgressParser::new();
    assert_eq!(parser.feed("  Duration: 00:10:00.00, start: 0.000000, bitrate: 1 kb/s", 0), None);
    assert_eq!(parser.total_duration, Some(600_000_000));
    let snap = parser
        .feed("frame=  293 fps= 28 q=26.0 size=1024kB time=00:05:00.00 bitrate= 827.2kbits/s", 150_000_000)
        .unwrap();
    assert_eq!(snap.percent, Some(5000));
    assert_eq!(snap.position, 300_000_000);
    assert_eq!(snap.speed, 2000);
    assert_eq!(snap.eta_seconds, Some(150));
    assert_eq!(parser.last_timestamp, Some(300_000_000));
}

#[test]
fn time_without_duration_has_unknown_percent() {
    let mut parser = ProgressParser::new();
    let snap = parser.feed("size=1kB time=00:00:10.16 bitrate=1", 5_080_000).unwrap();
    assert_eq!(
        snap,
        ProgressSnapshot { position: 10_160_000, percent: None, speed: 2000, eta_seconds: None }
    );
}

#[test]
fn malformed_time_is_ignored() {
    let mut parser = ProgressParser::new();
    parser.feed("Duration: 00:00:20.00, start", 0);
    let first = parser.feed("time=00:00:05.00 x", 1_000_000);
    assert!(first.is_some());
    let before = parser;
    assert_eq!(parser.feed("time=bogus", 2_000_000), None);
    assert_eq!(parser, before);
    assert_eq!(parser.feed("time=", 2_000_000), None);
    assert_eq!(parser.feed("time=1:2", 2_000_000), None);
    assert_eq!(parser.feed("time=1:2:3:4", 2_000_000), None);
    assert_eq!(parser.feed("time=-1:00:00", 2_000_000), None);
    assert_eq!(parser.feed("no marker at all", 2_000_000), None);
    assert_eq!(parser, before);
}

#[test]
fn first_duration_wins() {
    let mut parser = ProgressParser::new();
    parser.feed("Duration: N/A, start", 0);
    assert_eq!(parser.total_duration, None);
    parser.feed("Duration: 00:01:00.00, start", 0);
    assert_eq!(parser.total_duration, Some(60_000_000));
    parser.feed("Duration: 00:02:00.00, start", 0);
    assert_eq!(parser.total_duration, Some(60_000_000));
}

#[test]
fn duration_line_is_not_a_time_line() {
    let mut parser = ProgressParser::new();
    assert_eq!(parser.feed("Duration time=00:00:01.00", 1), None);
    assert_eq!(parser.last_timestamp, None);
    assert_eq!(parser.total_duration, None);
}

#[test]
fn duration_field_rules() {
    assert_eq!(parse_ffmpeg_duration("Duration: 01:02:03.5, x"), Some(3_723_500_000));
    assert_eq!(parse_ffmpeg_duration("Duration:   00:00:01  "), Some(1_000_000));
    assert_eq!(parse_ffmpeg_duration("Duration: N/A, bitrate"), None);
    assert_eq!(parse_ffmpeg_duration("Duration:00:00:01"), None);
    assert_eq!(parse_ffmpeg_duration("nothing"), None);
    assert_eq!(parse_ffmpeg_duration("Duration: 00:00:01Duration: 00:00:09"), Some(1_000_000));
    assert_eq!(parse_ffmpeg_duration("Duration: 00:00:01.1234567"), Some(1_123_456));
    assert_eq!(parse_ffmpeg_duration("Duration: 00:00:01."), None);
    assert_eq!(parse_ffmpeg_duration("Duration: 00:00:.5"), None);
    assert_eq!(parse_ffmpeg_duration("Duration: 0:90:75"), Some(5_475_000_000));
}

#[test]
fn time_field_rules() {
    assert_eq!(parse_ffmpeg_time("a time=00:00:10.16 b"), Some(10_160_000));
    assert_eq!(parse_ffmpeg_time("time=   00:00:02 b"), Some(2_000_000));
    assert_eq!(parse_ffmpeg_time("time=00:00:02\tb"), Some(2_000_000));
    assert_eq!(parse_ffmpeg_time("time=00:00:0time=00:00:09"), Some(0));
    assert_eq!(parse_ffmpeg_time("time=N/A"), None);
    assert_eq!(parse_ffmpeg_time("out_time=00:00:03.000000"), Some(3_000_000));
}

#[test]
fn clock_overflow_is_no_time() {
    let big = chars_of("18446744073709551615:00:00");
    assert_eq!(parse_clock(&big), None);
    let too_long = chars_of("99999999999999999999999:00:00");
    assert_eq!(parse_clock(&too_long), None);
    let fits = chars_of("5124095576:01:49.551615");
    assert_eq!(parse_clock(&fits), Some(u64::MAX));
    let over = chars_of("5124095576:01:49.551616");
    assert_eq!(parse_clock(&over), None);
}

#[test]
fn figures_are_exact() {
    assert_eq!(percent(1, 3), 3333);
    assert_eq!(percent(2, 3), 6666);
    assert_eq!(percent(3, 3), 10_000);
    assert_eq!(percent(7, 3), 10_000);
    assert_eq!(percent(0, 0), 10_000);
    assert_eq!(percent(0, 9), 0);
    assert_eq!(percent(u64::MAX - 1, u64::MAX), 9999);
    assert_eq!(speed(10, 0), 0);
    assert_eq!(speed(10, 4), 2500);
    assert_eq!(speed(u64::MAX, 1), u64::MAX);
    assert_eq!(eta(0, 10, 5), None);
    assert_eq!(eta(5, 10, 0), None);
    assert_eq!(eta(10_000_000, 30_000_000, 5_000_000), Some(10));
    assert_eq!(eta(30, 10, 5), Some(0));
    assert_eq!(eta(1, u64::MAX, u64::MAX), Some(u64::MAX));
    assert_eq!(
        snapshot(10_000_000, Some(40_000_000), 20_000_000),
        ProgressSnapshot {
            position: 10_000_000,
            percent: Some(2500),
            speed: 500,
            eta_seconds: Some(60)
        }
    );
}
