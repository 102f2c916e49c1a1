use std::collections::BTreeSet;

use anilink_downloader::items::{AppError, Config, SessionSettings, Settings};
use anilink_downloader::resolve::{choose_source, resolve_path, resolved_after_download, Probe, ToolSource};
use anilink_downloader::selection::{parse_number_ranges, select_downloads};
use anilink_downloader::settings::{
    chosen_fields, load_settings, parallel_downloads_from, save_settings, speed_limit_from,
    SettingField,
};
use ini::Ini;

fn set(v: &[usize]) -> BTreeSet<usize> {
    v.iter().copied().collect()
}

#[test]
fn number_lists() {
    assert_eq!(parse_number_ranges("1-3,5"), set(&[1, 2, 3, 5]));
    assert_eq!(parse_number_ranges(" 7 , 2 - 4 ,, x, 9-8, +1"), set(&[1, 2, 3, 4, 7]));
    assert_eq!(parse_number_ranges(""), set(&[]));
    assert_eq!(parse_number_ranges("3-3"), set(&[3]));
    assert_eq!(parse_number_ranges("1-2-3"), set(&[]));
    assert_eq!(parse_number_ranges("-5"), set(&[]));
    assert_eq!(parse_number_ranges("0,00,007"), set(&[0, 7]));
    assert_eq!(parse_number_ranges("99999999999999999999999"), set(&[]));
    let top = format!("{}-{}", usize::MAX - 1, usize::MAX);
    assert_eq!(parse_number_ranges(&top), set(&[usize::MAX - 1, usize::MAX]));
}

#[test]
fn which_items_are_fetched() {
    let exists = vec![true, false, true, true];
    assert_eq!(select_downloads(&exists, &set(&[])), vec![1]);
    assert_eq!(select_downloads(&exists, &set(&[1, 4, 9])), vec![0, 1, 3]);
    assert_eq!(select_downloads(&vec![false, false], &set(&[])), vec![0, 1]);
    assert_eq!(select_downloads(&vec![], &set(&[1])), Vec::<usize>::new());
}

#[test]
fn settings_are_read_with_defaults() {
    let conf = Ini::load_from_str(
        "[Settings]\nparallel_downloads = 8\nretries = x\nspeed_limit = \ntimeout = 120\n[Other]\nretries = 9\n",
    )
    .unwrap();
    assert_eq!(
        load_settings(&conf),
        Settings {
            parallel_downloads: 8,
            retries: 3,
            speed_limit: None,
            timeout: 120,
            ffmpeg_path: "ffmpeg".to_string(),
        }
    );
    assert_eq!(load_settings(&Ini::new()), Settings::default());
    let conf = Ini::load_from_str(
        "[Settings]\nparallel_downloads=-1\nretries=4294967296\nspeed_limit=2M\ntimeout=+5\nffmpeg_path=/opt/ffmpeg\n",
    )
    .unwrap();
    assert_eq!(
        load_settings(&conf),
        Settings {
            parallel_downloads: 4,
            retries: 3,
            speed_limit: Some("2M".to_string()),
            timeout: 5,
            ffmpeg_path: "/opt/ffmpeg".to_string(),
        }
    );
}

#[test]
fn settings_always_have_a_slot() {
    for text in ["0", "00", "+0", " 0", "none", "-3", "", "99999999999999999999999999"] {
        let conf = Ini::load_from_str(&format!("[Settings]\nparallel_downloads={}\n", text)).unwrap();
        assert_eq!(load_settings(&conf).parallel_downloads, 4);
    }
    let conf = Ini::load_from_str("[Settings]\nparallel_downloads=1\nretries=0\ntimeout=0\n").unwrap();
    let s = load_settings(&conf);
    assert_eq!((s.parallel_downloads, s.retries, s.timeout), (1, 0, 0));
    let mut zero = Settings::default();
    zero.parallel_downloads = 0;
    assert_eq!(load_settings(&save_settings(&zero)).parallel_downloads, 4);
    assert_eq!(parallel_downloads_from(0), 4);
    assert_eq!(parallel_downloads_from(1), 1);
    assert_eq!(parallel_downloads_from(usize::MAX), usize::MAX);
}

#[test]
fn settings_are_written_and_read_back() {
    let settings = Settings {
        parallel_downloads: 2,
        retries: 0,
        speed_limit: Some("500k".to_string()),
        timeout: 90,
        ffmpeg_path: "C:\\tools\\ffmpeg.exe".to_string(),
    };
    let conf = save_settings(&settings);
    assert_eq!(conf.get_from(Some("Settings"), "parallel_downloads"), Some("2"));
    assert_eq!(conf.get_from(Some("Settings"), "retries"), Some("0"));
    assert_eq!(conf.get_from(Some("Settings"), "speed_limit"), Some("500k"));
    assert_eq!(conf.get_from(Some("Settings"), "timeout"), Some("90"));
    assert_eq!(conf.get_from(Some("Settings"), "ffmpeg_path"), Some("C:\\tools\\ffmpeg.exe"));
    assert_eq!(load_settings(&conf), settings);
    let plain = Settings::default();
    let conf = save_settings(&plain);
    assert_eq!(conf.get_from(Some("Settings"), "speed_limit"), Some(""));
    assert_eq!(load_settings(&conf), plain);
}

#[test]
fn defaults() {
    let s = Settings::default();
    assert_eq!((s.parallel_downloads, s.retries, s.timeout), (4, 3, 30));
    assert_eq!(s.speed_limit, None);
    assert_eq!(s.ffmpeg_path, "ffmpeg");
    let c = Config::default();
    assert_eq!((c.parallel_downloads, c.retries, c.timeout), (4, 3, 30));
    assert_eq!(c.speed_limit, None);
}

#[test]
fn error_messages() {
    assert_eq!(AppError::FfmpegError(1).message(), "ffmpeg exited with code 1");
    assert_eq!(AppError::FfmpegError(-15).message(), "ffmpeg exited with code -15");
    assert_eq!(AppError::FfmpegError(i32::MIN).message(), "ffmpeg exited with code -2147483648");
    assert_eq!(AppError::UserCancelled.message(), "User cancelled operation");
}

#[test]
fn choices_of_settings() {
    assert_eq!(chosen_fields("1,3"), vec![SettingField::ParallelDownloads, SettingField::SpeedLimit]);
    assert_eq!(chosen_fields(" 5 ,x,2,,4,1,1"), vec![
            SettingField::FfmpegPath,
            SettingField::Retries,
            SettingField::Timeout,
            SettingField::ParallelDownloads,
            SettingField::ParallelDownloads,
        ]);
    assert_eq!(chosen_fields(""), vec![]);
    assert_eq!(chosen_fields("6,0,12"), vec![]);
    assert_eq!(speed_limit_from(String::new()), None);
    assert_eq!(speed_limit_from("2M".to_string()), Some("2M".to_string()));
}

#[test]
fn where_the_tool_comes_from() {
    let p = |s, c, b| Probe { system_tool_runs: s, configured_is_file: c, bundled_exists: b };
    assert_eq!(choose_source("ffmpeg", p(true, false, true)), ToolSource::System);
    assert_eq!(choose_source("", p(true, true, true)), ToolSource::System);
    assert_eq!(choose_source("ffmpeg", p(false, true, true)), ToolSource::Bundled);
    assert_eq!(choose_source("/x/ffmpeg", p(true, true, true)), ToolSource::Configured);
    assert_eq!(choose_source("/x/ffmpeg", p(true, false, true)), ToolSource::Bundled);
    assert_eq!(choose_source("/x/ffmpeg", p(true, false, false)), ToolSource::AskToDownload);
    let r = resolve_path("/x/ffmpeg", "/cfg/ffmpeg/bin/ffmpeg", p(false, false, true)).unwrap();
    assert_eq!(r.path, "/cfg/ffmpeg/bin/ffmpeg");
    assert!(r.config_needs_update);
    let r = resolve_path("/cfg/ffmpeg/bin/ffmpeg", "/cfg/ffmpeg/bin/ffmpeg", p(false, false, true)).unwrap();
    assert!(!r.config_needs_update);
    let r = resolve_path("ffmpeg", "/cfg/f", p(true, false, true)).unwrap();
    assert_eq!((r.path.as_str(), r.config_needs_update), ("ffmpeg", false));
    assert!(resolve_path("ffmpeg", "/cfg/f", p(false, true, false)).is_none());
    let r = resolved_after_download("/cfg/f");
    assert_eq!((r.path.as_str(), r.config_needs_update), ("/cfg/f", true));
}

#[test]
fn session_settings_fall_back_to_defaults() {
    let s = SessionSettings::default();
    assert_eq!(s.get_parallel_downloads(), 4);
    assert_eq!(s.get_retries(), 3);
    assert_eq!(s.get_timeout(), 60);
    assert_eq!(s.get_ffmpeg_cmd(), "ffmpeg");
    let empty = SessionSettings {
        download_dir: None,
        ffmpeg_path: Some("/x/ff".to_string()),
        parallel_downloads: None,
        retries: None,
        speed_limit: None,
        timeout_seconds: None,
    };
    assert_eq!(empty.get_parallel_downloads(), 4);
    assert_eq!(empty.get_retries(), 3);
    assert_eq!(empty.get_timeout(), 60);
    assert_eq!(empty.get_ffmpeg_cmd(), "/x/ff");
    let set = SessionSettings {
        download_dir: Some("d".to_string()),
        ffmpeg_path: None,
        parallel_downloads: Some(9),
        retries: Some(0),
        speed_limit: Some("1M".to_string()),
        timeout_seconds: Some(5),
    };
    assert_eq!((set.get_parallel_downloads(), set.get_retries(), set.get_timeout()), (9, 0, 5));
    let none_at_a_time = SessionSettings { parallel_downloads: Some(0), ..set };
    assert_eq!(none_at_a_time.get_parallel_downloads(), 4);
}
