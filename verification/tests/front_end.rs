use anilink_downloader::items::{Config, Episode};
use anilink_downloader::orchestrator::Orchestrator;
use anilink_downloader::runner::{Action, Event};
use anilink_downloader::screens::{App, AppRequest, AppState};
use anilink_downloader::status::{DownloadStatus, FailureReason, Progress};
use anilink_downloader::tui::{
    accepts_key, bar_cells, command_for, display_name, name_column_width, progress_bar,
    scroll_offset, shorten, status_text, DownloadTUI, KeyCode, KeyEvent, TuiCommand,
};
use anilink_downloader::wizard::{AppStateEnum, InputMode, Wizard, WizardRequest};

fn key(code: KeyCode) -> KeyEvent {
    KeyEvent { code, ctrl: false, shift: false }
}

fn ch(c: char) -> KeyEvent {
    key(KeyCode::Char(c))
}

#[test]
fn keys_of_the_download_screen() {
    assert_eq!(command_for(KeyEvent { code: KeyCode::Char('c'), ctrl: true, shift: false }), TuiCommand::Exit);
    assert_eq!(command_for(KeyEvent { code: KeyCode::Char('C'), ctrl: true, shift: true }), TuiCommand::Exit);
    assert_eq!(command_for(ch('c')), TuiCommand::Nothing);
    assert_eq!(command_for(KeyEvent { code: KeyCode::Char('Q'), ctrl: false, shift: true }), TuiCommand::Exit);
    assert_eq!(command_for(ch('Q')), TuiCommand::Nothing);
    assert_eq!(command_for(ch('j')), TuiCommand::Next);
    assert_eq!(command_for(key(KeyCode::Down)), TuiCommand::Next);
    assert_eq!(command_for(ch('k')), TuiCommand::Previous);
    assert_eq!(command_for(key(KeyCode::Up)), TuiCommand::Previous);
    assert_eq!(command_for(ch(' ')), TuiCommand::TogglePause);
    assert_eq!(command_for(ch('a')), TuiCommand::ToggleAll);
    assert_eq!(command_for(ch('A')), TuiCommand::ToggleAll);
    assert_eq!(command_for(key(KeyCode::Enter)), TuiCommand::Nothing);
    assert!(!accepts_key(100, 149));
    assert!(accepts_key(100, 150));
    assert!(!accepts_key(100, 50));
}

#[test]
fn selection_wraps_around() {
    assert_eq!(DownloadTUI::new_with_state(0).selected, None);
    let mut t = DownloadTUI::new_with_state(3);
    assert_eq!(t.selected, Some(0));
    t.previous(3);
    assert_eq!(t.selected, Some(2));
    t.next(3);
    assert_eq!(t.selected, Some(0));
    t.next(3);
    assert_eq!(t.selected, Some(1));
    t.next(0);
    assert_eq!(t.selected, Some(1));
    let mut none = DownloadTUI { selected: None };
    none.next(2);
    assert_eq!(none.selected, Some(1));
}

#[test]
fn toggling_one_and_all() {
    let mut o = Orchestrator::new(vec![10, 20, 30], 2, 3).unwrap();
    o.start_downloads();
    o.handle(10, Event::SpawnSucceeded);
    o.handle(20, Event::SpawnSucceeded);
    let t = DownloadTUI { selected: Some(1) };
    assert_eq!(t.toggle_pause(&mut o), Some((20, Action::Suspend)));
    assert_eq!(o.status(20), Some(DownloadStatus::Paused { attempt: 1 }));
    assert_eq!(
        t.toggle_pause_all(&mut o),
        vec![(10, Action::Nothing), (20, Action::Resume), (30, Action::Nothing)]
    );
    assert_eq!(
        t.toggle_pause_all(&mut o),
        vec![(10, Action::Suspend), (20, Action::Suspend), (30, Action::Nothing)]
    );
    assert_eq!(DownloadTUI { selected: Some(7) }.toggle_pause(&mut o), None);
    assert_eq!(DownloadTUI { selected: None }.toggle_pause(&mut o), None);
    t.kill_all(&mut o);
    assert_eq!(o.handle(10, Event::TimeoutElapsed), Action::Kill);
    assert_eq!(o.start_next(), None);
}

#[test]
fn slots_are_filled_in_order() {
    let mut o = Orchestrator::new(vec![5, 6, 7, 8], 3, 1).unwrap();
    assert_eq!(o.start_downloads(), vec![5, 6, 7]);
    assert_eq!(o.start_downloads(), Vec::<usize>::new());
    o.handle(6, Event::SpawnFailed);
    assert_eq!(o.status(6), Some(DownloadStatus::Failed { reason: FailureReason::SpawnFailed }));
    let app = App::new(Config::default());
    assert_eq!(app.on_tick(&mut o), vec![8]);
    o.cancel_all();
    assert_eq!(o.start_downloads(), Vec::<usize>::new());
}

#[test]
fn the_list_scrolls_with_the_selection() {
    assert_eq!(scroll_offset(0, 0, 5, 20), 0);
    assert_eq!(scroll_offset(4, 0, 5, 20), 0);
    assert_eq!(scroll_offset(5, 0, 5, 20), 1);
    assert_eq!(scroll_offset(19, 0, 5, 20), 15);
    assert_eq!(scroll_offset(2, 10, 5, 20), 2);
    assert_eq!(scroll_offset(12, 18, 5, 20), 12);
    assert_eq!(scroll_offset(1, 0, 5, 3), 0);
    assert_eq!(scroll_offset(17, 17, 5, 20), 15);
    assert_eq!(bar_cells(0, 20), 0);
    assert_eq!(bar_cells(4999, 20), 9);
    assert_eq!(bar_cells(5000, 20), 10);
    assert_eq!(bar_cells(10_000, 20), 20);
    assert_eq!(bar_cells(20_000, 20), 20);
    assert_eq!(progress_bar(2500, 8), "[██░░░░░░]");
    assert_eq!(progress_bar(0, 0), "[]");
}

#[test]
fn names_are_shortened_to_the_column() {
    assert_eq!(name_column_width(100), 64);
    assert_eq!(name_column_width(48), 12);
    assert_eq!(name_column_width(10), 12);
    assert_eq!(display_name("short", 12), "short");
    assert_eq!(display_name("a rather long name", 12), "a rather ...");
    assert_eq!(display_name("日本語のタイトル", 12), "日本語のタイトル...");
    assert_eq!(display_name("日本語のタイ", 12), "日本語のタイ");
    assert_eq!(shorten("abcdef", 6, 2), "...");
    assert_eq!(shorten("abcdef", 6, 5), "ab...");
    assert_eq!(shorten("abcdef", 6, 6), "abcdef");
}

#[test]
fn what_is_shown_for_a_status() {
    assert_eq!(status_text(DownloadStatus::Pending), "Pending");
    assert_eq!(status_text(DownloadStatus::Starting { attempt: 2 }), "Starting (attempt 2)...");
    let p = Progress { percent: Some(5049), speed: Some(1234), eta_seconds: Some(75), bytes_so_far: 1 };
    assert_eq!(status_text(DownloadStatus::Running { attempt: 1, progress: p }), "50.4% - Speed: 1.23x - ETA: 75s");
    let q = Progress { percent: None, speed: None, eta_seconds: None, bytes_so_far: 1 };
    assert_eq!(status_text(DownloadStatus::Running { attempt: 1, progress: q }), "?? - Speed: ?? - ETA: ??");
    let full = Progress { percent: Some(10_000), speed: Some(5), eta_seconds: Some(0), bytes_so_far: 1 };
    assert_eq!(status_text(DownloadStatus::Running { attempt: 1, progress: full }), "100.0% - Speed: 0.00x - ETA: 0s");
    assert_eq!(status_text(DownloadStatus::Paused { attempt: 1 }), "Paused");
    assert_eq!(status_text(DownloadStatus::Completed { bytes_total: 9 }), "Completed");
    assert_eq!(status_text(DownloadStatus::Failed { reason: FailureReason::ExitCode(-2) }), "Failed: Exit code -2");
    assert_eq!(status_text(DownloadStatus::Failed { reason: FailureReason::SpawnFailed }), "Failed: Spawn failed");
    assert_eq!(status_text(DownloadStatus::Failed { reason: FailureReason::IoError }), "Failed: Wait failed");
    assert_eq!(status_text(DownloadStatus::Cancelled), "Cancelled");
    assert_eq!(status_text(DownloadStatus::TimedOut), "Timeout");
}

fn type_text(app: &mut App, text: &str) {
    for c in text.chars() {
        assert_eq!(app.handle_key(ch(c)), AppRequest::Nothing);
    }
}

#[test]
fn the_simple_front_end_walks_its_screens() {
    let mut app = App::new(Config::default());
    assert_eq!(app.state, AppState::Welcome);
    assert_eq!(app.handle_key(ch('x')), AppRequest::Nothing);
    assert_eq!(app.handle_key(key(KeyCode::Enter)), AppRequest::Nothing);
    assert_eq!(app.state, AppState::FileSelection);
    assert_eq!(app.handle_key(key(KeyCode::Enter)), AppRequest::Nothing);
    type_text(&mut app, "list.m3uq");
    assert_eq!(app.handle_key(key(KeyCode::Backspace)), AppRequest::Nothing);
    assert_eq!(app.input_buffer, "list.m3u");
    assert_eq!(app.handle_key(key(KeyCode::Enter)), AppRequest::LoadPlaylist);
    assert_eq!(app.m3u_path, Some("list.m3u".to_string()));
    assert_eq!(app.input_buffer, "");
    assert_eq!(app.state, AppState::FileSelection);
    app.playlist_loaded(vec![
        Episode { name: "a".to_string(), url: "u1".to_string() },
        Episode { name: "b".to_string(), url: "u2".to_string() },
        Episode { name: "c".to_string(), url: "u3".to_string() },
    ]);
    assert_eq!(app.state, AppState::FolderSelection);
    assert_eq!(app.episode_selections, vec![false, false, false]);
    assert_eq!(app.handle_key(key(KeyCode::Backspace)), AppRequest::Nothing);
    type_text(&mut app, "out");
    assert_eq!(app.handle_key(key(KeyCode::Enter)), AppRequest::Nothing);
    assert_eq!(app.download_folder, Some("out".to_string()));
    assert_eq!(app.state, AppState::EpisodeSelection);
    app.handle_key(key(KeyCode::Up));
    assert_eq!(app.selected_episode_idx, Some(0));
    app.handle_key(ch(' '));
    app.handle_key(key(KeyCode::Down));
    app.handle_key(key(KeyCode::Down));
    app.handle_key(key(KeyCode::Down));
    assert_eq!(app.selected_episode_idx, Some(2));
    app.handle_key(ch(' '));
    assert_eq!(app.episode_selections, vec![true, false, true]);
    assert_eq!(app.selected_episodes(), vec![0, 2]);
    app.handle_key(ch('n'));
    assert_eq!(app.selected_episodes(), Vec::<usize>::new());
    app.handle_key(ch('a'));
    assert_eq!(app.selected_episodes(), vec![0, 1, 2]);
    assert_eq!(app.handle_key(key(KeyCode::Enter)), AppRequest::PrepareDownloads);
    assert_eq!(app.state, AppState::Downloading);
    app.downloads_prepared(3);
    assert_eq!(app.handle_key(ch('p')), AppRequest::TogglePause(0));
    app.handle_key(key(KeyCode::Down));
    assert_eq!(app.handle_key(ch('c')), AppRequest::Cancel(1));
    app.handle_key(ch('h'));
    assert!(app.show_help);
    assert_eq!(app.handle_key(ch('s')), AppRequest::Nothing);
    assert_eq!(app.state, AppState::Settings);
    assert_eq!(app.handle_key(key(KeyCode::Enter)), AppRequest::SaveConfig);
    assert_eq!(app.state, AppState::Downloading);
    assert_eq!(app.handle_key(ch('q')), AppRequest::Quit);
    assert_eq!(app.handle_key(key(KeyCode::Esc)), AppRequest::Quit);
}

#[test]
fn selecting_without_episodes_changes_nothing() {
    let mut app = App::new(Config::default());
    app.state = AppState::EpisodeSelection;
    assert_eq!(app.handle_key(ch(' ')), AppRequest::Nothing);
    assert!(app.episode_selections.is_empty());
    app.handle_key(key(KeyCode::Down));
    assert_eq!(app.selected_episode_idx, Some(0));
    assert_eq!(app.handle_key(key(KeyCode::Esc)), AppRequest::Nothing);
    assert_eq!(app.state, AppState::FolderSelection);
    assert_eq!(app.handle_key(key(KeyCode::Esc)), AppRequest::Nothing);
    assert_eq!(app.state, AppState::FileSelection);
    assert_eq!(app.handle_key(key(KeyCode::Esc)), AppRequest::Quit);
}

fn press(w: &mut Wizard, c: char) -> WizardRequest {
    w.handle_key(ch(c), 0)
}

#[test]
fn the_full_front_end_walks_its_screens() {
    let mut w = Wizard::new(None, Some("/bin/ffmpeg".to_string()));
    assert_eq!(w.ffmpeg_path_input, "/bin/ffmpeg");
    assert_eq!(w.handle_key(key(KeyCode::Enter), 0), WizardRequest::Nothing);
    assert_eq!(w.input_mode, InputMode::EditingM3u);
    for c in " a.m3u ".chars() {
        assert_eq!(press(&mut w, c), WizardRequest::Nothing);
    }
    assert_eq!(press(&mut w, 'q'), WizardRequest::Nothing);
    assert_eq!(w.handle_key(key(KeyCode::Backspace), 0), WizardRequest::Nothing);
    assert_eq!(w.m3u_path_input, " a.m3u ");
    assert_eq!(w.handle_key(key(KeyCode::Enter), 0), WizardRequest::Nothing);
    assert_eq!(w.state, AppStateEnum::SelectDownloadDir);
    assert_eq!(w.input_mode, InputMode::Normal);
    assert_eq!(press(&mut w, 'e'), WizardRequest::Nothing);
    assert_eq!(w.input_mode, InputMode::EditingDownloadDir);
    assert_eq!(w.handle_key(key(KeyCode::Enter), 0), WizardRequest::Nothing);
    assert_eq!(w.download_dir, None);
    press(&mut w, 'e');
    for c in " dl ".chars() {
        press(&mut w, c);
    }
    assert_eq!(w.handle_key(key(KeyCode::Enter), 0), WizardRequest::StartDownloads);
    assert_eq!(w.download_dir, Some("dl".to_string()));
    assert!(w.check_inputs());
    w.start_outcome(3, 1);
    assert_eq!(w.state, AppStateEnum::ConfirmOverwrite);
    assert_eq!(press(&mut w, 'x'), WizardRequest::Nothing);
    assert_eq!(press(&mut w, 'Y'), WizardRequest::StartDownloads);
    assert!(w.overwrite_confirmed);
    w.start_outcome(3, 1);
    assert_eq!(w.state, AppStateEnum::Downloading);
    w.handle_key(key(KeyCode::Up), 3);
    assert_eq!(w.selected_download_index, 2);
    w.handle_key(key(KeyCode::Down), 3);
    assert_eq!(w.selected_download_index, 0);
    w.handle_key(key(KeyCode::Down), 3);
    assert_eq!(w.selected_download_index, 1);
    w.handle_key(key(KeyCode::Down), 0);
    assert_eq!(w.selected_download_index, 1);
    assert_eq!(press(&mut w, 'c'), WizardRequest::CancelAll);
    assert_eq!(press(&mut w, 'q'), WizardRequest::CancelAll);
    assert_eq!(
        w.handle_key(KeyEvent { code: KeyCode::Char('c'), ctrl: true, shift: false }, 3),
        WizardRequest::CancelAll
    );
    w.batch_finished();
    assert_eq!(w.state, AppStateEnum::Finished);
    assert_eq!(press(&mut w, 'q'), WizardRequest::Quit);
    assert_eq!(press(&mut w, 'r'), WizardRequest::NewBatch);
    assert_eq!(w.state, AppStateEnum::SelectM3u);
    assert_eq!(w.m3u_path_input, "");
    assert!(!w.overwrite_confirmed);
    assert_eq!(w.selected_download_index, 0);
    assert_eq!(w.download_dir, Some("dl".to_string()));
    assert_eq!(
        w.handle_key(KeyEvent { code: KeyCode::Char('c'), ctrl: true, shift: false }, 3),
        WizardRequest::Quit
    );
}

#[test]
fn settings_and_errors_of_the_full_front_end() {
    let mut w = Wizard::new(Some("dl".to_string()), None);
    assert!(!w.check_inputs());
    assert_eq!(w.state, AppStateEnum::Error);
    assert_eq!(w.error_message, "M3U file path cannot be empty.");
    assert_eq!(w.handle_key(key(KeyCode::Enter), 0), WizardRequest::NewBatch);
    assert_eq!(w.error_message, "");
    assert_eq!(press(&mut w, 's'), WizardRequest::Nothing);
    assert_eq!(w.state, AppStateEnum::Settings);
    assert_eq!(w.download_dir_input, "dl");
    press(&mut w, 'e');
    assert_eq!(w.input_mode, InputMode::EditingFfmpegPath);
    for c in " /opt/ff ".chars() {
        press(&mut w, c);
    }
    assert_eq!(w.handle_key(key(KeyCode::Esc), 0), WizardRequest::Nothing);
    assert_eq!(w.ffmpeg_path_input, "");
    assert_eq!(w.ffmpeg_path, None);
    press(&mut w, 'e');
    for c in " /opt/ff ".chars() {
        press(&mut w, c);
    }
    assert_eq!(w.handle_key(key(KeyCode::Enter), 0), WizardRequest::Nothing);
    assert_eq!(w.ffmpeg_path, Some("/opt/ff".to_string()));
    assert_eq!(press(&mut w, 's'), WizardRequest::SaveSettings);
    assert_eq!(w.state, AppStateEnum::SelectM3u);
    w.fail("Failed to save settings: disk full".to_string());
    assert_eq!(w.state, AppStateEnum::Error);
    assert_eq!(w.error_message, "Failed to save settings: disk full");
    assert_eq!(press(&mut w, 'q'), WizardRequest::NewBatch);
    press(&mut w, 'e');
    press(&mut w, 'x');
    assert_eq!(w.handle_key(key(KeyCode::Enter), 0), WizardRequest::StartDownloads);
    assert!(w.check_inputs());
    w.start_outcome(0, 0);
    assert_eq!(w.error_message, "M3U file is empty or contains no valid entries.");
    let mut no_dir = Wizard::new(Some(String::new()), None);
    no_dir.m3u_path_input = "x".to_string();
    assert!(!no_dir.check_inputs());
    assert_eq!(no_dir.error_message, "Download directory is not set.");
    w.batch_finished();
    assert_eq!(w.state, AppStateEnum::Error);
}
