//! The screens of the simple front end: which screen follows which key,
//! and what the key asks the program to do.

use vstd::prelude::*;
use crate::items::{episode_views, option_text, Config, Episode, EpisodeView};
use crate::orchestrator::Orchestrator;
use crate::tui::{KeyCode, KeyEvent};

verus! {

/// The screen shown.
#[derive(Clone, Copy, Debug, PartialEq, Eq, Structural)]
pub enum AppState {
    Welcome,
    FileSelection,
    FolderSelection,
    EpisodeSelection,
    Downloading,
    Settings,
}

/// What a key asks the program to do besides changing the screen.
#[derive(Clone, Copy, Debug, PartialEq, Eq, Structural)]
pub enum AppRequest {
    Nothing,
    /// Leave the program.
    Quit,
    /// Read the playlist whose path was just entered, then report
    /// `playlist_loaded`.
    LoadPlaylist,
    /// Make the downloads of the selected episodes and start them.
    PrepareDownloads,
    /// Write the settings.
    SaveConfig,
    /// Hold or let go the download with this number.
    TogglePause(usize),
    /// End the download with this number.
    Cancel(usize),
}

/// The state of the front end.
pub struct App {
    pub state: AppState,
    pub m3u_path: Option<String>,
    pub download_folder: Option<String>,
    pub input_buffer: String,
    pub episodes: Vec<Episode>,
    pub selected_episode_idx: Option<usize>,
    pub episode_selections: Vec<bool>,
    /// How many downloads were made.
    pub download_count: usize,
    pub selected_download_idx: Option<usize>,
    pub config: Config,
    pub show_help: bool,
}

/// The state of the front end as a value.
pub struct AppView {
    pub state: AppState,
    pub m3u_path: Option<Seq<char>>,
    pub download_folder: Option<Seq<char>>,
    pub input_buffer: Seq<char>,
    pub episodes: Seq<EpisodeView>,
    pub selected_episode_idx: Option<usize>,
    pub episode_selections: Seq<bool>,
    pub download_count: usize,
    pub selected_download_idx: Option<usize>,
    pub show_help: bool,
}

/// The selection one row up, if there is a row above.
pub open spec fn moved_up(selected: Option<usize>) -> Option<usize> {
    match selected {
        Some(i) => if i > 0 {
            Some((i - 1) as usize)
        } else {
            selected
        },
        None => None,
    }
}

/// The selection one row down, if there is a row below among `len` rows.
pub open spec fn moved_down(selected: Option<usize>, len: nat) -> Option<usize> {
    match selected {
        Some(i) => if i + 1 < len {
            Some((i + 1) as usize)
        } else {
            selected
        },
        None => None,
    }
}

impl AppView {
    /// The state after text was typed on a screen that takes text: a
    /// character is added, Backspace takes the last one off.
    pub open spec fn edited(self, key: KeyEvent) -> AppView {
        match key.code {
            KeyCode::Char(c) => AppView { input_buffer: self.input_buffer.push(c), ..self },
            KeyCode::Backspace => AppView {
                input_buffer: if self.input_buffer.len() > 0 {
                    self.input_buffer.drop_last()
                } else {
                    self.input_buffer
                },
                ..self
            },
            _ => self,
        }
    }

    /// The state after `key`, and what the key asks for.
    pub open spec fn after_key(self, key: KeyEvent) -> (AppView, AppRequest) {
        match self.state {
            AppState::Welcome => match key.code {
                KeyCode::Enter => (
                    AppView { state: AppState::FileSelection, ..self },
                    AppRequest::Nothing,
                ),
                KeyCode::Char(c) => if c == 'q' {
                    (self, AppRequest::Quit)
                } else {
                    (self, AppRequest::Nothing)
                },
                _ => (self, AppRequest::Nothing),
            },
            AppState::FileSelection => match key.code {
                KeyCode::Esc => (self, AppRequest::Quit),
                KeyCode::Enter => if self.input_buffer.len() == 0 {
                    (self, AppRequest::Nothing)
                } else {
                    (
                        AppView {
                            m3u_path: Some(self.input_buffer),
                            input_buffer: seq![],
                            ..self
                        },
                        AppRequest::LoadPlaylist,
                    )
                },
                _ => (self.edited(key), AppRequest::Nothing),
            },
            AppState::FolderSelection => match key.code {
                KeyCode::Esc => (
                    AppView { state: AppState::FileSelection, ..self },
                    AppRequest::Nothing,
                ),
                KeyCode::Enter => if self.input_buffer.len() == 0 {
                    (self, AppRequest::Nothing)
                } else {
                    (
                        AppView {
                            download_folder: Some(self.input_buffer),
                            input_buffer: seq![],
                            state: AppState::EpisodeSelection,
                            ..self
                        },
                        AppRequest::Nothing,
                    )
                },
                _ => (self.edited(key), AppRequest::Nothing),
            },
            AppState::EpisodeSelection => match key.code {
                KeyCode::Esc => (
                    AppView { state: AppState::FolderSelection, ..self },
                    AppRequest::Nothing,
                ),
                KeyCode::Enter => (
                    AppView { state: AppState::Downloading, ..self },
                    AppRequest::PrepareDownloads,
                ),
                KeyCode::Up => (
                    AppView { selected_episode_idx: moved_up(self.selected_episode_idx), ..self },
                    AppRequest::Nothing,
                ),
                KeyCode::Down => (
                    AppView {
                        selected_episode_idx: moved_down(
                            self.selected_episode_idx,
                            self.episodes.len(),
                        ),
                        ..self
                    },
                    AppRequest::Nothing,
                ),
                KeyCode::Char(c) => if c == ' ' {
                    match self.selected_episode_idx {
                        Some(i) => if i < self.episode_selections.len() {
                            (
                                AppView {
                                    episode_selections: self.episode_selections.update(
                                        i as int,
                                        !self.episode_selections[i as int],
                                    ),
                                    ..self
                                },
                                AppRequest::Nothing,
                            )
                        } else {
                            (self, AppRequest::Nothing)
                        },
                        None => (self, AppRequest::Nothing),
                    }
                } else if c == 'a' || c == 'n' {
                    (
                        AppView {
                            episode_selections: Seq::new(
                                self.episode_selections.len(),
                                |i: int| c == 'a',
                            ),
                            ..self
                        },
                        AppRequest::Nothing,
                    )
                } else {
                    (self, AppRequest::Nothing)
                },
                _ => (self, AppRequest::Nothing),
            },
            AppState::Downloading => match key.code {
                KeyCode::Esc => (self, AppRequest::Quit),
                KeyCode::Up => (
                    AppView {
                        selected_download_idx: moved_up(self.selected_download_idx),
                        ..self
                    },
                    AppRequest::Nothing,
                ),
                KeyCode::Down => (
                    AppView {
                        selected_download_idx: moved_down(
                            self.selected_download_idx,
                            self.download_count as nat,
                        ),
                        ..self
                    },
                    AppRequest::Nothing,
                ),
                KeyCode::Char(c) => if c == 'q' {
                    (self, AppRequest::Quit)
                } else if c == 'p' {
                    (
                        self,
                        match self.selected_download_idx {
                            Some(i) => AppRequest::TogglePause(i),
                            None => AppRequest::Nothing,
                        },
                    )
                } else if c == 'c' {
                    (
                        self,
                        match self.selected_download_idx {
                            Some(i) => AppRequest::Cancel(i),
                            None => AppRequest::Nothing,
                        },
                    )
                } else if c == 's' {
                    (AppView { state: AppState::Settings, ..self }, AppRequest::Nothing)
                } else if c == 'h' {
                    (AppView { show_help: !self.show_help, ..self }, AppRequest::Nothing)
                } else {
                    (self, AppRequest::Nothing)
                },
                _ => (self, AppRequest::Nothing),
            },
            AppState::Settings => match key.code {
                KeyCode::Esc => (
                    AppView { state: AppState::Downloading, ..self },
                    AppRequest::Nothing,
                ),
                KeyCode::Enter => (
                    AppView { state: AppState::Downloading, ..self },
                    AppRequest::SaveConfig,
                ),
                _ => (self, AppRequest::Nothing),
            },
        }
    }
}

/// The positions among the first `n` that are selected, in order.
pub open spec fn selected_positions(selections: Seq<bool>, n: nat) -> Seq<usize>
    decreases n,
{
    if n == 0 || n > selections.len() {
        seq![]
    } else if selections[n - 1] {
        selected_positions(selections, (n - 1) as nat).push((n - 1) as usize)
    } else {
        selected_positions(selections, (n - 1) as nat)
    }
}

impl View for App {
    type V = AppView;

    open spec fn view(&self) -> AppView {
        AppView {
            state: self.state,
            m3u_path: option_text(self.m3u_path),
            download_folder: option_text(self.download_folder),
            input_buffer: self.input_buffer@,
            episodes: episode_views(self.episodes@),
            selected_episode_idx: self.selected_episode_idx,
            episode_selections: self.episode_selections@,
            download_count: self.download_count,
            selected_download_idx: self.selected_download_idx,
            show_help: self.show_help,
        }
    }
}

fn move_up(selected: Option<usize>) -> (r: Option<usize>)
    ensures
        r == moved_up(selected),
{
    match selected {
        Some(i) => {
            if i > 0 {
                Some(i - 1)
            } else {
                selected
            }
        },
        None => None,
    }
}

fn move_down(selected: Option<usize>, len: usize) -> (r: Option<usize>)
    ensures
        r == moved_down(selected, len as nat),
{
    match selected {
        Some(i) => {
            if i < len && i + 1 < len {
                Some(i + 1)
            } else {
                selected
            }
        },
        None => None,
    }
}

impl App {
    /// The front end at its first screen.
    pub fn new(config: Config) -> (app: App)
        ensures
            app@ == (AppView {
                state: AppState::Welcome,
                m3u_path: None,
                download_folder: None,
                input_buffer: seq![],
                episodes: seq![],
                selected_episode_idx: Some(0usize),
                episode_selections: seq![],
                download_count: 0,
                selected_download_idx: Some(0usize),
                show_help: false,
            }),
            app.config == config,
    {
        let app = App {
            state: AppState::Welcome,
            m3u_path: None,
            download_folder: None,
            input_buffer: String::new(),
            episodes: Vec::new(),
            selected_episode_idx: Some(0),
            episode_selections: Vec::new(),
            download_count: 0,
            selected_download_idx: Some(0),
            config,
            show_help: false,
        };
        assert(episode_views(app.episodes@) =~= seq![]);
        assert(app.episode_selections@ =~= seq![]);
        app
    }

    fn edit(&mut self, key: KeyEvent)
        ensures
            final(self)@ == old(self)@.edited(key),
            final(self).config == old(self).config,
    {
        match key.code {
            KeyCode::Char(c) => {
                self.input_buffer.push(c);
            },
            KeyCode::Backspace => {
                let _ = self.input_buffer.pop();
            },
            _ => {},
        }
    }

    fn take_input(&mut self) -> (r: String)
        ensures
            r@ == old(self).input_buffer@,
            final(self)@ == (AppView { input_buffer: seq![], ..old(self)@ }),
            final(self).config == old(self).config,
    {
        let mut taken = String::new();
        std::mem::swap(&mut taken, &mut self.input_buffer);
        taken
    }

    fn set_all(&mut self, value: bool)
        ensures
            final(self)@ == (AppView {
                episode_selections: Seq::new(
                    old(self).episode_selections@.len(),
                    |i: int| value,
                ),
                ..old(self)@
            }),
            final(self).config == old(self).config,
    {
        let n = self.episode_selections.len();
        let mut fresh: Vec<bool> = Vec::new();
        let mut i: usize = 0;
        while i < n
            invariant
                i <= n,
                fresh@.len() == i,
                forall|k: int| 0 <= k < i ==> fresh@[k] == value,
            decreases n - i,
        {
            fresh.push(value);
            i += 1;
        }
        assert(fresh@ =~= Seq::new(n as nat, |i: int| value));
        self.episode_selections = fresh;
    }

    /// Takes a key and says what it asks for.
    pub fn handle_key(&mut self, key: KeyEvent) -> (r: AppRequest)
        ensures
            (final(self)@, r) == old(self)@.after_key(key),
            final(self).config == old(self).config,
    {
        match self.state {
            AppState::Welcome => match key.code {
                KeyCode::Enter => {
                    self.state = AppState::FileSelection;
                    AppRequest::Nothing
                },
                KeyCode::Char(c) => {
                    if c == 'q' {
                        AppRequest::Quit
                    } else {
                        AppRequest::Nothing
                    }
                },
                _ => AppRequest::Nothing,
            },
            AppState::FileSelection => match key.code {
                KeyCode::Esc => AppRequest::Quit,
                KeyCode::Enter => {
                    if self.input_buffer.as_str().is_empty() {
                        AppRequest::Nothing
                    } else {
                        let path = self.take_input();
                        self.m3u_path = Some(path);
                        AppRequest::LoadPlaylist
                    }
                },
                _ => {
                    self.edit(key);
                    AppRequest::Nothing
                },
            },
            AppState::FolderSelection => match key.code {
                KeyCode::Esc => {
                    self.state = AppState::FileSelection;
                    AppRequest::Nothing
                },
                KeyCode::Enter => {
                    if self.input_buffer.as_str().is_empty() {
                        AppRequest::Nothing
                    } else {
                        let folder = self.take_input();
                        self.download_folder = Some(folder);
                        self.state = AppState::EpisodeSelection;
                        AppRequest::Nothing
                    }
                },
                _ => {
                    self.edit(key);
                    AppRequest::Nothing
                },
            },
            AppState::EpisodeSelection => match key.code {
                KeyCode::Esc => {
                    self.state = AppState::FolderSelection;
                    AppRequest::Nothing
                },
                KeyCode::Enter => {
                    self.state = AppState::Downloading;
                    AppRequest::PrepareDownloads
                },
                KeyCode::Up => {
                    self.selected_episode_idx = move_up(self.selected_episode_idx);
                    AppRequest::Nothing
                },
                KeyCode::Down => {
                    self.selected_episode_idx = move_down(
                        self.selected_episode_idx,
                        self.episodes.len(),
                    );
                    AppRequest::Nothing
                },
                KeyCode::Char(c) => {
                    if c == ' ' {
                        match self.selected_episode_idx {
                            Some(i) => {
                                if i < self.episode_selections.len() {
                                    let flipped = !self.episode_selections[i];
                                    self.episode_selections.set(i, flipped);
                                }
                            },
                            None => {},
                        }
                    } else if c == 'a' || c == 'n' {
                        self.set_all(c == 'a');
                    }
                    AppRequest::Nothing
                },
                _ => AppRequest::Nothing,
            },
            AppState::Downloading => match key.code {
                KeyCode::Esc => AppRequest::Quit,
                KeyCode::Up => {
                    self.selected_download_idx = move_up(self.selected_download_idx);
                    AppRequest::Nothing
                },
                KeyCode::Down => {
                    self.selected_download_idx = move_down(
                        self.selected_download_idx,
                        self.download_count,
                    );
                    AppRequest::Nothing
                },
                KeyCode::Char(c) => {
                    if c == 'q' {
                        AppRequest::Quit
                    } else if c == 'p' {
                        match self.selected_download_idx {
                            Some(i) => AppRequest::TogglePause(i),
                            None => AppRequest::Nothing,
                        }
                    } else if c == 'c' {
                        match self.selected_download_idx {
                            Some(i) => AppRequest::Cancel(i),
                            None => AppRequest::Nothing,
                        }
                    } else if c == 's' {
                        self.state = AppState::Settings;
                        AppRequest::Nothing
                    } else if c == 'h' {
                        self.show_help = !self.show_help;
                        AppRequest::Nothing
                    } else {
                        AppRequest::Nothing
                    }
                },
                _ => AppRequest::Nothing,
            },
            AppState::Settings => match key.code {
                KeyCode::Esc => {
                    self.state = AppState::Downloading;
                    AppRequest::Nothing
                },
                KeyCode::Enter => {
                    self.state = AppState::Downloading;
                    AppRequest::SaveConfig
                },
                _ => AppRequest::Nothing,
            },
        }
    }

    /// Takes the episodes of the playlist that was asked for: none of
    /// them is selected, and the folder is asked for next.
    pub fn playlist_loaded(&mut self, episodes: Vec<Episode>)
        ensures
            final(self)@ == (AppView {
                episodes: episode_views(episodes@),
                episode_selections: Seq::new(episodes@.len(), |i: int| false),
                state: AppState::FolderSelection,
                ..old(self)@
            }),
            final(self).config == old(self).config,
    {
        let n = episodes.len();
        self.episodes = episodes;
        self.episode_selections = Vec::new();
        let mut i: usize = 0;
        while i < n
            invariant
                i <= n,
                self.episode_selections@.len() == i,
                forall|k: int| 0 <= k < i ==> !self.episode_selections@[k],
                self.episodes@ == episodes@,
                self.state == old(self).state,
                self.m3u_path == old(self).m3u_path,
                self.download_folder == old(self).download_folder,
                self.input_buffer == old(self).input_buffer,
                self.selected_episode_idx == old(self).selected_episode_idx,
                self.download_count == old(self).download_count,
                self.selected_download_idx == old(self).selected_download_idx,
                self.show_help == old(self).show_help,
                self.config == old(self).config,
            decreases n - i,
        {
            self.episode_selections.push(false);
            i += 1;
        }
        self.state = AppState::FolderSelection;
        assert(self.episode_selections@ =~= Seq::new(episodes@.len(), |i: int| false));
    }

    /// The positions of the selected episodes, in order.
    pub fn selected_episodes(&self) -> (r: Vec<usize>)
        ensures
            r@ == selected_positions(self.episode_selections@, self.episode_selections@.len()),
    {
        let mut r: Vec<usize> = Vec::new();
        let mut i: usize = 0;
        while i < self.episode_selections.len()
            invariant
                i <= self.episode_selections@.len(),
                r@ == selected_positions(self.episode_selections@, i as nat),
            decreases self.episode_selections@.len() - i,
        {
            if self.episode_selections[i] {
                r.push(i);
            }
            i += 1;
        }
        r
    }

    /// Notes that `count` downloads were made; the first is selected.
    pub fn downloads_prepared(&mut self, count: usize)
        ensures
            final(self)@ == (AppView {
                download_count: count,
                selected_download_idx: Some(0usize),
                ..old(self)@
            }),
            final(self).config == old(self).config,
    {
        self.download_count = count;
        self.selected_download_idx = Some(0);
    }

    /// What a tick of the clock brings: waiting downloads are started
    /// while slots are free. Returns the ids of the jobs to start.
    pub fn on_tick(&self, batch: &mut Orchestrator) -> (ids: Vec<usize>)
        requires
            old(batch).wf(),
        ensures
            (final(batch)@, ids@) == old(batch)@.filled(old(batch)@.jobs.len(), seq![]),
            final(batch).wf(),
            final(batch)@.wf(),
    {
        batch.start_downloads()
    }
}

} // verus!
