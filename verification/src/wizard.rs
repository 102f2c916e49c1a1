//! The screens of the full front end: entering the playlist and the
//! folder, confirming overwrites, watching the batch, and the settings.

use vstd::prelude::*;
use crate::items::option_text;
use crate::text::{chars_of, string_of, trim, trimmed};
use crate::tui::{KeyCode, KeyEvent};

verus! {

/// The screen shown.
#[derive(Clone, Copy, Debug, PartialEq, Eq, Structural)]
pub enum AppStateEnum {
    SelectM3u,
    SelectDownloadDir,
    ConfirmOverwrite,
    Downloading,
    Settings,
    Error,
    Finished,
}

/// Which text is being edited.
#[derive(Clone, Copy, Debug, PartialEq, Eq, Structural)]
pub enum InputMode {
    Normal,
    EditingM3u,
    EditingDownloadDir,
    EditingFfmpegPath,
}

/// What a key asks the program to do besides changing the screen.
#[derive(Clone, Copy, Debug, PartialEq, Eq, Structural)]
pub enum WizardRequest {
    Nothing,
    /// Leave the program.
    Quit,
    /// Ask all of the batch to stop.
    CancelAll,
    /// Read the playlist, look for files that exist, and report
    /// `start_outcome`.
    StartDownloads,
    /// Write the settings; report `save_failed` if that fails.
    SaveSettings,
    /// Forget the batch: a new one begins.
    NewBatch,
}

/// The state of the front end.
pub struct Wizard {
    pub state: AppStateEnum,
    pub input_mode: InputMode,
    pub m3u_path_input: String,
    pub download_dir_input: String,
    pub ffmpeg_path_input: String,
    /// The folder from the settings.
    pub download_dir: Option<String>,
    /// The tool from the settings.
    pub ffmpeg_path: Option<String>,
    pub error_message: String,
    pub overwrite_confirmed: bool,
    pub selected_download_index: usize,
    pub scroll_offset: usize,
}

/// The state of the front end as a value.
pub struct WizardView {
    pub state: AppStateEnum,
    pub input_mode: InputMode,
    pub m3u_path_input: Seq<char>,
    pub download_dir_input: Seq<char>,
    pub ffmpeg_path_input: Seq<char>,
    pub download_dir: Option<Seq<char>>,
    pub ffmpeg_path: Option<Seq<char>>,
    pub error_message: Seq<char>,
    pub overwrite_confirmed: bool,
    pub selected_download_index: usize,
    pub scroll_offset: usize,
}

/// A text that is not empty, or nothing.
pub open spec fn filled(text: Seq<char>) -> Option<Seq<char>> {
    if text.len() == 0 {
        None
    } else {
        Some(text)
    }
}

/// The text of a setting, empty where it is not set.
pub open spec fn shown(setting: Option<Seq<char>>) -> Seq<char> {
    match setting {
        Some(s) => s,
        None => seq![],
    }
}

/// `text` with `key` applied: a character is added, Backspace takes the
/// last one off.
pub open spec fn typed(text: Seq<char>, key: KeyCode) -> Seq<char> {
    match key {
        KeyCode::Char(c) => text.push(c),
        KeyCode::Backspace => if text.len() > 0 {
            text.drop_last()
        } else {
            text
        },
        _ => text,
    }
}

impl WizardView {
    /// Whether a folder is set.
    pub open spec fn has_folder(self) -> bool {
        self.download_dir matches Some(d) && d.len() > 0
    }

    /// The state for a new batch.
    pub open spec fn reset(self) -> WizardView {
        WizardView {
            state: AppStateEnum::SelectM3u,
            input_mode: InputMode::Normal,
            m3u_path_input: seq![],
            error_message: seq![],
            overwrite_confirmed: false,
            selected_download_index: 0,
            scroll_offset: 0,
            ..self
        }
    }

    /// The state once a playlist path stands in the input: the batch is
    /// started where a folder is set, else the folder is asked for.
    pub open spec fn proceed_from_path(self) -> (WizardView, WizardRequest) {
        if self.has_folder() {
            (self, WizardRequest::StartDownloads)
        } else {
            (WizardView { state: AppStateEnum::SelectDownloadDir, ..self }, WizardRequest::Nothing)
        }
    }

    /// The state after Enter.
    pub open spec fn entered(self) -> (WizardView, WizardRequest) {
        match self.input_mode {
            InputMode::EditingM3u => {
                let s = WizardView { input_mode: InputMode::Normal, ..self };
                if trimmed(self.m3u_path_input).len() > 0 {
                    s.proceed_from_path()
                } else {
                    (s, WizardRequest::Nothing)
                }
            },
            InputMode::EditingDownloadDir => {
                let dir = trimmed(self.download_dir_input);
                (
                    WizardView { input_mode: InputMode::Normal, download_dir: filled(dir), ..self },
                    if dir.len() > 0 {
                        WizardRequest::StartDownloads
                    } else {
                        WizardRequest::Nothing
                    },
                )
            },
            InputMode::EditingFfmpegPath => (
                WizardView {
                    input_mode: InputMode::Normal,
                    ffmpeg_path: filled(trimmed(self.ffmpeg_path_input)),
                    ..self
                },
                WizardRequest::Nothing,
            ),
            InputMode::Normal => match self.state {
                AppStateEnum::SelectM3u => if trimmed(self.m3u_path_input).len() > 0 {
                    self.proceed_from_path()
                } else {
                    (
                        WizardView { input_mode: InputMode::EditingM3u, ..self },
                        WizardRequest::Nothing,
                    )
                },
                AppStateEnum::SelectDownloadDir => {
                    let dir = trimmed(self.download_dir_input);
                    if dir.len() > 0 {
                        (
                            WizardView { download_dir: Some(dir), ..self },
                            WizardRequest::StartDownloads,
                        )
                    } else {
                        (
                            WizardView { input_mode: InputMode::EditingDownloadDir, ..self },
                            WizardRequest::Nothing,
                        )
                    }
                },
                AppStateEnum::Error | AppStateEnum::Finished => (
                    self.reset(),
                    WizardRequest::NewBatch,
                ),
                _ => (self, WizardRequest::Nothing),
            },
        }
    }

    /// The state after Esc.
    pub open spec fn escaped(self) -> (WizardView, WizardRequest) {
        match self.input_mode {
            InputMode::EditingM3u => (
                WizardView { input_mode: InputMode::Normal, ..self },
                WizardRequest::Nothing,
            ),
            InputMode::EditingDownloadDir => (
                WizardView {
                    input_mode: InputMode::Normal,
                    download_dir_input: shown(self.download_dir),
                    ..self
                },
                WizardRequest::Nothing,
            ),
            InputMode::EditingFfmpegPath => (
                WizardView {
                    input_mode: InputMode::Normal,
                    ffmpeg_path_input: shown(self.ffmpeg_path),
                    ..self
                },
                WizardRequest::Nothing,
            ),
            InputMode::Normal => match self.state {
                AppStateEnum::SelectDownloadDir => (
                    WizardView { state: AppStateEnum::SelectM3u, ..self },
                    WizardRequest::Nothing,
                ),
                AppStateEnum::Settings => (
                    WizardView {
                        state: AppStateEnum::SelectM3u,
                        ffmpeg_path_input: shown(self.ffmpeg_path),
                        ..self
                    },
                    WizardRequest::Nothing,
                ),
                AppStateEnum::ConfirmOverwrite | AppStateEnum::Error | AppStateEnum::Finished => (
                    self.reset(),
                    WizardRequest::NewBatch,
                ),
                _ => (self, WizardRequest::Nothing),
            },
        }
    }

    /// The state after `s`: on the settings screen the settings are
    /// taken from the input and written; from the first two screens the
    /// settings screen opens.
    pub open spec fn after_s(self) -> (WizardView, WizardRequest) {
        match self.state {
            AppStateEnum::Settings => (
                WizardView {
                    ffmpeg_path: filled(trimmed(self.ffmpeg_path_input)),
                    state: AppStateEnum::SelectM3u,
                    input_mode: InputMode::Normal,
                    ..self
                },
                WizardRequest::SaveSettings,
            ),
            AppStateEnum::SelectM3u | AppStateEnum::SelectDownloadDir => if self.input_mode
                is Normal {
                (
                    WizardView {
                        download_dir_input: shown(self.download_dir),
                        ffmpeg_path_input: shown(self.ffmpeg_path),
                        state: AppStateEnum::Settings,
                        ..self
                    },
                    WizardRequest::Nothing,
                )
            } else {
                (self, WizardRequest::Nothing)
            },
            _ => (self, WizardRequest::Nothing),
        }
    }

    /// The state after `e`: the text of the screen is edited.
    pub open spec fn after_e(self) -> WizardView {
        if !(self.input_mode is Normal) {
            self
        } else {
            match self.state {
                AppStateEnum::SelectM3u => WizardView {
                    input_mode: InputMode::EditingM3u,
                    ..self
                },
                AppStateEnum::SelectDownloadDir => WizardView {
                    input_mode: InputMode::EditingDownloadDir,
                    ..self
                },
                AppStateEnum::Settings => WizardView {
                    input_mode: InputMode::EditingFfmpegPath,
                    ..self
                },
                _ => self,
            }
        }
    }

    /// The state after a key typed into the text that is edited.
    pub open spec fn after_typing(self, key: KeyCode) -> WizardView {
        match self.input_mode {
            InputMode::EditingM3u => WizardView {
                m3u_path_input: typed(self.m3u_path_input, key),
                ..self
            },
            InputMode::EditingDownloadDir => WizardView {
                download_dir_input: typed(self.download_dir_input, key),
                ..self
            },
            InputMode::EditingFfmpegPath => WizardView {
                ffmpeg_path_input: typed(self.ffmpeg_path_input, key),
                ..self
            },
            InputMode::Normal => self,
        }
    }

    /// The state after an arrow key on the list of `len` downloads: the
    /// selection moves by one, from the last row to the first and from
    /// the first to the last.
    pub open spec fn after_arrow(self, key: KeyCode, len: usize) -> WizardView {
        if !(self.state is Downloading) || len == 0 {
            self
        } else {
            match key {
                KeyCode::Down => WizardView {
                    selected_download_index: if self.selected_download_index >= len - 1 {
                        0
                    } else {
                        (self.selected_download_index + 1) as usize
                    },
                    ..self
                },
                KeyCode::Up => WizardView {
                    selected_download_index: if self.selected_download_index == 0 {
                        (len - 1) as usize
                    } else {
                        (self.selected_download_index - 1) as usize
                    },
                    ..self
                },
                _ => self,
            }
        }
    }

    /// The state after `key`, with `len` downloads in the list, and what
    /// the key asks for. Ctrl+C stops the batch while it runs and leaves
    /// the program otherwise.
    pub open spec fn after_key(self, key: KeyEvent, len: usize) -> (WizardView, WizardRequest) {
        if key.ctrl && key.code == KeyCode::Char('c') {
            if self.state is Downloading {
                (self, WizardRequest::CancelAll)
            } else {
                (self, WizardRequest::Quit)
            }
        } else if !(self.input_mode is Normal) {
            match key.code {
                KeyCode::Enter => self.entered(),
                KeyCode::Esc => self.escaped(),
                _ => (self.after_typing(key.code), WizardRequest::Nothing),
            }
        } else {
            match self.state {
                AppStateEnum::ConfirmOverwrite => match key.code {
                    KeyCode::Char(c) => if c == 'y' || c == 'Y' {
                        (
                            WizardView { overwrite_confirmed: true, ..self },
                            WizardRequest::StartDownloads,
                        )
                    } else if c == 'n' || c == 'N' {
                        (self.reset(), WizardRequest::NewBatch)
                    } else {
                        (self, WizardRequest::Nothing)
                    },
                    KeyCode::Esc => (self.reset(), WizardRequest::NewBatch),
                    _ => (self, WizardRequest::Nothing),
                },
                AppStateEnum::Downloading => match key.code {
                    KeyCode::Char(c) => if c == 'c' || c == 'q' {
                        (self, WizardRequest::CancelAll)
                    } else {
                        (self, WizardRequest::Nothing)
                    },
                    KeyCode::Up | KeyCode::Down => (
                        self.after_arrow(key.code, len),
                        WizardRequest::Nothing,
                    ),
                    _ => (self, WizardRequest::Nothing),
                },
                AppStateEnum::Finished => match key.code {
                    KeyCode::Char(c) => if c == 'r' {
                        (self.reset(), WizardRequest::NewBatch)
                    } else if c == 'q' {
                        (self, WizardRequest::Quit)
                    } else {
                        (self, WizardRequest::Nothing)
                    },
                    KeyCode::Enter | KeyCode::Esc => (self.reset(), WizardRequest::NewBatch),
                    _ => (self, WizardRequest::Nothing),
                },
                AppStateEnum::Error => match key.code {
                    KeyCode::Char(c) => if c == 'q' {
                        (self.reset(), WizardRequest::NewBatch)
                    } else {
                        (self, WizardRequest::Nothing)
                    },
                    KeyCode::Enter | KeyCode::Esc => (self.reset(), WizardRequest::NewBatch),
                    _ => (self, WizardRequest::Nothing),
                },
                _ => match key.code {
                    KeyCode::Char(c) => if c == 'q' {
                        (self, WizardRequest::Quit)
                    } else if c == 'e' {
                        (self.after_e(), WizardRequest::Nothing)
                    } else if c == 's' {
                        self.after_s()
                    } else {
                        (self, WizardRequest::Nothing)
                    },
                    KeyCode::Enter => self.entered(),
                    KeyCode::Esc => self.escaped(),
                    _ => (self, WizardRequest::Nothing),
                },
            }
        }
    }

    /// The state after the playlist was read and the files looked for:
    /// an error where the playlist names nothing, the question whether to
    /// overwrite where files exist and that was not confirmed, else the
    /// batch runs.
    pub open spec fn started(self, entries: usize, existing: usize) -> WizardView {
        if entries == 0 {
            WizardView {
                state: AppStateEnum::Error,
                error_message: "M3U file is empty or contains no valid entries."@,
                ..self
            }
        } else if existing > 0 && !self.overwrite_confirmed {
            WizardView { state: AppStateEnum::ConfirmOverwrite, error_message: seq![], ..self }
        } else {
            WizardView { state: AppStateEnum::Downloading, error_message: seq![], ..self }
        }
    }
}

impl View for Wizard {
    type V = WizardView;

    open spec fn view(&self) -> WizardView {
        WizardView {
            state: self.state,
            input_mode: self.input_mode,
            m3u_path_input: self.m3u_path_input@,
            download_dir_input: self.download_dir_input@,
            ffmpeg_path_input: self.ffmpeg_path_input@,
            download_dir: option_text(self.download_dir),
            ffmpeg_path: option_text(self.ffmpeg_path),
            error_message: self.error_message@,
            overwrite_confirmed: self.overwrite_confirmed,
            selected_download_index: self.selected_download_index,
            scroll_offset: self.scroll_offset,
        }
    }
}

fn trimmed_text(text: &String) -> (r: String)
    ensures
        r@ == trimmed(text@),
{
    let chars = chars_of(text.as_str());
    string_of(trim(chars.as_slice()))
}

fn fill(text: String) -> (r: Option<String>)
    ensures
        option_text(r) == filled(text@),
{
    if text.as_str().is_empty() {
        None
    } else {
        Some(text)
    }
}

fn show(setting: &Option<String>) -> (r: String)
    ensures
        r@ == shown(option_text(*setting)),
{
    match setting {
        Some(s) => s.clone(),
        None => String::new(),
    }
}

fn type_key(text: &mut String, key: KeyCode)
    ensures
        final(text)@ == typed(old(text)@, key),
{
    match key {
        KeyCode::Char(c) => {
            text.push(c);
        },
        KeyCode::Backspace => {
            let _ = text.pop();
        },
        _ => {},
    }
}

impl Wizard {
    /// The front end at its first screen, with the folder and the tool
    /// that the settings hold.
    pub fn new(download_dir: Option<String>, ffmpeg_path: Option<String>) -> (w: Wizard)
        ensures
            w@ == (WizardView {
                state: AppStateEnum::SelectM3u,
                input_mode: InputMode::Normal,
                m3u_path_input: seq![],
                download_dir_input: shown(option_text(download_dir)),
                ffmpeg_path_input: shown(option_text(ffmpeg_path)),
                download_dir: option_text(download_dir),
                ffmpeg_path: option_text(ffmpeg_path),
                error_message: seq![],
                overwrite_confirmed: false,
                selected_download_index: 0,
                scroll_offset: 0,
            }),
    {
        Wizard {
            state: AppStateEnum::SelectM3u,
            input_mode: InputMode::Normal,
            m3u_path_input: String::new(),
            download_dir_input: show(&download_dir),
            ffmpeg_path_input: show(&ffmpeg_path),
            download_dir,
            ffmpeg_path,
            error_message: String::new(),
            overwrite_confirmed: false,
            selected_download_index: 0,
            scroll_offset: 0,
        }
    }

    /// Begins a new batch.
    pub fn reset_for_new_download(&mut self)
        ensures
            final(self)@ == old(self)@.reset(),
    {
        self.m3u_path_input = String::new();
        self.error_message = String::new();
        self.scroll_offset = 0;
        self.selected_download_index = 0;
        self.state = AppStateEnum::SelectM3u;
        self.overwrite_confirmed = false;
        self.input_mode = InputMode::Normal;
    }

    fn has_download_dir(&self) -> (b: bool)
        ensures
            b == self@.has_folder(),
    {
        match &self.download_dir {
            Some(d) => !d.as_str().is_empty(),
            None => false,
        }
    }

    fn proceed(&mut self) -> (r: WizardRequest)
        ensures
            (final(self)@, r) == old(self)@.proceed_from_path(),
    {
        if self.has_download_dir() {
            WizardRequest::StartDownloads
        } else {
            self.state = AppStateEnum::SelectDownloadDir;
            WizardRequest::Nothing
        }
    }

    /// Takes Enter.
    pub fn handle_enter(&mut self) -> (r: WizardRequest)
        ensures
            (final(self)@, r) == old(self)@.entered(),
    {
        match self.input_mode {
            InputMode::EditingM3u => {
                self.input_mode = InputMode::Normal;
                if !trimmed_text(&self.m3u_path_input).as_str().is_empty() {
                    self.proceed()
                } else {
                    WizardRequest::Nothing
                }
            },
            InputMode::EditingDownloadDir => {
                self.input_mode = InputMode::Normal;
                let dir = trimmed_text(&self.download_dir_input);
                let set = !dir.as_str().is_empty();
                self.download_dir = fill(dir);
                if set {
                    WizardRequest::StartDownloads
                } else {
                    WizardRequest::Nothing
                }
            },
            InputMode::EditingFfmpegPath => {
                self.input_mode = InputMode::Normal;
                self.ffmpeg_path = fill(trimmed_text(&self.ffmpeg_path_input));
                WizardRequest::Nothing
            },
            InputMode::Normal => match self.state {
                AppStateEnum::SelectM3u => {
                    if !trimmed_text(&self.m3u_path_input).as_str().is_empty() {
                        self.proceed()
                    } else {
                        self.input_mode = InputMode::EditingM3u;
                        WizardRequest::Nothing
                    }
                },
                AppStateEnum::SelectDownloadDir => {
                    let dir = trimmed_text(&self.download_dir_input);
                    if !dir.as_str().is_empty() {
                        self.download_dir = Some(dir);
                        WizardRequest::StartDownloads
                    } else {
                        self.input_mode = InputMode::EditingDownloadDir;
                        WizardRequest::Nothing
                    }
                },
                AppStateEnum::Error | AppStateEnum::Finished => {
                    self.reset_for_new_download();
                    WizardRequest::NewBatch
                },
                _ => WizardRequest::Nothing,
            },
        }
    }

    /// Takes Esc.
    pub fn handle_esc(&mut self) -> (r: WizardRequest)
        ensures
            (final(self)@, r) == old(self)@.escaped(),
    {
        match self.input_mode {
            InputMode::EditingM3u => {
                self.input_mode = InputMode::Normal;
                WizardRequest::Nothing
            },
            InputMode::EditingDownloadDir => {
                self.download_dir_input = show(&self.download_dir);
                self.input_mode = InputMode::Normal;
                WizardRequest::Nothing
            },
            InputMode::EditingFfmpegPath => {
                self.ffmpeg_path_input = show(&self.ffmpeg_path);
                self.input_mode = InputMode::Normal;
                WizardRequest::Nothing
            },
            InputMode::Normal => match self.state {
                AppStateEnum::SelectDownloadDir => {
                    self.state = AppStateEnum::SelectM3u;
                    WizardRequest::Nothing
                },
                AppStateEnum::Settings => {
                    self.ffmpeg_path_input = show(&self.ffmpeg_path);
                    self.state = AppStateEnum::SelectM3u;
                    WizardRequest::Nothing
                },
                AppStateEnum::ConfirmOverwrite | AppStateEnum::Error | AppStateEnum::Finished => {
                    self.reset_for_new_download();
                    WizardRequest::NewBatch
                },
                _ => WizardRequest::Nothing,
            },
        }
    }

    /// Takes `s`.
    pub fn handle_s_key(&mut self) -> (r: WizardRequest)
        ensures
            (final(self)@, r) == old(self)@.after_s(),
    {
        match self.state {
            AppStateEnum::Settings => {
                self.ffmpeg_path = fill(trimmed_text(&self.ffmpeg_path_input));
                self.state = AppStateEnum::SelectM3u;
                self.input_mode = InputMode::Normal;
                WizardRequest::SaveSettings
            },
            AppStateEnum::SelectM3u | AppStateEnum::SelectDownloadDir => {
                if matches!(self.input_mode, InputMode::Normal) {
                    self.download_dir_input = show(&self.download_dir);
                    self.ffmpeg_path_input = show(&self.ffmpeg_path);
                    self.state = AppStateEnum::Settings;
                }
                WizardRequest::Nothing
            },
            _ => WizardRequest::Nothing,
        }
    }

    /// Takes `e`.
    pub fn handle_e_key(&mut self)
        ensures
            final(self)@ == old(self)@.after_e(),
    {
        if !matches!(self.input_mode, InputMode::Normal) {
            return ;
        }
        match self.state {
            AppStateEnum::SelectM3u => {
                self.input_mode = InputMode::EditingM3u;
            },
            AppStateEnum::SelectDownloadDir => {
                self.input_mode = InputMode::EditingDownloadDir;
            },
            AppStateEnum::Settings => {
                self.input_mode = InputMode::EditingFfmpegPath;
            },
            _ => {},
        }
    }

    /// Takes a character or Backspace for the text that is edited.
    pub fn handle_char_input(&mut self, key: KeyCode)
        ensures
            final(self)@ == old(self)@.after_typing(key),
    {
        match self.input_mode {
            InputMode::EditingM3u => type_key(&mut self.m3u_path_input, key),
            InputMode::EditingDownloadDir => type_key(&mut self.download_dir_input, key),
            InputMode::EditingFfmpegPath => type_key(&mut self.ffmpeg_path_input, key),
            InputMode::Normal => {},
        }
    }

    /// Takes Up or Down on the list of `len` downloads.
    pub fn handle_arrow_keys(&mut self, key: KeyCode, len: usize)
        ensures
            final(self)@ == old(self)@.after_arrow(key, len),
    {
        if !matches!(self.state, AppStateEnum::Downloading) || len == 0 {
            return ;
        }
        match key {
            KeyCode::Down => {
                self.selected_download_index = if self.selected_download_index >= len - 1 {
                    0
                } else {
                    self.selected_download_index + 1
                };
            },
            KeyCode::Up => {
                self.selected_download_index = if self.selected_download_index == 0 {
                    len - 1
                } else {
                    self.selected_download_index - 1
                };
            },
            _ => {},
        }
    }

    /// Takes a key, with `len` downloads in the list, and says what it
    /// asks for.
    pub fn handle_key(&mut self, key: KeyEvent, len: usize) -> (r: WizardRequest)
        ensures
            (final(self)@, r) == old(self)@.after_key(key, len),
    {
        let ctrl_c = key.ctrl && match key.code {
            KeyCode::Char(c) => c == 'c',
            _ => false,
        };
        if ctrl_c {
            return if matches!(self.state, AppStateEnum::Downloading) {
                WizardRequest::CancelAll
            } else {
                WizardRequest::Quit
            };
        }
        if !matches!(self.input_mode, InputMode::Normal) {
            return match key.code {
                KeyCode::Enter => self.handle_enter(),
                KeyCode::Esc => self.handle_esc(),
                _ => {
                    self.handle_char_input(key.code);
                    WizardRequest::Nothing
                },
            };
        }
        match self.state {
            AppStateEnum::ConfirmOverwrite => match key.code {
                KeyCode::Char(c) => {
                    if c == 'y' || c == 'Y' {
                        self.overwrite_confirmed = true;
                        WizardRequest::StartDownloads
                    } else if c == 'n' || c == 'N' {
                        self.reset_for_new_download();
                        WizardRequest::NewBatch
                    } else {
                        WizardRequest::Nothing
                    }
                },
                KeyCode::Esc => {
                    self.reset_for_new_download();
                    WizardRequest::NewBatch
                },
                _ => WizardRequest::Nothing,
            },
            AppStateEnum::Downloading => match key.code {
                KeyCode::Char(c) => {
                    if c == 'c' || c == 'q' {
                        WizardRequest::CancelAll
                    } else {
                        WizardRequest::Nothing
                    }
                },
                KeyCode::Up | KeyCode::Down => {
                    self.handle_arrow_keys(key.code, len);
                    WizardRequest::Nothing
                },
                _ => WizardRequest::Nothing,
            },
            AppStateEnum::Finished => match key.code {
                KeyCode::Char(c) => {
                    if c == 'r' {
                        self.reset_for_new_download();
                        WizardRequest::NewBatch
                    } else if c == 'q' {
                        WizardRequest::Quit
                    } else {
                        WizardRequest::Nothing
                    }
                },
                KeyCode::Enter | KeyCode::Esc => {
                    self.reset_for_new_download();
                    WizardRequest::NewBatch
                },
                _ => WizardRequest::Nothing,
            },
            AppStateEnum::Error => match key.code {
                KeyCode::Char(c) => {
                    if c == 'q' {
                        self.reset_for_new_download();
                        WizardRequest::NewBatch
                    } else {
                        WizardRequest::Nothing
                    }
                },
                KeyCode::Enter | KeyCode::Esc => {
                    self.reset_for_new_download();
                    WizardRequest::NewBatch
                },
                _ => WizardRequest::Nothing,
            },
            _ => match key.code {
                KeyCode::Char(c) => {
                    if c == 'q' {
                        WizardRequest::Quit
                    } else if c == 'e' {
                        self.handle_e_key();
                        WizardRequest::Nothing
                    } else if c == 's' {
                        self.handle_s_key()
                    } else {
                        WizardRequest::Nothing
                    }
                },
                KeyCode::Enter => self.handle_enter(),
                KeyCode::Esc => self.handle_esc(),
                _ => WizardRequest::Nothing,
            },
        }
    }

    /// Whether the batch can be started at all; if not, the error screen
    /// says why: the playlist path is empty, or no folder is set.
    pub fn check_inputs(&mut self) -> (ok: bool)
        ensures
            ok == (trimmed(old(self).m3u_path_input@).len() > 0 && old(self)@.has_folder()),
            final(self)@ == if ok {
                old(self)@
            } else {
                WizardView {
                    state: AppStateEnum::Error,
                    error_message: if trimmed(old(self).m3u_path_input@).len() == 0 {
                        "M3U file path cannot be empty."@
                    } else {
                        "Download directory is not set."@
                    },
                    ..old(self)@
                }
            },
    {
        if trimmed_text(&self.m3u_path_input).as_str().is_empty() {
            self.state = AppStateEnum::Error;
            self.error_message = "M3U file path cannot be empty.".to_owned();
            false
        } else if !self.has_download_dir() {
            self.state = AppStateEnum::Error;
            self.error_message = "Download directory is not set.".to_owned();
            false
        } else {
            true
        }
    }

    /// Shows `message` on the error screen.
    pub fn fail(&mut self, message: String)
        ensures
            final(self)@ == (WizardView {
                state: AppStateEnum::Error,
                error_message: message@,
                ..old(self)@
            }),
    {
        self.state = AppStateEnum::Error;
        self.error_message = message;
    }

    /// Takes what reading the playlist gave: `entries` items, of which
    /// `existing` have their file already.
    pub fn start_outcome(&mut self, entries: usize, existing: usize)
        ensures
            final(self)@ == old(self)@.started(entries, existing),
    {
        if entries == 0 {
            self.state = AppStateEnum::Error;
            self.error_message = "M3U file is empty or contains no valid entries.".to_owned();
        } else if existing > 0 && !self.overwrite_confirmed {
            self.state = AppStateEnum::ConfirmOverwrite;
            self.error_message = String::new();
        } else {
            self.state = AppStateEnum::Downloading;
            self.error_message = String::new();
        }
    }

    /// Notes that every job of the running batch has ended.
    pub fn batch_finished(&mut self)
        ensures
            final(self)@ == if old(self).state is Downloading {
                WizardView {
                    state: AppStateEnum::Finished,
                    input_mode: InputMode::Normal,
                    ..old(self)@
                }
            } else {
                old(self)@
            },
    {
        if matches!(self.state, AppStateEnum::Downloading) {
            self.state = AppStateEnum::Finished;
            self.input_mode = InputMode::Normal;
        }
    }
}

} // verus!
