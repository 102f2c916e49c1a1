//! What the download screen decides: which job is selected, what a key
//! means, and how a job is shown.

use vstd::prelude::*;
use vstd::slice::slice_subrange;
use crate::orchestrator::Orchestrator;
use crate::outside::{text_width, width_of};
use crate::runner::Action;
use crate::status::{DownloadStatus, FailureReason};
use crate::text::{chars_of, decimal_digits, push_all, push_decimal, push_signed, signed_digits, string_of};

verus! {

/// A key, as far as the screens tell keys apart.
#[derive(Clone, Copy, Debug, PartialEq, Eq, Structural)]
pub enum KeyCode {
    Char(char),
    Enter,
    Esc,
    Backspace,
    Up,
    Down,
    Left,
    Right,
    Other,
}

/// A key press with the modifiers that were held.
#[derive(Clone, Copy, Debug, PartialEq, Eq, Structural)]
pub struct KeyEvent {
    pub code: KeyCode,
    pub ctrl: bool,
    pub shift: bool,
}

/// What a key asks of the download screen.
#[derive(Clone, Copy, Debug, PartialEq, Eq, Structural)]
pub enum TuiCommand {
    /// Leave, ending every job.
    Exit,
    Next,
    Previous,
    TogglePause,
    ToggleAll,
    Nothing,
}

/// Milliseconds that must pass between two keys.
pub const KEY_DEBOUNCE_MS: u64 = 50;

/// What `key` asks: Ctrl+C and Shift+Q leave, Down and `j` select the
/// next job, Up and `k` the one before, Space holds or lets go the
/// selected job, `a` all of them.
pub open spec fn command_of(key: KeyEvent) -> TuiCommand {
    match key.code {
        KeyCode::Char(c) => if (c == 'c' || c == 'C') && key.ctrl {
            TuiCommand::Exit
        } else if c == 'Q' && key.shift {
            TuiCommand::Exit
        } else if c == 'j' {
            TuiCommand::Next
        } else if c == 'k' {
            TuiCommand::Previous
        } else if c == ' ' {
            TuiCommand::TogglePause
        } else if c == 'a' || c == 'A' {
            TuiCommand::ToggleAll
        } else {
            TuiCommand::Nothing
        },
        KeyCode::Down => TuiCommand::Next,
        KeyCode::Up => TuiCommand::Previous,
        _ => TuiCommand::Nothing,
    }
}

/// What `key` asks of the download screen.
pub fn command_for(key: KeyEvent) -> (c: TuiCommand)
    ensures
        c == command_of(key),
{
    match key.code {
        KeyCode::Char(c) => {
            if (c == 'c' || c == 'C') && key.ctrl {
                TuiCommand::Exit
            } else if c == 'Q' && key.shift {
                TuiCommand::Exit
            } else if c == 'j' {
                TuiCommand::Next
            } else if c == 'k' {
                TuiCommand::Previous
            } else if c == ' ' {
                TuiCommand::TogglePause
            } else if c == 'a' || c == 'A' {
                TuiCommand::ToggleAll
            } else {
                TuiCommand::Nothing
            }
        },
        KeyCode::Down => TuiCommand::Next,
        KeyCode::Up => TuiCommand::Previous,
        _ => TuiCommand::Nothing,
    }
}

/// Whether a key pressed at `now` counts, the last one having counted at
/// `last` (both in milliseconds): not while less than the debounce time
/// has passed.
pub fn accepts_key(last: u64, now: u64) -> (b: bool)
    ensures
        b == (now - last >= KEY_DEBOUNCE_MS),
{
    now >= last && now - last >= KEY_DEBOUNCE_MS
}

/// The job after `current` among `len` jobs, the first after the last.
pub open spec fn next_index(current: usize, len: usize) -> usize {
    if current >= len - 1 {
        0
    } else {
        (current + 1) as usize
    }
}

/// The job before `current` among `len` jobs, the last before the first.
pub open spec fn previous_index(current: usize, len: usize) -> usize {
    if current == 0 {
        (len - 1) as usize
    } else {
        (current - 1) as usize
    }
}

/// The selection of the download screen.
#[derive(Clone, Copy, Debug, PartialEq, Eq, Structural)]
pub struct DownloadTUI {
    pub selected: Option<usize>,
}

impl DownloadTUI {
    /// The first of `len` jobs is selected, none where there is none.
    pub fn new_with_state(len: usize) -> (t: DownloadTUI)
        ensures
            t.selected == if len == 0 {
                None
            } else {
                Some(0usize)
            },
    {
        DownloadTUI {
            selected: if len == 0 {
                None
            } else {
                Some(0)
            },
        }
    }

    /// Selects the next of `len` jobs.
    pub fn next(&mut self, len: usize)
        ensures
            final(self).selected == if len == 0 {
                old(self).selected
            } else {
                Some(
                    next_index(
                        match old(self).selected {
                            Some(i) => i,
                            None => 0,
                        },
                        len,
                    ),
                )
            },
            len > 0 ==> final(self).selected->0 < len,
    {
        if len == 0 {
            return ;
        }
        let current = match self.selected {
            Some(i) => i,
            None => 0,
        };
        self.selected = Some(
            if current >= len - 1 {
                0
            } else {
                current + 1
            },
        );
    }

    /// Selects the job before the selected one among `len` jobs.
    pub fn previous(&mut self, len: usize)
        ensures
            final(self).selected == if len == 0 {
                old(self).selected
            } else {
                Some(
                    previous_index(
                        match old(self).selected {
                            Some(i) => i,
                            None => 0,
                        },
                        len,
                    ),
                )
            },
    {
        if len == 0 {
            return ;
        }
        let current = match self.selected {
            Some(i) => i,
            None => 0,
        };
        self.selected = Some(
            if current == 0 {
                len - 1
            } else {
                current - 1
            },
        );
    }

    /// Holds the selected job if it runs, lets it go on if it is held,
    /// and returns its id and what is to be done to its process.
    pub fn toggle_pause(&self, batch: &mut Orchestrator) -> (r: Option<(usize, Action)>)
        requires
            old(batch).wf(),
        ensures
            final(batch).wf(),
            final(batch)@.wf(),
            match self.selected {
                Some(i) if i < old(batch)@.jobs.len() => r == Some(
                    (old(batch)@.jobs[i as int].id, old(batch)@.toggled_at(i as int).1),
                ) && final(batch)@ == old(batch)@.toggled_at(i as int).0,
                _ => r is None && final(batch)@ == old(batch)@,
            },
    {
        proof {
            batch.lemma_view_is_well_formed();
        }
        match self.selected {
            Some(i) => {
                if i < batch.len() {
                    let id = batch.id_at(i);
                    let action = batch.toggle_at(i);
                    Some((id, action))
                } else {
                    None
                }
            },
            None => None,
        }
    }

    /// Lets every job go on if one of them is held, holds every job
    /// otherwise, and returns for each job its id and what is to be done
    /// to its process.
    pub fn toggle_pause_all(&self, batch: &mut Orchestrator) -> (r: Vec<(usize, Action)>)
        requires
            old(batch).wf(),
        ensures
            final(batch).wf(),
            final(batch)@.wf(),
            final(batch)@ == old(batch)@.all_set(
                old(batch)@.jobs.len(),
                old(batch)@.any_paused(),
            ),
            r@.len() == old(batch)@.jobs.len(),
            forall|i: int|
                0 <= i < r@.len() ==> (#[trigger] r@[i]) == (
                    old(batch)@.jobs[i].id,
                    if old(batch)@.any_paused() {
                        old(batch)@.jobs[i].resumed().1
                    } else {
                        old(batch)@.jobs[i].paused().1
                    },
                ),
    {
        let resume = batch.has_paused();
        batch.set_paused_all(resume)
    }

    /// Asks every job to stop.
    pub fn kill_all(&self, batch: &mut Orchestrator)
        requires
            old(batch).wf(),
        ensures
            final(batch)@ == old(batch)@.cancelled_all(),
            final(batch).wf(),
            final(batch)@.wf(),
    {
        batch.cancel_all();
    }
}

// ---------------------------------------------------------------------
// The list
// ---------------------------------------------------------------------
/// The first row shown of a list of `len` rows of which `height` fit,
/// so that the row `selected` is among those shown: the old first row
/// `offset` where that does, else the nearest one that does, and never so
/// far down that rows stay empty.
pub open spec fn scrolled(selected: usize, offset: usize, height: usize, len: usize) -> int {
    let moved: int = if selected < offset {
        selected as int
    } else if selected >= offset + height {
        if selected >= height {
            selected - height + 1
        } else {
            1
        }
    } else {
        offset as int
    };
    let last: int = if len >= height {
        len - height
    } else {
        0
    };
    if moved <= last {
        moved
    } else {
        last
    }
}

/// The first row to show so that the row `selected` is visible.
pub fn scroll_offset(selected: usize, offset: usize, height: usize, len: usize) -> (r: usize)
    requires
        height > 0,
    ensures
        r == scrolled(selected, offset, height, len),
        selected < len ==> r <= selected < r + height,
{
    let moved: usize = if selected < offset {
        selected
    } else if selected - offset >= height {
        if selected >= height {
            selected - height + 1
        } else {
            1
        }
    } else {
        offset
    };
    let last: usize = if len >= height {
        len - height
    } else {
        0
    };
    if moved <= last {
        moved
    } else {
        last
    }
}

/// How many of the `width` cells of a bar are filled at `percent`
/// hundredths of a percent.
pub open spec fn filled_cells(percent: u32, width: usize) -> int {
    if percent >= 10_000 {
        width as int
    } else {
        percent as int * width as int / 10_000
    }
}

/// How many of the `width` cells of a bar are filled at `percent`.
pub fn bar_cells(percent: u32, width: usize) -> (filled: usize)
    ensures
        filled == filled_cells(percent, width),
        filled <= width,
{
    if percent >= 10_000 {
        width
    } else {
        assert(percent as int * width as int <= 10_000 * 0xFFFF_FFFF_FFFF_FFFF) by (nonlinear_arith)
            requires
                0 <= percent < 10_000,
                0 <= width <= 0xFFFF_FFFF_FFFF_FFFF,
        ;
        let q: u128 = (percent as u128) * (width as u128) / 10_000;
        assert(q <= width) by (nonlinear_arith)
            requires
                q == (percent as int * width as int) / 10_000,
                percent < 10_000,
                width >= 0,
        ;
        q as usize
    }
}

/// A bar of `width` cells between brackets, filled as far as `percent`
/// hundredths of a percent reach.
pub open spec fn bar_text(percent: u32, width: usize) -> Seq<char> {
    seq!['['] + Seq::new(
        width as nat,
        |i: int|
            if i < filled_cells(percent, width) {
                '\u{2588}'
            } else {
                '\u{2591}'
            },
    ) + seq![']']
}

/// Draws the bar for `percent` in `width` cells.
pub fn progress_bar(percent: u32, width: usize) -> (r: String)
    ensures
        r@ == bar_text(percent, width),
{
    let filled = bar_cells(percent, width);
    let mut out: Vec<char> = Vec::new();
    out.push('[');
    let mut i: usize = 0;
    while i < width
        invariant
            i <= width,
            filled == filled_cells(percent, width),
            out@.len() == i + 1,
            out@[0] == '[',
            forall|k: int|
                1 <= k <= i ==> #[trigger] out@[k] == if k - 1 < filled_cells(percent, width) {
                    '\u{2588}'
                } else {
                    '\u{2591}'
                },
        decreases width - i,
    {
        out.push(
            if i < filled {
                '\u{2588}'
            } else {
                '\u{2591}'
            },
        );
        i += 1;
    }
    out.push(']');
    assert(out@ =~= bar_text(percent, width));
    string_of(out.as_slice())
}

/// The width of the column of names in a list `area_width` cells wide.
pub fn name_column_width(area_width: u16) -> (w: usize)
    ensures
        w == if area_width >= 48 {
            area_width - 36
        } else {
            12
        },
{
    if area_width >= 48 {
        (area_width - 36) as usize
    } else {
        12
    }
}

/// `name` as shown in `max` columns when it takes `width`: itself if it
/// fits, else its beginning and three dots.
pub open spec fn shortened(name: Seq<char>, width: nat, max: nat) -> Seq<char> {
    if width > max {
        let keep = if max >= 3 {
            max - 3
        } else {
            0
        };
        (if name.len() > keep {
            name.take(keep)
        } else {
            name
        }) + "..."@
    } else {
        name
    }
}

/// Shortens `name`, which takes `width` columns, to `max` columns.
pub fn shorten(name: &str, width: usize, max: usize) -> (r: String)
    ensures
        r@ == shortened(name@, width as nat, max as nat),
{
    if width > max {
        let chars = chars_of(name);
        let keep = if max >= 3 {
            max - 3
        } else {
            0
        };
        let mut out: Vec<char> = Vec::new();
        if chars.len() > keep {
            let head = slice_subrange(chars.as_slice(), 0, keep);
            assert(head@ =~= chars@.take(keep as int));
            push_all(&mut out, head);
        } else {
            push_all(&mut out, chars.as_slice());
        }
        let dots = chars_of("...");
        push_all(&mut out, dots.as_slice());
        string_of(out.as_slice())
    } else {
        name.to_owned()
    }
}

/// `name` as shown in a column of `max` cells.
pub fn display_name(name: &str, max: usize) -> (r: String)
    ensures
        r@ == shortened(name@, text_width(name@), max as nat),
{
    shorten(name, width_of(name), max)
}

/// A percentage with one decimal: hundredths of a percent, rounded down
/// to tenths.
pub open spec fn percent_text(percent: u32) -> Seq<char> {
    decimal_digits((percent / 100) as nat) + "."@ + decimal_digits(((percent % 100) / 10) as nat)
        + "%"@
}

/// A speed with two decimals and an `x`: thousandths, rounded down to
/// hundredths.
pub open spec fn speed_text(speed: u64) -> Seq<char> {
    decimal_digits((speed / 1000) as nat) + "."@ + decimal_digits(((speed % 1000) / 100) as nat)
        + decimal_digits(((speed % 100) / 10) as nat) + "x"@
}

/// What is shown for a failure.
pub open spec fn reason_text(reason: FailureReason) -> Seq<char> {
    match reason {
        FailureReason::ExitCode(code) => "Exit code "@ + signed_digits(code as int),
        FailureReason::SpawnFailed => "Spawn failed"@,
        FailureReason::IoError => "Wait failed"@,
    }
}

/// What is shown for a status.
pub open spec fn status_line(status: DownloadStatus) -> Seq<char> {
    match status {
        DownloadStatus::Pending => "Pending"@,
        DownloadStatus::Starting { attempt } => "Starting (attempt "@ + decimal_digits(
            attempt as nat,
        ) + ")..."@,
        DownloadStatus::Running { progress, .. } => (match progress.percent {
            Some(p) => percent_text(p),
            None => "??"@,
        }) + " - Speed: "@ + (match progress.speed {
            Some(s) => speed_text(s),
            None => "??"@,
        }) + " - ETA: "@ + (match progress.eta_seconds {
            Some(e) => decimal_digits(e as nat) + "s"@,
            None => "??"@,
        }),
        DownloadStatus::Paused { .. } => "Paused"@,
        DownloadStatus::Completed { .. } => "Completed"@,
        DownloadStatus::Failed { reason } => "Failed: "@ + reason_text(reason),
        DownloadStatus::Cancelled => "Cancelled"@,
        DownloadStatus::TimedOut => "Timeout"@,
    }
}

fn push_str(out: &mut Vec<char>, s: &str)
    ensures
        final(out)@ == old(out)@ + s@,
{
    let chars = chars_of(s);
    push_all(out, chars.as_slice());
}

fn push_percent(out: &mut Vec<char>, percent: u32)
    ensures
        final(out)@ == old(out)@ + percent_text(percent),
{
    push_decimal(out, (percent / 100) as u64);
    push_str(out, ".");
    push_decimal(out, ((percent % 100) / 10) as u64);
    push_str(out, "%");
    assert(out@ =~= old(out)@ + percent_text(percent));
}

fn push_speed(out: &mut Vec<char>, speed: u64)
    ensures
        final(out)@ == old(out)@ + speed_text(speed),
{
    push_decimal(out, speed / 1000);
    push_str(out, ".");
    push_decimal(out, (speed % 1000) / 100);
    push_decimal(out, (speed % 100) / 10);
    push_str(out, "x");
    assert(out@ =~= old(out)@ + speed_text(speed));
}

/// The text shown for `status`.
pub fn status_text(status: DownloadStatus) -> (r: String)
    ensures
        r@ == status_line(status),
{
    let mut out: Vec<char> = Vec::new();
    match status {
        DownloadStatus::Pending => push_str(&mut out, "Pending"),
        DownloadStatus::Starting { attempt } => {
            push_str(&mut out, "Starting (attempt ");
            push_decimal(&mut out, attempt as u64);
            push_str(&mut out, ")...");
        },
        DownloadStatus::Running { progress, .. } => {
            match progress.percent {
                Some(p) => push_percent(&mut out, p),
                None => push_str(&mut out, "??"),
            }
            push_str(&mut out, " - Speed: ");
            match progress.speed {
                Some(s) => push_speed(&mut out, s),
                None => push_str(&mut out, "??"),
            }
            push_str(&mut out, " - ETA: ");
            match progress.eta_seconds {
                Some(e) => {
                    push_decimal(&mut out, e);
                    push_str(&mut out, "s");
                },
                None => push_str(&mut out, "??"),
            }
        },
        DownloadStatus::Paused { .. } => push_str(&mut out, "Paused"),
        DownloadStatus::Completed { .. } => push_str(&mut out, "Completed"),
        DownloadStatus::Failed { reason } => {
            push_str(&mut out, "Failed: ");
            match reason {
                FailureReason::ExitCode(code) => {
                    push_str(&mut out, "Exit code ");
                    push_signed(&mut out, code as i64);
                },
                FailureReason::SpawnFailed => push_str(&mut out, "Spawn failed"),
                FailureReason::IoError => push_str(&mut out, "Wait failed"),
            }
        },
        DownloadStatus::Cancelled => push_str(&mut out, "Cancelled"),
        DownloadStatus::TimedOut => push_str(&mut out, "Timeout"),
    }
    assert(out@ =~= status_line(status));
    string_of(out.as_slice())
}

} // verus!
