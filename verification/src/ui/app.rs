//! Application state and input handling for the terminal interface.

use vstd::prelude::*;

use crate::ui::LogLine;
use std::collections::VecDeque;

verus! {

/// Number of log lines kept in the local display history.
pub const LOG_HISTORY: usize = 1000;

/// Tabs available in the interface.
pub const TAB_TITLES: [&'static str; 2] = ["Main", "Logs"];

/// Focusable control on the main tab.
#[derive(Clone, Copy, Debug, PartialEq, Eq, Structural)]
pub enum Focus {
    Threshold,
    Bypass,
    Timeout,
    DFN,
}

impl Focus {
    /// Position of the control in the left-to-right order of the main tab.
    pub open spec fn position(self) -> int {
        match self {
            Focus::Threshold => 0,
            Focus::Bypass => 1,
            Focus::Timeout => 2,
            Focus::DFN => 3,
        }
    }

    /// The control at a given position, counted modulo the number of controls.
    pub open spec fn at_position(p: int) -> Focus {
        let q = p % 4;
        if q == 0 {
            Focus::Threshold
        } else if q == 1 {
            Focus::Bypass
        } else if q == 2 {
            Focus::Timeout
        } else {
            Focus::DFN
        }
    }

    /// The control to the right of this one, the last wrapping to the first.
    pub open spec fn right(self) -> Focus {
        Focus::at_position(self.position() + 1)
    }

    /// The control to the left of this one, the first wrapping to the last.
    pub open spec fn left(self) -> Focus {
        Focus::at_position(self.position() - 1)
    }

    /// The control to the right, wrapping from the last to the first.
    pub fn next(self) -> (r: Focus)
        ensures
            r == self.right(),
    {
        match self {
            Focus::Threshold => Focus::Bypass,
            Focus::Bypass => Focus::Timeout,
            Focus::Timeout => Focus::DFN,
            Focus::DFN => Focus::Threshold,
        }
    }

    /// The control to the left, wrapping from the first to the last.
    pub fn previous(self) -> (r: Focus)
        ensures
            r == self.left(),
    {
        match self {
            Focus::Threshold => Focus::DFN,
            Focus::Bypass => Focus::Threshold,
            Focus::Timeout => Focus::Bypass,
            Focus::DFN => Focus::Timeout,
        }
    }
}

/// Moving focus right then left, or left then right, returns to the same
/// control.
pub proof fn lemma_focus_moves_undo(f: Focus)
    ensures
        f.right().left() == f,
        f.left().right() == f,
{
}

/// Moving focus right visits all four controls and comes back after four
/// steps; the same holds to the left.
pub proof fn lemma_focus_cycle(f: Focus)
    ensures
        f.right().right().right().right() == f,
        f.left().left().left().left() == f,
        f != f.right(),
        f != f.right().right(),
        f != f.right().right().right(),
        f.right() != f.right().right(),
        f.right() != f.right().right().right(),
        f.right().right() != f.right().right().right(),
{
}

/// A change that a key press asks of the shared controls.
#[derive(Clone, Copy, Debug, PartialEq, Eq, Structural)]
pub enum Adjustment {
    /// Raise the SNR threshold by one step.
    RaiseThreshold,
    /// Lower the SNR threshold by one step.
    LowerThreshold,
    /// Lengthen the silence timeout by one step.
    RaiseTimeout,
    /// Shorten the silence timeout by one step.
    LowerTimeout,
    /// Flip the threshold bypass.
    ToggleBypass,
    /// Flip the noise suppression.
    ToggleDenoise,
}

/// What the Up key asks of the control that has focus.
pub open spec fn up_adjustment(f: Focus) -> Adjustment {
    match f {
        Focus::Threshold => Adjustment::RaiseThreshold,
        Focus::Timeout => Adjustment::RaiseTimeout,
        Focus::Bypass => Adjustment::ToggleBypass,
        Focus::DFN => Adjustment::ToggleDenoise,
    }
}

/// What the Down key asks of the control that has focus.
pub open spec fn down_adjustment(f: Focus) -> Adjustment {
    match f {
        Focus::Threshold => Adjustment::LowerThreshold,
        Focus::Timeout => Adjustment::LowerTimeout,
        Focus::Bypass => Adjustment::ToggleBypass,
        Focus::DFN => Adjustment::ToggleDenoise,
    }
}

/// What Space or Enter asks of the control that has focus: only the two
/// check boxes react.
pub open spec fn toggle_adjustment(f: Focus) -> Option<Adjustment> {
    match f {
        Focus::Bypass => Some(Adjustment::ToggleBypass),
        Focus::DFN => Some(Adjustment::ToggleDenoise),
        _ => None,
    }
}

/// The adjustment that undoes the direction of another one.
pub open spec fn opposite(a: Adjustment) -> Adjustment {
    match a {
        Adjustment::RaiseThreshold => Adjustment::LowerThreshold,
        Adjustment::LowerThreshold => Adjustment::RaiseThreshold,
        Adjustment::RaiseTimeout => Adjustment::LowerTimeout,
        Adjustment::LowerTimeout => Adjustment::RaiseTimeout,
        Adjustment::ToggleBypass => Adjustment::ToggleBypass,
        Adjustment::ToggleDenoise => Adjustment::ToggleDenoise,
    }
}

/// Up and Down move the focused control in opposite directions; on a check
/// box both flip it, as Space and Enter do.
pub proof fn lemma_up_down_opposite(f: Focus)
    ensures
        down_adjustment(f) == opposite(up_adjustment(f)),
        up_adjustment(f) == opposite(down_adjustment(f)),
        toggle_adjustment(f) matches Some(a) ==> a == up_adjustment(f) && a == down_adjustment(f),
{
}

/// The history after one more line arrives: when it already holds
/// `LOG_HISTORY` lines, the oldest one is dropped first.
pub open spec fn record_line(history: Seq<LogLine>, line: LogLine) -> Seq<LogLine> {
    if history.len() == LOG_HISTORY {
        history.drop_first().push(line)
    } else {
        history.push(line)
    }
}

/// The history after the given lines arrive, in order.
pub open spec fn record_lines(history: Seq<LogLine>, lines: Seq<LogLine>) -> Seq<LogLine>
    decreases lines.len(),
{
    if lines.len() == 0 {
        history
    } else {
        record_line(record_lines(history, lines.drop_last()), lines.last())
    }
}

/// The most recent `LOG_HISTORY` lines of a stream of lines (all of them
/// when there are fewer).
pub open spec fn latest_lines(lines: Seq<LogLine>) -> Seq<LogLine> {
    if lines.len() <= LOG_HISTORY {
        lines
    } else {
        lines.subrange(lines.len() - LOG_HISTORY, lines.len() as int)
    }
}

/// The display history keeps exactly the most recent `LOG_HISTORY` lines of
/// everything it has seen, and never grows past that bound: a history of at
/// most `LOG_HISTORY` lines, after any batch of new lines, equals the latest
/// `LOG_HISTORY` lines of the old history followed by the batch.
pub proof fn lemma_history_keeps_latest(history: Seq<LogLine>, lines: Seq<LogLine>)
    requires
        history.len() <= LOG_HISTORY,
    ensures
        record_lines(history, lines) == latest_lines(history + lines),
        record_lines(history, lines).len() <= LOG_HISTORY,
    decreases lines.len(),
{
    if lines.len() == 0 {
        assert(history + lines == history);
    } else {
        let rest = lines.drop_last();
        let x = lines.last();
        lemma_history_keeps_latest(history, rest);
        let before = history + rest;
        let all = history + lines;
        assert(all == before.push(x));
        if before.len() < LOG_HISTORY {
            assert(record_lines(history, lines) == before.push(x));
        } else {
            let kept = before.subrange(before.len() - LOG_HISTORY, before.len() as int);
            assert(kept.drop_first().push(x) == all.subrange(
                all.len() - LOG_HISTORY,
                all.len() as int,
            ));
        }
    }
}

/// State of the terminal interface.
pub struct App {
    pub tab_index: usize,
    pub focus: Focus,
    pub should_quit: bool,
    /// Local, render-only copy of recent log lines.
    pub logs: VecDeque<LogLine>,
}

impl App {
    pub fn new() -> (r: App)
        ensures
            r.tab_index == 0,
            r.focus == Focus::Threshold,
            !r.should_quit,
            r.logs@ == Seq::<LogLine>::empty(),
    {
        App {
            tab_index: 0,
            focus: Focus::Threshold,
            should_quit: false,
            logs: VecDeque::with_capacity(LOG_HISTORY),
        }
    }

    /// Switch to the next tab (Tab key).
    pub fn on_tab(&mut self)
        requires
            old(self).tab_index < usize::MAX,
        ensures
            final(self).tab_index == (old(self).tab_index + 1) % 2,
            final(self).focus == old(self).focus,
            final(self).should_quit == old(self).should_quit,
            final(self).logs@ == old(self).logs@,
    {
        self.tab_index = (self.tab_index + 1) % TAB_TITLES.len();
    }

    /// Move focus to the previous control (Left key).
    pub fn on_left(&mut self)
        ensures
            final(self).focus == old(self).focus.left(),
            final(self).tab_index == old(self).tab_index,
            final(self).should_quit == old(self).should_quit,
            final(self).logs@ == old(self).logs@,
    {
        self.focus = self.focus.previous();
    }

    /// Move focus to the next control (Right key).
    pub fn on_right(&mut self)
        ensures
            final(self).focus == old(self).focus.right(),
            final(self).tab_index == old(self).tab_index,
            final(self).should_quit == old(self).should_quit,
            final(self).logs@ == old(self).logs@,
    {
        self.focus = self.focus.next();
    }

    /// Increase the focused control's value (Up key): returns the change that
    /// the shared controls are to make.
    pub fn on_up(&mut self) -> (r: Adjustment)
        ensures
            r == up_adjustment(old(self).focus),
            *final(self) == *old(self),
    {
        match self.focus {
            Focus::Threshold => Adjustment::RaiseThreshold,
            Focus::Timeout => Adjustment::RaiseTimeout,
            Focus::Bypass => Adjustment::ToggleBypass,
            Focus::DFN => Adjustment::ToggleDenoise,
        }
    }

    /// Decrease the focused control's value (Down key): returns the change
    /// that the shared controls are to make.
    pub fn on_down(&mut self) -> (r: Adjustment)
        ensures
            r == down_adjustment(old(self).focus),
            *final(self) == *old(self),
    {
        match self.focus {
            Focus::Threshold => Adjustment::LowerThreshold,
            Focus::Timeout => Adjustment::LowerTimeout,
            Focus::Bypass => Adjustment::ToggleBypass,
            Focus::DFN => Adjustment::ToggleDenoise,
        }
    }

    /// Toggle the focused check box (Space/Enter); other controls ignore it.
    pub fn on_toggle(&mut self) -> (r: Option<Adjustment>)
        ensures
            r == toggle_adjustment(old(self).focus),
            *final(self) == *old(self),
    {
        if self.focus == Focus::Bypass {
            Some(Adjustment::ToggleBypass)
        } else if self.focus == Focus::DFN {
            Some(Adjustment::ToggleDenoise)
        } else {
            None
        }
    }

    /// Request application exit (Ctrl-C / `q`).
    pub fn quit(&mut self)
        ensures
            final(self).should_quit,
            final(self).tab_index == old(self).tab_index,
            final(self).focus == old(self).focus,
            final(self).logs@ == old(self).logs@,
    {
        self.should_quit = true;
    }

    /// Drain freshly captured log lines into the local display history.
    pub fn on_tick(&mut self, lines: Vec<LogLine>)
        ensures
            final(self).logs@ == record_lines(old(self).logs@, lines@),
            final(self).tab_index == old(self).tab_index,
            final(self).focus == old(self).focus,
            final(self).should_quit == old(self).should_quit,
    {
        let ghost start = self.logs@;
        let ghost all = lines@;
        for line in it: lines.into_iter()
            invariant
                it.seq() == all,
                self.logs@ == record_lines(start, all.take(it.index() as int)),
                self.tab_index == old(self).tab_index,
                self.focus == old(self).focus,
                self.should_quit == old(self).should_quit,
        {
            assert(all.take(it.index() + 1).drop_last() == all.take(it.index() as int));
            if self.logs.len() == LOG_HISTORY {
                self.logs.pop_front();
            }
            self.logs.push_back(line);
        }
        assert(all.take(all.len() as int) == all);
    }
}

} // verus!
