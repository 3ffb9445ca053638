//! Running a command once, or again and again at an interval.
//!
//! With `--watch` the selected command is repeated until a quit key comes in
//! during the wait between two runs. The interval is given in seconds; one
//! below two seconds is raised to two, and `--watch` without a number means
//! five. A run that fails does not end the watch. Without `--watch` the
//! command runs once, and its failure is the failure of the program.

use crate::input::{asks_to_quit, wants_quit, KeyStroke};
use crate::style::{styled, Line, Span, Styled, Tone};
use crate::text::{decimal, decimal_text, join2};
use vstd::prelude::*;
use vstd::string::*;

verus! {

/// The interval of `--watch` without a number, in seconds.
pub const DEFAULT_INTERVAL_SECS: u64 = 5;

/// The shortest interval, in seconds.
pub const MIN_INTERVAL_SECS: u64 = 2;

/// The larger of a requested interval and the shortest one.
pub open spec fn clamped(secs: u64) -> u64 {
    if secs < MIN_INTERVAL_SECS {
        MIN_INTERVAL_SECS
    } else {
        secs
    }
}

/// The interval that a `--watch` argument stands for: zero, which means a
/// single run, where the flag is missing.
pub open spec fn interval_of(watch: Option<Option<u64>>) -> u64 {
    match watch {
        None => 0,
        Some(None) => DEFAULT_INTERVAL_SECS,
        Some(Some(secs)) => clamped(secs),
    }
}

/// The interval in seconds for a `--watch` argument: the outer option is the
/// flag, the inner one its number.
pub fn effective_interval(watch: Option<Option<u64>>) -> (secs: u64)
    ensures
        secs == interval_of(watch),
        watch is None <==> secs == 0,
        watch is Some ==> secs >= MIN_INTERVAL_SECS,
{
    match watch {
        None => 0,
        Some(None) => DEFAULT_INTERVAL_SECS,
        Some(Some(secs)) => if secs < MIN_INTERVAL_SECS {
            MIN_INTERVAL_SECS
        } else {
            secs
        },
    }
}

/// Where the watch stands.
#[derive(Clone, Copy, Debug, PartialEq, Eq, Structural)]
pub enum WatchPhase {
    Running,
    Waiting,
    Stopped,
}

/// What the watch asks of its caller.
#[derive(Clone, Copy, Debug, PartialEq, Eq, Structural)]
pub enum WatchAction {
    /// Run the command and report `WatchEvent::Ran`.
    Run,
    /// Wait for a key, at most `secs` seconds, and report
    /// `WatchEvent::Polled`, or `WatchEvent::Failed`.
    Poll { secs: u64 },
    /// Leave the loop.
    Stop,
}

/// What the caller reports.
#[derive(Clone, Copy, Debug)]
pub enum WatchEvent {
    /// The command has run; `failed` where it ended in an error.
    Ran { failed: bool },
    /// The wait is over: with a key, or without one.
    Polled(Option<KeyStroke>),
    /// The terminal failed while clearing the screen or polling.
    Failed,
}

/// The model of a [`WatchLoop`].
pub struct WatchModel {
    pub phase: WatchPhase,
    /// The interval in seconds; zero for a single run.
    pub interval_secs: u64,
    /// Whether the program is to end in failure.
    pub failed: bool,
}

/// The watch at its start.
pub open spec fn watch_start(watch: Option<Option<u64>>) -> WatchModel {
    WatchModel { phase: WatchPhase::Running, interval_secs: interval_of(watch), failed: false }
}

/// The action that the watch is waiting for.
pub open spec fn watch_pending(w: WatchModel) -> WatchAction {
    match w.phase {
        WatchPhase::Running => WatchAction::Run,
        WatchPhase::Waiting => WatchAction::Poll { secs: w.interval_secs },
        WatchPhase::Stopped => WatchAction::Stop,
    }
}

/// The watch after an event. An event that the phase is not waiting for
/// changes nothing.
pub open spec fn watch_stepped(w: WatchModel, event: WatchEvent) -> WatchModel {
    match (w.phase, event) {
        (WatchPhase::Running, WatchEvent::Ran { failed }) => if w.interval_secs == 0 {
            WatchModel { phase: WatchPhase::Stopped, failed, ..w }
        } else {
            WatchModel { phase: WatchPhase::Waiting, ..w }
        },
        (WatchPhase::Waiting, WatchEvent::Polled(key)) => if asks_to_quit(key) {
            WatchModel { phase: WatchPhase::Stopped, ..w }
        } else {
            WatchModel { phase: WatchPhase::Running, ..w }
        },
        (WatchPhase::Running, WatchEvent::Failed) | (WatchPhase::Waiting, WatchEvent::Failed) => WatchModel {
            phase: WatchPhase::Stopped,
            failed: true,
            ..w
        },
        _ => w,
    }
}

/// While a command is watched, a run that fails does not end the watch: the
/// wait follows, and where no quit key ends the wait the command runs again.
pub proof fn lemma_failed_run_goes_on(w: WatchModel, key: Option<KeyStroke>)
    requires
        w.phase == WatchPhase::Running,
        w.interval_secs > 0,
        !asks_to_quit(key),
    ensures
        ({
            let ran = watch_stepped(w, WatchEvent::Ran { failed: true });
            let polled = watch_stepped(ran, WatchEvent::Polled(key));
            &&& watch_pending(ran) == (WatchAction::Poll { secs: w.interval_secs })
            &&& ran.failed == w.failed
            &&& watch_pending(polled) == WatchAction::Run
            &&& polled.failed == w.failed
        }),
{
}

/// The interval is the larger of what was asked for and the shortest one;
/// `--watch` without a number means the default, and no `--watch` means a
/// single run.
pub proof fn lemma_interval_is_clamped(secs: u64)
    ensures
        interval_of(Some(Some(secs))) >= secs,
        interval_of(Some(Some(secs))) >= MIN_INTERVAL_SECS,
        interval_of(Some(Some(secs))) == secs || interval_of(Some(Some(secs)))
            == MIN_INTERVAL_SECS,
        interval_of(Some(None)) == DEFAULT_INTERVAL_SECS,
        interval_of(None) == 0,
{
}

/// The line above each run of a watched command: the interval and how to
/// quit, with an empty line after it.
pub open spec fn watch_banner_of(interval_secs: u64) -> Seq<Styled> {
    seq![
        styled(Tone::Blue, ">>"@),
        styled(
            Tone::Plain,
            " "@ + decimal(interval_secs as nat) + "秒おきに監視中... (Qキーで終了)\n"@,
        ),
    ]
}

/// The line for a run that failed while the command is watched.
pub open spec fn watch_error_of(reason: Seq<char>) -> Seq<Styled> {
    seq![styled(Tone::Red, "!!"@), styled(Tone::Plain, " エラー: "@ + reason)]
}

/// Whether a watch says farewell: it watched, and a quit key stopped it.
pub open spec fn says_farewell(w: WatchModel) -> bool {
    w.phase == WatchPhase::Stopped && w.interval_secs > 0 && !w.failed
}

/// The line that ends a watch, after an empty line.
pub open spec fn watch_farewell_of() -> Seq<Styled> {
    seq![styled(Tone::Plain, "\n"@), styled(Tone::Yellow, "監視を終了しました。"@)]
}

/// The line above each run of a watched command.
pub fn watch_banner(interval_secs: u64) -> (line: Line)
    ensures
        line@ == watch_banner_of(interval_secs),
{
    let mut text: String = String::from_str(" ");
    let secs: String = decimal_text(interval_secs);
    text.append(secs.as_str());
    text.append("秒おきに監視中... (Qキーで終了)\n");
    let mut line: Line = Line::of(Span::new(Tone::Blue, ">>"));
    line.push(Span::owned(text));
    line
}

/// The line for a run that failed while the command is watched.
pub fn watch_error(reason: &str) -> (line: Line)
    ensures
        line@ == watch_error_of(reason@),
{
    let mut line: Line = Line::of(Span::new(Tone::Red, "!!"));
    line.push(Span::owned(join2(" エラー: ", reason)));
    line
}

/// The line that ends a watch.
pub fn watch_farewell() -> (line: Line)
    ensures
        line@ == watch_farewell_of(),
{
    let mut line: Line = Line::of(Span::plain("\n"));
    line.push(Span::new(Tone::Yellow, "監視を終了しました。"));
    line
}

/// The watch loop, or the single run where no watch was asked for.
pub struct WatchLoop {
    phase: WatchPhase,
    interval_secs: u64,
    failed: bool,
}

impl View for WatchLoop {
    type V = WatchModel;

    closed spec fn view(&self) -> WatchModel {
        WatchModel { phase: self.phase, interval_secs: self.interval_secs, failed: self.failed }
    }
}

impl WatchLoop {
    /// The loop for a `--watch` argument.
    pub fn new(watch: Option<Option<u64>>) -> (w: WatchLoop)
        ensures
            w@ == watch_start(watch),
    {
        WatchLoop {
            phase: WatchPhase::Running,
            interval_secs: effective_interval(watch),
            failed: false,
        }
    }

    /// Where the loop stands.
    pub fn phase(&self) -> (p: WatchPhase)
        ensures
            p == self@.phase,
    {
        self.phase
    }

    /// The interval in seconds; zero for a single run.
    pub fn interval_secs(&self) -> (secs: u64)
        ensures
            secs == self@.interval_secs,
    {
        self.interval_secs
    }

    /// Whether the command is repeated.
    pub fn is_watching(&self) -> (b: bool)
        ensures
            b == (self@.interval_secs > 0),
    {
        self.interval_secs > 0
    }

    /// Whether the program is to end in failure.
    pub fn has_failed(&self) -> (b: bool)
        ensures
            b == self@.failed,
    {
        self.failed
    }

    /// The line above a run: the banner where the command is watched, none
    /// for a single run. Where there is one, the screen is cleared first.
    pub fn banner(&self) -> (line: Option<Line>)
        ensures
            line is Some <==> self@.interval_secs > 0,
            line is Some ==> line.unwrap()@ == watch_banner_of(self@.interval_secs),
    {
        if self.interval_secs > 0 {
            Some(watch_banner(self.interval_secs))
        } else {
            None
        }
    }

    /// The line for a run that failed: where the command is watched the
    /// failure is printed and the watch goes on; a single run has no line,
    /// and its failure is that of the program.
    pub fn failure_line(&self, reason: &str) -> (line: Option<Line>)
        ensures
            line is Some <==> self@.interval_secs > 0,
            line is Some ==> line.unwrap()@ == watch_error_of(reason@),
    {
        if self.interval_secs > 0 {
            Some(watch_error(reason))
        } else {
            None
        }
    }

    /// The farewell, where the loop has one to say: after a watch that a quit
    /// key stopped.
    pub fn closing_line(&self) -> (line: Option<Line>)
        ensures
            line is Some <==> says_farewell(self@),
            line is Some ==> line.unwrap()@ == watch_farewell_of(),
    {
        match self.phase {
            WatchPhase::Stopped => if self.interval_secs > 0 && !self.failed {
                Some(watch_farewell())
            } else {
                None
            },
            _ => None,
        }
    }

    /// The action that the loop is waiting for.
    pub fn pending(&self) -> (action: WatchAction)
        ensures
            action == watch_pending(self@),
    {
        match self.phase {
            WatchPhase::Running => WatchAction::Run,
            WatchPhase::Waiting => WatchAction::Poll { secs: self.interval_secs },
            WatchPhase::Stopped => WatchAction::Stop,
        }
    }

    /// Takes an event and returns the action to perform next.
    pub fn step(&mut self, event: WatchEvent) -> (action: WatchAction)
        ensures
            final(self)@ == watch_stepped(old(self)@, event),
            action == watch_pending(final(self)@),
    {
        match self.phase {
            WatchPhase::Running => match event {
                WatchEvent::Ran { failed } => {
                    if self.interval_secs == 0 {
                        self.failed = failed;
                        self.phase = WatchPhase::Stopped;
                    } else {
                        self.phase = WatchPhase::Waiting;
                    }
                },
                WatchEvent::Failed => {
                    self.failed = true;
                    self.phase = WatchPhase::Stopped;
                },
                _ => {},
            },
            WatchPhase::Waiting => match event {
                WatchEvent::Polled(key) => {
                    if wants_quit(&key) {
                        self.phase = WatchPhase::Stopped;
                    } else {
                        self.phase = WatchPhase::Running;
                    }
                },
                WatchEvent::Failed => {
                    self.failed = true;
                    self.phase = WatchPhase::Stopped;
                },
                _ => {},
            },
            WatchPhase::Stopped => {},
        }
        self.pending()
    }
}

} // verus!
