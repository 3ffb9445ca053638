//! The dashboard loop as a state machine.
//!
//! The loop cycles through fetching, rendering and waiting until a quit key
//! ends it. The machine decides; the caller acts. It performs the [`Action`]
//! that the machine is waiting for, reports the outcome as an [`Event`] with
//! the reading of a monotonic clock in milliseconds, and gets the next action
//! back.
//!
//! A fetch is due when the tick has passed since the last fetch that brought
//! a status, and a wait for a key never lasts beyond that moment. A fetch
//! that fails never ends the loop: the last known status stays, the frame
//! shows the notice of a missing status, and the loop goes on. A failed fetch
//! does not restart the tick, so the next fetch follows the next frame
//! without a wait, until one brings a status.

use crate::frame::{frame_of, shown_model, Frame};
use crate::history::{appended, History, HistoryEntry, Sample, HISTORY_CAPACITY};
use crate::input::{asks_to_quit, wants_quit, KeyStroke};
use crate::status::{status_model, HavenStatus, StatusModel};
use vstd::prelude::*;

verus! {

/// The tick of the dashboard where the caller has no other: five seconds.
pub const TICK_MILLIS: u64 = 5000;

/// Where the loop stands.
#[derive(Clone, Copy, Debug, PartialEq, Eq, Structural)]
pub enum Phase {
    Fetching,
    Rendering,
    Waiting,
    Terminated,
}

/// What the machine asks of its caller.
#[derive(Clone, Copy, Debug, PartialEq, Eq, Structural)]
pub enum Action {
    /// Fetch the status and report `Event::Fetched`.
    Fetch,
    /// Draw the current frame and report `Event::Drawn`, or `Event::Failed`.
    Draw,
    /// Wait for a key, at most `timeout_ms`, and report `Event::Polled`, or
    /// `Event::Failed`.
    Poll { timeout_ms: u64 },
    /// Restore the terminal and leave the loop.
    Leave,
}

/// What the caller reports.
#[derive(Clone, Debug)]
pub enum Event {
    /// The fetch is over: with a status, or without one where it failed.
    Fetched(Option<HavenStatus>),
    /// The frame is on the screen.
    Drawn,
    /// The wait is over: with a key, or without one.
    Polled(Option<KeyStroke>),
    /// The terminal failed while drawing or polling.
    Failed,
}

/// The model of an [`Event`].
pub enum EventModel {
    Fetched(Option<StatusModel>),
    Drawn,
    Polled(Option<KeyStroke>),
    Failed,
}

impl View for Event {
    type V = EventModel;

    open spec fn view(&self) -> EventModel {
        match self {
            Event::Fetched(status) => EventModel::Fetched(status_model(*status)),
            Event::Drawn => EventModel::Drawn,
            Event::Polled(key) => EventModel::Polled(*key),
            Event::Failed => EventModel::Failed,
        }
    }
}

/// The model of a [`Dashboard`].
pub struct DashboardModel {
    pub phase: Phase,
    /// The last status that a fetch brought.
    pub status: Option<StatusModel>,
    /// Whether the last fetch failed.
    pub degraded: bool,
    /// Whether the terminal failed.
    pub failed: bool,
    pub history: Seq<Sample>,
    /// The tick in milliseconds.
    pub tick_ms: u64,
    /// The clock reading at the last fetch that brought a status, or at the
    /// start where none has.
    pub last_success_ms: u64,
}

/// The machine at its start: about to fetch, with nothing known.
pub open spec fn initial(tick_ms: u64, now_ms: u64) -> DashboardModel {
    DashboardModel {
        phase: Phase::Fetching,
        status: None,
        degraded: false,
        failed: false,
        history: Seq::empty(),
        tick_ms,
        last_success_ms: now_ms,
    }
}

/// The time from `since_ms` to `now_ms`, zero where the clock has not moved on.
pub open spec fn elapsed(now_ms: u64, since_ms: u64) -> nat {
    if now_ms >= since_ms {
        (now_ms - since_ms) as nat
    } else {
        0
    }
}

/// Whether the next fetch is due.
pub open spec fn tick_due(d: DashboardModel, now_ms: u64) -> bool {
    elapsed(now_ms, d.last_success_ms) >= d.tick_ms
}

/// The time left until the next fetch is due, zero where it is due.
pub open spec fn remaining(d: DashboardModel, now_ms: u64) -> nat {
    if tick_due(d, now_ms) {
        0
    } else {
        (d.tick_ms - elapsed(now_ms, d.last_success_ms)) as nat
    }
}

/// The action that the machine is waiting for. A wait for a key never lasts
/// beyond the next tick.
pub open spec fn pending_of(d: DashboardModel, now_ms: u64) -> Action {
    match d.phase {
        Phase::Fetching => Action::Fetch,
        Phase::Rendering => Action::Draw,
        Phase::Waiting => Action::Poll { timeout_ms: remaining(d, now_ms) as u64 },
        Phase::Terminated => Action::Leave,
    }
}

/// The status that the frame shows: the last known one, unless the last fetch
/// failed.
pub open spec fn shown_of(d: DashboardModel) -> Option<StatusModel> {
    if d.degraded {
        None
    } else {
        d.status
    }
}

/// The machine after an event at clock reading `now_ms`, where `label` is the
/// time of day for a new sample. An event that the phase is not waiting for
/// changes nothing.
pub open spec fn stepped(
    d: DashboardModel,
    event: EventModel,
    now_ms: u64,
    label: Seq<char>,
) -> DashboardModel {
    match (d.phase, event) {
        (Phase::Fetching, EventModel::Fetched(Some(s))) => DashboardModel {
            phase: Phase::Rendering,
            status: Some(s),
            degraded: false,
            history: appended(d.history, Sample { time: label, online: s.players.online }),
            last_success_ms: now_ms,
            ..d
        },
        (Phase::Fetching, EventModel::Fetched(None)) => DashboardModel {
            phase: Phase::Rendering,
            degraded: true,
            ..d
        },
        (Phase::Rendering, EventModel::Drawn) => DashboardModel { phase: Phase::Waiting, ..d },
        (Phase::Waiting, EventModel::Polled(key)) => if asks_to_quit(key) {
            DashboardModel { phase: Phase::Terminated, ..d }
        } else if tick_due(d, now_ms) {
            DashboardModel { phase: Phase::Fetching, ..d }
        } else {
            DashboardModel { phase: Phase::Rendering, ..d }
        },
        (Phase::Rendering, EventModel::Failed) | (Phase::Waiting, EventModel::Failed) => DashboardModel {
            phase: Phase::Terminated,
            failed: true,
            ..d
        },
        _ => d,
    }
}

/// An event as it is reported: with the clock reading, and with the time of
/// day that a new sample would bear.
pub struct Report {
    pub event: EventModel,
    pub now_ms: u64,
    pub label: Seq<char>,
}

/// The machine after a run of reports, one after the other.
pub open spec fn ran(d: DashboardModel, reports: Seq<Report>) -> DashboardModel
    decreases reports.len(),
{
    if reports.len() == 0 {
        d
    } else {
        let last = reports.last();
        stepped(ran(d, reports.drop_last()), last.event, last.now_ms, last.label)
    }
}

/// Whether an event can end a loop at all: a quit key or a failure of the
/// terminal.
pub open spec fn may_end(event: EventModel) -> bool {
    match event {
        EventModel::Polled(key) => asks_to_quit(key),
        EventModel::Failed => true,
        _ => false,
    }
}

/// The loop starts with a fetch, and nothing is drawn before the fetch is
/// over: the first frame is never one of a status that was not asked for.
pub proof fn lemma_starts_with_a_fetch(
    tick_ms: u64,
    started_ms: u64,
    event: EventModel,
    now_ms: u64,
    label: Seq<char>,
)
    ensures
        pending_of(initial(tick_ms, started_ms), now_ms) == Action::Fetch,
        !(event is Fetched) ==> stepped(initial(tick_ms, started_ms), event, now_ms, label)
            == initial(tick_ms, started_ms),
        event is Fetched ==> pending_of(
            stepped(initial(tick_ms, started_ms), event, now_ms, label),
            now_ms,
        ) == Action::Draw,
{
}

/// Whatever is reported, and in whatever order, a loop that is running
/// keeps running until a quit key or a failure of the terminal is among the
/// reports. Fetches that fail, however many, do not end it. And the history
/// stays within its capacity throughout.
pub proof fn lemma_run_ends_on_quit_or_failure_only(d: DashboardModel, reports: Seq<Report>)
    requires
        d.phase != Phase::Terminated,
        d.history.len() <= HISTORY_CAPACITY,
    ensures
        ran(d, reports).history.len() <= HISTORY_CAPACITY,
        ran(d, reports).tick_ms == d.tick_ms,
        (forall|i: int| 0 <= i < reports.len() ==> !may_end(#[trigger] reports[i].event))
            ==> ran(d, reports).phase != Phase::Terminated && ran(d, reports).failed == d.failed,
    decreases reports.len(),
{
    if reports.len() > 0 {
        let front = reports.drop_last();
        lemma_run_ends_on_quit_or_failure_only(d, front);
        assert(forall|i: int| 0 <= i < front.len() ==> front[i] == reports[i]);
    }
}

/// A fetch that fails does not end the loop. The machine goes on to render,
/// keeps the last known status and the history, and shows the notice of a
/// missing status.
pub proof fn lemma_failed_fetch_goes_on(d: DashboardModel, now_ms: u64, label: Seq<char>)
    requires
        d.phase == Phase::Fetching,
    ensures
        ({
            let after = stepped(d, EventModel::Fetched(None), now_ms, label);
            &&& after.phase == Phase::Rendering
            &&& pending_of(after, now_ms) == Action::Draw
            &&& after.status == d.status
            &&& after.history == d.history
            &&& after.degraded
            &&& shown_of(after) is None
        }),
{
}

/// After a fetch that failed the loop completes another round: the frame
/// is drawn, the wait is made, and where no quit key ends the wait the next
/// action is a fetch or a frame.
pub proof fn lemma_round_after_failed_fetch(
    d: DashboardModel,
    fetched_ms: u64,
    drawn_ms: u64,
    polled_ms: u64,
    key: Option<KeyStroke>,
    label: Seq<char>,
)
    requires
        d.phase == Phase::Fetching,
        !asks_to_quit(key),
    ensures
        ({
            let failed = stepped(d, EventModel::Fetched(None), fetched_ms, label);
            let drawn = stepped(failed, EventModel::Drawn, drawn_ms, label);
            let polled = stepped(drawn, EventModel::Polled(key), polled_ms, label);
            &&& pending_of(failed, fetched_ms) == Action::Draw
            &&& pending_of(drawn, drawn_ms) is Poll
            &&& polled.phase == Phase::Fetching || polled.phase == Phase::Rendering
            &&& polled.phase == Phase::Fetching <==> tick_due(d, polled_ms)
            &&& !polled.failed == !d.failed
        }),
{
}

/// Whether an event ends a loop that stands in `phase`: a quit key that
/// comes in while it waits, or a failure of the terminal while it draws or
/// waits.
pub open spec fn ends_loop(phase: Phase, event: EventModel) -> bool {
    match (phase, event) {
        (Phase::Waiting, EventModel::Polled(key)) => asks_to_quit(key),
        (Phase::Rendering, EventModel::Failed) | (Phase::Waiting, EventModel::Failed) => true,
        _ => false,
    }
}

/// The loop ends in these ways only: it had ended before, a quit key came
/// in while it waited, or the terminal failed while it drew or waited. No
/// outcome of a fetch ends it.
pub proof fn lemma_ends_on_quit_or_failure_only(
    d: DashboardModel,
    event: EventModel,
    now_ms: u64,
    label: Seq<char>,
)
    ensures
        stepped(d, event, now_ms, label).phase == Phase::Terminated <==> d.phase
            == Phase::Terminated || ends_loop(d.phase, event),
        event is Fetched ==> !ends_loop(d.phase, event),
        stepped(d, event, now_ms, label).failed <==> d.failed || (event is Failed && ends_loop(
            d.phase,
            event,
        )),
{
}

/// Once the loop has ended the only action left is to leave, whatever is
/// reported: the terminal is given back on every way out.
pub proof fn lemma_terminated_only_leaves(
    d: DashboardModel,
    event: EventModel,
    now_ms: u64,
    label: Seq<char>,
)
    requires
        d.phase == Phase::Terminated,
    ensures
        stepped(d, event, now_ms, label) == d,
        pending_of(d, now_ms) == Action::Leave,
        forall|e: DashboardModel, at_ms: u64|
            pending_of(e, at_ms) == Action::Leave <==> e.phase == Phase::Terminated,
{
}

/// A wait for a key is never longer than the tick, and never longer than the
/// time left until the next fetch is due.
pub proof fn lemma_wait_is_bounded(d: DashboardModel, now_ms: u64)
    requires
        d.phase == Phase::Waiting,
    ensures
        pending_of(d, now_ms) == (Action::Poll { timeout_ms: remaining(d, now_ms) as u64 }),
        remaining(d, now_ms) <= d.tick_ms,
        remaining(d, now_ms) + elapsed(now_ms, d.last_success_ms) == d.tick_ms || tick_due(
            d,
            now_ms,
        ),
        tick_due(d, now_ms) ==> remaining(d, now_ms) == 0,
{
}

/// No event takes the history beyond its capacity, and only a status that
/// comes in while the loop fetches changes it: by one sample, appended.
pub proof fn lemma_step_keeps_history_bounded(
    d: DashboardModel,
    event: EventModel,
    now_ms: u64,
    label: Seq<char>,
)
    requires
        d.history.len() <= HISTORY_CAPACITY,
    ensures
        stepped(d, event, now_ms, label).history.len() <= HISTORY_CAPACITY,
        stepped(d, event, now_ms, label).history == match event {
            EventModel::Fetched(Some(s)) => if d.phase == Phase::Fetching {
                appended(d.history, Sample { time: label, online: s.players.online })
            } else {
                d.history
            },
            _ => d.history,
        },
{
}

/// Whether `c` is a decimal digit.
pub open spec fn is_digit(c: char) -> bool {
    c == '0' || c == '1' || c == '2' || c == '3' || c == '4' || c == '5' || c == '6' || c == '7'
        || c == '8' || c == '9'
}

/// Whether `text` has the form of a time of day: hours, minutes and seconds
/// in two digits each, with colons between them.
pub open spec fn is_clock_text(text: Seq<char>) -> bool {
    &&& text.len() == 8
    &&& is_digit(text[0]) && is_digit(text[1])
    &&& text[2] == ':'
    &&& is_digit(text[3]) && is_digit(text[4])
    &&& text[5] == ':'
    &&& is_digit(text[6]) && is_digit(text[7])
}

/// The local time of day: `chrono::Local::now`, formatted by `%H:%M:%S`.
/// Which time it is depends on the clock and the time zone of the machine.
/// Its form does not: `chrono` writes hours, minutes and seconds padded with
/// zeros to two digits each, and the colons as they stand in the format.
#[verifier::external_body]
fn clock_label() -> (label: String)
    ensures
        is_clock_text(label@),
{
    chrono::Local::now().format("%H:%M:%S").to_string()
}

/// The dashboard loop.
pub struct Dashboard {
    phase: Phase,
    status: Option<HavenStatus>,
    degraded: bool,
    failed: bool,
    history: History,
    tick_ms: u64,
    last_success_ms: u64,
}

impl View for Dashboard {
    type V = DashboardModel;

    closed spec fn view(&self) -> DashboardModel {
        DashboardModel {
            phase: self.phase,
            status: status_model(self.status),
            degraded: self.degraded,
            failed: self.failed,
            history: self.history@,
            tick_ms: self.tick_ms,
            last_success_ms: self.last_success_ms,
        }
    }
}

impl Dashboard {
    /// A dashboard that fetches every `tick_ms` milliseconds, started at
    /// clock reading `now_ms`.
    pub fn new(tick_ms: u64, now_ms: u64) -> (d: Dashboard)
        ensures
            d@ == initial(tick_ms, now_ms),
    {
        Dashboard {
            phase: Phase::Fetching,
            status: None,
            degraded: false,
            failed: false,
            history: History::new(),
            tick_ms,
            last_success_ms: now_ms,
        }
    }

    /// Where the loop stands.
    pub fn phase(&self) -> (p: Phase)
        ensures
            p == self@.phase,
    {
        self.phase
    }

    /// The last status that a fetch brought, also after a later fetch failed.
    pub fn last_known(&self) -> (s: Option<&HavenStatus>)
        ensures
            shown_model(s) == self@.status,
    {
        self.status.as_ref()
    }

    /// Whether the last fetch failed.
    pub fn is_degraded(&self) -> (b: bool)
        ensures
            b == self@.degraded,
    {
        self.degraded
    }

    /// Whether the loop ended because the terminal failed.
    pub fn has_failed(&self) -> (b: bool)
        ensures
            b == self@.failed,
    {
        self.failed
    }

    /// The tick in milliseconds.
    pub fn tick_ms(&self) -> (t: u64)
        ensures
            t == self@.tick_ms,
    {
        self.tick_ms
    }

    /// The history, which is within its capacity in every state.
    pub fn history(&self) -> (h: &History)
        ensures
            h@ == self@.history,
            h@.len() <= HISTORY_CAPACITY,
    {
        // The bound comes with the length.
        let _: usize = self.history.len();
        &self.history
    }

    /// The action that the machine is waiting for.
    pub fn pending(&self, now_ms: u64) -> (action: Action)
        ensures
            action == pending_of(self@, now_ms),
    {
        match self.phase {
            Phase::Fetching => Action::Fetch,
            Phase::Rendering => Action::Draw,
            Phase::Waiting => {
                let gone: u64 = if now_ms >= self.last_success_ms {
                    now_ms - self.last_success_ms
                } else {
                    0
                };
                let left: u64 = if gone >= self.tick_ms {
                    0
                } else {
                    self.tick_ms - gone
                };
                Action::Poll { timeout_ms: left }
            },
            Phase::Terminated => Action::Leave,
        }
    }

    /// Takes an event at clock reading `now_ms`; `label` is the time of day
    /// for the sample that a fetched status adds to the history. Returns the
    /// action to perform next.
    pub fn advance(&mut self, event: Event, now_ms: u64, label: String) -> (action: Action)
        ensures
            final(self)@ == stepped(old(self)@, event@, now_ms, label@),
            action == pending_of(final(self)@, now_ms),
    {
        match self.phase {
            Phase::Fetching => match event {
                Event::Fetched(Some(status)) => {
                    let entry = HistoryEntry { time: label, online: status.players.online };
                    self.history.push(entry);
                    self.status = Some(status);
                    self.degraded = false;
                    self.last_success_ms = now_ms;
                    self.phase = Phase::Rendering;
                },
                Event::Fetched(None) => {
                    self.degraded = true;
                    self.phase = Phase::Rendering;
                },
                _ => {},
            },
            Phase::Rendering => match event {
                Event::Drawn => {
                    self.phase = Phase::Waiting;
                },
                Event::Failed => {
                    self.failed = true;
                    self.phase = Phase::Terminated;
                },
                _ => {},
            },
            Phase::Waiting => match event {
                Event::Polled(key) => {
                    if wants_quit(&key) {
                        self.phase = Phase::Terminated;
                    } else if self.due(now_ms) {
                        self.phase = Phase::Fetching;
                    } else {
                        self.phase = Phase::Rendering;
                    }
                },
                Event::Failed => {
                    self.failed = true;
                    self.phase = Phase::Terminated;
                },
                _ => {},
            },
            Phase::Terminated => {},
        }
        self.pending(now_ms)
    }

    /// Takes an event at clock reading `now_ms` and returns the action to
    /// perform next. The sample that a fetched status adds to the history
    /// bears the local time of day.
    pub fn step(&mut self, event: Event, now_ms: u64) -> (action: Action)
        ensures
            exists|label: Seq<char>|
                is_clock_text(label) && final(self)@ == stepped(
                    old(self)@,
                    event@,
                    now_ms,
                    label,
                ),
            action == pending_of(final(self)@, now_ms),
    {
        let label: String = clock_label();
        self.advance(event, now_ms, label)
    }

    fn due(&self, now_ms: u64) -> (b: bool)
        ensures
            b == tick_due(self@, now_ms),
    {
        let gone: u64 = if now_ms >= self.last_success_ms {
            now_ms - self.last_success_ms
        } else {
            0
        };
        gone >= self.tick_ms
    }

    /// The frame to draw: the last known status, or the notice of a missing
    /// one after a failed fetch, and the history.
    pub fn frame(&self) -> (frame: Frame)
        ensures
            frame@ == frame_of(shown_of(self@), self@.history),
    {
        if self.degraded {
            Frame::of(None, &self.history)
        } else {
            Frame::of(self.status.as_ref(), &self.history)
        }
    }
}

} // verus!
