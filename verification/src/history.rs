//! The rolling history of player counts behind the activity panel.
//!
//! At most [`HISTORY_CAPACITY`] samples are kept, oldest first. A sample that
//! arrives at a full history pushes the oldest one out.

use crate::text::{decimal, decimal_text};
use std::collections::VecDeque;
use vstd::prelude::*;
use vstd::string::*;

verus! {

/// How many samples the history keeps.
pub const HISTORY_CAPACITY: usize = 50;

/// One sample: how many players were online, and when.
#[derive(Clone, Debug)]
pub struct HistoryEntry {
    pub time: String,
    pub online: u32,
}

/// The model of a [`HistoryEntry`].
pub struct Sample {
    pub time: Seq<char>,
    pub online: u32,
}

impl View for HistoryEntry {
    type V = Sample;

    open spec fn view(&self) -> Sample {
        Sample { time: self.time@, online: self.online }
    }
}

impl DeepView for HistoryEntry {
    type V = Sample;

    open spec fn deep_view(&self) -> Sample {
        self@
    }
}

/// A history after one more item: the item comes last, and at a full
/// history the oldest item leaves.
pub open spec fn appended<A>(history: Seq<A>, item: A) -> Seq<A> {
    if history.len() >= HISTORY_CAPACITY {
        history.drop_first().push(item)
    } else {
        history.push(item)
    }
}

/// A history after the items of `items`, one after the other.
pub open spec fn appended_all<A>(history: Seq<A>, items: Seq<A>) -> Seq<A>
    decreases items.len(),
{
    if items.len() == 0 {
        history
    } else {
        appended(appended_all(history, items.drop_last()), items.last())
    }
}

/// The last `n` items of `s`, all of them where it has no more.
pub open spec fn latest<A>(s: Seq<A>, n: nat) -> Seq<A> {
    if s.len() <= n {
        s
    } else {
        s.subrange(s.len() - n, s.len() as int)
    }
}

/// Appending to a history that is within its capacity keeps the latest
/// `HISTORY_CAPACITY` items of all that it has seen, in their order.
pub proof fn lemma_appended_all_is_latest<A>(history: Seq<A>, items: Seq<A>)
    requires
        history.len() <= HISTORY_CAPACITY,
    ensures
        appended_all(history, items) == latest(history + items, HISTORY_CAPACITY as nat),
    decreases items.len(),
{
    if items.len() > 0 {
        lemma_appended_all_is_latest(history, items.drop_last());
    }
}

/// After any run of appends to an empty history its length is the smaller of
/// the number of appends and the capacity, and it holds the latest of the
/// appended items, oldest first.
pub proof fn lemma_history_of_appends<A>(items: Seq<A>)
    ensures
        appended_all(Seq::<A>::empty(), items).len() == if items.len() <= HISTORY_CAPACITY {
            items.len()
        } else {
            HISTORY_CAPACITY as nat
        },
        appended_all(Seq::<A>::empty(), items) == latest(items, HISTORY_CAPACITY as nat),
        forall|i: int|
            0 <= i < appended_all(Seq::<A>::empty(), items).len() ==> appended_all(
                Seq::<A>::empty(),
                items,
            )[i] == items[items.len() - appended_all(Seq::<A>::empty(), items).len() + i],
{
    lemma_appended_all_is_latest(Seq::<A>::empty(), items);
}

/// The largest count among the samples, zero where there is none.
pub open spec fn peak_of(samples: Seq<Sample>) -> nat
    decreases samples.len(),
{
    if samples.len() == 0 {
        0
    } else {
        let rest = peak_of(samples.drop_last());
        if rest >= samples.last().online {
            rest
        } else {
            samples.last().online as nat
        }
    }
}

/// The upper end of the activity scale for a given peak.
pub open spec fn scale_of(peak: nat) -> nat {
    if peak < 10 {
        10
    } else {
        peak + 5
    }
}

/// The log line of one sample.
pub open spec fn log_line(sample: Sample) -> Seq<char> {
    " ["@ + sample.time + "] "@ + decimal(sample.online as nat) + " players"@
}

/// The peak is a bound on every sample, and some sample reaches it.
pub proof fn lemma_peak_of(samples: Seq<Sample>)
    ensures
        forall|i: int| 0 <= i < samples.len() ==> samples[i].online <= peak_of(samples),
        samples.len() > 0 ==> exists|i: int|
            0 <= i < samples.len() && samples[i].online == peak_of(samples),
        peak_of(samples) <= u32::MAX,
    decreases samples.len(),
{
    if samples.len() > 0 {
        let front = samples.drop_last();
        lemma_peak_of(front);
        assert forall|i: int| 0 <= i < samples.len() implies samples[i].online <= peak_of(
            samples,
        ) by {
            if i < front.len() {
                assert(front[i] == samples[i]);
            }
        }
        if peak_of(front) >= samples.last().online && front.len() > 0 {
            let i = choose|i: int| 0 <= i < front.len() && front[i].online == peak_of(front);
            assert(samples[i] == front[i]);
        } else {
            assert(samples[samples.len() - 1].online == peak_of(samples));
        }
    }
}

/// The bounded history.
pub struct History {
    entries: VecDeque<HistoryEntry>,
}

impl View for History {
    type V = Seq<Sample>;

    closed spec fn view(&self) -> Seq<Sample> {
        self.entries.deep_view()
    }
}

impl History {
    #[verifier::type_invariant]
    spec fn within_capacity(self) -> bool {
        self.entries@.len() <= HISTORY_CAPACITY
    }

    /// A history without samples.
    pub fn new() -> (h: History)
        ensures
            h@ == Seq::<Sample>::empty(),
    {
        History { entries: VecDeque::with_capacity(HISTORY_CAPACITY) }
    }

    /// How many samples the history holds: never more than its capacity.
    pub fn len(&self) -> (n: usize)
        ensures
            n == self@.len(),
            n <= HISTORY_CAPACITY,
    {
        proof {
            use_type_invariant(self);
        }
        self.entries.len()
    }

    /// Whether the history holds no sample.
    pub fn is_empty(&self) -> (b: bool)
        ensures
            b == (self@.len() == 0),
    {
        self.entries.len() == 0
    }

    /// The sample at `index`, counted from the oldest.
    pub fn get(&self, index: usize) -> (e: Option<&HistoryEntry>)
        ensures
            index < self@.len() ==> e.is_some() && e.unwrap()@ == self@[index as int],
            index >= self@.len() ==> e.is_none(),
    {
        if index < self.entries.len() {
            Some(&self.entries[index])
        } else {
            None
        }
    }

    fn with(self, entry: HistoryEntry) -> (h: History)
        ensures
            h@ == appended(self@, entry@),
    {
        proof {
            use_type_invariant(&self);
        }
        let mut entries: VecDeque<HistoryEntry> = self.entries;
        if entries.len() >= HISTORY_CAPACITY {
            entries.pop_front();
        }
        entries.push_back(entry);
        History { entries }
    }

    /// Appends a sample; at a full history the oldest sample leaves.
    pub fn push(&mut self, entry: HistoryEntry)
        ensures
            final(self)@ == appended(old(self)@, entry@),
            final(self)@.len() <= HISTORY_CAPACITY,
    {
        let mut prior: History = History::new();
        core::mem::swap(self, &mut prior);
        *self = prior.with(entry);
        proof {
            use_type_invariant(&*self);
        }
    }

    /// The counts of the samples, oldest first.
    pub fn counts(&self) -> (data: Vec<u64>)
        ensures
            data@ == self@.map_values(|s: Sample| s.online as u64),
    {
        let mut data: Vec<u64> = Vec::new();
        let mut i: usize = 0;
        while i < self.entries.len()
            invariant
                i <= self.entries.len(),
                data@ == self@.take(i as int).map_values(|s: Sample| s.online as u64),
            decreases self.entries.len() - i,
        {
            data.push(self.entries[i].online as u64);
            i = i + 1;
        }
        data
    }

    /// The largest count in the history, zero where it is empty.
    pub fn peak(&self) -> (p: u64)
        ensures
            p == peak_of(self@),
    {
        let mut p: u64 = 0;
        let mut i: usize = 0;
        while i < self.entries.len()
            invariant
                i <= self.entries.len(),
                p == peak_of(self@.take(i as int)),
            decreases self.entries.len() - i,
        {
            let c: u64 = self.entries[i].online as u64;
            assert(self@.take(i as int + 1).drop_last() =~= self@.take(i as int));
            if c > p {
                p = c;
            }
            i = i + 1;
        }
        assert(self@.take(i as int) =~= self@);
        p
    }

    /// The upper end of the activity scale: ten for a quiet server, else five
    /// above the peak.
    pub fn scale(&self) -> (m: u64)
        ensures
            m == scale_of(peak_of(self@)),
    {
        let p: u64 = self.peak();
        proof {
            lemma_peak_of(self@);
        }
        if p < 10 {
            10
        } else {
            p + 5
        }
    }

    /// The log of the history, newest sample first.
    pub fn log_lines(&self) -> (lines: Vec<String>)
        ensures
            lines.deep_view() == self@.reverse().map_values(|s: Sample| log_line(s)),
    {
        let mut lines: Vec<String> = Vec::new();
        let n: usize = self.entries.len();
        let mut i: usize = 0;
        while i < n
            invariant
                n == self.entries.len(),
                i <= n,
                lines.deep_view() == self@.reverse().take(i as int).map_values(
                    |s: Sample| log_line(s),
                ),
            decreases n - i,
        {
            let entry: &HistoryEntry = &self.entries[n - 1 - i];
            let mut line: String = String::from_str(" [");
            line.append(entry.time.as_str());
            line.append("] ");
            let count: String = decimal_text(entry.online as u64);
            line.append(count.as_str());
            line.append(" players");
            let ghost before = lines.deep_view();
            lines.push(line);
            assert(lines.deep_view() =~= before.push(line@));
            i = i + 1;
        }
        lines
    }
}

} // verus!
