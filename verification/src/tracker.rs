//! The foreground-window usage tracker: a polling state machine.
//!
//! Once per cadence interval the owning thread samples the foreground
//! window and hands the sample here, together with the current reading
//! of a monotonic clock. The tracker detects focus transitions and, for
//! each window that loses focus, reports how long it held focus. Title
//! resolution is the caller's part — it is best-effort and happens only
//! when a transition is reported — so a finished interval is first
//! handed out as a [`FocusChange`] and then completed into a
//! [`UsageRecord`] once the title (possibly empty) is known.

use vstd::prelude::*;

verus! {

/// The tracker's whole state: which window holds focus, if any, and
/// the clock reading at which it gained focus. `since` is meaningful
/// only while `current` names a window.
pub struct FocusTracker {
    pub current: Option<u64>,
    pub since: u64,
}

/// A finished focus interval: the window that just lost focus and how
/// long it held focus, in ticks of the caller's monotonic clock.
#[derive(Clone, Copy, Debug, PartialEq, Eq, Structural)]
pub struct FocusChange {
    pub window: u64,
    pub duration: u64,
}

/// One emitted usage record: the resolved (best-effort, possibly
/// empty) title of the window that lost focus, and how long it held
/// focus.
pub struct UsageRecord {
    pub title: String,
    pub duration: u64,
}

/// A transition is reported exactly when some window held focus and
/// the new sample differs from it — including the sample "no window".
pub open spec fn reports_change(prev: Option<u64>, sample: Option<u64>) -> bool {
    prev is Some && prev != sample
}

/// The state after one polling step: unchanged while the sample equals
/// the tracked window (also while no window is focused and none is
/// sampled), otherwise tracking the sample as of `now`.
pub open spec fn step_state(t: FocusTracker, sample: Option<u64>, now: u64) -> FocusTracker {
    if t.current == sample {
        t
    } else {
        FocusTracker { current: sample, since: now }
    }
}

/// What one polling step reports: the finished interval of the window
/// that just lost focus, or nothing — in particular nothing on the
/// very first acquisition, which has no prior window to report on.
pub open spec fn step_change(t: FocusTracker, sample: Option<u64>, now: u64) -> Option<
    FocusChange,
> {
    match t.current {
        Some(w) => if sample != Some(w) {
            Some(FocusChange { window: w, duration: (now - t.since) as u64 })
        } else {
            None
        },
        None => None,
    }
}

/// The tracker's state after a whole script of polls, each a sample
/// paired with its clock reading, applied oldest first.
pub open spec fn tracker_after(t: FocusTracker, polls: Seq<(Option<u64>, u64)>) -> FocusTracker
    decreases polls.len(),
{
    if polls.len() == 0 {
        t
    } else {
        step_state(tracker_after(t, polls.drop_last()), polls.last().0, polls.last().1)
    }
}

/// Every change a whole script of polls reports, in order: one entry
/// per completed focus interval, none for steps without a transition.
pub open spec fn changes_of(t: FocusTracker, polls: Seq<(Option<u64>, u64)>) -> Seq<FocusChange>
    decreases polls.len(),
{
    if polls.len() == 0 {
        Seq::empty()
    } else {
        changes_of(t, polls.drop_last()) + (match step_change(
            tracker_after(t, polls.drop_last()),
            polls.last().0,
            polls.last().1,
        ) {
            Some(c) => seq![c],
            None => Seq::empty(),
        })
    }
}

impl FocusTracker {
    /// The tracker starts with no window observed yet.
    pub fn new() -> (t: FocusTracker)
        ensures
            t.current is None,
            t.since == 0,
    {
        FocusTracker { current: None, since: 0 }
    }

    /// One polling step. `sample` is the foreground window seen now
    /// (`None` for the no-window sentinel) and `now` the monotonic
    /// clock reading of this poll.
    ///
    /// If the sample equals the tracked window the state is untouched
    /// and nothing is reported. If it differs, the tracker moves to the
    /// sample as of `now`, and reports the finished interval exactly
    /// when a window was being tracked.
    pub fn observe(&mut self, sample: Option<u64>, now: u64) -> (r: Option<FocusChange>)
        requires
            old(self).current is Some ==> old(self).since <= now,
        ensures
            final(self).current == step_state(*old(self), sample, now).current,
            final(self).since == step_state(*old(self), sample, now).since,
            r == step_change(*old(self), sample, now),
            r is Some <==> reports_change(old(self).current, sample),
    {
        let same: bool = match (self.current, sample) {
            (None, None) => true,
            (Some(w), Some(s)) => w == s,
            _ => false,
        };
        if same {
            None
        } else {
            let finished = match self.current {
                Some(w) => Some(FocusChange { window: w, duration: now - self.since }),
                None => None,
            };
            self.current = sample;
            self.since = now;
            finished
        }
    }

    /// Run the tracker over a whole scripted sequence of polls — for
    /// instance a synthetic focus script — and collect everything it
    /// reports: exactly one change per completed focus interval, in
    /// transition order. The clock readings must be nondecreasing and
    /// must not predate the tracked window's start.
    pub fn run_polls(&mut self, polls: &Vec<(Option<u64>, u64)>) -> (changes: Vec<FocusChange>)
        requires
            forall|i: int, j: int|
                0 <= i <= j < polls@.len() ==> polls@[i].1 <= polls@[j].1,
            old(self).current is Some && polls@.len() > 0 ==> old(self).since <= polls@[0].1,
        ensures
            final(self).current == tracker_after(*old(self), polls@).current,
            final(self).since == tracker_after(*old(self), polls@).since,
            changes@ == changes_of(*old(self), polls@),
    {
        let mut changes: Vec<FocusChange> = Vec::new();
        let mut i: usize = 0;
        while i < polls.len()
            invariant
                i <= polls.len(),
                forall|a: int, b: int|
                    0 <= a <= b < polls@.len() ==> polls@[a].1 <= polls@[b].1,
                self.current == tracker_after(*old(self), polls@.take(i as int)).current,
                self.since == tracker_after(*old(self), polls@.take(i as int)).since,
                changes@ == changes_of(*old(self), polls@.take(i as int)),
                i < polls.len() && self.current is Some ==> self.since <= polls@[i as int].1,
            decreases polls.len() - i,
        {
            proof {
                assert(polls@.take(i as int + 1).drop_last() =~= polls@.take(i as int));
                assert(polls@.take(i as int + 1).last() == polls@[i as int]);
            }
            let (sample, now) = polls[i];
            if let Some(change) = self.observe(sample, now) {
                changes.push(change);
            }
            i = i + 1;
        }
        proof {
            assert(polls@.take(polls@.len() as int) =~= polls@);
        }
        changes
    }
}

impl UsageRecord {
    /// Complete a finished interval into a record, once the caller has
    /// resolved the title. A failed lookup hands in the empty string;
    /// the duration is carried over unaltered, so a missing title
    /// never costs the record or its timing.
    pub fn new(title: String, change: &FocusChange) -> (rec: UsageRecord)
        ensures
            rec.title@ == title@,
            rec.duration == change.duration,
    {
        UsageRecord { title, duration: change.duration }
    }
}

} // verus!
