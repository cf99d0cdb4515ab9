//! The progress and cancellation model of a flashing run, and the supervision
//! of the background tasks that image resolution starts.
use vstd::prelude::*;

use crate::error::Error;

verus! {

/// Progress of a flashing run. Fractions are `done` out of `total` bytes.
#[derive(Clone, Copy, Debug, PartialEq, Eq, Structural)]
pub enum DownloadFlashingStatus {
    Preparing,
    DownloadingProgress { done: u64, total: u64 },
    FlashingProgress { done: u64, total: u64 },
    Verifying,
    Customizing,
}

/// What happened since the last step of a byte copy to the target.
#[derive(Clone, Copy, Debug, PartialEq, Eq, Structural)]
pub enum FlashEvent {
    /// This many more bytes were written.
    Written(u64),
    /// The image ended and all of it was written.
    Finished,
    /// Cancellation was requested, or every holder of the token dropped it.
    Cancelled,
    /// Writing failed.
    Failed,
}

/// How a flashing run ended.
#[derive(Clone, Copy, Debug, PartialEq, Eq, Structural)]
pub enum FlashOutcome {
    Success,
    Aborted,
    Failed,
}

/// The state of the byte copy of one flashing run.
#[derive(Clone, Copy, Debug, PartialEq, Eq, Structural)]
pub struct FlashSession {
    /// The declared (extract) size of the image.
    pub total: u64,
    /// Bytes written so far.
    pub written: u64,
    /// How the run ended, once it has.
    pub outcome: Option<FlashOutcome>,
}

/// The smaller of two sizes.
pub open spec fn min_u64(a: u64, b: u64) -> u64 {
    if a <= b {
        a
    } else {
        b
    }
}

/// The status a session reports: preparing until a byte is written, then the
/// written share of the declared size, capped at all of it.
pub open spec fn spec_progress(s: FlashSession) -> DownloadFlashingStatus {
    if s.written == 0 {
        DownloadFlashingStatus::Preparing
    } else {
        DownloadFlashingStatus::FlashingProgress { done: min_u64(s.written, s.total), total: s.total }
    }
}

/// One step of a session. A finished session ignores all events; a running
/// one counts written bytes (saturating), and ends on the image's end, a
/// cancellation or a failure.
pub open spec fn spec_step(s: FlashSession, e: FlashEvent) -> FlashSession {
    if s.outcome is Some {
        s
    } else {
        match e {
            FlashEvent::Written(n) => FlashSession {
                written: if s.written + n <= u64::MAX {
                    (s.written + n) as u64
                } else {
                    u64::MAX
                },
                ..s
            },
            FlashEvent::Finished => FlashSession { outcome: Some(FlashOutcome::Success), ..s },
            FlashEvent::Cancelled => FlashSession { outcome: Some(FlashOutcome::Aborted), ..s },
            FlashEvent::Failed => FlashSession { outcome: Some(FlashOutcome::Failed), ..s },
        }
    }
}

/// The session after a sequence of events.
pub open spec fn spec_run(s: FlashSession, events: Seq<FlashEvent>) -> FlashSession
    decreases events.len(),
{
    if events.len() == 0 {
        s
    } else {
        spec_step(spec_run(s, events.drop_last()), events.last())
    }
}

/// What a run's outcome means to its caller.
pub open spec fn spec_result(o: FlashOutcome) -> Result<(), Error> {
    match o {
        FlashOutcome::Success => Ok(()),
        FlashOutcome::Aborted => Err(Error::Aborted),
        FlashOutcome::Failed => Err(Error::IoError),
    }
}

impl FlashSession {
    /// A session for an image of `total` bytes, before anything is written.
    pub fn new(total: u64) -> (r: FlashSession)
        ensures
            r.total == total,
            r.written == 0,
            r.outcome is None,
    {
        FlashSession { total, written: 0, outcome: None }
    }

    /// The status to report now.
    pub fn progress(&self) -> (r: DownloadFlashingStatus)
        ensures
            r == spec_progress(*self),
    {
        if self.written == 0 {
            DownloadFlashingStatus::Preparing
        } else {
            let done = if self.written <= self.total {
                self.written
            } else {
                self.total
            };
            DownloadFlashingStatus::FlashingProgress { done, total: self.total }
        }
    }

    /// Takes in one event. Returns the status to report where the event
    /// wrote bytes to a running session.
    pub fn step(&mut self, e: FlashEvent) -> (r: Option<DownloadFlashingStatus>)
        ensures
            *final(self) == spec_step(*old(self), e),
            final(self).written >= old(self).written,
            final(self).total == old(self).total,
            r == (if old(self).outcome is None && e is Written {
                Some(spec_progress(*final(self)))
            } else {
                None
            }),
    {
        if self.outcome.is_some() {
            return None;
        }
        match e {
            FlashEvent::Written(n) => {
                self.written = self.written.saturating_add(n);
                Some(self.progress())
            },
            FlashEvent::Finished => {
                self.outcome = Some(FlashOutcome::Success);
                None
            },
            FlashEvent::Cancelled => {
                self.outcome = Some(FlashOutcome::Aborted);
                None
            },
            FlashEvent::Failed => {
                self.outcome = Some(FlashOutcome::Failed);
                None
            },
        }
    }

    /// The result of the run: `None` while it is still running.
    pub fn result(&self) -> (r: Option<Result<(), Error>>)
        ensures
            r is None <==> self.outcome is None,
            r matches Some(x) ==> x == spec_result(self.outcome.unwrap()),
    {
        match self.outcome {
            None => None,
            Some(FlashOutcome::Success) => Some(Ok(())),
            Some(FlashOutcome::Aborted) => Some(Err(Error::Aborted)),
            Some(FlashOutcome::Failed) => Some(Err(Error::IoError)),
        }
    }
}

/// A finished session stays finished, with the same outcome, whatever comes after.
pub proof fn lemma_outcome_is_final(s: FlashSession, events: Seq<FlashEvent>)
    requires
        s.outcome is Some,
    ensures
        spec_run(s, events) == s,
    decreases events.len(),
{
    if events.len() > 0 {
        lemma_outcome_is_final(s, events.drop_last());
    }
}

/// Written bytes never decrease, and the declared size never changes.
pub proof fn lemma_progress_monotone(s: FlashSession, events: Seq<FlashEvent>)
    ensures
        spec_run(s, events).written >= s.written,
        spec_run(s, events).total == s.total,
    decreases events.len(),
{
    if events.len() > 0 {
        lemma_progress_monotone(s, events.drop_last());
    }
}

/// Reported progress never goes back: a later status of a run is at least
/// as far as an earlier one.
pub proof fn lemma_reported_progress_monotone(s: FlashSession, events: Seq<FlashEvent>)
    requires
        spec_progress(s) is FlashingProgress,
    ensures
        spec_progress(spec_run(s, events)) is FlashingProgress,
        spec_progress(spec_run(s, events))->FlashingProgress_done >= spec_progress(
            s,
        )->FlashingProgress_done,
        spec_progress(spec_run(s, events))->FlashingProgress_total == s.total,
{
    lemma_progress_monotone(s, events);
}

/// A run that is cancelled after it started and before it completed ends
/// aborted, and never reports success, whatever follows.
pub proof fn lemma_cancel_aborts(
    s: FlashSession,
    before: Seq<FlashEvent>,
    after: Seq<FlashEvent>,
)
    requires
        s.outcome is None,
        forall|i: int| 0 <= i < before.len() ==> #[trigger] before[i] is Written,
    ensures
        spec_run(s, before.push(FlashEvent::Cancelled) + after).outcome == Some(
            FlashOutcome::Aborted,
        ),
        spec_result(spec_run(s, before.push(FlashEvent::Cancelled) + after).outcome.unwrap())
            == Err::<(), Error>(Error::Aborted),
{
    lemma_only_writes_keep_running(s, before);
    let c = spec_run(s, before.push(FlashEvent::Cancelled));
    assert(before.push(FlashEvent::Cancelled).drop_last() =~= before);
    lemma_run_append(s, before.push(FlashEvent::Cancelled), after);
    lemma_outcome_is_final(c, after);
}

/// A run of writes and then the image's end succeeds, having written the sum
/// of the writes (saturating).
pub proof fn lemma_writes_then_finish_succeed(s: FlashSession, writes: Seq<FlashEvent>)
    requires
        s.outcome is None,
        forall|i: int| 0 <= i < writes.len() ==> #[trigger] writes[i] is Written,
    ensures
        spec_run(s, writes.push(FlashEvent::Finished)).outcome == Some(FlashOutcome::Success),
{
    lemma_only_writes_keep_running(s, writes);
    assert(writes.push(FlashEvent::Finished).drop_last() =~= writes);
}

proof fn lemma_only_writes_keep_running(s: FlashSession, events: Seq<FlashEvent>)
    requires
        s.outcome is None,
        forall|i: int| 0 <= i < events.len() ==> #[trigger] events[i] is Written,
    ensures
        spec_run(s, events).outcome is None,
    decreases events.len(),
{
    if events.len() > 0 {
        assert(events[events.len() - 1] is Written);
        lemma_only_writes_keep_running(s, events.drop_last());
    }
}

proof fn lemma_run_append(s: FlashSession, a: Seq<FlashEvent>, b: Seq<FlashEvent>)
    ensures
        spec_run(s, a + b) == spec_run(spec_run(s, a), b),
    decreases b.len(),
{
    if b.len() == 0 {
        assert(a + b =~= a);
    } else {
        assert((a + b).drop_last() =~= a + b.drop_last());
        lemma_run_append(s, a, b.drop_last());
    }
}

/// The bytes a sequence of events writes.
pub open spec fn spec_sum_writes(events: Seq<FlashEvent>) -> int
    decreases events.len(),
{
    if events.len() == 0 {
        0
    } else {
        spec_sum_writes(events.drop_last()) + match events.last() {
            FlashEvent::Written(n) => n as int,
            _ => 0,
        }
    }
}

proof fn lemma_writes_add_up(s: FlashSession, events: Seq<FlashEvent>)
    requires
        s.outcome is None,
        forall|i: int| 0 <= i < events.len() ==> #[trigger] events[i] is Written,
    ensures
        spec_run(s, events).written == if s.written + spec_sum_writes(events) <= u64::MAX {
            s.written + spec_sum_writes(events)
        } else {
            u64::MAX as int
        },
        spec_run(s, events).outcome is None,
        spec_run(s, events).total == s.total,
        spec_sum_writes(events) >= 0,
    decreases events.len(),
{
    if events.len() > 0 {
        assert(events[events.len() - 1] is Written);
        lemma_writes_add_up(s, events.drop_last());
    }
}

/// Copying an image of `total` bytes in chunks: every status reported along the
/// way is a share of at most the whole, shares never go back, the last write
/// reports the whole, and the image's end then makes the run succeed.
pub proof fn lemma_full_copy_reports_whole(total: u64, writes: Seq<FlashEvent>)
    requires
        total > 0,
        forall|i: int| 0 <= i < writes.len() ==> #[trigger] writes[i] is Written,
        spec_sum_writes(writes) == total,
    ensures
        ({
            let fresh = FlashSession { total, written: 0, outcome: None };
            &&& spec_progress(spec_run(fresh, writes)) == (DownloadFlashingStatus::FlashingProgress {
                done: total,
                total,
            })
            &&& spec_run(fresh, writes.push(FlashEvent::Finished)).outcome == Some(FlashOutcome::Success)
            &&& forall|k: int|
                0 <= k <= writes.len() ==> (#[trigger] spec_run(fresh, writes.subrange(0, k))).written
                    <= u64::MAX && min_u64(spec_run(fresh, writes.subrange(0, k)).written, total) <= total
            &&& forall|k1: int, k2: int|
                0 <= k1 <= k2 <= writes.len() ==> (#[trigger] spec_run(fresh, writes.subrange(0, k1))).written
                    <= (#[trigger] spec_run(fresh, writes.subrange(0, k2))).written
        }),
{
    let fresh = FlashSession { total, written: 0, outcome: None };
    lemma_writes_add_up(fresh, writes);
    lemma_writes_then_finish_succeed(fresh, writes);
    assert forall|k1: int, k2: int|
        0 <= k1 <= k2 <= writes.len() implies (#[trigger] spec_run(fresh, writes.subrange(0, k1))).written
        <= (#[trigger] spec_run(fresh, writes.subrange(0, k2))).written by {
        let a = writes.subrange(0, k1);
        let b = writes.subrange(k1, k2);
        assert(a + b =~= writes.subrange(0, k2));
        lemma_run_append(fresh, a, b);
        lemma_progress_monotone(spec_run(fresh, a), b);
    }
}

/// The first failure among the results of background tasks, in the order
/// they finished; success where none failed.
pub open spec fn spec_first_failure(results: Seq<Result<(), String>>) -> Result<(), String>
    decreases results.len(),
{
    if results.len() == 0 {
        Ok(())
    } else if results[0] is Err {
        results[0]
    } else {
        spec_first_failure(results.drop_first())
    }
}

/// Joins the results of the background tasks of one resolution: the first
/// failure fails the whole operation, and the tasks after it are to be aborted.
/// Returns that failure and its position, or success.
pub fn first_failure(results: &Vec<Result<(), String>>) -> (r: (Result<(), String>, usize))
    ensures
        r.0 == spec_first_failure(results@),
        r.0 is Err ==> r.1 < results@.len() && results@[r.1 as int] == r.0,
        r.0 is Ok ==> r.1 == results@.len(),
{
    let mut i: usize = 0;
    assert(results@.subrange(0, results@.len() as int) =~= results@);
    while i < results.len()
        invariant
            i <= results@.len(),
            spec_first_failure(results@) == spec_first_failure(results@.subrange(i as int, results@.len() as int)),
        decreases results@.len() - i,
    {
        let ghost rest = results@.subrange(i as int, results@.len() as int);
        assert(rest[0] == results@[i as int]);
        assert(rest.drop_first() =~= results@.subrange(i + 1, results@.len() as int));
        match &results[i] {
            Err(e) => {
                let c = e.clone();
                assert(Err::<(), String>(c) == results@[i as int]);
                return (Err(c), i);
            },
            Ok(()) => {},
        }
        i += 1;
    }
    assert(results@.subrange(i as int, results@.len() as int) =~= Seq::<Result<(), String>>::empty());
    (Ok(()), i)
}

} // verus!
