//! Failure policy of the audio-capture reader.
//!
//! The capture loop reads fixed-size chunks from the audio-encoder
//! subprocess.  A read failure is retried, a success clears the failure
//! streak, and once the streak exceeds [`MAX_CONSECUTIVE_READ_FAILURES`]
//! capture aborts and the session is told of a fatal error.

use vstd::prelude::*;

verus! {

/// How many consecutive failed reads the capture loop tolerates; the next
/// failure after this many aborts capture.
pub const MAX_CONSECUTIVE_READ_FAILURES: u32 = 5;

/// Verdict of the capture loop after one read attempt.
#[derive(Clone, Copy, Debug, PartialEq, Eq, Structural)]
pub enum CaptureStatus {
    /// Keep reading: the last read succeeded or the failure streak is still
    /// within the tolerated bound.
    Continue,
    /// Too many consecutive failures: capture must abort and report a fatal
    /// error to the session.
    Fatal,
}

/// The failure streak at the end of a run of read outcomes
/// (`true` = the read succeeded): how many reads failed since the last
/// success.
pub open spec fn spec_streak(results: Seq<bool>) -> nat
    decreases results.len(),
{
    if results.len() == 0 {
        0
    } else if results.last() {
        0
    } else {
        spec_streak(results.drop_last()) + 1
    }
}

/// The streak never exceeds the number of reads recorded.
pub proof fn lemma_streak_le_len(results: Seq<bool>)
    ensures
        spec_streak(results) <= results.len(),
    decreases results.len(),
{
    if results.len() > 0 && !results.last() {
        lemma_streak_le_len(results.drop_last());
    }
}

/// A streak of at least `m` means the last `m` reads all failed.
pub proof fn lemma_streak_means_failures(results: Seq<bool>, m: int)
    requires
        0 <= m <= results.len(),
        m <= spec_streak(results),
    ensures
        forall|i: int| results.len() - m <= i < results.len() ==> !results[i],
    decreases m,
{
    if m > 0 {
        assert(!results.last());
        lemma_streak_means_failures(results.drop_last(), m - 1);
        assert(forall|i: int|
            results.len() - m <= i < results.len() - 1 ==> results.drop_last()[i] == results[i]);
    }
}

/// Tracks the streak of consecutive failed reads of the capture stream.
pub struct CaptureMonitor {
    /// Number of failed reads since the last successful one.
    pub consecutive_failures: u32,
    /// Every read outcome recorded so far, oldest first.
    pub history: Ghost<Seq<bool>>,
}

impl CaptureMonitor {
    /// The counter matches the recorded history.
    pub open spec fn wf(&self) -> bool {
        self.consecutive_failures as nat == spec_streak(self.history@)
    }

    /// A fresh monitor with no recorded reads.
    pub fn new() -> (m: CaptureMonitor)
        ensures
            m.wf(),
            m.consecutive_failures == 0,
            m.history@ == Seq::<bool>::empty(),
    {
        CaptureMonitor { consecutive_failures: 0, history: Ghost(Seq::empty()) }
    }

    /// Record the outcome of one chunk read and decide whether capture goes
    /// on.  A success resets the streak to zero; a failure lengthens it, and
    /// the verdict is `Fatal` exactly when the streak has exceeded
    /// [`MAX_CONSECUTIVE_READ_FAILURES`].
    pub fn record_read(&mut self, ok: bool) -> (status: CaptureStatus)
        requires
            old(self).wf(),
            old(self).consecutive_failures <= MAX_CONSECUTIVE_READ_FAILURES,
        ensures
            final(self).wf(),
            final(self).history@ == old(self).history@.push(ok),
            ok ==> final(self).consecutive_failures == 0,
            !ok ==> final(self).consecutive_failures == old(self).consecutive_failures + 1,
            status is Fatal <==> final(self).consecutive_failures
                > MAX_CONSECUTIVE_READ_FAILURES,
    {
        self.history = Ghost(self.history@.push(ok));
        proof {
            assert(self.history@.last() == ok);
            assert(self.history@.drop_last() =~= old(self).history@);
        }
        if ok {
            self.consecutive_failures = 0;
            CaptureStatus::Continue
        } else {
            self.consecutive_failures = self.consecutive_failures + 1;
            if self.consecutive_failures > MAX_CONSECUTIVE_READ_FAILURES {
                CaptureStatus::Fatal
            } else {
                CaptureStatus::Continue
            }
        }
    }
}

/// The window of six reads starting at `i` contains at least one success.
pub open spec fn window_has_success(results: Seq<bool>, i: int) -> bool {
    exists|j: int| i <= j < i + MAX_CONSECUTIVE_READ_FAILURES + 1 && #[trigger] results[j]
}

/// Capture survives any schedule of read outcomes in which every window of
/// six consecutive reads has at least one success: after any prefix of
/// such a schedule the failure streak stays within the tolerated bound, so
/// the verdict is never `Fatal`.
pub proof fn lemma_capture_survives(results: Seq<bool>, k: int)
    requires
        forall|i: int|
            0 <= i && i + MAX_CONSECUTIVE_READ_FAILURES + 1 <= results.len()
                ==> #[trigger] window_has_success(results, i),
        0 <= k <= results.len(),
    ensures
        spec_streak(results.take(k)) <= MAX_CONSECUTIVE_READ_FAILURES,
    decreases k,
{
    let bound = MAX_CONSECUTIVE_READ_FAILURES as int;
    if k > 0 {
        lemma_capture_survives(results, k - 1);
        let prefix = results.take(k);
        assert(prefix.drop_last() =~= results.take(k - 1));
        assert(prefix.last() == results[k - 1]);
        if !results[k - 1] && spec_streak(prefix) > bound {
            assert(spec_streak(prefix) == bound + 1);
            lemma_streak_le_len(prefix);
            assert(bound + 1 <= k);
            lemma_streak_means_failures(prefix, bound + 1);
            let start = k - (bound + 1);
            assert(start + MAX_CONSECUTIVE_READ_FAILURES + 1 <= results.len());
            assert(window_has_success(results, start));
            let j = choose|j: int| start <= j < start + bound + 1 && #[trigger] results[j];
            assert(prefix[j] == results[j]);
        }
    }
}

} // verus!
