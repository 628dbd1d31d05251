//! Change detection for the guest artifact.
//!
//! The watcher never touches the filesystem itself. Its caller samples the
//! artifact's modification stamp (an mtime, a content hash, anything that
//! differs whenever the content does) and hands the sample in; `None` stands
//! for a sample that could not be taken.

use vstd::prelude::*;

verus! {

/// Whether a poll that observes `observed` against `baseline` reports a change.
///
/// A failed sample never reports one; a successful sample reports one exactly
/// when it differs from the baseline.
pub open spec fn detects(baseline: Option<u64>, observed: Option<u64>) -> bool {
    observed is Some && observed != baseline
}

/// The baseline a watcher holds after polling `observed` against `baseline`.
///
/// A failed sample leaves the baseline alone, so that a change which happens
/// while the artifact cannot be sampled is still reported by the next poll
/// that succeeds.
pub open spec fn rebased(baseline: Option<u64>, observed: Option<u64>) -> Option<u64> {
    if observed is Some {
        observed
    } else {
        baseline
    }
}

/// The baseline left by polling each of `observations` in turn.
pub open spec fn baseline_after(baseline: Option<u64>, observations: Seq<Option<u64>>) -> Option<
    u64,
>
    decreases observations.len(),
{
    if observations.len() == 0 {
        baseline
    } else {
        rebased(baseline_after(baseline, observations.drop_last()), observations.last())
    }
}

/// How many of the polls of `observations`, taken in turn from `baseline`,
/// report a change.
pub open spec fn signal_count(baseline: Option<u64>, observations: Seq<Option<u64>>) -> nat
    decreases observations.len(),
{
    if observations.len() == 0 {
        0
    } else {
        let earlier = observations.drop_last();
        let last = if detects(baseline_after(baseline, earlier), observations.last()) {
            1nat
        } else {
            0nat
        };
        signal_count(baseline, earlier) + last
    }
}

/// Remembers the last modification stamp seen for one artifact.
#[derive(Clone, Copy, Debug, PartialEq, Eq)]
pub struct FileWatcher {
    baseline: Option<u64>,
}

impl View for FileWatcher {
    type V = Option<u64>;

    /// The stamp against which the next poll is compared.
    closed spec fn view(&self) -> Option<u64> {
        self.baseline
    }
}

impl FileWatcher {
    /// Starts watching from the stamp seen at start-up, if one could be taken.
    pub fn new(observed: Option<u64>) -> (watcher: FileWatcher)
        ensures
            watcher@ == observed,
    {
        FileWatcher { baseline: observed }
    }

    /// The stamp against which the next poll is compared.
    pub fn baseline(&self) -> (stamp: Option<u64>)
        ensures
            stamp == self@,
    {
        self.baseline
    }

    /// Polls once: reports whether the artifact changed since the last poll
    /// and moves the baseline to what was just observed, in one step.
    pub fn changed(&mut self, observed: Option<u64>) -> (signal: bool)
        ensures
            signal == detects(old(self)@, observed),
            final(self)@ == rebased(old(self)@, observed),
    {
        match observed {
            None => false,
            Some(stamp) => {
                let differs = match self.baseline {
                    None => true,
                    Some(seen) => seen != stamp,
                };
                self.baseline = Some(stamp);
                differs
            },
        }
    }
}

/// Polling twice with nothing modified in between reports a change at most
/// once: whatever the first poll said, the second says no.
pub proof fn lemma_second_poll_is_quiet(baseline: Option<u64>, observed: Option<u64>)
    ensures
        !detects(rebased(baseline, observed), observed),
        rebased(rebased(baseline, observed), observed) == rebased(baseline, observed),
{
}

/// A sample that could not be taken reports nothing and forgets nothing.
pub proof fn lemma_failed_sample_is_no_change(baseline: Option<u64>)
    ensures
        !detects(baseline, None),
        rebased(baseline, None) == baseline,
{
}

/// A change that happens while the artifact cannot be sampled is reported by
/// the first poll that can sample it again.
pub proof fn lemma_change_survives_failed_samples(
    baseline: Option<u64>,
    failures: Seq<Option<u64>>,
    stamp: u64,
)
    requires
        forall|i: int| 0 <= i < failures.len() ==> failures[i] is None,
    ensures
        baseline_after(baseline, failures) == baseline,
        signal_count(baseline, failures) == 0,
        detects(baseline_after(baseline, failures), Some(stamp)) == (baseline != Some(stamp)),
    decreases failures.len(),
{
    if failures.len() > 0 {
        lemma_change_survives_failed_samples(baseline, failures.drop_last(), stamp);
    }
}

/// However often an unmodified artifact is polled, at most one of the polls
/// reports a change, and afterwards the watcher holds the artifact's stamp.
pub proof fn lemma_unmodified_artifact_signals_at_most_once(
    baseline: Option<u64>,
    stamp: u64,
    observations: Seq<Option<u64>>,
)
    requires
        forall|i: int| 0 <= i < observations.len() ==> observations[i] == Some(stamp),
    ensures
        signal_count(baseline, observations) <= 1,
        signal_count(baseline, observations) == 1 <==> observations.len() > 0 && baseline != Some(
            stamp,
        ),
        observations.len() > 0 ==> baseline_after(baseline, observations) == Some(stamp),
    decreases observations.len(),
{
    if observations.len() > 0 {
        lemma_unmodified_artifact_signals_at_most_once(baseline, stamp, observations.drop_last());
    }
}

} // verus!
