//! Frame orchestration: classifying swapchain acquisition outcomes and
//! counting what the frame loop did.

use vstd::prelude::*;

verus! {

/// What acquiring the next swapchain image produced.
#[derive(Clone, Copy, Debug, PartialEq, Eq, Structural)]
pub enum AcquireOutcome {
    /// An image is ready to be drawn into.
    Ready,
    /// The surface is stale and must be reconfigured.
    Lost,
    /// The image is outdated but the surface is still valid.
    Outdated,
    /// Acquisition timed out.
    Timeout,
    /// The device ran out of memory.
    OutOfMemory,
}

/// What the frame driver does after an acquisition.
#[derive(Clone, Copy, Debug, PartialEq, Eq, Structural)]
pub enum FrameAction {
    /// Record, submit and present the frame.
    Render,
    /// Reconfigure the surface with its last valid size and skip this frame.
    ReconfigureAndSkip,
    /// Skip this frame and try again on the next tick.
    SkipAndRetry,
}

/// A condition that ends the frame loop.
#[derive(Clone, Copy, Debug, PartialEq, Eq, Structural)]
pub enum FrameError {
    /// The device reported that it is out of memory; retrying cannot help.
    OutOfMemory,
}

/// The action owed to each acquisition outcome, or the fatal error.
pub open spec fn frame_response(o: AcquireOutcome) -> Result<FrameAction, FrameError> {
    match o {
        AcquireOutcome::Ready => Ok(FrameAction::Render),
        AcquireOutcome::Lost => Ok(FrameAction::ReconfigureAndSkip),
        AcquireOutcome::Outdated => Ok(FrameAction::SkipAndRetry),
        AcquireOutcome::Timeout => Ok(FrameAction::SkipAndRetry),
        AcquireOutcome::OutOfMemory => Err(FrameError::OutOfMemory),
    }
}

/// `n + 1`, held at `u64::MAX` once the counter is full.
pub open spec fn bump(n: u64) -> u64 {
    if n < u64::MAX {
        (n + 1) as u64
    } else {
        n
    }
}

/// Classifies one acquisition outcome.
pub fn classify_acquire(o: AcquireOutcome) -> (r: Result<FrameAction, FrameError>)
    ensures
        r == frame_response(o),
{
    match o {
        AcquireOutcome::Ready => Ok(FrameAction::Render),
        AcquireOutcome::Lost => Ok(FrameAction::ReconfigureAndSkip),
        AcquireOutcome::Outdated => Ok(FrameAction::SkipAndRetry),
        AcquireOutcome::Timeout => Ok(FrameAction::SkipAndRetry),
        AcquireOutcome::OutOfMemory => Err(FrameError::OutOfMemory),
    }
}

fn saturating_bump(n: u64) -> (r: u64)
    ensures
        r == bump(n),
{
    if n < u64::MAX {
        n + 1
    } else {
        n
    }
}

/// Counters of what the frame loop has done so far.
#[derive(Clone, Copy, Debug, PartialEq, Eq, Structural)]
pub struct FrameCounters {
    pub frames_rendered: u64,
    pub reconfigurations: u64,
    pub frames_skipped: u64,
}

impl FrameCounters {
    pub open spec fn after(self, o: AcquireOutcome) -> FrameCounters {
        match frame_response(o) {
            Ok(FrameAction::Render) => FrameCounters { frames_rendered: bump(self.frames_rendered), ..self },
            Ok(FrameAction::ReconfigureAndSkip) => FrameCounters {
                reconfigurations: bump(self.reconfigurations),
                frames_skipped: bump(self.frames_skipped),
                ..self
            },
            Ok(FrameAction::SkipAndRetry) => FrameCounters { frames_skipped: bump(self.frames_skipped), ..self },
            Err(_) => self,
        }
    }

    pub fn new() -> (r: FrameCounters)
        ensures
            r.frames_rendered == 0,
            r.reconfigurations == 0,
            r.frames_skipped == 0,
    {
        FrameCounters { frames_rendered: 0, reconfigurations: 0, frames_skipped: 0 }
    }

    /// Classifies `o` and records what the loop does with it.
    pub fn record(&mut self, o: AcquireOutcome) -> (r: Result<FrameAction, FrameError>)
        ensures
            r == frame_response(o),
            *final(self) == old(self).after(o),
    {
        let r = classify_acquire(o);
        match r {
            Ok(FrameAction::Render) => {
                self.frames_rendered = saturating_bump(self.frames_rendered);
            },
            Ok(FrameAction::ReconfigureAndSkip) => {
                self.reconfigurations = saturating_bump(self.reconfigurations);
                self.frames_skipped = saturating_bump(self.frames_skipped);
            },
            Ok(FrameAction::SkipAndRetry) => {
                self.frames_skipped = saturating_bump(self.frames_skipped);
            },
            Err(_) => {},
        }
        r
    }
}

/// The counters after recording each outcome of `outcomes`, in order.
pub open spec fn after_all(c: FrameCounters, outcomes: Seq<AcquireOutcome>) -> FrameCounters
    decreases outcomes.len(),
{
    if outcomes.len() == 0 {
        c
    } else {
        after_all(c, outcomes.drop_last()).after(outcomes.last())
    }
}

/// How many of `outcomes` equal `o`.
pub open spec fn occurrences(outcomes: Seq<AcquireOutcome>, o: AcquireOutcome) -> nat
    decreases outcomes.len(),
{
    if outcomes.len() == 0 {
        0
    } else {
        occurrences(outcomes.drop_last(), o) + if outcomes.last() == o {
            1nat
        } else {
            0nat
        }
    }
}

/// From fresh counters, any run of outcomes short enough not to fill a
/// counter renders one frame per ready image, reconfigures once per lost
/// surface, and skips every frame that is not rendered and not fatal.
pub proof fn lemma_counters_count_outcomes(outcomes: Seq<AcquireOutcome>)
    requires
        outcomes.len() < u64::MAX,
    ensures
        ({
            let c = after_all(
                FrameCounters { frames_rendered: 0, reconfigurations: 0, frames_skipped: 0 },
                outcomes,
            );
            &&& c.frames_rendered == occurrences(outcomes, AcquireOutcome::Ready)
            &&& c.reconfigurations == occurrences(outcomes, AcquireOutcome::Lost)
            &&& c.frames_skipped == occurrences(outcomes, AcquireOutcome::Lost) + occurrences(
                outcomes,
                AcquireOutcome::Outdated,
            ) + occurrences(outcomes, AcquireOutcome::Timeout)
        }),
    decreases outcomes.len(),
{
    if outcomes.len() > 0 {
        let rest = outcomes.drop_last();
        lemma_counters_count_outcomes(rest);
        lemma_occurrences_bound(rest);
    }
}

proof fn lemma_occurrences_bound(outcomes: Seq<AcquireOutcome>)
    ensures
        occurrences(outcomes, AcquireOutcome::Ready) <= outcomes.len(),
        occurrences(outcomes, AcquireOutcome::Lost) + occurrences(outcomes, AcquireOutcome::Outdated)
            + occurrences(outcomes, AcquireOutcome::Timeout) <= outcomes.len(),
    decreases outcomes.len(),
{
    if outcomes.len() > 0 {
        lemma_occurrences_bound(outcomes.drop_last());
    }
}

} // verus!
