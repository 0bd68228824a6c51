//! Bounded retries against a display duplication source that may hand out
//! empty frames.
use vstd::prelude::*;

use crate::capture::CaptureError;

verus! {

/// How many frames one display is asked for before giving up.
pub const MAX_FRAME_ATTEMPTS: u32 = 10;

/// What to do with the frame just acquired.
#[derive(Debug, Clone, Copy, PartialEq, Eq, Structural)]
pub enum GrabStep {
    /// The frame has content: save it and stop.
    Save,
    /// The frame was empty: acquire another one.
    Retry,
    /// The frame was empty and no attempt is left.
    Exhausted,
}

/// The retry budget of one display.
#[derive(Debug, Clone, Copy, PartialEq, Eq, Structural)]
pub struct FrameGrabber {
    attempts: u32,
}

/// The step for a frame with presentation time `timestamp` when `used`
/// attempts, this one included, have been consumed.
pub open spec fn grab_step(used: nat, timestamp: i64) -> GrabStep {
    if timestamp != 0 {
        GrabStep::Save
    } else if used < MAX_FRAME_ATTEMPTS {
        GrabStep::Retry
    } else {
        GrabStep::Exhausted
    }
}

/// The outcome of grabbing from a display whose successive frames have the
/// presentation times `frames`, counting attempts from `used`: the index of
/// the frame that is saved, or the error once the attempts run out. A source
/// that stops handing out frames counts as having none.
pub open spec fn grab_outcome_from(frames: Seq<i64>, used: nat) -> Result<nat, CaptureError>
    decreases frames.len(),
{
    if used >= MAX_FRAME_ATTEMPTS || frames.len() == 0 {
        Err(CaptureError::NoFrameCaptured)
    } else if frames[0] != 0 {
        Ok(0)
    } else {
        match grab_outcome_from(frames.drop_first(), used + 1) {
            Ok(i) => Ok(i + 1),
            Err(e) => Err(e),
        }
    }
}

pub open spec fn grab_outcome(frames: Seq<i64>) -> Result<nat, CaptureError> {
    grab_outcome_from(frames, 0)
}

impl FrameGrabber {
    pub closed spec fn spec_attempts(self) -> nat {
        self.attempts as nat
    }

    pub open spec fn wf(self) -> bool {
        self.spec_attempts() <= MAX_FRAME_ATTEMPTS
    }

    /// A fresh budget for a newly opened duplication session.
    pub fn new() -> (g: FrameGrabber)
        ensures
            g.wf(),
            g.spec_attempts() == 0,
    {
        FrameGrabber { attempts: 0 }
    }

    /// The number of frames acquired so far.
    pub fn attempts(&self) -> (n: u32)
        ensures
            n as nat == self.spec_attempts(),
    {
        self.attempts
    }

    /// Whether another frame may be acquired.
    pub fn has_attempts_left(&self) -> (b: bool)
        ensures
            b == (self.spec_attempts() < MAX_FRAME_ATTEMPTS),
    {
        self.attempts < MAX_FRAME_ATTEMPTS
    }

    /// Counts one acquired frame and says what to do with it. A frame whose
    /// presentation time is zero carries no new content and is never saved.
    pub fn on_frame(&mut self, timestamp: i64) -> (step: GrabStep)
        requires
            old(self).wf(),
            old(self).spec_attempts() < MAX_FRAME_ATTEMPTS,
        ensures
            final(self).wf(),
            final(self).spec_attempts() == old(self).spec_attempts() + 1,
            step == grab_step(final(self).spec_attempts(), timestamp),
    {
        self.attempts = self.attempts + 1;
        if timestamp != 0 {
            GrabStep::Save
        } else if self.attempts < MAX_FRAME_ATTEMPTS {
            GrabStep::Retry
        } else {
            GrabStep::Exhausted
        }
    }
}

/// Runs the retry loop over the presentation times that a display hands out,
/// in order: the index of the frame that is saved, or `NoFrameCaptured` once
/// every attempt gave an empty frame.
pub fn first_frame(frames: &Vec<i64>) -> (r: Result<usize, CaptureError>)
    ensures
        match (r, grab_outcome(frames@)) {
            (Ok(i), Ok(j)) => i as nat == j,
            (Err(e), Err(f)) => e == f,
            _ => false,
        },
{
    let mut grabber = FrameGrabber::new();
    let mut i: usize = 0;
    assert(frames@.skip(0) =~= frames@);
    while i < frames.len() && grabber.has_attempts_left()
        invariant
            grabber.wf(),
            grabber.spec_attempts() == i,
            i <= frames.len(),
            forall|k: int| 0 <= k < i ==> frames@[k] == 0,
            grab_outcome(frames@) == match grab_outcome_from(frames@.skip(i as int), i as nat) {
                Ok(j) => Ok::<nat, CaptureError>((j + i) as nat),
                Err(e) => Err(e),
            },
        decreases frames.len() - i,
    {
        let step = grabber.on_frame(frames[i]);
        match step {
            GrabStep::Save => {
                return Ok(i);
            },
            _ => {},
        }
        assert(frames@.skip(i as int).drop_first() =~= frames@.skip(i + 1));
        i = i + 1;
    }
    Err(CaptureError::NoFrameCaptured)
}

/// A saved frame is never empty, and it is one of the first
/// `MAX_FRAME_ATTEMPTS` frames.
pub proof fn law_saved_frame_is_not_empty(frames: Seq<i64>)
    ensures
        grab_outcome(frames) matches Ok(i) ==> i < frames.len() && i < MAX_FRAME_ATTEMPTS
            && frames[i as int] != 0,
{
    lemma_outcome_from(frames, 0);
}

/// A frame is saved exactly when it has content, and the grabber gives up
/// exactly on the empty frame that uses the last of its attempts.
pub proof fn law_exhausted_exactly_at_budget(used: nat, timestamp: i64)
    requires
        1 <= used <= MAX_FRAME_ATTEMPTS,
    ensures
        (grab_step(used, timestamp) == GrabStep::Save) <==> timestamp != 0,
        (grab_step(used, timestamp) == GrabStep::Exhausted) <==> (timestamp == 0 && used
            == MAX_FRAME_ATTEMPTS),
{
}

/// Grabbing fails exactly when none of the first `MAX_FRAME_ATTEMPTS` frames
/// that the source hands out has content; otherwise it saves the first one
/// that has.
pub proof fn law_failure_exhausts_budget(frames: Seq<i64>)
    ensures
        grab_outcome(frames) is Err <==> forall|k: int|
            0 <= k < frames.len() && k < MAX_FRAME_ATTEMPTS ==> frames[k] == 0,
        grab_outcome(frames) matches Ok(i) ==> forall|k: int| 0 <= k < i ==> frames[k] == 0,
{
    lemma_outcome_from(frames, 0);
}

proof fn lemma_outcome_from(frames: Seq<i64>, used: nat)
    ensures
        grab_outcome_from(frames, used) matches Ok(i) ==> i < frames.len() && used + i
            < MAX_FRAME_ATTEMPTS && frames[i as int] != 0 && forall|k: int|
            0 <= k < i ==> frames[k] == 0,
        grab_outcome_from(frames, used) is Err <==> forall|k: int|
            0 <= k < frames.len() && used + k < MAX_FRAME_ATTEMPTS ==> frames[k] == 0,
    decreases frames.len(),
{
    if used >= MAX_FRAME_ATTEMPTS || frames.len() == 0 {
    } else if frames[0] != 0 {
    } else {
        let rest = frames.drop_first();
        lemma_outcome_from(rest, used + 1);
        if grab_outcome_from(frames, used) is Err {
            assert forall|k: int|
                0 <= k < frames.len() && used + k < MAX_FRAME_ATTEMPTS implies frames[k] == 0 by {
                if k > 0 {
                    assert(frames[k] == rest[k - 1]);
                }
            }
        } else {
            let i = grab_outcome_from(rest, used + 1)->Ok_0;
            assert(frames[(i + 1) as int] == rest[i as int]);
            assert(!(forall|k: int|
                0 <= k < frames.len() && used + k < MAX_FRAME_ATTEMPTS ==> frames[k] == 0));
            assert forall|k: int| 0 <= k < i + 1 implies frames[k] == 0 by {
                if k > 0 {
                    assert(frames[k] == rest[k - 1]);
                }
            }
        }
    }
}

} // verus!
