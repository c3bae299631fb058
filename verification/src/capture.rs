//! The permit without which the microphone is not transmitted while the game
//! is connected.
//!
//! Times are milliseconds of one monotonic clock.

use vstd::prelude::*;

verus! {

/// How long one permit lasts.
pub const CAPTURE_PERMIT: u64 = 250;

/// Whether the game's filter is on, whether the microphone is forced open,
/// whether Mumble itself hears speech, and until when the permit lasts.
#[derive(Clone, Copy, Debug, PartialEq, Eq, Structural)]
pub struct Capture {
    pub filtering: bool,
    pub forced: bool,
    pub native: bool,
    pub deadline: u64,
}

/// Whether the microphone is silenced: the filter is on and no permit lasts.
pub open spec fn closed(capture: Capture, elapsed: u64) -> bool {
    capture.filtering && elapsed >= capture.deadline
}

/// The samples that a callback leaves in place of `samples`.
pub open spec fn passed(capture: Capture, samples: Seq<i16>, elapsed: u64) -> Seq<i16> {
    if closed(capture, elapsed) {
        Seq::new(samples.len(), |i: int| 0i16)
    } else {
        samples
    }
}

/// No filter, no permit, and no speech heard.
pub open spec fn begun(capture: Capture) -> Capture {
    Capture { filtering: false, native: false, deadline: 0, ..capture }
}

/// The permit is granted from `elapsed` on.
pub open spec fn renewed(capture: Capture, elapsed: u64) -> Capture {
    Capture {
        deadline: if elapsed + CAPTURE_PERMIT > u64::MAX {
            u64::MAX
        } else {
            (elapsed + CAPTURE_PERMIT) as u64
        },
        ..capture
    }
}

/// The permit is over.
pub open spec fn ended(capture: Capture) -> Capture {
    Capture { deadline: 0, ..capture }
}

/// Mumble followed a request to force the microphone open or no longer, or did
/// not.
pub open spec fn settled(capture: Capture, previous: bool, success: bool) -> Capture {
    if success {
        capture
    } else {
        Capture { forced: previous, deadline: 0, ..capture }
    }
}

/// A buffer with or without speech was heard.
pub open spec fn heard(capture: Capture, speech: bool) -> Capture {
    Capture {
        native: if capture.forced {
            capture.native
        } else {
            speech
        },
        ..capture
    }
}

/// Silences every sample.
fn silence(samples: &mut [i16])
    ensures
        final(samples)@ == Seq::new(old(samples)@.len(), |i: int| 0i16),
{
    let mut i: usize = 0;
    let ghost before = samples@;
    while i < samples.len()
        invariant
            i <= samples@.len(),
            samples@.len() == before.len(),
            forall|k: int| 0 <= k < i ==> samples@[k] == 0,
        decreases samples@.len() - i,
    {
        samples[i] = 0;
        i += 1;
    }
    assert(samples@ =~= Seq::new(before.len(), |i: int| 0i16));
}

impl Capture {
    /// No filter, no permit, and no speech heard. Whether the microphone is
    /// forced open stays.
    pub fn init(self) -> (next: Capture)
        ensures
            next == begun(self),
    {
        Capture { filtering: false, native: false, deadline: 0, ..self }
    }

    /// Turns the filter on or off.
    pub fn filter(self, active: bool) -> (next: Capture)
        ensures
            next == (Capture { filtering: active, ..self }),
    {
        Capture { filtering: active, ..self }
    }

    /// Forces the microphone open, or no longer.
    pub fn force(self, active: bool) -> (next: Capture)
        ensures
            next == (Capture { forced: active, ..self }),
    {
        Capture { forced: active, ..self }
    }

    /// Forgets the speech that was heard.
    pub fn clear_native(self) -> (next: Capture)
        ensures
            next == (Capture { native: false, ..self }),
    {
        Capture { native: false, ..self }
    }

    /// Whether Mumble itself hears speech.
    pub fn native(self) -> (answer: bool)
        ensures
            answer == self.native,
    {
        self.native
    }

    /// Ends the permit.
    pub fn close(self) -> (next: Capture)
        ensures
            next == ended(self),
    {
        Capture { deadline: 0, ..self }
    }

    /// Grants a permit from `elapsed` on.
    pub fn renew(self, elapsed: u64) -> (next: Capture)
        ensures
            next == renewed(self, elapsed),
    {
        Capture { deadline: elapsed.saturating_add(CAPTURE_PERMIT), ..self }
    }

    /// Takes note of whether Mumble followed a request to force the microphone
    /// open, or no longer. Where it did not, what was before is restored and
    /// the permit ends.
    pub fn settle(self, previous: bool, success: bool) -> (next: Capture)
        ensures
            next == settled(self, previous, success),
    {
        if success {
            self
        } else {
            Capture { forced: previous, deadline: 0, ..self }
        }
    }

    /// Takes one buffer of the microphone. Speech counts as native unless the
    /// microphone is forced open; while the filter is on, a buffer without a
    /// permit is silenced. The answer says whether it was.
    pub fn input(self, samples: &mut [i16], speech: bool, elapsed: u64) -> (answer: (Capture, bool))
        ensures
            answer.0 == heard(self, speech),
            answer.1 == closed(self, elapsed),
            final(samples)@ == passed(self, old(samples)@, elapsed),
    {
        let native: bool = if self.forced {
            self.native
        } else {
            speech
        };
        let next = Capture { native, ..self };
        if self.filtering && elapsed >= self.deadline {
            silence(samples);
            (next, true)
        } else {
            (next, false)
        }
    }
}

/// While the filter is on, a permit passes the microphone on for its whole
/// length and silences it from then on, and without a permit nothing passes.
/// While the filter is off, the microphone is left alone.
pub proof fn law_only_a_live_permit_passes_the_microphone(
    capture: Capture,
    renewed: Capture,
    samples: Seq<i16>,
    granted: u64,
    elapsed: u64,
)
    requires
        granted + CAPTURE_PERMIT <= u64::MAX,
        granted <= elapsed,
        renewed.filtering,
        renewed.deadline == granted + CAPTURE_PERMIT,
    ensures
        elapsed < granted + CAPTURE_PERMIT ==> passed(renewed, samples, elapsed) == samples,
        elapsed >= granted + CAPTURE_PERMIT ==> passed(renewed, samples, elapsed) == Seq::new(
            samples.len(),
            |i: int| 0i16,
        ),
        passed(Capture { filtering: true, deadline: 0, ..capture }, samples, elapsed) == Seq::new(
            samples.len(),
            |i: int| 0i16,
        ),
        passed(Capture { filtering: false, ..capture }, samples, elapsed) == samples,
{
}

/// What holds of the microphone from one step to the next: nothing that was
/// permitted before counts after a new beginning, the end of a permit, or a
/// request that Mumble did not follow; a new permit lasts a quarter of a
/// second; and speech counts as native only while nothing forces the microphone
/// open.
pub proof fn law_permits_end_with_what_they_were_for(
    capture: Capture,
    previous: bool,
    speech: bool,
    granted: u64,
    elapsed: u64,
)
    requires
        granted + 250 <= u64::MAX,
    ensures
        !closed(begun(capture), elapsed),
        closed(Capture { filtering: true, ..begun(capture) }, elapsed),
        begun(capture).forced == capture.forced && !begun(capture).native,
        closed(ended(capture), elapsed) == capture.filtering,
        ended(capture).forced == capture.forced && ended(capture).native == capture.native,
        capture.filtering ==> (closed(renewed(capture, granted), elapsed) <==> elapsed >= granted
            + 250),
        renewed(capture, granted).forced == capture.forced && renewed(capture, granted).native
            == capture.native && renewed(capture, granted).filtering == capture.filtering,
        settled(capture, previous, true) == capture,
        settled(capture, previous, false).forced == previous,
        closed(settled(capture, previous, false), elapsed) == capture.filtering,
        heard(capture, speech).native == if capture.forced {
            capture.native
        } else {
            speech
        },
        closed(heard(capture, speech), elapsed) == closed(capture, elapsed),
        heard(capture, speech).forced == capture.forced,
{
}

} // verus!
