//! The tick generator: it classifies each timer firing as a main beat or an
//! off-beat by alternating a single flag, and computes the timer period the
//! shell must schedule, derived from the tempo and halved while off-beat
//! subdivision is on.

use vstd::prelude::*;

verus! {

/// A timer firing, classified before it reaches the state machine.
#[derive(Clone, Copy, Debug, PartialEq, Eq, Structural)]
pub enum TickEvent {
    Beat,
    OffBeat,
}

/// Classification of one subdivided tick: a set flag yields an off-beat and
/// clears itself; a cleared flag yields a beat and sets itself again.
pub open spec fn classify(off_beat: bool) -> (TickEvent, bool) {
    if off_beat {
        (TickEvent::OffBeat, false)
    } else {
        (TickEvent::Beat, true)
    }
}

/// The events of `n` consecutive subdivided ticks starting from the given
/// flag value.
pub open spec fn tick_events(off_beat: bool, n: nat) -> Seq<TickEvent>
    decreases n,
{
    if n == 0 {
        Seq::empty()
    } else {
        seq![classify(off_beat).0] + tick_events(classify(off_beat).1, (n - 1) as nat)
    }
}

/// The tick generator owns the alternation flag.  A fresh generator starts
/// with the flag set, so the first subdivided tick is always an off-beat;
/// the shell creates a fresh generator whenever it re-derives its timer.
pub struct TickGenerator {
    /// The alternation flag: set when the next subdivided tick is an
    /// off-beat.
    pub off_beat: bool,
}

impl TickGenerator {
    /// A generator whose next subdivided tick is an off-beat.
    pub fn new() -> (g: TickGenerator)
        ensures
            g.off_beat,
    {
        TickGenerator { off_beat: true }
    }

    /// Classify one timer firing.  Without subdivision every tick is a main
    /// beat and the flag is left alone; with subdivision the classification
    /// alternates by `classify`.
    pub fn tick(&mut self, subdivide: bool) -> (e: TickEvent)
        ensures
            subdivide ==> (e, final(self).off_beat) == classify(old(self).off_beat),
            !subdivide ==> e == TickEvent::Beat && *final(self) == *old(self),
    {
        if subdivide {
            if self.off_beat {
                self.off_beat = false;
                TickEvent::OffBeat
            } else {
                self.off_beat = true;
                TickEvent::Beat
            }
        } else {
            TickEvent::Beat
        }
    }
}

/// The timer period in microseconds: a beat every `60 / bpm` seconds, and a
/// tick every half beat while subdivision is on.
pub open spec fn spec_period_micros(bpm: u32, subdivide: bool) -> int {
    if subdivide {
        30_000_000int / (bpm as int)
    } else {
        60_000_000int / (bpm as int)
    }
}

/// The timer period in microseconds for the given tempo.
pub fn period_micros(bpm: u32, subdivide: bool) -> (r: u64)
    requires
        bpm >= 1,
    ensures
        r == spec_period_micros(bpm, subdivide),
{
    if subdivide {
        30_000_000u64 / (bpm as u64)
    } else {
        60_000_000u64 / (bpm as u64)
    }
}

/// Helper for the alternation law, generalized over the starting flag: the
/// `i`-th of `n` subdivided ticks is an off-beat exactly when `i` is even
/// and the flag started set, or `i` is odd and it started cleared.
proof fn lemma_alternation_from(off_beat: bool, n: nat)
    ensures
        tick_events(off_beat, n).len() == n,
        forall|i: int|
            0 <= i < n ==> #[trigger] tick_events(off_beat, n)[i] == (if (i % 2 == 0)
                == off_beat {
                TickEvent::OffBeat
            } else {
                TickEvent::Beat
            }),
    decreases n,
{
    if n > 0 {
        lemma_alternation_from(!off_beat, (n - 1) as nat);
    }
}

/// Law: with the alternation flag starting set, `n` consecutive subdivided
/// ticks yield exactly the sequence `OffBeat, Beat, OffBeat, Beat, ...` of
/// length `n`.
pub proof fn lemma_alternation(n: nat)
    ensures
        tick_events(true, n).len() == n,
        forall|i: int|
            0 <= i < n ==> #[trigger] tick_events(true, n)[i] == (if i % 2 == 0 {
                TickEvent::OffBeat
            } else {
                TickEvent::Beat
            }),
{
    lemma_alternation_from(true, n);
}

} // verus!
