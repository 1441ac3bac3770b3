//! The decision logic of the audio dispatch worker: before each play it
//! adopts the most recent of the volume updates drained from its volume
//! queue, then resolves the command it received into one play request at
//! that volume.  The shell owns the device, the queues and the clips; it
//! submits exactly what a `PlayRequest` says.

use vstd::prelude::*;
use crate::engine::BeatCommand;

verus! {

/// One playback the worker must submit: which click, at what amplitude
/// (in hundredths of the multiplier).  A request already produced is a
/// plain value: a later volume update cannot reach it.
#[derive(Clone, Copy, Debug, PartialEq, Eq, Structural)]
pub struct PlayRequest {
    pub command: BeatCommand,
    /// Amplitude multiplier in hundredths.
    pub volume: u32,
}

/// The volume the worker adopts given the updates drained from its queue,
/// oldest first: the most recent update, or the current volume when none
/// arrived.
pub open spec fn drained_volume(current: u32, pending: Seq<u32>) -> u32 {
    if pending.len() > 0 {
        pending.last()
    } else {
        current
    }
}

/// The audio worker's state between commands: the volume it last adopted.
pub struct Player {
    /// Amplitude multiplier in hundredths.
    pub volume: u32,
}

impl Player {
    /// A worker starting at the given volume.
    pub fn new(volume: u32) -> (p: Player)
        ensures
            p.volume == volume,
    {
        Player { volume }
    }

    /// Handle one command: adopt the most recent of the drained volume
    /// updates (`pending`, oldest first), then resolve the command into a
    /// play request at the adopted volume.
    pub fn handle(&mut self, command: BeatCommand, pending: &Vec<u32>) -> (p: PlayRequest)
        ensures
            final(self).volume == drained_volume(old(self).volume, pending@),
            p.command == command,
            p.volume == final(self).volume,
    {
        let mut i: usize = 0;
        while i < pending.len()
            invariant
                i <= pending.len(),
                self.volume == (if i > 0 {
                    pending@[i - 1]
                } else {
                    old(self).volume
                }),
            decreases pending.len() - i,
        {
            self.volume = pending[i];
            i = i + 1;
        }
        PlayRequest { command, volume: self.volume }
    }
}

} // verus!
