//! What a queue of sound starts with, on an output that has just been opened
//! or in place of one that was cut short.

use vstd::prelude::*;

use crate::envelope::{Envelope, NUM_CHANNELS};
use crate::fade::{Fade, FULL, SILENT};
use crate::stream::SAMPLE_RATE;

verus! {

/// What is put on a fresh queue.
#[derive(Clone, Copy, Debug, PartialEq, Eq)]
pub struct QueueStart {
    /// The envelope that an interruption will fade, which the control acts on.
    pub envelope: Envelope,
    /// The fade of pauses and resumes.
    pub fade: Fade,
    /// The rate that the music is converted from.
    pub from: u32,
    /// The rate that it is converted to.
    pub to: u32,
    /// How many channels are converted.
    pub channels: u8,
}

/// A fade at full volume that has played nothing.
pub open spec fn new_fade() -> Fade {
    Fade { gain: FULL, step: SILENT, target: FULL, left: 0, played: 0 }
}

impl QueueStart {
    /// A queue whose envelope stands at `level` and goes to full volume.
    pub open spec fn from_level(level: int, sample_rate: u32) -> QueueStart {
        let frames = crate::envelope::frames_of_interrupt(sample_rate as int) as u32;
        QueueStart {
            envelope: Envelope { level: level as u32, target: frames, frames },
            fade: new_fade(),
            from: SAMPLE_RATE,
            to: sample_rate,
            channels: NUM_CHANNELS,
        }
    }

    /// What the first queue of an output starts with: full volume.
    pub open spec fn for_opening(sample_rate: u32) -> QueueStart {
        Self::from_level(
            crate::envelope::frames_of_interrupt(sample_rate as int),
            sample_rate,
        )
    }

    /// What a queue in place of another starts with: silence, on its way to
    /// full volume.
    pub open spec fn for_replacement(sample_rate: u32) -> QueueStart {
        Self::from_level(0, sample_rate)
    }

    /// What the first queue of an output starts with.
    pub fn opening(sample_rate: u32) -> (start: Self)
        ensures
            start == Self::for_opening(sample_rate),
    {
        Self {
            envelope: Envelope::full(sample_rate),
            fade: Fade::new(),
            from: SAMPLE_RATE,
            to: sample_rate,
            channels: NUM_CHANNELS,
        }
    }

    /// What a queue in place of another starts with.
    pub fn replacement(sample_rate: u32) -> (start: Self)
        ensures
            start == Self::for_replacement(sample_rate),
    {
        Self {
            envelope: Envelope::fade_in(sample_rate),
            fade: Fade::new(),
            from: SAMPLE_RATE,
            to: sample_rate,
            channels: NUM_CHANNELS,
        }
    }
}

/// Both queues have played nothing and are headed for full volume. The first of
/// an output stands there from the start; a replacement begins in silence and
/// is there after the frames of the fade, and not one frame before.
pub proof fn law_queue_starts_full_or_rises(sample_rate: u32, frames: nat)
    ensures
        ({
            let first = QueueStart::for_opening(sample_rate);
            let next = QueueStart::for_replacement(sample_rate);
            let whole = crate::envelope::frames_of_interrupt(sample_rate as int);
            &&& first.envelope.wf() && next.envelope.wf()
            &&& first.envelope.frames == whole && next.envelope.frames == whole
            &&& first.envelope.after(frames) == first.envelope
            &&& first.envelope.level == whole
            &&& next.envelope.level == 0
            &&& (next.envelope.after(frames).level == whole) == (frames >= whole)
            &&& first.fade == next.fade
            &&& first.fade.gain == FULL && first.fade.played == 0
            &&& first.fade.left == 0 && first.fade.target == FULL
            &&& first.from == 44_100 && next.from == 44_100
            &&& first.to == sample_rate && next.to == sample_rate
            &&& first.channels == 2 && next.channels == 2
        }),
{
    let first = QueueStart::for_opening(sample_rate);
    let next = QueueStart::for_replacement(sample_rate);
    assert(1 <= crate::envelope::frames_of_interrupt(sample_rate as int) <= u32::MAX);
    crate::envelope::law_goes_straight_to_target(first.envelope, frames);
    crate::envelope::law_fades_in_to_full_volume(next.envelope, frames);
}

} // verus!
