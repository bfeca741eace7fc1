//! The short fade that softens a change of track.

use vstd::prelude::*;

verus! {

/// How many channels the music has.
pub const NUM_CHANNELS: u8 = 2;

/// How long each side of an interrupted-track fade lasts, in milliseconds.
pub const INTERRUPT_FADE_MS: u64 = 10;

/// How many frames one side of an interrupted-track fade lasts: never less
/// than one.
pub open spec fn frames_of_interrupt(sample_rate: int) -> int {
    vstd::math::max(sample_rate * INTERRUPT_FADE_MS / 1000, 1)
}

/// How many frames one side of an interrupted-track fade lasts.
pub fn fade_frames(sample_rate: u32) -> (frames: u32)
    ensures
        frames == frames_of_interrupt(sample_rate as int),
        frames >= 1,
{
    let frames: u64 = (sample_rate as u64) * INTERRUPT_FADE_MS / 1000;
    if frames > 1 {
        frames as u32
    } else {
        1
    }
}

/// A gain written as a fraction: `level` of `frames` parts.
#[derive(Clone, Copy, Debug, PartialEq, Eq)]
pub struct Gain {
    pub level: u32,
    pub frames: u32,
}

/// A sample-clocked gain shared by every chunk in one output queue.
#[derive(Clone, Copy, Debug, PartialEq, Eq)]
pub struct Envelope {
    /// Where the gain stands, in parts of `frames`.
    pub level: u32,
    /// Where it goes, in parts of `frames`.
    pub target: u32,
    /// How many frames the way from silence to full volume takes.
    pub frames: u32,
}

impl Envelope {
    /// The gain and where it goes lie between silence and full volume.
    pub open spec fn wf(self) -> bool {
        &&& self.frames > 0
        &&& self.level <= self.frames
        &&& self.target <= self.frames
    }

    /// The envelope one frame nearer to its target.
    pub open spec fn stepped(self) -> Envelope {
        Envelope {
            level: if self.level < self.target {
                (self.level + 1) as u32
            } else if self.level > self.target {
                (self.level - 1) as u32
            } else {
                self.level
            },
            ..self
        }
    }

    /// The envelope after `frames` frames.
    pub open spec fn after(self, frames: nat) -> Envelope
        decreases frames,
    {
        if frames == 0 {
            self
        } else {
            self.after((frames - 1) as nat).stepped()
        }
    }

    /// The envelope on its way out.
    pub open spec fn fading_out(self) -> Envelope {
        Envelope { target: 0, ..self }
    }

    /// An envelope at full volume.
    pub fn full(sample_rate: u32) -> (envelope: Self)
        ensures
            envelope.wf(),
            envelope.frames == frames_of_interrupt(sample_rate as int),
            envelope.level == envelope.frames,
            envelope.target == envelope.frames,
    {
        let frames: u32 = fade_frames(sample_rate);
        Self { level: frames, target: frames, frames }
    }

    /// An envelope that starts in silence and rises to full volume.
    pub fn fade_in(sample_rate: u32) -> (envelope: Self)
        ensures
            envelope.wf(),
            envelope.frames == frames_of_interrupt(sample_rate as int),
            envelope.level == 0,
            envelope.target == envelope.frames,
    {
        let frames: u32 = fade_frames(sample_rate);
        Self { level: 0, target: frames, frames }
    }

    /// Turns toward silence.
    pub fn fade_out(&mut self)
        ensures
            *final(self) == old(self).fading_out(),
            old(self).wf() ==> final(self).wf(),
    {
        self.target = 0;
    }

    /// Whether silence has been reached.
    pub fn silent(&self) -> (silent: bool)
        ensures
            silent == (self.level == 0),
    {
        self.level == 0
    }

    /// Returns this frame's gain, then moves one frame toward the target.
    pub fn next_gain(&mut self) -> (gain: Gain)
        ensures
            gain == (Gain { level: old(self).level, frames: old(self).frames }),
            *final(self) == old(self).stepped(),
            old(self).wf() ==> final(self).wf() && gain.level <= gain.frames,
    {
        let level: u32 = self.level;
        if level < self.target {
            self.level = level + 1;
        } else if level > self.target {
            self.level = level - 1;
        }
        Gain { level, frames: self.frames }
    }
}

/// Gives both channels of a frame the same gain, taken from the envelope once
/// a frame.
#[derive(Clone, Copy, Debug, PartialEq, Eq)]
pub struct TransitionSource {
    /// The channel that the next sample belongs to.
    pub channel: usize,
    /// The gain of the frame.
    pub gain: Gain,
}

impl TransitionSource {
    pub open spec fn wf(self) -> bool {
        self.channel < NUM_CHANNELS
    }

    /// The clock after one more sample, where the envelope stands at `gain`.
    pub open spec fn ticked(self, gain: Gain) -> TransitionSource {
        TransitionSource {
            channel: ((self.channel + 1) % NUM_CHANNELS as int) as usize,
            gain: if self.channel == 0 { gain } else { self.gain },
        }
    }

    /// The envelope after one more sample: the first channel of a frame moves
    /// it, the other leaves it alone.
    pub open spec fn driven(self, envelope: Envelope) -> Envelope {
        if self.channel == 0 {
            envelope.stepped()
        } else {
            envelope
        }
    }

    /// A clock at the start of a chunk.
    pub fn new() -> (source: Self)
        ensures
            source.wf(),
            source.channel == 0,
            source.gain == (Gain { level: 1, frames: 1 }),
    {
        Self { channel: 0, gain: Gain { level: 1, frames: 1 } }
    }

    /// The gain of the next sample. The first channel of a frame moves the
    /// envelope; the other leaves it alone.
    pub fn next(&mut self, envelope: &mut Envelope) -> (gain: Gain)
        requires
            old(self).wf(),
        ensures
            final(self).wf(),
            *final(self) == old(self).ticked(
                (Gain { level: old(envelope).level, frames: old(envelope).frames }),
            ),
            gain == final(self).gain,
            *final(envelope) == old(self).driven(*old(envelope)),
            old(self).channel == 0 ==> *final(envelope) == old(envelope).stepped(),
            old(self).channel != 0 ==> *final(envelope) == *old(envelope),
    {
        if self.channel == 0 {
            self.gain = envelope.next_gain();
        }
        self.channel = (self.channel + 1) % (NUM_CHANNELS as usize);
        self.gain
    }
}

/// The clock and the envelope after `samples` samples.
pub open spec fn transitioned(
    source: TransitionSource,
    envelope: Envelope,
    samples: nat,
) -> (TransitionSource, Envelope)
    decreases samples,
{
    if samples == 0 {
        (source, envelope)
    } else {
        let (clock, at) = transitioned(source, envelope, (samples - 1) as nat);
        (
            clock.ticked(Gain { level: at.level, frames: at.frames }),
            clock.driven(at),
        )
    }
}

/// Frame by frame the gain goes straight to its target and stops there.
pub proof fn law_goes_straight_to_target(envelope: Envelope, frames: nat)
    ensures
        ({
            let end = envelope.after(frames);
            &&& end.target == envelope.target
            &&& end.frames == envelope.frames
            &&& envelope.level <= envelope.target ==> end.level == vstd::math::min(
                envelope.level + frames,
                envelope.target as int,
            )
            &&& envelope.level >= envelope.target ==> end.level == vstd::math::max(
                envelope.level - frames,
                envelope.target as int,
            )
        }),
    decreases frames,
{
    if frames > 0 {
        law_goes_straight_to_target(envelope, (frames - 1) as nat);
    }
}

/// The gain never leaves the span from silence to full volume.
pub proof fn law_envelope_stays_in_range(envelope: Envelope, frames: nat)
    requires
        envelope.wf(),
    ensures
        envelope.after(frames).wf(),
        envelope.fading_out().wf(),
{
    law_goes_straight_to_target(envelope, frames);
}

/// An interrupted signal is silent after as many frames as it had level left,
/// and not one frame before.
pub proof fn law_fades_out_to_silence(envelope: Envelope, frames: nat)
    ensures
        (envelope.fading_out().after(frames).level == 0) == (frames >= envelope.level),
{
    law_goes_straight_to_target(envelope.fading_out(), frames);
}

/// A replacement starts in silence and is at full volume after the frames of
/// its fade, and not one frame before.
pub proof fn law_fades_in_to_full_volume(envelope: Envelope, frames: nat)
    requires
        envelope.wf(),
        envelope.level == 0,
        envelope.target == envelope.frames,
    ensures
        envelope.after(0).level == 0,
        (envelope.after(frames).level == envelope.frames) == (frames >= envelope.frames),
{
    law_goes_straight_to_target(envelope, 0);
    law_goes_straight_to_target(envelope, frames);
}

/// The envelope moves once per frame and not once per sample.
pub proof fn law_envelope_steps_once_per_frame(
    source: TransitionSource,
    envelope: Envelope,
    samples: nat,
)
    requires
        source.wf(),
        source.channel == 0,
    ensures
        ({
            let (clock, at) = transitioned(source, envelope, samples);
            let begun = (samples + 1) / 2;
            &&& clock.channel == samples % 2
            &&& at == envelope.after(begun as nat)
            &&& samples > 0 ==> clock.gain.level == envelope.after((begun - 1) as nat).level
            &&& samples > 0 ==> clock.gain.frames == envelope.frames
        }),
    decreases samples,
{
    if samples > 0 {
        law_envelope_steps_once_per_frame(source, envelope, (samples - 1) as nat);
        law_goes_straight_to_target(envelope, (samples / 2) as nat);
    }
}

/// One side of the fade lasts ten milliseconds to within one frame, and on any
/// output at least one frame.
pub proof fn law_interrupt_fade_lasts_ten_milliseconds(sample_rate: u32)
    ensures
        frames_of_interrupt(sample_rate as int) >= 1,
        sample_rate >= 100 ==> frames_of_interrupt(sample_rate as int) * 1000 <= sample_rate * 10
            < (frames_of_interrupt(sample_rate as int) + 1) * 1000,
        sample_rate < 100 ==> frames_of_interrupt(sample_rate as int) == 1,
{
}

/// Turning toward silence changes nothing that is heard yet: the level stands
/// where it stood, and the next frame is one step down.
pub proof fn law_turns_to_silence_from_where_it_stands(envelope: Envelope)
    ensures
        envelope.fading_out().level == envelope.level,
        envelope.fading_out().frames == envelope.frames,
        envelope.fading_out().target == 0,
        envelope.level > 0 ==> envelope.fading_out().stepped().level == envelope.level - 1,
        envelope.level == 0 ==> envelope.fading_out().stepped().level == 0,
{
}

} // verus!
