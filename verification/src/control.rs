//! The handoff between a track that is cut short and the one that replaces it.

use vstd::prelude::*;

use crate::envelope::INTERRUPT_FADE_MS;
use crate::stream::clamp_buffer_ms;

verus! {

pub const NANOS_PER_MS: u64 = 1_000_000;

/// How long an interruption waits for the old signal to fall silent, in
/// nanoseconds: what the device holds, and both sides of the fade.
pub open spec fn handoff_wait(buffer_ms: int) -> int {
    (buffer_ms + 2 * INTERRUPT_FADE_MS) * NANOS_PER_MS
}

/// What a request to interrupt the track comes to.
#[derive(Clone, Copy, Debug, PartialEq, Eq)]
pub enum Interrupt {
    /// An earlier request has not been answered by a track yet, and this one
    /// shares its handoff.
    Shared,
    /// Nothing is playing: the output is to be replaced, and that is all.
    Reset,
    /// The signal is to be faded out, waited for no longer than `wait_ns`
    /// nanoseconds, and stopped.
    FadeOut { wait_ns: u64 },
}

/// Coordinates an explicit track replacement with the audio thread.
///
/// The player leaves its output running between tracks. That is right when
/// one track reaches its end, but an explicit skip would otherwise leave the
/// old queued audio in front of the replacement. The old signal is faded
/// before its queue is discarded, and writes are held back until the replacement
/// track is loaded.
///
/// `T` is the output that the control acts on.
pub struct AudioControl<T> {
    /// The output that is playing, once there is one.
    pub target: Option<T>,
    /// Whether writes are held back until the next track.
    pub waiting_for_track: bool,
    /// Whether the next write starts on a fresh output.
    pub reset_output: bool,
    /// How much sound the device holds, in milliseconds.
    pub buffer_ms: u32,
}

impl<T> AudioControl<T> {
    /// The buffer length is one that a device is asked for.
    pub open spec fn wf(self) -> bool {
        self.buffer_ms == crate::stream::buffer_in_range(self.buffer_ms as int)
    }

    /// The control after a request to interrupt the track.
    pub open spec fn interrupted(self, playing: bool) -> Self {
        if self.waiting_for_track {
            self
        } else {
            AudioControl {
                waiting_for_track: true,
                reset_output: self.reset_output || !playing,
                ..self
            }
        }
    }

    /// What a request to interrupt the track comes to.
    pub open spec fn answer_to(self, playing: bool) -> Interrupt {
        if self.waiting_for_track {
            Interrupt::Shared
        } else if playing {
            Interrupt::FadeOut { wait_ns: handoff_wait(self.buffer_ms as int) as u64 }
        } else {
            Interrupt::Reset
        }
    }

    /// Whether the old signal is waited for, `elapsed_ns` into the handoff.
    pub open spec fn awaits(self, silent: bool, elapsed_ns: u64) -> bool {
        !silent && elapsed_ns < handoff_wait(self.buffer_ms as int)
    }

    /// The control once the old signal has been stopped.
    pub open spec fn handed_off(self) -> Self {
        AudioControl { reset_output: true, ..self }
    }

    /// The control once a track has arrived, or will not.
    pub open spec fn released(self) -> Self {
        AudioControl { waiting_for_track: false, ..self }
    }

    /// The control once a write has taken the reset up.
    pub open spec fn reset_taken(self) -> Self {
        AudioControl { reset_output: false, ..self }
    }

    /// A control over no output yet, for a device asked to hold `buffer_ms`.
    pub fn new(buffer_ms: u32) -> (control: Self)
        ensures
            control.wf(),
            control.target is None,
            !control.waiting_for_track,
            !control.reset_output,
            control.buffer_ms == crate::stream::buffer_in_range(buffer_ms as int),
    {
        Self {
            target: None,
            waiting_for_track: false,
            reset_output: false,
            buffer_ms: clamp_buffer_ms(buffer_ms),
        }
    }

    /// Begins to discard the current output before a user-requested track
    /// change. Repeated skips share the same handoff. `playing` says whether
    /// there is a signal to fade.
    pub fn interrupt(&mut self, playing: bool) -> (interrupt: Interrupt)
        requires
            old(self).wf(),
        ensures
            *final(self) == old(self).interrupted(playing),
            final(self).wf(),
            interrupt == old(self).answer_to(playing),
            interrupt == if old(self).waiting_for_track {
                Interrupt::Shared
            } else if playing {
                Interrupt::FadeOut { wait_ns: handoff_wait(old(self).buffer_ms as int) as u64 }
            } else {
                Interrupt::Reset
            },
    {
        if self.waiting_for_track {
            return Interrupt::Shared;
        }
        self.waiting_for_track = true;
        if playing {
            let wait_ms: u64 = (self.buffer_ms as u64) + 2 * INTERRUPT_FADE_MS;
            Interrupt::FadeOut { wait_ns: wait_ms * NANOS_PER_MS }
        } else {
            self.reset_output = true;
            Interrupt::Reset
        }
    }

    /// Whether the old signal is waited for: until it is silent, but no longer
    /// than the handoff allows.
    pub fn awaits_silence(&self, silent: bool, elapsed_ns: u64) -> (awaits: bool)
        requires
            self.wf(),
        ensures
            awaits == self.awaits(silent, elapsed_ns),
            awaits == (!silent && elapsed_ns < handoff_wait(self.buffer_ms as int)),
    {
        let wait_ms: u64 = (self.buffer_ms as u64) + 2 * INTERRUPT_FADE_MS;
        !silent && elapsed_ns < wait_ms * NANOS_PER_MS
    }

    /// Marks the output for replacement once its signal has been stopped.
    pub fn hand_off(&mut self)
        ensures
            *final(self) == old(self).handed_off(),
    {
        self.reset_output = true;
    }

    /// Lets writes through once the player has left the old decoder behind.
    pub fn track_changed(&mut self)
        ensures
            *final(self) == old(self).released(),
    {
        self.waiting_for_track = false;
    }

    /// Lets writes through if the requested replacement stopped instead.
    pub fn stopped(&mut self)
        ensures
            *final(self) == old(self).released(),
    {
        self.waiting_for_track = false;
    }

    /// Whether writes are held back.
    pub fn waiting_for_track(&self) -> (waiting: bool)
        ensures
            waiting == self.waiting_for_track,
    {
        self.waiting_for_track
    }

    /// Whether the next write starts on a fresh output; asking takes it up.
    pub fn take_reset(&mut self) -> (reset: bool)
        ensures
            reset == old(self).reset_output,
            *final(self) == old(self).reset_taken(),
    {
        let reset: bool = self.reset_output;
        self.reset_output = false;
        reset
    }

    /// Acts on `target` from now on.
    pub fn register(&mut self, target: T)
        ensures
            *final(self) == (AudioControl { target: Some(target), ..*old(self) }),
    {
        self.target = Some(target);
    }
}

/// Repeated skips share one handoff: until a track arrives, interrupting again
/// changes nothing.
pub proof fn law_skips_share_one_handoff<T>(control: AudioControl<T>, first: bool, second: bool)
    ensures
        control.interrupted(first).interrupted(second) == control.interrupted(first),
        control.interrupted(first).waiting_for_track,
        control.interrupted(first).handed_off().waiting_for_track,
{
}

/// Writes are held back from the interruption until a track arrives or playback
/// stops, and neither loses the reset that the next write has to take up.
pub proof fn law_writes_resume_with_the_track<T>(control: AudioControl<T>, playing: bool)
    ensures
        ({
            let handed = control.interrupted(playing).handed_off();
            &&& handed.waiting_for_track
            &&& handed.reset_taken().waiting_for_track
            &&& !handed.released().waiting_for_track
            &&& handed.released().reset_output
        }),
{
}

/// A handoff replaces the output once: the first write takes the reset up and
/// the next one finds none.
pub proof fn law_reset_is_taken_once<T>(control: AudioControl<T>)
    ensures
        control.handed_off().reset_output,
        !control.handed_off().reset_taken().reset_output,
        control.handed_off().handed_off() == control.handed_off(),
{
}

/// The handoff waits long enough for the whole fade to be heard after what the
/// device holds, on every output of a hundred frames a second or more.
pub proof fn law_handoff_outlasts_the_fade(buffer_ms: u32, sample_rate: u32)
    requires
        sample_rate >= 100,
    ensures
        crate::envelope::frames_of_interrupt(sample_rate as int) * 1000 * NANOS_PER_MS
            <= sample_rate * (handoff_wait(buffer_ms as int) - buffer_ms * NANOS_PER_MS),
{
    let frames = crate::envelope::frames_of_interrupt(sample_rate as int);
    assert(frames * 1000 <= sample_rate * 10);
    let rest = handoff_wait(buffer_ms as int) - buffer_ms * NANOS_PER_MS;
    assert(rest == 20_000_000);
    assert(sample_rate * rest == sample_rate * 20_000_000) by (nonlinear_arith)
        requires
            rest == 20_000_000,
    ;
}

/// Nothing that happens to a control changes the buffer length it was made
/// with, or the output it acts on.
pub proof fn law_handoff_keeps_its_output<T>(control: AudioControl<T>, playing: bool)
    ensures
        control.interrupted(playing).buffer_ms == control.buffer_ms,
        control.interrupted(playing).target == control.target,
        control.handed_off().released().reset_taken().buffer_ms == control.buffer_ms,
        control.handed_off().released().reset_taken().target == control.target,
{
}

/// An interruption of a control that waits for no track holds writes back. Where
/// nothing plays the output is to be replaced at once; a signal that plays is
/// left to fade first, and the handoff marks the output then.
pub proof fn law_interruption_holds_writes_back<T>(control: AudioControl<T>, playing: bool)
    ensures
        control.interrupted(playing).waiting_for_track,
        !control.waiting_for_track && !playing ==> control.interrupted(playing).reset_output,
        playing || control.waiting_for_track ==> control.interrupted(playing).reset_output
            == control.reset_output,
        control.waiting_for_track ==> control.interrupted(playing) == control,
{
}

/// The handoff waits for what the device holds and twenty milliseconds more.
pub proof fn law_handoff_waits_for_buffer_and_fades(buffer_ms: u32)
    ensures
        handoff_wait(buffer_ms as int) == (buffer_ms + 20) * 1_000_000,
{
}

/// Each event changes one thing: a track that arrives releases the writes, a
/// handoff marks the output, a write takes the mark.
pub proof fn law_each_event_changes_one_thing<T>(control: AudioControl<T>)
    ensures
        !control.released().waiting_for_track,
        control.released().reset_output == control.reset_output,
        control.released().target == control.target,
        control.released().buffer_ms == control.buffer_ms,
        control.handed_off().reset_output,
        control.handed_off().waiting_for_track == control.waiting_for_track,
        control.handed_off().target == control.target,
        control.handed_off().buffer_ms == control.buffer_ms,
        !control.reset_taken().reset_output,
        control.reset_taken().waiting_for_track == control.waiting_for_track,
        control.reset_taken().target == control.target,
        control.reset_taken().buffer_ms == control.buffer_ms,
{
}

/// A request shares the handoff under way just when one is; otherwise a signal
/// that plays is faded out, and waited for as long as the device's buffer and
/// twenty milliseconds more. The wait ends with the signal or with that time.
pub proof fn law_interruption_fades_what_plays<T>(
    control: AudioControl<T>,
    playing: bool,
    elapsed_ns: u64,
)
    requires
        control.wf(),
    ensures
        control.answer_to(playing) is Shared == control.waiting_for_track,
        control.answer_to(playing) is Reset == (!control.waiting_for_track && !playing),
        control.answer_to(playing) matches Interrupt::FadeOut { wait_ns } ==> wait_ns == (
        control.buffer_ms + 20) * 1_000_000,
        !control.awaits(true, elapsed_ns),
        control.awaits(false, elapsed_ns) == (elapsed_ns < (control.buffer_ms + 20) * 1_000_000),
{
}

} // verus!
