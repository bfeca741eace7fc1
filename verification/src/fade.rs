//! The fade that a pause and a resume put on the sound.
//!
//! A gain is kept as the bit pattern of its single-precision value, so the
//! sums and quotients on it are the caller's; which of them is taken, and
//! when, is decided here.

use vstd::prelude::*;

verus! {

/// How much sound is queued when nothing fades, in milliseconds.
pub const QUEUE_MS: u32 = 200;

/// How much sound is queued beyond the fade, in milliseconds.
pub const FADE_HEADROOM_MS: u32 = 60;

/// The fade lengths that the settings offer, in milliseconds.
pub const FADE_MS_CHOICES: [u32; 4] = [0, 100, 250, 500];

/// The longest fade on offer.
pub const FADE_MS_MAX: u32 = 500;

/// The bit pattern of the gain one: full volume.
pub const FULL: u32 = 0x3f80_0000;

/// The bit pattern of the gain zero: silence.
pub const SILENT: u32 = 0;

/// The bit pattern of positive infinity: above it are only the values that
/// are no number.
pub const INFINITE: u32 = 0x7f80_0000;

/// The bit pattern of negative zero, and the sign bit.
pub const SIGN: u32 = 0x8000_0000;

/// A fade length, brought down to the longest on offer.
pub open spec fn clamped_fade(ms: int) -> int {
    vstd::math::min(ms, FADE_MS_MAX as int)
}

/// How much sound to keep queued under a fade of `ms`.
pub open spec fn queued_under(ms: int) -> int {
    vstd::math::max(QUEUE_MS as int, clamped_fade(ms) + FADE_HEADROOM_MS)
}

/// How many frames a fade of `ms` lasts at `sample_rate` frames a second.
pub open spec fn frames_of_fade(ms: int, sample_rate: int) -> int {
    sample_rate * clamped_fade(ms) / 1000
}

/// The fade length that the settings and the sound share, in milliseconds.
#[derive(Clone, Copy, Debug, PartialEq, Eq)]
pub struct FadeMs {
    pub ms: u32,
}

/// The shared fade length, starting at `ms` brought into range.
pub fn shared_fade(ms: u32) -> (shared: FadeMs)
    ensures
        shared.ms == clamped_fade(ms as int),
{
    FadeMs { ms: clamp_fade_ms(ms) }
}

/// `ms`, or the longest fade on offer where `ms` is longer.
pub fn clamp_fade_ms(ms: u32) -> (clamped: u32)
    ensures
        clamped == clamped_fade(ms as int),
        FADE_MS_CHOICES@.contains(ms) ==> clamped == ms,
{
    let longest: u32 = FADE_MS_CHOICES[3];
    if ms <= longest {
        ms
    } else {
        longest
    }
}

/// How many milliseconds of sound to keep queued while fades last `fade_ms`.
pub fn queue_ms(fade_ms: u32) -> (ms: u32)
    ensures
        ms == queued_under(fade_ms as int),
{
    let wanted: u32 = clamp_fade_ms(fade_ms).saturating_add(FADE_HEADROOM_MS);
    if wanted > QUEUE_MS {
        wanted
    } else {
        QUEUE_MS
    }
}

/// How many frames a fade of `ms` lasts.
pub fn ramp_frames(ms: u32, sample_rate: u32) -> (frames: u64)
    ensures
        frames == frames_of_fade(ms as int, sample_rate as int),
{
    let clamped: u32 = clamp_fade_ms(ms);
    assert(0 <= sample_rate * clamped <= u32::MAX * 500) by (nonlinear_arith)
        requires
            0 <= clamped <= 500,
            0 <= sample_rate <= u32::MAX,
    ;
    (sample_rate as u64) * (clamped as u64) / 1000
}

/// The frames that a pause fades over, with `queued` frames to play.
pub open spec fn paused_over(fade_ms: u32, sample_rate: u32, queued: int) -> Option<u64> {
    let over = vstd::math::min(frames_of_fade(fade_ms as int, sample_rate as int), queued);
    if over > 0 {
        Some(over as u64)
    } else {
        None
    }
}

/// The frames that a pause fades over: the fade's own length, but no more
/// than the `queued` frames there are. Nothing where that is no frame at all.
pub fn fade_out_frames(fade_ms: u32, sample_rate: u32, queued: u64) -> (frames: Option<u64>)
    ensures
        frames == paused_over(fade_ms, sample_rate, queued as int),
        ({
            let over = vstd::math::min(
                frames_of_fade(fade_ms as int, sample_rate as int),
                queued as int,
            );
            &&& over > 0 ==> frames == Some(over as u64)
            &&& over <= 0 ==> frames is None
        }),
{
    let full: u64 = ramp_frames(fade_ms, sample_rate);
    let frames: u64 = if full < queued {
        full
    } else {
        queued
    };
    if frames > 0 {
        Some(frames)
    } else {
        None
    }
}

/// The bit pattern of a gain held between zero and one: what lies above one
/// becomes one and what lies below zero becomes zero. Negative zero and the
/// values that are no number stay as they are.
pub open spec fn clamped_gain(bits: u32) -> u32 {
    if FULL < bits <= INFINITE {
        FULL
    } else if SIGN < bits <= SIGN + INFINITE {
        SILENT
    } else {
        bits
    }
}

/// Whether `bits` is a value that is no number.
pub open spec fn not_a_number(bits: u32) -> bool {
    INFINITE < bits < SIGN || SIGN + INFINITE < bits
}

/// Whether `bits` is a number and not infinite.
pub open spec fn is_finite(bits: u32) -> bool {
    bits < INFINITE || SIGN <= bits < SIGN + INFINITE
}

/// Whether `sum` can be what floating-point addition makes of `one` and
/// `other`: two finite numbers never add up to what is no number.
pub open spec fn can_be_sum(sum: u32, one: u32, other: u32) -> bool {
    is_finite(one) && is_finite(other) ==> !not_a_number(sum)
}

/// Whether `bits` is a gain from silence to full volume. Negative zero is
/// silence too.
pub open spec fn is_gain(bits: u32) -> bool {
    bits <= FULL || bits == SIGN
}

/// Whether `bits` is a number above zero.
pub open spec fn is_positive(bits: u32) -> bool {
    0 < bits <= INFINITE
}

/// Holds a gain between zero and one.
pub fn clamp_gain(bits: u32) -> (clamped: u32)
    ensures
        clamped == clamped_gain(bits),
{
    if FULL < bits && bits <= INFINITE {
        FULL
    } else if SIGN < bits && bits <= 0xff80_0000 {
        SILENT
    } else {
        bits
    }
}

/// A gain that moves frame by frame toward its target.
#[derive(Clone, Copy, Debug, PartialEq, Eq)]
pub struct Fade {
    /// The gain of the next frame.
    pub gain: u32,
    /// What each frame of the ramp adds to the gain.
    pub step: u32,
    /// Where the ramp ends.
    pub target: u32,
    /// How many frames of the ramp are left.
    pub left: u64,
    /// How many frames have been played, counted modulo the width of the count.
    pub played: u64,
}

impl Fade {
    /// The fade that stands at `gain` and stays there.
    pub open spec fn held(self, gain: u32) -> Fade {
        Fade {
            gain: clamped_gain(gain),
            step: SILENT,
            target: clamped_gain(gain),
            left: 0,
            played: self.played,
        }
    }

    /// The fade that sets out for `target`, to be there in `frames` frames.
    pub open spec fn ramped(self, target: u32, step: u32, frames: u64) -> Fade {
        if frames == 0 {
            self.held(target)
        } else {
            Fade { step, target: clamped_gain(target), left: frames, ..self }
        }
    }

    /// The fade as playback starts it: from silence to full volume in `frames`
    /// frames, or at full volume where there is no frame to take.
    pub open spec fn started(self, step: u32, frames: u64) -> Fade {
        if frames > 0 {
            self.held(SILENT).ramped(FULL, step, frames)
        } else {
            self.held(FULL)
        }
    }

    /// The fade one frame on, where `stepped` is its gain plus its step.
    pub open spec fn advanced(self, stepped: u32) -> Fade {
        Fade {
            gain: if self.left == 0 {
                self.gain
            } else if self.left == 1 {
                self.target
            } else {
                clamped_gain(stepped)
            },
            left: if self.left == 0 { 0 } else { (self.left - 1) as u64 },
            played: if self.played == u64::MAX { 0 } else { (self.played + 1) as u64 },
            ..self
        }
    }

    /// The fade after one frame for each of `sums`, the sums of gain and step
    /// that those frames were given.
    pub open spec fn after(self, sums: Seq<u32>) -> Fade
        decreases sums.len(),
    {
        if sums.len() == 0 {
            self
        } else {
            self.after(sums.drop_last()).advanced(sums.last())
        }
    }

    /// A fade at full volume that has played nothing.
    pub fn new() -> (fade: Self)
        ensures
            fade == (Fade { gain: FULL, step: SILENT, target: FULL, left: 0, played: 0 }),
    {
        Self { gain: FULL, step: SILENT, target: FULL, left: 0, played: 0 }
    }

    /// The gain of the next frame.
    pub fn gain(&self) -> (gain: u32)
        ensures
            gain == self.gain,
    {
        self.gain
    }

    /// Stands at `gain` from now on.
    pub fn set(&mut self, gain: u32)
        ensures
            *final(self) == old(self).held(gain),
    {
        let gain: u32 = clamp_gain(gain);
        self.gain = gain;
        self.target = gain;
        self.step = SILENT;
        self.left = 0;
    }

    /// Sets out for `target`, to be there in `frames` frames. `step` is the way
    /// there from the gain as it stands, divided by `frames`. Without a frame
    /// to take, the gain is there at once.
    pub fn ramp(&mut self, target: u32, step: u32, frames: u64)
        ensures
            *final(self) == old(self).ramped(target, step, frames),
    {
        if frames == 0 {
            self.set(target);
            return;
        }
        self.target = clamp_gain(target);
        self.step = step;
        self.left = frames;
    }

    /// Starts playback: from silence to full volume in `frames` frames, where
    /// `step` is one divided by `frames`. Without a frame to take, at full
    /// volume at once.
    pub fn fade_in(&mut self, step: u32, frames: u64)
        ensures
            *final(self) == old(self).started(step, frames),
    {
        if frames > 0 {
            self.set(SILENT);
            self.ramp(FULL, step, frames);
        } else {
            self.set(FULL);
        }
    }

    /// Ends playback: from the gain as it stands to silence in `frames` frames,
    /// where `step` is the way there divided by `frames`.
    pub fn fade_out(&mut self, step: u32, frames: u64)
        ensures
            *final(self) == old(self).ramped(SILENT, step, frames),
    {
        self.ramp(SILENT, step, frames);
    }

    /// The gain of this frame, and one frame on. `stepped` is the sum of the
    /// gain and the step as they stand. The last frame of a ramp lands on the
    /// target itself, wherever the sums have led.
    pub fn advance(&mut self, stepped: u32) -> (gain: u32)
        ensures
            gain == old(self).gain,
            *final(self) == old(self).advanced(stepped),
    {
        let gain: u32 = self.gain;
        match self.left {
            0 => {}
            1 => {
                self.left = 0;
                self.gain = self.target;
            }
            _ => {
                self.left = self.left - 1;
                self.gain = clamp_gain(stepped);
            }
        }
        self.played = self.played.wrapping_add(1);
        gain
    }

    /// How many frames have been played.
    pub fn played(&self) -> (played: u64)
        ensures
            played == self.played,
    {
        self.played
    }
}

/// Gives every channel of a frame the same gain, taken from the fade once a
/// frame.
#[derive(Clone, Copy, Debug, PartialEq, Eq)]
pub struct Fading {
    /// How many samples make a frame.
    pub channels: u16,
    /// How many samples of the frame are left.
    pub left: u16,
    /// The gain of the frame.
    pub gain: u32,
}

impl Fading {
    /// Between two samples, less than a whole frame is left.
    pub open spec fn wf(self) -> bool {
        self.left < self.channels
    }

    /// The clock after one more sample of a fade that stands at `gain`.
    pub open spec fn ticked(self, gain: u32) -> Fading {
        if self.left == 0 {
            Fading { left: (self.channels - 1) as u16, gain, ..self }
        } else {
            Fading { left: (self.left - 1) as u16, ..self }
        }
    }

    /// The fade after one more sample: the first of a frame moves it on, the
    /// others leave it alone.
    pub open spec fn driven(self, fade: Fade, stepped: u32) -> Fade {
        if self.left == 0 {
            fade.advanced(stepped)
        } else {
            fade
        }
    }

    /// A clock for sound of `channels` channels; sound without any counts as
    /// having one.
    pub fn new(channels: u16) -> (fading: Self)
        ensures
            fading.wf(),
            fading.channels == vstd::math::max(channels as int, 1),
            fading.left == 0,
            fading.gain == FULL,
    {
        let channels: u16 = if channels > 1 {
            channels
        } else {
            1
        };
        Self { channels, left: 0, gain: FULL }
    }

    /// The gain of the next sample. The first sample of a frame advances the
    /// fade, whose gain plus step is `stepped`; the others leave it alone.
    pub fn next(&mut self, fade: &mut Fade, stepped: u32) -> (gain: u32)
        requires
            old(self).wf(),
        ensures
            final(self).wf(),
            *final(self) == old(self).ticked(old(fade).gain),
            gain == final(self).gain,
            *final(fade) == old(self).driven(*old(fade), stepped),
            old(self).left == 0 ==> *final(fade) == old(fade).advanced(stepped),
            old(self).left != 0 ==> *final(fade) == *old(fade),
    {
        if self.left == 0 {
            self.gain = fade.advance(stepped);
            self.left = self.channels;
        }
        self.left = self.left - 1;
        self.gain
    }
}

/// The clock and the fade after one sample for each of `sums`.
pub open spec fn sampled(fading: Fading, fade: Fade, sums: Seq<u32>) -> (Fading, Fade)
    decreases sums.len(),
{
    if sums.len() == 0 {
        (fading, fade)
    } else {
        let (clock, at) = sampled(fading, fade, sums.drop_last());
        (
            clock.ticked(at.gain),
            clock.driven(at, sums.last()),
        )
    }
}

/// How many frames `samples` samples have begun, of `channels` samples each.
pub open spec fn frames_begun(samples: int, channels: int) -> int {
    (samples + channels - 1) / channels
}

/// More sound is queued than any fade lasts, so a pause can fade over what is
/// queued already.
pub proof fn law_queue_outlasts_fade(ms: u32)
    ensures
        queued_under(ms as int) > clamped_fade(ms as int),
        FADE_MS_CHOICES@.contains(ms) ==> queued_under(ms as int) > ms,
{
}

/// Longer fades queue no less, and with the fade off nothing extra is queued.
pub proof fn law_queue_grows_with_fade(shorter: u32, longer: u32)
    requires
        shorter <= longer,
    ensures
        queued_under(shorter as int) <= queued_under(longer as int),
        queued_under(0) == QUEUE_MS,
{
}

/// A fade never lasts longer than its milliseconds at the output's rate, and
/// falls short of them by less than one frame.
pub proof fn law_fade_lasts_its_milliseconds(ms: u32, sample_rate: u32)
    ensures
        ({
            let frames = frames_of_fade(ms as int, sample_rate as int);
            let exact = sample_rate * clamped_fade(ms as int);
            &&& frames * 1000 <= exact < (frames + 1) * 1000
        }),
{
}

/// While a ramp lasts it counts its frames down one by one, and on its last
/// frame it is at its target exactly, whatever the sums on the way were.
/// After that it holds there.
pub proof fn law_ramp_lands_and_holds(
    fade: Fade,
    target: u32,
    step: u32,
    frames: u64,
    sums: Seq<u32>,
)
    ensures
        ({
            let end = fade.ramped(target, step, frames).after(sums);
            &&& end.left == vstd::math::max(frames - sums.len(), 0)
            &&& end.target == clamped_gain(target)
            &&& sums.len() >= frames ==> end.gain == clamped_gain(target)
        }),
    decreases sums.len(),
{
    if sums.len() > 0 {
        law_ramp_lands_and_holds(fade, target, step, frames, sums.drop_last());
    }
}

/// Playback starts in silence, where it fades in at all, and is at full volume
/// once the frames of the fade have been played.
pub proof fn law_playback_fades_in(fade: Fade, step: u32, frames: u64, sums: Seq<u32>)
    ensures
        fade.started(step, frames).gain == if frames > 0 {
            SILENT
        } else {
            FULL
        },
        sums.len() >= frames ==> fade.started(step, frames).after(sums).gain == FULL,
{
    law_ramp_lands_and_holds(fade.held(SILENT), FULL, step, frames, sums);
    law_ramp_lands_and_holds(fade, FULL, step, 0, sums);
}

/// On the way down every frame of the ramp is heard, as long as the sums of
/// gain and step stay above zero.
pub proof fn law_fade_out_is_heard(fade: Fade, step: u32, frames: u64, sums: Seq<u32>)
    requires
        is_positive(fade.gain),
        sums.len() < frames,
        forall|i: int| 0 <= i < sums.len() ==> is_positive(#[trigger] sums[i]),
    ensures
        is_positive(fade.ramped(SILENT, step, frames).after(sums).gain),
    decreases sums.len(),
{
    if sums.len() > 0 {
        let before = sums.drop_last();
        assert forall|i: int| 0 <= i < before.len() implies is_positive(#[trigger] before[i]) by {
            assert(before[i] == sums[i]);
        }
        law_fade_out_is_heard(fade, step, frames, before);
        law_ramp_lands_and_holds(fade, SILENT, step, frames, before);
        assert(is_positive(sums[sums.len() - 1]));
    }
}

/// A gain between silence and full volume stays there, as long as every sum is
/// a number.
pub proof fn law_gain_stays_in_range(fade: Fade, sums: Seq<u32>)
    requires
        is_gain(fade.gain),
        is_gain(fade.target),
        forall|i: int| 0 <= i < sums.len() ==> !not_a_number(#[trigger] sums[i]),
    ensures
        is_gain(fade.after(sums).gain),
        is_gain(fade.after(sums).target),
    decreases sums.len(),
{
    if sums.len() > 0 {
        let before = sums.drop_last();
        assert forall|i: int| 0 <= i < before.len() implies !not_a_number(
            #[trigger] before[i],
        ) by {
            assert(before[i] == sums[i]);
        }
        law_gain_stays_in_range(fade, before);
        assert(!not_a_number(sums[sums.len() - 1]));
    }
}

/// A ramp sets out from the gain as it stands, and from its last frame on is at
/// the target it was given, bit for bit, whatever the sums on the way were.
/// Every gain on the way lies between silence and full volume, but for that of
/// a frame whose own sum is no number.
pub proof fn law_ramp_runs_from_gain_to_target(
    fade: Fade,
    target: u32,
    step: u32,
    frames: u64,
    sums: Seq<u32>,
)
    requires
        frames > 0,
        is_gain(fade.gain),
        !not_a_number(target),
    ensures
        ({
            let start = fade.ramped(target, step, frames);
            let end = start.after(sums);
            &&& start.gain == fade.gain
            &&& is_gain(end.gain) || (0 < sums.len() < frames && not_a_number(sums.last())
                && end.gain == sums.last())
            &&& sums.len() >= frames ==> end.gain == clamped_gain(target)
        }),
{
    law_ramp_lands_and_holds(fade, target, step, frames, sums);
    if 0 < sums.len() < frames {
        law_ramp_lands_and_holds(fade, target, step, frames, sums.drop_last());
    }
}

/// Whether each of `sums` can be the sum of the step and of the gain that the
/// fade had when it was given.
pub open spec fn adds_up(fade: Fade, sums: Seq<u32>) -> bool {
    forall|i: int|
        0 <= i < sums.len() ==> can_be_sum(
            #[trigger] sums[i],
            fade.after(sums.take(i)).gain,
            fade.step,
        )
}

/// A ramp that is given what its sums come to, with the finite step that a way
/// between two gains has, never leaves the range from silence to full volume;
/// from its last frame on it is at the target it was given, bit for bit.
pub proof fn law_ramp_stays_in_range(
    fade: Fade,
    target: u32,
    step: u32,
    frames: u64,
    sums: Seq<u32>,
)
    requires
        frames > 0,
        is_gain(fade.gain),
        !not_a_number(target),
        is_finite(step),
        adds_up(fade.ramped(target, step, frames), sums),
    ensures
        ({
            let start = fade.ramped(target, step, frames);
            let end = start.after(sums);
            &&& start.gain == fade.gain
            &&& is_gain(end.gain)
            &&& sums.len() >= frames ==> end.gain == clamped_gain(target)
        }),
    decreases sums.len(),
{
    let start = fade.ramped(target, step, frames);
    law_ramp_runs_from_gain_to_target(fade, target, step, frames, sums);
    if sums.len() > 0 {
        let before = sums.drop_last();
        let last = sums.len() - 1;
        assert(sums.take(last) =~= before);
        assert forall|i: int| 0 <= i < before.len() implies can_be_sum(
            #[trigger] before[i],
            start.after(before.take(i)).gain,
            start.step,
        ) by {
            assert(before.take(i) =~= sums.take(i));
            assert(before[i] == sums[i]);
        }
        law_ramp_stays_in_range(fade, target, step, frames, before);
        assert(can_be_sum(sums[last], start.after(sums.take(last)).gain, start.step));
    }
}

/// Every frame is counted once.
pub proof fn law_every_frame_counts(fade: Fade, sums: Seq<u32>)
    requires
        fade.played + sums.len() <= u64::MAX,
    ensures
        fade.after(sums).played == fade.played + sums.len(),
    decreases sums.len(),
{
    if sums.len() > 0 {
        law_every_frame_counts(fade, sums.drop_last());
    }
}

/// The sums that the first samples of the frames were given.
pub open spec fn frame_sums(sums: Seq<u32>, channels: int) -> Seq<u32> {
    Seq::new(
        frames_begun(sums.len() as int, channels) as nat,
        |frame: int| sums[frame * channels],
    )
}

/// The fade steps once per frame and not once per sample: after any number of
/// samples it stands where one step for each frame begun has brought it. All
/// the samples of a frame play at the gain that the fade had when the frame
/// began, and what is left of the frame is what the samples have not used.
pub proof fn law_one_step_per_frame(fading: Fading, fade: Fade, sums: Seq<u32>)
    requires
        fading.wf(),
        fading.left == 0,
    ensures
        ({
            let (clock, at) = sampled(fading, fade, sums);
            let begun = frames_begun(sums.len() as int, fading.channels as int);
            let steps = frame_sums(sums, fading.channels as int);
            &&& clock.wf()
            &&& clock.channels == fading.channels
            &&& clock.left == begun * fading.channels - sums.len()
            &&& at == fade.after(steps)
            &&& sums.len() > 0 ==> clock.gain == fade.after(steps.drop_last()).gain
        }),
    decreases sums.len(),
{
    let n = sums.len() as int;
    let c = fading.channels as int;
    let steps = frame_sums(sums, c);
    if n == 0 {
        assert(frames_begun(0, c) == 0) by (nonlinear_arith)
            requires
                c > 0,
        ;
    } else {
        let before = sums.drop_last();
        law_one_step_per_frame(fading, fade, before);
        let m = frames_begun(n - 1, c);
        let begun = frames_begun(n, c);
        let left = m * c - (n - 1);
        let earlier = frame_sums(before, c);
        assert(m >= 0) by (nonlinear_arith)
            requires
                m == (n - 1 + c - 1) / c,
                c > 0,
                n > 0,
        ;
        assert forall|k: int| 0 <= k < m implies 0 <= #[trigger] (k * c) < n - 1 by {
            assert(0 <= k * c < n - 1) by (nonlinear_arith)
                requires
                    0 <= k <= m - 1,
                    m * c - (n - 1) < c,
                    c > 0,
            ;
        }
        if left == 0 {
            assert(begun == m + 1 && begun * c == m * c + c) by (nonlinear_arith)
                requires
                    begun == (n + c - 1) / c,
                    m * c == n - 1,
                    c > 0,
            ;
            assert(steps =~= earlier.push(sums.last()));
            assert(steps.drop_last() =~= earlier);
        } else {
            assert(begun == m && begun * c == m * c) by (nonlinear_arith)
                requires
                    begun == (n + c - 1) / c,
                    n <= m * c < n - 1 + c,
                    c > 0,
            ;
            assert(steps =~= earlier);
            assert(n - 1 > 0) by {
                if n - 1 == 0 {
                    assert(frames_begun(0, c) == 0) by (nonlinear_arith)
                        requires
                            c > 0,
                    ;
                }
            }
        }
    }
}

/// What has been played is counted in frames, however many samples each has.
pub proof fn law_played_counts_frames(fading: Fading, fade: Fade, sums: Seq<u32>)
    requires
        fading.wf(),
        fading.left == 0,
        fade.played + frames_begun(sums.len() as int, fading.channels as int) <= u64::MAX,
    ensures
        sampled(fading, fade, sums).1.played == fade.played + frames_begun(
            sums.len() as int,
            fading.channels as int,
        ),
{
    let n = sums.len() as int;
    let c = fading.channels as int;
    law_one_step_per_frame(fading, fade, sums);
    assert(frames_begun(n, c) >= 0) by (nonlinear_arith)
        requires
            n >= 0,
            c > 0,
    ;
    law_every_frame_counts(fade, frame_sums(sums, c));
}

/// While more than one frame of a ramp is left, the gain after a frame is the
/// sum of gain and step that the frame was given, held between silence and full
/// volume, however long the ramp is. The step is the one that the ramp was given
/// all along, and so is the number of frames.
pub proof fn law_ramp_follows_its_sums(
    fade: Fade,
    target: u32,
    step: u32,
    frames: u64,
    sums: Seq<u32>,
)
    requires
        0 < sums.len() < frames,
    ensures
        ({
            let end = fade.ramped(target, step, frames).after(sums);
            &&& is_gain(sums.last()) ==> end.gain == sums.last()
            &&& end.gain == clamped_gain(sums.last())
            &&& end.step == step
            &&& end.left == frames - sums.len()
        }),
{
    law_ramp_lands_and_holds(fade, target, step, frames, sums);
    law_ramp_lands_and_holds(fade, target, step, frames, sums.drop_last());
    lemma_after_keeps_step(fade.ramped(target, step, frames), sums);
}

proof fn lemma_after_keeps_step(fade: Fade, sums: Seq<u32>)
    ensures
        fade.after(sums).step == fade.step,
    decreases sums.len(),
{
    if sums.len() > 0 {
        lemma_after_keeps_step(fade, sums.drop_last());
    }
}

/// Setting out changes neither the gain that is heard next nor what has been
/// played; the step and the frames are those of the ramp.
pub proof fn law_ramp_sets_out_from_where_it_stands(
    fade: Fade,
    target: u32,
    step: u32,
    frames: u64,
)
    requires
        frames > 0,
    ensures
        ({
            let start = fade.ramped(target, step, frames);
            &&& start.gain == fade.gain
            &&& start.step == step
            &&& start.left == frames
            &&& start.played == fade.played
        }),
{
}

/// Playback that fades in takes each frame from the sum it was given, from
/// silence on, with the step and over the frames of the fade.
pub proof fn law_fade_in_follows_its_sums(fade: Fade, step: u32, frames: u64, sums: Seq<u32>)
    requires
        sums.len() < frames,
    ensures
        ({
            let end = fade.started(step, frames).after(sums);
            &&& sums.len() == 0 ==> end.gain == 0
            &&& sums.len() > 0 && is_gain(sums.last()) ==> end.gain == sums.last()
            &&& sums.len() > 0 ==> end.gain == clamped_gain(sums.last())
            &&& end.step == step
            &&& end.left == frames - sums.len()
            &&& fade.started(step, frames).played == fade.played
        }),
{
    lemma_after_keeps_step(fade.started(step, frames), sums);
    if sums.len() > 0 {
        law_ramp_follows_its_sums(fade.held(SILENT), FULL, step, frames, sums);
    }
}

/// A gain that is set, or that no ramp moves, stays as it is for any number of
/// frames, whatever their sums are.
pub proof fn law_gain_holds_without_a_ramp(fade: Fade, gain: u32, sums: Seq<u32>)
    ensures
        fade.held(gain).after(sums).gain == clamped_gain(gain),
        fade.held(gain).played == fade.played,
        fade.left == 0 ==> fade.after(sums).gain == fade.gain && fade.after(sums).left == 0,
    decreases sums.len(),
{
    if sums.len() > 0 {
        law_gain_holds_without_a_ramp(fade, gain, sums.drop_last());
        law_gain_holds_without_a_ramp(fade.held(gain), gain, sums.drop_last());
    } else {
        assert(fade.held(gain).after(sums) == fade.held(gain));
    }
}

/// A gain in range is kept as it is; a number above it becomes one, a number
/// below it zero. Among the numbers above zero a greater bit pattern is a
/// greater number.
pub proof fn law_gain_is_held_to_its_range(bits: u32)
    ensures
        is_gain(bits) ==> clamped_gain(bits) == bits,
        0x3f80_0000 < bits <= 0x7f80_0000 ==> clamped_gain(bits) == 0x3f80_0000,
        0x8000_0000 < bits <= 0xff80_0000 ==> clamped_gain(bits) == 0,
        !not_a_number(bits) ==> clamped_gain(bits) <= 0x3f80_0000 || clamped_gain(bits)
            == 0x8000_0000,
        not_a_number(bits) ==> clamped_gain(bits) == bits,
        not_a_number(bits) == (0x7f80_0000 < bits < 0x8000_0000 || 0xff80_0000 < bits),
        is_gain(bits) == (bits <= 0x3f80_0000 || bits == 0x8000_0000),
{
}

/// A fade setting of up to half a second is taken as it is, and a longer one is
/// brought down to that.
pub proof fn law_fade_setting_is_kept(ms: u32)
    ensures
        ms <= 500 ==> clamped_fade(ms as int) == ms,
        ms > 500 ==> clamped_fade(ms as int) == 500,
{
}

/// The queue holds a fifth of a second, or the fade and sixty milliseconds more
/// where that is longer, and nothing beyond.
pub proof fn law_queue_holds_the_fade_and_no_more(ms: u32)
    requires
        ms <= 500,
    ensures
        queued_under(ms as int) >= 200,
        queued_under(ms as int) >= ms + 60,
        queued_under(ms as int) == 200 || queued_under(ms as int) == ms + 60,
{
}

/// The frames of a fade last its milliseconds to within one frame, for every
/// setting on offer and every rate.
pub proof fn law_fade_frames_last_the_setting(ms: u32, sample_rate: u32)
    requires
        ms <= 500,
    ensures
        ({
            let frames = frames_of_fade(ms as int, sample_rate as int);
            frames * 1000 <= sample_rate * ms < (frames + 1) * 1000
        }),
{
}

/// A pause fades over all the sound that is queued, where the fade is longer, and
/// over the whole fade where it is not; never over more than either. It does not
/// fade just when the fade is off at that rate or nothing is queued.
pub proof fn law_pause_fades_over_what_there_is(fade_ms: u32, sample_rate: u32, queued: u64)
    requires
        fade_ms <= 500,
    ensures
        match paused_over(fade_ms, sample_rate, queued as int) {
            Some(frames) => {
                &&& 0 < frames <= queued
                &&& frames * 1000 <= sample_rate * fade_ms
                &&& frames == queued || sample_rate * fade_ms < (frames + 1) * 1000
            },
            None => queued == 0 || sample_rate * fade_ms < 1000,
        },
{
}

} // verus!
