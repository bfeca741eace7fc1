use fastpotify::envelope::{
    fade_frames, Envelope, Gain, TransitionSource, INTERRUPT_FADE_MS, NUM_CHANNELS,
};
use fastpotify::fade::{
    clamp_fade_ms, clamp_gain, fade_out_frames, queue_ms, ramp_frames, shared_fade, Fade, Fading,
    FADE_HEADROOM_MS, FADE_MS_CHOICES, FADE_MS_MAX, FULL, QUEUE_MS, SILENT,
};
use fastpotify::queue::QueueStart;
use rodio::Source;

fn ramp(fade: &mut Fade, target: f32, frames: u64) {
    let target = target.clamp(0.0, 1.0);
    let step = (target - f32::from_bits(fade.gain())) / frames as f32;
    fade.ramp(target.to_bits(), step.to_bits(), frames);
}

fn stepped(fade: &Fade) -> u32 {
    (f32::from_bits(fade.gain) + f32::from_bits(fade.step)).to_bits()
}

fn advance(fade: &mut Fade) -> f32 {
    let sum = stepped(fade);
    f32::from_bits(fade.advance(sum))
}

fn gain(fade: &Fade) -> f32 {
    f32::from_bits(fade.gain())
}

fn faded(buffer: rodio::buffer::SamplesBuffer, fade: &mut Fade) -> Vec<f32> {
    let mut fading = Fading::new(buffer.channels());
    let mut out = Vec::new();
    for sample in buffer {
        let sum = stepped(fade);
        out.push(sample * f32::from_bits(fading.next(fade, sum)));
    }
    out
}

fn transitioned(buffer: rodio::buffer::SamplesBuffer, envelope: &mut Envelope) -> Vec<f32> {
    let mut source = TransitionSource::new();
    let mut out = Vec::new();
    for sample in buffer {
        let gain = source.next(envelope);
        out.push(sample * (gain.level as f32 / gain.frames as f32));
    }
    out
}

#[test]
fn a_fade_out_reaches_silence_over_its_frames() {
    let mut fade = Fade::new();
    ramp(&mut fade, 0.0, 100);
    for _ in 0..100 {
        assert!(advance(&mut fade) > 0.0, "every frame of the ramp is audible");
    }
    assert_eq!(gain(&fade), 0.0, "and the next one is silent");
}

#[test]
fn a_fade_in_reaches_full_volume_over_its_frames() {
    let mut fade = Fade::new();
    fade.set(0.0f32.to_bits());
    ramp(&mut fade, 1.0, 50);
    assert_eq!(advance(&mut fade), 0.0, "it starts silent");
    for _ in 0..49 {
        advance(&mut fade);
    }
    assert_eq!(gain(&fade), 1.0);
}

#[test]
fn a_finished_ramp_holds_at_its_target() {
    let mut fade = Fade::new();
    ramp(&mut fade, 0.0, 10);
    for _ in 0..100 {
        advance(&mut fade);
    }
    assert_eq!(gain(&fade), 0.0);
}

#[test]
fn a_ramp_with_no_frames_lands_at_once() {
    let mut fade = Fade::new();
    ramp(&mut fade, 0.0, 0);
    assert_eq!(gain(&fade), 0.0);
    assert_eq!(advance(&mut fade), 0.0);
}

#[test]
fn the_ramp_steps_once_per_frame_not_once_per_sample() {
    let mut fade = Fade::new();
    ramp(&mut fade, 0.0, 4);
    let buffer = rodio::buffer::SamplesBuffer::new(2, 44_100, vec![1.0f32; 8]);
    let faded = faded(buffer, &mut fade);
    assert_eq!(faded, vec![1.0, 1.0, 0.75, 0.75, 0.5, 0.5, 0.25, 0.25]);
    assert_eq!(fade.played(), 4, "four frames, not eight samples");
}

#[test]
fn the_queue_holds_more_sound_than_the_longest_fade() {
    assert_eq!(queue_ms(0), QUEUE_MS, "no fade, no extra buffering");
    for ms in FADE_MS_CHOICES {
        assert!(
            queue_ms(ms) > ms,
            "a {ms} ms fade needs more than {ms} ms of queued sound"
        );
    }
    assert!(queue_ms(500) >= queue_ms(250), "longer fades queue more");
}

#[test]
fn a_fade_lasts_its_milliseconds_at_the_output_rate() {
    assert_eq!(ramp_frames(250, 44_100), 11_025);
    assert_eq!(ramp_frames(250, 48_000), 12_000);
    assert_eq!(ramp_frames(0, 44_100), 0, "off means no ramp at all");
}

#[test]
fn a_fade_from_outside_the_choices_is_brought_back_in() {
    assert_eq!(clamp_fade_ms(10_000), 500);
    assert_eq!(clamp_fade_ms(250), 250);
    assert_eq!(clamp_fade_ms(0), 0);
}

#[test]
fn a_pause_with_the_fade_off_does_not_ramp() {
    assert_eq!(fade_out_frames(0, 44_100, 44_100), None);
}

#[test]
fn a_pause_with_nothing_queued_does_not_ramp() {
    assert_eq!(fade_out_frames(250, 44_100, 0), None);
}

#[test]
fn a_pause_fades_over_the_sound_it_has() {
    assert_eq!(fade_out_frames(250, 44_100, 44_100), Some(11_025));
    assert_eq!(fade_out_frames(250, 44_100, 2_000), Some(2_000));
}

#[test]
fn an_interrupted_signal_fades_out_and_a_replacement_fades_in() {
    let rate = 1_000;
    let frames = fade_frames(rate) as usize;
    let samples = vec![1.0; (frames + 2) * NUM_CHANNELS as usize];

    let mut outgoing = Envelope::full(rate);
    outgoing.fade_out();
    let faded: Vec<_> = transitioned(
        rodio::buffer::SamplesBuffer::new(NUM_CHANNELS.into(), rate, samples.clone()),
        &mut outgoing,
    );
    assert_eq!(faded[0], 1.0);
    assert_eq!(faded[1], 1.0);
    assert_eq!(faded[frames * NUM_CHANNELS as usize], 0.0);

    let mut incoming = Envelope::fade_in(rate);
    let faded: Vec<_> = transitioned(
        rodio::buffer::SamplesBuffer::new(NUM_CHANNELS.into(), rate, samples),
        &mut incoming,
    );
    assert_eq!(faded[0], 0.0);
    assert_eq!(faded[1], 0.0);
    assert_eq!(faded[frames * NUM_CHANNELS as usize], 1.0);
}

#[test]
fn the_shared_fade_starts_in_range() {
    assert_eq!(shared_fade(250).ms, 250);
    assert_eq!(shared_fade(501).ms, FADE_MS_MAX);
    assert_eq!(Some(&FADE_MS_MAX), FADE_MS_CHOICES.last());
}

#[test]
fn the_queue_keeps_a_headroom_over_a_long_fade() {
    assert_eq!(queue_ms(100), QUEUE_MS);
    assert_eq!(queue_ms(250), 250 + FADE_HEADROOM_MS);
    assert_eq!(queue_ms(u32::MAX), 560);
}

#[test]
fn a_fade_at_the_highest_rate_still_counts_its_frames() {
    assert_eq!(ramp_frames(u32::MAX, u32::MAX), 2_147_483_647);
}

#[test]
fn a_gain_is_held_between_silence_and_full_volume() {
    for value in [
        0.0f32,
        1.0,
        0.5,
        1.5,
        -0.5,
        -0.0,
        f32::MIN_POSITIVE,
        -f32::MIN_POSITIVE,
        f32::INFINITY,
        f32::NEG_INFINITY,
        f32::MAX,
        f32::MIN,
        1.0 + f32::EPSILON,
    ] {
        assert_eq!(
            clamp_gain(value.to_bits()),
            value.clamp(0.0, 1.0).to_bits(),
            "{value}"
        );
    }
    assert!(f32::from_bits(clamp_gain(f32::NAN.to_bits())).is_nan());
    assert_eq!(FULL, 1.0f32.to_bits());
    assert_eq!(SILENT, 0.0f32.to_bits());
}

#[test]
fn playback_starts_in_silence_and_rises_to_full_volume() {
    let mut fade = Fade::new();
    fade.fade_in((1.0f32 / 8.0).to_bits(), 8);
    let heard: Vec<f32> = (0..9).map(|_| advance(&mut fade)).collect();
    assert_eq!(heard, vec![0.0, 0.125, 0.25, 0.375, 0.5, 0.625, 0.75, 0.875, 1.0]);
}

#[test]
fn playback_without_a_fade_starts_at_full_volume() {
    let mut fade = Fade::new();
    ramp(&mut fade, 0.0, 4);
    advance(&mut fade);
    fade.fade_in(SILENT, 0);
    assert_eq!(fade.left, 0);
    assert_eq!(advance(&mut fade), 1.0);
    assert_eq!(fade.played(), 2, "what has been played stays counted");
}

#[test]
fn the_last_frame_of_a_ramp_lands_wherever_the_sums_led() {
    let mut fade = Fade::new();
    fade.ramp(SILENT, SILENT, 2);
    fade.advance(0.9f32.to_bits());
    assert_eq!(gain(&fade), 0.9);
    fade.advance(0.9f32.to_bits());
    assert_eq!(gain(&fade), 0.0);
}

#[test]
fn a_stop_fades_to_silence_from_where_the_gain_stands() {
    let mut fade = Fade::new();
    fade.fade_in((1.0f32 / 4.0).to_bits(), 4);
    for _ in 0..2 {
        advance(&mut fade);
    }
    assert_eq!(gain(&fade), 0.5);
    fade.fade_out((-0.5f32 / 4.0).to_bits(), 4);
    let heard: Vec<f32> = (0..6).map(|_| advance(&mut fade)).collect();
    assert_eq!(heard, vec![0.5, 0.375, 0.25, 0.125, 0.0, 0.0]);
}

#[test]
fn a_ramp_stays_in_range_and_lands_on_its_target() {
    for (from, target) in [(1.0f32, 0.0f32), (0.0, 1.0), (0.3, 0.9), (0.9, 0.1), (0.7, 7.0)] {
        for frames in [1u64, 2, 3, 7, 441, 11_025] {
            let mut fade = Fade::new();
            fade.set(from.to_bits());
            ramp(&mut fade, target, frames);
            assert_eq!(gain(&fade), from);
            for _ in 0..frames {
                assert!((0.0..=1.0).contains(&advance(&mut fade)));
            }
            let landed = target.clamp(0.0, 1.0).to_bits();
            assert_eq!(fade.gain(), landed);
            assert_eq!(advance(&mut fade).to_bits(), landed);
            assert_eq!(fade.gain(), landed);
        }
    }
}

#[test]
fn a_sum_of_negative_zero_is_silence() {
    let mut fade = Fade::new();
    ramp(&mut fade, 0.5, 3);
    assert_eq!(fade.advance((-0.0f32).to_bits()), FULL);
    assert_eq!(gain(&fade), 0.0);
    fade.advance(2.0f32.to_bits());
    assert_eq!(gain(&fade), 1.0);
    fade.advance(2.0f32.to_bits());
    assert_eq!(fade.gain(), 0.5f32.to_bits());
}

#[test]
fn a_queue_starts_full_and_a_replacement_in_silence() {
    let first = QueueStart::opening(48_000);
    assert_eq!(
        (first.envelope.level, first.envelope.target, first.envelope.frames),
        (480, 480, 480)
    );
    let next = QueueStart::replacement(48_000);
    assert_eq!(
        (next.envelope.level, next.envelope.target, next.envelope.frames),
        (0, 480, 480)
    );
    for start in [first, next] {
        assert_eq!(start.fade, Fade::new());
        assert_eq!((start.from, start.to, start.channels), (44_100, 48_000, 2));
    }
}

#[test]
fn a_count_of_frames_wraps_around() {
    let mut fade = Fade::new();
    fade.played = u64::MAX;
    fade.advance(FULL);
    assert_eq!(fade.played(), 0);
}

#[test]
fn sound_without_channels_counts_as_having_one() {
    let mut fading = Fading::new(0);
    assert_eq!(fading.channels, 1);
    let mut fade = Fade::new();
    ramp(&mut fade, 0.0, 2);
    for expected in [1.0, 0.5, 0.0] {
        let sum = stepped(&fade);
        assert_eq!(f32::from_bits(fading.next(&mut fade, sum)), expected);
    }
}

#[test]
fn a_frame_cut_short_still_counts() {
    let mut fade = Fade::new();
    ramp(&mut fade, 0.0, 4);
    let buffer = rodio::buffer::SamplesBuffer::new(2, 44_100, vec![1.0f32; 5]);
    assert_eq!(faded(buffer, &mut fade), vec![1.0, 1.0, 0.75, 0.75, 0.5]);
    assert_eq!(fade.played(), 3);
}

#[test]
fn an_interrupted_track_fades_over_ten_milliseconds() {
    assert_eq!(INTERRUPT_FADE_MS, 10);
    assert_eq!(fade_frames(44_100), 441);
    assert_eq!(fade_frames(48_000), 480);
    assert_eq!(fade_frames(0), 1);
    assert_eq!(fade_frames(99), 1);
    assert_eq!(fade_frames(u32::MAX), 42_949_672);
}

#[test]
fn an_envelope_turns_around_from_where_it_stands() {
    let mut envelope = Envelope::fade_in(1_000);
    for _ in 0..4 {
        envelope.next_gain();
    }
    envelope.fade_out();
    let mut heard = Vec::new();
    while !envelope.silent() {
        heard.push(envelope.next_gain());
    }
    let levels: Vec<u32> = heard.iter().map(|gain| gain.level).collect();
    assert_eq!(levels, vec![4, 3, 2, 1]);
    assert_eq!(
        envelope.next_gain(),
        Gain {
            level: 0,
            frames: 10
        }
    );
    assert!(envelope.silent());
}
