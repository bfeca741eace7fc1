//! The buffer that a device is asked for, and the ways to open its stream.

use vstd::prelude::*;

verus! {

/// The rate of the music, in frames a second.
pub const SAMPLE_RATE: u32 = 44_100;

/// Default Windows device buffer length in milliseconds.
///
/// Small platform defaults can click under load. A 100 ms buffer avoids these
/// underruns while keeping controls responsive.
pub const DEFAULT_BUFFER_MS: u32 = 100;

/// The shortest Windows device buffer allowed. Lower values can click.
pub const BUFFER_MS_MIN: u32 = 20;

/// The longest Windows device buffer allowed. Higher values delay playback
/// controls.
pub const BUFFER_MS_MAX: u32 = 500;

/// `value` brought between `low` and `high`.
pub open spec fn between(value: int, low: int, high: int) -> int {
    if value < low {
        low
    } else if value > high {
        high
    } else {
        value
    }
}

/// A buffer length brought into the range allowed.
pub open spec fn buffer_in_range(ms: int) -> int {
    between(ms, BUFFER_MS_MIN as int, BUFFER_MS_MAX as int)
}

/// Brings a buffer length into the range allowed.
pub fn clamp_buffer_ms(ms: u32) -> (clamped: u32)
    ensures
        clamped == buffer_in_range(ms as int),
{
    if ms < BUFFER_MS_MIN {
        BUFFER_MS_MIN
    } else if ms > BUFFER_MS_MAX {
        BUFFER_MS_MAX
    } else {
        ms
    }
}

/// The buffer sizes that a device says it takes, in frames.
#[derive(Clone, Copy, Debug, PartialEq, Eq)]
pub enum SupportedBufferSize {
    Range { min: u32, max: u32 },
    Unknown,
}

/// The buffer that a stream is opened with.
#[derive(Clone, Copy, Debug, PartialEq, Eq)]
pub enum BufferSize {
    /// What the driver chooses.
    Default,
    /// So many frames.
    Fixed(u32),
}

/// The frames in a buffer of the length allowed nearest to `ms`; never none.
pub open spec fn buffer_frames(sample_rate: int, ms: int) -> int {
    vstd::math::max(sample_rate * buffer_in_range(ms) / 1000, 1)
}

/// Whether a device states a range that a buffer can be held to.
pub open spec fn states_range(supported: SupportedBufferSize) -> bool {
    supported matches SupportedBufferSize::Range { min, max } && min <= max && max > 0
}

/// The buffer that a device is asked for: the configured one, held to the
/// range that the device states.
pub open spec fn device_buffer(rate: u32, ms: u32, supported: SupportedBufferSize) -> BufferSize {
    let frames = buffer_frames(rate as int, ms as int);
    BufferSize::Fixed(
        match supported {
            SupportedBufferSize::Range { min, max } if min <= max && max > 0 => between(
                frames,
                vstd::math::max(min as int, 1),
                max as int,
            ) as u32,
            _ => frames as u32,
        },
    )
}

/// The buffer to ask the device for, in frames.
///
/// Held to the range the device reports, because some drivers reject sizes
/// outside of it. A device that reports none is asked for the configured size.
pub fn engine_buffer(sample_rate: u32, ms: u32, supported: SupportedBufferSize) -> (buffer:
    BufferSize)
    ensures
        buffer == device_buffer(sample_rate, ms, supported),
{
    let ms: u32 = clamp_buffer_ms(ms);
    assert(0 <= sample_rate * ms <= u32::MAX * 500) by (nonlinear_arith)
        requires
            0 <= ms <= 500,
            0 <= sample_rate <= u32::MAX,
    ;
    let whole: u64 = (sample_rate as u64) * (ms as u64) / 1000;
    let frames: u32 = if whole > 1 {
        whole as u32
    } else {
        1
    };
    match supported {
        SupportedBufferSize::Range { min, max } => {
            if min <= max && max > 0 {
                let low: u32 = if min > 1 {
                    min
                } else {
                    1
                };
                if frames < low {
                    BufferSize::Fixed(low)
                } else if frames > max {
                    BufferSize::Fixed(max)
                } else {
                    BufferSize::Fixed(frames)
                }
            } else {
                BufferSize::Fixed(frames)
            }
        }
        SupportedBufferSize::Unknown => BufferSize::Fixed(frames),
    }
}

/// How far the opening of a stream has come.
#[derive(Clone, Copy, Debug, PartialEq, Eq)]
pub enum Opening {
    /// Nothing has been tried.
    Start,
    /// The music's own rate has been tried, so that nothing is converted.
    AtMusicRate,
    /// The device has been asked for its own rate.
    AskingRate,
    /// The device's own rate has been tried.
    AtOwnRate,
    /// Whatever can be found has been tried.
    Falling,
}

/// What came of the last step.
#[derive(Clone, Copy, Debug, PartialEq, Eq)]
pub enum Answer {
    /// There was no step yet.
    Begin,
    /// The device could not even be prepared.
    Unprepared,
    /// The device was prepared, but the stream did not open.
    Refused,
    /// The stream is open.
    Opened,
    /// The device's own rate, where it states one.
    Rate(Option<u32>),
}

/// The next step.
#[derive(Clone, Copy, Debug, PartialEq, Eq)]
pub enum Step {
    /// Open the stream at `rate`, with `buffer` where there is one and with
    /// the driver's own otherwise.
    Open { rate: u32, buffer: Option<BufferSize> },
    /// Ask the device for its own rate.
    AskRate,
    /// Open the stream at `rate` with the driver's buffer, or at whatever else
    /// can be found.
    OpenOrFallBack { rate: u32 },
    /// The stream is open.
    Done,
    /// The last error stands.
    Fail,
}

/// How many more steps there can be.
pub open spec fn steps_left(at: Opening) -> int {
    match at {
        Opening::Start => 4,
        Opening::AtMusicRate => 3,
        Opening::AskingRate => 2,
        Opening::AtOwnRate => 1,
        Opening::Falling => 0,
    }
}

/// Whether `answer` is one that the step before can have.
pub open spec fn answers(at: Opening, answer: Answer) -> bool {
    match at {
        Opening::Start => answer is Begin,
        Opening::AskingRate => answer is Rate,
        _ => answer is Unprepared || answer is Refused || answer is Opened,
    }
}

/// The buffer that an attempt at `rate` asks for.
pub open spec fn asked_buffer(
    fixed: bool,
    rate: u32,
    buffer_ms: u32,
    supported: SupportedBufferSize,
) -> Option<BufferSize> {
    if fixed {
        Some(device_buffer(rate, buffer_ms, supported))
    } else {
        None
    }
}

fn attempt_buffer(fixed: bool, rate: u32, buffer_ms: u32, supported: SupportedBufferSize) -> (buffer:
    Option<BufferSize>)
    ensures
        buffer == asked_buffer(fixed, rate, buffer_ms, supported),
{
    if fixed {
        Some(engine_buffer(rate, buffer_ms, supported))
    } else {
        None
    }
}

/// The next step in opening a stream, after `answer` to the step before.
pub open spec fn opening_step(
    at: Opening,
    answer: Answer,
    fixed: bool,
    buffer_ms: u32,
    supported: SupportedBufferSize,
) -> (Opening, Step) {
    match answer {
        Answer::Opened => (at, Step::Done),
        Answer::Unprepared => (at, Step::Fail),
        Answer::Begin => (
            Opening::AtMusicRate,
            Step::Open {
                rate: SAMPLE_RATE,
                buffer: asked_buffer(fixed, SAMPLE_RATE, buffer_ms, supported),
            },
        ),
        Answer::Rate(Some(rate)) => (
            Opening::AtOwnRate,
            Step::Open { rate, buffer: asked_buffer(fixed, rate, buffer_ms, supported) },
        ),
        Answer::Rate(None) => (Opening::Falling, Step::OpenOrFallBack { rate: SAMPLE_RATE }),
        Answer::Refused => match at {
            Opening::AtMusicRate => (Opening::AskingRate, Step::AskRate),
            Opening::AtOwnRate => (Opening::Falling, Step::OpenOrFallBack { rate: SAMPLE_RATE }),
            _ => (at, Step::Fail),
        },
    }
}

/// The next step in opening a stream: at the music's own rate, so nothing is
/// converted, else at the device's own rate, which some systems insist on for
/// a shared device, else at whatever can be found.
///
/// The first two attempts ask for the configured buffer where `fixed` says so.
/// The fallback lets the driver choose.
pub fn open_stream(
    at: Opening,
    answer: Answer,
    fixed: bool,
    buffer_ms: u32,
    supported: SupportedBufferSize,
) -> (next: (Opening, Step))
    requires
        answers(at, answer),
    ensures
        next == opening_step(at, answer, fixed, buffer_ms, supported),
        answer is Opened ==> next == (at, Step::Done),
        answer is Unprepared ==> next == (at, Step::Fail),
        answer is Begin ==> next == (
            Opening::AtMusicRate,
            (Step::Open {
                rate: SAMPLE_RATE,
                buffer: asked_buffer(fixed, SAMPLE_RATE, buffer_ms, supported),
            }),
        ),
        answer is Refused && at is AtMusicRate ==> next == (Opening::AskingRate, Step::AskRate),
        answer matches Answer::Rate(Some(rate)) ==> next == (
            Opening::AtOwnRate,
            (Step::Open { rate, buffer: asked_buffer(fixed, rate, buffer_ms, supported) }),
        ),
        answer == Answer::Rate(None) || (answer is Refused && at is AtOwnRate) ==> next == (
            Opening::Falling,
            (Step::OpenOrFallBack { rate: SAMPLE_RATE }),
        ),
        answer is Refused && at is Falling ==> next == (at, Step::Fail),
        next.1 is Done || next.1 is Fail || steps_left(next.0) < steps_left(at),
{
    match answer {
        Answer::Opened => (at, Step::Done),
        Answer::Unprepared => (at, Step::Fail),
        Answer::Begin => {
            let buffer: Option<BufferSize> = attempt_buffer(
                fixed,
                SAMPLE_RATE,
                buffer_ms,
                supported,
            );
            (Opening::AtMusicRate, Step::Open { rate: SAMPLE_RATE, buffer })
        }
        Answer::Rate(Some(rate)) => {
            let buffer: Option<BufferSize> = attempt_buffer(fixed, rate, buffer_ms, supported);
            (Opening::AtOwnRate, Step::Open { rate, buffer })
        }
        Answer::Rate(None) => (Opening::Falling, Step::OpenOrFallBack { rate: SAMPLE_RATE }),
        Answer::Refused => match at {
            Opening::AtMusicRate => (Opening::AskingRate, Step::AskRate),
            Opening::AtOwnRate => (Opening::Falling, Step::OpenOrFallBack { rate: SAMPLE_RATE }),
            _ => (at, Step::Fail),
        },
    }
}

/// A device that states its range is kept inside it.
pub proof fn law_buffer_fits_the_device(
    rate: u32,
    buffer_ms: u32,
    supported: SupportedBufferSize,
)
    requires
        states_range(supported),
    ensures
        device_buffer(rate, buffer_ms, supported) matches BufferSize::Fixed(frames)
            && supported->min <= frames <= supported->max && frames >= 1,
{
}

/// A buffer always holds at least one frame and, on a device that states no
/// range, just the frames of the configured length.
pub proof fn law_buffer_is_never_empty(rate: u32, buffer_ms: u32, supported: SupportedBufferSize)
    ensures
        device_buffer(rate, buffer_ms, supported) matches BufferSize::Fixed(frames)
            && frames >= 1 && (!states_range(supported) ==> frames == buffer_frames(
            rate as int,
            buffer_ms as int,
        )),
{
    let ms = buffer_in_range(buffer_ms as int);
    assert(0 <= rate * ms / 1000 <= u32::MAX) by (nonlinear_arith)
        requires
            20 <= ms <= 500,
            0 <= rate <= u32::MAX,
    ;
}

/// A setting outside the range allowed asks for what the nearest setting
/// inside it asks for.
pub proof fn law_wild_setting_is_brought_back_in(
    rate: u32,
    buffer_ms: u32,
    supported: SupportedBufferSize,
)
    ensures
        device_buffer(rate, buffer_ms, supported) == device_buffer(
            rate,
            buffer_in_range(buffer_ms as int) as u32,
            supported,
        ),
{
}

/// On a device that states no range, the frames asked for last the configured
/// length to within one frame, for every setting allowed and every rate at which
/// that is a frame at all.
pub proof fn law_buffer_lasts_the_setting(rate: u32, ms: u32, supported: SupportedBufferSize)
    requires
        20 <= ms <= 500,
        rate >= 50,
        !states_range(supported),
    ensures
        device_buffer(rate, ms, supported) matches BufferSize::Fixed(frames) && frames * 1000
            <= rate * ms < (frames + 1) * 1000,
{
    assert(1000 <= rate * ms <= u32::MAX * 500) by (nonlinear_arith)
        requires
            20 <= ms <= 500,
            50 <= rate <= u32::MAX,
    ;
}

/// A device that states a range gets what one without gets, wherever that lies
/// in the range, and the nearest end of the range otherwise.
pub proof fn law_range_moves_only_what_lies_outside(
    rate: u32,
    ms: u32,
    min: u32,
    max: u32,
    plain: u32,
    held: u32,
)
    requires
        min <= max,
        max > 0,
        device_buffer(rate, ms, SupportedBufferSize::Unknown) == BufferSize::Fixed(plain),
        device_buffer(rate, ms, (SupportedBufferSize::Range { min, max })) == BufferSize::Fixed(
            held,
        ),
    ensures
        min <= plain <= max ==> held == plain,
        plain > max ==> held == max,
        plain < min ==> held == min,
{
    law_buffer_is_never_empty(rate, ms, SupportedBufferSize::Unknown);
}

/// A setting from twenty to five hundred milliseconds is taken as it is; a
/// shorter one counts as twenty and a longer one as five hundred.
pub proof fn law_buffer_setting_is_kept(ms: u32)
    ensures
        20 <= ms <= 500 ==> buffer_in_range(ms as int) == ms,
        ms < 20 ==> buffer_in_range(ms as int) == 20,
        ms > 500 ==> buffer_in_range(ms as int) == 500,
{
}

/// An attempt asks for the device's buffer just where a fixed one is wanted.
pub proof fn law_buffer_is_asked_for_where_fixed(
    rate: u32,
    ms: u32,
    supported: SupportedBufferSize,
)
    ensures
        asked_buffer(false, rate, ms, supported) is None,
        asked_buffer(true, rate, ms, supported) == Some(device_buffer(rate, ms, supported)),
{
}

/// A stream is tried at the music's rate first, then at the device's own where it
/// has one, then at whatever can be found; each attempt that opens is the last,
/// and only one that the device refuses is followed by another. The first two ask
/// for the configured buffer at their rate, the last leaves it to the driver.
pub proof fn law_stream_is_tried_in_order(
    fixed: bool,
    buffer_ms: u32,
    supported: SupportedBufferSize,
    own: u32,
    at: Opening,
)
    ensures
        ({
            let step = |at: Opening, answer: Answer|
                opening_step(at, answer, fixed, buffer_ms, supported);
            let first = step(Opening::Start, Answer::Begin);
            let asks = step(first.0, Answer::Refused);
            let second = step(asks.0, Answer::Rate(Some(own)));
            let without = step(asks.0, Answer::Rate(None));
            let third = step(second.0, Answer::Refused);
            &&& first.1 == (Step::Open {
                rate: 44_100,
                buffer: if fixed {
                    Some(device_buffer(44_100, buffer_ms, supported))
                } else {
                    None
                },
            })
            &&& asks.1 is AskRate
            &&& second.1 == (Step::Open {
                rate: own,
                buffer: if fixed {
                    Some(device_buffer(own, buffer_ms, supported))
                } else {
                    None
                },
            })
            &&& third.1 == (Step::OpenOrFallBack { rate: 44_100 })
            &&& without == third
            &&& step(third.0, Answer::Refused).1 is Fail
            &&& step(at, Answer::Opened).1 is Done
            &&& step(at, Answer::Unprepared).1 is Fail
        }),
{
}

} // verus!
