//! Audio output for local playback.
//!
//! The output is opened when playback starts, and a failure to do so is an
//! error with a message for the interface. What plays, opens and waits is the
//! caller's; what comes next is decided here.

use vstd::prelude::*;

use crate::device::{same_name, OpenError};
use crate::envelope::NUM_CHANNELS;
use crate::fade::{fade_out_frames, queue_ms, ramp_frames, INFINITE, SIGN};
use crate::queue::QueueStart;

verus! {

/// The backend name Settings uses for this sink.
pub const NAME: &'static str = "rodio";

/// Maximum time that stopping waits for the queue to drain, in nanoseconds.
pub const DRAIN_TIMEOUT_NS: u64 = 2_000_000_000;

/// The bit pattern of minus one: a volume that has not been applied.
pub const UNAPPLIED: u32 = 0xbf80_0000;

/// Whether two volumes are equal as numbers: both zeros are one number, and
/// what is no number equals nothing.
pub open spec fn equal_volumes(one: u32, other: u32) -> bool {
    &&& !crate::fade::not_a_number(one)
    &&& !crate::fade::not_a_number(other)
    &&& one == other || ((one == 0 || one == SIGN) && (other == 0 || other == SIGN))
}

/// Whether two volumes are equal as numbers.
pub fn same_volume(one: u32, other: u32) -> (same: bool)
    ensures
        same == equal_volumes(one, other),
{
    let one_counts: bool = one <= INFINITE || (SIGN <= one && one <= 0xff80_0000);
    let other_counts: bool = other <= INFINITE || (SIGN <= other && other <= 0xff80_0000);
    one_counts && other_counts && (one == other || ((one == 0 || one == SIGN) && (other == 0
        || other == SIGN)))
}

/// Why the sink could not do what it was asked.
#[derive(Debug)]
pub enum SinkError {
    /// The output could not be opened.
    ConnectionRefused(OpenError),
    /// The output failed while sound was queued on it.
    OnWrite,
    /// There is no output to write to.
    NotConnected,
}

impl SinkError {
    /// What the interface says about it.
    pub open spec fn text(self) -> Seq<char> {
        match self {
            SinkError::ConnectionRefused(error) => error.text(),
            SinkError::OnWrite => "The audio output stopped working"@,
            SinkError::NotConnected => "the audio output is not open"@,
        }
    }

    /// What the interface says about it.
    pub fn message(&self) -> (message: String)
        ensures
            message@ == self.text(),
    {
        match self {
            SinkError::ConnectionRefused(error) => error.message(),
            SinkError::OnWrite => "The audio output stopped working".to_owned(),
            SinkError::NotConnected => "the audio output is not open".to_owned(),
        }
    }
}

/// An open output. `D` is the device itself.
pub struct Output<D> {
    pub handle: D,
    /// The name of the device the stream was opened on.
    pub device_name: Option<String>,
    /// The rate the stream runs at.
    pub sample_rate: u32,
    /// Whether this track has supplied audio since its last stop.
    pub fed: bool,
    /// When the last packet was written, in nanoseconds.
    pub last_write: Option<u64>,
    /// How many frames have been handed to the output.
    pub appended: u64,
}

impl<D> Output<D> {
    /// The output with nothing written to it.
    pub open spec fn fresh(self) -> Self {
        Output { fed: false, last_write: None, appended: 0, ..self }
    }

    /// The output as a stop leaves it.
    pub open spec fn idle(self) -> Self {
        Output { fed: false, last_write: None, ..self }
    }

    /// The output after a packet of `samples` samples, written at `now`.
    pub open spec fn fed_with(self, samples: usize, now: u64) -> Self {
        Output {
            appended: (self.appended + samples / (NUM_CHANNELS as usize)) as u64,
            fed: true,
            last_write: Some(now),
            ..self
        }
    }

    /// The frames that wait to be played, of which `played` have been.
    pub open spec fn waiting(self, played: int) -> int {
        vstd::math::max(self.appended - played, 0)
    }

    /// The milliseconds that wait to be played, as far as their count reaches.
    pub open spec fn waiting_ms(self, played: int) -> int {
        vstd::math::min(
            self.waiting(played) * 1000 / vstd::math::max(self.sample_rate as int, 1),
            u32::MAX as int,
        )
    }

    /// How late a packet at `now` is, in milliseconds, where the queue had run
    /// dry before it.
    pub open spec fn late_ms(self, now: u64, empty: bool, paused: bool) -> Option<u64> {
        if self.fed && empty && !paused {
            Some(
                match self.last_write {
                    Some(last) => (vstd::math::max(now - last, 0) / 1_000_000) as u64,
                    None => 0,
                },
            )
        } else {
            None
        }
    }

    /// An output that nothing has been written to.
    pub fn new(handle: D, device_name: Option<String>, sample_rate: u32) -> (output: Self)
        ensures
            output == (Output {
                handle,
                device_name,
                sample_rate,
                fed: false,
                last_write: None,
                appended: 0,
            }),
    {
        Self { handle, device_name, sample_rate, fed: false, last_write: None, appended: 0 }
    }

    /// How many frames wait to be played, of which `played` have been.
    pub fn queued_frames(&self, played: u64) -> (frames: u64)
        ensures
            frames == self.waiting(played as int),
    {
        self.appended.saturating_sub(played)
    }

    /// How many milliseconds wait to be played, as far as their count reaches.
    pub fn queued_ms(&self, played: u64) -> (ms: u32)
        ensures
            ms == self.waiting_ms(played as int),
    {
        let rate: u128 = if self.sample_rate > 1 {
            self.sample_rate as u128
        } else {
            1
        };
        let frames: u64 = self.queued_frames(played);
        let ms: u128 = (frames as u128) * 1000 / rate;
        proof {
            let total = frames * 1000;
            assert(total / rate as int >= 0) by (nonlinear_arith)
                requires
                    total >= 0,
                    rate > 0,
            ;
        }
        if ms < u32::MAX as u128 {
            ms as u32
        } else {
            u32::MAX
        }
    }

    /// How late a packet at `now` is, in milliseconds, where the queue had run
    /// dry before it: sound had been supplied, none of it is left, and nothing
    /// holds it back.
    pub fn ran_dry(&self, now: u64, empty: bool, paused: bool) -> (late_ms: Option<u64>)
        ensures
            late_ms == self.late_ms(now, empty, paused),
            late_ms == if self.fed && empty && !paused {
                Some(
                    match self.last_write {
                        Some(last) => (vstd::math::max(now - last, 0) / 1_000_000) as u64,
                        None => 0,
                    },
                )
            } else {
                None
            },
    {
        if self.fed && empty && !paused {
            match self.last_write {
                Some(last) => Some(now.saturating_sub(last) / 1_000_000),
                None => Some(0),
            }
        } else {
            None
        }
    }
}

/// What the sink is at.
#[derive(Clone, Copy, Debug, PartialEq, Eq)]
pub enum Task {
    /// Playback starts.
    Start,
    /// A packet is written.
    Write,
}

/// What the sink wants done next.
#[derive(Clone, Copy, Debug, PartialEq, Eq)]
pub enum Ask {
    /// Name the default output: right now, or as last polled.
    Default { at_once: bool },
    /// Tell whether the output has failed.
    Health,
    /// Open an output.
    Open,
    /// Let the control act on the queue that the output has now, and on its
    /// envelope. `replaced` says that it is in place of another.
    Register { replaced: bool },
    /// Tell whether the queue is to be replaced.
    Reset,
    /// Put a fresh queue on the output's stream, starting with this.
    Replace(QueueStart),
    /// Tell the player's volume.
    Volume,
    /// Set the output's volume.
    SetVolume(u32),
    /// Fade in over so many frames, and play.
    FadeIn { frames: u64 },
    /// Append the packet to the queue.
    Append,
    /// Tell how much of the queue has been played.
    Measure,
    /// Let the queue drain a little.
    Sleep,
}

/// What came of it.
pub enum Answer<D> {
    Default(Option<String>),
    Health { failed: bool },
    Opened(Result<Output<D>, OpenError>),
    Reset(bool),
    Volume(u32),
    Appended { samples: usize, now: u64 },
    Measured { played: u64, failed: bool },
    Done,
}

/// What follows.
pub enum Next {
    Ask(Ask),
    /// The task is done. An error that is `reported` goes to the interface too.
    Finish { result: Result<(), SinkError>, reported: bool },
}

/// Whether `answer` is one that `asked` can have.
pub open spec fn answers<D>(asked: Ask, answer: Answer<D>) -> bool {
    match asked {
        Ask::Default { .. } => answer is Default,
        Ask::Health => answer is Health,
        Ask::Open => answer is Opened,
        Ask::Reset => answer is Reset,
        Ask::Volume => answer is Volume,
        Ask::Append => answer is Appended,
        Ask::Measure => answer is Measured,
        _ => answer is Done,
    }
}

/// A task that has ended well.
pub open spec fn success() -> Next {
    Next::Finish { result: Ok(()), reported: false }
}

/// The sink: which output it wants, and which it has.
pub struct RodioSink<D> {
    /// The output device name from Settings; `None` means the default.
    pub device: Option<String>,
    pub output: Option<Output<D>>,
    /// The volume that the output has been given.
    pub applied_volume: u32,
    /// How much sound to ask the device to hold, in milliseconds. Taken when
    /// the stream opens, so a change lands with the next restart.
    pub buffer_ms: u32,
}

impl<D> RodioSink<D> {
    /// The sink without its output.
    pub open spec fn closed(self) -> Self {
        RodioSink { output: None, ..self }
    }

    /// Whether the sink follows the default output, on a system where that has
    /// to be done for it: no device is chosen, and there is an output to move.
    pub open spec fn follows(self, system_moves: bool) -> bool {
        !system_moves && self.device is None && self.output is Some
    }

    /// Whether the default output is known to be another than the one in use.
    pub open spec fn is_elsewhere(self, current: Option<String>) -> bool {
        &&& current is Some
        &&& self.output matches Some(output) && crate::device::name_view(current)
            != crate::device::name_view(output.device_name)
    }

    /// How a task begins.
    pub open spec fn begun(self, task: Task, waiting_for_track: bool, system_moves: bool) -> Next {
        if task is Write && waiting_for_track {
            success()
        } else if self.follows(system_moves) {
            Next::Ask(Ask::Default { at_once: task is Start })
        } else {
            self.checked()
        }
    }

    /// How to make sure of an output: by asking how the one there is does, or
    /// by opening one.
    pub open spec fn checked(self) -> Next {
        Next::Ask(
            if self.output is Some {
                Ask::Health
            } else {
                Ask::Open
            },
        )
    }

    /// What follows once the output is open and the control acts on it.
    pub open spec fn opened(task: Task) -> Next {
        Next::Ask(
            match task {
                Task::Start => Ask::Volume,
                Task::Write => Ask::Reset,
            },
        )
    }

    /// What follows once the output has its volume.
    pub open spec fn set_up(self, task: Task, fade_ms: u32) -> Next {
        match (task, self.output) {
            (Task::Start, Some(output)) => Next::Ask(
                Ask::FadeIn {
                    frames: crate::fade::frames_of_fade(
                        fade_ms as int,
                        output.sample_rate as int,
                    ) as u64,
                },
            ),
            (Task::Start, None) => success(),
            (Task::Write, Some(_)) => Next::Ask(Ask::Append),
            (Task::Write, None) => Next::Finish {
                result: Err(SinkError::NotConnected),
                reported: false,
            },
        }
    }

    /// What follows a look at the queue: the packet is done once no more is
    /// queued than the fade needs, and fails where the output does first.
    pub open spec fn measured(self, fade_ms: u32, played: u64, failed: bool) -> Next {
        match self.output {
            Some(output) => if output.waiting_ms(played as int) <= crate::fade::queued_under(
                fade_ms as int,
            ) {
                success()
            } else if failed {
                Next::Finish { result: Err(SinkError::OnWrite), reported: true }
            } else {
                Next::Ask(Ask::Sleep)
            },
            None => success(),
        }
    }

    /// The sink once `asked` has been answered, and what follows.
    pub open spec fn stepped(
        self,
        task: Task,
        asked: Ask,
        answer: Answer<D>,
        fade_ms: u32,
    ) -> (Self, Next) {
        match answer {
            Answer::Default(current) => {
                let sink = if self.is_elsewhere(current) { self.closed() } else { self };
                (sink, sink.checked())
            },
            Answer::Health { failed } => if failed {
                (self.closed(), Next::Ask(Ask::Open))
            } else {
                (self, Self::opened(task))
            },
            Answer::Opened(Ok(output)) => (
                RodioSink { output: Some(output), applied_volume: UNAPPLIED, ..self },
                Next::Ask(Ask::Register { replaced: false }),
            ),
            Answer::Opened(Err(error)) => (
                self,
                Next::Finish { result: Err(SinkError::ConnectionRefused(error)), reported: true },
            ),
            Answer::Reset(reset) => (
                self,
                Next::Ask(
                    match self.output {
                        Some(output) if reset => Ask::Replace(
                            QueueStart::for_replacement(output.sample_rate),
                        ),
                        _ => Ask::Volume,
                    },
                ),
            ),
            Answer::Volume(volume) => if self.output is Some && !equal_volumes(
                volume,
                self.applied_volume,
            ) {
                (self, Next::Ask(Ask::SetVolume(volume)))
            } else {
                (self, self.set_up(task, fade_ms))
            },
            Answer::Appended { samples, now } => (
                match self.output {
                    Some(output) => RodioSink {
                        output: Some(output.fed_with(samples, now)),
                        ..self
                    },
                    None => self,
                },
                Next::Ask(Ask::Measure),
            ),
            Answer::Measured { played, failed } => (
                self,
                self.measured(fade_ms, played, failed),
            ),
            Answer::Done => match asked {
                Ask::Register { replaced } => (
                    self,
                    if replaced { Next::Ask(Ask::Volume) } else { Self::opened(task) },
                ),
                Ask::Replace(_) => (
                    match self.output {
                        Some(output) => RodioSink {
                            output: Some(output.fresh()),
                            applied_volume: UNAPPLIED,
                            ..self
                        },
                        None => self,
                    },
                    Next::Ask(Ask::Register { replaced: true }),
                ),
                Ask::SetVolume(volume) => {
                    let sink = RodioSink { applied_volume: volume, ..self };
                    (sink, sink.set_up(task, fade_ms))
                },
                Ask::Sleep => (self, Next::Ask(Ask::Measure)),
                _ => (self, success()),
            },
        }
    }

    /// The frames that a stop fades out over.
    pub open spec fn stops_over(self, fade_ms: u32, played: u64) -> Option<u64> {
        match self.output {
            Some(output) => crate::fade::paused_over(
                fade_ms,
                output.sample_rate,
                output.waiting(played as int),
            ),
            None => None,
        }
    }

    /// Whether a stop waits on.
    pub open spec fn drains(empty: bool, failed: bool, elapsed_ns: u64) -> bool {
        !empty && !failed && elapsed_ns < DRAIN_TIMEOUT_NS
    }

    /// The sink as a stop leaves it.
    pub open spec fn halted(self) -> Self {
        match self.output {
            Some(output) => RodioSink { output: Some(output.idle()), ..self },
            None => self,
        }
    }

    /// A sink that has not opened its output yet.
    pub fn new(device: Option<String>, buffer_ms: u32) -> (sink: Self)
        ensures
            sink == (RodioSink::<D> {
                device,
                output: None,
                applied_volume: UNAPPLIED,
                buffer_ms,
            }),
    {
        Self { device, output: None, applied_volume: UNAPPLIED, buffer_ms }
    }

    /// How a task begins. A packet that arrives while the player waits for
    /// another track is dropped. `system_moves` says that the system moves the
    /// sound to its default output by itself.
    pub fn begin(&self, task: Task, waiting_for_track: bool, system_moves: bool) -> (next: Next)
        ensures
            next == self.begun(task, waiting_for_track, system_moves),
    {
        let start: bool = matches!(task, Task::Start);
        if !start && waiting_for_track {
            return Next::Finish { result: Ok(()), reported: false };
        }
        if !system_moves && self.device.is_none() && self.output.is_some() {
            return Next::Ask(Ask::Default { at_once: start });
        }
        self.check()
    }

    fn check(&self) -> (next: Next)
        ensures
            next == self.checked(),
    {
        if self.output.is_some() {
            Next::Ask(Ask::Health)
        } else {
            Next::Ask(Ask::Open)
        }
    }

    fn proceed(task: Task) -> (next: Next)
        ensures
            next == Self::opened(task),
    {
        match task {
            Task::Start => Next::Ask(Ask::Volume),
            Task::Write => Next::Ask(Ask::Reset),
        }
    }

    fn finish_set_up(&self, task: Task, fade_ms: u32) -> (next: Next)
        ensures
            next == self.set_up(task, fade_ms),
    {
        match (task, &self.output) {
            (Task::Start, Some(output)) => Next::Ask(
                Ask::FadeIn { frames: ramp_frames(fade_ms, output.sample_rate) },
            ),
            (Task::Start, None) => Next::Finish { result: Ok(()), reported: false },
            (Task::Write, Some(_)) => Next::Ask(Ask::Append),
            (Task::Write, None) => Next::Finish {
                result: Err(SinkError::NotConnected),
                reported: false,
            },
        }
    }

    /// Follows the default output: leaves the one in use where the default is
    /// known to be another.
    pub fn follow_default(&mut self, current: Option<String>)
        ensures
            *final(self) == if old(self).is_elsewhere(current) {
                old(self).closed()
            } else {
                *old(self)
            },
    {
        let elsewhere: bool = match &self.output {
            Some(output) => current.is_some() && !same_name(&current, &output.device_name),
            None => false,
        };
        if elsewhere {
            self.output = None;
        }
    }

    /// Takes the answer to what was asked, and tells what follows.
    pub fn step(&mut self, task: Task, asked: Ask, answer: Answer<D>, fade_ms: u32) -> (next: Next)
        requires
            answers(asked, answer),
            answer matches Answer::Appended { samples, .. } ==> (old(self).output matches Some(
                output,
            ) ==> output.appended + samples / (NUM_CHANNELS as usize) <= u64::MAX),
        ensures
            (*final(self), next) == old(self).stepped(task, asked, answer, fade_ms),
    {
        match answer {
            Answer::Default(current) => {
                self.follow_default(current);
                self.check()
            }
            Answer::Health { failed } => {
                if failed {
                    self.output = None;
                    Next::Ask(Ask::Open)
                } else {
                    Self::proceed(task)
                }
            }
            Answer::Opened(Ok(output)) => {
                self.output = Some(output);
                self.applied_volume = UNAPPLIED;
                Next::Ask(Ask::Register { replaced: false })
            }
            Answer::Opened(Err(error)) => Next::Finish {
                result: Err(SinkError::ConnectionRefused(error)),
                reported: true,
            },
            Answer::Reset(reset) => match &self.output {
                Some(output) => {
                    if reset {
                        Next::Ask(Ask::Replace(QueueStart::replacement(output.sample_rate)))
                    } else {
                        Next::Ask(Ask::Volume)
                    }
                }
                None => Next::Ask(Ask::Volume),
            },
            Answer::Volume(volume) => {
                if self.output.is_some() && !same_volume(volume, self.applied_volume) {
                    Next::Ask(Ask::SetVolume(volume))
                } else {
                    self.finish_set_up(task, fade_ms)
                }
            }
            Answer::Appended { samples, now } => {
                if let Some(output) = &mut self.output {
                    output.appended = output.appended + (samples / (NUM_CHANNELS as usize)) as u64;
                    output.fed = true;
                    output.last_write = Some(now);
                }
                Next::Ask(Ask::Measure)
            }
            Answer::Measured { played, failed } => {
                match &self.output {
                    Some(output) => {
                        if output.queued_ms(played) <= queue_ms(fade_ms) {
                            Next::Finish { result: Ok(()), reported: false }
                        } else if failed {
                            Next::Finish { result: Err(SinkError::OnWrite), reported: true }
                        } else {
                            Next::Ask(Ask::Sleep)
                        }
                    }
                    None => Next::Finish { result: Ok(()), reported: false },
                }
            }
            Answer::Done => match asked {
                Ask::Register { replaced } => {
                    if replaced {
                        Next::Ask(Ask::Volume)
                    } else {
                        Self::proceed(task)
                    }
                }
                Ask::Replace(_) => {
                    if let Some(output) = &mut self.output {
                        output.fed = false;
                        output.last_write = None;
                        output.appended = 0;
                        self.applied_volume = UNAPPLIED;
                    }
                    Next::Ask(Ask::Register { replaced: true })
                }
                Ask::SetVolume(volume) => {
                    self.applied_volume = volume;
                    self.finish_set_up(task, fade_ms)
                }
                Ask::Sleep => Next::Ask(Ask::Measure),
                _ => Next::Finish { result: Ok(()), reported: false },
            },
        }
    }

    /// The frames that a stop fades out to silence over, of which `played` have been
    /// played; nothing where there is no output or nothing to fade.
    pub fn stop(&self, fade_ms: u32, played: u64) -> (frames: Option<u64>)
        ensures
            frames == self.stops_over(fade_ms, played),
            frames == match self.output {
                Some(output) => {
                    let over = vstd::math::min(
                        crate::fade::frames_of_fade(fade_ms as int, output.sample_rate as int),
                        output.waiting(played as int),
                    );
                    if over > 0 { Some(over as u64) } else { None }
                },
                None => None,
            },
    {
        match &self.output {
            Some(output) => fade_out_frames(
                fade_ms,
                output.sample_rate,
                output.queued_frames(played),
            ),
            None => None,
        }
    }

    /// Whether a stop waits on: until the queue is empty or the output fails,
    /// but no longer than the time it has.
    pub fn awaits_drain(empty: bool, failed: bool, elapsed_ns: u64) -> (awaits: bool)
        ensures
            awaits == Self::drains(empty, failed, elapsed_ns),
            awaits == (!empty && !failed && elapsed_ns < DRAIN_TIMEOUT_NS),
    {
        !empty && !failed && elapsed_ns < DRAIN_TIMEOUT_NS
    }

    /// Ends a stop. What the queue still holds stays counted.
    pub fn stopped(&mut self)
        ensures
            *final(self) == old(self).halted(),
            *final(self) == match old(self).output {
                Some(output) => RodioSink { output: Some(output.idle()), ..*old(self) },
                None => *old(self),
            },
    {
        if let Some(output) = &mut self.output {
            output.fed = false;
            output.last_write = None;
        }
    }
}

/// Whether `asked` can only be asked of a sink that has an output.
pub open spec fn needs_output(asked: Ask) -> bool {
    !(asked is Default || asked is Open)
}

/// How far a task has come; what is asked next is always further on, but for
/// the wait while the queue drains.
pub open spec fn stage(asked: Ask) -> int {
    match asked {
        Ask::Default { .. } => 0,
        Ask::Health => 1,
        Ask::Open => 2,
        Ask::Register { replaced: false } => 3,
        Ask::Reset => 4,
        Ask::Replace(_) => 5,
        Ask::Register { replaced: true } => 6,
        Ask::Volume => 7,
        Ask::SetVolume(_) => 8,
        Ask::FadeIn { .. } => 9,
        Ask::Append => 9,
        Ask::Measure => 10,
        Ask::Sleep => 10,
    }
}

/// A packet that arrives while the player waits for another track is dropped
/// without a word, whatever the sink is like.
pub proof fn law_held_back_packet_is_dropped<D>(sink: RodioSink<D>, system_moves: bool)
    ensures
        sink.begun(Task::Write, true, system_moves) == success(),
        sink.begun(Task::Start, true, system_moves) == sink.begun(
            Task::Start,
            false,
            system_moves,
        ),
{
}

/// What needs an output is only asked while there is one, from the beginning
/// of a task on.
pub proof fn law_task_begins_with_an_output_or_opens_one<D>(
    sink: RodioSink<D>,
    task: Task,
    waiting_for_track: bool,
    system_moves: bool,
)
    ensures
        sink.begun(task, waiting_for_track, system_moves) matches Next::Ask(asked) ==> (
        needs_output(asked) ==> sink.output is Some),
{
}

/// What needs an output is only asked while there is one, with every step. So
/// a task never ends for want of an output, and one that ends well leaves the
/// sink with one.
pub proof fn law_output_stays_open<D>(
    sink: RodioSink<D>,
    task: Task,
    asked: Ask,
    answer: Answer<D>,
    fade_ms: u32,
)
    requires
        answers(asked, answer),
        needs_output(asked) ==> sink.output is Some,
    ensures
        ({
            let (after, next) = sink.stepped(task, asked, answer, fade_ms);
            &&& next matches Next::Ask(then) ==> (needs_output(then) ==> after.output is Some)
            &&& next matches Next::Finish { result, .. } ==> !(result == Err::<(), SinkError>(
                SinkError::NotConnected,
            ))
            &&& next == success() ==> after.output is Some
        }),
{
}

/// What is queued is counted packet by packet: nothing but a packet, a fresh
/// queue or another output changes how many frames an output has been handed.
pub proof fn law_only_packets_are_counted<D>(
    sink: RodioSink<D>,
    task: Task,
    asked: Ask,
    answer: Answer<D>,
    fade_ms: u32,
)
    requires
        answers(asked, answer),
        !(asked is Append || asked is Replace || asked is Open),
    ensures
        ({
            let after = sink.stepped(task, asked, answer, fade_ms).0;
            after.output is Some ==> sink.output is Some && after.output->0.appended
                == sink.output->0.appended
        }),
{
}

/// An output that cannot be opened is an error that carries the reason and
/// goes to the interface, and that is the only way to be refused.
pub proof fn law_refusal_is_reported<D>(
    sink: RodioSink<D>,
    task: Task,
    asked: Ask,
    answer: Answer<D>,
    fade_ms: u32,
    error: OpenError,
)
    requires
        answers(asked, answer),
    ensures
        ({
            let refused = Next::Finish {
                result: Err(SinkError::ConnectionRefused(error)),
                reported: true,
            };
            let (after, next) = sink.stepped(task, asked, answer, fade_ms);
            &&& (next == refused) == (answer == Answer::<D>::Opened(Err(error)))
            &&& next == refused ==> after == sink
        }),
{
}

/// A write ends well just when no more sound is queued than the fade needs,
/// and is lost only when the output fails before that.
pub proof fn law_write_waits_for_room<D>(
    sink: RodioSink<D>,
    fade_ms: u32,
    played: u64,
    failed: bool,
)
    requires
        sink.output is Some,
    ensures
        ({
            let full = sink.output->0.waiting_ms(played as int) > crate::fade::queued_under(
                fade_ms as int,
            );
            let next = sink.measured(fade_ms, played, failed);
            &&& (next == success()) == !full
            &&& (next == (Next::Finish { result: Err(SinkError::OnWrite), reported: true })) == (
            full && failed)
            &&& (next == Next::Ask(Ask::Sleep)) == (full && !failed)
        }),
{
}

/// A write ends well only on finding room in the queue, looks for room only once
/// its packet has been appended, and fades nothing in.
pub proof fn law_write_ends_well_once_queued<D>(
    sink: RodioSink<D>,
    asked: Ask,
    answer: Answer<D>,
    fade_ms: u32,
)
    requires
        answers(asked, answer),
        needs_output(asked) ==> sink.output is Some,
        !(asked is FadeIn),
    ensures
        ({
            let (after, next) = sink.stepped(Task::Write, asked, answer, fade_ms);
            &&& next == success() ==> asked is Measure
            &&& next == Next::Ask(Ask::Measure) ==> asked is Append || asked is Sleep
            &&& next == Next::Ask(Ask::Sleep) ==> asked is Measure
            &&& !(next matches Next::Ask(Ask::FadeIn { .. }))
        }),
{
}

/// A task under way: the sink, what follows, and how many packets have been
/// appended since the task began.
pub struct Run<D> {
    pub sink: RodioSink<D>,
    pub next: Next,
    pub packets: nat,
}

/// A task after one answer for each of `given`. What is given to a task that has
/// ended changes nothing.
pub open spec fn run<D>(
    sink: RodioSink<D>,
    task: Task,
    first: Next,
    given: Seq<Answer<D>>,
    fade_ms: u32,
) -> Run<D>
    decreases given.len(),
{
    if given.len() == 0 {
        Run { sink, next: first, packets: 0 }
    } else {
        let before = run(sink, task, first, given.drop_last(), fade_ms);
        match before.next {
            Next::Ask(asked) => {
                let (after, next) = before.sink.stepped(task, asked, given.last(), fade_ms);
                Run {
                    sink: after,
                    next,
                    packets: if asked is Append { before.packets + 1 } else { before.packets },
                }
            },
            Next::Finish { .. } => before,
        }
    }
}

/// Whether each of `given` answers what the task asked.
pub open spec fn run_answers<D>(
    sink: RodioSink<D>,
    task: Task,
    first: Next,
    given: Seq<Answer<D>>,
    fade_ms: u32,
) -> bool {
    forall|i: int|
        0 <= i < given.len() ==> (run(sink, task, first, given.take(i), fade_ms).next matches Next::Ask(
            asked,
        ) ==> answers(asked, #[trigger] given[i]))
}

/// A whole write that is not held back, whatever it meets on the way: it ends
/// well only with its packet appended once, and with an output open. It fails
/// in two ways alone: refused before the packet was appended, or with an output
/// that stopped working after.
pub proof fn law_whole_write<D>(
    sink: RodioSink<D>,
    system_moves: bool,
    given: Seq<Answer<D>>,
    fade_ms: u32,
)
    requires
        run_answers(
            sink,
            Task::Write,
            sink.begun(Task::Write, false, system_moves),
            given,
            fade_ms,
        ),
    ensures
        ({
            let first = sink.begun(Task::Write, false, system_moves);
            let end = run(sink, Task::Write, first, given, fade_ms);
            match end.next {
                Next::Ask(asked) => {
                    &&& !(asked is FadeIn)
                    &&& needs_output(asked) ==> end.sink.output is Some
                    &&& end.packets == if asked is Measure || asked is Sleep {
                        1nat
                    } else {
                        0
                    }
                },
                Next::Finish { result: Ok(_), reported } => {
                    &&& end.packets == 1
                    &&& end.sink.output is Some
                    &&& !reported
                },
                Next::Finish { result: Err(SinkError::ConnectionRefused(_)), reported } => {
                    &&& end.packets == 0
                    &&& reported
                },
                Next::Finish { result: Err(SinkError::OnWrite), reported } => {
                    &&& end.packets == 1
                    &&& reported
                },
                Next::Finish { result: Err(SinkError::NotConnected), .. } => false,
            }
        }),
    decreases given.len(),
{
    let first = sink.begun(Task::Write, false, system_moves);
    if given.len() > 0 {
        let earlier = given.drop_last();
        let last = given.len() - 1;
        assert(given.take(last) =~= earlier);
        assert forall|i: int| 0 <= i < earlier.len() implies (run(
            sink,
            Task::Write,
            first,
            earlier.take(i),
            fade_ms,
        ).next matches Next::Ask(asked) ==> answers(asked, #[trigger] earlier[i])) by {
            assert(earlier.take(i) =~= given.take(i));
            assert(earlier[i] == given[i]);
        }
        law_whole_write(sink, system_moves, earlier, fade_ms);
        assert(given[last] == given.last());
    }
}

/// A task comes to an end: every step asks for something further on, until
/// only the queue is waited for.
pub proof fn law_task_moves_on<D>(
    sink: RodioSink<D>,
    task: Task,
    asked: Ask,
    answer: Answer<D>,
    fade_ms: u32,
)
    requires
        answers(asked, answer),
    ensures
        sink.stepped(task, asked, answer, fade_ms).1 matches Next::Ask(then) ==> stage(then)
            > stage(asked) || (stage(asked) == 10 && stage(then) == 10),
{
}

/// Every fresh queue comes under the control before anything else is asked of
/// it: the one of an output that has just been opened, and the one in place of
/// another.
pub proof fn law_fresh_queue_is_registered<D>(
    sink: RodioSink<D>,
    task: Task,
    output: Output<D>,
    start: QueueStart,
    fade_ms: u32,
)
    ensures
        sink.stepped(task, Ask::Open, Answer::Opened(Ok(output)), fade_ms).1 == Next::Ask(
            Ask::Register { replaced: false },
        ),
        sink.stepped(task, Ask::Replace(start), Answer::Done, fade_ms).1 == Next::Ask(
            Ask::Register { replaced: true },
        ),
        sink.stepped(task, Ask::Register { replaced: false }, Answer::Done, fade_ms) == (
            sink,
            RodioSink::<D>::opened(task),
        ),
        sink.stepped(task, Ask::Register { replaced: true }, Answer::Done, fade_ms) == (
            sink,
            Next::Ask(Ask::Volume),
        ),
{
}

/// The first write after an interruption puts a fresh queue on the same output:
/// it rises from silence, has played nothing, comes under the control, gets the
/// player's volume and counts that packet alone. The write after it finds no
/// reset and keeps the queue.
pub proof fn law_replacement_gets_a_fresh_queue<D, T>(
    control: crate::control::AudioControl<T>,
    playing: bool,
    sink: RodioSink<D>,
    volume: u32,
    samples: usize,
    now: u64,
    fade_ms: u32,
)
    requires
        !control.waiting_for_track,
        sink.output is Some,
        volume != UNAPPLIED,
    ensures
        ({
            let ready = control.interrupted(playing).handed_off().released();
            let output = sink.output->0;
            let start = QueueStart::for_replacement(output.sample_rate);
            let reset = Answer::Reset(ready.reset_output);
            let task = Task::Write;
            let (asking, replace) = sink.stepped(task, Ask::Reset, reset, fade_ms);
            let (fresh, register) = asking.stepped(
                task,
                Ask::Replace(start),
                Answer::Done,
                fade_ms,
            );
            let (under, ask_volume) = fresh.stepped(
                task,
                Ask::Register { replaced: true },
                Answer::Done,
                fade_ms,
            );
            let (heard, set) = under.stepped(task, Ask::Volume, Answer::Volume(volume), fade_ms);
            let (loud, append) = heard.stepped(
                task,
                Ask::SetVolume(volume),
                Answer::Done,
                fade_ms,
            );
            let appended = Answer::Appended { samples, now };
            let written = loud.stepped(task, Ask::Append, appended, fade_ms).0;
            let second = written.stepped(
                task,
                Ask::Reset,
                Answer::Reset(ready.reset_taken().reset_output),
                fade_ms,
            );
            &&& !ready.waiting_for_track
            &&& replace == Next::Ask(Ask::Replace(start))
            &&& start.envelope.level == 0
            &&& start.envelope.target == start.envelope.frames
            &&& start.fade == crate::queue::new_fade()
            &&& register == Next::Ask(Ask::Register { replaced: true })
            &&& ask_volume == Next::Ask(Ask::Volume)
            &&& set == Next::Ask(Ask::SetVolume(volume))
            &&& append == Next::Ask(Ask::Append)
            &&& written.output is Some
            &&& written.output->0.handle == output.handle
            &&& written.output->0.appended == samples / (NUM_CHANNELS as usize)
            &&& second == (written, Next::Ask(Ask::Volume))
        }),
{
}

/// A fresh output gets the player's volume before anything plays on it,
/// whatever was applied to the one before. The one volume it is not given is
/// minus one, which no player has.
pub proof fn law_fresh_output_gets_its_volume<D>(
    sink: RodioSink<D>,
    task: Task,
    output: Output<D>,
    start: QueueStart,
    volume: u32,
    fade_ms: u32,
)
    requires
        volume != UNAPPLIED,
    ensures
        ({
            let opened = sink.stepped(task, Ask::Open, Answer::Opened(Ok(output)), fade_ms).0;
            let replaced = opened.stepped(task, Ask::Replace(start), Answer::Done, fade_ms).0;
            let asks = Next::Ask(Ask::SetVolume(volume));
            &&& opened.stepped(task, Ask::Volume, Answer::Volume(volume), fade_ms).1 == asks
            &&& replaced.stepped(task, Ask::Volume, Answer::Volume(volume), fade_ms).1 == asks
        }),
{
}

/// A volume is set once: a volume that has been applied is not set again.
pub proof fn law_volume_is_set_once<D>(
    sink: RodioSink<D>,
    task: Task,
    volume: u32,
    fade_ms: u32,
)
    requires
        !crate::fade::not_a_number(volume),
    ensures
        ({
            let applied = sink.stepped(task, Ask::SetVolume(volume), Answer::Done, fade_ms).0;
            applied.stepped(task, Ask::Volume, Answer::Volume(volume), fade_ms) == (
                applied,
                applied.set_up(task, fade_ms),
            )
        }),
{
}

/// Sound moves only when the default is known and is another than the output
/// in use; a device that the settings name is never left for the default.
pub proof fn law_chosen_device_is_kept<D>(
    sink: RodioSink<D>,
    task: Task,
    waiting_for_track: bool,
    system_moves: bool,
    at_once: bool,
)
    ensures
        sink.device is Some || system_moves ==> sink.begun(task, waiting_for_track, system_moves)
            != Next::Ask(Ask::Default { at_once }),
        !sink.is_elsewhere(None),
{
}

/// On a sink with an output, a volume that differs as a number from the one that
/// was applied is set next, whatever was applied before; once set, it is the
/// volume applied.
pub proof fn law_changed_volume_is_set<D>(
    sink: RodioSink<D>,
    task: Task,
    volume: u32,
    fade_ms: u32,
)
    requires
        sink.output is Some,
    ensures
        !equal_volumes(volume, sink.applied_volume) ==> sink.stepped(
            task,
            Ask::Volume,
            Answer::Volume(volume),
            fade_ms,
        ) == (sink, Next::Ask(Ask::SetVolume(volume))),
        ({
            let after = sink.stepped(task, Ask::SetVolume(volume), Answer::Done, fade_ms).0;
            &&& after.applied_volume == volume
            &&& after.output == sink.output
        }),
{
}

/// Volumes are compared as numbers: a number equals itself, both zeros are
/// equal, two other patterns never are, and what is no number equals nothing.
pub proof fn law_volumes_compare_as_numbers(one: u32, other: u32)
    ensures
        !crate::fade::not_a_number(one) ==> equal_volumes(one, one),
        crate::fade::not_a_number(one) ==> !equal_volumes(one, other) && !equal_volumes(other, one),
        equal_volumes(0, 0x8000_0000) && equal_volumes(0x8000_0000, 0),
        one != other && !(one == 0 && other == 0x8000_0000) && !(one == 0x8000_0000 && other == 0)
            ==> !equal_volumes(one, other),
{
}

/// An output that is found to have failed is dropped and another one opened, in
/// a write as in a start. One that is sound is kept, and the task goes on.
pub proof fn law_failed_output_is_reopened<D>(sink: RodioSink<D>, task: Task, fade_ms: u32)
    ensures
        ({
            let (after, next) = sink.stepped(
                task,
                Ask::Health,
                Answer::Health { failed: true },
                fade_ms,
            );
            &&& after.output is None
            &&& next == Next::Ask(Ask::Open)
        }),
        sink.stepped(task, Ask::Health, Answer::Health { failed: false }, fade_ms).0 == sink,
        sink.stepped(Task::Start, Ask::Health, Answer::Health { failed: false }, fade_ms).1
            == Next::Ask(Ask::Volume),
        sink.stepped(Task::Write, Ask::Health, Answer::Health { failed: false }, fade_ms).1
            == Next::Ask(Ask::Reset),
{
}

/// The sound moves to a default output of another name, by leaving the one in
/// use and opening another; where the default has the name of the one in use, or
/// is not known, the output is kept and looked after.
pub proof fn law_sound_moves_with_the_default<D>(
    sink: RodioSink<D>,
    output: Output<D>,
    task: Task,
    at_once: bool,
    current: Option<String>,
    fade_ms: u32,
)
    requires
        sink.output == Some(output),
    ensures
        ({
            let (after, next) = sink.stepped(
                task,
                Ask::Default { at_once },
                Answer::Default(current),
                fade_ms,
            );
            let moves = current is Some && (output.device_name is None || current->0@
                != output.device_name->0@);
            &&& moves ==> after.output is None && next == Next::Ask(Ask::Open)
            &&& !moves ==> after == sink && next == Next::Ask(Ask::Health)
        }),
{
}

/// A task that is not held back opens an output where there is none, asks for
/// the default where one is followed, and looks after its output otherwise.
pub proof fn law_task_begins_where_it_has_to<D>(
    sink: RodioSink<D>,
    task: Task,
    waiting_for_track: bool,
    system_moves: bool,
)
    requires
        task is Start || !waiting_for_track,
    ensures
        ({
            let next = sink.begun(task, waiting_for_track, system_moves);
            &&& sink.output is None ==> next == Next::Ask(Ask::Open)
            &&& sink.output is Some && sink.device is None && !system_moves ==> next == Next::Ask(
                Ask::Default { at_once: task is Start },
            )
            &&& sink.output is Some && (sink.device is Some || system_moves) ==> next
                == Next::Ask(Ask::Health)
        }),
{
}

/// The output that was opened is the one the sink has from then on, with no
/// volume applied to it yet.
pub proof fn law_opened_output_is_taken<D>(
    sink: RodioSink<D>,
    task: Task,
    output: Output<D>,
    fade_ms: u32,
)
    ensures
        ({
            let after = sink.stepped(task, Ask::Open, Answer::Opened(Ok(output)), fade_ms).0;
            &&& after.output == Some(output)
            &&& after.applied_volume == 0xbf80_0000
        }),
{
}

/// No step changes the device that the settings name or the buffer they ask for.
/// The output itself changes only where it is followed, looked after or opened,
/// and the volume applied only with a fresh queue or by setting it.
pub proof fn law_step_changes_no_more_than_asked<D>(
    sink: RodioSink<D>,
    task: Task,
    asked: Ask,
    answer: Answer<D>,
    fade_ms: u32,
)
    requires
        answers(asked, answer),
    ensures
        ({
            let after = sink.stepped(task, asked, answer, fade_ms).0;
            &&& after.device == sink.device
            &&& after.buffer_ms == sink.buffer_ms
            &&& !(asked is Default || asked is Health || asked is Open) ==> {
                &&& (after.output is Some) == (sink.output is Some)
                &&& after.output is Some ==> {
                    &&& after.output->0.handle == sink.output->0.handle
                    &&& after.output->0.device_name == sink.output->0.device_name
                    &&& after.output->0.sample_rate == sink.output->0.sample_rate
                }
            }
            &&& !(asked is Open || asked is Replace || asked is SetVolume) ==> after.applied_volume
                == sink.applied_volume
        }),
{
}

/// A write that finds no reset goes on with the queue there is; one that finds
/// it puts a fresh one in its place, at the output's own rate.
pub proof fn law_reset_replaces_the_queue<D>(
    sink: RodioSink<D>,
    output: Output<D>,
    task: Task,
    fade_ms: u32,
)
    requires
        sink.output == Some(output),
    ensures
        sink.stepped(task, Ask::Reset, Answer::Reset(false), fade_ms) == (
            sink,
            Next::Ask(Ask::Volume),
        ),
        ({
            let (after, next) = sink.stepped(task, Ask::Reset, Answer::Reset(true), fade_ms);
            &&& after == sink
            &&& next matches Next::Ask(Ask::Replace(start)) && start.to == output.sample_rate
                && start.envelope.level == 0
        }),
{
}

/// Playback that has its volume fades in over the fade of the settings, to
/// within one frame, and then has started; a packet goes to the queue.
pub proof fn law_start_fades_in_and_write_appends<D>(
    sink: RodioSink<D>,
    output: Output<D>,
    volume: u32,
    over: u64,
    fade_ms: u32,
)
    requires
        sink.output == Some(output),
        fade_ms <= 500,
    ensures
        ({
            let known = equal_volumes(volume, sink.applied_volume);
            let heard = sink.stepped(Task::Start, Ask::Volume, Answer::Volume(volume), fade_ms).1;
            let set = sink.stepped(Task::Start, Ask::SetVolume(volume), Answer::Done, fade_ms).1;
            &&& known ==> heard == set
            &&& set matches Next::Ask(Ask::FadeIn { frames }) && frames * 1000
                <= output.sample_rate * fade_ms < (frames + 1) * 1000
            &&& known ==> sink.stepped(
                Task::Write,
                Ask::Volume,
                Answer::Volume(volume),
                fade_ms,
            ).1 == Next::Ask(Ask::Append)
            &&& sink.stepped(Task::Write, Ask::SetVolume(volume), Answer::Done, fade_ms).1
                == Next::Ask(Ask::Append)
        }),
        sink.stepped(Task::Start, Ask::FadeIn { frames: over }, Answer::Done, fade_ms) == (
            sink,
            success(),
        ),
{
    let exact = output.sample_rate * fade_ms;
    assert(0 <= exact <= u32::MAX * 500) by (nonlinear_arith)
        requires
            exact == output.sample_rate * fade_ms,
            0 <= fade_ms <= 500,
            0 <= output.sample_rate <= u32::MAX,
    ;
}

/// A packet adds a frame for each two of its samples to the count, and is what
/// the output was last fed with; the queue is measured next.
pub proof fn law_packet_is_counted_by_its_frames<D>(
    sink: RodioSink<D>,
    output: Output<D>,
    task: Task,
    samples: usize,
    now: u64,
    fade_ms: u32,
)
    requires
        sink.output == Some(output),
        output.appended + samples / 2 <= u64::MAX,
    ensures
        ({
            let (after, next) = sink.stepped(
                task,
                Ask::Append,
                Answer::Appended { samples, now },
                fade_ms,
            );
            let added = after.output->0.appended - output.appended;
            &&& after.output is Some
            &&& 2 * added <= samples < 2 * added + 2
            &&& after.output->0.fed
            &&& after.output->0.last_write == Some(now)
            &&& next == Next::Ask(Ask::Measure)
            &&& sink.stepped(task, Ask::Sleep, Answer::Done, fade_ms) == (
                sink,
                Next::Ask(Ask::Measure),
            )
        }),
{
}

/// What waits to be played is what was appended and has not been played; told in
/// milliseconds it lasts that long at the output's rate, to within one.
pub proof fn law_queue_is_told_in_milliseconds<D>(output: Output<D>, played: u64)
    ensures
        ({
            let frames = output.waiting(played as int);
            let ms = output.waiting_ms(played as int);
            let rate = if output.sample_rate == 0 { 1 } else { output.sample_rate as int };
            &&& played <= output.appended ==> frames + played == output.appended
            &&& played > output.appended ==> frames == 0
            &&& ms <= u32::MAX
            &&& ms < u32::MAX ==> ms * rate <= frames * 1000 < (ms + 1) * rate
            &&& ms == u32::MAX ==> ms * rate <= frames * 1000
        }),
{
    let total = output.waiting(played as int) * 1000;
    let rate = if output.sample_rate == 0 { 1 } else { output.sample_rate as int };
    let whole = total / rate;
    assert(whole * rate <= total < (whole + 1) * rate) by (nonlinear_arith)
        requires
            whole == total / rate,
            rate > 0,
    ;
    if whole > u32::MAX {
        assert(u32::MAX * rate <= whole * rate) by (nonlinear_arith)
            requires
                whole > u32::MAX,
                rate > 0,
        ;
    }
}

/// A write ends well as soon as no more whole milliseconds are queued than a
/// fifth of a second or, where that is longer, the fade and sixty more. Until
/// then it sleeps, and an output that fails meanwhile ends it.
pub proof fn law_queue_is_held_to_its_limit<D>(
    sink: RodioSink<D>,
    output: Output<D>,
    fade_ms: u32,
    played: u64,
    failed: bool,
)
    requires
        sink.output == Some(output),
        output.sample_rate > 0,
        fade_ms <= 500,
    ensures
        ({
            let (after, next) = sink.stepped(
                Task::Write,
                Ask::Measure,
                Answer::Measured { played, failed },
                fade_ms,
            );
            let queued = if played < output.appended { output.appended - played } else { 0 };
            let limit = if fade_ms > 140 { fade_ms + 60 } else { 200 };
            let room = queued * 1000 < (limit + 1) * output.sample_rate;
            &&& after == sink
            &&& (next == success()) == room
            &&& (next == Next::Ask(Ask::Sleep)) == (!room && !failed)
            &&& (next == (Next::Finish { result: Err(SinkError::OnWrite), reported: true })) == (
            !room && failed)
        }),
{
    law_queue_is_told_in_milliseconds(output, played);
    let ms = output.waiting_ms(played as int);
    let rate = output.sample_rate as int;
    let limit = if fade_ms > 140 { fade_ms + 60 } else { 200 };
    let total = output.waiting(played as int) * 1000;
    if ms <= limit {
        assert((ms + 1) * rate <= (limit + 1) * rate) by (nonlinear_arith)
            requires
                ms <= limit,
                rate > 0,
        ;
    } else {
        assert((limit + 1) * rate <= ms * rate) by (nonlinear_arith)
            requires
                limit + 1 <= ms,
                rate > 0,
        ;
    }
}

/// A fresh queue counts from nothing; a stop forgets when the output was fed but
/// keeps what it still holds counted. Neither changes the output itself.
pub proof fn law_stop_keeps_the_count<D>(output: Output<D>)
    ensures
        output.idle().appended == output.appended,
        output.fresh().appended == 0,
        !output.idle().fed && !output.fresh().fed,
        output.idle().last_write is None && output.fresh().last_write is None,
        output.idle().handle == output.handle && output.fresh().handle == output.handle,
        output.idle().device_name == output.device_name,
        output.fresh().device_name == output.device_name,
        output.idle().sample_rate == output.sample_rate,
        output.fresh().sample_rate == output.sample_rate,
{
}

/// A whole start, whatever it meets on the way: it ends well only with an output
/// open and faded in, and fails only where no output could be opened.
pub proof fn law_whole_start<D>(
    sink: RodioSink<D>,
    waiting_for_track: bool,
    system_moves: bool,
    given: Seq<Answer<D>>,
    fade_ms: u32,
)
    requires
        run_answers(
            sink,
            Task::Start,
            sink.begun(Task::Start, waiting_for_track, system_moves),
            given,
            fade_ms,
        ),
    ensures
        ({
            let first = sink.begun(Task::Start, waiting_for_track, system_moves);
            let end = run(sink, Task::Start, first, given, fade_ms);
            match end.next {
                Next::Ask(asked) => {
                    &&& needs_output(asked) ==> end.sink.output is Some
                    &&& asked is Default || asked is Health || asked is Open || asked == (
                    Ask::Register { replaced: false }) || asked is Volume || asked is SetVolume
                        || asked is FadeIn
                },
                Next::Finish { result: Ok(_), reported } => {
                    &&& end.sink.output is Some
                    &&& !reported
                    &&& given.len() > 0
                },
                Next::Finish { result: Err(SinkError::ConnectionRefused(_)), reported } => reported,
                Next::Finish { .. } => false,
            }
        }),
    decreases given.len(),
{
    let first = sink.begun(Task::Start, waiting_for_track, system_moves);
    if given.len() > 0 {
        let earlier = given.drop_last();
        let last = given.len() - 1;
        assert(given.take(last) =~= earlier);
        assert forall|i: int| 0 <= i < earlier.len() implies (run(
            sink,
            Task::Start,
            first,
            earlier.take(i),
            fade_ms,
        ).next matches Next::Ask(asked) ==> answers(asked, #[trigger] earlier[i])) by {
            assert(earlier.take(i) =~= given.take(i));
            assert(earlier[i] == given[i]);
        }
        law_whole_start(sink, waiting_for_track, system_moves, earlier, fade_ms);
        assert(given[last] == given.last());
    }
}

/// A stop fades over no more than is still to be played and no longer than the
/// fade, over one of the two whole, and over nothing without an output. It waits
/// for the queue, or for the output to fail, but for no more than two seconds.
/// All it changes is that the output has not been fed since.
pub proof fn law_stop_fades_and_waits<D>(
    sink: RodioSink<D>,
    output: Output<D>,
    fade_ms: u32,
    played: u64,
    empty: bool,
    failed: bool,
    elapsed_ns: u64,
)
    requires
        sink.output == Some(output),
        fade_ms <= 500,
    ensures
        match sink.stops_over(fade_ms, played) {
            Some(frames) => {
                &&& 0 < frames <= output.appended - played
                &&& frames * 1000 <= output.sample_rate * fade_ms
                &&& frames == output.appended - played || output.sample_rate * fade_ms < (frames
                    + 1) * 1000
            },
            None => output.appended <= played || output.sample_rate * fade_ms < 1000,
        },
        sink.closed().stops_over(fade_ms, played) is None,
        RodioSink::<D>::drains(empty, failed, elapsed_ns) == (!empty && !failed && elapsed_ns
            < 2_000_000_000),
        sink.halted().output == Some(output.idle()),
        sink.halted().applied_volume == sink.applied_volume,
        sink.halted().device == sink.device,
        sink.closed().halted() == sink.closed(),
{
    if played < output.appended {
        crate::fade::law_pause_fades_over_what_there_is(
            fade_ms,
            output.sample_rate,
            (output.appended - played) as u64,
        );
    } else {
        crate::fade::law_pause_fades_over_what_there_is(fade_ms, output.sample_rate, 0);
    }
}

/// A packet counts as late just when the output was fed, its queue is empty and
/// nothing holds it back; it is as late as the time since the last one, in whole
/// milliseconds.
pub proof fn law_late_packet_is_timed<D>(output: Output<D>, now: u64, empty: bool, paused: bool)
    ensures
        (output.late_ms(now, empty, paused) is Some) == (output.fed && empty && !paused),
        output.late_ms(now, empty, paused) matches Some(ms) ==> {
            &&& output.last_write is None ==> ms == 0
            &&& output.last_write matches Some(last) ==> {
                &&& now >= last ==> ms * 1_000_000 <= now - last < (ms + 1) * 1_000_000
                &&& now < last ==> ms == 0
            }
        },
{
}

} // verus!
