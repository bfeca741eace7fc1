use std::collections::VecDeque;

use fastpotify::control::{AudioControl, Interrupt};
use fastpotify::device::{
    choose_device, default_device, device_request, find_device, is_white_space, open_output,
    same_name, trim, DefaultWatch, DeviceRequest, Found, OpenError, Seek,
};
use fastpotify::fade::{shared_fade, FULL};
use fastpotify::queue::QueueStart;
use fastpotify::sink::{
    same_volume, Answer, Ask, Next, Output, RodioSink, SinkError, Task, DRAIN_TIMEOUT_NS, NAME,
    UNAPPLIED,
};
use fastpotify::stream::{
    clamp_buffer_ms, engine_buffer, open_stream, BufferSize, Opening, Step, SupportedBufferSize,
    BUFFER_MS_MAX, BUFFER_MS_MIN, DEFAULT_BUFFER_MS, SAMPLE_RATE,
};
use librespot_playback::mixer::{NoOpVolume, VolumeGetter};

/// Converts the configured buffer duration to device frames.
#[test]
fn the_buffer_follows_the_setting_and_the_rate() {
    let unknown = SupportedBufferSize::Unknown;
    assert_eq!(
        engine_buffer(44_100, 100, unknown),
        BufferSize::Fixed(4410),
        "a tenth of a second at 44.1 kHz"
    );
    assert_eq!(
        engine_buffer(48_000, 100, unknown),
        BufferSize::Fixed(4800),
        "the same tenth of a second at 48 kHz"
    );
    assert_eq!(engine_buffer(44_100, 20, unknown), BufferSize::Fixed(882));
}

/// Clamps the buffer to the device range required by CoreAudio.
#[test]
fn a_device_that_states_its_range_is_kept_inside_it() {
    let range = SupportedBufferSize::Range { min: 64, max: 2048 };
    assert_eq!(
        engine_buffer(44_100, 100, range),
        BufferSize::Fixed(2048),
        "held down to what the device can take"
    );
    assert_eq!(
        engine_buffer(44_100, 20, range),
        BufferSize::Fixed(882),
        "and left alone when it fits"
    );
    let tiny = SupportedBufferSize::Range {
        min: 4096,
        max: 8192,
    };
    assert_eq!(
        engine_buffer(44_100, 20, tiny),
        BufferSize::Fixed(4096),
        "and brought up to a device that will not go smaller"
    );
}

/// Rule: a settings file with a wild number in it still opens a
/// stream. The range is the range whoever wrote the file thought of.
#[test]
fn a_number_from_outside_the_range_is_brought_back_in() {
    let unknown = SupportedBufferSize::Unknown;
    assert_eq!(
        engine_buffer(44_100, 0, unknown),
        engine_buffer(44_100, BUFFER_MS_MIN, unknown)
    );
    assert_eq!(
        engine_buffer(44_100, 100_000, unknown),
        engine_buffer(44_100, BUFFER_MS_MAX, unknown)
    );
}

#[test]
fn a_range_that_says_nothing_is_passed_over() {
    let empty = SupportedBufferSize::Range { min: 0, max: 0 };
    assert_eq!(engine_buffer(44_100, 100, empty), BufferSize::Fixed(4410));
    let crossed = SupportedBufferSize::Range { min: 512, max: 256 };
    assert_eq!(engine_buffer(44_100, 100, crossed), BufferSize::Fixed(4410));
}

#[test]
fn a_buffer_is_never_empty() {
    assert_eq!(
        engine_buffer(0, 100, SupportedBufferSize::Unknown),
        BufferSize::Fixed(1)
    );
    assert_eq!(
        engine_buffer(0, 100, SupportedBufferSize::Range { min: 0, max: 9 }),
        BufferSize::Fixed(1)
    );
}

#[test]
fn the_music_has_the_players_rate_and_channels() {
    assert_eq!(SAMPLE_RATE, librespot_playback::SAMPLE_RATE);
    assert_eq!(
        fastpotify::envelope::NUM_CHANNELS,
        librespot_playback::NUM_CHANNELS
    );
}

#[test]
fn the_default_buffer_is_one_that_is_allowed() {
    assert_eq!(clamp_buffer_ms(DEFAULT_BUFFER_MS), DEFAULT_BUFFER_MS);
    assert_eq!(clamp_buffer_ms(19), 20);
    assert_eq!(clamp_buffer_ms(501), 500);
}

/// Opens a stream on a device that answers as scripted, and lists the steps.
fn opening(script: &[fastpotify::stream::Answer], fixed: bool) -> Vec<Step> {
    let mut at = Opening::Start;
    let mut answers: VecDeque<_> = script.iter().copied().collect();
    let mut answer = fastpotify::stream::Answer::Begin;
    let mut steps = Vec::new();
    loop {
        let (next, step) = open_stream(at, answer, fixed, 100, SupportedBufferSize::Unknown);
        steps.push(step);
        if matches!(step, Step::Done | Step::Fail) {
            return steps;
        }
        at = next;
        answer = answers.pop_front().unwrap();
    }
}

#[test]
fn a_stream_opens_at_the_musics_own_rate_where_it_can() {
    assert_eq!(
        opening(&[fastpotify::stream::Answer::Opened], false),
        vec![
            Step::Open {
                rate: SAMPLE_RATE,
                buffer: None
            },
            Step::Done
        ]
    );
}

#[test]
fn a_stream_falls_back_to_the_devices_rate_and_then_to_anything() {
    assert_eq!(
        opening(
            &[
                fastpotify::stream::Answer::Refused,
                fastpotify::stream::Answer::Rate(Some(48_000)),
                fastpotify::stream::Answer::Refused,
                fastpotify::stream::Answer::Opened,
            ],
            true
        ),
        vec![
            Step::Open {
                rate: 44_100,
                buffer: Some(BufferSize::Fixed(4410))
            },
            Step::AskRate,
            Step::Open {
                rate: 48_000,
                buffer: Some(BufferSize::Fixed(4800))
            },
            Step::OpenOrFallBack { rate: 44_100 },
            Step::Done,
        ]
    );
}

#[test]
fn a_device_without_a_rate_of_its_own_goes_straight_to_the_fallback() {
    assert_eq!(
        opening(
            &[
                fastpotify::stream::Answer::Refused,
                fastpotify::stream::Answer::Rate(None),
                fastpotify::stream::Answer::Refused,
            ],
            false
        ),
        vec![
            Step::Open {
                rate: 44_100,
                buffer: None
            },
            Step::AskRate,
            Step::OpenOrFallBack { rate: 44_100 },
            Step::Fail,
        ]
    );
}

#[test]
fn a_device_that_cannot_be_prepared_is_given_up_at_once() {
    assert_eq!(
        opening(&[fastpotify::stream::Answer::Unprepared], false).last(),
        Some(&Step::Fail)
    );
    assert_eq!(
        opening(
            &[
                fastpotify::stream::Answer::Refused,
                fastpotify::stream::Answer::Rate(Some(96_000)),
                fastpotify::stream::Answer::Unprepared,
            ],
            false
        )
        .len(),
        4
    );
}

#[test]
fn white_space_is_what_the_language_says_it_is() {
    for code in 0..=0x0010_ffff {
        if let Some(c) = char::from_u32(code) {
            assert_eq!(is_white_space(c), c.is_whitespace(), "{code:#x}");
        }
    }
}

#[test]
fn a_name_loses_the_space_around_it_and_no_other() {
    for name in ["", "  ", "Speakers", " Speakers\t", "\u{3000}a b\n", "\u{a0}", " é "] {
        assert_eq!(trim(name), name.trim());
    }
}

#[test]
fn a_blank_setting_asks_for_the_default() {
    assert!(matches!(device_request(None), DeviceRequest::Default));
    assert!(matches!(device_request(Some("")), DeviceRequest::Default));
    assert!(matches!(device_request(Some(" \t")), DeviceRequest::Default));
    match device_request(Some(" Headphones ")) {
        DeviceRequest::Named(name) => assert_eq!(name, "Headphones"),
        DeviceRequest::Default => panic!("the name was dropped"),
    }
}

fn names(list: &[Option<&str>]) -> Vec<Option<String>> {
    list.iter().map(|name| name.map(str::to_owned)).collect()
}

#[test]
fn the_first_device_of_the_name_is_chosen() {
    let listed = names(&[None, Some("A"), Some("B"), Some("B")]);
    assert_eq!(find_device(&listed, &"B".to_owned()), Some(2));
    assert_eq!(find_device(&listed, &"C".to_owned()), None);
    assert_eq!(
        choose_device(&"A".to_owned(), Ok(names(&[Some("A")]))).unwrap(),
        Some(0)
    );
    assert_eq!(
        choose_device(&"A".to_owned(), Ok(names(&[None]))).unwrap(),
        None,
        "a device that is gone leaves the default"
    );
}

#[test]
fn devices_that_cannot_be_listed_are_an_error() {
    let error = choose_device(&"A".to_owned(), Err("host is gone".to_owned())).unwrap_err();
    assert_eq!(
        error.message(),
        "Cannot list the audio devices: host is gone"
    );
}

#[test]
fn no_default_device_is_an_error() {
    assert!(default_device(true).is_ok());
    let error = default_device(false).unwrap_err();
    assert_eq!(
        error.message(),
        "No audio output device was found. Connect or enable one, then press play again."
    );
    assert_eq!(
        OpenError::Stream("busy".to_owned()).message(),
        "Cannot open the audio output: busy"
    );
}

/// Opens an output on a system that lists `listed` and has a default device or
/// not, and tells the device it was opened on.
fn seek(
    preferred: Option<&str>,
    listed: Result<&[Option<&str>], &str>,
    there: bool,
    stream: Result<u32, &str>,
) -> (Option<Option<usize>>, Result<QueueStart, String>) {
    let mut device = None;
    let mut found = Found::Begin;
    loop {
        found = match open_output(preferred, found) {
            Seek::List => Found::Listed(listed.map(names).map_err(str::to_owned)),
            Seek::AskDefault => Found::Default(there),
            Seek::OpenListed(index) => {
                device = Some(Some(index));
                Found::Stream(stream.map_err(str::to_owned))
            }
            Seek::OpenDefault => {
                device = Some(None);
                Found::Stream(stream.map_err(str::to_owned))
            }
            Seek::Refuse(error) => return (device, Err(error.message())),
            Seek::Ready { start, failed } => {
                assert!(!failed);
                return (device, Ok(start));
            }
        };
    }
}

#[test]
fn the_output_opens_on_the_device_asked_for() {
    let listed = [None, Some("A"), Some("B"), Some("B")];
    let full = QueueStart::opening(48_000);
    let open = |preferred| seek(preferred, Ok(&listed), true, Ok(48_000));
    assert_eq!(open(Some(" B ")), (Some(Some(2)), Ok(full)));
    assert_eq!(open(Some("C")), (Some(None), Ok(full)));
    assert_eq!(open(Some("  ")), (Some(None), Ok(full)));
    assert_eq!(open(None), (Some(None), Ok(full)));
    assert_eq!(
        seek(None, Err("unused"), true, Ok(48_000)),
        (Some(None), Ok(full)),
        "the default needs no list"
    );
    assert_eq!(
        seek(Some("A"), Ok(&listed), false, Ok(48_000)).0,
        Some(Some(1)),
        "a named device needs no default"
    );
}

#[test]
fn an_output_that_cannot_be_opened_says_why() {
    let listed = [Some("A")];
    assert_eq!(
        seek(Some("A"), Err("no host"), true, Ok(1)),
        (
            None,
            Err("Cannot list the audio devices: no host".to_owned())
        )
    );
    let missing =
        "No audio output device was found. Connect or enable one, then press play again.";
    assert_eq!(
        seek(None, Ok(&listed), false, Ok(1)),
        (None, Err(missing.to_owned()))
    );
    assert_eq!(
        seek(Some("B"), Ok(&listed), false, Ok(1)),
        (None, Err(missing.to_owned()))
    );
    assert_eq!(
        seek(Some("A"), Ok(&listed), true, Err("busy")),
        (
            Some(Some(0)),
            Err("Cannot open the audio output: busy".to_owned())
        )
    );
}

#[test]
fn the_watch_hands_out_what_it_last_heard() {
    let mut watch = DefaultWatch::start();
    assert_eq!(watch.name(), None);
    watch.poll(Some("A".to_owned()));
    assert_eq!(watch.name().as_deref(), Some("A"));
    assert_eq!(watch.ask(Some("B".to_owned())).as_deref(), Some("B"));
    assert_eq!(watch.name().as_deref(), Some("B"));
    watch.poll(None);
    assert_eq!(watch.name(), None);
}

#[test]
fn names_are_the_same_only_letter_for_letter() {
    let (a, b) = (Some("A".to_owned()), Some("B".to_owned()));
    assert!(same_name(&a, &a));
    assert!(!same_name(&a, &b));
    assert!(!same_name(&a, &None));
    assert!(same_name(&None, &None));
}

#[test]
fn repeated_skips_share_one_handoff() {
    let mut control: AudioControl<u8> = AudioControl::new(100);
    control.register(1);
    assert_eq!(
        control.interrupt(true),
        Interrupt::FadeOut {
            wait_ns: 120_000_000
        }
    );
    assert!(control.waiting_for_track());
    assert_eq!(control.interrupt(true), Interrupt::Shared);
    control.hand_off();
    assert_eq!(control.interrupt(false), Interrupt::Shared);
    control.track_changed();
    assert!(!control.waiting_for_track());
    assert!(control.take_reset());
    assert!(!control.take_reset());
    assert_eq!(control.target, Some(1));
}

#[test]
fn an_interruption_of_nothing_only_replaces_the_output() {
    let mut control: AudioControl<u8> = AudioControl::new(0);
    assert_eq!(control.buffer_ms, BUFFER_MS_MIN);
    assert_eq!(control.interrupt(false), Interrupt::Reset);
    control.stopped();
    assert!(!control.waiting_for_track());
    assert!(control.take_reset());
}

#[test]
fn silence_is_waited_for_only_so_long() {
    let control: AudioControl<u8> = AudioControl::new(u32::MAX);
    assert!(control.awaits_silence(false, 519_999_999));
    assert!(!control.awaits_silence(false, 520_000_000));
    assert!(!control.awaits_silence(true, 0));
}

/// A machine whose default output is `device`, and which may have none.
struct Machine {
    device: Option<&'static str>,
    failed: bool,
    reset: bool,
    volume: f32,
    played: VecDeque<u64>,
    samples: usize,
    log: Vec<Ask>,
    reported: Option<String>,
}

impl Machine {
    fn new(device: Option<&'static str>) -> Self {
        Self {
            device,
            failed: false,
            reset: false,
            volume: 0.5,
            played: VecDeque::new(),
            samples: 0,
            log: Vec::new(),
            reported: None,
        }
    }

    fn answer(&mut self, asked: Ask) -> Answer<u8> {
        self.log.push(asked);
        match asked {
            Ask::Default { .. } => Answer::Default(self.device.map(str::to_owned)),
            Ask::Health => Answer::Health {
                failed: self.failed,
            },
            Ask::Open => Answer::Opened(default_device(self.device.is_some()).map(|()| {
                self.failed = false;
                Output::new(0, self.device.map(str::to_owned), 44_100)
            })),
            Ask::Reset => Answer::Reset(std::mem::take(&mut self.reset)),
            Ask::Volume => Answer::Volume(self.volume.to_bits()),
            Ask::Append => Answer::Appended {
                samples: self.samples,
                now: 7,
            },
            Ask::Measure => Answer::Measured {
                played: self.played.pop_front().unwrap_or(u64::MAX),
                failed: self.failed,
            },
            Ask::Register { .. }
            | Ask::Replace(_)
            | Ask::SetVolume(_)
            | Ask::FadeIn { .. }
            | Ask::Sleep => Answer::Done,
        }
    }

    fn run(
        &mut self,
        sink: &mut RodioSink<u8>,
        task: Task,
        waiting: bool,
        fade_ms: u32,
    ) -> Result<(), SinkError> {
        self.log.clear();
        let mut next = sink.begin(task, waiting, false);
        loop {
            match next {
                Next::Ask(asked) => {
                    let answer = self.answer(asked);
                    next = sink.step(task, asked, answer, fade_ms);
                }
                Next::Finish { result, reported } => {
                    if let (Err(error), true) = (&result, reported) {
                        self.reported = Some(error.message());
                    }
                    return result;
                }
            }
        }
    }
}

/// A machine without audio (CI, a PC with nothing plugged in) must get
/// an error and a message for the interface, never a panic. A machine
/// with audio opens its default device.
#[test]
fn starting_without_a_device_is_an_error_not_a_panic() {
    for device in [None, Some("Speakers")] {
        let mut machine = Machine::new(device);
        machine.volume = NoOpVolume.attenuation_factor() as f32;
        let mut sink = RodioSink::new(Some("no such device".into()), DEFAULT_BUFFER_MS);
        match machine.run(&mut sink, Task::Start, false, shared_fade(250).ms) {
            Ok(()) => assert!(machine.reported.is_none()),
            Err(SinkError::ConnectionRefused(error)) => {
                assert_eq!(machine.reported.as_deref(), Some(error.message().as_str()));
            }
            Err(other) => panic!("unexpected error: {}", other.message()),
        }
        assert_eq!(sink.output.is_some(), device.is_some());
        let fades = sink.stop(shared_fade(250).ms, 0);
        assert_eq!(fades, None, "nothing was queued");
        sink.stopped();
    }
}

#[test]
fn playback_starts_on_a_fresh_output() {
    let mut machine = Machine::new(Some("Speakers"));
    let mut sink = RodioSink::new(None, DEFAULT_BUFFER_MS);
    assert!(machine.run(&mut sink, Task::Start, false, 250).is_ok());
    assert_eq!(
        machine.log,
        vec![
            Ask::Open,
            Ask::Register { replaced: false },
            Ask::Volume,
            Ask::SetVolume(0.5f32.to_bits()),
            Ask::FadeIn { frames: 11_025 },
        ]
    );
    assert!(machine.run(&mut sink, Task::Start, false, 0).is_ok());
    assert_eq!(
        machine.log,
        vec![
            Ask::Default { at_once: true },
            Ask::Health,
            Ask::Volume,
            Ask::FadeIn { frames: 0 },
        ],
        "the volume is there already"
    );
}

#[test]
fn a_packet_between_two_tracks_is_dropped() {
    let mut machine = Machine::new(Some("Speakers"));
    let mut sink = RodioSink::new(None, DEFAULT_BUFFER_MS);
    assert!(machine.run(&mut sink, Task::Write, true, 250).is_ok());
    assert!(machine.log.is_empty());
    assert!(sink.output.is_none());
}

#[test]
fn a_packet_waits_until_there_is_room() {
    let mut machine = Machine::new(Some("Speakers"));
    let mut sink = RodioSink::new(Some("Speakers".to_owned()), DEFAULT_BUFFER_MS);
    machine.samples = 44_100;
    machine.played = VecDeque::from(vec![0, 8_000, 22_050 - 8_820]);
    assert!(machine.run(&mut sink, Task::Write, false, 0).is_ok());
    assert_eq!(
        machine.log,
        vec![
            Ask::Open,
            Ask::Register { replaced: false },
            Ask::Reset,
            Ask::Volume,
            Ask::SetVolume(0.5f32.to_bits()),
            Ask::Append,
            Ask::Measure,
            Ask::Sleep,
            Ask::Measure,
            Ask::Sleep,
            Ask::Measure,
        ]
    );
    let output = sink.output.as_ref().unwrap();
    assert_eq!(output.appended, 22_050);
    assert_eq!(output.last_write, Some(7));
    assert!(output.fed);
    assert_eq!(output.queued_frames(22_000), 50);
    assert_eq!(output.queued_ms(0), 500);
    assert_eq!(output.queued_ms(u64::MAX), 0);
}

#[test]
fn an_output_that_dies_under_a_packet_is_reported() {
    let mut machine = Machine::new(Some("Speakers"));
    let mut sink = RodioSink::new(Some("Speakers".to_owned()), DEFAULT_BUFFER_MS);
    assert!(machine.run(&mut sink, Task::Start, false, 0).is_ok());
    sink.output.as_mut().unwrap().appended = 44_100;
    machine.played = VecDeque::from(vec![0]);
    let asked = Ask::Measure;
    machine.failed = true;
    let answer = machine.answer(asked);
    match sink.step(Task::Write, asked, answer, 0) {
        Next::Finish {
            result: Err(error),
            reported,
        } => {
            assert!(reported);
            assert!(matches!(error, SinkError::OnWrite));
            assert_eq!(error.message(), "The audio output stopped working");
        }
        _ => panic!("the failure went unnoticed"),
    }
}

#[test]
fn a_dead_output_is_opened_again() {
    let mut machine = Machine::new(Some("Speakers"));
    let mut sink = RodioSink::new(Some("Speakers".to_owned()), DEFAULT_BUFFER_MS);
    assert!(machine.run(&mut sink, Task::Start, false, 0).is_ok());
    machine.failed = true;
    assert!(machine.run(&mut sink, Task::Start, false, 0).is_ok());
    assert_eq!(machine.log[..2], [Ask::Health, Ask::Open]);
    assert_eq!(
        machine.log[4],
        Ask::SetVolume(0.5f32.to_bits()),
        "the new output knows nothing of the volume"
    );
}

#[test]
fn a_replaced_output_starts_afresh() {
    let mut machine = Machine::new(Some("Speakers"));
    let mut sink = RodioSink::new(Some("Speakers".to_owned()), DEFAULT_BUFFER_MS);
    machine.samples = 8;
    assert!(machine.run(&mut sink, Task::Write, false, 0).is_ok());
    assert_eq!(sink.output.as_ref().unwrap().appended, 4);
    machine.reset = true;
    assert!(machine.run(&mut sink, Task::Write, false, 0).is_ok());
    assert_eq!(
        machine.log,
        vec![
            Ask::Health,
            Ask::Reset,
            Ask::Replace(QueueStart::replacement(44_100)),
            Ask::Register { replaced: true },
            Ask::Volume,
            Ask::SetVolume(0.5f32.to_bits()),
            Ask::Append,
            Ask::Measure,
        ]
    );
    assert_eq!(sink.output.as_ref().unwrap().appended, 4);
    assert!(machine.run(&mut sink, Task::Write, false, 0).is_ok());
    assert_eq!(
        machine.log,
        vec![
            Ask::Health,
            Ask::Reset,
            Ask::Volume,
            Ask::Append,
            Ask::Measure,
        ],
        "the next packet goes to the same queue"
    );
    assert_eq!(sink.output.as_ref().unwrap().appended, 8);
}

#[test]
fn the_sound_follows_the_default_only_where_none_is_chosen() {
    let mut machine = Machine::new(Some("Speakers"));
    let mut sink = RodioSink::new(None, DEFAULT_BUFFER_MS);
    assert!(machine.run(&mut sink, Task::Start, false, 0).is_ok());
    machine.device = Some("Headphones");
    assert!(machine.run(&mut sink, Task::Write, false, 0).is_ok());
    assert_eq!(
        machine.log[..2],
        [Ask::Default { at_once: false }, Ask::Open]
    );
    assert_eq!(
        sink.output.as_ref().unwrap().device_name.as_deref(),
        Some("Headphones")
    );
    sink.follow_default(None);
    assert!(sink.output.is_some(), "an unknown default moves nothing");
    assert!(matches!(
        sink.begin(Task::Start, false, true),
        Next::Ask(Ask::Health)
    ));
    sink.device = Some("Headphones".to_owned());
    assert!(matches!(
        sink.begin(Task::Start, false, false),
        Next::Ask(Ask::Health)
    ));
}

#[test]
fn a_write_without_an_output_is_an_error() {
    let mut sink: RodioSink<u8> = RodioSink::new(None, DEFAULT_BUFFER_MS);
    match sink.step(Task::Write, Ask::Volume, Answer::Volume(FULL), 0) {
        Next::Finish {
            result: Err(error),
            reported,
        } => {
            assert!(!reported);
            assert!(matches!(error, SinkError::NotConnected));
            assert_eq!(error.message(), "the audio output is not open");
        }
        _ => panic!("it wrote to nothing"),
    }
}

#[test]
fn a_stop_fades_over_what_is_queued_and_waits_for_it() {
    let mut machine = Machine::new(Some("Speakers"));
    let mut sink = RodioSink::new(None, DEFAULT_BUFFER_MS);
    machine.samples = 4_000;
    assert!(machine.run(&mut sink, Task::Write, false, 250).is_ok());
    assert_eq!(sink.stop(250, 0), Some(2_000));
    assert_eq!(sink.stop(250, 1_500), Some(500));
    assert_eq!(sink.stop(0, 0), None);
    assert!(RodioSink::<u8>::awaits_drain(false, false, 0));
    assert!(!RodioSink::<u8>::awaits_drain(true, false, 0));
    assert!(!RodioSink::<u8>::awaits_drain(false, true, 0));
    assert!(!RodioSink::<u8>::awaits_drain(false, false, DRAIN_TIMEOUT_NS));
    sink.stopped();
    let output = sink.output.as_ref().unwrap();
    assert!(!output.fed);
    assert_eq!(output.last_write, None);
    assert_eq!(output.appended, 2_000);
}

#[test]
fn a_queue_that_ran_dry_tells_how_late_the_packet_is() {
    let mut output = Output::new(0u8, None, 44_100);
    assert_eq!(output.ran_dry(5_000_000, true, false), None);
    output.fed = true;
    assert_eq!(output.ran_dry(5_000_000, true, false), Some(0));
    output.last_write = Some(2_000_000);
    assert_eq!(output.ran_dry(5_999_999, true, false), Some(3));
    assert_eq!(output.ran_dry(1, true, false), Some(0));
    assert_eq!(output.ran_dry(5_000_000, false, false), None);
    assert_eq!(output.ran_dry(5_000_000, true, true), None);
}

#[test]
fn an_output_without_a_rate_counts_as_having_one() {
    let mut output = Output::new(0u8, None, 0);
    output.appended = 3;
    assert_eq!(output.queued_ms(0), 3_000);
    output.appended = u64::MAX;
    assert_eq!(output.queued_ms(0), u32::MAX);
    assert_eq!(
        output.queued_ms(u64::MAX - 2),
        2_000,
        "what has been played long ago does not count"
    );
}

#[test]
fn volumes_are_equal_as_numbers() {
    let values = [
        0.0f32,
        -0.0,
        1.0,
        -1.0,
        0.5,
        f32::INFINITY,
        f32::NEG_INFINITY,
        f32::NAN,
        -f32::NAN,
        f32::MAX,
    ];
    for one in values {
        for other in values {
            assert_eq!(
                same_volume(one.to_bits(), other.to_bits()),
                one == other,
                "{one} and {other}"
            );
        }
    }
    assert_eq!(UNAPPLIED, (-1.0f32).to_bits());
    assert_eq!(NAME, "rodio");
}
