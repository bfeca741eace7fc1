//! Which output the sound goes to.

use vstd::prelude::*;
use vstd::string::{StrSliceExecFns, StringExecFns};

use crate::queue::QueueStart;

verus! {

/// Whether `c` is white space as Unicode has it.
pub open spec fn white_space(c: char) -> bool {
    ||| '\u{9}' <= c <= '\u{d}'
    ||| c == '\u{20}'
    ||| c == '\u{85}'
    ||| c == '\u{a0}'
    ||| c == '\u{1680}'
    ||| '\u{2000}' <= c <= '\u{200a}'
    ||| c == '\u{2028}'
    ||| c == '\u{2029}'
    ||| c == '\u{202f}'
    ||| c == '\u{205f}'
    ||| c == '\u{3000}'
}

/// `s` without the white space it begins with.
pub open spec fn trimmed_start(s: Seq<char>) -> Seq<char>
    decreases s.len(),
{
    if s.len() > 0 && white_space(s.first()) {
        trimmed_start(s.drop_first())
    } else {
        s
    }
}

/// `s` without the white space it ends with.
pub open spec fn trimmed_end(s: Seq<char>) -> Seq<char>
    decreases s.len(),
{
    if s.len() > 0 && white_space(s.last()) {
        trimmed_end(s.drop_last())
    } else {
        s
    }
}

/// `s` without the white space around it.
pub open spec fn trimmed(s: Seq<char>) -> Seq<char> {
    trimmed_end(trimmed_start(s))
}

/// Whether `c` is white space as Unicode has it.
pub fn is_white_space(c: char) -> (white: bool)
    ensures
        white == white_space(c),
{
    ('\u{9}' <= c && c <= '\u{d}') || c == '\u{20}' || c == '\u{85}' || c == '\u{a0}' || c
        == '\u{1680}' || ('\u{2000}' <= c && c <= '\u{200a}') || c == '\u{2028}' || c
        == '\u{2029}' || c == '\u{202f}' || c == '\u{205f}' || c == '\u{3000}'
}

/// `s` without the white space around it.
pub fn trim(s: &str) -> (kept: &str)
    ensures
        kept@ == trimmed(s@),
{
    let len: usize = s.unicode_len();
    let mut from: usize = 0;
    assert(s@.subrange(0, len as int) =~= s@);
    while from < len && is_white_space(s.get_char(from))
        invariant
            from <= len,
            len == s@.len(),
            trimmed_start(s@) == trimmed_start(s@.subrange(from as int, len as int)),
        decreases len - from,
    {
        assert(s@.subrange(from as int, len as int).drop_first() =~= s@.subrange(
            from + 1,
            len as int,
        ));
        from = from + 1;
    }
    let mut to: usize = len;
    while from < to && is_white_space(s.get_char(to - 1))
        invariant
            from <= to <= len,
            len == s@.len(),
            trimmed(s@) == trimmed_end(s@.subrange(from as int, to as int)),
        decreases to,
    {
        assert(s@.subrange(from as int, to as int).drop_last() =~= s@.subrange(
            from as int,
            to - 1,
        ));
        to = to - 1;
    }
    s.substring_char(from, to)
}

/// The view of a name that may be missing.
pub open spec fn name_view(name: Option<String>) -> Option<Seq<char>> {
    match name {
        Some(name) => Some(name@),
        None => None,
    }
}

/// Whether two names that may be missing are the same.
pub fn same_name(one: &Option<String>, other: &Option<String>) -> (same: bool)
    ensures
        same == (name_view(*one) == name_view(*other)),
{
    match (one, other) {
        (Some(one), Some(other)) => *one == *other,
        (None, None) => true,
        _ => false,
    }
}

/// Why an output could not be opened.
#[derive(Debug)]
pub enum OpenError {
    NoDevice,
    Devices(String),
    Stream(String),
}

impl OpenError {
    /// What the interface says about it.
    pub open spec fn text(self) -> Seq<char> {
        match self {
            OpenError::NoDevice =>
                "No audio output device was found. Connect or enable one, then press play again."@,
            OpenError::Devices(detail) => "Cannot list the audio devices: "@ + detail@,
            OpenError::Stream(detail) => "Cannot open the audio output: "@ + detail@,
        }
    }

    /// What the interface says about it.
    pub fn message(&self) -> (message: String)
        ensures
            message@ == self.text(),
    {
        match self {
            OpenError::NoDevice => "No audio output device was found. Connect or enable one, then press play again.".to_owned(),
            OpenError::Devices(detail) => {
                let mut message: String = "Cannot list the audio devices: ".to_owned();
                message.append(detail.as_str());
                message
            }
            OpenError::Stream(detail) => {
                let mut message: String = "Cannot open the audio output: ".to_owned();
                message.append(detail.as_str());
                message
            }
        }
    }
}

/// The device to look for.
#[derive(Debug)]
pub enum DeviceRequest {
    /// The one that the system calls its default.
    Default,
    /// The one of this name, or the default where there is none.
    Named(String),
}

/// Which device a setting asks for. White space around the name is nothing,
/// and neither is a name of nothing else.
pub fn device_request(preferred: Option<&str>) -> (request: DeviceRequest)
    ensures
        match preferred {
            Some(name) => if trimmed(name@).len() > 0 {
                request matches DeviceRequest::Named(named) && named@ == trimmed(name@)
            } else {
                request is Default
            },
            None => request is Default,
        },
{
    match preferred {
        Some(name) => {
            let name: &str = trim(name);
            if name.is_empty() {
                DeviceRequest::Default
            } else {
                DeviceRequest::Named(name.to_owned())
            }
        }
        None => DeviceRequest::Default,
    }
}

/// Whether `names` has `name` at `i`. A device may refuse to tell its name.
pub open spec fn named_at(names: Seq<Option<String>>, name: Seq<char>, i: int) -> bool {
    name_view(names[i]) == Some(name)
}

/// The first of the devices, by their names, that is called `name`.
pub fn find_device(names: &Vec<Option<String>>, name: &String) -> (found: Option<usize>)
    ensures
        match found {
            Some(i) => {
                &&& i < names@.len()
                &&& named_at(names@, name@, i as int)
                &&& forall|j: int| 0 <= j < i ==> !named_at(names@, name@, j)
            },
            None => forall|j: int| 0 <= j < names@.len() ==> !named_at(names@, name@, j),
        },
{
    let mut i: usize = 0;
    while i < names.len()
        invariant
            i <= names@.len(),
            forall|j: int| 0 <= j < i ==> !named_at(names@, name@, j),
        decreases names@.len() - i,
    {
        if let Some(found) = &names[i] {
            if *found == *name {
                return Some(i);
            }
        }
        i = i + 1;
    }
    None
}

/// Which of the listed devices to open: the one of the name asked for, or
/// `None` for the default where no device has it. Where the devices cannot be
/// listed there is nothing to choose from.
pub fn choose_device(name: &String, listed: Result<Vec<Option<String>>, String>) -> (chosen: Result<
    Option<usize>,
    OpenError,
>)
    ensures
        match listed {
            Ok(names) => match chosen {
                Ok(Some(i)) => {
                    &&& i < names@.len()
                    &&& named_at(names@, name@, i as int)
                    &&& forall|j: int| 0 <= j < i ==> !named_at(names@, name@, j)
                },
                Ok(None) => forall|j: int| 0 <= j < names@.len() ==> !named_at(names@, name@, j),
                Err(_) => false,
            },
            Err(detail) => chosen == Err::<Option<usize>, OpenError>(OpenError::Devices(detail)),
        },
{
    match listed {
        Ok(names) => Ok(find_device(&names, name)),
        Err(detail) => Err(OpenError::Devices(detail)),
    }
}

/// Whether the system has a default device; without one nothing can be opened.
pub fn default_device(there: bool) -> (found: Result<(), OpenError>)
    ensures
        found == if there {
            Ok::<(), OpenError>(())
        } else {
            Err(OpenError::NoDevice)
        },
{
    if there {
        Ok(())
    } else {
        Err(OpenError::NoDevice)
    }
}

/// What has been found out so far in opening an output.
#[derive(Debug)]
pub enum Found {
    /// Nothing yet.
    Begin,
    /// The names of the devices, or why they cannot be listed.
    Listed(Result<Vec<Option<String>>, String>),
    /// Whether the system has a default device.
    Default(bool),
    /// The rate that the stream runs at, or why it does not open.
    Stream(Result<u32, String>),
}

/// What to do next to open an output.
#[derive(Debug)]
pub enum Seek {
    /// List the devices.
    List,
    /// Ask for the default device.
    AskDefault,
    /// Open a stream on this one of the listed devices.
    OpenListed(usize),
    /// Open a stream on the default device.
    OpenDefault,
    /// Give up.
    Refuse(OpenError),
    /// The output is open. `start` is put on its queue, and `failed` is what is
    /// known of it.
    Ready { start: QueueStart, failed: bool },
}

/// The name that a setting asks for, where it asks for one.
pub open spec fn asked_name(preferred: Option<&str>) -> Option<Seq<char>> {
    match preferred {
        Some(name) => if trimmed(name@).len() > 0 {
            Some(trimmed(name@))
        } else {
            None
        },
        None => None,
    }
}

/// The first place in `names` that has `name`.
pub open spec fn first_named(names: Seq<Option<String>>, name: Seq<char>) -> Option<usize>
    decreases names.len(),
{
    if names.len() == 0 {
        None
    } else {
        match first_named(names.drop_last(), name) {
            Some(i) => Some(i),
            None => if named_at(names, name, names.len() - 1) {
                Some((names.len() - 1) as usize)
            } else {
                None
            },
        }
    }
}

/// What follows `found` for a setting of `preferred`.
pub open spec fn sought(preferred: Option<&str>, found: Found) -> Seek {
    match found {
        Found::Begin => if asked_name(preferred) is Some {
            Seek::List
        } else {
            Seek::AskDefault
        },
        Found::Listed(Ok(names)) => match asked_name(preferred) {
            Some(name) => match first_named(names@, name) {
                Some(i) => Seek::OpenListed(i),
                None => Seek::AskDefault,
            },
            None => Seek::AskDefault,
        },
        Found::Listed(Err(detail)) => Seek::Refuse(OpenError::Devices(detail)),
        Found::Default(there) => if there {
            Seek::OpenDefault
        } else {
            Seek::Refuse(OpenError::NoDevice)
        },
        Found::Stream(Ok(rate)) => Seek::Ready {
            start: QueueStart::for_opening(rate),
            failed: false,
        },
        Found::Stream(Err(detail)) => Seek::Refuse(OpenError::Stream(detail)),
    }
}

/// The next step in opening an output: on the device that the setting names,
/// else on the default. An output that opens starts on a full envelope and a
/// new fade.
pub fn open_output(preferred: Option<&str>, found: Found) -> (next: Seek)
    ensures
        next == sought(preferred, found),
{
    match found {
        Found::Begin => match device_request(preferred) {
            DeviceRequest::Named(_) => Seek::List,
            DeviceRequest::Default => Seek::AskDefault,
        },
        Found::Listed(listed) => match device_request(preferred) {
            DeviceRequest::Named(name) => {
                proof {
                    if listed is Ok {
                        assert(listed->Ok_0@.len() == listed->Ok_0.len());
                        lemma_first_named(listed->Ok_0@, name@);
                    }
                }
                match choose_device(&name, listed) {
                    Ok(Some(i)) => Seek::OpenListed(i),
                    Ok(None) => Seek::AskDefault,
                    Err(error) => Seek::Refuse(error),
                }
            }
            DeviceRequest::Default => match listed {
                Ok(_) => Seek::AskDefault,
                Err(detail) => Seek::Refuse(OpenError::Devices(detail)),
            },
        },
        Found::Default(there) => match default_device(there) {
            Ok(()) => Seek::OpenDefault,
            Err(error) => Seek::Refuse(error),
        },
        Found::Stream(Ok(rate)) => Seek::Ready { start: QueueStart::opening(rate), failed: false },
        Found::Stream(Err(detail)) => Seek::Refuse(OpenError::Stream(detail)),
    }
}

proof fn lemma_first_named(names: Seq<Option<String>>, name: Seq<char>)
    requires
        names.len() <= usize::MAX,
    ensures
        match first_named(names, name) {
            Some(i) => {
                &&& i < names.len()
                &&& named_at(names, name, i as int)
                &&& forall|j: int| 0 <= j < i ==> !named_at(names, name, j)
            },
            None => forall|j: int| 0 <= j < names.len() ==> !named_at(names, name, j),
        },
    decreases names.len(),
{
    if names.len() > 0 {
        let before = names.drop_last();
        lemma_first_named(before, name);
        assert forall|j: int| 0 <= j < before.len() implies named_at(names, name, j) == named_at(
            before,
            name,
            j,
        ) by {
            assert(before[j] == names[j]);
        }
    }
}

/// The device that ends up being opened, before anything is known of its
/// stream: what the steps come to on a system that lists `listed` and has a
/// default device or not.
pub open spec fn device_sought(
    preferred: Option<&str>,
    listed: Result<Vec<Option<String>>, String>,
    there: bool,
) -> Seek {
    let first = sought(preferred, Found::Begin);
    let second = if first is List { sought(preferred, Found::Listed(listed)) } else { first };
    if second is AskDefault {
        sought(preferred, Found::Default(there))
    } else {
        second
    }
}

/// The output is opened on the first device that has the name asked for, and on
/// the default where no name is asked for or no device has it. It is refused
/// for the list just when a name is asked for and there is none to look in, and
/// for want of a device just when the default is needed and missing.
pub proof fn law_output_is_the_one_asked_for(
    preferred: Option<&str>,
    listed: Result<Vec<Option<String>>, String>,
    there: bool,
)
    ensures
        ({
            let name = asked_name(preferred);
            let at = |i: int|
                {
                    &&& listed is Ok
                    &&& 0 <= i < listed->Ok_0@.len()
                    &&& named_at(listed->Ok_0@, name->0, i)
                    &&& forall|j: int| 0 <= j < i ==> !named_at(listed->Ok_0@, name->0, j)
                };
            let unlisted = name is Some && listed is Err;
            let needs_default = name is None || (listed is Ok && forall|j: int|
                0 <= j < listed->Ok_0@.len() ==> !named_at(listed->Ok_0@, name->0, j));
            match device_sought(preferred, listed, there) {
                Seek::OpenListed(i) => name is Some && at(i as int),
                Seek::OpenDefault => needs_default && there,
                Seek::Refuse(OpenError::Devices(detail)) => unlisted && detail == listed->Err_0,
                Seek::Refuse(OpenError::NoDevice) => needs_default && !there,
                _ => false,
            }
        }),
{
    if let Ok(names) = listed {
        assert(names@.len() == names.len());
        if let Some(name) = asked_name(preferred) {
            lemma_first_named(names@, name);
        }
    }
}

/// An output whose device is found is refused just when its stream does not
/// open; otherwise it is ready, at full volume and not known to have failed.
pub proof fn law_output_is_ready_once_its_stream_opens(
    preferred: Option<&str>,
    stream: Result<u32, String>,
)
    ensures
        match sought(preferred, Found::Stream(stream)) {
            Seek::Ready { start, failed } => {
                &&& stream is Ok
                &&& start.to == stream->Ok_0
                &&& start.envelope.level == crate::envelope::frames_of_interrupt(
                    stream->Ok_0 as int,
                )
                &&& start.envelope.target == start.envelope.level
                &&& start.fade == crate::queue::new_fade()
                &&& !failed
            },
            Seek::Refuse(error) => stream is Err && error == OpenError::Stream(stream->Err_0),
            _ => false,
        },
{
}

/// Last default-output name, or `None` before the first poll.
#[derive(Debug)]
pub struct DefaultWatch {
    pub last: Option<String>,
}

impl DefaultWatch {
    /// A watch that has not polled yet.
    pub fn start() -> (watch: Self)
        ensures
            watch.last is None,
    {
        Self { last: None }
    }

    /// Last polled name, or `None` before the first poll.
    pub fn name(&self) -> (name: Option<String>)
        ensures
            name_view(name) == name_view(self.last),
    {
        match &self.last {
            Some(name) => Some(name.clone()),
            None => None,
        }
    }

    /// Takes the answer of a poll.
    pub fn poll(&mut self, name: Option<String>)
        ensures
            final(self).last == name,
    {
        self.last = name;
    }

    /// Takes the answer of asking right now, and hands it out.
    pub fn ask(&mut self, name: Option<String>) -> (asked: Option<String>)
        ensures
            final(self).last == name,
            name_view(asked) == name_view(name),
    {
        self.last = name;
        self.name()
    }
}

/// What is kept of a name neither begins nor ends with white space, and it is
/// a run of the name's own characters. Nothing but white space is left out.
pub proof fn law_trimmed_has_no_space_around_it(s: Seq<char>)
    ensures
        ({
            let kept = trimmed(s);
            &&& kept.len() > 0 ==> !white_space(kept.first()) && !white_space(kept.last())
            &&& exists|i: int, j: int|
                {
                    &&& 0 <= i <= j <= s.len()
                    &&& kept == #[trigger] s.subrange(i, j)
                    &&& forall|k: int| 0 <= k < i || j <= k < s.len() ==> white_space(s[k])
                }
            &&& trimmed(kept) == kept
        }),
{
    lemma_trimmed_start(s);
    let tail = trimmed_start(s);
    let i = s.len() - tail.len();
    lemma_trimmed_end(tail);
    let kept = trimmed_end(tail);
    let j = i + kept.len();
    assert(kept == s.subrange(i, j));
    assert forall|k: int| 0 <= k < i || j <= k < s.len() implies white_space(s[k]) by {
        if k >= j {
            assert(tail[k - i] == s[k]);
        }
    }
    if kept.len() > 0 {
        assert(kept.first() == tail.first());
    }
    assert(trimmed_start(kept) == kept);
}

proof fn lemma_trimmed_start(s: Seq<char>)
    ensures
        trimmed_start(s).len() <= s.len(),
        trimmed_start(s) == s.subrange(s.len() - trimmed_start(s).len(), s.len() as int),
        trimmed_start(s).len() > 0 ==> !white_space(trimmed_start(s).first()),
        forall|k: int| 0 <= k < s.len() - trimmed_start(s).len() ==> white_space(#[trigger] s[k]),
    decreases s.len(),
{
    if s.len() > 0 && white_space(s.first()) {
        let rest = s.drop_first();
        lemma_trimmed_start(rest);
        assert forall|k: int| 0 <= k < s.len() - trimmed_start(s).len() implies white_space(
            #[trigger] s[k],
        ) by {
            if k > 0 {
                assert(rest[k - 1] == s[k]);
            }
        }
    }
}

proof fn lemma_trimmed_end(s: Seq<char>)
    ensures
        trimmed_end(s).len() <= s.len(),
        trimmed_end(s) == s.subrange(0, trimmed_end(s).len() as int),
        trimmed_end(s).len() > 0 ==> !white_space(trimmed_end(s).last()),
        forall|k: int| trimmed_end(s).len() <= k < s.len() ==> white_space(#[trigger] s[k]),
    decreases s.len(),
{
    if s.len() > 0 && white_space(s.last()) {
        let rest = s.drop_last();
        lemma_trimmed_end(rest);
        assert forall|k: int| trimmed_end(s).len() <= k < s.len() implies white_space(
            #[trigger] s[k],
        ) by {
            if k < s.len() - 1 {
                assert(rest[k] == s[k]);
            }
        }
    }
}

/// A setting asks for a device just when there is anything in it but white
/// space, and then for the name without the space around it.
pub proof fn law_setting_with_a_name_asks_for_it(name: &str)
    ensures
        asked_name(None) is None,
        (asked_name(Some(name)) is Some) == exists|i: int|
            0 <= i < name@.len() && !white_space(#[trigger] name@[i]),
        asked_name(Some(name)) matches Some(asked) ==> asked == trimmed(name@),
{
    let s = name@;
    let tail = trimmed_start(s);
    let kept = trimmed(s);
    lemma_trimmed_start(s);
    lemma_trimmed_end(tail);
    if kept.len() > 0 {
        assert(kept[0] == tail[0] && tail[0] == s[s.len() - tail.len()]);
        if kept.len() == 1 {
            assert(kept.last() == kept[0]);
        }
        assert(!white_space(s[s.len() - tail.len()]));
    } else {
        assert forall|i: int| 0 <= i < s.len() implies white_space(#[trigger] s[i]) by {
            let start = s.len() - tail.len();
            if i >= start {
                assert(tail[i - start] == s[i]);
            }
        }
    }
}

/// A message about an error from outside ends with what was said there, in full.
pub proof fn law_message_carries_the_detail(detail: String)
    ensures
        ({
            let devices = OpenError::Devices(detail).text();
            let stream = OpenError::Stream(detail).text();
            &&& devices.len() == "Cannot list the audio devices: "@.len() + detail@.len()
            &&& devices.skip("Cannot list the audio devices: "@.len() as int) == detail@
            &&& stream.len() == "Cannot open the audio output: "@.len() + detail@.len()
            &&& stream.skip("Cannot open the audio output: "@.len() as int) == detail@
        }),
{
}

} // verus!
