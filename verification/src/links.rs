//! Spotify links the desktop hands the app.
//!
//! Each link is put on the running instance's command queue, where it is
//! treated like a link from any other launch.

use vstd::prelude::*;

verus! {

/// What another launch, or the desktop, asks of the running instance.
#[derive(Debug)]
pub enum ControlCommand {
    OpenLink(String),
}

/// Where links go. `Q` is the queue and the wake that makes the app read it.
pub struct Links<Q> {
    /// Where links go, once something takes them.
    pub sink: Option<Q>,
    /// Whether the desktop has been told whom to hand links to.
    pub installed: bool,
}

/// What an installation comes to.
#[derive(Clone, Copy, Debug, PartialEq, Eq)]
pub enum Install {
    /// Links can only be taken on the main thread.
    WrongThread,
    /// The handler is there already, and serves the new queue from now on.
    Replaced,
    /// The handler is to be registered with the desktop.
    Register,
}

/// What becomes of a link.
#[derive(Debug)]
pub enum Delivery {
    /// The text is no link.
    NotALink,
    /// Nothing takes links.
    Dropped,
    /// The command goes on the queue, and the app is woken.
    Queue(ControlCommand),
}

impl<Q> Links<Q> {
    /// Links that nothing takes yet.
    pub fn new() -> (links: Self)
        ensures
            links.sink is None,
            !links.installed,
    {
        Self { sink: None, installed: false }
    }

    /// The links once `sink` takes them.
    pub open spec fn taken_by(self, sink: Q) -> Self {
        Links { sink: Some(sink), installed: true }
    }
}

/// What becomes of a text that was understood as `uri`.
pub open spec fn delivered(taken: bool, uri: Option<String>) -> Delivery {
    match uri {
        None => Delivery::NotALink,
        Some(uri) => if taken {
            Delivery::Queue(ControlCommand::OpenLink(uri))
        } else {
            Delivery::Dropped
        },
    }
}

/// The queue after a delivery.
pub open spec fn queued(commands: Seq<ControlCommand>, delivery: Delivery) -> Seq<ControlCommand> {
    match delivery {
        Delivery::Queue(command) => commands.push(command),
        _ => commands,
    }
}

/// Answers the desktop's links for the rest of the process. Main thread only,
/// before the event loop that delivers them starts. The handler is registered
/// once; a later installation only changes where links go.
pub fn install<Q>(links: &mut Links<Q>, on_main_thread: bool, sink: Q) -> (install: Install)
    ensures
        on_main_thread ==> *final(links) == old(links).taken_by(sink),
        !on_main_thread ==> *final(links) == *old(links),
        install == if !on_main_thread {
            Install::WrongThread
        } else if old(links).installed {
            Install::Replaced
        } else {
            Install::Register
        },
{
    if !on_main_thread {
        return Install::WrongThread;
    }
    links.sink = Some(sink);
    if links.installed {
        return Install::Replaced;
    }
    links.installed = true;
    Install::Register
}

/// What becomes of a text from the desktop, where `uri` is the link that it
/// was understood as.
pub fn deliver<Q>(links: &Links<Q>, uri: Option<String>) -> (delivery: Delivery)
    ensures
        delivery == delivered(links.sink is Some, uri),
        delivery == match uri {
            None => Delivery::NotALink,
            Some(uri) => if links.sink is Some {
                Delivery::Queue(ControlCommand::OpenLink(uri))
            } else {
                Delivery::Dropped
            },
        },
{
    match uri {
        None => Delivery::NotALink,
        Some(uri) => {
            if links.sink.is_some() {
                Delivery::Queue(ControlCommand::OpenLink(uri))
            } else {
                Delivery::Dropped
            }
        }
    }
}

/// Puts a delivery on the queue. Whether the app is to be woken.
pub fn enqueue(commands: &mut Vec<ControlCommand>, delivery: Delivery) -> (wake: bool)
    ensures
        wake == (delivery is Queue),
        final(commands)@ == queued(old(commands)@, delivery),
        final(commands)@ == match delivery {
            Delivery::Queue(command) => old(commands)@.push(command),
            _ => old(commands)@,
        },
{
    match delivery {
        Delivery::Queue(command) => {
            commands.push(command);
            true
        }
        _ => false,
    }
}

/// Once installed on the main thread, every link reaches the queue that was
/// installed last, and the desktop is told only once.
pub proof fn law_last_installation_takes_the_links<Q>(links: Links<Q>, first: Q, last: Q)
    ensures
        links.taken_by(first).taken_by(last).sink == Some(last),
        links.taken_by(first).taken_by(last) == links.taken_by(last),
        links.taken_by(first).installed,
{
}

/// A link that something takes is put last on the queue, as it was understood; a
/// text that is no link, or that nothing takes, leaves the queue as it is. What
/// waits there already keeps its place.
pub proof fn law_link_is_queued_last(
    commands: Seq<ControlCommand>,
    uri: String,
    taken: bool,
    i: int,
)
    ensures
        queued(commands, delivered(taken, None)) == commands,
        queued(commands, delivered(false, Some(uri))) == commands,
        ({
            let after = queued(commands, delivered(true, Some(uri)));
            &&& after.len() == commands.len() + 1
            &&& after.last() == ControlCommand::OpenLink(uri)
            &&& 0 <= i < commands.len() ==> after[i] == commands[i]
        }),
{
}

} // verus!
