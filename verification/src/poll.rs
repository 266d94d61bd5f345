//! Reading the progress of a task: what to ask for and what to say at each
//! step, from the pressed button to the updated message.
//!
//! The caller performs each action and reports back with the event that
//! came of it. Polling changes nothing in the store.

use vstd::prelude::*;

verus! {

/// What is said to the user.
#[derive(Debug, Clone, Copy, PartialEq, Eq, Structural)]
pub enum Notice {
    /// The payload was malformed.
    MessedUp,
    /// The owner has no daemon: a prompt to register one.
    NoServer,
    /// The progress, with a button to refresh it or, for a complete
    /// download, to remove the torrent and to hide the message.
    Progress { complete: bool },
    /// The torrent is gone from the daemon.
    Removed,
    /// The daemon could not be asked.
    NotOnServer,
}

/// What came of looking up the owner's daemon.
#[derive(Debug, Clone, Copy, PartialEq, Eq, Structural)]
pub enum ServerLookup {
    Failed,
    Missing,
    Found,
}

/// What came of looking up the task's magnet under the owner.
#[derive(Debug, Clone, Copy, PartialEq, Eq, Structural)]
pub enum MagnetLookup {
    Failed,
    Missing,
    Found,
}

/// What the daemon answered when asked for the torrent.
#[derive(Debug, Clone, Copy, PartialEq, Eq, Structural)]
pub enum TorrentLookup {
    Found { complete: bool },
    Missing,
    Unreachable,
}

/// How far a poll has come.
#[derive(Debug, Clone, Copy, PartialEq, Eq, Structural)]
pub enum State {
    Decoding,
    AwaitUser,
    AwaitTask,
    AwaitServers,
    AwaitMagnet,
    AwaitDaemon,
    AwaitSent(Notice),
    Finished,
}

/// What the caller reports.
#[derive(Debug, Clone, Copy, PartialEq, Eq, Structural)]
pub enum Event {
    Payload { well_formed: bool },
    User { known: bool },
    Task { known: bool },
    Servers(ServerLookup),
    Magnet(MagnetLookup),
    Daemon(TorrentLookup),
    Sent,
    Failed,
}

/// How a poll ends.
#[derive(Debug, Clone, Copy, PartialEq, Eq, Structural)]
pub enum End {
    /// Nothing is left to do, and nothing is reported as a failure.
    Handled,
    /// There is no such task.
    NoTask,
    /// The failure of the last call is handed on.
    Failed,
}

/// What the caller is to do next.
#[derive(Debug, Clone, Copy, PartialEq, Eq, Structural)]
pub enum Action {
    LoadUser,
    LoadTask,
    LoadServers,
    LoadMagnet,
    /// Ask the daemon for the torrent with the magnet's hash.
    GetTorrent,
    Send(Notice),
    Finish(End),
}

/// The events that a state can be answered with. A user who is not known
/// is not among them, and neither is any event after the end.
pub open spec fn expects(state: State, event: Event) -> bool {
    match state {
        State::Decoding => event is Payload,
        State::AwaitUser => event == (Event::User { known: true }) || event is Failed,
        State::AwaitTask => event is Task || event is Failed,
        State::AwaitServers => event is Servers,
        State::AwaitMagnet => event is Magnet,
        State::AwaitDaemon => event is Daemon,
        State::AwaitSent(_) => event is Sent || event is Failed,
        State::Finished => false,
    }
}

/// What a daemon's answer is told as.
pub open spec fn told(answer: TorrentLookup) -> Notice {
    match answer {
        TorrentLookup::Found { complete } => Notice::Progress { complete },
        TorrentLookup::Missing => Notice::Removed,
        TorrentLookup::Unreachable => Notice::NotOnServer,
    }
}

/// The state and the action that follow an event.
pub open spec fn next(state: State, event: Event) -> (State, Action)
    recommends
        expects(state, event),
{
    match (state, event) {
        (State::Decoding, Event::Payload { well_formed }) => if well_formed {
            (State::AwaitUser, Action::LoadUser)
        } else {
            (State::AwaitSent(Notice::MessedUp), Action::Send(Notice::MessedUp))
        },
        (State::AwaitUser, Event::User { .. }) => (State::AwaitTask, Action::LoadTask),
        (State::AwaitTask, Event::Task { known }) => if known {
            (State::AwaitServers, Action::LoadServers)
        } else {
            (State::Finished, Action::Finish(End::NoTask))
        },
        (State::AwaitServers, Event::Servers(lookup)) => match lookup {
            ServerLookup::Failed => (State::Finished, Action::Finish(End::Handled)),
            ServerLookup::Missing => (
                State::AwaitSent(Notice::NoServer),
                Action::Send(Notice::NoServer),
            ),
            ServerLookup::Found => (State::AwaitMagnet, Action::LoadMagnet),
        },
        (State::AwaitMagnet, Event::Magnet(lookup)) => if lookup == MagnetLookup::Found {
            (State::AwaitDaemon, Action::GetTorrent)
        } else {
            (State::Finished, Action::Finish(End::Handled))
        },
        (State::AwaitDaemon, Event::Daemon(answer)) => (
            State::AwaitSent(told(answer)),
            Action::Send(told(answer)),
        ),
        (State::AwaitSent(_), Event::Sent) => (State::Finished, Action::Finish(End::Handled)),
        (State::AwaitSent(notice), Event::Failed) => if notice == Notice::NoServer {
            (State::Finished, Action::Finish(End::Handled))
        } else {
            (State::Finished, Action::Finish(End::Failed))
        },
        _ => (State::Finished, Action::Finish(End::Failed)),
    }
}

/// Where a poll starts.
pub fn start() -> (out: State)
    ensures
        out == State::Decoding,
{
    State::Decoding
}

/// Tests whether a state can be answered with an event.
pub fn accepts(state: State, event: Event) -> (out: bool)
    ensures
        out == expects(state, event),
{
    match state {
        State::Decoding => matches!(event, Event::Payload { .. }),
        State::AwaitUser => matches!(event, Event::User { known: true } | Event::Failed),
        State::AwaitTask => matches!(event, Event::Task { .. } | Event::Failed),
        State::AwaitServers => matches!(event, Event::Servers(_)),
        State::AwaitMagnet => matches!(event, Event::Magnet(_)),
        State::AwaitDaemon => matches!(event, Event::Daemon(_)),
        State::AwaitSent(_) => matches!(event, Event::Sent | Event::Failed),
        State::Finished => false,
    }
}

/// Takes one step of a poll.
pub fn step(state: State, event: Event) -> (out: (State, Action))
    requires
        expects(state, event),
    ensures
        out == next(state, event),
{
    match state {
        State::Decoding => match event {
            Event::Payload { well_formed: true } => (State::AwaitUser, Action::LoadUser),
            _ => (State::AwaitSent(Notice::MessedUp), Action::Send(Notice::MessedUp)),
        },
        State::AwaitUser => match event {
            Event::User { .. } => (State::AwaitTask, Action::LoadTask),
            _ => (State::Finished, Action::Finish(End::Failed)),
        },
        State::AwaitTask => match event {
            Event::Task { known: true } => (State::AwaitServers, Action::LoadServers),
            Event::Task { known: false } => (State::Finished, Action::Finish(End::NoTask)),
            _ => (State::Finished, Action::Finish(End::Failed)),
        },
        State::AwaitServers => match event {
            Event::Servers(ServerLookup::Missing) => (
                State::AwaitSent(Notice::NoServer),
                Action::Send(Notice::NoServer),
            ),
            Event::Servers(ServerLookup::Found) => (State::AwaitMagnet, Action::LoadMagnet),
            _ => (State::Finished, Action::Finish(End::Handled)),
        },
        State::AwaitMagnet => match event {
            Event::Magnet(MagnetLookup::Found) => (State::AwaitDaemon, Action::GetTorrent),
            _ => (State::Finished, Action::Finish(End::Handled)),
        },
        State::AwaitDaemon => {
            let notice = match event {
                Event::Daemon(TorrentLookup::Found { complete }) => Notice::Progress { complete },
                Event::Daemon(TorrentLookup::Missing) => Notice::Removed,
                _ => Notice::NotOnServer,
            };
            (State::AwaitSent(notice), Action::Send(notice))
        },
        State::AwaitSent(notice) => match event {
            Event::Sent => (State::Finished, Action::Finish(End::Handled)),
            _ => match notice {
                Notice::NoServer => (State::Finished, Action::Finish(End::Handled)),
                _ => (State::Finished, Action::Finish(End::Failed)),
            },
        },
        State::Finished => (State::Finished, Action::Finish(End::Failed)),
    }
}

/// How far along a state is.
pub open spec fn rank(state: State) -> nat {
    match state {
        State::Decoding => 0,
        State::AwaitUser => 1,
        State::AwaitTask => 2,
        State::AwaitServers => 3,
        State::AwaitMagnet => 4,
        State::AwaitDaemon => 5,
        State::AwaitSent(_) => 6,
        State::Finished => 7,
    }
}

/// Every step leads further along, so no state is entered twice and a poll
/// ends after at most seven steps.
pub proof fn lemma_every_step_advances(state: State, event: Event)
    requires
        expects(state, event),
    ensures
        rank(next(state, event).0) > rank(state),
        rank(next(state, event).0) <= 7,
        next(state, event).1 is Finish <==> next(state, event).0 == State::Finished,
{
}

/// The buttons change from refreshing to removing exactly when the daemon
/// reports the torrent as complete; a torrent that is gone is told as
/// removed, and a daemon that cannot be asked as not found.
pub proof fn lemma_daemon_answer_is_told(answer: TorrentLookup)
    ensures
        next(State::AwaitDaemon, Event::Daemon(answer)).1 == Action::Send(told(answer)),
        told(answer) == (Notice::Progress { complete: true }) <==> answer == (TorrentLookup::Found {
            complete: true,
        }),
        told(answer) == Notice::Removed <==> answer == TorrentLookup::Missing,
        told(answer) == Notice::NotOnServer <==> answer == TorrentLookup::Unreachable,
{
}

} // verus!
