//! Removing the torrent of a task from the daemon, with its data: what to
//! ask for and what to say at each step.
//!
//! The caller performs each action and reports back with the event that
//! came of it. Nothing is retried, and nothing changes in the store.

use vstd::prelude::*;

verus! {

/// What is said to the user.
#[derive(Debug, Clone, Copy, PartialEq, Eq, Structural)]
pub enum Notice {
    /// The payload was malformed.
    MessedUp,
    /// The owner has no daemon: a prompt to register one.
    NoServer,
    /// The torrent was removed.
    Removed,
}

/// What came of looking up the owner's daemon.
#[derive(Debug, Clone, Copy, PartialEq, Eq, Structural)]
pub enum ServerLookup {
    Failed,
    Missing,
    Found,
}

/// What came of looking up the task's magnet under the owner.
#[derive(Debug, Clone, Copy, PartialEq, Eq, Structural)]
pub enum MagnetLookup {
    Failed,
    Missing,
    Found,
}

/// How far a removal has come.
#[derive(Debug, Clone, Copy, PartialEq, Eq, Structural)]
pub enum State {
    Decoding,
    AwaitUser,
    AwaitTask,
    AwaitServers,
    AwaitMagnet,
    AwaitDaemon,
    AwaitSent(Notice),
    Finished,
}

/// What the caller reports.
#[derive(Debug, Clone, Copy, PartialEq, Eq, Structural)]
pub enum Event {
    Payload { well_formed: bool },
    User { known: bool },
    Task { known: bool },
    Servers(ServerLookup),
    Magnet(MagnetLookup),
    /// The daemon removed the torrent, or did not.
    Daemon { removed: bool },
    Sent,
    Failed,
}

/// How a removal ends.
#[derive(Debug, Clone, Copy, PartialEq, Eq, Structural)]
pub enum End {
    /// Nothing is left to do, and nothing is reported as a failure.
    Handled,
    /// The daemon did not remove the torrent.
    NotRemoved,
    /// The failure of the last call is handed on.
    Failed,
}

/// What the caller is to do next.
#[derive(Debug, Clone, Copy, PartialEq, Eq, Structural)]
pub enum Action {
    LoadUser,
    LoadTask,
    LoadServers,
    LoadMagnet,
    /// Ask the daemon to remove the torrent with the magnet's hash, and
    /// its data.
    RemoveTorrent,
    Send(Notice),
    Finish(End),
}

/// The events that a state can be answered with. A user or a task that is
/// not known is not among them, and neither is any event after the end.
pub open spec fn expects(state: State, event: Event) -> bool {
    match state {
        State::Decoding => event is Payload,
        State::AwaitUser => event == (Event::User { known: true }) || event is Failed,
        State::AwaitTask => event == (Event::Task { known: true }) || event is Failed,
        State::AwaitServers => event is Servers,
        State::AwaitMagnet => event is Magnet,
        State::AwaitDaemon => event is Daemon,
        State::AwaitSent(_) => event is Sent || event is Failed,
        State::Finished => false,
    }
}

/// The state and the action that follow an event.
pub open spec fn next(state: State, event: Event) -> (State, Action)
    recommends
        expects(state, event),
{
    match (state, event) {
        (State::Decoding, Event::Payload { well_formed }) => if well_formed {
            (State::AwaitUser, Action::LoadUser)
        } else {
            (State::AwaitSent(Notice::MessedUp), Action::Send(Notice::MessedUp))
        },
        (State::AwaitUser, Event::User { .. }) => (State::AwaitTask, Action::LoadTask),
        (State::AwaitTask, Event::Task { .. }) => (State::AwaitServers, Action::LoadServers),
        (State::AwaitServers, Event::Servers(lookup)) => match lookup {
            ServerLookup::Failed => (State::Finished, Action::Finish(End::Handled)),
            ServerLookup::Missing => (
                State::AwaitSent(Notice::NoServer),
                Action::Send(Notice::NoServer),
            ),
            ServerLookup::Found => (State::AwaitMagnet, Action::LoadMagnet),
        },
        (State::AwaitMagnet, Event::Magnet(lookup)) => if lookup == MagnetLookup::Found {
            (State::AwaitDaemon, Action::RemoveTorrent)
        } else {
            (State::Finished, Action::Finish(End::Handled))
        },
        (State::AwaitDaemon, Event::Daemon { removed }) => if removed {
            (State::AwaitSent(Notice::Removed), Action::Send(Notice::Removed))
        } else {
            (State::Finished, Action::Finish(End::NotRemoved))
        },
        (State::AwaitSent(_), Event::Sent) => (State::Finished, Action::Finish(End::Handled)),
        (State::AwaitSent(notice), Event::Failed) => if notice == Notice::NoServer {
            (State::Finished, Action::Finish(End::Handled))
        } else {
            (State::Finished, Action::Finish(End::Failed))
        },
        _ => (State::Finished, Action::Finish(End::Failed)),
    }
}

/// Where a removal starts.
pub fn start() -> (out: State)
    ensures
        out == State::Decoding,
{
    State::Decoding
}

/// Tests whether a state can be answered with an event.
pub fn accepts(state: State, event: Event) -> (out: bool)
    ensures
        out == expects(state, event),
{
    match state {
        State::Decoding => matches!(event, Event::Payload { .. }),
        State::AwaitUser => matches!(event, Event::User { known: true } | Event::Failed),
        State::AwaitTask => matches!(event, Event::Task { known: true } | Event::Failed),
        State::AwaitServers => matches!(event, Event::Servers(_)),
        State::AwaitMagnet => matches!(event, Event::Magnet(_)),
        State::AwaitDaemon => matches!(event, Event::Daemon { .. }),
        State::AwaitSent(_) => matches!(event, Event::Sent | Event::Failed),
        State::Finished => false,
    }
}

/// Takes one step of a removal.
pub fn step(state: State, event: Event) -> (out: (State, Action))
    requires
        expects(state, event),
    ensures
        out == next(state, event),
{
    match state {
        State::Decoding => match event {
            Event::Payload { well_formed: true } => (State::AwaitUser, Action::LoadUser),
            _ => (State::AwaitSent(Notice::MessedUp), Action::Send(Notice::MessedUp)),
        },
        State::AwaitUser => match event {
            Event::User { .. } => (State::AwaitTask, Action::LoadTask),
            _ => (State::Finished, Action::Finish(End::Failed)),
        },
        State::AwaitTask => match event {
            Event::Task { .. } => (State::AwaitServers, Action::LoadServers),
            _ => (State::Finished, Action::Finish(End::Failed)),
        },
        State::AwaitServers => match event {
            Event::Servers(ServerLookup::Missing) => (
                State::AwaitSent(Notice::NoServer),
                Action::Send(Notice::NoServer),
            ),
            Event::Servers(ServerLookup::Found) => (State::AwaitMagnet, Action::LoadMagnet),
            _ => (State::Finished, Action::Finish(End::Handled)),
        },
        State::AwaitMagnet => match event {
            Event::Magnet(MagnetLookup::Found) => (State::AwaitDaemon, Action::RemoveTorrent),
            _ => (State::Finished, Action::Finish(End::Handled)),
        },
        State::AwaitDaemon => match event {
            Event::Daemon { removed: true } => (
                State::AwaitSent(Notice::Removed),
                Action::Send(Notice::Removed),
            ),
            _ => (State::Finished, Action::Finish(End::NotRemoved)),
        },
        State::AwaitSent(notice) => match event {
            Event::Sent => (State::Finished, Action::Finish(End::Handled)),
            _ => match notice {
                Notice::NoServer => (State::Finished, Action::Finish(End::Handled)),
                _ => (State::Finished, Action::Finish(End::Failed)),
            },
        },
        State::Finished => (State::Finished, Action::Finish(End::Failed)),
    }
}

/// How far along a state is.
pub open spec fn rank(state: State) -> nat {
    match state {
        State::Decoding => 0,
        State::AwaitUser => 1,
        State::AwaitTask => 2,
        State::AwaitServers => 3,
        State::AwaitMagnet => 4,
        State::AwaitDaemon => 5,
        State::AwaitSent(_) => 6,
        State::Finished => 7,
    }
}

/// Every step leads further along, so the daemon is asked at most once: a
/// removal that failed is not tried again.
pub proof fn lemma_every_step_advances(state: State, event: Event)
    requires
        expects(state, event),
    ensures
        rank(next(state, event).0) > rank(state),
        rank(next(state, event).0) <= 7,
        next(state, event).1 is Finish <==> next(state, event).0 == State::Finished,
        next(state, event).1 == Action::RemoveTorrent ==> state == State::AwaitMagnet,
{
}

} // verus!
