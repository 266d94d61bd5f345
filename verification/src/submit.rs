//! Submitting a registered magnet to the daemon: what to ask for and what
//! to say at each step, from the pressed button to the task's message.
//!
//! The caller performs each action and reports back with the event that
//! came of it. A task is stored only after the daemon has accepted the
//! torrent.

use vstd::prelude::*;

verus! {

/// What is said to the user at the end of a submission.
#[derive(Debug, Clone, Copy, PartialEq, Eq, Structural)]
pub enum Notice {
    /// The payload was malformed.
    MessedUp,
    /// The owner has no daemon.
    NoServer,
    /// The owner has no directory with the chosen ordinal.
    NoDirectory,
    /// The download has started.
    Downloading,
    /// The daemon already has the torrent.
    Duplicate,
    /// The daemon could not be reached or refused the request.
    UnableToAdd,
}

/// What came of looking up the owner's daemon.
#[derive(Debug, Clone, Copy, PartialEq, Eq, Structural)]
pub enum ServerLookup {
    /// The store failed.
    Failed,
    /// The owner has none.
    Missing,
    /// The owner's daemon.
    Found,
}

/// What the daemon answered to a torrent.
#[derive(Debug, Clone, Copy, PartialEq, Eq, Structural)]
pub enum DaemonAnswer {
    Added,
    Duplicate,
    Failed,
}

/// How far a submission has come.
#[derive(Debug, Clone, Copy, PartialEq, Eq, Structural)]
pub enum State {
    Decoding,
    AwaitUser,
    AwaitMagnet,
    AwaitDirectory,
    AwaitServers { directory: bool },
    AwaitDaemon,
    AwaitTask,
    AwaitSent(Notice),
    Finished,
}

/// What the caller reports.
#[derive(Debug, Clone, Copy, PartialEq, Eq, Structural)]
pub enum Event {
    /// The payload was decoded, or was malformed.
    Payload { well_formed: bool },
    /// The user was looked up.
    User { known: bool },
    /// The magnet was looked up under the owner.
    Magnet { known: bool },
    /// The directory was looked up by its ordinal under the owner.
    Directory { known: bool },
    /// The owner's daemon was looked up.
    Servers(ServerLookup),
    /// The daemon answered.
    Daemon(DaemonAnswer),
    /// The task was stored.
    TaskCreated,
    /// The message was sent.
    Sent,
    /// The store or the chat failed.
    Failed,
}

/// How a submission ends.
#[derive(Debug, Clone, Copy, PartialEq, Eq, Structural)]
pub enum End {
    /// Nothing is left to do, and nothing is reported as a failure.
    Handled,
    /// The failure of the last call is handed on.
    Failed,
}

/// What the caller is to do next.
#[derive(Debug, Clone, Copy, PartialEq, Eq, Structural)]
pub enum Action {
    LoadUser,
    LoadMagnet,
    LoadDirectory,
    LoadServers,
    /// Hand the short form of the magnet and the directory's path to the
    /// daemon.
    AddTorrent,
    /// Store the task.
    CreateTask,
    Send(Notice),
    Finish(End),
}

/// The events that a state can be answered with. A user or a magnet that
/// is not known is not among them, and neither is any event after the end.
pub open spec fn expects(state: State, event: Event) -> bool {
    match state {
        State::Decoding => event is Payload,
        State::AwaitUser => event == (Event::User { known: true }) || event is Failed,
        State::AwaitMagnet => event == (Event::Magnet { known: true }) || event is Failed,
        State::AwaitDirectory => event is Directory || event is Failed,
        State::AwaitServers { .. } => event is Servers,
        State::AwaitDaemon => event is Daemon,
        State::AwaitTask => event is TaskCreated || event is Failed,
        State::AwaitSent(_) => event is Sent || event is Failed,
        State::Finished => false,
    }
}

/// The state and the action that follow an event.
pub open spec fn next(state: State, event: Event) -> (State, Action)
    recommends
        expects(state, event),
{
    match (state, event) {
        (State::Decoding, Event::Payload { well_formed }) => if well_formed {
            (State::AwaitUser, Action::LoadUser)
        } else {
            (State::AwaitSent(Notice::MessedUp), Action::Send(Notice::MessedUp))
        },
        (State::AwaitUser, Event::User { .. }) => (State::AwaitMagnet, Action::LoadMagnet),
        (State::AwaitMagnet, Event::Magnet { .. }) => (State::AwaitDirectory, Action::LoadDirectory),
        (State::AwaitDirectory, Event::Directory { known }) => (
            State::AwaitServers { directory: known },
            Action::LoadServers,
        ),
        (State::AwaitServers { directory }, Event::Servers(lookup)) => match lookup {
            ServerLookup::Failed => (State::Finished, Action::Finish(End::Handled)),
            ServerLookup::Missing => (
                State::AwaitSent(Notice::NoServer),
                Action::Send(Notice::NoServer),
            ),
            ServerLookup::Found => if directory {
                (State::AwaitDaemon, Action::AddTorrent)
            } else {
                (State::AwaitSent(Notice::NoDirectory), Action::Send(Notice::NoDirectory))
            },
        },
        (State::AwaitDaemon, Event::Daemon(answer)) => match answer {
            DaemonAnswer::Added => (State::AwaitTask, Action::CreateTask),
            DaemonAnswer::Duplicate => (
                State::AwaitSent(Notice::Duplicate),
                Action::Send(Notice::Duplicate),
            ),
            DaemonAnswer::Failed => (
                State::AwaitSent(Notice::UnableToAdd),
                Action::Send(Notice::UnableToAdd),
            ),
        },
        (State::AwaitTask, Event::TaskCreated) => (
            State::AwaitSent(Notice::Downloading),
            Action::Send(Notice::Downloading),
        ),
        (State::AwaitSent(_), Event::Sent) => (State::Finished, Action::Finish(End::Handled)),
        (State::AwaitSent(notice), Event::Failed) => if notice == Notice::NoServer {
            (State::Finished, Action::Finish(End::Handled))
        } else {
            (State::Finished, Action::Finish(End::Failed))
        },
        _ => (State::Finished, Action::Finish(End::Failed)),
    }
}

/// Where a submission starts.
pub fn start() -> (out: State)
    ensures
        out == State::Decoding,
{
    State::Decoding
}

/// Tests whether a state can be answered with an event.
pub fn accepts(state: State, event: Event) -> (out: bool)
    ensures
        out == expects(state, event),
{
    match state {
        State::Decoding => matches!(event, Event::Payload { .. }),
        State::AwaitUser => matches!(event, Event::User { known: true } | Event::Failed),
        State::AwaitMagnet => matches!(event, Event::Magnet { known: true } | Event::Failed),
        State::AwaitDirectory => matches!(event, Event::Directory { .. } | Event::Failed),
        State::AwaitServers { .. } => matches!(event, Event::Servers(_)),
        State::AwaitDaemon => matches!(event, Event::Daemon(_)),
        State::AwaitTask => matches!(event, Event::TaskCreated | Event::Failed),
        State::AwaitSent(_) => matches!(event, Event::Sent | Event::Failed),
        State::Finished => false,
    }
}

/// Takes one step of a submission.
pub fn step(state: State, event: Event) -> (out: (State, Action))
    requires
        expects(state, event),
    ensures
        out == next(state, event),
{
    match state {
        State::Decoding => match event {
            Event::Payload { well_formed: true } => (State::AwaitUser, Action::LoadUser),
            _ => (State::AwaitSent(Notice::MessedUp), Action::Send(Notice::MessedUp)),
        },
        State::AwaitUser => match event {
            Event::User { .. } => (State::AwaitMagnet, Action::LoadMagnet),
            _ => (State::Finished, Action::Finish(End::Failed)),
        },
        State::AwaitMagnet => match event {
            Event::Magnet { .. } => (State::AwaitDirectory, Action::LoadDirectory),
            _ => (State::Finished, Action::Finish(End::Failed)),
        },
        State::AwaitDirectory => match event {
            Event::Directory { known } => (
                State::AwaitServers { directory: known },
                Action::LoadServers,
            ),
            _ => (State::Finished, Action::Finish(End::Failed)),
        },
        State::AwaitServers { directory } => match event {
            Event::Servers(ServerLookup::Missing) => (
                State::AwaitSent(Notice::NoServer),
                Action::Send(Notice::NoServer),
            ),
            Event::Servers(ServerLookup::Found) => if directory {
                (State::AwaitDaemon, Action::AddTorrent)
            } else {
                (State::AwaitSent(Notice::NoDirectory), Action::Send(Notice::NoDirectory))
            },
            _ => (State::Finished, Action::Finish(End::Handled)),
        },
        State::AwaitDaemon => match event {
            Event::Daemon(DaemonAnswer::Added) => (State::AwaitTask, Action::CreateTask),
            Event::Daemon(DaemonAnswer::Duplicate) => (
                State::AwaitSent(Notice::Duplicate),
                Action::Send(Notice::Duplicate),
            ),
            _ => (State::AwaitSent(Notice::UnableToAdd), Action::Send(Notice::UnableToAdd)),
        },
        State::AwaitTask => match event {
            Event::TaskCreated => (
                State::AwaitSent(Notice::Downloading),
                Action::Send(Notice::Downloading),
            ),
            _ => (State::Finished, Action::Finish(End::Failed)),
        },
        State::AwaitSent(notice) => match event {
            Event::Sent => (State::Finished, Action::Finish(End::Handled)),
            _ => match notice {
                Notice::NoServer => (State::Finished, Action::Finish(End::Handled)),
                _ => (State::Finished, Action::Finish(End::Failed)),
            },
        },
        State::Finished => (State::Finished, Action::Finish(End::Failed)),
    }
}

/// How far along a state is: every step leads to a state further along.
pub open spec fn rank(state: State) -> nat {
    match state {
        State::Decoding => 0,
        State::AwaitUser => 1,
        State::AwaitMagnet => 2,
        State::AwaitDirectory => 3,
        State::AwaitServers { .. } => 4,
        State::AwaitDaemon => 5,
        State::AwaitTask => 6,
        State::AwaitSent(_) => 7,
        State::Finished => 8,
    }
}

/// Every step leads further along, so no state is entered twice and a
/// submission ends after at most eight steps.
pub proof fn lemma_every_step_advances(state: State, event: Event)
    requires
        expects(state, event),
    ensures
        rank(next(state, event).0) > rank(state),
        rank(next(state, event).0) <= 8,
        next(state, event).1 is Finish <==> next(state, event).0 == State::Finished,
{
}

/// A task is stored exactly when the daemon has just accepted the torrent:
/// not when it reports a duplicate, not when it fails, and at no other
/// step.
pub proof fn lemma_task_stored_only_when_added(state: State, event: Event)
    requires
        expects(state, event),
    ensures
        next(state, event).1 == Action::CreateTask <==> state == State::AwaitDaemon && event
            == Event::Daemon(DaemonAnswer::Added),
        next(state, event).0 == State::AwaitTask <==> next(state, event).1 == Action::CreateTask,
{
}

/// The actions of a run: what each of the events leads to, in turn, while
/// the events are expected.
pub open spec fn actions(state: State, events: Seq<Event>) -> Seq<Action>
    decreases events.len(),
{
    if events.len() == 0 || !expects(state, events[0]) {
        Seq::<Action>::empty()
    } else {
        seq![next(state, events[0]).1] + actions(next(state, events[0]).0, events.drop_first())
    }
}

/// How many of the actions store a task.
pub open spec fn stored(actions: Seq<Action>) -> nat
    decreases actions.len(),
{
    if actions.len() == 0 {
        0
    } else {
        stored(actions.drop_first()) + if actions[0] == Action::CreateTask {
            1nat
        } else {
            0nat
        }
    }
}

/// What the daemon answers in a run, if the run comes to ask it.
pub open spec fn daemon_answer(state: State, events: Seq<Event>) -> Option<DaemonAnswer>
    decreases events.len(),
{
    if events.len() == 0 || !expects(state, events[0]) {
        None
    } else if state == State::AwaitDaemon {
        match events[0] {
            Event::Daemon(answer) => Some(answer),
            _ => None,
        }
    } else {
        daemon_answer(next(state, events[0]).0, events.drop_first())
    }
}

proof fn lemma_daemon_asked_once(state: State, events: Seq<Event>)
    requires
        rank(state) > 5,
    ensures
        daemon_answer(state, events) is None,
    decreases events.len(),
{
    if events.len() > 0 && expects(state, events[0]) {
        lemma_every_step_advances(state, events[0]);
        lemma_daemon_asked_once(next(state, events[0]).0, events.drop_first());
    }
}

/// Whatever is reported, and from whatever state on, a run stores exactly
/// one task where the daemon accepts the torrent, and none where it
/// reports a duplicate, fails, or is never asked.
pub proof fn lemma_one_task_per_accepted_torrent(state: State, events: Seq<Event>)
    ensures
        stored(actions(state, events)) == if daemon_answer(state, events) == Some(
            DaemonAnswer::Added,
        ) {
            1nat
        } else {
            0nat
        },
    decreases events.len(),
{
    if events.len() > 0 && expects(state, events[0]) {
        let after = next(state, events[0]).0;
        let rest = events.drop_first();
        let run = actions(state, events);
        lemma_task_stored_only_when_added(state, events[0]);
        lemma_every_step_advances(state, events[0]);
        lemma_one_task_per_accepted_torrent(after, rest);
        assert(run[0] == next(state, events[0]).1);
        assert(run.drop_first() =~= actions(after, rest));
        if state == State::AwaitDaemon {
            lemma_daemon_asked_once(after, rest);
        }
    }
}

} // verus!
