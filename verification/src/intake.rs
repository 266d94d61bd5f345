//! Taking in a message that carries a magnet: what to ask for and what to
//! say at each step, from the text to the offer of directories.
//!
//! The caller performs each action and reports back with the event that
//! came of it. A magnet is registered only for an owner who has a daemon
//! and a directory; an intake that is refused fails with a logic error and
//! is not resumed.

use vstd::prelude::*;

verus! {

/// Why an intake is refused.
#[derive(Debug, Clone, Copy, PartialEq, Eq, Structural)]
pub enum Refusal {
    /// No magnet could be read from the text.
    Unreadable,
    /// The owner has no daemon.
    NoServer,
    /// The owner has no directory.
    NoDirectory,
}

/// What is said to the user.
#[derive(Debug, Clone, Copy, PartialEq, Eq, Structural)]
pub enum Notice {
    /// The refusal: an excuse for a text without a magnet, and else a
    /// prompt with the one button that registers what is missing.
    Refuse(Refusal),
    /// The directories to choose from.
    Offer,
}

/// How far an intake has come.
#[derive(Debug, Clone, Copy, PartialEq, Eq, Structural)]
pub enum State {
    Scanning,
    AwaitUser,
    AwaitServers,
    AwaitDirectories,
    AwaitRegistration,
    AwaitSent(Notice),
    Finished,
}

/// What the caller reports.
#[derive(Debug, Clone, Copy, PartialEq, Eq, Structural)]
pub enum Event {
    /// The text was searched for a magnet.
    Scanned { found: bool },
    /// The user was looked up.
    User { known: bool },
    /// The owner's daemons were counted.
    Servers { count: usize },
    /// The owner's directories were counted.
    Directories { count: usize },
    /// The magnet was registered.
    Registered,
    /// The message was sent.
    Sent,
    /// The store or the chat failed.
    Failed,
}

/// How an intake ends.
#[derive(Debug, Clone, Copy, PartialEq, Eq, Structural)]
pub enum End {
    /// The magnet is registered and the offer stands.
    Offered,
    /// The intake fails with the logic error of the refusal that was told
    /// to the user. Nothing was registered, and the intake is not resumed.
    Refused(Refusal),
    /// The intake fails with the failure of the last call.
    Failed,
}

/// What the caller is to do next.
#[derive(Debug, Clone, Copy, PartialEq, Eq, Structural)]
pub enum Action {
    LoadUser,
    CountServers,
    LoadDirectories,
    /// Register the full form of the magnet.
    RegisterMagnet,
    Send(Notice),
    Finish(End),
}

/// The events that a state can be answered with. A user who is not known
/// is not among them, and neither is any event after the end.
pub open spec fn expects(state: State, event: Event) -> bool {
    match state {
        State::Scanning => event is Scanned,
        State::AwaitUser => event == (Event::User { known: true }) || event is Failed,
        State::AwaitServers => event is Servers || event is Failed,
        State::AwaitDirectories => event is Directories || event is Failed,
        State::AwaitRegistration => event is Registered || event is Failed,
        State::AwaitSent(_) => event is Sent || event is Failed,
        State::Finished => false,
    }
}

/// The state and the action that follow a refusal.
pub open spec fn refuse(refusal: Refusal) -> (State, Action) {
    (State::AwaitSent(Notice::Refuse(refusal)), Action::Send(Notice::Refuse(refusal)))
}

/// The state and the action that follow an event.
pub open spec fn next(state: State, event: Event) -> (State, Action)
    recommends
        expects(state, event),
{
    match (state, event) {
        (State::Scanning, Event::Scanned { found }) => if found {
            (State::AwaitUser, Action::LoadUser)
        } else {
            refuse(Refusal::Unreadable)
        },
        (State::AwaitUser, Event::User { .. }) => (State::AwaitServers, Action::CountServers),
        (State::AwaitServers, Event::Servers { count }) => if count == 0 {
            refuse(Refusal::NoServer)
        } else {
            (State::AwaitDirectories, Action::LoadDirectories)
        },
        (State::AwaitDirectories, Event::Directories { count }) => if count == 0 {
            refuse(Refusal::NoDirectory)
        } else {
            (State::AwaitRegistration, Action::RegisterMagnet)
        },
        (State::AwaitRegistration, Event::Registered) => (
            State::AwaitSent(Notice::Offer),
            Action::Send(Notice::Offer),
        ),
        (State::AwaitSent(notice), Event::Sent) => match notice {
            Notice::Offer => (State::Finished, Action::Finish(End::Offered)),
            Notice::Refuse(refusal) => (State::Finished, Action::Finish(End::Refused(refusal))),
        },
        _ => (State::Finished, Action::Finish(End::Failed)),
    }
}

/// Where an intake starts.
pub fn start() -> (out: State)
    ensures
        out == State::Scanning,
{
    State::Scanning
}

/// Tests whether a state can be answered with an event.
pub fn accepts(state: State, event: Event) -> (out: bool)
    ensures
        out == expects(state, event),
{
    match state {
        State::Scanning => matches!(event, Event::Scanned { .. }),
        State::AwaitUser => matches!(event, Event::User { known: true } | Event::Failed),
        State::AwaitServers => matches!(event, Event::Servers { .. } | Event::Failed),
        State::AwaitDirectories => matches!(event, Event::Directories { .. } | Event::Failed),
        State::AwaitRegistration => matches!(event, Event::Registered | Event::Failed),
        State::AwaitSent(_) => matches!(event, Event::Sent | Event::Failed),
        State::Finished => false,
    }
}

fn refusing(refusal: Refusal) -> (out: (State, Action))
    ensures
        out == refuse(refusal),
{
    (State::AwaitSent(Notice::Refuse(refusal)), Action::Send(Notice::Refuse(refusal)))
}

/// Takes one step of an intake.
pub fn step(state: State, event: Event) -> (out: (State, Action))
    requires
        expects(state, event),
    ensures
        out == next(state, event),
{
    match state {
        State::Scanning => match event {
            Event::Scanned { found: true } => (State::AwaitUser, Action::LoadUser),
            _ => refusing(Refusal::Unreadable),
        },
        State::AwaitUser => match event {
            Event::User { .. } => (State::AwaitServers, Action::CountServers),
            _ => (State::Finished, Action::Finish(End::Failed)),
        },
        State::AwaitServers => match event {
            Event::Servers { count } => if count == 0 {
                refusing(Refusal::NoServer)
            } else {
                (State::AwaitDirectories, Action::LoadDirectories)
            },
            _ => (State::Finished, Action::Finish(End::Failed)),
        },
        State::AwaitDirectories => match event {
            Event::Directories { count } => if count == 0 {
                refusing(Refusal::NoDirectory)
            } else {
                (State::AwaitRegistration, Action::RegisterMagnet)
            },
            _ => (State::Finished, Action::Finish(End::Failed)),
        },
        State::AwaitRegistration => match event {
            Event::Registered => (State::AwaitSent(Notice::Offer), Action::Send(Notice::Offer)),
            _ => (State::Finished, Action::Finish(End::Failed)),
        },
        State::AwaitSent(notice) => match event {
            Event::Sent => match notice {
                Notice::Offer => (State::Finished, Action::Finish(End::Offered)),
                Notice::Refuse(refusal) => (State::Finished, Action::Finish(End::Refused(refusal))),
            },
            _ => (State::Finished, Action::Finish(End::Failed)),
        },
        State::Finished => (State::Finished, Action::Finish(End::Failed)),
    }
}

/// How far along a state is.
pub open spec fn rank(state: State) -> nat {
    match state {
        State::Scanning => 0,
        State::AwaitUser => 1,
        State::AwaitServers => 2,
        State::AwaitDirectories => 3,
        State::AwaitRegistration => 4,
        State::AwaitSent(_) => 5,
        State::Finished => 6,
    }
}

/// Every step leads further along, so no state is entered twice and an
/// intake ends after at most six steps.
pub proof fn lemma_every_step_advances(state: State, event: Event)
    requires
        expects(state, event),
    ensures
        rank(next(state, event).0) > rank(state),
        rank(next(state, event).0) <= 6,
        next(state, event).1 is Finish <==> next(state, event).0 == State::Finished,
{
}

/// A magnet is registered exactly when the owner's directories have just
/// been counted and there is at least one.
pub proof fn lemma_registered_only_with_a_directory(state: State, event: Event)
    requires
        expects(state, event),
    ensures
        next(state, event).1 == Action::RegisterMagnet <==> state == State::AwaitDirectories && (
        event matches Event::Directories { count } && count > 0),
        next(state, event).0 == State::AwaitDirectories <==> state == State::AwaitServers && (
        event matches Event::Servers { count } && count > 0),
        next(state, event).0 == State::AwaitUser <==> state == State::Scanning && event
            == (Event::Scanned { found: true }),
{
}

/// An intake is refused exactly for the reason that was told to the user
/// just before: a text without a magnet, an owner without a daemon, or an
/// owner without a directory. Each refusal is told where it arises.
pub proof fn lemma_refused_as_told(state: State, event: Event)
    requires
        expects(state, event),
    ensures
        forall|refusal: Refusal|
            next(state, event).1 == Action::Finish(End::Refused(refusal)) <==> state
                == State::AwaitSent(Notice::Refuse(refusal)) && event == Event::Sent,
        next(state, event).1 == Action::Send(Notice::Refuse(Refusal::Unreadable)) <==> state
            == State::Scanning && event == (Event::Scanned { found: false }),
        next(state, event).1 == Action::Send(Notice::Refuse(Refusal::NoServer)) <==> state
            == State::AwaitServers && event == (Event::Servers { count: 0 }),
        next(state, event).1 == Action::Send(Notice::Refuse(Refusal::NoDirectory)) <==> state
            == State::AwaitDirectories && event == (Event::Directories { count: 0 }),
{
}

/// The events that lead from the start to a registration: a magnet was
/// found, the user is known, and there is at least one daemon and one
/// directory.
pub open spec fn leads_to_registration(events: Seq<Event>) -> bool {
    &&& events.len() >= 4
    &&& events[0] == (Event::Scanned { found: true })
    &&& events[1] == (Event::User { known: true })
    &&& events[2] matches Event::Servers { count } && count > 0
    &&& events[3] matches Event::Directories { count } && count > 0
}

/// The state that a run of expected events ends in, and whether the magnet
/// was registered on the way.
pub open spec fn run(state: State, events: Seq<Event>) -> (State, bool)
    decreases events.len(),
{
    if events.len() == 0 || !expects(state, events[0]) {
        (state, false)
    } else {
        let (after, action) = next(state, events[0]);
        let (last, later) = run(after, events.drop_first());
        (last, action == Action::RegisterMagnet || later)
    }
}

proof fn lemma_no_registration_later(state: State, events: Seq<Event>)
    requires
        rank(state) > 3,
    ensures
        !run(state, events).1,
    decreases events.len(),
{
    if events.len() > 0 && expects(state, events[0]) {
        lemma_every_step_advances(state, events[0]);
        lemma_no_registration_later(next(state, events[0]).0, events.drop_first());
    }
}

/// An intake registers the magnet exactly when a magnet was found, the
/// user is known, and the owner has at least one daemon and one directory.
/// In every other run nothing is registered.
pub proof fn lemma_registration_needs_server_and_directory(events: Seq<Event>)
    ensures
        run(State::Scanning, events).1 <==> leads_to_registration(events),
{
    reveal_with_fuel(run, 6);
    let s0 = State::Scanning;
    if events.len() > 0 && expects(s0, events[0]) {
        let s1 = next(s0, events[0]).0;
        let e1 = events.drop_first();
        if s1 != State::AwaitUser {
            lemma_no_registration_later(s1, e1);
        } else if e1.len() > 0 && expects(s1, e1[0]) {
            let s2 = next(s1, e1[0]).0;
            let e2 = e1.drop_first();
            assert(e1[0] == events[1]);
            if s2 != State::AwaitServers {
                lemma_no_registration_later(s2, e2);
            } else if e2.len() > 0 && expects(s2, e2[0]) {
                let s3 = next(s2, e2[0]).0;
                let e3 = e2.drop_first();
                assert(e2[0] == events[2]);
                if s3 != State::AwaitDirectories {
                    lemma_no_registration_later(s3, e3);
                } else if e3.len() > 0 && expects(s3, e3[0]) {
                    let s4 = next(s3, e3[0]).0;
                    assert(e3[0] == events[3]);
                    lemma_no_registration_later(s4, e3.drop_first());
                }
            }
        }
    }
}

} // verus!
