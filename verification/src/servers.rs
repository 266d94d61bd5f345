//! Registering a daemon and showing its statistics: what the user's
//! message is read as, what is asked of the caller, and what is said.

use crate::models::{Authentication, NewServer};
use crate::text::{decimal, lines, lines_of, push_decimal, push_signed_decimal, signed_decimal};
use crate::trans_url::{before_first, lowercase_of, TransUrl, WEB_PATH};
use crate::ui::{
    command_button, keyboard_view, no_keyboard, push_row, Button, ButtonView, Render, Reply,
    ReplyView, BACK_TO_SETTINGS, REGISTER_SERVER, RESET_SERVERS,
};
use vstd::prelude::*;

verus! {

pub const REACHABLE: &'static str = "👍";

pub const UNREACHABLE: &'static str = "👎";

/// The text that asks for a daemon's details.
pub const DETAILS_PROMPT: &'static str =
    "Enter server details in the format:\n<i>A link to you webui: E.g. http://localhost:9091/transmission/web</i>\n<i>Optional: user</i>\n<i>Optional: password</i>";

/// The complaint about a message with the wrong number of lines.
pub open spec fn incorrect_format_text(count: nat) -> Seq<char> {
    "Incorrect format. Found "@ + decimal(count) + " lines"@
}

/// The complaint about a message with the wrong number of lines.
pub fn incorrect_format(count: usize) -> (out: String)
    ensures
        out@ == incorrect_format_text(count as nat),
{
    let mut out = String::from_str("Incorrect format. Found ");
    push_decimal(&mut out, count as u64);
    out.append(" lines");
    out
}

/// Reads the details of a daemon from a message: the address of its web
/// interface on the first line, alone or followed by a user name and a
/// password on two more lines. A message of another number of lines is
/// answered with that number.
pub fn read_server(user_id: u64, text: &str) -> (out: Result<NewServer, usize>)
    ensures
        out is Ok <==> lines_of(text@).len() == 1 || lines_of(text@).len() == 3,
        out matches Err(count) ==> count == lines_of(text@).len(),
        out matches Ok(server) ==> {
            &&& server.user_id == user_id as i64
            &&& server.url@ == before_first(lowercase_of(lines_of(text@)[0]), WEB_PATH@)
            &&& server.username is Some <==> lines_of(text@).len() == 3
            &&& server.password is Some <==> lines_of(text@).len() == 3
            &&& lines_of(text@).len() == 3 ==> server.username->0@ == lines_of(text@)[1]
                && server.password->0@ == lines_of(text@)[2]
        },
{
    let rows = lines(text);
    let count = rows.len();
    if count != 1 && count != 3 {
        return Err(count);
    }
    let base = TransUrl::from_web_url(&rows[0]).unwrap();
    let auth = if count == 3 {
        Some(Authentication { username: rows[1].clone(), password: rows[2].clone() })
    } else {
        None
    };
    Ok(NewServer::new(user_id, base.get_base_url(), auth))
}

/// What a user who asks to register a daemon is told: the details to
/// enter, or that there is a daemon already. Only one daemon is kept for
/// each owner.
pub fn register_prompt(servers: usize) -> (out: (Reply, bool))
    ensures
        out.1 == (servers == 0),
        out.0@ == (ReplyView {
            render: Render::Send,
            text: if servers == 0 {
                DETAILS_PROMPT@
            } else {
                "There is already a server registered!"@
            },
            keyboard: Seq::<Seq<ButtonView>>::empty(),
        }),
{
    if servers != 0 {
        (
            Reply {
                render: Render::Send,
                text: String::from_str("There is already a server registered!"),
                keyboard: no_keyboard(),
            },
            false,
        )
    } else {
        (
            Reply {
                render: Render::Send,
                text: String::from_str(DETAILS_PROMPT),
                keyboard: no_keyboard(),
            },
            true,
        )
    }
}

/// What is known of an owner's daemon for the statistics.
#[derive(Debug, Clone)]
pub struct ServerStats {
    pub base_url: String,
    pub tasks: i64,
    pub reachable: bool,
}

/// The statistics of an owner's daemon: its address with the number of its
/// tasks, and whether it answers; or that there is nothing yet.
pub open spec fn stats_text(stats: Option<ServerStats>) -> Seq<char> {
    match stats {
        Some(s) => "Downloads for server:\n<b>"@ + s.base_url@ + "</b>: <i>"@ + signed_decimal(
            s.tasks as int,
        ) + "</i>\nServer status: "@ + if s.reachable {
            REACHABLE@
        } else {
            UNREACHABLE@
        },
        None => "Downloads for server:\nNothing yet :("@,
    }
}

/// The keyboard below the statistics.
pub open spec fn stats_keyboard() -> Seq<Seq<ButtonView>> {
    seq![
        seq![command_button(REGISTER_SERVER@)],
        seq![command_button(RESET_SERVERS@)],
        seq![command_button(BACK_TO_SETTINGS@)],
    ]
}

/// The statistics of an owner's daemon, with the buttons to manage it.
pub fn stats_reply(stats: &Option<ServerStats>) -> (out: Reply)
    ensures
        out@ == (ReplyView {
            render: Render::Send,
            text: stats_text(*stats),
            keyboard: stats_keyboard(),
        }),
{
    let mut rows = no_keyboard();
    push_row(&mut rows, Button::command(REGISTER_SERVER));
    push_row(&mut rows, Button::command(RESET_SERVERS));
    push_row(&mut rows, Button::command(BACK_TO_SETTINGS));
    assert(keyboard_view(rows@) =~= stats_keyboard());
    let text = match stats {
        Some(s) => {
            let mut text = String::from_str("Downloads for server:\n<b>");
            text.append(s.base_url.as_str());
            text.append("</b>: <i>");
            push_signed_decimal(&mut text, s.tasks);
            text.append("</i>\nServer status: ");
            if s.reachable {
                text.append(REACHABLE);
            } else {
                text.append(UNREACHABLE);
            }
            text
        },
        None => String::from_str("Downloads for server:\nNothing yet :("),
    };
    Reply { render: Render::Send, text, keyboard: rows }
}

/// What is said to the user during a registration.
#[derive(Debug, Clone, Copy, PartialEq, Eq, Structural)]
pub enum Notice {
    /// The message had the wrong number of lines.
    IncorrectFormat,
    /// The daemon did not answer.
    Unreachable,
    /// The daemon is registered.
    Done,
}

/// The text of a notice that needs no number.
pub open spec fn notice_text(notice: Notice) -> Seq<char>
    recommends
        notice != Notice::IncorrectFormat,
{
    match notice {
        Notice::Unreachable => "Unable to connect to server! Check details"@,
        _ => "Done!"@,
    }
}

/// How far a registration has come.
#[derive(Debug, Clone, Copy, PartialEq, Eq, Structural)]
pub enum State {
    Reading,
    Probing,
    Saving,
    AwaitSent(Notice),
    Prompting { leave_if_free: bool },
    Leaving,
    Finished,
}

/// What the caller reports.
#[derive(Debug, Clone, Copy, PartialEq, Eq, Structural)]
pub enum Event {
    /// The message was read: whether it had the lines of a daemon's
    /// details.
    Read { well_formed: bool },
    /// The daemon was asked for its session.
    Probed { reachable: bool },
    /// The daemon was stored.
    Saved,
    Sent,
    /// The user was asked again for details: whether the owner is free to
    /// register a daemon.
    Prompted { free: bool },
    /// The conversation has left the dialogue.
    Left,
    Failed,
}

/// How a registration ends.
#[derive(Debug, Clone, Copy, PartialEq, Eq, Structural)]
pub enum End {
    Handled,
    Failed,
}

/// What the caller is to do next.
#[derive(Debug, Clone, Copy, PartialEq, Eq, Structural)]
pub enum Action {
    /// Ask the daemon for its session.
    Probe,
    /// Store the daemon, with its password encrypted where it has one.
    Save,
    Send(Notice),
    /// Tell the user what to enter, or that a daemon is registered
    /// already.
    Prompt,
    /// Leave the dialogue.
    Leave,
    Finish(End),
}

/// The events that a state can be answered with.
pub open spec fn expects(state: State, event: Event) -> bool {
    match state {
        State::Reading => event is Read,
        State::Probing => event is Probed,
        State::Saving => event is Saved || event is Failed,
        State::AwaitSent(_) => event is Sent || event is Failed,
        State::Prompting { .. } => event is Prompted || event is Failed,
        State::Leaving => event is Left || event is Failed,
        State::Finished => false,
    }
}

/// The state and the action that follow an event.
pub open spec fn next(state: State, event: Event) -> (State, Action)
    recommends
        expects(state, event),
{
    match (state, event) {
        (State::Reading, Event::Read { well_formed }) => if well_formed {
            (State::Probing, Action::Probe)
        } else {
            (State::AwaitSent(Notice::IncorrectFormat), Action::Send(Notice::IncorrectFormat))
        },
        (State::Probing, Event::Probed { reachable }) => if reachable {
            (State::Saving, Action::Save)
        } else {
            (State::AwaitSent(Notice::Unreachable), Action::Send(Notice::Unreachable))
        },
        (State::Saving, Event::Saved) => (State::AwaitSent(Notice::Done), Action::Send(Notice::Done)),
        (State::AwaitSent(notice), Event::Sent) => match notice {
            Notice::Done => (State::Leaving, Action::Leave),
            Notice::IncorrectFormat => (State::Prompting { leave_if_free: true }, Action::Prompt),
            Notice::Unreachable => (State::Prompting { leave_if_free: false }, Action::Prompt),
        },
        (State::Prompting { leave_if_free }, Event::Prompted { free }) => if leave_if_free && free {
            (State::Leaving, Action::Leave)
        } else {
            (State::Finished, Action::Finish(End::Handled))
        },
        (State::Leaving, Event::Left) => (State::Finished, Action::Finish(End::Handled)),
        _ => (State::Finished, Action::Finish(End::Failed)),
    }
}

/// Where a registration starts.
pub fn start() -> (out: State)
    ensures
        out == State::Reading,
{
    State::Reading
}

/// Tests whether a state can be answered with an event.
pub fn accepts(state: State, event: Event) -> (out: bool)
    ensures
        out == expects(state, event),
{
    match state {
        State::Reading => matches!(event, Event::Read { .. }),
        State::Probing => matches!(event, Event::Probed { .. }),
        State::Saving => matches!(event, Event::Saved | Event::Failed),
        State::AwaitSent(_) => matches!(event, Event::Sent | Event::Failed),
        State::Prompting { .. } => matches!(event, Event::Prompted { .. } | Event::Failed),
        State::Leaving => matches!(event, Event::Left | Event::Failed),
        State::Finished => false,
    }
}

/// Takes one step of a registration.
pub fn step(state: State, event: Event) -> (out: (State, Action))
    requires
        expects(state, event),
    ensures
        out == next(state, event),
{
    match state {
        State::Reading => match event {
            Event::Read { well_formed: true } => (State::Probing, Action::Probe),
            _ => (
                State::AwaitSent(Notice::IncorrectFormat),
                Action::Send(Notice::IncorrectFormat),
            ),
        },
        State::Probing => match event {
            Event::Probed { reachable: true } => (State::Saving, Action::Save),
            _ => (State::AwaitSent(Notice::Unreachable), Action::Send(Notice::Unreachable)),
        },
        State::Saving => match event {
            Event::Saved => (State::AwaitSent(Notice::Done), Action::Send(Notice::Done)),
            _ => (State::Finished, Action::Finish(End::Failed)),
        },
        State::AwaitSent(notice) => match event {
            Event::Sent => match notice {
                Notice::Done => (State::Leaving, Action::Leave),
                Notice::IncorrectFormat => (
                    State::Prompting { leave_if_free: true },
                    Action::Prompt,
                ),
                Notice::Unreachable => (State::Prompting { leave_if_free: false }, Action::Prompt),
            },
            _ => (State::Finished, Action::Finish(End::Failed)),
        },
        State::Prompting { leave_if_free } => match event {
            Event::Prompted { free } => if leave_if_free && free {
                (State::Leaving, Action::Leave)
            } else {
                (State::Finished, Action::Finish(End::Handled))
            },
            _ => (State::Finished, Action::Finish(End::Failed)),
        },
        State::Leaving => match event {
            Event::Left => (State::Finished, Action::Finish(End::Handled)),
            _ => (State::Finished, Action::Finish(End::Failed)),
        },
        State::Finished => (State::Finished, Action::Finish(End::Failed)),
    }
}

/// How far along a state is.
pub open spec fn rank(state: State) -> nat {
    match state {
        State::Reading => 0,
        State::Probing => 1,
        State::Saving => 2,
        State::AwaitSent(_) => 3,
        State::Prompting { .. } => 4,
        State::Leaving => 5,
        State::Finished => 6,
    }
}

/// Every step leads further along, and a daemon is stored only when it has
/// just answered.
pub proof fn lemma_every_step_advances(state: State, event: Event)
    requires
        expects(state, event),
    ensures
        rank(next(state, event).0) > rank(state),
        rank(next(state, event).0) <= 6,
        next(state, event).1 is Finish <==> next(state, event).0 == State::Finished,
        next(state, event).1 == Action::Save <==> state == State::Probing && event
            == (Event::Probed { reachable: true }),
{
}

} // verus!
