//! The interaction router: which operation a pressed button leads to, and
//! what becomes of the message that carried the button.

use crate::payload::{
    decode, decoded, keeps_message, kept_in_place, Callback, Malformed, DOWNLOAD, MANAGE_FRIEND,
    REMOVE, STATUS, UNFRIEND,
};
use crate::text::{chars_of, has_prefix, starts_with};
use vstd::prelude::*;

verus! {

/// The dialogue that a conversation is in: what the next message of the
/// user is taken for.
#[derive(Debug, Clone, Copy, PartialEq, Eq, Structural)]
pub enum State {
    Start,
    AddDirectory,
    RegisterServer,
    AddFriend,
    ServerSharing,
}

impl Default for State {
    fn default() -> (out: State)
        ensures
            out == State::Start,
    {
        State::Start
    }
}

/// The operation that a payload is handed to.
#[derive(Debug, Clone, Copy, PartialEq, Eq, Structural)]
pub enum Handler {
    StartDownload,
    UpdateTaskStatus,
    RemoveTask,
    ManageFriend,
    Unfriend,
    ConfirmUnfriend,
    ListDirectories,
    AddDirectory,
    ResetDirectories,
    ServerStats,
    ResetServers,
    RegisterServer,
    BackToSettings,
    /// The payload asks for nothing known.
    Nothing,
}

/// The operation that a payload is handed to: the one its prefix names,
/// whether or not its arguments can be read, or the fixed command it is.
pub open spec fn handler_of(data: Seq<char>) -> Handler {
    match decoded(data) {
        Ok(Callback::Download { .. }) | Err(Malformed::Download) => Handler::StartDownload,
        Ok(Callback::TaskStatus { .. }) | Err(Malformed::TaskStatus) => Handler::UpdateTaskStatus,
        Ok(Callback::TaskRemove { .. }) | Err(Malformed::TaskRemove) => Handler::RemoveTask,
        Ok(Callback::ManageFriend { .. }) => Handler::ManageFriend,
        Ok(Callback::Unfriend { .. }) => Handler::Unfriend,
        Ok(Callback::ConfirmUnfriend { .. }) => Handler::ConfirmUnfriend,
        Err(Malformed::Friend) => if has_prefix(data, MANAGE_FRIEND@) {
            Handler::ManageFriend
        } else if has_prefix(data, UNFRIEND@) {
            Handler::Unfriend
        } else {
            Handler::ConfirmUnfriend
        },
        Ok(Callback::ListDirectories) => Handler::ListDirectories,
        Ok(Callback::AddDirectory) => Handler::AddDirectory,
        Ok(Callback::ResetDirectories) => Handler::ResetDirectories,
        Ok(Callback::ServerStats) => Handler::ServerStats,
        Ok(Callback::ResetServers) => Handler::ResetServers,
        Ok(Callback::RegisterServer) => Handler::RegisterServer,
        Ok(Callback::BackToSettings) => Handler::BackToSettings,
        Ok(Callback::Unknown) => Handler::Nothing,
    }
}

/// Finds the operation that a payload is handed to, and whether the
/// payload's message stays once it is handled.
pub fn route(data: &str) -> (out: (Handler, bool))
    ensures
        out.0 == handler_of(data@),
        out.1 == kept_in_place(data@),
{
    let handler = match decode(data) {
        Ok(Callback::Download { .. }) | Err(Malformed::Download) => Handler::StartDownload,
        Ok(Callback::TaskStatus { .. }) | Err(Malformed::TaskStatus) => Handler::UpdateTaskStatus,
        Ok(Callback::TaskRemove { .. }) | Err(Malformed::TaskRemove) => Handler::RemoveTask,
        Ok(Callback::ManageFriend { .. }) => Handler::ManageFriend,
        Ok(Callback::Unfriend { .. }) => Handler::Unfriend,
        Ok(Callback::ConfirmUnfriend { .. }) => Handler::ConfirmUnfriend,
        Err(Malformed::Friend) => {
            let chars = chars_of(data);
            if starts_with(&chars, &chars_of(MANAGE_FRIEND)) {
                Handler::ManageFriend
            } else if starts_with(&chars, &chars_of(UNFRIEND)) {
                Handler::Unfriend
            } else {
                Handler::ConfirmUnfriend
            }
        },
        Ok(Callback::ListDirectories) => Handler::ListDirectories,
        Ok(Callback::AddDirectory) => Handler::AddDirectory,
        Ok(Callback::ResetDirectories) => Handler::ResetDirectories,
        Ok(Callback::ServerStats) => Handler::ServerStats,
        Ok(Callback::ResetServers) => Handler::ResetServers,
        Ok(Callback::RegisterServer) => Handler::RegisterServer,
        Ok(Callback::BackToSettings) => Handler::BackToSettings,
        Ok(Callback::Unknown) => Handler::Nothing,
    };
    (handler, keeps_message(data))
}

/// How far the handling of a pressed button has come.
#[derive(Debug, Clone, Copy, PartialEq, Eq, Structural)]
pub enum Stage {
    Received,
    Dispatched { handler: Handler, keep: bool },
    AwaitEntered { keep: bool },
    AwaitDeleted,
    AwaitHidden,
    AwaitAnswered,
    Finished,
}

/// What the caller reports.
#[derive(Debug, Clone, Copy, PartialEq, Eq, Structural)]
pub enum Event {
    /// A button was pressed: whether its message and its payload came
    /// with it, and where the payload is handed to.
    Query { message: bool, data: bool, handler: Handler, keep: bool },
    /// The operation is done. `proceed` says whether a dialogue that the
    /// operation prepares can begin.
    Handled { proceed: bool },
    /// The conversation has entered the dialogue.
    Entered,
    /// The message was deleted, or could not be.
    Deleted { done: bool },
    /// The message was replaced by the placeholder.
    Hidden,
    /// The press was acknowledged.
    Answered,
    /// A call failed.
    Failed,
}

/// How the handling ends.
#[derive(Debug, Clone, Copy, PartialEq, Eq, Structural)]
pub enum End {
    /// The press came without its message or its payload.
    Ignored,
    Handled,
    /// The failure of the last call is handed on.
    Failed,
}

/// What the caller is to do next.
#[derive(Debug, Clone, Copy, PartialEq, Eq, Structural)]
pub enum Action {
    /// Run the operation.
    Call(Handler),
    /// Let the conversation enter a dialogue.
    Enter(State),
    /// Delete the message that carried the button.
    DeleteMessage,
    /// Replace the message by the placeholder.
    HideMessage,
    /// Acknowledge the press.
    Answer,
    Finish(End),
}

/// The events that a stage can be answered with.
pub open spec fn expects(stage: Stage, event: Event) -> bool {
    match stage {
        Stage::Received => event is Query,
        Stage::Dispatched { .. } => event is Handled || event is Failed,
        Stage::AwaitEntered { .. } => event is Entered || event is Failed,
        Stage::AwaitDeleted => event is Deleted,
        Stage::AwaitHidden => event is Hidden || event is Failed,
        Stage::AwaitAnswered => event is Answered || event is Failed,
        Stage::Finished => false,
    }
}

/// What becomes of the message once the operation is done: it stays where
/// the operation writes into it, and is deleted else.
pub open spec fn tidy(keep: bool) -> (Stage, Action) {
    if keep {
        (Stage::AwaitAnswered, Action::Answer)
    } else {
        (Stage::AwaitDeleted, Action::DeleteMessage)
    }
}

/// The dialogue that begins when an operation is done.
pub open spec fn dialogue_after(handler: Handler, proceed: bool) -> Option<State> {
    match handler {
        Handler::AddDirectory => Some(State::AddDirectory),
        Handler::RegisterServer => if proceed {
            Some(State::RegisterServer)
        } else {
            None
        },
        _ => None,
    }
}

/// The stage and the action that follow an event.
pub open spec fn next(stage: Stage, event: Event) -> (Stage, Action)
    recommends
        expects(stage, event),
{
    match (stage, event) {
        (Stage::Received, Event::Query { message, data, handler, keep }) => if !message || !data {
            (Stage::Finished, Action::Finish(End::Ignored))
        } else if handler == Handler::Nothing {
            tidy(keep)
        } else {
            (Stage::Dispatched { handler, keep }, Action::Call(handler))
        },
        (Stage::Dispatched { handler, keep }, Event::Handled { proceed }) => match dialogue_after(
            handler,
            proceed,
        ) {
            Some(dialogue) => (Stage::AwaitEntered { keep }, Action::Enter(dialogue)),
            None => tidy(keep),
        },
        (Stage::AwaitEntered { keep }, Event::Entered) => tidy(keep),
        (Stage::AwaitDeleted, Event::Deleted { done }) => if done {
            (Stage::AwaitAnswered, Action::Answer)
        } else {
            (Stage::AwaitHidden, Action::HideMessage)
        },
        (Stage::AwaitHidden, Event::Hidden) => (Stage::AwaitAnswered, Action::Answer),
        (Stage::AwaitAnswered, Event::Answered) => (Stage::Finished, Action::Finish(End::Handled)),
        _ => (Stage::Finished, Action::Finish(End::Failed)),
    }
}

/// Where the handling of a pressed button starts.
pub fn start() -> (out: Stage)
    ensures
        out == Stage::Received,
{
    Stage::Received
}

/// Tests whether a stage can be answered with an event.
pub fn accepts(stage: Stage, event: Event) -> (out: bool)
    ensures
        out == expects(stage, event),
{
    match stage {
        Stage::Received => matches!(event, Event::Query { .. }),
        Stage::Dispatched { .. } => matches!(event, Event::Handled { .. } | Event::Failed),
        Stage::AwaitEntered { .. } => matches!(event, Event::Entered | Event::Failed),
        Stage::AwaitDeleted => matches!(event, Event::Deleted { .. }),
        Stage::AwaitHidden => matches!(event, Event::Hidden | Event::Failed),
        Stage::AwaitAnswered => matches!(event, Event::Answered | Event::Failed),
        Stage::Finished => false,
    }
}

fn tidy_up(keep: bool) -> (out: (Stage, Action))
    ensures
        out == tidy(keep),
{
    if keep {
        (Stage::AwaitAnswered, Action::Answer)
    } else {
        (Stage::AwaitDeleted, Action::DeleteMessage)
    }
}

/// Takes one step of the handling of a pressed button.
pub fn step(stage: Stage, event: Event) -> (out: (Stage, Action))
    requires
        expects(stage, event),
    ensures
        out == next(stage, event),
{
    match stage {
        Stage::Received => match event {
            Event::Query { message: true, data: true, handler, keep } => match handler {
                Handler::Nothing => tidy_up(keep),
                _ => (Stage::Dispatched { handler, keep }, Action::Call(handler)),
            },
            _ => (Stage::Finished, Action::Finish(End::Ignored)),
        },
        Stage::Dispatched { handler, keep } => match event {
            Event::Handled { proceed } => match handler {
                Handler::AddDirectory => (
                    Stage::AwaitEntered { keep },
                    Action::Enter(State::AddDirectory),
                ),
                Handler::RegisterServer => if proceed {
                    (Stage::AwaitEntered { keep }, Action::Enter(State::RegisterServer))
                } else {
                    tidy_up(keep)
                },
                _ => tidy_up(keep),
            },
            _ => (Stage::Finished, Action::Finish(End::Failed)),
        },
        Stage::AwaitEntered { keep } => match event {
            Event::Entered => tidy_up(keep),
            _ => (Stage::Finished, Action::Finish(End::Failed)),
        },
        Stage::AwaitDeleted => match event {
            Event::Deleted { done: true } => (Stage::AwaitAnswered, Action::Answer),
            _ => (Stage::AwaitHidden, Action::HideMessage),
        },
        Stage::AwaitHidden => match event {
            Event::Hidden => (Stage::AwaitAnswered, Action::Answer),
            _ => (Stage::Finished, Action::Finish(End::Failed)),
        },
        Stage::AwaitAnswered => match event {
            Event::Answered => (Stage::Finished, Action::Finish(End::Handled)),
            _ => (Stage::Finished, Action::Finish(End::Failed)),
        },
        Stage::Finished => (Stage::Finished, Action::Finish(End::Failed)),
    }
}

/// How far along a stage is.
pub open spec fn rank(stage: Stage) -> nat {
    match stage {
        Stage::Received => 0,
        Stage::Dispatched { .. } => 1,
        Stage::AwaitEntered { .. } => 2,
        Stage::AwaitDeleted => 3,
        Stage::AwaitHidden => 4,
        Stage::AwaitAnswered => 5,
        Stage::Finished => 6,
    }
}

/// Whether a stage still holds that the message is to stay.
pub open spec fn keeps(stage: Stage) -> bool {
    match stage {
        Stage::Dispatched { keep, .. } => keep,
        Stage::AwaitEntered { keep } => keep,
        _ => false,
    }
}

/// Every step leads further along. A message that is to stay is never
/// deleted or hidden: deleting follows only a stage that does not keep the
/// message, and hiding only a failed deletion.
pub proof fn lemma_every_step_advances(stage: Stage, event: Event)
    requires
        expects(stage, event),
    ensures
        rank(next(stage, event).0) > rank(stage),
        rank(next(stage, event).0) <= 6,
        next(stage, event).1 is Finish <==> next(stage, event).0 == Stage::Finished,
        next(stage, event).1 == Action::DeleteMessage ==> !keeps(stage) && !(event matches Event::Query {
            keep,
            ..
        } && keep),
        next(stage, event).1 == Action::HideMessage <==> stage == Stage::AwaitDeleted && event
            == (Event::Deleted { done: false }),
        keeps(next(stage, event).0) ==> keeps(stage) || (event matches Event::Query { keep, .. }
            && keep),
{
}

/// The payloads that update a task's message are handed to the task
/// operations, and their message stays.
pub proof fn lemma_task_messages_stay(data: Seq<char>)
    ensures
        handler_of(data) == Handler::UpdateTaskStatus <==> has_prefix(data, STATUS@),
        handler_of(data) == Handler::RemoveTask <==> has_prefix(data, REMOVE@),
        handler_of(data) == Handler::StartDownload <==> has_prefix(data, DOWNLOAD@),
        has_prefix(data, STATUS@) || has_prefix(data, REMOVE@) ==> kept_in_place(data),
{
    reveal_strlit("download:");
    reveal_strlit("t_status:");
    reveal_strlit("t_remove:");
    if has_prefix(data, DOWNLOAD@) {
        assert(data.subrange(0, 9)[0] == 'd');
        assert(data[0] == 'd');
    }
    if has_prefix(data, STATUS@) {
        assert(data.subrange(0, 9)[0] == 't' && data.subrange(0, 9)[2] == 's');
        assert(data[0] == 't' && data[2] == 's');
    }
    if has_prefix(data, REMOVE@) {
        assert(data.subrange(0, 9)[0] == 't' && data.subrange(0, 9)[2] == 'r');
        assert(data[0] == 't' && data[2] == 'r');
    }
}

} // verus!
