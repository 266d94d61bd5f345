//! The commands of the assistant, its settings menu, and the welcome of a
//! user.

use crate::crypto::{nonce_bytes, random_salt};
use crate::models::NewUser;
use crate::ui::{
    command_button, keyboard_view, no_keyboard, push_row, Button, ButtonView, Render, Reply,
    ReplyView, LIST_DIRECTORIES, RESET_SHARING, SERVER_STATS, SETTINGS_MENU, SHARE, TASK_HIDE,
    UN_SHARE,
};
use vstd::prelude::*;

verus! {

/// The commands that the assistant understands.
#[derive(Debug, Clone, Copy, PartialEq, Eq, Structural)]
pub enum Command {
    Help,
    Start,
    Settings,
    Cancel,
    AddFriend,
    ListFriends,
    ListServers,
    ServerSharing,
}

impl Command {
    /// The name under which the command is typed.
    pub open spec fn name_text(self) -> Seq<char> {
        match self {
            Command::Help => "help"@,
            Command::Start => "start"@,
            Command::Settings => "settings"@,
            Command::Cancel => "cancel"@,
            Command::AddFriend => "add_friend"@,
            Command::ListFriends => "list_friends"@,
            Command::ListServers => "list_servers"@,
            Command::ServerSharing => "server_sharing"@,
        }
    }

    /// The name under which the command is typed.
    pub fn name(self) -> (out: &'static str)
        ensures
            out@ == self.name_text(),
    {
        match self {
            Command::Help => "help",
            Command::Start => "start",
            Command::Settings => "settings",
            Command::Cancel => "cancel",
            Command::AddFriend => "add_friend",
            Command::ListFriends => "list_friends",
            Command::ListServers => "list_servers",
            Command::ServerSharing => "server_sharing",
        }
    }

    /// What the command does, in a few words.
    pub fn description(self) -> (out: &'static str)
        ensures
            out@ == match self {
                Command::Help => "display this text."@,
                Command::Start => "start working with bot"@,
                Command::Settings => "show settings"@,
                Command::Cancel => "cancel the command"@,
                Command::AddFriend => "add friend"@,
                Command::ListFriends => "list friends"@,
                Command::ListServers => "list servers"@,
                Command::ServerSharing => "manage server sharing"@,
            },
    {
        match self {
            Command::Help => "display this text.",
            Command::Start => "start working with bot",
            Command::Settings => "show settings",
            Command::Cancel => "cancel the command",
            Command::AddFriend => "add friend",
            Command::ListFriends => "list friends",
            Command::ListServers => "list servers",
            Command::ServerSharing => "manage server sharing",
        }
    }
}

/// The keyboard of the settings menu.
pub open spec fn settings_keyboard() -> Seq<Seq<ButtonView>> {
    seq![seq![command_button(LIST_DIRECTORIES@)], seq![command_button(SERVER_STATS@)]]
}

/// The buttons of the settings menu.
pub fn settings_buttons() -> (out: Vec<Vec<Button>>)
    ensures
        keyboard_view(out@) == settings_keyboard(),
{
    let mut rows = no_keyboard();
    push_row(&mut rows, Button::command(LIST_DIRECTORIES));
    push_row(&mut rows, Button::command(SERVER_STATS));
    assert(keyboard_view(rows@) =~= settings_keyboard());
    rows
}

/// The settings menu, as a new message or in place of the message that the
/// user came back from.
pub fn settings_menu(render: Render) -> (out: Reply)
    ensures
        out@ == (ReplyView { render, text: SETTINGS_MENU@, keyboard: settings_keyboard() }),
{
    Reply { render, text: String::from_str(SETTINGS_MENU), keyboard: settings_buttons() }
}

/// What the start command found.
#[derive(Debug, Clone, Copy, PartialEq, Eq, Structural)]
pub enum Arrival {
    /// The user is registered already.
    Known,
    /// The user is new, and was stored.
    Registered,
    /// The user is new, and could not be stored.
    NotSaved,
    /// The message does not say who sent it.
    Anonymous,
}

/// The words that welcome a user. `detail` is the user's first name, or
/// the failure for a user who could not be stored.
pub open spec fn welcome_text(arrival: Arrival, detail: Seq<char>) -> Seq<char> {
    match arrival {
        Arrival::Known => "Welcome back, "@ + detail,
        Arrival::Registered => "Welcome, "@ + detail,
        Arrival::NotSaved => "Unable to save user: "@ + detail,
        Arrival::Anonymous => "Unable to register user"@,
    }
}

/// The words that welcome a user.
pub fn welcome(arrival: Arrival, detail: &str) -> (out: String)
    ensures
        out@ == welcome_text(arrival, detail@),
{
    match arrival {
        Arrival::Known => String::from_str("Welcome back, ").concat(detail),
        Arrival::Registered => String::from_str("Welcome, ").concat(detail),
        Arrival::NotSaved => String::from_str("Unable to save user: ").concat(detail),
        Arrival::Anonymous => String::from_str("Unable to register user"),
    }
}

/// A new user with a fresh salt. The salt has the size of the cipher's
/// nonce, so that the user's vault can always be made.
pub fn new_user(
    id: u64,
    chat: i64,
    first_name: String,
    last_name: Option<String>,
    username: Option<String>,
) -> (out: NewUser)
    ensures
        out.id == id as i64,
        out.chat == chat,
        out.first_name == first_name,
        out.last_name == last_name,
        out.username == username,
        vstd::utf8::encode_utf8(out.salt@).len() == nonce_bytes(),
{
    NewUser {
        id: #[verifier::truncate] (id as i64),
        chat,
        first_name,
        last_name,
        username,
        salt: random_salt(),
    }
}

/// The keyboard that manages the sharing of a server.
pub open spec fn sharing_keyboard() -> Seq<Seq<ButtonView>> {
    seq![
        seq![command_button(SHARE@)],
        seq![command_button(UN_SHARE@)],
        seq![command_button(RESET_SHARING@)],
        seq![command_button(TASK_HIDE@)],
    ]
}

/// The menu that manages the sharing of a server.
pub fn sharing_menu() -> (out: Reply)
    ensures
        out@ == (ReplyView {
            render: Render::Send,
            text: "Manage Server sharing:"@,
            keyboard: sharing_keyboard(),
        }),
{
    let mut rows = no_keyboard();
    push_row(&mut rows, Button::command(SHARE));
    push_row(&mut rows, Button::command(UN_SHARE));
    push_row(&mut rows, Button::command(RESET_SHARING));
    push_row(&mut rows, Button::command(TASK_HIDE));
    assert(keyboard_view(rows@) =~= sharing_keyboard());
    Reply { render: Render::Send, text: String::from_str("Manage Server sharing:"), keyboard: rows }
}

} // verus!
