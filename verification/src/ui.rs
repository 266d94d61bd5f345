//! The vocabulary of the chat surface: button labels, keyboards and replies.

use vstd::prelude::*;

verus! {

pub const TASK_STATUS: &'static str = "Update task status 👀";

pub const TASK_REMOVE: &'static str = "Delete torrent ❌";

pub const TASK_HIDE: &'static str = "Hide 🙈";

pub const SERVER_STATS: &'static str = "Server stats 👀";

pub const REGISTER_SERVER: &'static str = "Register server 🧰+";

pub const RESET_SERVERS: &'static str = "Reset Servers 🧰❌";

pub const LIST_DIRECTORIES: &'static str = "List Directories 📂";

pub const ADD_DIRECTORY: &'static str = "Add Directory 📂+";

pub const RESET_DIRECTORIES: &'static str = "Reset Directories 📂❌";

pub const BACK_TO_SETTINGS: &'static str = "Back to settings ⬅️";

pub const SETTINGS_MENU: &'static str = "Settings ⚙️";

pub const CANCEL_LABEL: &'static str = "-- Cancel --";

pub const CANCEL: &'static str = "cancel";

pub const HIDDEN: &'static str = "-- Hidden --";

pub const SHARE: &'static str = "Share a server";

pub const UN_SHARE: &'static str = "Un-share a server";

pub const RESET_SHARING: &'static str = "Reset Servers Sharing❌";

pub const UNFRIEND_LABEL: &'static str = "Unfriend";

/// One button: what it shows and what it sends back when pressed.
#[derive(Debug, Clone, PartialEq, Eq)]
pub struct Button {
    pub label: String,
    pub payload: String,
}

/// A button, as plain texts.
pub struct ButtonView {
    pub label: Seq<char>,
    pub payload: Seq<char>,
}

impl View for Button {
    type V = ButtonView;

    open spec fn view(&self) -> ButtonView {
        ButtonView { label: self.label@, payload: self.payload@ }
    }
}

impl Button {
    /// A button with the given label and payload.
    pub fn callback(label: &str, payload: &str) -> (out: Button)
        ensures
            out@ == (ButtonView { label: label@, payload: payload@ }),
    {
        Button { label: String::from_str(label), payload: String::from_str(payload) }
    }

    /// A button that sends its own label back.
    pub fn command(label: &str) -> (out: Button)
        ensures
            out@ == command_button(label@),
    {
        Button::callback(label, label)
    }
}

/// The button that sends its own label back.
pub open spec fn command_button(label: Seq<char>) -> ButtonView {
    ButtonView { label, payload: label }
}

/// The buttons of one row, as plain texts.
pub open spec fn row_view(row: Seq<Button>) -> Seq<ButtonView> {
    Seq::new(row.len(), |j: int| row[j]@)
}

/// The rows of a keyboard, as plain texts.
pub open spec fn keyboard_view(rows: Seq<Vec<Button>>) -> Seq<Seq<ButtonView>> {
    Seq::new(rows.len(), |i: int| row_view(rows[i]@))
}

/// A row of one button.
pub fn row_of(button: Button) -> (out: Vec<Button>)
    ensures
        row_view(out@) == seq![button@],
{
    let mut row: Vec<Button> = Vec::new();
    row.push(button);
    assert(row_view(row@) =~= seq![button@]);
    row
}

/// Adds a row of one button below the rows of a keyboard.
pub fn push_row(rows: &mut Vec<Vec<Button>>, button: Button)
    ensures
        keyboard_view(final(rows)@) == keyboard_view(old(rows)@).push(seq![button@]),
{
    let row = row_of(button);
    rows.push(row);
    assert(keyboard_view(final(rows)@) =~= keyboard_view(old(rows)@).push(seq![button@]));
}

/// A keyboard without rows.
pub fn no_keyboard() -> (out: Vec<Vec<Button>>)
    ensures
        keyboard_view(out@) == Seq::<Seq<ButtonView>>::empty(),
{
    let rows: Vec<Vec<Button>> = Vec::new();
    assert(keyboard_view(rows@) =~= Seq::<Seq<ButtonView>>::empty());
    rows
}

/// How a reply reaches the chat: as a new message, or in place of the
/// message that the interaction came from.
#[derive(Debug, Clone, Copy, PartialEq, Eq, Structural)]
pub enum Render {
    Send,
    Edit,
}

/// A reply to the chat: the text and the buttons below it.
#[derive(Debug, Clone, PartialEq, Eq)]
pub struct Reply {
    pub render: Render,
    pub text: String,
    pub keyboard: Vec<Vec<Button>>,
}

/// A reply, as plain texts.
pub struct ReplyView {
    pub render: Render,
    pub text: Seq<char>,
    pub keyboard: Seq<Seq<ButtonView>>,
}

impl View for Reply {
    type V = ReplyView;

    open spec fn view(&self) -> ReplyView {
        ReplyView { render: self.render, text: self.text@, keyboard: keyboard_view(self.keyboard@) }
    }
}

/// The keyboard of one button that hides the message.
pub open spec fn hide_keyboard() -> Seq<Seq<ButtonView>> {
    seq![seq![command_button(TASK_HIDE@)]]
}

/// The keyboard of one button that hides the message.
pub fn hide_message_button() -> (out: Vec<Vec<Button>>)
    ensures
        keyboard_view(out@) == hide_keyboard(),
{
    let mut rows = no_keyboard();
    push_row(&mut rows, Button::command(TASK_HIDE));
    rows
}

/// The keyboard of one button that sends `label` back.
pub fn prompt_keyboard(label: &str) -> (out: Vec<Vec<Button>>)
    ensures
        keyboard_view(out@) == seq![seq![command_button(label@)]],
{
    let mut rows = no_keyboard();
    push_row(&mut rows, Button::command(label));
    rows
}

} // verus!
