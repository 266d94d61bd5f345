//! The list of a user's friends and the buttons that manage them.

use crate::payload::{MANAGE_FRIEND, UNFRIEND};
use crate::text::{push_signed_decimal, signed_decimal};
use crate::ui::{
    command_button, keyboard_view, no_keyboard, push_row, row_view, Button, ButtonView, TASK_HIDE,
    UNFRIEND_LABEL,
};
use vstd::prelude::*;

verus! {

/// A friend, as the list shows one.
#[derive(Debug, Clone)]
pub struct FriendEntry {
    pub id: i64,
    pub username: String,
}

/// The payload that asks to manage a friend.
pub open spec fn manage_text(id: i64) -> Seq<char> {
    MANAGE_FRIEND@ + signed_decimal(id as int)
}

/// The payload that asks to unfriend a friend.
pub open spec fn unfriend_text(id: i64) -> Seq<char> {
    UNFRIEND@ + signed_decimal(id as int)
}

/// The payload that confirms another payload.
pub open spec fn confirmed(data: Seq<char>) -> Seq<char> {
    "confirm_"@ + data
}

/// Writes the payload that asks to manage a friend.
pub fn manage_payload(id: i64) -> (out: String)
    ensures
        out@ == manage_text(id),
{
    let mut out = String::from_str(MANAGE_FRIEND);
    push_signed_decimal(&mut out, id);
    out
}

/// Writes the payload that asks to unfriend a friend.
pub fn unfriend_payload(id: i64) -> (out: String)
    ensures
        out@ == unfriend_text(id),
{
    let mut out = String::from_str(UNFRIEND);
    push_signed_decimal(&mut out, id);
    out
}

/// Writes the payload that confirms another payload.
pub fn confirm_payload(data: &str) -> (out: String)
    ensures
        out@ == confirmed(data@),
{
    String::from_str("confirm_").concat(data)
}

/// The button of one friend.
pub open spec fn friend_button(friend: FriendEntry) -> ButtonView {
    ButtonView { label: friend.username@, payload: manage_text(friend.id) }
}

/// The keyboard of a list of friends: two friends to a row, in order, with
/// a last row of one where their number is odd.
pub open spec fn friends_keyboard(friends: Seq<FriendEntry>) -> Seq<Seq<ButtonView>> {
    Seq::new(
        ((friends.len() + 1) / 2) as nat,
        |r: int|
            if 2 * r + 1 < friends.len() {
                seq![friend_button(friends[2 * r]), friend_button(friends[2 * r + 1])]
            } else {
                seq![friend_button(friends[2 * r])]
            },
    )
}

fn button_of(friend: &FriendEntry) -> (out: Button)
    ensures
        out@ == friend_button(*friend),
{
    let payload = manage_payload(friend.id);
    Button::callback(friend.username.as_str(), payload.as_str())
}

/// The keyboard of a list of friends.
pub fn friends_buttons(friends: &Vec<FriendEntry>) -> (out: Vec<Vec<Button>>)
    ensures
        keyboard_view(out@) == friends_keyboard(friends@),
{
    let mut rows: Vec<Vec<Button>> = Vec::new();
    let count = friends.len() / 2 + friends.len() % 2;
    let mut r: usize = 0;
    while r < count
        invariant
            r <= count,
            count == (friends.len() + 1) / 2,
            rows@.len() == r,
            forall|k: int|
                0 <= k < r ==> row_view(#[trigger] rows@[k]@) == friends_keyboard(friends@)[k],
        decreases count - r,
    {
        let first = 2 * r;
        let mut row: Vec<Button> = Vec::new();
        row.push(button_of(&friends[first]));
        if first + 1 < friends.len() {
            row.push(button_of(&friends[first + 1]));
        }
        assert(row_view(row@) =~= friends_keyboard(friends@)[r as int]);
        rows.push(row);
        r += 1;
    }
    assert(keyboard_view(rows@) =~= friends_keyboard(friends@));
    rows
}

/// The keyboard under a friend: one button that asks to end the
/// friendship, and one that hides the message.
pub open spec fn manage_keyboard(id: i64) -> Seq<Seq<ButtonView>> {
    seq![
        seq![ButtonView { label: UNFRIEND_LABEL@, payload: unfriend_text(id) }],
        seq![command_button(TASK_HIDE@)],
    ]
}

/// The keyboard under a friend.
pub fn manage_buttons(id: i64) -> (out: Vec<Vec<Button>>)
    ensures
        keyboard_view(out@) == manage_keyboard(id),
{
    let mut rows = no_keyboard();
    let payload = unfriend_payload(id);
    push_row(&mut rows, Button::callback(UNFRIEND_LABEL, payload.as_str()));
    push_row(&mut rows, Button::command(TASK_HIDE));
    assert(keyboard_view(rows@) =~= manage_keyboard(id));
    rows
}

/// The answers to the question whether a friendship is to end: one that
/// confirms the payload that asked, and two that do nothing. The caller
/// shows them in a random order.
pub fn confirm_buttons(data: &str) -> (out: Vec<Vec<Button>>)
    ensures
        keyboard_view(out@) == seq![
            seq![ButtonView { label: "Yes"@, payload: confirmed(data@) }],
            seq![ButtonView { label: "No"@, payload: "-"@ }],
            seq![ButtonView { label: "Also No"@, payload: "-"@ }],
        ],
{
    let mut rows = no_keyboard();
    let payload = confirm_payload(data);
    push_row(&mut rows, Button::callback("Yes", payload.as_str()));
    push_row(&mut rows, Button::callback("No", "-"));
    push_row(&mut rows, Button::callback("Also No", "-"));
    assert(keyboard_view(rows@) =~= seq![
        seq![ButtonView { label: "Yes"@, payload: confirmed(data@) }],
        seq![ButtonView { label: "No"@, payload: "-"@ }],
        seq![ButtonView { label: "Also No"@, payload: "-"@ }],
    ]);
    rows
}

} // verus!
