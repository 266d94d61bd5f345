//! What the task interactions show: the progress bar, the buttons under a
//! task's message, and the texts of the replies.

use crate::errors::{BotError, BotErrorKind};
use crate::intake::Refusal;
use crate::magnet::{full_form, short_form, MagnetLink};
use crate::models::{
    status_text as stored_status, DownloadDirectory, NewDownloadTask, NewMagnet, TaskStatus,
};
use crate::payload::{
    decoded, download_payload, download_text, remove_payload, remove_text, status_payload,
    status_text, Callback, Malformed,
};
use crate::refs::Ref;
use crate::text::{push_signed_decimal, signed_decimal};
use crate::ui::{
    command_button, hide_keyboard, hide_message_button, keyboard_view, no_keyboard,
    prompt_keyboard, push_row, Button, ButtonView, Render, Reply, ReplyView,
    ADD_DIRECTORY, CANCEL, CANCEL_LABEL, REGISTER_SERVER, TASK_HIDE, TASK_REMOVE, TASK_STATUS,
};
use std::fmt::Write;
use vstd::prelude::*;

verus! {

pub const FILLED: &'static str = "❇️";

pub const EMPTY: &'static str = "◻️";

/// What the daemon tells of a torrent, as far as a task's message shows
/// it: the name, the progress in whole percent, and whether the download
/// is complete.
#[derive(Debug, Clone)]
pub struct Torrent {
    pub name: Option<String>,
    pub percent: Option<i32>,
    pub complete: bool,
}

/// `unit`, `count` times over.
pub open spec fn repeated(unit: Seq<char>, count: nat) -> Seq<char>
    decreases count,
{
    if count == 0 {
        Seq::<char>::empty()
    } else {
        repeated(unit, (count - 1) as nat) + unit
    }
}

/// How many tenths of the download are done: the percentage divided by
/// ten, rounded towards zero.
pub open spec fn tenths(percent: i32) -> int {
    if percent >= 0 {
        percent / 10
    } else {
        -((-percent) / 10)
    }
}

/// How many segments of the bar are filled.
pub open spec fn filled_segments(percent: i32) -> nat {
    if tenths(percent) > 0 {
        tenths(percent) as nat
    } else {
        0
    }
}

/// How many segments of the bar are empty: what is left of ten.
pub open spec fn empty_segments(percent: i32) -> nat {
    if tenths(percent) < 10 {
        (10 - tenths(percent)) as nat
    } else {
        0
    }
}

/// The progress bar with its label.
pub open spec fn bar(percent: i32) -> Seq<char> {
    repeated(FILLED@, filled_segments(percent)) + repeated(EMPTY@, empty_segments(percent)) + "["@
        + signed_decimal(percent as int) + "%]"@
}

/// The status lines of a torrent: the bar and the time of the reading, or
/// nothing where the daemon gave no progress.
pub open spec fn status_lines(percent: Option<i32>, now: Seq<char>) -> Seq<char> {
    match percent {
        Some(p) => bar(p) + "\nUpdated at: "@ + now,
        None => Seq::<char>::empty(),
    }
}

fn push_repeated(out: &mut String, unit: &str, count: u32)
    ensures
        final(out)@ == old(out)@ + repeated(unit@, count as nat),
{
    let mut i: u32 = 0;
    assert(old(out)@ + repeated(unit@, 0) =~= old(out)@);
    while i < count
        invariant
            i <= count,
            out@ == old(out)@ + repeated(unit@, i as nat),
        decreases count - i,
    {
        out.append(unit);
        assert(old(out)@ + repeated(unit@, i as nat) + unit@ =~= old(out)@ + repeated(
            unit@,
            (i + 1) as nat,
        ));
        i += 1;
    }
}

/// The status lines of a torrent at the time `now`.
pub fn status_at(torrent: &Torrent, now: &str) -> (out: String)
    ensures
        out@ == status_lines(torrent.percent, now@),
{
    let percent = match torrent.percent {
        Some(percent) => percent,
        None => { return String::new(); },
    };
    let tenths: i32 = if percent >= 0 {
        percent / 10
    } else if percent == i32::MIN {
        -214748364
    } else {
        -((-percent) / 10)
    };
    let filled: u32 = if tenths > 0 {
        tenths as u32
    } else {
        0
    };
    let empty: u32 = if tenths < 10 {
        (10 - tenths) as u32
    } else {
        0
    };
    let mut out = String::new();
    push_repeated(&mut out, FILLED, filled);
    push_repeated(&mut out, EMPTY, empty);
    out.append("[");
    push_signed_decimal(&mut out, percent as i64);
    out.append("%]");
    out.append("\nUpdated at: ");
    out.append(now);
    assert(out@ =~= status_lines(torrent.percent, now@));
    out
}

/// How the time of a reading is written: day, month, year, and the time
/// of day.
pub const TIME_FORMAT: &'static str = "%d.%m.%Y %H:%M:%S";

/// Writes `chrono::Utc::now()` in the given format, with
/// `DateTime::format`. There is no text where the format is refused.
/// Nothing is claimed of the text: it depends on the clock.
#[verifier::external_body]
fn format_now(format: &str) -> (out: Option<String>) {
    let mut text = String::new();
    match write!(text, "{}", chrono::Utc::now().format(format)) {
        Ok(()) => Some(text),
        Err(_) => None,
    }
}

/// The status lines of a torrent, read now. A time that cannot be written
/// is left empty.
pub fn torrent_status(torrent: &Torrent) -> (out: String)
    ensures
        exists|now: Seq<char>| out@ == status_lines(torrent.percent, now),
{
    let now = match format_now(TIME_FORMAT) {
        Some(now) => now,
        None => String::new(),
    };
    status_at(torrent, now.as_str())
}

/// The buttons under a task's message: for a complete download one that
/// removes the torrent and one that hides the message, else one that
/// refreshes the status.
pub open spec fn task_keyboard(task: Ref, complete: bool) -> Seq<Seq<ButtonView>> {
    if complete {
        seq![
            seq![ButtonView { label: TASK_REMOVE@, payload: remove_text(task) }],
            seq![command_button(TASK_HIDE@)],
        ]
    } else {
        seq![seq![ButtonView { label: TASK_STATUS@, payload: status_text(task) }]]
    }
}

/// The one button that refreshes the status of a task.
pub fn refresh_button(task_id: &Ref) -> (out: Vec<Vec<Button>>)
    ensures
        keyboard_view(out@) == task_keyboard(*task_id, false),
{
    let mut rows = no_keyboard();
    let payload = status_payload(task_id);
    push_row(&mut rows, Button::callback(TASK_STATUS, payload.as_str()));
    assert(keyboard_view(rows@) =~= task_keyboard(*task_id, false));
    rows
}

/// The buttons under a task's message.
pub fn update_task_status_button(task_id: &Ref, torrent: &Torrent) -> (out: Vec<Vec<Button>>)
    ensures
        keyboard_view(out@) == task_keyboard(*task_id, torrent.complete),
{
    if torrent.complete {
        let mut rows = no_keyboard();
        let payload = remove_payload(task_id);
        push_row(&mut rows, Button::callback(TASK_REMOVE, payload.as_str()));
        push_row(&mut rows, Button::command(TASK_HIDE));
        assert(keyboard_view(rows@) =~= task_keyboard(*task_id, true));
        rows
    } else {
        refresh_button(task_id)
    }
}

/// The operation that a reply speaks about.
#[derive(Debug, Clone, Copy, PartialEq, Eq, Structural)]
pub enum Operation {
    /// Starting a download.
    Submit,
    /// Reading the progress of a task.
    Poll,
    /// Removing the torrent of a task.
    Remove,
}

/// The text that owns up to a malformed payload.
pub open spec fn messed_up_text(operation: Operation) -> Seq<char> {
    match operation {
        Operation::Submit => "We messed up. Can't start downloading :("@,
        Operation::Poll => "We messed up. Can't check the status :("@,
        Operation::Remove => "We messed up. Can't remove the task :("@,
    }
}

/// The rows that offer the owner's directories for a registered magnet:
/// one button for each directory, labelled with its alias and carrying the
/// magnet's reference and the directory's ordinal.
pub open spec fn directory_rows(magnet: Ref, dirs: Seq<DownloadDirectory>) -> Seq<Seq<ButtonView>> {
    Seq::new(
        dirs.len(),
        |i: int|
            seq![
                ButtonView {
                    label: dirs[i].alias@,
                    payload: download_text(magnet, dirs[i].ordinal),
                },
            ],
    )
}

/// The keyboard that offers the directories, with a way out below them.
pub open spec fn offer_keyboard(magnet: Ref, dirs: Seq<DownloadDirectory>) -> Seq<Seq<ButtonView>> {
    directory_rows(magnet, dirs).push(seq![ButtonView { label: CANCEL_LABEL@, payload: CANCEL@ }])
}

/// A new message without buttons.
pub fn plain_reply(text: &str) -> (out: Reply)
    ensures
        out@ == (ReplyView {
            render: Render::Send,
            text: text@,
            keyboard: Seq::<Seq<ButtonView>>::empty(),
        }),
{
    Reply { render: Render::Send, text: String::from_str(text), keyboard: no_keyboard() }
}

/// The reply to a malformed payload.
pub fn messed_up_reply(operation: Operation) -> (out: Reply)
    ensures
        out@ == (ReplyView {
            render: Render::Send,
            text: messed_up_text(operation),
            keyboard: Seq::<Seq<ButtonView>>::empty(),
        }),
{
    match operation {
        Operation::Submit => plain_reply("We messed up. Can't start downloading :("),
        Operation::Poll => plain_reply("We messed up. Can't check the status :("),
        Operation::Remove => plain_reply("We messed up. Can't remove the task :("),
    }
}

/// The reply to an owner without a daemon: a prompt with the one button
/// that registers one.
pub fn no_server_reply() -> (out: Reply)
    ensures
        out@ == (ReplyView {
            render: Render::Send,
            text: "No Servers found! Please register one first!"@,
            keyboard: seq![seq![command_button(REGISTER_SERVER@)]],
        }),
{
    Reply {
        render: Render::Send,
        text: String::from_str("No Servers found! Please register one first!"),
        keyboard: prompt_keyboard(REGISTER_SERVER),
    }
}

/// The reply to an owner without a directory: a prompt with the one button
/// that adds one.
pub fn no_directory_reply() -> (out: Reply)
    ensures
        out@ == (ReplyView {
            render: Render::Send,
            text: "No Directories found! Please add one first!"@,
            keyboard: seq![seq![command_button(ADD_DIRECTORY@)]],
        }),
{
    Reply {
        render: Render::Send,
        text: String::from_str("No Directories found! Please add one first!"),
        keyboard: prompt_keyboard(ADD_DIRECTORY),
    }
}

/// The reply to a text in which no magnet could be read.
pub fn unreadable_reply() -> (out: Reply)
    ensures
        out@ == (ReplyView {
            render: Render::Send,
            text: "Sorry. Couldn't handle this magnet. Try later :("@,
            keyboard: Seq::<Seq<ButtonView>>::empty(),
        }),
{
    plain_reply("Sorry. Couldn't handle this magnet. Try later :(")
}

/// The text of the logic error that a refused intake fails with: for a
/// text without a magnet the complaint with the text, and else the words
/// of the prompt.
pub open spec fn refusal_text(refusal: Refusal, text: Seq<char>) -> Seq<char> {
    match refusal {
        Refusal::Unreadable => "Couldn't parse magnet from text: "@ + text,
        Refusal::NoServer => "No Servers found! Please register one first!"@,
        Refusal::NoDirectory => "No Directories found! Please add one first!"@,
    }
}

/// The logic error that a refused intake fails with.
pub fn refusal_error(refusal: Refusal, text: &str) -> (out: BotError)
    ensures
        out.0 matches BotErrorKind::BotLogic(message) && message@ == refusal_text(refusal, text@),
{
    match refusal {
        Refusal::Unreadable => unreadable_error(text),
        Refusal::NoServer => BotError::logic(
            String::from_str("No Servers found! Please register one first!"),
        ),
        Refusal::NoDirectory => BotError::logic(
            String::from_str("No Directories found! Please add one first!"),
        ),
    }
}

/// The reply that tells a refusal: an excuse for a text without a magnet,
/// and else the prompt with the one button that registers what is missing.
pub fn refusal_reply(refusal: Refusal) -> (out: Reply)
    ensures
        out@.render == Render::Send,
        out@.text == match refusal {
            Refusal::Unreadable => "Sorry. Couldn't handle this magnet. Try later :("@,
            Refusal::NoServer => "No Servers found! Please register one first!"@,
            Refusal::NoDirectory => "No Directories found! Please add one first!"@,
        },
        out@.keyboard == match refusal {
            Refusal::Unreadable => Seq::<Seq<ButtonView>>::empty(),
            Refusal::NoServer => seq![seq![command_button(REGISTER_SERVER@)]],
            Refusal::NoDirectory => seq![seq![command_button(ADD_DIRECTORY@)]],
        },
{
    match refusal {
        Refusal::Unreadable => unreadable_reply(),
        Refusal::NoServer => no_server_reply(),
        Refusal::NoDirectory => no_directory_reply(),
    }
}

/// The failure that a text without a readable magnet ends in.
pub fn unreadable_error(text: &str) -> (out: BotError)
    ensures
        out.0 matches BotErrorKind::BotLogic(message) && message@
            == "Couldn't parse magnet from text: "@ + text@,
{
    BotError::logic(String::from_str("Couldn't parse magnet from text: ").concat(text))
}

/// The offer that follows a registered magnet: its name, and one button
/// for each of the owner's directories. Every such button reads back as
/// the request to download this magnet into that directory, and is at most
/// 57 bytes long.
pub fn offer_reply(name: &str, magnet_id: &Ref, dirs: &Vec<DownloadDirectory>) -> (out: Reply)
    ensures
        out@ == (ReplyView {
            render: Render::Send,
            text: name@ + "\nChoose directory to download"@,
            keyboard: offer_keyboard(*magnet_id, dirs@),
        }),
        forall|i: int|
            0 <= i < dirs.len() ==> decoded(#[trigger] out@.keyboard[i][0].payload) == Ok::<
                Callback,
                Malformed,
            >(Callback::Download { magnet: *magnet_id, ordinal: dirs[i].ordinal })
                && out@.keyboard[i][0].payload.len() <= 57 && vstd::utf8::is_ascii_chars(
                out@.keyboard[i][0].payload,
            ),
{
    let mut rows = no_keyboard();
    let mut i: usize = 0;
    while i < dirs.len()
        invariant
            i <= dirs.len(),
            keyboard_view(rows@) == directory_rows(*magnet_id, dirs@.subrange(0, i as int)),
            forall|j: int|
                0 <= j < i ==> decoded(#[trigger] keyboard_view(rows@)[j][0].payload) == Ok::<
                    Callback,
                    Malformed,
                >(Callback::Download { magnet: *magnet_id, ordinal: dirs[j].ordinal })
                    && keyboard_view(rows@)[j][0].payload.len() <= 57
                    && vstd::utf8::is_ascii_chars(keyboard_view(rows@)[j][0].payload),
        decreases dirs.len() - i,
    {
        let payload = download_payload(magnet_id, dirs[i].ordinal);
        let ghost before = keyboard_view(rows@);
        push_row(&mut rows, Button::callback(dirs[i].alias.as_str(), payload.as_str()));
        assert(keyboard_view(rows@) =~= directory_rows(*magnet_id, dirs@.subrange(0, i + 1)));
        assert forall|j: int| 0 <= j < i + 1 implies decoded(
            #[trigger] keyboard_view(rows@)[j][0].payload,
        ) == Ok::<Callback, Malformed>(
            Callback::Download { magnet: *magnet_id, ordinal: dirs[j].ordinal },
        ) && keyboard_view(rows@)[j][0].payload.len() <= 57 && vstd::utf8::is_ascii_chars(
            keyboard_view(rows@)[j][0].payload,
        ) by {
            if j < i {
                assert(keyboard_view(rows@)[j] == before[j]);
            }
        }
        i += 1;
    }
    assert(dirs@.subrange(0, dirs.len() as int) =~= dirs@);
    let ghost offered = keyboard_view(rows@);
    push_row(&mut rows, Button::callback(CANCEL_LABEL, CANCEL));
    assert forall|j: int| 0 <= j < dirs.len() implies keyboard_view(rows@)[j] == offered[j] by {}
    Reply {
        render: Render::Send,
        text: String::from_str(name).concat("\nChoose directory to download"),
        keyboard: rows,
    }
}

/// The reply to an accepted torrent: what is downloaded and where to, with
/// the one button that refreshes the status of the new task.
pub fn downloading_reply(name: &str, alias: &str, task_id: &Ref) -> (out: Reply)
    ensures
        out@ == (ReplyView {
            render: Render::Send,
            text: "Downloading "@ + name@ + "\nto "@ + alias@,
            keyboard: task_keyboard(*task_id, false),
        }),
        out@.keyboard == seq![
            seq![ButtonView { label: TASK_STATUS@, payload: status_text(*task_id) }],
        ],
{
    let mut text = String::from_str("Downloading ");
    text.append(name);
    text.append("\nto ");
    text.append(alias);
    Reply { render: Render::Send, text, keyboard: refresh_button(task_id) }
}

/// The reply to a torrent that the daemon already has.
pub fn duplicate_reply() -> (out: Reply)
    ensures
        out@ == (ReplyView {
            render: Render::Send,
            text: "Such task already exists"@,
            keyboard: Seq::<Seq<ButtonView>>::empty(),
        }),
{
    plain_reply("Such task already exists")
}

/// The reply to a torrent that could not be handed to the daemon.
pub fn unable_to_add_reply() -> (out: Reply)
    ensures
        out@ == (ReplyView {
            render: Render::Send,
            text: "Unable to add task"@,
            keyboard: Seq::<Seq<ButtonView>>::empty(),
        }),
{
    plain_reply("Unable to add task")
}

/// The name under which a torrent is shown: its own, or its hash where the
/// daemon gave none.
pub open spec fn shown_name(torrent: Torrent, hash: Seq<char>) -> Seq<char> {
    match torrent.name {
        Some(name) => name@,
        None => hash,
    }
}

/// The progress of a torrent, written in place of the task's message. At
/// full progress the buttons change from refreshing to removing and
/// hiding.
pub fn progress_reply(task_id: &Ref, torrent: &Torrent, hash: &str, now: &str) -> (out: Reply)
    ensures
        out@ == (ReplyView {
            render: Render::Edit,
            text: "Downloading "@ + shown_name(*torrent, hash@) + "\n"@ + status_lines(
                torrent.percent,
                now@,
            ),
            keyboard: task_keyboard(*task_id, torrent.complete),
        }),
{
    let mut text = String::from_str("Downloading ");
    match &torrent.name {
        Some(name) => text.append(name.as_str()),
        None => text.append(hash),
    }
    text.append("\n");
    let status = status_at(torrent, now);
    text.append(status.as_str());
    Reply { render: Render::Edit, text, keyboard: update_task_status_button(task_id, torrent) }
}

/// The note that a torrent is gone from the daemon, written in place of
/// the task's message, with a button that hides it.
pub fn removed_reply(name: &str) -> (out: Reply)
    ensures
        out@ == (ReplyView {
            render: Render::Edit,
            text: "Torrent\n"@ + name@ + "\nwas removed"@,
            keyboard: hide_keyboard(),
        }),
{
    let mut text = String::from_str("Torrent\n");
    text.append(name);
    text.append("\nwas removed");
    Reply { render: Render::Edit, text, keyboard: hide_message_button() }
}

/// The note that the daemon could not be asked, written in place of the
/// task's message, without any button.
pub fn not_on_server_reply(hash: &str) -> (out: Reply)
    ensures
        out@ == (ReplyView {
            render: Render::Edit,
            text: hash@ + "\nTorrent was not found on the server!"@,
            keyboard: Seq::<Seq<ButtonView>>::empty(),
        }),
{
    let text = String::from_str(hash).concat("\nTorrent was not found on the server!");
    Reply { render: Render::Edit, text, keyboard: no_keyboard() }
}

/// The failure that a refused removal ends in.
pub fn removal_error(name: &str) -> (out: BotError)
    ensures
        out.0 matches BotErrorKind::BotLogic(message) && message@
            == "Failed to remove the torrent: "@ + name@,
{
    BotError::logic(String::from_str("Failed to remove the torrent: ").concat(name))
}

/// The failure that a missing task ends in.
pub fn no_task_error() -> (out: BotError)
    ensures
        out.0 matches BotErrorKind::BotLogic(message) && message@ == "No task found!"@,
{
    BotError::logic(String::from_str("No task found!"))
}

/// What the daemon is asked to add: the magnet and the directory to
/// download into.
#[derive(Debug, Clone)]
pub struct AddRequest {
    pub filename: String,
    pub download_dir: String,
}

/// The request that hands a magnet to the daemon: the short form of the
/// link, which leaves the name out, and the path of the chosen directory.
pub fn add_request(link: MagnetLink, dir: &DownloadDirectory) -> (out: AddRequest)
    ensures
        out.filename@ == short_form(link@),
        out.download_dir@ == dir.path@,
{
    AddRequest { filename: link.short_link(), download_dir: dir.path.clone() }
}

/// The record that registers a magnet for its owner: the full form of the
/// link, which keeps the name, under a fresh reference.
pub fn registration(user_id: i64, link: MagnetLink) -> (out: NewMagnet)
    ensures
        out.user_id == user_id,
        out.url@ == full_form(link@),
{
    NewMagnet::new(user_id, link.full_link())
}

/// The record of a task that the daemon has just accepted: it is marked as
/// created, without a description, under a fresh reference.
pub fn accepted_task(user_id: i64, server_id: Ref, magnet_id: Ref) -> (out: NewDownloadTask)
    ensures
        out.user_id == user_id,
        out.server_id == server_id,
        out.magnet_id == magnet_id,
        out.status@ == stored_status(TaskStatus::Created),
        out.description is None,
{
    NewDownloadTask::new(user_id, server_id, magnet_id, TaskStatus::Created.to_string(), None)
}

} // verus!
