//! The wire format of button payloads: a prefix that names the operation,
//! then its arguments, separated by colons.

use crate::refs::{lemma_uuid_text_shape, uuid_parsed, uuid_text, Ref};
use crate::text::{
    chars_of, free_of, has_prefix, is_digit, lemma_signed_decimal_read_back,
    lemma_signed_decimal_shape, lemma_split_joined,
    lemma_split_unbroken, number_within, parse_i32, parse_i64, push_signed_decimal, signed_decimal,
    split_chars, split_on, starts_with, string_of, views,
};
use crate::ui::{
    ADD_DIRECTORY, BACK_TO_SETTINGS, LIST_DIRECTORIES, REGISTER_SERVER, RESET_DIRECTORIES,
    RESET_SERVERS, SERVER_STATS,
};
use vstd::prelude::*;

verus! {

pub const DOWNLOAD: &'static str = "download:";

pub const STATUS: &'static str = "t_status:";

pub const REMOVE: &'static str = "t_remove:";

pub const MANAGE_FRIEND: &'static str = "manage_friend:";

pub const UNFRIEND: &'static str = "unfriend:";

pub const CONFIRM_UNFRIEND: &'static str = "confirm_unfriend:";

/// What a pressed button asks for.
#[derive(Debug, Clone, Copy, PartialEq, Eq, Structural)]
pub enum Callback {
    /// Start downloading a registered magnet into a directory.
    Download { magnet: Ref, ordinal: i32 },
    /// Show the progress of a task.
    TaskStatus { task: Ref },
    /// Remove the torrent of a task from the daemon.
    TaskRemove { task: Ref },
    ManageFriend { friend: i64 },
    Unfriend { friend: i64 },
    ConfirmUnfriend { friend: i64 },
    ListDirectories,
    AddDirectory,
    ResetDirectories,
    ServerStats,
    ResetServers,
    RegisterServer,
    BackToSettings,
    /// A payload that asks for nothing known.
    Unknown,
}

/// The operation whose payload was malformed.
#[derive(Debug, Clone, Copy, PartialEq, Eq, Structural)]
pub enum Malformed {
    Download,
    TaskStatus,
    TaskRemove,
    Friend,
}

/// The reference in a payload of a prefix and one reference.
pub open spec fn one_reference(data: Seq<char>) -> Option<Ref> {
    let parts = split_on(data, ':');
    if parts.len() == 2 && uuid_parsed(parts[1]) is Some {
        Some(Ref { value: uuid_parsed(parts[1])->0 })
    } else {
        None
    }
}

/// The user in a payload that ends in a user's number.
pub open spec fn last_number(data: Seq<char>) -> Option<i64> {
    let parts = split_on(data, ':');
    match number_within(parts.last(), i64::MIN as int, i64::MAX as int) {
        Some(n) => Some(n as i64),
        None => None,
    }
}

/// What a payload asks for. The prefixes are tried in the order given
/// here, and the fixed commands after them. A payload with a known prefix
/// is malformed unless it has as many arguments as the operation takes and
/// each of them can be read.
pub open spec fn decoded(data: Seq<char>) -> Result<Callback, Malformed> {
    if has_prefix(data, DOWNLOAD@) {
        let parts = split_on(data, ':');
        if parts.len() == 3 && uuid_parsed(parts[1]) is Some && number_within(
            parts[2],
            i32::MIN as int,
            i32::MAX as int,
        ) is Some {
            Ok(
                Callback::Download {
                    magnet: Ref { value: uuid_parsed(parts[1])->0 },
                    ordinal: number_within(parts[2], i32::MIN as int, i32::MAX as int)->0 as i32,
                },
            )
        } else {
            Err(Malformed::Download)
        }
    } else if has_prefix(data, STATUS@) {
        match one_reference(data) {
            Some(task) => Ok(Callback::TaskStatus { task }),
            None => Err(Malformed::TaskStatus),
        }
    } else if has_prefix(data, REMOVE@) {
        match one_reference(data) {
            Some(task) => Ok(Callback::TaskRemove { task }),
            None => Err(Malformed::TaskRemove),
        }
    } else if has_prefix(data, MANAGE_FRIEND@) {
        match last_number(data) {
            Some(friend) => Ok(Callback::ManageFriend { friend }),
            None => Err(Malformed::Friend),
        }
    } else if has_prefix(data, UNFRIEND@) {
        match last_number(data) {
            Some(friend) => Ok(Callback::Unfriend { friend }),
            None => Err(Malformed::Friend),
        }
    } else if has_prefix(data, CONFIRM_UNFRIEND@) {
        match last_number(data) {
            Some(friend) => Ok(Callback::ConfirmUnfriend { friend }),
            None => Err(Malformed::Friend),
        }
    } else if data == LIST_DIRECTORIES@ {
        Ok(Callback::ListDirectories)
    } else if data == ADD_DIRECTORY@ {
        Ok(Callback::AddDirectory)
    } else if data == RESET_DIRECTORIES@ {
        Ok(Callback::ResetDirectories)
    } else if data == SERVER_STATS@ {
        Ok(Callback::ServerStats)
    } else if data == RESET_SERVERS@ {
        Ok(Callback::ResetServers)
    } else if data == REGISTER_SERVER@ {
        Ok(Callback::RegisterServer)
    } else if data == BACK_TO_SETTINGS@ {
        Ok(Callback::BackToSettings)
    } else {
        Ok(Callback::Unknown)
    }
}

/// Whether a payload's message stays when the payload has been handled:
/// those that update their own message in place are not deleted or hidden.
pub open spec fn kept_in_place(data: Seq<char>) -> bool {
    has_prefix(data, STATUS@) || has_prefix(data, REMOVE@) || has_prefix(data, BACK_TO_SETTINGS@)
}

fn begins(data: &Vec<char>, prefix: &str) -> (out: bool)
    ensures
        out == has_prefix(data@, prefix@),
{
    let wanted = chars_of(prefix);
    starts_with(data, &wanted)
}

fn is_text(data: &Vec<char>, text: &str) -> (out: bool)
    ensures
        out == (data@ == text@),
{
    let wanted = chars_of(text);
    if wanted.len() != data.len() {
        return false;
    }
    let same = starts_with(data, &wanted);
    assert(data@.subrange(0, data@.len() as int) =~= data@);
    same
}

fn read_one_reference(data: &Vec<char>) -> (out: Option<Ref>)
    ensures
        out == one_reference(data@),
{
    let parts = split_chars(data, ':', ':');
    assert(views(parts@).len() == parts@.len());
    if parts.len() != 2 {
        return None;
    }
    assert(views(parts@)[1] == parts@[1]@);
    let text = string_of(&parts[1]);
    Ref::parse(text.as_str())
}

fn read_last_number(data: &Vec<char>) -> (out: Option<i64>)
    ensures
        out == last_number(data@),
{
    let parts = split_chars(data, ':', ':');
    assert(views(parts@).len() == parts@.len());
    assert(views(parts@).last() == parts@[parts@.len() - 1]@);
    parse_i64(&parts[parts.len() - 1])
}

/// Whether a payload's message stays when the payload has been handled.
pub fn keeps_message(data: &str) -> (out: bool)
    ensures
        out == kept_in_place(data@),
{
    let chars = chars_of(data);
    begins(&chars, STATUS) || begins(&chars, REMOVE) || begins(&chars, BACK_TO_SETTINGS)
}

/// Reads what a payload asks for.
pub fn decode(data: &str) -> (out: Result<Callback, Malformed>)
    ensures
        out == decoded(data@),
{
    let chars = chars_of(data);
    if begins(&chars, DOWNLOAD) {
        let parts = split_chars(&chars, ':', ':');
        assert(views(parts@).len() == parts@.len());
        if parts.len() != 3 {
            return Err(Malformed::Download);
        }
        assert(views(parts@)[1] == parts@[1]@);
        assert(views(parts@)[2] == parts@[2]@);
        let text = string_of(&parts[1]);
        let magnet = match Ref::parse(text.as_str()) {
            Some(magnet) => magnet,
            None => { return Err(Malformed::Download); },
        };
        match parse_i32(&parts[2]) {
            Some(ordinal) => Ok(Callback::Download { magnet, ordinal }),
            None => Err(Malformed::Download),
        }
    } else if begins(&chars, STATUS) {
        match read_one_reference(&chars) {
            Some(task) => Ok(Callback::TaskStatus { task }),
            None => Err(Malformed::TaskStatus),
        }
    } else if begins(&chars, REMOVE) {
        match read_one_reference(&chars) {
            Some(task) => Ok(Callback::TaskRemove { task }),
            None => Err(Malformed::TaskRemove),
        }
    } else if begins(&chars, MANAGE_FRIEND) {
        match read_last_number(&chars) {
            Some(friend) => Ok(Callback::ManageFriend { friend }),
            None => Err(Malformed::Friend),
        }
    } else if begins(&chars, UNFRIEND) {
        match read_last_number(&chars) {
            Some(friend) => Ok(Callback::Unfriend { friend }),
            None => Err(Malformed::Friend),
        }
    } else if begins(&chars, CONFIRM_UNFRIEND) {
        match read_last_number(&chars) {
            Some(friend) => Ok(Callback::ConfirmUnfriend { friend }),
            None => Err(Malformed::Friend),
        }
    } else if is_text(&chars, LIST_DIRECTORIES) {
        Ok(Callback::ListDirectories)
    } else if is_text(&chars, ADD_DIRECTORY) {
        Ok(Callback::AddDirectory)
    } else if is_text(&chars, RESET_DIRECTORIES) {
        Ok(Callback::ResetDirectories)
    } else if is_text(&chars, SERVER_STATS) {
        Ok(Callback::ServerStats)
    } else if is_text(&chars, RESET_SERVERS) {
        Ok(Callback::ResetServers)
    } else if is_text(&chars, REGISTER_SERVER) {
        Ok(Callback::RegisterServer)
    } else if is_text(&chars, BACK_TO_SETTINGS) {
        Ok(Callback::BackToSettings)
    } else {
        Ok(Callback::Unknown)
    }
}

/// The payload that asks to download a magnet into a directory.
pub open spec fn download_text(magnet: Ref, ordinal: i32) -> Seq<char> {
    DOWNLOAD@ + uuid_text(magnet.value) + seq![':'] + signed_decimal(ordinal as int)
}

/// The payload that asks for the progress of a task.
pub open spec fn status_text(task: Ref) -> Seq<char> {
    STATUS@ + uuid_text(task.value)
}

/// The payload that asks to remove the torrent of a task.
pub open spec fn remove_text(task: Ref) -> Seq<char> {
    REMOVE@ + uuid_text(task.value)
}

proof fn lemma_prefixes()
    ensures
        DOWNLOAD@ == seq!['d', 'o', 'w', 'n', 'l', 'o', 'a', 'd', ':'],
        STATUS@ == seq!['t', '_', 's', 't', 'a', 't', 'u', 's', ':'],
        REMOVE@ == seq!['t', '_', 'r', 'e', 'm', 'o', 'v', 'e', ':'],
{
    reveal_strlit("download:");
    reveal_strlit("t_status:");
    reveal_strlit("t_remove:");
    assert(DOWNLOAD@ =~= seq!['d', 'o', 'w', 'n', 'l', 'o', 'a', 'd', ':']);
    assert(STATUS@ =~= seq!['t', '_', 's', 't', 'a', 't', 'u', 's', ':']);
    assert(REMOVE@ =~= seq!['t', '_', 'r', 'e', 'm', 'o', 'v', 'e', ':']);
}

/// The pieces of a word, a colon and a reference's text are the word and
/// the text.
proof fn lemma_split_with_reference(word: Seq<char>, id: u128)
    requires
        free_of(word, ':', ':'),
    ensures
        split_on(word.push(':') + uuid_text(id), ':') == seq![word, uuid_text(id)],
{
    lemma_uuid_text_shape(id);
    lemma_split_joined(word, ':', uuid_text(id), ':', ':');
    lemma_split_unbroken(word, ':', ':');
    lemma_split_unbroken(uuid_text(id), ':', ':');
    assert(seq![word] + seq![uuid_text(id)] =~= seq![word, uuid_text(id)]);
}

/// Writes the payload that asks to download a magnet into a directory. It
/// reads back as that request, and it fits the platform's limit of 64
/// bytes: it has at most 57 characters, one byte each.
pub fn download_payload(magnet: &Ref, ordinal: i32) -> (out: String)
    ensures
        out@ == download_text(*magnet, ordinal),
        decoded(out@) == Ok::<Callback, Malformed>(
            Callback::Download { magnet: *magnet, ordinal },
        ),
        out@.len() <= 57,
        vstd::utf8::is_ascii_chars(out@),
{
    let id = magnet.to_text();
    let mut out = String::from_str(DOWNLOAD);
    out.append(id.as_str());
    out.push(':');
    push_signed_decimal(&mut out, ordinal as i64);
    proof {
        let word = seq!['d', 'o', 'w', 'n', 'l', 'o', 'a', 'd'];
        let numeral = signed_decimal(ordinal as int);
        let tail = uuid_text(magnet.value).push(':') + numeral;
        lemma_prefixes();
        lemma_uuid_text_shape(magnet.value);
        lemma_signed_decimal_shape(ordinal as int);
        lemma_signed_decimal_read_back(ordinal as int);
        assert(out@ =~= download_text(*magnet, ordinal));
        assert(out@ =~= word.push(':') + tail);
        assert(free_of(numeral, ':', ':')) by {
            assert forall|i: int| 0 <= i < numeral.len() implies #[trigger] numeral[i] != ':' by {
                assert(is_digit(numeral[i]) || numeral[i] == '-');
            }
        }
        lemma_split_joined(word, ':', tail, ':', ':');
        lemma_split_joined(uuid_text(magnet.value), ':', numeral, ':', ':');
        lemma_split_unbroken(word, ':', ':');
        lemma_split_unbroken(uuid_text(magnet.value), ':', ':');
        lemma_split_unbroken(numeral, ':', ':');
        assert(split_on(out@, ':') =~= seq![word, uuid_text(magnet.value), numeral]);
        assert(out@.subrange(0, 9) =~= DOWNLOAD@);
        assert(vstd::utf8::is_ascii_chars(out@)) by {
            assert forall|i: int| 0 <= i < out@.len() implies '\0' <= #[trigger] out@[i]
                <= '\u{7f}' by {
                if i < 9 {
                } else if i < 45 {
                    let c = uuid_text(magnet.value)[i - 9];
                    assert(out@[i] == c);
                } else if i == 45 {
                } else {
                    let c = numeral[i - 46];
                    assert(out@[i] == c);
                    assert(is_digit(c) || c == '-');
                }
            }
        }
    }
    out
}

/// Writes the payload that asks for the progress of a task. It reads back
/// as that request and has 45 characters, one byte each.
pub fn status_payload(task: &Ref) -> (out: String)
    ensures
        out@ == status_text(*task),
        decoded(out@) == Ok::<Callback, Malformed>(Callback::TaskStatus { task: *task }),
        out@.len() == 45,
        vstd::utf8::is_ascii_chars(out@),
{
    let id = task.to_text();
    let mut out = String::from_str(STATUS);
    out.append(id.as_str());
    proof {
        let word = seq!['t', '_', 's', 't', 'a', 't', 'u', 's'];
        lemma_prefixes();
        lemma_uuid_text_shape(task.value);
        assert(out@ =~= word.push(':') + uuid_text(task.value));
        lemma_split_with_reference(word, task.value);
        assert(out@.subrange(0, 9) =~= STATUS@);
        assert(!has_prefix(out@, DOWNLOAD@)) by {
            assert(out@.subrange(0, 9)[0] == 't');
        }
        assert(vstd::utf8::is_ascii_chars(out@)) by {
            assert forall|i: int| 0 <= i < out@.len() implies '\0' <= #[trigger] out@[i]
                <= '\u{7f}' by {
                if i >= 9 {
                    let c = uuid_text(task.value)[i - 9];
                    assert(out@[i] == c);
                }
            }
        }
    }
    out
}

/// Writes the payload that asks to remove the torrent of a task. It reads
/// back as that request and has 45 characters, one byte each.
pub fn remove_payload(task: &Ref) -> (out: String)
    ensures
        out@ == remove_text(*task),
        decoded(out@) == Ok::<Callback, Malformed>(Callback::TaskRemove { task: *task }),
        out@.len() == 45,
        vstd::utf8::is_ascii_chars(out@),
{
    let id = task.to_text();
    let mut out = String::from_str(REMOVE);
    out.append(id.as_str());
    proof {
        let word = seq!['t', '_', 'r', 'e', 'm', 'o', 'v', 'e'];
        lemma_prefixes();
        lemma_uuid_text_shape(task.value);
        assert(out@ =~= word.push(':') + uuid_text(task.value));
        lemma_split_with_reference(word, task.value);
        assert(out@.subrange(0, 9) =~= REMOVE@);
        assert(!has_prefix(out@, DOWNLOAD@)) by {
            assert(out@.subrange(0, 9)[0] == 't');
        }
        assert(!has_prefix(out@, STATUS@)) by {
            assert(out@.subrange(0, 9)[2] == 'r');
        }
        assert(vstd::utf8::is_ascii_chars(out@)) by {
            assert forall|i: int| 0 <= i < out@.len() implies '\0' <= #[trigger] out@[i]
                <= '\u{7f}' by {
                if i >= 9 {
                    let c = uuid_text(task.value)[i - 9];
                    assert(out@[i] == c);
                }
            }
        }
    }
    out
}

} // verus!
