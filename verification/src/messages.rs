//! What an incoming message is taken for, and what follows a forum link
//! and a forwarded friend.

use crate::text::{chars_of, has_prefix, starts_with};
use crate::trans_url;
use vstd::prelude::*;

verus! {

pub const TORRENT_SUFFIX: &'static str = ".torrent";

pub const MAGNET_MARK: &'static str = "magnet:";

pub const FORUM_TOPIC: &'static str = "https://rutracker.org/forum/viewtopic.php?t=";

/// What an incoming message is taken for.
#[derive(Debug, Clone, Copy, PartialEq, Eq, Structural)]
pub enum Incoming {
    /// A torrent file.
    TorrentFile,
    /// A file of another kind.
    OtherFile,
    /// A file without a name: nothing is said.
    NamelessFile,
    /// A text with a magnet in it.
    Magnet,
    /// The address of a forum topic.
    ForumLink,
    /// Anything else.
    Unknown,
}

/// Whether `text` ends with `suffix`.
pub open spec fn has_suffix(text: Seq<char>, suffix: Seq<char>) -> bool {
    suffix.len() <= text.len() && text.subrange(text.len() - suffix.len(), text.len() as int)
        == suffix
}

/// Whether `pattern` occurs in `text`.
pub open spec fn contains(text: Seq<char>, pattern: Seq<char>) -> bool {
    exists|i: int|
        0 <= i <= text.len() && has_prefix(#[trigger] text.subrange(i, text.len() as int), pattern)
}

/// What a message is taken for. A message with a document is judged by
/// the document's name alone; a text is searched for a magnet first, and
/// then compared with the address of a forum topic.
pub open spec fn taken_for(
    document: Option<Option<Seq<char>>>,
    text: Option<Seq<char>>,
) -> Incoming {
    match document {
        Some(Some(name)) => if has_suffix(name, TORRENT_SUFFIX@) {
            Incoming::TorrentFile
        } else {
            Incoming::OtherFile
        },
        Some(None) => Incoming::NamelessFile,
        None => match text {
            Some(t) => if contains(t, MAGNET_MARK@) {
                Incoming::Magnet
            } else if has_prefix(t, FORUM_TOPIC@) {
                Incoming::ForumLink
            } else {
                Incoming::Unknown
            },
            None => Incoming::Unknown,
        },
    }
}

fn ends_with(text: &Vec<char>, suffix: &Vec<char>) -> (out: bool)
    ensures
        out == has_suffix(text@, suffix@),
{
    if suffix.len() > text.len() {
        return false;
    }
    let from = text.len() - suffix.len();
    let found = trans_url::matches_at(text, from, suffix);
    assert(text@.subrange(from as int, text.len() as int).subrange(0, suffix.len() as int)
        =~= text@.subrange(text.len() - suffix.len(), text.len() as int));
    found
}

fn occurs(text: &Vec<char>, pattern: &Vec<char>) -> (out: bool)
    ensures
        out == contains(text@, pattern@),
{
    let mut i: usize = 0;
    while i < text.len()
        invariant
            i <= text.len(),
            forall|j: int|
                0 <= j < i ==> !has_prefix(
                    #[trigger] text@.subrange(j, text.len() as int),
                    pattern@,
                ),
        decreases text.len() - i,
    {
        if trans_url::matches_at(text, i, pattern) {
            return true;
        }
        i += 1;
    }
    trans_url::matches_at(text, i, pattern)
}

/// Finds what a message is to be taken for. `document` is the name of the
/// message's document, where it has a document; `text` is its text, where
/// it has one.
pub fn classify(document: Option<Option<&str>>, text: Option<&str>) -> (out: Incoming)
    ensures
        out == taken_for(
            match document {
                Some(Some(name)) => Some(Some(name@)),
                Some(None) => Some(None),
                None => None,
            },
            match text {
                Some(t) => Some(t@),
                None => None,
            },
        ),
{
    match document {
        Some(Some(name)) => {
            if ends_with(&chars_of(name), &chars_of(TORRENT_SUFFIX)) {
                Incoming::TorrentFile
            } else {
                Incoming::OtherFile
            }
        },
        Some(None) => Incoming::NamelessFile,
        None => match text {
            Some(t) => {
                let chars = chars_of(t);
                if occurs(&chars, &chars_of(MAGNET_MARK)) {
                    Incoming::Magnet
                } else if starts_with(&chars, &chars_of(FORUM_TOPIC)) {
                    Incoming::ForumLink
                } else {
                    Incoming::Unknown
                }
            },
            None => Incoming::Unknown,
        },
    }
}

/// What came of fetching a forum page.
#[derive(Debug, Clone, Copy, PartialEq, Eq, Structural)]
pub enum Fetch {
    /// The service is not configured.
    NoService,
    /// The page could not be fetched.
    Failed,
    /// The page was fetched, and holds a magnet or does not.
    Page { magnet: bool },
}

/// What follows a forum link.
#[derive(Debug, Clone, Copy, PartialEq, Eq, Structural)]
pub enum ForumStep {
    /// Take the magnet in as if the user had sent it.
    Intake,
    /// Tell the user that the service is not configured.
    TellNoService,
    /// Tell the user that the page holds no magnet.
    TellNoMagnet,
    /// Tell the user that the page could not be fetched.
    TellNotFetched,
}

/// The text that a step tells the user, where it tells one.
pub open spec fn forum_text(step: ForumStep) -> Seq<char> {
    match step {
        ForumStep::Intake => Seq::<char>::empty(),
        ForumStep::TellNoService => "FLARESOLVER_URL is not set, can't parse rutracker links"@,
        ForumStep::TellNoMagnet =>
            "Couldn't find a magnet on the page. Try to send the magnet manually"@,
        ForumStep::TellNotFetched => "Couldn't fetch the link. Try to send the magnet manually"@,
    }
}

/// Decides what follows a forum link, from what came of fetching it.
pub fn after_fetch(fetch: Fetch) -> (out: ForumStep)
    ensures
        out == match fetch {
            Fetch::NoService => ForumStep::TellNoService,
            Fetch::Failed => ForumStep::TellNotFetched,
            Fetch::Page { magnet } => if magnet {
                ForumStep::Intake
            } else {
                ForumStep::TellNoMagnet
            },
        },
{
    match fetch {
        Fetch::NoService => ForumStep::TellNoService,
        Fetch::Failed => ForumStep::TellNotFetched,
        Fetch::Page { magnet: true } => ForumStep::Intake,
        Fetch::Page { magnet: false } => ForumStep::TellNoMagnet,
    }
}

/// The text that a step tells the user.
pub fn forum_message(step: ForumStep) -> (out: String)
    ensures
        out@ == forum_text(step),
{
    match step {
        ForumStep::Intake => String::new(),
        ForumStep::TellNoService => String::from_str(
            "FLARESOLVER_URL is not set, can't parse rutracker links",
        ),
        ForumStep::TellNoMagnet => String::from_str(
            "Couldn't find a magnet on the page. Try to send the magnet manually",
        ),
        ForumStep::TellNotFetched => String::from_str(
            "Couldn't fetch the link. Try to send the magnet manually",
        ),
    }
}

/// Where a forwarded message came from.
#[derive(Debug, Clone, Copy, PartialEq, Eq, Structural)]
pub enum Forward {
    /// The message was not forwarded.
    Missing,
    /// It was forwarded from a channel or a hidden user.
    NotUser,
    /// It was forwarded from the user with this number.
    User(u64),
}

/// Why a forwarded message adds no friend.
#[derive(Debug, Clone, Copy, PartialEq, Eq, Structural)]
pub enum NoFriend {
    NotForwarded,
    NotPersonal,
    /// The message is the assistant's own.
    Assistant,
    /// The message is the user's own.
    Oneself,
}

/// The friend that a forwarded message proposes, or why it proposes none.
/// The reasons are tried in the order in which `NoFriend` lists them.
pub fn proposed_friend(forward: Forward, me: u64, from: u64) -> (out: Result<u64, NoFriend>)
    ensures
        out == match forward {
            Forward::Missing => Err::<u64, NoFriend>(NoFriend::NotForwarded),
            Forward::NotUser => Err(NoFriend::NotPersonal),
            Forward::User(id) => if id == me {
                Err(NoFriend::Assistant)
            } else if id == from {
                Err(NoFriend::Oneself)
            } else {
                Ok(id)
            },
        },
{
    match forward {
        Forward::Missing => Err(NoFriend::NotForwarded),
        Forward::NotUser => Err(NoFriend::NotPersonal),
        Forward::User(id) => if id == me {
            Err(NoFriend::Assistant)
        } else if id == from {
            Err(NoFriend::Oneself)
        } else {
            Ok(id)
        },
    }
}

/// What becomes of a proposed friend once the store was asked.
#[derive(Debug, Clone, Copy, PartialEq, Eq, Structural)]
pub enum Befriend {
    /// The proposed friend never talked to the assistant.
    Stranger,
    /// The two are friends already.
    Already,
    /// Store the friendship in both directions and tell both.
    Add,
}

/// Decides what becomes of a proposed friend.
pub fn befriend(registered: bool, friends: bool) -> (out: Befriend)
    ensures
        out == if !registered {
            Befriend::Stranger
        } else if friends {
            Befriend::Already
        } else {
            Befriend::Add
        },
{
    if !registered {
        Befriend::Stranger
    } else if friends {
        Befriend::Already
    } else {
        Befriend::Add
    }
}

/// What becomes of the user's own message once its magnet was taken in.
#[derive(Debug, Clone, Copy, PartialEq, Eq, Structural)]
pub enum AfterIntake {
    /// The offer stands: the message is deleted.
    DeleteOriginal,
    /// The intake failed: the message stays, and the failure is not handed
    /// on.
    Keep,
}

/// Decides what becomes of the user's own message.
pub fn after_intake(offered: bool) -> (out: AfterIntake)
    ensures
        out == if offered {
            AfterIntake::DeleteOriginal
        } else {
            AfterIntake::Keep
        },
{
    if offered {
        AfterIntake::DeleteOriginal
    } else {
        AfterIntake::Keep
    }
}

} // verus!
