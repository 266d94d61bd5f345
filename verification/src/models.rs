//! The stored records, as plain values: references are 128-bit numbers and
//! times are seconds since the epoch.

use crate::crypto::{Crypto, CryptoError, CryptoErrorView};
use crate::refs::Ref;
use crate::trans_url::TransUrl;
use vstd::prelude::*;

verus! {

/// A copy of an optional text.
pub fn copy_text(text: &Option<String>) -> (out: Option<String>)
    ensures
        out is Some <==> text is Some,
        out matches Some(t) ==> t@ == text->0@,
{
    match text {
        Some(t) => Some(t.clone()),
        None => None,
    }
}

/// A registered user.
#[derive(Debug, Clone)]
pub struct User {
    pub id: i64,
    pub chat: i64,
    pub first_name: String,
    pub last_name: Option<String>,
    pub username: Option<String>,
    pub salt: String,
    pub created_at: i64,
}

/// A user about to be registered.
#[derive(Debug, Clone)]
pub struct NewUser {
    pub id: i64,
    pub chat: i64,
    pub first_name: String,
    pub last_name: Option<String>,
    pub username: Option<String>,
    pub salt: String,
}

/// A user as the first store kept it, without a salt.
#[derive(Debug, Clone)]
pub struct DbUser {
    pub id: i64,
    pub chat: i64,
    pub first_name: String,
    pub last_name: Option<String>,
    pub username: Option<String>,
}

/// A friendship, as stored.
#[derive(Debug, Clone, Copy, PartialEq, Eq, Structural)]
pub struct Friend {
    pub id: Ref,
    pub user_id: i64,
    pub friend_user_id: i64,
    pub created_at: i64,
}

/// A friendship about to be stored.
#[derive(Debug, Clone, Copy, PartialEq, Eq, Structural)]
pub struct NewFriend {
    pub user_id: i64,
    pub friend_user_id: i64,
}

/// A download directory of an owner, known to the owner by its ordinal.
#[derive(Debug, Clone)]
pub struct DownloadDirectory {
    pub id: Ref,
    pub user_id: i64,
    pub alias: String,
    pub path: String,
    pub ordinal: i32,
    pub created_at: i64,
}

/// A download directory about to be stored.
#[derive(Debug, Clone)]
pub struct NewDownloadDirectory {
    pub id: Ref,
    pub user_id: i64,
    pub alias: String,
    pub path: String,
    pub ordinal: i32,
}

impl NewDownloadDirectory {
    /// A directory under a fresh reference.
    pub fn new(user_id: i64, alias: String, path: String, ordinal: i32) -> (out: Self)
        ensures
            out.user_id == user_id,
            out.alias == alias,
            out.path == path,
            out.ordinal == ordinal,
    {
        NewDownloadDirectory { id: Ref::fresh(), user_id, alias, path, ordinal }
    }
}

/// The ordinal of an owner's next directory: one more than the largest of
/// the owner's ordinals, and 1 for an owner without directories.
pub open spec fn next_ordinal_of(ordinals: Seq<i32>) -> int {
    largest(ordinals) + 1
}

/// The largest of some ordinals, and 0 where there are none.
pub open spec fn largest(ordinals: Seq<i32>) -> int
    decreases ordinals.len(),
{
    if ordinals.len() == 0 {
        0
    } else if ordinals.len() == 1 {
        ordinals[0] as int
    } else {
        let before = largest(ordinals.drop_last());
        if ordinals.last() > before {
            ordinals.last() as int
        } else {
            before
        }
    }
}

/// The largest of some ordinals is at least each of them, and is one of
/// them.
pub proof fn lemma_largest(ordinals: Seq<i32>)
    requires
        ordinals.len() > 0,
    ensures
        forall|i: int| 0 <= i < ordinals.len() ==> ordinals[i] <= largest(ordinals),
        exists|i: int| 0 <= i < ordinals.len() && ordinals[i] == largest(ordinals),
    decreases ordinals.len(),
{
    if ordinals.len() == 1 {
        assert(ordinals[0] == largest(ordinals));
    } else {
        let before = ordinals.drop_last();
        lemma_largest(before);
        assert forall|i: int| 0 <= i < ordinals.len() implies ordinals[i] <= largest(ordinals) by {
            if i < ordinals.len() - 1 {
                assert(before[i] == ordinals[i]);
            }
        }
        if ordinals.last() > largest(before) {
            assert(ordinals[ordinals.len() - 1] == largest(ordinals));
        } else {
            let i = choose|i: int| 0 <= i < before.len() && before[i] == largest(before);
            assert(ordinals[i] == largest(ordinals));
        }
    }
}

/// The ordinal for an owner's next directory, given the ordinals the owner
/// has. There is none left once the largest possible ordinal is taken.
pub fn next_ordinal(ordinals: &Vec<i32>) -> (out: Option<i32>)
    ensures
        out is Some <==> next_ordinal_of(ordinals@) <= i32::MAX,
        out matches Some(n) ==> n == next_ordinal_of(ordinals@),
{
    if ordinals.len() == 0 {
        return Some(1);
    }
    let mut best: i32 = ordinals[0];
    let mut i: usize = 1;
    assert(ordinals@.subrange(0, 1) =~= seq![ordinals@[0]]);
    while i < ordinals.len()
        invariant
            1 <= i <= ordinals.len(),
            best == largest(ordinals@.subrange(0, i as int)),
        decreases ordinals.len() - i,
    {
        assert(ordinals@.subrange(0, i + 1).drop_last() =~= ordinals@.subrange(0, i as int));
        if ordinals[i] > best {
            best = ordinals[i];
        }
        i += 1;
    }
    assert(ordinals@.subrange(0, ordinals.len() as int) =~= ordinals@);
    if best == i32::MAX {
        None
    } else {
        Some(best + 1)
    }
}

/// The state of a download task.
#[derive(Debug, Clone, Copy, PartialEq, Eq, Structural)]
pub enum TaskStatus {
    Created,
    Started,
    Finished,
    Error,
}

/// The stored text of a status.
pub open spec fn status_text(status: TaskStatus) -> Seq<char> {
    match status {
        TaskStatus::Created => "created"@,
        TaskStatus::Started => "started"@,
        TaskStatus::Finished => "finished"@,
        TaskStatus::Error => "error"@,
    }
}

/// The status that a stored text stands for, if it stands for one.
pub open spec fn status_of(text: Seq<char>) -> Option<TaskStatus> {
    if text == "created"@ {
        Some(TaskStatus::Created)
    } else if text == "started"@ {
        Some(TaskStatus::Started)
    } else if text == "finished"@ {
        Some(TaskStatus::Finished)
    } else if text == "error"@ {
        Some(TaskStatus::Error)
    } else {
        None
    }
}

impl TaskStatus {
    /// Reads a status from its stored text.
    pub fn parse(text: &String) -> (out: Option<TaskStatus>)
        ensures
            out == status_of(text@),
    {
        if *text == String::from_str("created") {
            Some(TaskStatus::Created)
        } else if *text == String::from_str("started") {
            Some(TaskStatus::Started)
        } else if *text == String::from_str("finished") {
            Some(TaskStatus::Finished)
        } else if *text == String::from_str("error") {
            Some(TaskStatus::Error)
        } else {
            None
        }
    }

    /// The status that a stored text stands for.
    pub fn from(str: String) -> (out: TaskStatus)
        requires
            status_of(str@) is Some,
        ensures
            Some(out) == status_of(str@),
    {
        Self::parse(&str).unwrap()
    }

    /// The stored text of the status.
    pub fn to_string(&self) -> (out: String)
        ensures
            out@ == status_text(*self),
    {
        match self {
            TaskStatus::Created => String::from_str("created"),
            TaskStatus::Started => String::from_str("started"),
            TaskStatus::Finished => String::from_str("finished"),
            TaskStatus::Error => String::from_str("error"),
        }
    }
}

/// The stored text of a status stands for that status.
pub proof fn lemma_status_text_read_back(status: TaskStatus)
    ensures
        status_of(status_text(status)) == Some(status),
{
    reveal_strlit("created");
    reveal_strlit("started");
    reveal_strlit("finished");
    reveal_strlit("error");
    assert("created"@.len() == 7 && "started"@.len() == 7 && "finished"@.len() == 8 && "error"@.len()
        == 5);
    assert("created"@[0] != "started"@[0]);
}

/// A download task, as stored. The status is written once, when the task
/// is created, and says nothing about progress.
#[derive(Debug, Clone)]
pub struct DownloadTask {
    pub id: Ref,
    pub user_id: i64,
    pub server_id: Ref,
    pub magnet_id: Ref,
    pub status: String,
    pub description: Option<String>,
    pub created_at: i64,
}

impl DownloadTask {
    /// The status of the task.
    pub fn status(&self) -> (out: TaskStatus)
        requires
            status_of(self.status@) is Some,
        ensures
            Some(out) == status_of(self.status@),
    {
        TaskStatus::from(self.status.clone())
    }
}

/// A download task about to be stored.
#[derive(Debug, Clone)]
pub struct NewDownloadTask {
    pub id: Ref,
    pub user_id: i64,
    pub server_id: Ref,
    pub magnet_id: Ref,
    pub status: String,
    pub description: Option<String>,
}

impl NewDownloadTask {
    /// A task under a fresh reference.
    pub fn new(
        user_id: i64,
        server_id: Ref,
        magnet_id: Ref,
        status: String,
        description: Option<String>,
    ) -> (out: Self)
        ensures
            out.user_id == user_id,
            out.server_id == server_id,
            out.magnet_id == magnet_id,
            out.status == status,
            out.description == description,
    {
        NewDownloadTask { id: Ref::fresh(), user_id, server_id, magnet_id, status, description }
    }
}

/// A registered magnet: the full form of the link, under its reference.
#[derive(Debug, Clone)]
pub struct Magnet {
    pub id: Ref,
    pub user_id: i64,
    pub url: String,
    pub created_at: i64,
}

/// A magnet about to be registered.
#[derive(Debug, Clone)]
pub struct NewMagnet {
    pub id: Ref,
    pub user_id: i64,
    pub url: String,
}

impl NewMagnet {
    /// A magnet under a fresh reference.
    pub fn new(user_id: i64, url: String) -> (out: Self)
        ensures
            out.user_id == user_id,
            out.url == url,
    {
        NewMagnet { id: Ref::fresh(), user_id, url }
    }
}

/// The credential of a daemon. In a stored server the password is
/// encrypted; in one that was read for use it is plain.
#[derive(Debug, Clone)]
pub struct Authentication {
    pub username: String,
    pub password: String,
}

/// The credential that a user name and a password make: there is one only
/// where both are present.
pub open spec fn credential_of(username: Option<String>, password: Option<String>) -> Option<
    (Seq<char>, Seq<char>),
> {
    if username is Some && password is Some {
        Some((username->0@, password->0@))
    } else {
        None
    }
}

fn credential(username: &Option<String>, password: &Option<String>) -> (out: Option<Authentication>)
    ensures
        out is Some <==> credential_of(*username, *password) is Some,
        out matches Some(a) ==> credential_of(*username, *password) == Some(
            (a.username@, a.password@),
        ),
{
    match username {
        Some(u) => match password {
            Some(p) => Some(Authentication { username: u.clone(), password: p.clone() }),
            None => None,
        },
        None => None,
    }
}

/// A daemon about to be registered.
#[derive(Debug, Clone)]
pub struct NewServer {
    pub id: Ref,
    pub user_id: i64,
    pub url: String,
    pub username: Option<String>,
    pub password: Option<String>,
}

impl NewServer {
    /// The base address of the daemon.
    pub fn url(&self) -> (out: TransUrl)
        ensures
            out@ == self.url@,
    {
        TransUrl::from(self.url.clone())
    }

    /// The credential of the daemon, if it has one.
    pub fn auth(&self) -> (out: Option<Authentication>)
        ensures
            out is Some <==> credential_of(self.username, self.password) is Some,
            out matches Some(a) ==> credential_of(self.username, self.password) == Some(
                (a.username@, a.password@),
            ),
    {
        credential(&self.username, &self.password)
    }

    /// A daemon under a fresh reference.
    pub fn new(user_id: u64, url: String, auth: Option<Authentication>) -> (out: Self)
        ensures
            out.user_id == user_id as i64,
            out.url == url,
            out.username is Some <==> auth is Some,
            out.password is Some <==> auth is Some,
            auth matches Some(a) ==> out.username->0 == a.username && out.password->0
                == a.password,
    {
        let (username, password) = match auth {
            Some(a) => (Some(a.username), Some(a.password)),
            None => (None, None),
        };
        NewServer { id: Ref::fresh(), user_id: #[verifier::truncate] (user_id as i64), url, username, password }
    }
}

/// A registered daemon.
#[derive(Debug, Clone)]
pub struct Server {
    pub id: Ref,
    pub user_id: i64,
    pub url: String,
    pub username: Option<String>,
    pub password: Option<String>,
    pub created_at: i64,
}

impl Server {
    /// The base address of the daemon.
    pub fn url(&self) -> (out: TransUrl)
        ensures
            out@ == self.url@,
    {
        TransUrl::from(self.url.clone())
    }

    /// The credential of the daemon, if it has one.
    pub fn auth(&self) -> (out: Option<Authentication>)
        ensures
            out is Some <==> credential_of(self.username, self.password) is Some,
            out matches Some(a) ==> credential_of(self.username, self.password) == Some(
                (a.username@, a.password@),
            ),
    {
        credential(&self.username, &self.password)
    }

    /// Whether `opened` is `self` with its password decrypted by `crypto`.
    pub open spec fn opens_to(&self, crypto: &Crypto, opened: Server) -> bool {
        &&& opened.id == self.id
        &&& opened.user_id == self.user_id
        &&& opened.url@ == self.url@
        &&& opened.created_at == self.created_at
        &&& opened.username is Some <==> self.username is Some
        &&& self.username is Some ==> opened.username->0@ == self.username->0@
        &&& opened.password is Some <==> self.password is Some
        &&& self.password is Some ==> crypto.decrypted(self.password->0@) == Ok::<
            Seq<char>,
            CryptoErrorView,
        >(opened.password->0@)
    }

    /// The server with its password decrypted, for a password that is known
    /// to be one of `crypto`.
    pub fn decrypt(&self, crypto: &Crypto) -> (out: Server)
        requires
            self.password is Some ==> crypto.decrypted(self.password->0@) is Ok,
        ensures
            self.opens_to(crypto, out),
    {
        let password = match &self.password {
            Some(stored) => Some(crypto.decrypt(stored)),
            None => None,
        };
        Server {
            id: self.id,
            user_id: self.user_id,
            url: self.url.clone(),
            username: copy_text(&self.username),
            password,
            created_at: self.created_at,
        }
    }

    /// The server with its password decrypted, or the reason why the
    /// password cannot be decrypted.
    pub fn try_decrypt(&self, crypto: &Crypto) -> (out: Result<Server, CryptoError>)
        ensures
            out matches Ok(opened) ==> self.opens_to(crypto, opened),
            out matches Err(e) ==> self.password is Some && crypto.decrypted(self.password->0@)
                == Err::<Seq<char>, CryptoErrorView>(e@),
    {
        match &self.password {
            Some(stored) => match crypto.try_decrypt(stored) {
                Ok(_) => Ok(self.decrypt(crypto)),
                Err(e) => Err(e),
            },
            None => Ok(self.decrypt(crypto)),
        }
    }
}

} // verus!
