//! The error types of the library.

use vstd::prelude::*;

verus! {

/// Why a magnet link could not be read from its query parameters.
#[derive(Debug, Clone, Copy, PartialEq, Eq, Structural)]
pub enum MagnetErrorKind {
    /// No `xt` parameter is present.
    MissingExactTopic,
    /// More than one `xt` parameter is present.
    AmbiguousExactTopic,
    /// More than one `dn` parameter is present.
    AmbiguousDisplayName,
}

/// A magnet link that does not name exactly one topic and at most one
/// display name.
#[derive(Debug, Clone, Copy, PartialEq, Eq, Structural)]
pub struct MagnetMappingError(pub MagnetErrorKind);

impl MagnetMappingError {
    pub fn new(kind: MagnetErrorKind) -> (out: Self)
        ensures
            out.0 == kind,
    {
        MagnetMappingError(kind)
    }

    /// The failure this error reports.
    pub fn kind(&self) -> (out: MagnetErrorKind)
        ensures
            out == self.0,
    {
        self.0
    }

    /// The text of the failure, without any prefix.
    pub open spec fn detail(kind: MagnetErrorKind) -> Seq<char> {
        match kind {
            MagnetErrorKind::MissingExactTopic => "No XT parameter found"@,
            MagnetErrorKind::AmbiguousExactTopic => "There were found more then 1 xt parameter"@,
            MagnetErrorKind::AmbiguousDisplayName => "There were found more then 1 dn parameter"@,
        }
    }

    /// The message shown for this error.
    pub fn message(&self) -> (out: String)
        ensures
            out@ == "Magnet Mapping error: "@ + Self::detail(self.0),
    {
        let head = String::from_str("Magnet Mapping error: ");
        match self.0 {
            MagnetErrorKind::MissingExactTopic => head.concat("No XT parameter found"),
            MagnetErrorKind::AmbiguousExactTopic => head.concat(
                "There were found more then 1 xt parameter",
            ),
            MagnetErrorKind::AmbiguousDisplayName => head.concat(
                "There were found more then 1 dn parameter",
            ),
        }
    }
}

/// Which side of the store failed.
#[derive(Debug)]
pub enum DbErrorKind {
    /// No connection could be had.
    Connection(String),
    /// A query failed.
    Execution(String),
}

/// A failure of the store.
#[derive(Debug)]
pub struct DbError(pub DbErrorKind);

impl DbError {
    pub fn new(kind: DbErrorKind) -> (out: DbError)
        ensures
            out.0 == kind,
    {
        DbError(kind)
    }

    /// The text of the failure.
    pub open spec fn message_text(&self) -> Seq<char> {
        match self.0 {
            DbErrorKind::Connection(text) => text@,
            DbErrorKind::Execution(text) => text@,
        }
    }

    /// The message shown for this error.
    pub fn message(&self) -> (out: String)
        ensures
            out@ == self.message_text(),
    {
        match &self.0 {
            DbErrorKind::Connection(text) => text.clone(),
            DbErrorKind::Execution(text) => text.clone(),
        }
    }
}

impl From<String> for DbError {
    fn from(error: String) -> (out: DbError) {
        DbError(DbErrorKind::Execution(error))
    }
}

impl vstd::std_specs::convert::FromSpecImpl<String> for DbError {
    open spec fn obeys_from_spec() -> bool {
        true
    }

    open spec fn from_spec(error: String) -> DbError {
        DbError(DbErrorKind::Execution(error))
    }
}

/// Where a failure of an interaction came from.
#[derive(Debug)]
pub enum BotErrorKind {
    /// The chat platform refused or failed a call.
    TelegramError(String),
    /// The store failed.
    DbError(DbError),
    /// The interaction cannot go on, for the reason given.
    BotLogic(String),
}

/// A failure of an interaction.
#[derive(Debug)]
pub struct BotError(pub BotErrorKind);

impl BotError {
    pub fn new(kind: BotErrorKind) -> (out: BotError)
        ensures
            out.0 == kind,
    {
        BotError(kind)
    }

    /// A failure of the interaction's own rules.
    pub fn logic(message: String) -> (out: BotError)
        ensures
            out.0 == BotErrorKind::BotLogic(message),
    {
        BotError(BotErrorKind::BotLogic(message))
    }

    /// The text of the failure.
    pub open spec fn message_text(&self) -> Seq<char> {
        match self.0 {
            BotErrorKind::TelegramError(text) => text@,
            BotErrorKind::DbError(error) => error.message_text(),
            BotErrorKind::BotLogic(text) => text@,
        }
    }

    /// The message shown for this error.
    pub fn message(&self) -> (out: String)
        ensures
            out@ == self.message_text(),
    {
        match &self.0 {
            BotErrorKind::TelegramError(text) => text.clone(),
            BotErrorKind::DbError(error) => error.message(),
            BotErrorKind::BotLogic(text) => text.clone(),
        }
    }
}

impl From<DbError> for BotError {
    fn from(error: DbError) -> (out: BotError) {
        BotError(BotErrorKind::DbError(error))
    }
}

impl vstd::std_specs::convert::FromSpecImpl<DbError> for BotError {
    open spec fn obeys_from_spec() -> bool {
        true
    }

    open spec fn from_spec(error: DbError) -> BotError {
        BotError(BotErrorKind::DbError(error))
    }
}

} // verus!
