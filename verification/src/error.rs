use crate::model::record::RecordStatus;
use crate::permissions::PermissionsSet;
use vstd::prelude::*;

verus! {

/// The kinds of things that the store holds.
#[derive(Clone, Copy, Debug, PartialEq, Eq, Hash, Structural)]
pub enum Model {
    Submitter,
    Player,
    Demon,
    Record,
    User,
}

/// What a thing in the store was looked up by.
#[derive(Debug, PartialEq, Eq)]
pub enum Key {
    Id(i32),
    Name(String),
}

/// Why a command did not succeed.
#[derive(Debug, PartialEq, Eq)]
pub enum PointercrateError {
    /// The request carried no credentials, or none that hold.
    Unauthorized,
    /// The account holds none of the capabilities in `required`.
    MissingPermissions { required: PermissionsSet },
    /// The thing has changed since the caller read it.
    PreconditionFailed,
    /// The library was used against its own rules.
    InvalidState,
    /// The store holds no such thing.
    ModelNotFound { kind: Model, key: Key },
    /// No connection to the store could be had.
    ConnectionUnavailable,
    /// The store failed.
    DatabaseError,
    /// The submitter may not hand in records.
    BannedFromSubmissions,
    /// The player may not have records on the list.
    PlayerBanned,
    /// The demon stands behind the extended list.
    SubmitLegacy,
    /// The demon stands on the extended list, which takes full completions only.
    Non100Extended,
    /// The progress is above 100 or below what the demon requires.
    InvalidProgress { requirement: i16 },
    /// The store already holds a record that the submission does not beat.
    SubmissionExists { status: RecordStatus, existing_id: i32 },
    InvalidUsername,
    InvalidPassword,
    NameTaken,
    /// A demon of that name already stands on the list.
    DemonExists { position: i16 },
    /// The position lies outside the list, which ends at `maximal`.
    InvalidPosition { maximal: i16 },
    /// The video's address does not start with a scheme that is accepted.
    InvalidUrlScheme,
    /// The video's address carries credentials.
    UrlAuthenticated,
    /// The video lies with a host that is not accepted.
    UnsupportedVideoHost,
    /// The video's address has not the form that its host uses.
    InvalidUrlFormat { expected: String },
}

} // verus!
