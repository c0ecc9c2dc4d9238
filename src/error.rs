//! The failures a command can end in, and the text shown for each.

use vstd::prelude::*;

verus! {

/// Why a command failed.
#[derive(Clone, Debug, PartialEq, Eq)]
pub enum CommandError {
    /// The command needs a linked account and the user has none.
    NotLinked,
    /// Linking lost a race or the user is linked already.
    AlreadyLinkedOrConflict,
    /// The statistics service could not be reached in time.
    TransportFailure,
    /// The statistics service reported an error, with its message.
    ExternalServiceError(String),
    /// The service's answer was not the JSON object expected.
    MalformedResponse,
    /// The list that the answer should hold is not there.
    ListNotFound,
    /// The account store failed.
    StorageFailure,
}

/// The text shown to the user for an error.
pub open spec fn error_text(e: CommandError) -> Seq<char> {
    match e {
        CommandError::NotLinked => "You don't have a LastFM account linked."@,
        CommandError::AlreadyLinkedOrConflict => "You already have an account attached (or something else broke)."@,
        CommandError::TransportFailure => "Couldn't reach LastFM, try again later."@,
        CommandError::ExternalServiceError(m) => m@,
        CommandError::MalformedResponse => "LastFM sent an answer that couldn't be read."@,
        CommandError::ListNotFound => "List of items is not a list."@,
        CommandError::StorageFailure => "Something went wrong with the database, try again later."@,
    }
}

impl CommandError {
    /// The text shown to the user for this error.
    pub fn message(&self) -> (r: String)
        ensures
            r@ == error_text(*self),
    {
        match self {
            CommandError::NotLinked => String::from_str("You don't have a LastFM account linked."),
            CommandError::AlreadyLinkedOrConflict => String::from_str(
                "You already have an account attached (or something else broke).",
            ),
            CommandError::TransportFailure => String::from_str(
                "Couldn't reach LastFM, try again later.",
            ),
            CommandError::ExternalServiceError(m) => m.clone(),
            CommandError::MalformedResponse => String::from_str(
                "LastFM sent an answer that couldn't be read.",
            ),
            CommandError::ListNotFound => String::from_str("List of items is not a list."),
            CommandError::StorageFailure => String::from_str(
                "Something went wrong with the database, try again later.",
            ),
        }
    }
}

} // verus!
