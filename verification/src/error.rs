//! Errors of the filesystem.

use vstd::prelude::*;

verus! {

/// Where reading a bundled archive went wrong.
#[derive(Debug, Clone, Copy, PartialEq, Eq, Structural)]
pub enum ArchiveFault {
    /// The reader could not get to the next member.
    Iteration,
    /// A member's path could not be read, or is not text.
    Path,
    /// A member's content could not be read.
    Payload,
}

/// What can go wrong in this library.
#[derive(Debug, Clone)]
pub enum GameError {
    /// No readable file at a logical path. The message names the path.
    FilesystemError(String),
    /// The bundled archive is broken. Nothing of it is kept, and the
    /// application is not expected to go on.
    ArchiveError(ArchiveFault),
}

/// A result of this library.
pub type GameResult<T> = Result<T, GameError>;

/// What a [`GameError`] stands for.
pub enum GameErrorView {
    FilesystemError(Seq<char>),
    ArchiveError(ArchiveFault),
}

impl View for GameError {
    type V = GameErrorView;

    open spec fn view(&self) -> GameErrorView {
        match self {
            GameError::FilesystemError(message) => GameErrorView::FilesystemError(message@),
            GameError::ArchiveError(fault) => GameErrorView::ArchiveError(*fault),
        }
    }
}

/// What the message for a missing file begins with.
pub open spec fn missing_lead() -> Seq<char> {
    "No such file: \""@
}

/// The message of the error for a relative path that names no file: the
/// path between double quotes, after a fixed lead.
pub open spec fn missing_text(rel: Seq<char>) -> Seq<char> {
    missing_lead() + rel + "\""@
}

impl GameError {
    /// The error for a relative path that names no file.
    pub fn missing(rel: &str) -> (error: GameError)
        ensures
            error@ == GameErrorView::FilesystemError(missing_text(rel@)),
    {
        let message = String::from_str("No such file: \"").concat(rel).concat("\"");
        GameError::FilesystemError(message)
    }

    /// The text of the error, for people.
    pub fn message(&self) -> (text: String)
        ensures
            text@ == error_text(self@),
    {
        match self {
            GameError::FilesystemError(message) => message.clone(),
            GameError::ArchiveError(ArchiveFault::Iteration) => String::from_str(
                "The bundled archive is broken: a member could not be reached",
            ),
            GameError::ArchiveError(ArchiveFault::Path) => String::from_str(
                "The bundled archive is broken: a member's path could not be read",
            ),
            GameError::ArchiveError(ArchiveFault::Payload) => String::from_str(
                "The bundled archive is broken: a member's content could not be read",
            ),
        }
    }
}

/// The text that [`GameError::message`] gives.
pub open spec fn error_text(error: GameErrorView) -> Seq<char> {
    match error {
        GameErrorView::FilesystemError(message) => message,
        GameErrorView::ArchiveError(ArchiveFault::Iteration) =>
            "The bundled archive is broken: a member could not be reached"@,
        GameErrorView::ArchiveError(ArchiveFault::Path) =>
            "The bundled archive is broken: a member's path could not be read"@,
        GameErrorView::ArchiveError(ArchiveFault::Payload) =>
            "The bundled archive is broken: a member's content could not be read"@,
    }
}

} // verus!
