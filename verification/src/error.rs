//! The ways in which fetching and navigating fail.

use vstd::prelude::*;

verus! {

/// The kinds of [`FetchError`].
#[derive(Debug, Clone, Copy, PartialEq, Eq, Structural)]
pub enum ErrorKind {
    Network,
    Parse,
    NoResults,
    NoValidImage,
    AllSourcesExhausted,
}

/// Why no artwork could be fetched. Each variant carries its message.
#[derive(Debug)]
pub enum FetchError {
    /// The request did not get through, or the answer was no success.
    Network(String),
    /// The answer could not be read as the expected record.
    Parse(String),
    /// The search found nothing.
    NoResults(String),
    /// None of the candidates that were tried had a usable image.
    NoValidImage(String),
    /// Every source failed.
    AllSourcesExhausted(String),
}

impl FetchError {
    /// The kind of the error.
    pub open spec fn kind(&self) -> ErrorKind {
        match self {
            FetchError::Network(_) => ErrorKind::Network,
            FetchError::Parse(_) => ErrorKind::Parse,
            FetchError::NoResults(_) => ErrorKind::NoResults,
            FetchError::NoValidImage(_) => ErrorKind::NoValidImage,
            FetchError::AllSourcesExhausted(_) => ErrorKind::AllSourcesExhausted,
        }
    }

    /// The message that the error carries.
    pub open spec fn text(&self) -> Seq<char> {
        match self {
            FetchError::Network(m) => m@,
            FetchError::Parse(m) => m@,
            FetchError::NoResults(m) => m@,
            FetchError::NoValidImage(m) => m@,
            FetchError::AllSourcesExhausted(m) => m@,
        }
    }

    /// The message that the error carries.
    pub fn message(&self) -> (m: String)
        ensures
            m@ == self.text(),
    {
        match self {
            FetchError::Network(m) => m.clone(),
            FetchError::Parse(m) => m.clone(),
            FetchError::NoResults(m) => m.clone(),
            FetchError::NoValidImage(m) => m.clone(),
            FetchError::AllSourcesExhausted(m) => m.clone(),
        }
    }
}

/// Whether `result` is the failure of the given kind with the given message.
pub open spec fn is_error<T>(result: Result<T, FetchError>, kind: ErrorKind, text: Seq<char>) -> bool {
    result matches Err(e) && e.kind() == kind && e.text() == text
}

/// Why a step back through the history was refused.
#[derive(Debug, Clone, Copy, PartialEq, Eq, Structural)]
pub enum NavError {
    /// Nothing has been shown yet.
    EmptyHistory,
    /// Only one artwork has been shown: there is nothing before it.
    NoPreviousArtwork,
    /// The cursor stands on the oldest entry.
    AtHistoryBoundary,
}

impl NavError {
    /// The wording of each refusal.
    pub open spec fn text(&self) -> Seq<char> {
        match self {
            NavError::EmptyHistory => "No history"@,
            NavError::NoPreviousArtwork => "No previous artwork"@,
            NavError::AtHistoryBoundary => "At beginning of history"@,
        }
    }

    /// The wording of the refusal.
    pub fn message(&self) -> (m: String)
        ensures
            m@ == self.text(),
    {
        match self {
            NavError::EmptyHistory => "No history".to_owned(),
            NavError::NoPreviousArtwork => "No previous artwork".to_owned(),
            NavError::AtHistoryBoundary => "At beginning of history".to_owned(),
        }
    }
}

} // verus!
