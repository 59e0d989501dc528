//! What can go wrong, and the words in which the status reports it.

use vstd::prelude::*;
use crate::text::{concat2, decimal_digits, decimal_of_u64, string_of};

verus! {

/// The start of the message for a stored file list that cannot be read.
pub const MALFORMED_FILE_LIST: &'static str = "failed to parse the stored file list: ";

/// The message for a profile without identity documents.
pub const NO_IDENTITY_DOCUMENTS: &'static str =
    "the profile holds no identity document; add the identity card photos to the profile first";

/// The message for a request that names no address.
pub const MISSING_INFRINGING_URL: &'static str =
    "the request names no infringing address";

/// Why no workflow can be generated.
#[derive(Clone, Debug, PartialEq, Eq)]
pub enum ValidationError {
    /// A stored file list starts like a JSON array and is none; the field
    /// holds what the parser said.
    MalformedFileList(String),
    /// Not one identity document of the profile exists on disk.
    NoIdentityDocuments,
    /// The request names no address to appeal against.
    MissingInfringingUrl,
}

/// A `ValidationError` as plain values.
pub enum ValidationErrorView {
    MalformedFileList(Seq<char>),
    NoIdentityDocuments,
    MissingInfringingUrl,
}

impl View for ValidationError {
    type V = ValidationErrorView;

    open spec fn view(&self) -> ValidationErrorView {
        match self {
            ValidationError::MalformedFileList(detail) => ValidationErrorView::MalformedFileList(
                detail@,
            ),
            ValidationError::NoIdentityDocuments => ValidationErrorView::NoIdentityDocuments,
            ValidationError::MissingInfringingUrl => ValidationErrorView::MissingInfringingUrl,
        }
    }
}

impl ValidationErrorView {
    /// The message that a person reads.
    pub open spec fn message(self) -> Seq<char> {
        match self {
            ValidationErrorView::MalformedFileList(detail) => MALFORMED_FILE_LIST@ + detail,
            ValidationErrorView::NoIdentityDocuments => NO_IDENTITY_DOCUMENTS@,
            ValidationErrorView::MissingInfringingUrl => MISSING_INFRINGING_URL@,
        }
    }
}

impl ValidationError {
    /// The message that a person reads.
    pub fn message(&self) -> (m: String)
        ensures
            m@ == self@.message(),
    {
        match self {
            ValidationError::MalformedFileList(detail) => concat2(
                MALFORMED_FILE_LIST,
                detail.as_str(),
            ),
            ValidationError::NoIdentityDocuments => String::from_str(NO_IDENTITY_DOCUMENTS),
            ValidationError::MissingInfringingUrl => String::from_str(MISSING_INFRINGING_URL),
        }
    }
}

// ---------------------------------------------------------------------------
// Launching the browser
// ---------------------------------------------------------------------------

/// The message for a user without a home directory.
pub const NO_HOME_DIRECTORY: &'static str = "the home directory of the user cannot be determined";

/// The message for a machine without a browser.
pub const BROWSER_NOT_FOUND: &'static str =
    "no Chrome executable was found in the usual install locations";

/// The start of the message for a browser that could not be closed.
pub const KILL_FAILED: &'static str = "the running Chrome could not be closed: ";

/// The start of the message for a browser that could not be started.
pub const SPAWN_FAILED: &'static str = "Chrome could not be started: ";

/// The start of the message for a debug port that stayed closed.
pub const DEBUG_PORT_TIMEOUT_OPEN: &'static str =
    "timeout: the debug port of Chrome did not open within ";

/// The end of the message for a debug port that stayed closed.
pub const DEBUG_PORT_TIMEOUT_CLOSE: &'static str = " seconds";

/// The message for an answer that does not fit the question.
pub const OUT_OF_TURN: &'static str = "the browser session was told something out of turn";

/// Why no browser session with a debug endpoint could be had.
#[derive(Clone, Debug, PartialEq, Eq)]
pub enum LaunchError {
    /// The profile directory of the browser has no place.
    NoHomeDirectory,
    /// None of the usual install locations holds a browser.
    BrowserNotFound,
    /// A browser without debug endpoint runs and could not be closed.
    KillFailed(String),
    /// The browser could not be started.
    SpawnFailed(String),
    /// The browser was started, and its debug endpoint did not answer within
    /// so many seconds.
    DebugPortTimeout(u32),
    /// An answer came that does not fit what was asked.
    OutOfTurn,
}

/// A `LaunchError` as plain values.
pub enum LaunchErrorView {
    NoHomeDirectory,
    BrowserNotFound,
    KillFailed(Seq<char>),
    SpawnFailed(Seq<char>),
    DebugPortTimeout(u32),
    OutOfTurn,
}

impl View for LaunchError {
    type V = LaunchErrorView;

    open spec fn view(&self) -> LaunchErrorView {
        match self {
            LaunchError::NoHomeDirectory => LaunchErrorView::NoHomeDirectory,
            LaunchError::BrowserNotFound => LaunchErrorView::BrowserNotFound,
            LaunchError::KillFailed(why) => LaunchErrorView::KillFailed(why@),
            LaunchError::SpawnFailed(why) => LaunchErrorView::SpawnFailed(why@),
            LaunchError::DebugPortTimeout(secs) => LaunchErrorView::DebugPortTimeout(*secs),
            LaunchError::OutOfTurn => LaunchErrorView::OutOfTurn,
        }
    }
}

impl LaunchErrorView {
    /// The message that a person reads.
    pub open spec fn message(self) -> Seq<char> {
        match self {
            LaunchErrorView::NoHomeDirectory => NO_HOME_DIRECTORY@,
            LaunchErrorView::BrowserNotFound => BROWSER_NOT_FOUND@,
            LaunchErrorView::KillFailed(why) => KILL_FAILED@ + why,
            LaunchErrorView::SpawnFailed(why) => SPAWN_FAILED@ + why,
            LaunchErrorView::DebugPortTimeout(secs) => DEBUG_PORT_TIMEOUT_OPEN@ + decimal_digits(
                secs as nat,
            ) + DEBUG_PORT_TIMEOUT_CLOSE@,
            LaunchErrorView::OutOfTurn => OUT_OF_TURN@,
        }
    }
}

impl LaunchError {
    /// The message that a person reads.
    pub fn message(&self) -> (m: String)
        ensures
            m@ == self@.message(),
    {
        match self {
            LaunchError::NoHomeDirectory => String::from_str(NO_HOME_DIRECTORY),
            LaunchError::BrowserNotFound => String::from_str(BROWSER_NOT_FOUND),
            LaunchError::KillFailed(why) => concat2(KILL_FAILED, why.as_str()),
            LaunchError::SpawnFailed(why) => concat2(SPAWN_FAILED, why.as_str()),
            LaunchError::DebugPortTimeout(secs) => {
                let mut m = String::from_str(DEBUG_PORT_TIMEOUT_OPEN);
                m.append(string_of(&decimal_of_u64(*secs as u64)).as_str());
                m.append(DEBUG_PORT_TIMEOUT_CLOSE);
                m
            },
            LaunchError::OutOfTurn => String::from_str(OUT_OF_TURN),
        }
    }

    /// A copy of the error.
    pub fn duplicate(&self) -> (r: LaunchError)
        ensures
            r@ == self@,
    {
        match self {
            LaunchError::NoHomeDirectory => LaunchError::NoHomeDirectory,
            LaunchError::BrowserNotFound => LaunchError::BrowserNotFound,
            LaunchError::KillFailed(why) => LaunchError::KillFailed(why.clone()),
            LaunchError::SpawnFailed(why) => LaunchError::SpawnFailed(why.clone()),
            LaunchError::DebugPortTimeout(secs) => LaunchError::DebugPortTimeout(*secs),
            LaunchError::OutOfTurn => LaunchError::OutOfTurn,
        }
    }
}

} // verus!
