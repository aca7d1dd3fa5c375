//! The errors that the engine hands to its caller.

use vstd::prelude::*;
use vstd::string::*;

verus! {

/// A failure that ends a run, or that a collaborator reports.
#[derive(Debug)]
pub enum ReauthfiError {
    /// An operating-system call failed; the text is the system's.
    Io(String),
    /// What was looked for is not there.
    NotFound,
    /// A command ended without success; the text says how.
    CommandFailed(String),
    /// The platform is not one the engine knows.
    UnsupportedPlatform,
    /// The run could not be set up; the text says why.
    Setup(String),
}

/// The mathematical value of a [`ReauthfiError`].
pub enum ErrorView {
    Io(Seq<char>),
    NotFound,
    CommandFailed(Seq<char>),
    UnsupportedPlatform,
    Setup(Seq<char>),
}

impl View for ReauthfiError {
    type V = ErrorView;

    open spec fn view(&self) -> ErrorView {
        match self {
            ReauthfiError::Io(text) => ErrorView::Io(text@),
            ReauthfiError::NotFound => ErrorView::NotFound,
            ReauthfiError::CommandFailed(text) => ErrorView::CommandFailed(text@),
            ReauthfiError::UnsupportedPlatform => ErrorView::UnsupportedPlatform,
            ReauthfiError::Setup(text) => ErrorView::Setup(text@),
        }
    }
}

impl DeepView for ReauthfiError {
    type V = ErrorView;

    open spec fn deep_view(&self) -> ErrorView {
        self@
    }
}

/// The line that describes an error to the user.
pub open spec fn error_text(error: ErrorView) -> Seq<char> {
    match error {
        ErrorView::Io(text) => "IO error: "@ + text,
        ErrorView::NotFound => "Captive portal not found"@,
        ErrorView::CommandFailed(text) => "Command failed: "@ + text,
        ErrorView::UnsupportedPlatform => "Unsupported platform"@,
        ErrorView::Setup(text) => "Setup error: "@ + text,
    }
}

impl ReauthfiError {
    /// The line that describes this error to the user.
    pub fn message(&self) -> (text: String)
        ensures
            text@ == error_text(self@),
    {
        match self {
            ReauthfiError::Io(detail) => {
                let mut text = String::from_str("IO error: ");
                text.append(detail.as_str());
                text
            },
            ReauthfiError::NotFound => String::from_str("Captive portal not found"),
            ReauthfiError::CommandFailed(detail) => {
                let mut text = String::from_str("Command failed: ");
                text.append(detail.as_str());
                text
            },
            ReauthfiError::UnsupportedPlatform => String::from_str("Unsupported platform"),
            ReauthfiError::Setup(detail) => {
                let mut text = String::from_str("Setup error: ");
                text.append(detail.as_str());
                text
            },
        }
    }
}

} // verus!
