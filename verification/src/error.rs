//! The ways in which one invocation can fail, with the exit status and
//! the diagnostic of each.

use vstd::prelude::*;

verus! {

/// What the command line looks like; shown when it could not be understood.
pub const USAGE: &'static str =
    "usage: <program> install --service <name> --executable <path> --args \"<space-separated args>\"\n       <program> remove --service <name>\n       <program> start --service <name>\n       <program> stop --service <name>\noptions: -s is short for --service, -e for --executable, -a for --args";

/// Why an invocation ended without success. Every failure is final: none
/// is retried and none is recovered from.
#[derive(Debug, PartialEq, Eq)]
pub enum Error {
    /// The command line is not one of the four accepted forms.
    UsageError,
    /// The host has no service manager that can be driven; holds the
    /// reason the detection gave.
    PlatformUnsupported(String),
    /// The service name cannot be turned into a label; holds the name.
    IdentifierParseError(String),
    /// The manager refused or failed to install; holds its reason.
    InstallFailed(String),
    /// The manager refused or failed to uninstall; holds its reason.
    RemoveFailed(String),
    /// The manager refused or failed to start; holds its reason.
    StartFailed(String),
    /// The manager refused or failed to stop; holds its reason.
    StopFailed(String),
}

/// An [`Error`] with its texts as sequences of characters.
pub enum ErrorView {
    UsageError,
    PlatformUnsupported(Seq<char>),
    IdentifierParseError(Seq<char>),
    InstallFailed(Seq<char>),
    RemoveFailed(Seq<char>),
    StartFailed(Seq<char>),
    StopFailed(Seq<char>),
}

impl View for Error {
    type V = ErrorView;

    open spec fn view(&self) -> ErrorView {
        match self {
            Error::UsageError => ErrorView::UsageError,
            Error::PlatformUnsupported(why) => ErrorView::PlatformUnsupported(why@),
            Error::IdentifierParseError(name) => ErrorView::IdentifierParseError(name@),
            Error::InstallFailed(why) => ErrorView::InstallFailed(why@),
            Error::RemoveFailed(why) => ErrorView::RemoveFailed(why@),
            Error::StartFailed(why) => ErrorView::StartFailed(why@),
            Error::StopFailed(why) => ErrorView::StopFailed(why@),
        }
    }
}

impl ErrorView {
    /// The exit status: 2 for a command line that was not understood, 101
    /// for everything that went wrong afterwards.
    pub open spec fn exit_code(self) -> int {
        match self {
            ErrorView::UsageError => 2,
            _ => 101,
        }
    }

    /// The one diagnostic line (for a usage error, the usage text).
    pub open spec fn message(self) -> Seq<char> {
        match self {
            ErrorView::UsageError => USAGE@,
            ErrorView::PlatformUnsupported(why) => "Failed to detect management platform: "@
                + why,
            ErrorView::IdentifierParseError(name) => "Invalid service name: "@ + name,
            ErrorView::InstallFailed(why) => "Failed to install: "@ + why,
            ErrorView::RemoveFailed(why) => "Failed to remove: "@ + why,
            ErrorView::StartFailed(why) => "Failed to start: "@ + why,
            ErrorView::StopFailed(why) => "Failed to stop: "@ + why,
        }
    }
}

/// The status with which an invocation leaves: zero after success, and
/// only then.
pub open spec fn spec_exit_status(outcome: Result<(), ErrorView>) -> int {
    match outcome {
        Ok(_) => 0,
        Err(error) => error.exit_code(),
    }
}

impl Error {
    /// The status with which the process must exit; never zero.
    pub fn exit_code(&self) -> (code: i32)
        ensures
            code == self@.exit_code(),
            code != 0,
    {
        match self {
            Error::UsageError => 2,
            _ => 101,
        }
    }

    /// The diagnostic to print before exiting.
    pub fn message(&self) -> (text: String)
        ensures
            text@ == self@.message(),
    {
        match self {
            Error::UsageError => String::from_str(USAGE),
            Error::PlatformUnsupported(why) => String::from_str(
                "Failed to detect management platform: ",
            ).concat(why.as_str()),
            Error::IdentifierParseError(name) => String::from_str("Invalid service name: ").concat(
                name.as_str(),
            ),
            Error::InstallFailed(why) => String::from_str("Failed to install: ").concat(
                why.as_str(),
            ),
            Error::RemoveFailed(why) => String::from_str("Failed to remove: ").concat(why.as_str()),
            Error::StartFailed(why) => String::from_str("Failed to start: ").concat(why.as_str()),
            Error::StopFailed(why) => String::from_str("Failed to stop: ").concat(why.as_str()),
        }
    }
}

/// The status with which the process must exit: zero after success, and
/// only then.
pub fn exit_status(outcome: &Result<(), Error>) -> (code: i32)
    ensures
        code == spec_exit_status(
            match *outcome {
                Ok(_) => Ok(()),
                Err(error) => Err(error@),
            },
        ),
        code == 0 <==> *outcome is Ok,
{
    match outcome {
        Ok(_) => 0,
        Err(error) => error.exit_code(),
    }
}

impl Clone for Error {
    fn clone(&self) -> (copy: Self)
        ensures
            copy@ == self@,
    {
        match self {
            Error::UsageError => Error::UsageError,
            Error::PlatformUnsupported(why) => Error::PlatformUnsupported(why.clone()),
            Error::IdentifierParseError(name) => Error::IdentifierParseError(name.clone()),
            Error::InstallFailed(why) => Error::InstallFailed(why.clone()),
            Error::RemoveFailed(why) => Error::RemoveFailed(why.clone()),
            Error::StartFailed(why) => Error::StartFailed(why.clone()),
            Error::StopFailed(why) => Error::StopFailed(why.clone()),
        }
    }
}

} // verus!
