//! What can go wrong, and how much it matters.

use vstd::prelude::*;
use vstd::string::*;
use crate::hints::HintsError;

verus! {

/// The classes of failure.
#[derive(Clone, Copy, Debug, PartialEq, Eq, Structural)]
pub enum ErrorKind {
    /// The command line asks for nothing that can be done.
    Config,
    /// The machine lacks what the program needs. Nothing can go on.
    Environment,
    /// The one action asked for did not succeed.
    Action,
}

/// The failures of an invocation.
#[derive(Clone, Copy, Debug, PartialEq, Eq, Structural)]
pub enum Failure {
    InvalidChain,
    NoSubcommand,
    HomeNotFound,
    CreateProjectDir,
    CreateHintsFile,
    ReadHints,
    ParseHints,
    HintsNotObject,
    OpenUrl,
    StartEditor,
}

impl Failure {
    /// The class of this failure.
    pub open spec fn spec_kind(self) -> ErrorKind {
        match self {
            Failure::InvalidChain | Failure::NoSubcommand => ErrorKind::Config,
            Failure::OpenUrl | Failure::StartEditor => ErrorKind::Action,
            _ => ErrorKind::Environment,
        }
    }

    /// The diagnostic of this failure, without a line end. Only the one for
    /// a missing subcommand takes two lines.
    pub open spec fn spec_message(self) -> Seq<char> {
        match self {
            Failure::InvalidChain => "Invalid chain provided."@,
            Failure::NoSubcommand =>
                "No valid subcommand was provided.\nUse --help for more information."@,
            Failure::HomeNotFound => "Home directory not found"@,
            Failure::CreateProjectDir => "Failed to create project directory"@,
            Failure::CreateHintsFile => "Failed to create address hints file"@,
            Failure::ReadHints => "Failed to read address hints file"@,
            Failure::ParseHints => "Failed to parse hints"@,
            Failure::HintsNotObject => "Hints should be an object"@,
            Failure::OpenUrl => "Failed to open the URL"@,
            Failure::StartEditor => "Failed to open address hints file"@,
        }
    }

    /// Returns the class of this failure.
    pub fn kind(&self) -> (kind: ErrorKind)
        ensures
            kind == self.spec_kind(),
    {
        match self {
            Failure::InvalidChain | Failure::NoSubcommand => ErrorKind::Config,
            Failure::OpenUrl | Failure::StartEditor => ErrorKind::Action,
            _ => ErrorKind::Environment,
        }
    }

    /// Whether the process has to stop at once: so it is with the failures of
    /// the environment, and with no others.
    pub fn is_fatal(&self) -> (fatal: bool)
        ensures
            fatal == (self.spec_kind() == ErrorKind::Environment),
    {
        match self.kind() {
            ErrorKind::Environment => true,
            _ => false,
        }
    }

    /// Returns the diagnostic of this failure.
    pub fn message(&self) -> (message: &'static str)
        ensures
            message@ == self.spec_message(),
    {
        match self {
            Failure::InvalidChain => "Invalid chain provided.",
            Failure::NoSubcommand =>
                "No valid subcommand was provided.\nUse --help for more information.",
            Failure::HomeNotFound => "Home directory not found",
            Failure::CreateProjectDir => "Failed to create project directory",
            Failure::CreateHintsFile => "Failed to create address hints file",
            Failure::ReadHints => "Failed to read address hints file",
            Failure::ParseHints => "Failed to parse hints",
            Failure::HintsNotObject => "Hints should be an object",
            Failure::OpenUrl => "Failed to open the URL",
            Failure::StartEditor => "Failed to open address hints file",
        }
    }
}

impl HintsError {
    /// The failure that this error amounts to.
    pub open spec fn spec_failure(self) -> Failure {
        match self {
            HintsError::Malformed(_) => Failure::ParseHints,
            HintsError::NotAnObject => Failure::HintsNotObject,
        }
    }

    /// Returns the failure that this error amounts to. Either one is fatal.
    pub fn failure(&self) -> (failure: Failure)
        ensures
            failure == self.spec_failure(),
            failure.spec_kind() == ErrorKind::Environment,
    {
        match self {
            HintsError::Malformed(_) => Failure::ParseHints,
            HintsError::NotAnObject => Failure::HintsNotObject,
        }
    }
}

} // verus!
