use vstd::prelude::*;
use vstd::string::*;

use crate::host::{
    describe_errno, display_errno, display_io_error, errno_description, errno_display,
};

verus! {

/// Everything that can go wrong while configuring or launching a container.
#[derive(Debug, PartialEq, Eq)]
#[non_exhaustive]
pub enum CartonError {
    /// A value without which a container cannot run was never given; the
    /// payload names it.
    MissingRequiredConfiguration(String),
    /// A value was given but cannot be used.
    InvalidConfiguration(String),
    /// The container was asked to run while its child is still alive.
    AlreadyRunning,
    /// The kernel refused an operation.
    SysCallFailed(String),
    /// Namespace setup failed for a reason other than a refused system call.
    NamespaceError(String),
    /// The host filesystem could not be inspected.
    IOError(String),
}

/// A [`CartonError`] with its texts as sequences of characters.
pub enum ErrorView {
    MissingRequiredConfiguration(Seq<char>),
    InvalidConfiguration(Seq<char>),
    AlreadyRunning,
    SysCallFailed(Seq<char>),
    NamespaceError(Seq<char>),
    IOError(Seq<char>),
}

impl ErrorView {
    /// The line shown to a user for this error.
    pub open spec fn message(self) -> Seq<char> {
        match self {
            ErrorView::MissingRequiredConfiguration(name) => {
                "missing a required configuration value: `"@ + name + "`"@
            },
            ErrorView::InvalidConfiguration(reason) => "invalid configuration: "@ + reason,
            ErrorView::AlreadyRunning => "container already running"@,
            ErrorView::SysCallFailed(reason) => "syscall failed: "@ + reason,
            ErrorView::NamespaceError(reason) => "namespace error: "@ + reason,
            ErrorView::IOError(reason) => "I/O error: "@ + reason,
        }
    }
}

impl View for CartonError {
    type V = ErrorView;

    open spec fn view(&self) -> ErrorView {
        match self {
            CartonError::MissingRequiredConfiguration(name) => {
                ErrorView::MissingRequiredConfiguration(name@)
            },
            CartonError::InvalidConfiguration(reason) => ErrorView::InvalidConfiguration(reason@),
            CartonError::AlreadyRunning => ErrorView::AlreadyRunning,
            CartonError::SysCallFailed(reason) => ErrorView::SysCallFailed(reason@),
            CartonError::NamespaceError(reason) => ErrorView::NamespaceError(reason@),
            CartonError::IOError(reason) => ErrorView::IOError(reason@),
        }
    }
}

impl Clone for CartonError {
    fn clone(&self) -> (copy: CartonError)
        ensures
            copy@ == self@,
    {
        match self {
            CartonError::MissingRequiredConfiguration(name) => {
                CartonError::MissingRequiredConfiguration(name.clone())
            },
            CartonError::InvalidConfiguration(reason) => {
                CartonError::InvalidConfiguration(reason.clone())
            },
            CartonError::AlreadyRunning => CartonError::AlreadyRunning,
            CartonError::SysCallFailed(reason) => CartonError::SysCallFailed(reason.clone()),
            CartonError::NamespaceError(reason) => CartonError::NamespaceError(reason.clone()),
            CartonError::IOError(reason) => CartonError::IOError(reason.clone()),
        }
    }
}

impl From<std::io::Error> for CartonError {
    /// An error of the host's filesystem, reported with the text that the
    /// error shows for itself.
    fn from(error: std::io::Error) -> (converted: CartonError)
        ensures
            converted is IOError,
    {
        CartonError::IOError(display_io_error(&error))
    }
}

/// The text of an I/O error is up to the error, so the conversion has no
/// counterpart in specifications: all that is known of it is the variant.
impl vstd::std_specs::convert::FromSpecImpl<std::io::Error> for CartonError {
    open spec fn obeys_from_spec() -> bool {
        false
    }

    open spec fn from_spec(error: std::io::Error) -> CartonError {
        arbitrary()
    }
}

/// The outcome of a check, with the error, if any, as its view.
pub open spec fn outcome(result: Result<(), CartonError>) -> Result<(), ErrorView> {
    match result {
        Ok(()) => Ok(()),
        Err(error) => Err(error@),
    }
}

/// What a failed system call is reported as: the kernel's description of the
/// errno, followed in parentheses by the errno's name and description.
pub open spec fn syscall_failure_text(errno: i32) -> Seq<char> {
    errno_description(errno) + " ("@ + errno_display(errno) + ")"@
}

impl CartonError {
    /// The error for a system call that failed with the given errno.
    pub fn from_errno(errno: i32) -> (error: CartonError)
        ensures
            error@ == ErrorView::SysCallFailed(syscall_failure_text(errno)),
    {
        let mut text = describe_errno(errno);
        text.append(" (");
        text.append(display_errno(errno).as_str());
        text.append(")");
        CartonError::SysCallFailed(text)
    }

    /// The line shown to a user for this error.
    pub fn message(&self) -> (text: String)
        ensures
            text@ == self@.message(),
    {
        match self {
            CartonError::MissingRequiredConfiguration(name) => {
                let mut text = String::from_str("missing a required configuration value: `");
                text.append(name.as_str());
                text.append("`");
                text
            },
            CartonError::InvalidConfiguration(reason) => {
                String::from_str("invalid configuration: ").concat(reason.as_str())
            },
            CartonError::AlreadyRunning => String::from_str("container already running"),
            CartonError::SysCallFailed(reason) => {
                String::from_str("syscall failed: ").concat(reason.as_str())
            },
            CartonError::NamespaceError(reason) => {
                String::from_str("namespace error: ").concat(reason.as_str())
            },
            CartonError::IOError(reason) => String::from_str("I/O error: ").concat(reason.as_str()),
        }
    }
}

} // verus!
