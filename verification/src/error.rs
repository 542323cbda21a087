//! Typed errors and the meaning of native status codes.

use vstd::prelude::*;

verus! {

/// What can go wrong in a playback session.
#[derive(Clone, Copy, Debug, PartialEq, Eq)]
pub enum Error {
    /// A native operation returned this nonzero status.
    Status(i32),
    /// The source path could not be resolved (`None`), or opening the file
    /// reported the given status.
    File(Option<i32>),
    /// A failure for which the native layer gave no status code.
    Unspecified,
    /// Releasing the graph failed. The session has no state to resume from:
    /// the caller must treat this as fatal.
    Teardown(Option<i32>),
}

impl Error {
    /// The native status code that the error carries, if it carries one.
    pub open spec fn spec_os_status(&self) -> Option<i32> {
        match *self {
            Error::Status(code) => Some(code),
            Error::File(code) => code,
            Error::Unspecified => None,
            Error::Teardown(code) => code,
        }
    }

    /// Whether the error ends the process rather than the session.
    pub open spec fn spec_is_fatal(&self) -> bool {
        self is Teardown
    }

    /// Zero is success; any other status is kept in `Error::Status`.
    pub fn from_os_status(os_status: i32) -> (result: Result<(), Error>)
        ensures
            result == status_outcome(os_status),
    {
        if os_status == 0 {
            Ok(())
        } else {
            Err(Error::Status(os_status))
        }
    }

    /// The outcome of opening the source file, given whether its path was
    /// resolved and, if it was, the status of the open call.
    pub fn from_open_attempt(resolved: bool, open_status: i32) -> (result: Result<(), Error>)
        ensures
            result == open_outcome(resolved, open_status),
    {
        if !resolved {
            Err(Error::File(None))
        } else if open_status == 0 {
            Ok(())
        } else {
            Err(Error::File(Some(open_status)))
        }
    }

    /// The error to report when a step of the release sequence failed with
    /// `cause`: a teardown failure that keeps the cause's status code.
    pub fn during_teardown(cause: Error) -> (error: Error)
        ensures
            error == Error::Teardown(cause.spec_os_status()),
            error.spec_is_fatal(),
    {
        Error::Teardown(cause.os_status())
    }

    #[verifier::when_used_as_spec(spec_os_status)]
    pub fn os_status(&self) -> (code: Option<i32>)
        ensures
            code == self.spec_os_status(),
    {
        match self {
            Error::Status(code) => Some(*code),
            Error::File(code) => *code,
            Error::Unspecified => None,
            Error::Teardown(code) => *code,
        }
    }

    #[verifier::when_used_as_spec(spec_is_fatal)]
    pub fn is_fatal(&self) -> (fatal: bool)
        ensures
            fatal == self.spec_is_fatal(),
    {
        match self {
            Error::Teardown(_) => true,
            _ => false,
        }
    }
}

/// What a native status code means: success on zero, else the code as an error.
pub open spec fn status_outcome(os_status: i32) -> Result<(), Error> {
    if os_status == 0 {
        Ok(())
    } else {
        Err(Error::Status(os_status))
    }
}

/// What an attempt to open the source means. The open call is only made on a
/// resolved path, so its status counts only then.
pub open spec fn open_outcome(resolved: bool, open_status: i32) -> Result<(), Error> {
    if !resolved {
        Err(Error::File(None))
    } else if open_status == 0 {
        Ok(())
    } else {
        Err(Error::File(Some(open_status)))
    }
}

} // verus!
