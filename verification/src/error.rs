use crate::input::ClipboardError;
use vstd::prelude::*;

verus! {

/// Why a URL or path could not be opened.
#[derive(Clone, Debug, PartialEq, Eq)]
pub enum OpenUrlError {
    /// The opener could not be started; the host's words on why.
    IoError(String),
    /// The opener ran and reported failure. `code` is its exit code, if it
    /// ended with one.
    ProcessError { code: Option<i32> },
}

/// How an attempt to open a URL or path went.
#[derive(Clone, Debug, PartialEq, Eq)]
pub enum OpenAttempt {
    /// The opener could not be started; the host's words on why.
    LaunchFailed(String),
    /// The opener ran to its end.
    Exited { success: bool, code: Option<i32> },
}

/// Everything that can go wrong in the bridge, one variant for each of the
/// three places where it can. `H` is the error of the host framework.
#[derive(Debug)]
pub enum Error<H> {
    /// The host framework failed, as when no texture or mesh could be made.
    /// Its error is handed on as it came.
    TetraError(H),
    /// A URL or path, clicked in the GUI, could not be opened.
    OpenUrlError(OpenUrlError),
    /// The clipboard of the host could not be used.
    ClipboardError(ClipboardError),
}

/// What an attempt to open a URL amounts to: a failure to start the opener
/// and a failing opener are both errors, and nothing else is.
pub open spec fn open_outcome(attempt: OpenAttempt) -> Result<(), OpenUrlError> {
    match attempt {
        OpenAttempt::LaunchFailed(why) => Err(OpenUrlError::IoError(why)),
        OpenAttempt::Exited { success, code } => if success {
            Ok(())
        } else {
            Err(OpenUrlError::ProcessError { code })
        },
    }
}

/// Judges an attempt to open a URL. No failure is passed over in silence, so
/// that a dead link shows.
pub fn open_url_outcome(attempt: OpenAttempt) -> (outcome: Result<(), OpenUrlError>)
    ensures
        outcome == open_outcome(attempt),
{
    match attempt {
        OpenAttempt::LaunchFailed(why) => Err(OpenUrlError::IoError(why)),
        OpenAttempt::Exited { success, code } => {
            if success {
                Ok(())
            } else {
                Err(OpenUrlError::ProcessError { code })
            }
        },
    }
}

impl<H> Error<H> {
    /// The error for a failure of the host framework.
    pub fn from_host(error: H) -> (e: Self)
        ensures
            e == Error::TetraError(error),
    {
        Error::TetraError(error)
    }

    /// The error for a URL that could not be opened.
    pub fn from_open_url(error: OpenUrlError) -> (e: Self)
        ensures
            e == Error::<H>::OpenUrlError(error),
    {
        Error::OpenUrlError(error)
    }

    /// The error for a clipboard that could not be used.
    pub fn from_clipboard(error: ClipboardError) -> (e: Self)
        ensures
            e == Error::<H>::ClipboardError(error),
    {
        Error::ClipboardError(error)
    }
}

} // verus!
