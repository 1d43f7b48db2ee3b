//! The kinds of failure that an attempt or a job can end with.

use vstd::prelude::*;

verus! {

/// Why an attempt, or a whole job, failed.
#[derive(Clone, Copy, PartialEq, Eq, Debug, Structural)]
pub enum ErrorKind {
    /// The connection was refused or reset, or timed out.
    NetworkError,
    /// The server answered with a status outside the success class.
    ProtocolError { status: u16 },
    /// The stream delivered another number of bytes than the server declared.
    TruncatedTransfer,
    /// The destination could not be created or written.
    FilesystemError,
    /// The run was cancelled from outside.
    Cancelled,
}

/// True for the statuses of the success class, 200 to 299.
pub open spec fn status_is_success(status: u16) -> bool {
    200 <= status <= 299
}

/// True for the statuses of the server-error class, 500 to 599.
pub open spec fn status_is_transient(status: u16) -> bool {
    500 <= status <= 599
}

impl ErrorKind {
    /// Whether a failure of this kind may go away by itself, so that another
    /// attempt is worth making.
    pub open spec fn retryable(self) -> bool {
        match self {
            ErrorKind::NetworkError => true,
            ErrorKind::ProtocolError { status } => status_is_transient(status),
            ErrorKind::TruncatedTransfer => true,
            ErrorKind::FilesystemError => false,
            ErrorKind::Cancelled => false,
        }
    }

    /// Computes [`ErrorKind::retryable`].
    pub fn is_retryable(&self) -> (r: bool)
        ensures
            r == self.retryable(),
    {
        match self {
            ErrorKind::NetworkError => true,
            ErrorKind::ProtocolError { status } => 500 <= *status && *status <= 599,
            ErrorKind::TruncatedTransfer => true,
            ErrorKind::FilesystemError => false,
            ErrorKind::Cancelled => false,
        }
    }

    /// The name of the kind, as it is shown to the user.
    pub open spec fn name(self) -> Seq<char> {
        match self {
            ErrorKind::NetworkError => "network error"@,
            ErrorKind::ProtocolError { .. } => "protocol error"@,
            ErrorKind::TruncatedTransfer => "truncated transfer"@,
            ErrorKind::FilesystemError => "filesystem error"@,
            ErrorKind::Cancelled => "cancelled"@,
        }
    }

    /// Returns [`ErrorKind::name`] as a string slice.
    pub fn as_str(&self) -> (s: &'static str)
        ensures
            s@ == self.name(),
    {
        match self {
            ErrorKind::NetworkError => "network error",
            ErrorKind::ProtocolError { .. } => "protocol error",
            ErrorKind::TruncatedTransfer => "truncated transfer",
            ErrorKind::FilesystemError => "filesystem error",
            ErrorKind::Cancelled => "cancelled",
        }
    }
}

/// A server error is worth another attempt, any other refused status is not.
pub proof fn protocol_error_retryable_iff_transient(status: u16)
    ensures
        (ErrorKind::ProtocolError { status }).retryable() <==> 500 <= status <= 599,
{
}

} // verus!
