//! One attempt as the transport sees it: the answer of the server, the chunks
//! of the body, and the end of the stream. A `Transfer` counts what was
//! written, tells the progress after each chunk, and judges how the attempt
//! ended.

use vstd::prelude::*;
use crate::error::{status_is_success, ErrorKind};

verus! {

/// How the request was answered.
#[derive(Clone, Copy, Debug, PartialEq, Eq)]
pub enum Response {
    /// No connection could be made, or it was reset before an answer came.
    ConnectFailed,
    /// No answer came in time.
    TimedOut,
    /// The server answered with the status `code`; `declared_len` is the
    /// length of the body where the server named one.
    Status { code: u16, declared_len: Option<u64> },
}

/// How the stream of the body ended.
#[derive(Clone, Copy, Debug, PartialEq, Eq)]
pub enum StreamEnd {
    /// The server closed the stream in order.
    Complete,
    /// The connection broke.
    Reset,
    /// No further chunk came in time.
    TimedOut,
}

impl Response {
    /// The failure that this answer amounts to, if it is one.
    pub open spec fn failure(self) -> Option<ErrorKind> {
        match self {
            Response::ConnectFailed => Some(ErrorKind::NetworkError),
            Response::TimedOut => Some(ErrorKind::NetworkError),
            Response::Status { code, .. } => if status_is_success(code) {
                None
            } else {
                Some(ErrorKind::ProtocolError { status: code })
            },
        }
    }

    /// The length of the body that the server declared, if any.
    pub open spec fn declared_len(self) -> Option<u64> {
        match self {
            Response::Status { declared_len, .. } => declared_len,
            _ => None,
        }
    }
}

/// What a progress sink is told after a chunk.
#[derive(Debug, PartialEq, Eq)]
pub struct ProgressEvent {
    /// The token of the job.
    pub job_id: u64,
    /// The bytes written in this attempt so far.
    pub bytes_transferred: u64,
    /// The length that the server declared, if any.
    pub total_bytes: Option<u64>,
    /// The label of the transfer.
    pub message: String,
}

/// An attempt in progress, as a mathematical value.
pub struct TransferState {
    pub job_id: u64,
    pub label: Seq<char>,
    pub total: Option<u64>,
    pub transferred: nat,
}

impl TransferState {
    /// The state after a chunk of `len` bytes was written.
    pub open spec fn advanced(self, len: u64) -> TransferState {
        TransferState { transferred: (self.transferred + len) as nat, ..self }
    }

    /// How the attempt ends if the stream ends with `end` in this state: a
    /// broken stream is a network error, a complete one counts as success
    /// only if it brought the declared number of bytes.
    pub open spec fn verdict(self, end: StreamEnd) -> Result<u64, ErrorKind> {
        match end {
            StreamEnd::Reset => Err(ErrorKind::NetworkError),
            StreamEnd::TimedOut => Err(ErrorKind::NetworkError),
            StreamEnd::Complete => match self.total {
                Some(total) if total != self.transferred => Err(ErrorKind::TruncatedTransfer),
                _ => Ok(self.transferred as u64),
            },
        }
    }

    /// Whether `event` tells the progress of this state.
    pub open spec fn told_by(self, event: ProgressEvent) -> bool {
        &&& event.job_id == self.job_id
        &&& event.bytes_transferred == self.transferred
        &&& event.total_bytes == self.total
        &&& event.message@ == self.label
    }
}

/// The counters of one attempt.
#[derive(Debug)]
pub struct Transfer {
    job_id: u64,
    label: String,
    total: Option<u64>,
    transferred: u64,
}

impl View for Transfer {
    type V = TransferState;

    closed spec fn view(&self) -> TransferState {
        TransferState {
            job_id: self.job_id,
            label: self.label@,
            total: self.total,
            transferred: self.transferred as nat,
        }
    }
}

impl Transfer {
    /// Starts the attempt of job `job_id` on the answer of the server. An
    /// answer that is a failure ends the attempt here; any other opens a
    /// transfer with nothing written yet.
    pub fn open(job_id: u64, label: &str, response: Response) -> (r: Result<Transfer, ErrorKind>)
        ensures
            match r {
                Ok(t) => response.failure() is None && t@ == (TransferState {
                    job_id,
                    label: label@,
                    total: response.declared_len(),
                    transferred: 0,
                }),
                Err(kind) => response.failure() == Some(kind),
            },
    {
        match response {
            Response::ConnectFailed => Err(ErrorKind::NetworkError),
            Response::TimedOut => Err(ErrorKind::NetworkError),
            Response::Status { code, declared_len } => {
                if 200 <= code && code <= 299 {
                    Ok(Transfer { job_id, label: label.to_owned(), total: declared_len, transferred: 0 })
                } else {
                    Err(ErrorKind::ProtocolError { status: code })
                }
            },
        }
    }

    /// The bytes written so far.
    pub fn bytes_transferred(&self) -> (n: u64)
        ensures
            n == self@.transferred,
    {
        self.transferred
    }

    /// The length that the server declared, if any.
    pub fn total_bytes(&self) -> (total: Option<u64>)
        ensures
            total == self@.total,
    {
        self.total
    }

    /// The progress as it stands.
    pub fn event(&self) -> (e: ProgressEvent)
        ensures
            self@.told_by(e),
    {
        ProgressEvent {
            job_id: self.job_id,
            bytes_transferred: self.transferred,
            total_bytes: self.total,
            message: self.label.clone(),
        }
    }

    /// Takes note of a chunk of `len` bytes. `cancelled` tells that the run
    /// was cancelled before the chunk was handled, `written` that the sink
    /// took the chunk whole. A cancelled run ends the attempt as cancelled and
    /// a refused chunk as a filesystem error, both with the count unchanged;
    /// otherwise the count grows by `len` and the answer tells the progress.
    pub fn chunk(&mut self, len: u64, written: bool, cancelled: bool) -> (r: Result<
        ProgressEvent,
        ErrorKind,
    >)
        requires
            old(self)@.transferred + len <= u64::MAX,
        ensures
            match r {
                Ok(e) => !cancelled && written && final(self)@ == old(self)@.advanced(len)
                    && final(self)@.told_by(e),
                Err(kind) => final(self)@ == old(self)@ && kind == (if cancelled {
                    ErrorKind::Cancelled
                } else {
                    ErrorKind::FilesystemError
                }) && (cancelled || !written),
            },
    {
        if cancelled {
            Err(ErrorKind::Cancelled)
        } else if !written {
            Err(ErrorKind::FilesystemError)
        } else {
            self.transferred = self.transferred + len;
            Ok(self.event())
        }
    }

    /// Like [`Transfer::chunk`], for a caller that cannot know whether the
    /// count still fits: a chunk that would take the count beyond `u64::MAX`
    /// is answered with `None`, and changes nothing.
    pub fn try_chunk(&mut self, len: u64, written: bool, cancelled: bool) -> (r: Option<
        Result<ProgressEvent, ErrorKind>,
    >)
        ensures
            r is None <==> old(self)@.transferred + len > u64::MAX,
            r is None ==> final(self)@ == old(self)@,
            r matches Some(Ok(e)) ==> !cancelled && written && final(self)@ == old(
                self,
            )@.advanced(len) && final(self)@.told_by(e),
            r matches Some(Err(kind)) ==> final(self)@ == old(self)@ && kind == (if cancelled {
                ErrorKind::Cancelled
            } else {
                ErrorKind::FilesystemError
            }) && (cancelled || !written),
    {
        if len > u64::MAX - self.transferred {
            None
        } else {
            Some(self.chunk(len, written, cancelled))
        }
    }

    /// Judges the attempt when the stream has ended with `end`: the number of
    /// bytes written, or the kind of the failure.
    pub fn finish(&self, end: StreamEnd) -> (r: Result<u64, ErrorKind>)
        ensures
            r == self@.verdict(end),
    {
        match end {
            StreamEnd::Reset => Err(ErrorKind::NetworkError),
            StreamEnd::TimedOut => Err(ErrorKind::NetworkError),
            StreamEnd::Complete => match self.total {
                Some(total) => {
                    if total != self.transferred {
                        Err(ErrorKind::TruncatedTransfer)
                    } else {
                        Ok(self.transferred)
                    }
                },
                None => Ok(self.transferred),
            },
        }
    }
}

/// How an attempt ends of which all that is known is the answer of the
/// server, the number of bytes that were written, and the end of the stream:
/// an answer that is a failure decides; else the end of the stream and the
/// declared length do.
pub open spec fn judged(response: Response, received: u64, end: StreamEnd) -> Result<
    u64,
    ErrorKind,
> {
    match response.failure() {
        Some(kind) => Err(kind),
        None => (TransferState {
            job_id: 0,
            label: Seq::empty(),
            total: response.declared_len(),
            transferred: received as nat,
        }).verdict(end),
    }
}

/// Computes [`judged`].
pub fn judge(response: Response, received: u64, end: StreamEnd) -> (r: Result<u64, ErrorKind>)
    ensures
        r == judged(response, received, end),
{
    match Transfer::open(0, "", response) {
        Err(kind) => Err(kind),
        Ok(mut transfer) => match transfer.chunk(received, true, false) {
            Ok(_) => transfer.finish(end),
            Err(kind) => Err(kind),
        },
    }
}

/// The sum of the lengths of some chunks.
pub open spec fn total_len(chunks: Seq<u64>) -> nat
    decreases chunks.len(),
{
    if chunks.len() == 0 {
        0
    } else {
        total_len(chunks.drop_last()) + chunks.last() as nat
    }
}

/// The state after the chunks of `chunks` were written one after the other.
pub open spec fn after_chunks(start: TransferState, chunks: Seq<u64>) -> TransferState
    decreases chunks.len(),
{
    if chunks.len() == 0 {
        start
    } else {
        after_chunks(start, chunks.drop_last()).advanced(chunks.last())
    }
}

/// The count of a transfer is the sum of the chunks written, neither less nor
/// more, and never shrinks on the way.
pub proof fn count_is_sum_of_chunks(start: TransferState, chunks: Seq<u64>)
    ensures
        after_chunks(start, chunks).transferred == start.transferred + total_len(chunks),
        after_chunks(start, chunks).transferred >= start.transferred,
        after_chunks(start, chunks).total == start.total,
        after_chunks(start, chunks).job_id == start.job_id,
    decreases chunks.len(),
{
    if chunks.len() > 0 {
        count_is_sum_of_chunks(start, chunks.drop_last());
    }
}

/// A transfer that ends in success has written exactly the bytes that the
/// server declared, where it declared a length.
pub proof fn success_matches_declared_length(state: TransferState, end: StreamEnd)
    requires
        state.verdict(end) is Ok,
        state.transferred <= u64::MAX,
    ensures
        end is Complete,
        state.verdict(end) == Ok::<u64, ErrorKind>(state.transferred as u64),
        state.total matches Some(total) ==> state.transferred == total,
{
}

/// A stream that ends in order before the declared length is reached is a
/// truncated transfer.
pub proof fn short_stream_is_truncated(state: TransferState)
    requires
        state.total matches Some(total) && state.transferred < total,
    ensures
        state.verdict(StreamEnd::Complete) == Err::<u64, ErrorKind>(ErrorKind::TruncatedTransfer),
{
}

} // verus!
