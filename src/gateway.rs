//! Turning the outcome of one timed call into the caller's result.
use vstd::prelude::*;
use vstd::string::StringExecFns;
use crate::error::Error;

verus! {

/// Bound on one command sent through the desktop gateway, in milliseconds.
pub const COMMAND_TIMEOUT_MS: u64 = 30000;

/// Bound on one typed storage or ping call, in milliseconds.
pub const SERVICE_CALL_TIMEOUT_MS: u64 = 10000;

/// What became of one call once its timer and the call itself have raced.
#[derive(Debug, Clone, PartialEq, Eq)]
pub enum CallOutcome<T> {
    /// The backend answered with this reply.
    Replied(T),
    /// The backend answered with a failure and this message.
    Rejected(String),
    /// The timer ran out first.
    TimedOut,
    /// The transport failed under the call.
    Lost(String),
    /// The blocking context that ran the call failed to finish.
    JoinFailed(String),
}

/// The result a caller sees for an outcome of operation `op`.
pub open spec fn settled<T>(op: Seq<char>, outcome: CallOutcome<T>, r: Result<T, Error>) -> bool {
    match outcome {
        CallOutcome::Replied(b) => r == Ok::<T, Error>(b),
        CallOutcome::Rejected(m) => r == Err::<T, Error>(Error::RemoteError(m)),
        CallOutcome::TimedOut => match r {
            Err(Error::Timeout(w)) => w@ == op,
            _ => false,
        },
        CallOutcome::Lost(m) => r == Err::<T, Error>(Error::ConnectionLost(m)),
        CallOutcome::JoinFailed(m) => r == Err::<T, Error>(Error::TaskJoinFailure(m)),
    }
}

/// Settles one call of operation `op`: the reply is handed on untouched (reply bytes keep
/// every byte), a remote failure keeps its message, and a timeout is told apart from both.
pub fn settle<T>(op: &str, outcome: CallOutcome<T>) -> (r: Result<T, Error>)
    ensures
        settled(op@, outcome, r),
{
    match outcome {
        CallOutcome::Replied(b) => Ok(b),
        CallOutcome::Rejected(m) => Err(Error::RemoteError(m)),
        CallOutcome::TimedOut => Err(Error::Timeout(String::from_str(op))),
        CallOutcome::Lost(m) => Err(Error::ConnectionLost(m)),
        CallOutcome::JoinFailed(m) => Err(Error::TaskJoinFailure(m)),
    }
}

/// A reply from a backend that answered in time reaches the caller as it was sent, with
/// every byte in place, whatever the bytes are and however many.
pub proof fn lemma_reply_passes_unchanged(op: Seq<char>, reply: Vec<u8>, r: Result<Vec<u8>, Error>)
    requires
        settled(op, CallOutcome::Replied(reply), r),
    ensures
        r is Ok,
        r.unwrap()@ == reply@,
        r.unwrap()@.len() == reply@.len(),
{
}

/// A call that is not answered within its bound is a timeout, never a remote error.
pub proof fn lemma_unanswered_is_timeout<T>(op: Seq<char>, r: Result<T, Error>)
    requires
        settled(op, CallOutcome::<T>::TimedOut, r),
    ensures
        r matches Err(Error::Timeout(_)),
        !(r matches Err(Error::RemoteError(_))),
{
}

/// A failure reported by the backend within the bound is a remote error that carries the
/// backend's message, never a timeout.
pub proof fn lemma_remote_failure_keeps_message<T>(op: Seq<char>, message: String, r: Result<T, Error>)
    requires
        settled(op, CallOutcome::<T>::Rejected(message), r),
    ensures
        r matches Err(Error::RemoteError(m)) && m == message,
        !(r matches Err(Error::Timeout(_))),
{
}

/// Whether a number read from a request body is a byte.
pub open spec fn is_byte(n: Option<u64>) -> bool {
    n matches Some(v) && v < 256
}

/// Reads a request body that arrived as a list of numbers (how some IPC transports send
/// a byte array), where `None` stands for an item that is not an unsigned integer. Every
/// item must be a byte; the bytes keep their order.
pub fn bytes_from_numbers(items: &[Option<u64>]) -> (r: Option<Vec<u8>>)
    ensures
        r is Some <==> forall|i: int| 0 <= i < items@.len() ==> is_byte(#[trigger] items@[i]),
        r matches Some(b) ==> b@.len() == items@.len() && forall|i: int|
            0 <= i < b@.len() ==> Some(#[trigger] b@[i] as u64) == items@[i],
{
    let mut out: Vec<u8> = Vec::new();
    let mut i: usize = 0;
    while i < items.len()
        invariant
            i <= items@.len(),
            out@.len() == i,
            forall|j: int| 0 <= j < i ==> is_byte(#[trigger] items@[j]),
            forall|j: int| 0 <= j < i ==> Some(#[trigger] out@[j] as u64) == items@[j],
        decreases items@.len() - i,
    {
        match items[i] {
            Some(v) => {
                if v < 256 {
                    out.push(v as u8);
                } else {
                    return None;
                }
            },
            None => {
                return None;
            },
        }
        i = i + 1;
    }
    Some(out)
}

} // verus!
