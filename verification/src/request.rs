//! Request and response over a mailbox: a payload travels with the sending
//! end of a single-use reply channel, and the caller waits on the other end.

use vstd::prelude::*;
use crate::addr::SendError;
use tokio::sync::oneshot::{Receiver, Sender};

verus! {

/// A payload together with the channel on which its answer is expected.
#[verifier::reject_recursive_types(Res)]
pub struct Request<Req, Res> {
    payload: Req,
    reply_to: Sender<Res>,
}

impl<Req, Res> Request<Req, Res> {
    /// The payload that the request carries.
    pub closed spec fn payload(&self) -> Req {
        self.payload
    }

    /// The sender on which the answer is to be given.
    pub closed spec fn reply_to(&self) -> Sender<Res> {
        self.reply_to
    }

    /// A request that carries `payload`, and the receiving end of its fresh
    /// reply channel, which stays with the caller.
    pub fn new(payload: Req) -> (pair: (Self, Receiver<Res>))
        ensures
            pair.0.payload() == payload,
    {
        let (reply_to, receiver) = tokio::sync::oneshot::channel();
        (Request { payload, reply_to }, receiver)
    }

    /// Takes the request apart for answering, given whether its caller is
    /// still `listening`: the payload and the reply sender if so, nothing
    /// if the caller has given up.
    pub fn open(self, listening: bool) -> (parts: Option<(Req, Sender<Res>)>)
        ensures
            parts == if listening {
                Some((self.payload(), self.reply_to()))
            } else {
                None
            },
    {
        if listening {
            Some((self.payload, self.reply_to))
        } else {
            None
        }
    }

    /// The payload and the reply sender, unless the caller has stopped
    /// listening for the answer, as it does when its wait timed out.
    pub fn handle(self) -> (parts: Option<(Req, Sender<Res>)>)
        ensures
            parts matches Some(found) ==> found.0 == self.payload() && found.1 == self.reply_to(),
    {
        let listening = !self.reply_to.is_closed();
        self.open(listening)
    }
}

/// Why a request brought no answer.
#[derive(Clone, Copy, Debug, PartialEq, Eq, Structural)]
pub enum RequestError {
    /// The request could not be sent: the actor's mailbox is gone.
    ActorStopped,
    /// The reply channel was dropped without an answer.
    SenderDropped,
}

/// Why a request with a time limit brought no answer.
#[derive(Clone, Copy, Debug, PartialEq, Eq, Structural)]
pub enum RequestTimeoutError {
    /// The request could not be sent: the actor's mailbox is gone.
    ActorStopped,
    /// The reply channel was dropped without an answer.
    SenderDropped,
    /// The time limit passed before an answer or a drop was seen.
    Timeout,
}

/// The text that describes a [`RequestError`].
pub open spec fn request_error_text(error: RequestError) -> Seq<char> {
    match error {
        RequestError::ActorStopped => "the actor was stopped before the request could be sent"@,
        RequestError::SenderDropped => "sender was dropped before responding to the request"@,
    }
}

/// The text that describes a [`RequestTimeoutError`].
pub open spec fn request_timeout_error_text(error: RequestTimeoutError) -> Seq<char> {
    match error {
        RequestTimeoutError::ActorStopped =>
            "the actor was stopped before the request could be sent"@,
        RequestTimeoutError::SenderDropped =>
            "sender was dropped before responding to the request"@,
        RequestTimeoutError::Timeout => "timeout waiting for response"@,
    }
}

impl RequestError {
    /// A description of the error for people to read.
    pub fn message(&self) -> (text: String)
        ensures
            text@ == request_error_text(*self),
    {
        match self {
            RequestError::ActorStopped =>
                "the actor was stopped before the request could be sent".to_owned(),
            RequestError::SenderDropped =>
                "sender was dropped before responding to the request".to_owned(),
        }
    }
}

impl RequestTimeoutError {
    /// A description of the error for people to read.
    pub fn message(&self) -> (text: String)
        ensures
            text@ == request_timeout_error_text(*self),
    {
        match self {
            RequestTimeoutError::ActorStopped =>
                "the actor was stopped before the request could be sent".to_owned(),
            RequestTimeoutError::SenderDropped =>
                "sender was dropped before responding to the request".to_owned(),
            RequestTimeoutError::Timeout => "timeout waiting for response".to_owned(),
        }
    }
}

/// What the caller of a request with a time limit saw on its reply channel.
#[derive(Debug, PartialEq, Eq)]
pub enum Awaited<Res> {
    /// The responder's answer.
    Answer(Res),
    /// The reply sender was dropped without an answer.
    Dropped,
    /// The time limit passed first.
    Elapsed,
}

/// The first half of a request: whether the send of it went through.
pub fn request_sent(sent: Result<(), SendError>) -> (gone: Result<(), RequestError>)
    ensures
        gone == match sent {
            Ok(_) => Ok::<(), RequestError>(()),
            Err(_) => Err::<(), RequestError>(RequestError::ActorStopped),
        },
{
    match sent {
        Ok(()) => Ok(()),
        Err(_) => Err(RequestError::ActorStopped),
    }
}

/// The second half of a request: `reply` is the answer that arrived on the
/// reply channel, or `None` if its sender was dropped. An answer is handed
/// on exactly as the responder gave it.
pub fn request_answered<Res>(reply: Option<Res>) -> (answer: Result<Res, RequestError>)
    ensures
        answer == match reply {
            Some(value) => Ok::<Res, RequestError>(value),
            None => Err::<Res, RequestError>(RequestError::SenderDropped),
        },
{
    match reply {
        Some(value) => Ok(value),
        None => Err(RequestError::SenderDropped),
    }
}

/// The first half of a request with a time limit.
pub fn timed_request_sent(sent: Result<(), SendError>) -> (gone: Result<(), RequestTimeoutError>)
    ensures
        gone == match sent {
            Ok(_) => Ok::<(), RequestTimeoutError>(()),
            Err(_) => Err::<(), RequestTimeoutError>(RequestTimeoutError::ActorStopped),
        },
{
    match sent {
        Ok(()) => Ok(()),
        Err(_) => Err(RequestTimeoutError::ActorStopped),
    }
}

/// The second half of a request with a time limit, from what the caller
/// saw before it stopped waiting.
pub fn timed_request_answered<Res>(seen: Awaited<Res>) -> (answer: Result<
    Res,
    RequestTimeoutError,
>)
    ensures
        answer == match seen {
            Awaited::Answer(value) => Ok::<Res, RequestTimeoutError>(value),
            Awaited::Dropped => Err::<Res, RequestTimeoutError>(
                RequestTimeoutError::SenderDropped,
            ),
            Awaited::Elapsed => Err::<Res, RequestTimeoutError>(RequestTimeoutError::Timeout),
        },
{
    match seen {
        Awaited::Answer(value) => Ok(value),
        Awaited::Dropped => Err(RequestTimeoutError::SenderDropped),
        Awaited::Elapsed => Err(RequestTimeoutError::Timeout),
    }
}

} // verus!
