//! One submission of a request: pending until the transport engine is done,
//! then resolved for good.
//!
//! The library makes the decisions and the caller does the work: a pending
//! submission names the request to perform, and the caller reports how it
//! ended.
use crate::entry::{header_views, Header};
use crate::error::{RequestError, TransportError};
use crate::request::{Request, WireRequest, WireView};
use crate::response::{Response, ResponseView};
use vstd::prelude::*;

verus! {

/// How the transport engine ended an exchange.
#[derive(Debug, PartialEq, Eq)]
pub enum TransportEvent {
    /// The exchange is complete: a status, the headers in the order in which
    /// they came, and the whole body.
    Completed { status: u32, headers: Vec<Header>, body: Vec<u8> },
    /// The exchange failed.
    Failed(TransportError),
}

/// A transport event as plain values.
pub enum EventView {
    Completed { status: u32, headers: Seq<(Seq<char>, Seq<char>)>, body: Seq<u8> },
    Failed(TransportError),
}

impl View for TransportEvent {
    type V = EventView;

    open spec fn view(&self) -> EventView {
        match self {
            TransportEvent::Completed { status, headers, body } => EventView::Completed {
                status: *status,
                headers: header_views(headers@),
                body: body@,
            },
            TransportEvent::Failed(e) => EventView::Failed(*e),
        }
    }
}

impl EventView {
    /// What a pending submission resolves to on this event: the decoded
    /// response, or the failure of the transport.
    pub open spec fn outcome(self) -> Result<ResponseView, RequestError> {
        match self {
            EventView::Completed { status, headers, body } => Ok(
                ResponseView { status, headers, body },
            ),
            EventView::Failed(e) => Err(RequestError::Transport(e)),
        }
    }
}

/// The state of a submission.
#[derive(Debug, PartialEq, Eq)]
pub enum Submission {
    /// The request is in the hands of the transport engine.
    Pending(WireRequest),
    /// The submission has its outcome, which no longer changes.
    Resolved(Result<Response, RequestError>),
}

/// The state of a submission as plain values.
pub enum SubmissionView {
    Pending(WireView),
    Resolved(Result<ResponseView, RequestError>),
}

impl View for Submission {
    type V = SubmissionView;

    open spec fn view(&self) -> SubmissionView {
        match self {
            Submission::Pending(wire) => SubmissionView::Pending(wire@),
            Submission::Resolved(Ok(response)) => SubmissionView::Resolved(Ok(response@)),
            Submission::Resolved(Err(e)) => SubmissionView::Resolved(Err(*e)),
        }
    }
}

impl SubmissionView {
    /// The state after an event: a pending submission takes the event's
    /// outcome, a resolved one stays as it is.
    pub open spec fn after(self, event: EventView) -> SubmissionView {
        match self {
            SubmissionView::Pending(_) => SubmissionView::Resolved(event.outcome()),
            SubmissionView::Resolved(_) => self,
        }
    }
}

/// The first outcome is final: once an event has been taken in, a further
/// event changes nothing.
pub proof fn lemma_first_outcome_is_final(s: SubmissionView, first: EventView, second: EventView)
    ensures
        s.after(first) is Resolved,
        s.after(first).after(second) == s.after(first),
{
}

/// A failure of the transport resolves a pending submission to that
/// failure, never to a response.
pub proof fn lemma_failure_is_no_response(wire: WireView, e: TransportError)
    ensures
        SubmissionView::Pending(wire).after(EventView::Failed(e)) == SubmissionView::Resolved(
            Err(RequestError::Transport(e)),
        ),
{
}

/// A completed exchange resolves a pending submission to a response with
/// the status, headers and body that were delivered.
pub proof fn lemma_completion_is_the_response(
    wire: WireView,
    status: u32,
    headers: Seq<(Seq<char>, Seq<char>)>,
    body: Seq<u8>,
)
    ensures
        SubmissionView::Pending(wire).after(EventView::Completed { status, headers, body })
            == SubmissionView::Resolved(Ok(ResponseView { status, headers, body })),
{
}

/// A request whose body could not be encoded is never pending: its
/// submission starts out resolved to the build error, and stays so.
pub proof fn lemma_build_error_skips_transport(r: Request, cause: crate::error::EncodeError, event: EventView)
    requires
        r@.body.failure() == Some(cause),
    ensures
        r.submitted() == SubmissionView::Resolved(Err(RequestError::Build(cause))),
        r.submitted().after(event) == r.submitted(),
{
}

impl Request {
    /// The state in which a submission of this request starts: pending,
    /// with the finalized request; or, where the body cannot be encoded,
    /// resolved to that failure.
    pub open spec fn submitted(self) -> SubmissionView {
        match self@.body.failure() {
            Some(cause) => SubmissionView::Resolved(Err(RequestError::Build(cause))),
            None => SubmissionView::Pending(self@.wire()),
        }
    }

    /// Submits the request, which is used up by it.
    ///
    /// Where the body cannot be encoded the submission is resolved at once
    /// and there is nothing for the transport engine to do.
    pub fn send(self) -> (s: Submission)
        ensures
            s@ == self.submitted(),
    {
        match self.finalize() {
            Ok(wire) => Submission::Pending(wire),
            Err(e) => Submission::Resolved(Err(e)),
        }
    }
}

impl Submission {
    /// The request that the transport engine has to perform, while the
    /// submission is pending.
    pub fn wire(&self) -> (w: Option<&WireRequest>)
        ensures
            match w {
                Some(wire) => self@ == SubmissionView::Pending(wire@),
                None => self@ is Resolved,
            },
    {
        match self {
            Submission::Pending(wire) => Some(wire),
            Submission::Resolved(_) => None,
        }
    }

    /// Tells whether the submission has its outcome.
    pub fn is_resolved(&self) -> (b: bool)
        ensures
            b == (self@ is Resolved),
    {
        match self {
            Submission::Pending(_) => false,
            Submission::Resolved(_) => true,
        }
    }

    /// Takes in how the transport engine ended the exchange.
    ///
    /// A pending submission resolves: to the decoded response where the
    /// exchange completed, to the transport's failure otherwise. A resolved
    /// submission keeps its outcome and the event is dropped.
    pub fn resolve(&mut self, event: TransportEvent)
        ensures
            final(self)@ == old(self)@.after(event@),
            old(self)@ is Resolved ==> *final(self) == *old(self),
    {
        match self {
            Submission::Pending(_) => {
                let outcome = match event {
                    TransportEvent::Completed { status, headers, body } => Ok(
                        Response::decode(status, headers, body),
                    ),
                    TransportEvent::Failed(e) => Err(RequestError::Transport(e)),
                };
                *self = Submission::Resolved(outcome);
            },
            Submission::Resolved(_) => {},
        }
    }

    /// The outcome, once the submission is resolved.
    pub fn outcome(&self) -> (o: Option<&Result<Response, RequestError>>)
        ensures
            match o {
                Some(result) => *self == Submission::Resolved(*result),
                None => self@ is Pending,
            },
    {
        match self {
            Submission::Pending(_) => None,
            Submission::Resolved(result) => Some(result),
        }
    }

    /// Gives the outcome away, once the submission is resolved.
    pub fn into_outcome(self) -> (o: Option<Result<Response, RequestError>>)
        ensures
            match o {
                Some(result) => self == Submission::Resolved(result),
                None => self@ is Pending,
            },
    {
        match self {
            Submission::Pending(_) => None,
            Submission::Resolved(result) => Some(result),
        }
    }
}

} // verus!
