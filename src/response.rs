use vstd::prelude::*;
use crate::event::{Event, Payload};

verus! {

/// How a dispatch failed. Callers tell failures apart only by this field.
#[derive(Clone, Copy, PartialEq, Eq, Structural, Debug)]
pub enum ErrorKind {
    /// No module is registered for the request's event key.
    Routing,
    /// The module could not produce a handler for the request.
    Construction,
    /// The handler reported an error of its own.
    Handler,
    /// The request was submitted before the runtime was constructed.
    RuntimeUnavailable,
    /// The background unit of work was lost before it produced a response.
    ExecutionLoss,
    /// Any other failure inside the dispatcher.
    Internal,
}

/// A classified error carried inside a response.
pub struct DispatchError {
    pub kind: ErrorKind,
    pub message: String,
}

impl View for DispatchError {
    type V = (ErrorKind, Seq<char>);

    open spec fn view(&self) -> (ErrorKind, Seq<char>) {
        (self.kind, self.message@)
    }
}

pub open spec fn routing_message(key: Seq<char>) -> Seq<char> {
    "Can not find the module to handle the event: "@ + key
}

pub open spec fn unavailable_message() -> Seq<char> {
    "Dispatch runtime is not initialized"@
}

pub open spec fn loss_message(reason: Seq<char>) -> Seq<char> {
    "Dispatch join error: "@ + reason
}

pub open spec fn construction_message(module: Seq<char>, reason: Seq<char>) -> Seq<char> {
    module + ": "@ + reason
}

impl DispatchError {
    /// No module handles `event`; the message ends with the event's key.
    pub fn routing(event: &Event) -> (r: DispatchError)
        ensures
            r@ == (ErrorKind::Routing, routing_message(event@)),
    {
        let mut message = String::from_str("Can not find the module to handle the event: ");
        message.append(event.name.as_str());
        DispatchError { kind: ErrorKind::Routing, message }
    }

    pub fn runtime_unavailable() -> (r: DispatchError)
        ensures
            r@ == (ErrorKind::RuntimeUnavailable, unavailable_message()),
    {
        DispatchError {
            kind: ErrorKind::RuntimeUnavailable,
            message: String::from_str("Dispatch runtime is not initialized"),
        }
    }

    /// The unit of work that would have produced the response was lost.
    pub fn execution_loss(reason: &str) -> (r: DispatchError)
        ensures
            r@ == (ErrorKind::ExecutionLoss, loss_message(reason@)),
    {
        let mut message = String::from_str("Dispatch join error: ");
        message.append(reason);
        DispatchError { kind: ErrorKind::ExecutionLoss, message }
    }

    /// The module named `module` failed to produce a handler.
    pub fn construction(module: &str, reason: &str) -> (r: DispatchError)
        ensures
            r@ == (ErrorKind::Construction, construction_message(module@, reason@)),
    {
        let mut message = String::from_str(module);
        message.append(": ");
        message.append(reason);
        DispatchError { kind: ErrorKind::Construction, message }
    }

    /// A handler's own error, embedded as it was reported.
    pub fn handler(content: String) -> (r: DispatchError)
        ensures
            r@ == (ErrorKind::Handler, content@),
    {
        DispatchError { kind: ErrorKind::Handler, message: content }
    }

    pub fn internal(message: String) -> (r: DispatchError)
        ensures
            r@ == (ErrorKind::Internal, message@),
    {
        DispatchError { kind: ErrorKind::Internal, message }
    }

    pub fn duplicate(&self) -> (r: DispatchError)
        ensures
            r@ == self@,
    {
        DispatchError { kind: self.kind, message: self.message.clone() }
    }
}

/// The unified result of a dispatch: a success payload, or a classified error.
pub struct EventResponse {
    pub payload: Payload,
    pub error: Option<DispatchError>,
}

/// A response, mathematically.
pub ghost struct ResponseView {
    pub payload: Option<Seq<u8>>,
    pub error: Option<(ErrorKind, Seq<char>)>,
}

impl View for EventResponse {
    type V = ResponseView;

    open spec fn view(&self) -> ResponseView {
        ResponseView {
            payload: self.payload@,
            error: match self.error {
                Some(e) => Some(e@),
                None => None,
            },
        }
    }
}

pub open spec fn success_view(payload: Option<Seq<u8>>) -> ResponseView {
    ResponseView { payload, error: None }
}

pub open spec fn failure_view(error: (ErrorKind, Seq<char>)) -> ResponseView {
    ResponseView { payload: None, error: Some(error) }
}

impl EventResponse {
    pub fn success(payload: Payload) -> (r: EventResponse)
        ensures
            r@ == success_view(payload@),
    {
        EventResponse { payload, error: None }
    }

    pub fn from_error(error: DispatchError) -> (r: EventResponse)
        ensures
            r@ == failure_view(error@),
    {
        EventResponse { payload: Payload::Empty, error: Some(error) }
    }

    pub fn is_ok(&self) -> (r: bool)
        ensures
            r == (self@.error is None),
    {
        self.error.is_none()
    }

    /// The kind of failure, or none for a success.
    pub fn error_kind(&self) -> (r: Option<ErrorKind>)
        ensures
            r == (match self@.error {
                Some(e) => Some(e.0),
                None => None,
            }),
    {
        match &self.error {
            Some(e) => Some(e.kind),
            None => None,
        }
    }

    /// An equal copy, as handed to a completion callback.
    pub fn duplicate(&self) -> (r: EventResponse)
        ensures
            r@ == self@,
    {
        let error = match &self.error {
            Some(e) => Some(e.duplicate()),
            None => None,
        };
        EventResponse { payload: self.payload.duplicate(), error }
    }
}

} // verus!
