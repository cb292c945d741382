use vstd::prelude::*;
use crate::event::{Event, Payload};

verus! {

/// Relies on uuid's `Uuid::new_v4` and its `Display`, the hyphenated form of
/// 36 characters, for an identifier that is random and so unique per request.
#[verifier::external_body]
fn fresh_request_id() -> (r: String)
    ensures
        r@.len() == 36,
{
    uuid::Uuid::new_v4().to_string()
}

/// A command envelope: a unique id, the event key that routes it, its payload,
/// and an optional completion callback of the caller's type `C`.
pub struct DispatchRequest<C> {
    pub id: String,
    pub event: Event,
    pub payload: Payload,
    pub callback: Option<C>,
}

/// What a handler receives: the request without its callback.
pub struct ModuleRequest {
    pub id: String,
    pub event: Event,
    pub payload: Payload,
}

impl ModuleRequest {
    pub fn new(event: Event, id: String, payload: Payload) -> (r: ModuleRequest)
        ensures
            r.id@ == id@,
            r.event@ == event@,
            r.payload@ == payload@,
    {
        ModuleRequest { id, event, payload }
    }
}

impl<C> DispatchRequest<C> {
    /// A request for `event` with a fresh id, no payload and no callback.
    pub fn new(event: Event) -> (r: DispatchRequest<C>)
        ensures
            r.id@.len() == 36,
            r.event@ == event@,
            r.payload@ is None,
            r.callback is None,
    {
        DispatchRequest { id: fresh_request_id(), event, payload: Payload::Empty, callback: None }
    }

    pub fn payload(self, payload: Payload) -> (r: DispatchRequest<C>)
        ensures
            r.id@ == self.id@,
            r.event@ == self.event@,
            r.payload@ == payload@,
            r.callback == self.callback,
    {
        DispatchRequest { payload, ..self }
    }

    pub fn callback(self, callback: C) -> (r: DispatchRequest<C>)
        ensures
            r.id@ == self.id@,
            r.event@ == self.event@,
            r.payload@ == self.payload@,
            r.callback == Some(callback),
    {
        DispatchRequest { callback: Some(callback), ..self }
    }

    /// Detaches the callback from what the handler receives.
    pub fn into_parts(self) -> (r: (ModuleRequest, Option<C>))
        ensures
            r.0.id@ == self.id@,
            r.0.event@ == self.event@,
            r.0.payload@ == self.payload@,
            r.1 == self.callback,
    {
        let DispatchRequest { id, event, payload, callback } = self;
        (ModuleRequest::new(event, id, payload), callback)
    }
}

} // verus!
