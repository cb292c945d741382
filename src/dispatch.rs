use vstd::prelude::*;
use crate::event::Payload;
use crate::registry::{last_registrant, lemma_last_registrant, Module, ModuleMap, ModuleView};
use crate::request::{DispatchRequest, ModuleRequest};
use crate::response::{
    construction_message, failure_view, routing_message, success_view, unavailable_message,
    DispatchError, ErrorKind, EventResponse, ResponseView,
};

verus! {

/// What became of a request once its module was asked for a handler.
pub enum HandlerOutcome {
    /// The module could not produce a handler.
    ConstructionFailed { reason: String },
    /// The handler ran and returned a payload or an error of its own.
    Handled { result: Result<Payload, String> },
}

/// The response that an outcome of the module named `module` turns into.
pub open spec fn outcome_response(module: Seq<char>, outcome: HandlerOutcome) -> ResponseView {
    match outcome {
        HandlerOutcome::ConstructionFailed { reason } => failure_view(
            (ErrorKind::Construction, construction_message(module, reason@)),
        ),
        HandlerOutcome::Handled { result } => match result {
            Ok(p) => success_view(p@),
            Err(content) => failure_view((ErrorKind::Handler, content@)),
        },
    }
}

/// The response of a request that never reaches a handler, if it does not:
/// before construction, or when no module handles its key.
pub open spec fn early_response(state: Option<Seq<ModuleView>>, key: Seq<char>) -> Option<
    ResponseView,
> {
    match state {
        None => Some(failure_view((ErrorKind::RuntimeUnavailable, unavailable_message()))),
        Some(mods) => match last_registrant(mods, key) {
            None => Some(failure_view((ErrorKind::Routing, routing_message(key)))),
            Some(_) => None,
        },
    }
}

/// The next thing to do for one request.
pub enum Step<C> {
    /// Ask the module at this position for a handler and run it on `request`;
    /// then report the outcome with `EventDispatch::handled`.
    Invoke { module: usize, request: ModuleRequest, callback: Option<C> },
    /// Run the callback on `copy`, wait for it, then return `response`.
    Notify { notify: C, copy: EventResponse, response: EventResponse },
    /// Return `response`.
    Complete { response: EventResponse },
}

/// The response a finished step hands back to the caller.
pub open spec fn answered<C>(step: Step<C>) -> Option<ResponseView> {
    match step {
        Step::Invoke { .. } => None,
        Step::Notify { response, .. } => Some(response@),
        Step::Complete { response } => Some(response@),
    }
}

/// The response a finished step hands to the callback.
pub open spec fn notified<C>(step: Step<C>) -> Option<ResponseView> {
    match step {
        Step::Notify { copy, .. } => Some(copy@),
        _ => None,
    }
}

/// `step` ends the request with `response`, through `callback` when there is one.
pub open spec fn delivers<C>(step: Step<C>, response: ResponseView, callback: Option<C>) -> bool {
    match callback {
        Some(cb) => match step {
            Step::Notify { notify: c, copy, response: r } => c == cb && copy@ == response
                && r@ == response,
            _ => false,
        },
        None => match step {
            Step::Complete { response: r } => r@ == response,
            _ => false,
        },
    }
}

/// Ends a request with `response`: through the callback first, if there is one.
pub fn finish<C>(response: EventResponse, callback: Option<C>) -> (r: Step<C>)
    ensures
        delivers(r, response@, callback),
{
    match callback {
        Some(cb) => {
            let copy = response.duplicate();
            Step::Notify { notify: cb, copy, response }
        },
        None => Step::Complete { response },
    }
}

/// The response of an outcome: handler errors are embedded, never raised.
pub fn resolve(module: &Module, outcome: HandlerOutcome) -> (r: EventResponse)
    ensures
        r@ == outcome_response(module@.name, outcome),
{
    match outcome {
        HandlerOutcome::ConstructionFailed { reason } => EventResponse::from_error(
            DispatchError::construction(module.name.as_str(), reason.as_str()),
        ),
        HandlerOutcome::Handled { result } => match result {
            Ok(p) => EventResponse::success(p),
            Err(content) => EventResponse::from_error(DispatchError::handler(content)),
        },
    }
}

/// The dispatch runtime's routing state: unconstructed, or holding the frozen
/// module registry.
pub struct EventDispatch {
    module_map: Option<ModuleMap>,
}

impl View for EventDispatch {
    type V = Option<Seq<ModuleView>>;

    closed spec fn view(&self) -> Option<Seq<ModuleView>> {
        match self.module_map {
            Some(m) => Some(m@),
            None => None,
        }
    }
}

impl EventDispatch {
    /// A runtime that has not been constructed yet.
    pub fn new() -> (r: EventDispatch)
        ensures
            r@ is None,
    {
        EventDispatch { module_map: None }
    }

    /// Builds the registry from the full module list.
    pub fn construct(&mut self, modules: Vec<Module>)
        ensures
            final(self)@ == Some(modules@.map_values(|m: Module| m@)),
    {
        self.module_map = Some(ModuleMap::build(modules));
    }

    pub fn is_constructed(&self) -> (r: bool)
        ensures
            r == (self@ is Some),
    {
        self.module_map.is_some()
    }

    /// The registered module at position `i`.
    pub fn module(&self, i: usize) -> (r: &Module)
        requires
            self@ matches Some(mods) && i < mods.len(),
        ensures
            r@ == self@->Some_0[i as int],
    {
        self.module_map.as_ref().unwrap().module(i)
    }

    /// The first step of a request: it is answered at once before construction
    /// or when no module handles its key, and routed to the key's module
    /// otherwise.
    pub fn dispatch<C>(&self, request: DispatchRequest<C>) -> (r: Step<C>)
        ensures
            match early_response(self@, request.event@) {
                Some(resp) => delivers(r, resp, request.callback),
                None => match r {
                    Step::Invoke { module, request: req, callback } => {
                        &&& Some(module as int) == last_registrant(self@->Some_0, request.event@)
                        &&& module < self@->Some_0.len()
                        &&& req.id@ == request.id@
                        &&& req.event@ == request.event@
                        &&& req.payload@ == request.payload@
                        &&& callback == request.callback
                    },
                    _ => false,
                },
            },
    {
        let (req, callback) = request.into_parts();
        match &self.module_map {
            None => finish(EventResponse::from_error(DispatchError::runtime_unavailable()), callback),
            Some(map) => match map.lookup(&req.event) {
                None => finish(EventResponse::from_error(DispatchError::routing(&req.event)), callback),
                Some(i) => {
                    proof {
                        lemma_last_registrant(map@, req.event@);
                    }
                    Step::Invoke { module: i, request: req, callback }
                },
            },
        }
    }

    /// The step after the module at position `module` reported `outcome`.
    pub fn handled<C>(&self, module: usize, outcome: HandlerOutcome, callback: Option<C>) -> (r:
        Step<C>)
        requires
            self@ matches Some(mods) && module < mods.len(),
        ensures
            delivers(r, outcome_response(self@->Some_0[module as int].name, outcome), callback),
    {
        let m = self.module(module);
        finish(resolve(m, outcome), callback)
    }
}

/// Whether `key` occurs in `message`.
pub open spec fn cites(message: Seq<char>, key: Seq<char>) -> bool {
    exists|i: int|
        0 <= i && i + key.len() <= message.len() && #[trigger] message.subrange(i, i + key.len())
            == key
}

/// Every request ends in exactly one response, and a callback, when there is
/// one, receives a response equal to the one returned to the caller.
pub proof fn lemma_one_response<C>(step: Step<C>, response: ResponseView, callback: Option<C>)
    requires
        delivers(step, response, callback),
    ensures
        answered(step) == Some(response),
        notified(step) == (if callback is Some {
            Some(response)
        } else {
            None
        }),
{
}

/// A request whose key no module registered is answered with a routing failure
/// whose message holds the key.
pub proof fn lemma_unrouted_key_cited(mods: Seq<ModuleView>, key: Seq<char>)
    requires
        last_registrant(mods, key) is None,
    ensures
        early_response(Some(mods), key) == Some(
            failure_view((ErrorKind::Routing, routing_message(key))),
        ),
        cites(routing_message(key), key),
{
    let prefix = "Can not find the module to handle the event: "@;
    let m = routing_message(key);
    assert(m.subrange(prefix.len() as int, (prefix.len() + key.len()) as int) =~= key);
}

/// A request submitted before construction is answered with a
/// runtime-unavailable failure, whatever its key.
pub proof fn lemma_unconstructed_refuses(key: Seq<char>)
    ensures
        early_response(None, key) == Some(
            failure_view((ErrorKind::RuntimeUnavailable, unavailable_message())),
        ),
{
}

/// The error a handler reports comes back unchanged inside the response.
pub proof fn lemma_handler_error_embedded(module: Seq<char>, content: String)
    ensures
        outcome_response(module, HandlerOutcome::Handled { result: Err(content) }).error == Some(
            (ErrorKind::Handler, content@),
        ),
{
}

} // verus!
