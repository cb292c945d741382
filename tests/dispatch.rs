use flowy_dispatch::dispatch::{EventDispatch, HandlerOutcome, Step};
use flowy_dispatch::event::{Event, Payload};
use flowy_dispatch::registry::{module_info, Module, ModuleMap};
use flowy_dispatch::request::DispatchRequest;
use flowy_dispatch::response::{DispatchError, ErrorKind, EventResponse};
use std::collections::HashSet;
use std::sync::{Arc, Mutex};

type Callback = Box<dyn FnOnce(EventResponse) + Send>;

fn event(name: &str) -> Event {
    Event::new(name.to_string())
}

fn module(name: &str, events: &[&str]) -> Module {
    Module { name: name.to_string(), events: events.iter().map(|e| event(e)).collect() }
}

fn bytes(p: &Payload) -> Option<Vec<u8>> {
    match p {
        Payload::Empty => None,
        Payload::Bytes(b) => Some(b.clone()),
    }
}

fn summary(r: &EventResponse) -> (Option<Vec<u8>>, Option<(ErrorKind, String)>) {
    (bytes(&r.payload), r.error.as_ref().map(|e| (e.kind, e.message.clone())))
}

fn constructed(modules: Vec<Module>) -> EventDispatch {
    let mut d = EventDispatch::new();
    d.construct(modules);
    d
}

/// Runs a request to its end, with `handler` standing for every module's handler.
fn run<F>(d: &EventDispatch, request: DispatchRequest<Callback>, handler: F) -> EventResponse
where
    F: Fn(usize, &flowy_dispatch::request::ModuleRequest) -> HandlerOutcome,
{
    let mut step = d.dispatch(request);
    loop {
        step = match step {
            Step::Invoke { module, request, callback } => {
                let outcome = handler(module, &request);
                d.handled(module, outcome, callback)
            },
            Step::Notify { notify, copy, response } => {
                notify(copy);
                return response;
            },
            Step::Complete { response } => return response,
        }
    }
}

fn echo(_: usize, r: &flowy_dispatch::request::ModuleRequest) -> HandlerOutcome {
    HandlerOutcome::Handled { result: Ok(r.payload.duplicate()) }
}

#[test]
fn lookup_finds_registered_modules() {
    let map = ModuleMap::build(vec![module("user", &["sign_in", "sign_up"]), module("doc", &["open"])]);
    assert_eq!(map.lookup(&event("sign_in")), Some(0));
    assert_eq!(map.lookup(&event("sign_up")), Some(0));
    assert_eq!(map.lookup(&event("open")), Some(1));
    assert_eq!(map.lookup(&event("close")), None);
    assert_eq!(map.lookup(&event("close")), None);
    assert_eq!(map.lookup(&event("open")), Some(1));
    assert_eq!(map.len(), 2);
    assert_eq!(map.module(1).name, "doc");
}

#[test]
fn lookup_last_registration_wins() {
    let map = ModuleMap::build(vec![
        module("a", &["x", "y"]),
        module("b", &["x"]),
        module("c", &["z"]),
    ]);
    assert_eq!(map.lookup(&event("x")), Some(1));
    assert_eq!(map.lookup(&event("y")), Some(0));
}

#[test]
fn lookup_in_empty_registry() {
    let map = ModuleMap::build(vec![]);
    assert_eq!(map.lookup(&event("")), None);
}

#[test]
fn submit_before_construct_is_runtime_unavailable() {
    let d = EventDispatch::new();
    assert!(!d.is_constructed());
    let r = run(&d, DispatchRequest::new(event("sign_in")), echo);
    assert_eq!(r.error_kind(), Some(ErrorKind::RuntimeUnavailable));
    assert_eq!(r.error.unwrap().message, "Dispatch runtime is not initialized");
}

#[test]
fn unregistered_key_is_routing_failure_citing_key() {
    let d = constructed(vec![module("user", &["sign_in"])]);
    let r = run(&d, DispatchRequest::new(event("no_such_event")), echo);
    assert_eq!(r.error_kind(), Some(ErrorKind::Routing));
    let msg = r.error.unwrap().message;
    assert!(msg.contains("no_such_event"));
    assert_eq!(msg, "Can not find the module to handle the event: no_such_event");
}

#[test]
fn handler_success_returns_payload() {
    let d = constructed(vec![module("user", &["sign_in"])]);
    let req = DispatchRequest::<Callback>::new(event("sign_in")).payload(Payload::Bytes(vec![1, 2, 3]));
    let r = run(&d, req, echo);
    assert!(r.is_ok());
    assert_eq!(bytes(&r.payload), Some(vec![1, 2, 3]));
}

#[test]
fn handler_error_is_embedded() {
    let d = constructed(vec![module("user", &["sign_in"])]);
    let r = run(&d, DispatchRequest::new(event("sign_in")), |_, _| HandlerOutcome::Handled {
        result: Err("password incorrect".to_string()),
    });
    assert!(!r.is_ok());
    assert_eq!(r.error_kind(), Some(ErrorKind::Handler));
    assert_eq!(r.error.unwrap().message, "password incorrect");
}

#[test]
fn construction_failure_cites_module() {
    let d = constructed(vec![module("user", &["sign_in"])]);
    let r = run(&d, DispatchRequest::new(event("sign_in")), |_, _| {
        HandlerOutcome::ConstructionFailed { reason: "no database".to_string() }
    });
    assert_eq!(r.error_kind(), Some(ErrorKind::Construction));
    assert_eq!(r.error.unwrap().message, "user: no database");
}

#[test]
fn callback_receives_equal_response_once() {
    let d = constructed(vec![module("user", &["sign_in"])]);
    let seen: Arc<Mutex<Vec<EventResponse>>> = Arc::new(Mutex::new(vec![]));
    let sink = seen.clone();
    let cb: Callback = Box::new(move |r| sink.lock().unwrap().push(r));
    let req = DispatchRequest::new(event("sign_in")).payload(Payload::Bytes(vec![9])).callback(cb);
    let r = run(&d, req, echo);
    let seen = seen.lock().unwrap();
    assert_eq!(seen.len(), 1);
    assert_eq!(summary(&seen[0]), summary(&r));
}

#[test]
fn callback_receives_routing_failure_too() {
    let d = constructed(vec![]);
    let count = Arc::new(Mutex::new(0usize));
    let c = count.clone();
    let cb: Callback = Box::new(move |r| {
        assert_eq!(r.error_kind(), Some(ErrorKind::Routing));
        *c.lock().unwrap() += 1;
    });
    let r = run(&d, DispatchRequest::new(event("open")).callback(cb), echo);
    assert_eq!(r.error_kind(), Some(ErrorKind::Routing));
    assert_eq!(*count.lock().unwrap(), 1);
}

#[test]
fn request_builder_and_parts() {
    let req = DispatchRequest::<Callback>::new(event("open")).payload(Payload::Bytes(vec![7]));
    assert_eq!(req.id.len(), 36);
    let id = req.id.clone();
    let (m, cb) = req.into_parts();
    assert!(cb.is_none());
    assert_eq!(m.id, id);
    assert_eq!(m.event.name, "open");
    assert_eq!(bytes(&m.payload), Some(vec![7]));
}

#[test]
fn execution_loss_and_internal_errors() {
    let r = EventResponse::from_error(DispatchError::execution_loss("task panicked"));
    assert_eq!(r.error_kind(), Some(ErrorKind::ExecutionLoss));
    assert_eq!(r.error.as_ref().unwrap().message, "Dispatch join error: task panicked");
    let r = EventResponse::from_error(DispatchError::internal("broken".to_string()));
    assert_eq!(summary(&r), (None, Some((ErrorKind::Internal, "broken".to_string()))));
    assert_eq!(summary(&r.duplicate()), summary(&r));
}

#[test]
fn blocking_and_awaited_paths_agree() {
    let d = Arc::new(constructed(vec![module("user", &["sign_in"]), module("doc", &["open"])]));
    for name in ["sign_in", "open", "missing"] {
        let req = DispatchRequest::<Callback>::new(event(name)).payload(Payload::Bytes(vec![4, 2]));
        let blocking = futures::executor::block_on(async { run(&d, req, echo) });
        let rt = tokio::runtime::Builder::new_multi_thread().build().unwrap();
        let d2 = d.clone();
        let awaited = rt
            .block_on(rt.spawn(async move {
                let req = DispatchRequest::<Callback>::new(event(name)).payload(Payload::Bytes(vec![4, 2]));
                run(&d2, req, echo)
            }))
            .unwrap();
        assert_eq!(summary(&blocking), summary(&awaited));
    }
}

#[test]
fn thousand_concurrent_requests_are_independent() {
    let names: Vec<String> = (0..1000).map(|i| format!("event_{}", i)).collect();
    let modules: Vec<Module> = names.iter().map(|n| module(n, &[n.as_str()])).collect();
    let d = Arc::new(constructed(modules));
    let recorded: Arc<Mutex<Vec<(usize, String)>>> = Arc::new(Mutex::new(vec![]));
    let rt = tokio::runtime::Builder::new_multi_thread().build().unwrap();
    let mut handles = vec![];
    for (i, name) in names.iter().enumerate() {
        let d = d.clone();
        let rec = recorded.clone();
        let name = name.clone();
        handles.push(rt.spawn(async move {
            let req = DispatchRequest::<Callback>::new(event(&name))
                .payload(Payload::Bytes((i as u32).to_le_bytes().to_vec()));
            let id = req.id.clone();
            let r = run(&d, req, |m, r| {
                rec.lock().unwrap().push((m, r.id.clone()));
                echo(m, r)
            });
            (i, id, r)
        }));
    }
    let mut ids = HashSet::new();
    for h in handles {
        let (i, id, r) = rt.block_on(h).unwrap();
        assert!(r.is_ok());
        assert_eq!(bytes(&r.payload), Some((i as u32).to_le_bytes().to_vec()));
        assert!(ids.insert(id));
    }
    let recorded = recorded.lock().unwrap();
    assert_eq!(recorded.len(), 1000);
    let seen: HashSet<&String> = recorded.iter().map(|(_, id)| id).collect();
    assert_eq!(seen.len(), 1000);
    assert!(recorded.iter().all(|(_, id)| ids.contains(id)));
    let modules_seen: HashSet<usize> = recorded.iter().map(|(m, _)| *m).collect();
    assert_eq!(modules_seen.len(), 1000);
}

#[test]
fn module_info_lists_modules() {
    let info = module_info(&vec![module("user", &["sign_in"]), module("doc", &[])]);
    assert_eq!(info, "2 modules loaded\n-> user loaded \n-> doc loaded \n");
    assert_eq!(module_info(&vec![]), "0 modules loaded\n");
    let many: Vec<Module> = (0..12).map(|i| module(&format!("m{}", i), &[])).collect();
    assert!(module_info(&many).starts_with("12 modules loaded\n-> m0 loaded \n"));
}
