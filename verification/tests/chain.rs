use http_api_service::common::generate_id;
use http_api_service::ident::{decimal_of, IdSource};
use http_api_service::simple_http::{
    run_chain, BaseClient, DispatchError, Interceptor, InterceptorError, InterceptorFunc,
    SimpleHTTP, TransportOutcome, DEFAULT_TIMEOUT_MILLISECOND,
};
use std::collections::VecDeque;
use std::sync::{Arc, Mutex};

type Trail = Vec<String>;
type Step = Arc<dyn Interceptor<Trail>>;

struct Tag {
    id: String,
    fail: bool,
}

impl Interceptor<Trail> for Tag {
    fn get_id(&self) -> String {
        self.id.clone()
    }

    fn intercept(&self, mut request: Trail) -> Result<Trail, InterceptorError> {
        if self.fail {
            Err(InterceptorError { details: format!("{} refused", self.id) })
        } else {
            request.push(self.id.clone());
            Ok(request)
        }
    }
}

fn tag(id: &str) -> Step {
    Arc::new(Tag { id: id.to_string(), fail: false })
}

fn failing(id: &str) -> Step {
    Arc::new(Tag { id: id.to_string(), fail: true })
}

struct Recorder {
    seen: Mutex<Vec<(Trail, u64)>>,
    outcome: fn(&Trail) -> TransportOutcome<Result<String, String>>,
}

impl BaseClient<Trail, Result<String, String>> for Recorder {
    fn request(&self, req: Trail, timeout_millisecond: u64) -> TransportOutcome<Result<String, String>> {
        let outcome = (self.outcome)(&req);
        self.seen.lock().unwrap().push((req, timeout_millisecond));
        outcome
    }
}

fn joined(trail: &Trail) -> TransportOutcome<Result<String, String>> {
    TransportOutcome::Completed(Ok(trail.join(",")))
}

fn silent(_trail: &Trail) -> TransportOutcome<Result<String, String>> {
    TransportOutcome::TimedOut
}

fn broken(_trail: &Trail) -> TransportOutcome<Result<String, String>> {
    TransportOutcome::Completed(Err("connection refused".to_string()))
}

type Dispatcher = SimpleHTTP<Trail, Result<String, String>, Arc<Recorder>, Step>;

fn dispatcher(
    outcome: fn(&Trail) -> TransportOutcome<Result<String, String>>,
    timeout: u64,
) -> (Dispatcher, Arc<Recorder>) {
    let recorder = Arc::new(Recorder { seen: Mutex::new(Vec::new()), outcome });
    (SimpleHTTP::new_with_options(recorder.clone(), VecDeque::new(), timeout), recorder)
}

fn ids(http: &Dispatcher) -> Vec<String> {
    http.interceptors.iter().map(|i| i.get_id()).collect()
}

#[test]
fn front_added_runs_before_those_added_at_the_back() {
    let (mut http, _) = dispatcher(joined, 0);
    http.add_interceptor(tag("a"));
    http.add_interceptor(tag("b"));
    http.add_interceptor_front(tag("c"));
    assert_eq!(ids(&http), vec!["c", "a", "b"]);
    assert_eq!(http.run_interceptors(Vec::new()).unwrap(), vec!["c", "a", "b"]);
}

#[test]
fn run_chain_on_an_empty_chain_returns_the_request() {
    let chain: VecDeque<Step> = VecDeque::new();
    assert_eq!(run_chain(&chain, vec!["x".to_string()]).unwrap(), vec!["x"]);
}

#[test]
fn removal_takes_out_only_the_interceptor_with_that_id() {
    let (mut http, _) = dispatcher(joined, 0);
    http.add_interceptor(tag("a"));
    http.add_interceptor(tag("b"));
    http.add_interceptor(tag("c"));
    http.delete_interceptor(tag("b"));
    assert_eq!(ids(&http), vec!["a", "c"]);
    assert_eq!(http.run_interceptors(Vec::new()).unwrap(), vec!["a", "c"]);
}

#[test]
fn removal_of_an_absent_id_changes_nothing() {
    let (mut http, _) = dispatcher(joined, 0);
    http.add_interceptor(tag("a"));
    http.add_interceptor(tag("b"));
    http.delete_interceptor(tag("z"));
    assert_eq!(ids(&http), vec!["a", "b"]);
}

#[test]
fn removal_takes_the_first_of_two_equal_ids() {
    let (mut http, _) = dispatcher(joined, 0);
    http.add_interceptor(tag("a"));
    http.add_interceptor(failing("dup"));
    http.add_interceptor(tag("dup"));
    http.delete_interceptor(tag("dup"));
    assert_eq!(ids(&http), vec!["a", "dup"]);
    assert_eq!(http.run_interceptors(Vec::new()).unwrap(), vec!["a", "dup"]);
}

#[test]
fn chain_stops_at_the_first_failure() {
    let (mut http, recorder) = dispatcher(joined, 0);
    http.add_interceptor(tag("first"));
    http.add_interceptor(failing("a"));
    http.add_interceptor(tag("b"));
    let error = http.run_interceptors(Vec::new()).unwrap_err();
    assert_eq!(error.details, "a refused");
    match http.request(Vec::new()) {
        Err(DispatchError::Interceptor(e)) => assert_eq!(e.details, "a refused"),
        other => panic!("unexpected: {:?}", other),
    }
    assert!(recorder.seen.lock().unwrap().is_empty());
}

#[test]
fn later_interceptor_never_runs_after_a_failure() {
    let ran = Arc::new(Mutex::new(Vec::<String>::new()));
    let log_a = ran.clone();
    let log_b = ran.clone();
    let mut chain: VecDeque<Arc<dyn Interceptor<Trail>>> = VecDeque::new();
    chain.push_back(Arc::new(InterceptorFunc::new_with_id("a".to_string(), move |_r: Trail| {
        log_a.lock().unwrap().push("a".to_string());
        Err(InterceptorError { details: "a failed".to_string() })
    })));
    chain.push_back(Arc::new(InterceptorFunc::new_with_id("b".to_string(), move |r: Trail| {
        log_b.lock().unwrap().push("b".to_string());
        Ok(r)
    })));
    let error = run_chain(&chain, Vec::new()).unwrap_err();
    assert_eq!(error.details, "a failed");
    assert_eq!(*ran.lock().unwrap(), vec!["a"]);
}

#[test]
fn dispatch_hands_the_intercepted_request_to_the_transport() {
    let (mut http, recorder) = dispatcher(joined, 1500);
    http.add_interceptor(tag("a"));
    http.add_interceptor_front(tag("c"));
    let answer = http.request(vec!["start".to_string()]).unwrap();
    assert_eq!(answer, Ok("start,c,a".to_string()));
    let seen = recorder.seen.lock().unwrap();
    assert_eq!(seen.len(), 1);
    assert_eq!(seen[0].0, vec!["start", "c", "a"]);
    assert_eq!(seen[0].1, 1500);
}

#[test]
fn unset_timeout_falls_back_to_thirty_seconds() {
    assert_eq!(DEFAULT_TIMEOUT_MILLISECOND, 30000);
    let (http, recorder) = dispatcher(joined, 0);
    assert_eq!(http.get_timeout_millisecond(), 30000);
    http.request(Vec::new()).unwrap().unwrap();
    assert_eq!(recorder.seen.lock().unwrap()[0].1, 30000);
    let (configured, _) = dispatcher(joined, 10 * 1000);
    assert_eq!(configured.get_timeout_millisecond(), 10000);
}

#[test]
fn silent_transport_gives_a_timeout_and_no_transport_error() {
    let (http, recorder) = dispatcher(silent, 50);
    match http.request(Vec::new()) {
        Err(DispatchError::Timeout) => {}
        other => panic!("unexpected: {:?}", other),
    }
    assert_eq!(recorder.seen.lock().unwrap()[0].1, 50);
}

#[test]
fn transport_error_is_handed_on_unchanged() {
    let (http, _) = dispatcher(broken, 0);
    assert_eq!(http.request(Vec::new()).unwrap(), Err("connection refused".to_string()));
}

#[test]
fn set_client_replaces_the_transport() {
    let (mut http, first) = dispatcher(broken, 0);
    let second = Arc::new(Recorder { seen: Mutex::new(Vec::new()), outcome: joined });
    http.set_client(second.clone());
    assert_eq!(http.request(vec!["x".to_string()]).unwrap(), Ok("x".to_string()));
    assert!(first.seen.lock().unwrap().is_empty());
    assert_eq!(second.seen.lock().unwrap().len(), 1);
}

#[test]
fn add_interceptor_fn_appends_and_returns_the_interceptor() {
    type Func = Box<dyn Fn(Trail) -> Result<Trail, InterceptorError>>;
    let recorder = Arc::new(Recorder { seen: Mutex::new(Vec::new()), outcome: joined });
    let mut http: SimpleHTTP<Trail, Result<String, String>, Arc<Recorder>, Arc<InterceptorFunc<Trail, Func>>> =
        SimpleHTTP::new_with_options(recorder, VecDeque::new(), 0);
    let one = http.add_interceptor_fn(Box::new(|mut r: Trail| {
        r.push("one".to_string());
        Ok(r)
    }));
    let two = http.add_interceptor_fn(Box::new(|mut r: Trail| {
        r.push("two".to_string());
        Ok(r)
    }));
    assert_eq!(http.interceptors.len(), 2);
    assert_ne!(one.get_id(), two.get_id());
    assert_eq!(http.interceptors[0].get_id(), one.get_id());
    assert_eq!(http.interceptors[1].get_id(), two.get_id());
    assert_eq!(http.request(Vec::new()).unwrap(), Ok("one,two".to_string()));
    assert_eq!(one.intercept(Vec::new()).unwrap(), vec!["one"]);
}

#[test]
fn interceptor_func_keeps_the_id_it_was_given() {
    let i = InterceptorFunc::new_with_id("fixed".to_string(), |r: Trail| Ok(r));
    assert_eq!(i.get_id(), "fixed");
    assert_eq!(i.get_id(), "fixed");
    let mut ids = IdSource::with_base("t".to_string());
    let generated = InterceptorFunc::new(&mut ids, |r: Trail| Ok(r));
    assert_eq!(generated.get_id(), "t-0");
    assert_eq!(generated.get_id(), generated.get_id());
    let shared = Arc::new(generated);
    assert_eq!(shared.clone().get_id(), shared.get_id());
}

#[test]
fn identifiers_of_one_source_differ() {
    let mut ids = IdSource::with_base("base".to_string());
    let mut seen = std::collections::HashSet::new();
    for n in 0..1200u64 {
        let id = ids.next_id();
        assert_eq!(id, format!("base-{}", n));
        assert!(seen.insert(id));
    }
    let mut clocked = IdSource::new();
    let first = InterceptorFunc::new(&mut clocked, |r: Trail| Ok(r));
    let second = InterceptorFunc::new(&mut clocked, |r: Trail| Ok(r));
    let third = InterceptorFunc::new(&mut clocked, |r: Trail| Ok(r));
    assert_ne!(first.get_id(), second.get_id());
    assert_ne!(second.get_id(), third.get_id());
    assert_ne!(first.get_id(), third.get_id());
    assert!(first.get_id().ends_with("-0"));
    assert!(third.get_id().ends_with("-2"));
    assert_eq!(decimal_of(0), vec!['0']);
    assert_eq!(decimal_of(9), vec!['9']);
    assert_eq!(decimal_of(10), vec!['1', '0']);
    assert_eq!(decimal_of(u64::MAX).into_iter().collect::<String>(), u64::MAX.to_string());
}

#[test]
fn generated_ids_are_not_empty() {
    assert!(!generate_id().is_empty());
}
