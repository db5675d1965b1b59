use std::sync::atomic::{AtomicUsize, Ordering};
use std::sync::{Arc, Mutex};

use mediator_core::handler::{CommandHandler, QueryHandler};
use mediator_core::hello::{
    ByQuery, GetHelloHandler, GetHelloResult, GetHelloUseCase, HelloCommand, HelloQuery,
    HelloRepository,
};
use mediator_core::mediator::erase::{ErasedCommand, ErasedQuery};
use mediator_core::mediator::errors::MediatorError;
use mediator_core::mediator::registry::Mediator;
use mediator_core::message::Message;

/// Answers a greeting query with a greeting for the name it carries.
struct Greeter;

impl QueryHandler<HelloQuery, GetHelloResult> for Greeter {
    fn execute(&self, query: HelloQuery) -> GetHelloResult {
        GetHelloResult { name: format!("hello, {}", query.name) }
    }
}

/// Answers a farewell query.
struct Waver;

impl QueryHandler<ByQuery, GetHelloResult> for Waver {
    fn execute(&self, query: ByQuery) -> GetHelloResult {
        GetHelloResult { name: format!("bye, {}", query.name) }
    }
}

/// Counts the commands it carries out and remembers the last name.
struct Counter {
    calls: Arc<AtomicUsize>,
    last: Arc<Mutex<Option<String>>>,
}

type Calls = Arc<AtomicUsize>;
type Last = Arc<Mutex<Option<String>>>;

impl Counter {
    fn new() -> (Counter, Calls, Last) {
        let calls = Arc::new(AtomicUsize::new(0));
        let last = Arc::new(Mutex::new(None));
        (Counter { calls: calls.clone(), last: last.clone() }, calls, last)
    }
}

impl CommandHandler<HelloCommand> for Counter {
    fn execute(&self, command: HelloCommand) {
        self.calls.fetch_add(1, Ordering::SeqCst);
        *self.last.lock().unwrap() = Some(command.name);
    }
}

fn count(calls: &Calls) -> usize {
    calls.load(Ordering::SeqCst)
}

fn last_name(last: &Last) -> Option<String> {
    last.lock().unwrap().clone()
}

fn hello(name: &str) -> HelloQuery {
    HelloQuery { name: name.to_string() }
}

fn greet(name: &str) -> HelloCommand {
    HelloCommand { name: name.to_string() }
}

#[test]
fn query_returns_the_greeting_of_the_registered_handler() {
    let mut m = Mediator::new();
    m.register_query::<HelloQuery, GetHelloResult, Greeter>(Greeter);
    let r = m.query::<HelloQuery, GetHelloResult>(hello("Ada"));
    assert_eq!(r, Ok(GetHelloResult { name: "hello, Ada".to_string() }));
}

#[test]
fn query_returns_what_the_repository_holds() {
    let mut m = Mediator::new();
    m.register_query::<HelloQuery, GetHelloResult, GetHelloHandler>(GetHelloHandler::new(
        HelloRepository,
    ));
    let r = m.query::<HelloQuery, GetHelloResult>(hello("Ada"));
    assert_eq!(r, Ok(GetHelloResult { name: "hello world".to_string() }));
}

#[test]
fn send_of_an_unregistered_command_is_handler_not_found() {
    let m = Mediator::new();
    let r = m.send(greet("Ada"));
    assert_eq!(r, Err(MediatorError::HandlerNotFound("HelloCommand".to_string())));
}

#[test]
fn query_of_an_unregistered_type_is_handler_not_found() {
    let mut m = Mediator::new();
    m.register_query::<HelloQuery, GetHelloResult, Greeter>(Greeter);
    let r = m.query::<ByQuery, GetHelloResult>(ByQuery { name: "Ada".to_string() });
    assert_eq!(r, Err(MediatorError::HandlerNotFound("ByQuery".to_string())));
}

#[test]
fn a_command_handler_does_not_answer_queries() {
    let (counter, calls, _) = Counter::new();
    let mut m = Mediator::new();
    m.register_command::<HelloCommand, Counter>(counter);
    let r = m.query::<HelloQuery, GetHelloResult>(hello("Ada"));
    assert_eq!(r, Err(MediatorError::HandlerNotFound("HelloQuery".to_string())));
    assert_eq!(count(&calls), 0);
}

#[test]
fn query_with_the_wrong_result_type_is_result_type_mismatch() {
    let mut m = Mediator::new();
    m.register_query::<HelloQuery, GetHelloResult, Greeter>(Greeter);
    let r = m.query::<HelloQuery, ByQuery>(hello("Ada"));
    assert_eq!(r, Err(MediatorError::ResultTypeMismatch("HelloQuery".to_string())));
    // The right type still works afterwards.
    let r = m.query::<HelloQuery, GetHelloResult>(hello("Ada"));
    assert_eq!(r, Ok(GetHelloResult { name: "hello, Ada".to_string() }));
}

#[test]
fn send_invokes_the_registered_handler_once_per_call() {
    let (counter, calls, last) = Counter::new();
    let mut m = Mediator::new();
    m.register_command::<HelloCommand, Counter>(counter);
    assert_eq!(m.send(greet("Ada")), Ok(()));
    assert_eq!(count(&calls), 1);
    assert_eq!(m.send(greet("Grace")), Ok(()));
    assert_eq!(count(&calls), 2);
    assert_eq!(last_name(&last), Some("Grace".to_string()));
}

#[test]
fn reregistering_a_command_handler_replaces_the_first() {
    let (first, first_calls, _) = Counter::new();
    let (second, second_calls, second_last) = Counter::new();
    let mut m = Mediator::new();
    m.register_command::<HelloCommand, Counter>(first);
    m.register_command::<HelloCommand, Counter>(second);
    assert_eq!(m.send(greet("Ada")), Ok(()));
    assert_eq!(count(&first_calls), 0);
    assert_eq!(count(&second_calls), 1);
    assert_eq!(last_name(&second_last), Some("Ada".to_string()));
}

#[test]
fn reregistering_a_query_handler_replaces_the_first() {
    let mut m = Mediator::new();
    m.register_query::<HelloQuery, GetHelloResult, Greeter>(Greeter);
    m.register_query::<HelloQuery, GetHelloResult, GetHelloUseCase>(GetHelloUseCase::new(
        HelloRepository,
    ));
    let r = m.query::<HelloQuery, GetHelloResult>(hello("Ada"));
    assert_eq!(r, Ok(GetHelloResult { name: "hello world".to_string() }));
}

#[test]
fn distinct_request_types_reach_their_own_handlers() {
    let (counter, calls, _) = Counter::new();
    let mut m = Mediator::new();
    m.register_query::<HelloQuery, GetHelloResult, Greeter>(Greeter);
    m.register_query::<ByQuery, GetHelloResult, Waver>(Waver);
    m.register_command::<HelloCommand, Counter>(counter);
    for name in ["Ada", "Grace", "Edsger"] {
        let by = m.query::<ByQuery, GetHelloResult>(ByQuery { name: name.to_string() });
        assert_eq!(by, Ok(GetHelloResult { name: format!("bye, {}", name) }));
        assert_eq!(m.send(greet(name)), Ok(()));
        let hi = m.query::<HelloQuery, GetHelloResult>(hello(name));
        assert_eq!(hi, Ok(GetHelloResult { name: format!("hello, {}", name) }));
    }
    assert_eq!(count(&calls), 3);
}

#[test]
fn erased_request_is_restored_only_as_its_own_type() {
    let e = hello("Ada").erase();
    assert_eq!(e.type_key, "HelloQuery");
    assert_eq!(HelloQuery::restore(e.clone()), Some(hello("Ada")));
    assert_eq!(ByQuery::restore(e.clone()), None);
    assert_eq!(HelloCommand::restore(e), None);
}

#[test]
fn type_keys_are_the_type_names() {
    assert_eq!(HelloQuery::type_key(), "HelloQuery");
    assert_eq!(ByQuery::type_key(), "ByQuery");
    assert_eq!(HelloCommand::type_key(), "HelloCommand");
    assert_eq!(GetHelloResult::type_key(), "GetHelloResult");
}

#[test]
fn erased_query_rejects_a_request_of_another_type() {
    let q = ErasedQuery::new::<HelloQuery, GetHelloResult, Greeter>(Greeter);
    let r = q.execute(ByQuery { name: "Ada".to_string() }.erase());
    assert_eq!(r, Err(MediatorError::RequestTypeMismatch("HelloQuery".to_string())));
    let out = q.execute(hello("Ada").erase()).unwrap();
    assert_eq!(
        GetHelloResult::restore(out),
        Some(GetHelloResult { name: "hello, Ada".to_string() })
    );
}

#[test]
fn erased_command_rejects_a_request_of_another_type() {
    let (counter, calls, _) = Counter::new();
    let c = ErasedCommand::new::<HelloCommand, Counter>(counter);
    let r = c.execute(hello("Ada").erase());
    assert_eq!(r, Err(MediatorError::RequestTypeMismatch("HelloCommand".to_string())));
    assert_eq!(count(&calls), 0);
    assert_eq!(c.execute(greet("Ada").erase()), Ok(()));
    assert_eq!(count(&calls), 1);
}

#[test]
fn error_messages_name_the_type() {
    let e = MediatorError::HandlerNotFound("CommandX".to_string());
    assert_eq!(e.message(), "No handler registered for type CommandX");
    assert_eq!(e.type_key(), "CommandX");
    let e = MediatorError::ResultTypeMismatch("HelloQuery".to_string());
    assert_eq!(e.message(), "Query result type mismatch for HelloQuery");
    let e = MediatorError::RequestTypeMismatch("HelloQuery".to_string());
    assert_eq!(e.message(), "Request type mismatch for HelloQuery");
}
