use rust_download_subtitles::dispatch::{DispatchFault, DispatchStep, Dispatcher, NoClients};
use rust_download_subtitles::request::HttpMethod;
use rust_download_subtitles::status::Status;
use rust_download_subtitles::{token_0, TaskIndex, TokenIndex};

fn task(task_index: usize) -> TaskIndex {
    TaskIndex { task_index }
}

fn token(token_index: usize) -> TokenIndex {
    TokenIndex { token_index }
}

fn status(code: u16) -> Status {
    Status::new(code).unwrap()
}

#[test]
fn a_client_is_needed() {
    assert_eq!(Dispatcher::new(3, 0).unwrap_err(), NoClients {});
    assert_eq!(NoClients {}.message(), "Fatal error: login failed.");
}

#[test]
fn end_marks_are_counted() {
    let mut d = Dispatcher::new(2, 1).unwrap();
    assert!(!d.is_done());
    assert_eq!(d.on_message(task(1), token_0(), HttpMethod::Delete), DispatchStep::Receive);
    assert!(!d.is_done());
    assert_eq!(d.on_message(task(0), token_0(), HttpMethod::Delete), DispatchStep::Receive);
    assert!(d.is_done());
    assert!(Dispatcher::new(0, 1).unwrap().is_done());
}

#[test]
fn an_answer_is_delivered() {
    let mut d = Dispatcher::new(2, 3).unwrap();
    assert_eq!(
        d.on_message(task(1), token(2), HttpMethod::Get),
        DispatchStep::Execute { token: token(2), pause_ms: 0 }
    );
    assert_eq!(
        d.on_status(status(200)),
        DispatchStep::Deliver { task: task(1), token: token(2), pause_ms: 200 }
    );
    assert_eq!(
        d.on_message(task(0), token(0), HttpMethod::Post),
        DispatchStep::Execute { token: token(0), pause_ms: 0 }
    );
    assert_eq!(
        d.on_status(status(301)),
        DispatchStep::Deliver { task: task(0), token: token(0), pause_ms: 200 }
    );
}

#[test]
fn a_busy_server_is_waited_out() {
    let mut d = Dispatcher::new(1, 2).unwrap();
    d.on_message(task(0), token(1), HttpMethod::Get);
    for code in [429, 500, 503, 599] {
        assert_eq!(
            d.on_status(status(code)),
            DispatchStep::Execute { token: token(1), pause_ms: 1000 }
        );
    }
    assert_eq!(
        d.on_status(status(200)),
        DispatchStep::Deliver { task: task(0), token: token(1), pause_ms: 200 }
    );
}

#[test]
fn refusals_take_turns() {
    let mut d = Dispatcher::new(1, 3).unwrap();
    d.on_message(task(0), token(1), HttpMethod::Get);
    assert_eq!(
        d.on_status(status(406)),
        DispatchStep::Execute { token: token(2), pause_ms: 200 }
    );
    assert_eq!(
        d.on_status(status(500)),
        DispatchStep::Execute { token: token(2), pause_ms: 1000 }
    );
    assert_eq!(
        d.on_status(status(401)),
        DispatchStep::Execute { token: token(0), pause_ms: 200 }
    );
    assert_eq!(
        d.on_status(status(406)),
        DispatchStep::Deliver { task: task(0), token: token(1), pause_ms: 200 }
    );
}

#[test]
fn the_client_that_answers_is_told() {
    let mut d = Dispatcher::new(1, 2).unwrap();
    d.on_message(task(0), token(1), HttpMethod::Get);
    assert_eq!(
        d.on_status(status(406)),
        DispatchStep::Execute { token: token(0), pause_ms: 200 }
    );
    assert_eq!(
        d.on_status(status(200)),
        DispatchStep::Deliver { task: task(0), token: token(0), pause_ms: 200 }
    );
}

#[test]
fn a_single_client_delivers_its_refusal() {
    let mut d = Dispatcher::new(1, 1).unwrap();
    d.on_message(task(0), token(0), HttpMethod::Get);
    assert_eq!(
        d.on_status(status(404)),
        DispatchStep::Deliver { task: task(0), token: token(0), pause_ms: 200 }
    );
}

#[test]
fn faults() {
    let mut d = Dispatcher::new(1, 2).unwrap();
    assert_eq!(
        d.on_message(task(0), token(2), HttpMethod::Get),
        DispatchStep::Fail { fault: DispatchFault::UnknownToken, pause_ms: 0 }
    );
    d.on_message(task(1), token(0), HttpMethod::Get);
    assert_eq!(
        d.on_status(status(200)),
        DispatchStep::Fail { fault: DispatchFault::UnknownTask, pause_ms: 200 }
    );
    assert_eq!(
        DispatchFault::UnknownToken.message(),
        "Internal error on client.get(token_index)"
    );
    assert_eq!(DispatchFault::UnknownTask.message(), "Connecting to an async task");
}
