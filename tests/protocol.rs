use nodejs::bootstrap::{Bootstrap, Decision};
use nodejs::invoke::{bootstrap_args, closed_failure, forward_arg, forward_args, run_result, Failure, RunOutcome};
use nodejs::latch::ModuleInit;
use nodejs::sync::{sync_node, ReplyTo};
use nodejs::tasks::TaskQueue;

#[test]
fn initializer_runs_once_however_often_registration_fires() {
    let mut runs = 0;
    let mut slot = ModuleInit::new(|n: &mut i32| *n += 1);
    assert!(slot.is_armed());
    for _ in 0..4 {
        if let Some(f) = slot.enter() {
            f(&mut runs);
        }
    }
    assert_eq!(runs, 1);
    assert!(!slot.is_armed());
}

#[test]
fn every_caller_gets_the_one_published_handle() {
    let mut boot: Bootstrap<u32> = Bootstrap::new();
    assert_eq!(boot.published(), None);
    assert_eq!(boot.ensure_started(), Decision::Spawn);
    for _ in 0..3 {
        assert_eq!(boot.ensure_started(), Decision::Wait);
    }
    assert_eq!(boot.published(), None);
    assert_eq!(boot.handshake(9), Decision::Published);
    assert_eq!(boot.published(), Some(9));
    assert_eq!(boot.handshake(10), Decision::Ignored);
    for _ in 0..5 {
        assert_eq!(boot.ensure_started(), Decision::Ready(9));
    }
}

#[test]
fn terminated_runtime_is_unusable() {
    let mut boot: Bootstrap<u32> = Bootstrap::new();
    assert_eq!(boot.ensure_started(), Decision::Spawn);
    assert_eq!(boot.handshake(3), Decision::Published);
    assert_eq!(boot.exited(), Decision::Fatal);
    assert_eq!(boot.ensure_started(), Decision::Unusable);
    assert_eq!(boot.published(), None);
    assert_eq!(boot.handshake(4), Decision::Ignored);
}

#[test]
fn handshake_before_start_is_ignored() {
    let mut boot: Bootstrap<u32> = Bootstrap::new();
    assert_eq!(boot.handshake(1), Decision::Ignored);
    assert_eq!(boot.ensure_started(), Decision::Spawn);
}

#[test]
fn queue_keeps_each_senders_order() {
    let mut q: TaskQueue<u32> = TaskQueue::new();
    assert!(q.submit(1, 10).is_ok());
    assert!(q.submit(2, 20).is_ok());
    assert!(q.submit(1, 11).is_ok());
    assert!(q.submit(2, 21).is_ok());
    assert!(q.submit(1, 12).is_ok());
    assert_eq!(q.len(), 5);
    let mut out = Vec::new();
    while let Some(x) = q.take() {
        out.push(x);
    }
    assert_eq!(out, vec![(1, 10), (2, 20), (1, 11), (2, 21), (1, 12)]);
    let from_one: Vec<u32> = out.iter().filter(|x| x.0 == 1).map(|x| x.1).collect();
    assert_eq!(from_one, vec![10, 11, 12]);
}

#[test]
fn shut_down_queue_rejects_and_returns_task() {
    let mut q: TaskQueue<&str> = TaskQueue::new();
    assert!(q.accepts());
    assert!(q.submit(1, "a").is_ok());
    q.shut_down();
    assert!(!q.accepts());
    match q.submit(1, "b") {
        Err(rejected) => assert_eq!(rejected.task, "b"),
        Ok(()) => panic!("a shut down queue accepted a task"),
    }
    assert_eq!(q.take(), Some((1, "a")));
    assert_eq!(q.take(), None);
    assert_eq!(q.len(), 0);
}

#[test]
fn arguments_are_forwarded_verbatim() {
    let args = vec!["/usr/bin/host".to_string(), "--flag".to_string(), "x y".to_string()];
    assert_eq!(forward_args(&args), args);
    assert_eq!(forward_args(&Vec::new()), Vec::<String>::new());
}

#[test]
fn argument_with_nul_becomes_empty() {
    assert_eq!(forward_arg(&"a\0b".to_string()), "");
    assert_eq!(forward_arg(&"".to_string()), "");
    assert_eq!(forward_arg(&"caf\u{e9}".to_string()), "caf\u{e9}");
    let args = vec!["ok".to_string(), "\0".to_string()];
    assert_eq!(forward_args(&args), vec!["ok".to_string(), String::new()]);
}

#[test]
fn bootstrap_arguments_load_the_linked_binding() {
    assert_eq!(
        bootstrap_args(None),
        vec!["node".to_string(), "-e".to_string(), "process._linkedBinding('__rust_init')".to_string()]
    );
    assert_eq!(
        bootstrap_args(Some("/opt/app".to_string()))[0],
        "/opt/app"
    );
}

#[test]
fn run_once_returns_exit_code() {
    assert_eq!(run_result(RunOutcome { exit_code: 0, error: None }), Ok(0));
    assert_eq!(run_result(RunOutcome { exit_code: 42, error: None }), Ok(42));
    assert_eq!(run_result(RunOutcome { exit_code: 1, error: None }), Ok(1));
}

#[test]
fn startup_error_is_reported() {
    let outcome = RunOutcome { exit_code: 9, error: Some("bad option".to_string()) };
    assert_eq!(run_result(outcome.clone()), Err(Failure::StartupFailure("bad option".to_string())));
    assert_eq!(closed_failure(outcome), Failure::StartupFailure("bad option".to_string()));
}

#[test]
fn runtime_returning_is_fatal() {
    assert_eq!(closed_failure(RunOutcome { exit_code: 0, error: None }), Failure::RuntimeClosed(0));
}

#[test]
fn sync_node_returns_the_reply() {
    let r = sync_node(|reply: ReplyTo<i64>| {
        assert!(reply.send(42));
        true
    });
    assert_eq!(r, Some(42));
}

#[test]
fn sync_node_without_reply_is_none() {
    let r = sync_node(|reply: ReplyTo<i64>| {
        drop(reply);
        true
    });
    assert_eq!(r, None);
}

#[test]
fn sync_node_rejected_is_none() {
    let r = sync_node(|_reply: ReplyTo<i64>| false);
    assert_eq!(r, None);
}
