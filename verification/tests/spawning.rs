use monoloop_loop::transaction::executor_spawn::{
    confirm_started, handed_over, try_spawn, HandedOver, SpawnGate, SpawnVerdict,
    START_BUDGET_NANOS,
};
use std::time::Duration;

fn runtime() -> tokio::runtime::Runtime {
    tokio::runtime::Builder::new_multi_thread()
        .worker_threads(1)
        .enable_all()
        .build()
        .expect("runtime")
}

#[test]
fn try_spawn_rejects_shutdown_runtime() {
    let rt = runtime();
    let handle = rt.handle().clone();
    let gate = SpawnGate::open();
    rt.shutdown_timeout(Duration::from_millis(200));
    assert!(try_spawn(&gate));
    let join = handle.spawn(async { 1u8 });
    let seen = HandedOver {
        taken: true,
        finished: join.is_finished(),
        started: false,
        on_current_thread: false,
    };
    let result = handed_over(&gate, seen);
    assert_eq!(result, SpawnVerdict::Refused, "shut-down executor must fail closed");
}

#[test]
fn try_spawn_rejects_closed_gate() {
    let rt = runtime();
    let mut gate = SpawnGate::open();
    gate.close();
    assert!(!try_spawn(&gate));
    drop(rt);
}

#[test]
fn try_spawn_accepts_live_runtime() {
    let rt = runtime();
    let gate = SpawnGate::open();
    assert!(try_spawn(&gate));
    let join = rt.spawn(async { 7u8 });
    let seen = HandedOver {
        taken: true,
        finished: false,
        started: false,
        on_current_thread: false,
    };
    assert_eq!(handed_over(&gate, seen), SpawnVerdict::Confirm);
    assert_eq!(rt.block_on(join).expect("join"), 7);
    assert_eq!(confirm_started(true, true, 0), SpawnVerdict::Accepted);
}

#[test]
fn try_spawn_accepts_already_ready_future() {
    let rt = runtime();
    let gate = SpawnGate::open();
    assert!(try_spawn(&gate));
    let join = rt.spawn(std::future::ready(9u8));
    assert_eq!(rt.block_on(join).expect("join"), 9);
    let seen = HandedOver {
        taken: true,
        finished: true,
        started: true,
        on_current_thread: false,
    };
    assert_eq!(handed_over(&gate, seen), SpawnVerdict::Confirm);
    assert_eq!(confirm_started(true, true, 0), SpawnVerdict::Accepted);
}

#[test]
fn accepted_task_runs_after_gate_closes() {
    let rt = runtime();
    let mut gate = SpawnGate::open();
    assert!(try_spawn(&gate));
    let (tx, rx) = tokio::sync::oneshot::channel::<u8>();
    let join = rt.spawn(async move {
        tx.send(42).unwrap();
        42u8
    });
    let verdict = confirm_started(true, false, 0);
    gate.close();
    assert_eq!(verdict, SpawnVerdict::Accepted);
    assert_eq!(rt.block_on(rx).expect("callback body must run"), 42);
    assert_eq!(rt.block_on(join).expect("join"), 42);
    assert!(!gate.is_open());
}

#[test]
fn work_that_never_starts_is_aborted() {
    assert_eq!(
        confirm_started(false, false, START_BUDGET_NANOS),
        SpawnVerdict::Abort
    );
    assert_eq!(
        confirm_started(false, false, START_BUDGET_NANOS - 1),
        SpawnVerdict::Confirm
    );
    assert_eq!(confirm_started(false, true, 0), SpawnVerdict::Refused);
    let mut gate = SpawnGate::open();
    gate.close();
    let seen = HandedOver {
        taken: true,
        finished: false,
        started: false,
        on_current_thread: true,
    };
    assert_eq!(handed_over(&gate, seen), SpawnVerdict::Abort);
    assert_eq!(handed_over(&SpawnGate::open(), seen), SpawnVerdict::Accepted);
}
