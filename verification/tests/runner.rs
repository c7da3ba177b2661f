use judge_agent::models::{ErrorResult, Response};
use judge_agent::procinfo::{observe_hwm, ExitStatus};
use judge_agent::runner::{
    adjudicate, worker_step, DriverEvent, ReadOutcome, TestDriver, WorkerMsg, WorkerStep,
};

#[test]
fn worker_forwards_chunks_under_the_limit() {
    let step = worker_step(100, 2048, ReadOutcome::Chunk(vec![7u8; 24]), 1 << 20);
    match step {
        WorkerStep::Forward { chunk, total } => {
            assert_eq!(chunk, vec![7u8; 24]);
            assert_eq!(total, 124);
        }
        other => panic!("unexpected: {:?}", other),
    }
}

#[test]
fn worker_reports_overflow_at_the_limit() {
    // The byte total reaches the limit exactly: the overflow is reported
    // with the highest memory sample seen so far.
    let step = worker_step(1000, 2048, ReadOutcome::Chunk(vec![0u8; 24]), 1024);
    assert_eq!(
        step,
        WorkerStep::Stop(WorkerMsg::Fin {
            hwm: 2048,
            overflow: true
        })
    );
}

#[test]
fn worker_with_zero_limit_overflows_on_first_byte() {
    let step = worker_step(0, 0, ReadOutcome::Chunk(vec![b'x']), 0);
    assert_eq!(
        step,
        WorkerStep::Stop(WorkerMsg::Fin {
            hwm: 0,
            overflow: true
        })
    );
}

#[test]
fn worker_reports_eof_cleanly() {
    let step = worker_step(12, 4096, ReadOutcome::Eof, 1 << 20);
    assert_eq!(
        step,
        WorkerStep::Stop(WorkerMsg::Fin {
            hwm: 4096,
            overflow: false
        })
    );
}

#[test]
fn worker_reports_read_failure() {
    let step = worker_step(12, 4096, ReadOutcome::ReadFailed, 1 << 20);
    assert_eq!(step, WorkerStep::Stop(WorkerMsg::ReadErr));
}

#[test]
fn driver_accumulates_output_until_fin() {
    let mut driver = TestDriver::new();
    assert_eq!(
        driver.step(DriverEvent::Msg(WorkerMsg::Data(b"Hello ".to_vec())), 10),
        None
    );
    assert_eq!(
        driver.step(DriverEvent::Msg(WorkerMsg::Data(b"World\n".to_vec())), 20),
        None
    );
    let r = driver.step(
        DriverEvent::Msg(WorkerMsg::Fin {
            hwm: 8192,
            overflow: false,
        }),
        31_000_000,
    );
    match r {
        Some(Response::Test(t)) => {
            assert_eq!(t.output, b"Hello World\n".to_vec());
            assert!(t.time_ns > 0);
            assert_eq!(t.time_ns, 31_000_000);
            assert_eq!(t.memory_bytes, 8192);
        }
        other => panic!("unexpected: {:?}", other),
    }
}

#[test]
fn driver_deadline_is_time_limit() {
    let mut driver = TestDriver::new();
    driver.step(DriverEvent::Msg(WorkerMsg::Data(b"x".to_vec())), 1);
    let r = driver.step(DriverEvent::DeadlinePassed, 1_000_000_000);
    assert_eq!(
        r,
        Some(Response::Error {
            kind: ErrorResult::TimeLimitExceeded
        })
    );
}

#[test]
fn driver_overflow_is_output_limit() {
    let mut driver = TestDriver::new();
    let r = driver.step(
        DriverEvent::Msg(WorkerMsg::Fin {
            hwm: 1,
            overflow: true,
        }),
        5,
    );
    assert_eq!(
        r,
        Some(Response::Error {
            kind: ErrorResult::OutputLimitExceeded
        })
    );
}

#[test]
fn driver_read_error_is_runtime_error() {
    let mut driver = TestDriver::new();
    let r = driver.step(DriverEvent::Msg(WorkerMsg::ReadErr), 5);
    assert_eq!(
        r,
        Some(Response::Error {
            kind: ErrorResult::RuntimeError
        })
    );
}

#[test]
fn vanished_worker_defers_to_exit_status() {
    // The worker found the child's stdin already closed and went away:
    // the tentative response carries what was read, and the reaped
    // status decides.
    let mut driver = TestDriver::new();
    let tentative = driver.step(DriverEvent::Disconnected, 9).unwrap();
    let crashed = ExitStatus {
        code: Some(134),
        signal: None,
    };
    assert_eq!(
        adjudicate(tentative, &crashed),
        Response::Error {
            kind: ErrorResult::RuntimeError
        }
    );
}

#[test]
fn deadline_beats_late_oom_kill() {
    let mut driver = TestDriver::new();
    let tentative = driver.step(DriverEvent::DeadlinePassed, 2_000_000_000).unwrap();
    let oom = ExitStatus {
        code: None,
        signal: Some(9),
    };
    assert_eq!(
        adjudicate(tentative, &oom),
        Response::Error {
            kind: ErrorResult::TimeLimitExceeded
        }
    );
}

#[test]
fn hwm_never_decreases() {
    let mut hwm = observe_hwm(0, Some(5000));
    assert_eq!(hwm, 5000);
    hwm = observe_hwm(hwm, Some(3000));
    assert_eq!(hwm, 5000);
    hwm = observe_hwm(hwm, None);
    assert_eq!(hwm, 5000);
    hwm = observe_hwm(hwm, Some(6000));
    assert_eq!(hwm, 6000);
}
