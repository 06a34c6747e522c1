use dial9_telemetry::error::{ErrorKind, IoError};
use dial9_telemetry::fp_profiler::ctimer::{
    current_thread_timer_id, interval_ns, is_running, register_thread, resume, start, started, stop,
    timer_armed, timer_created, unregister_thread, CtimerEngine, Registration, ThreadTimer,
    TimerCall, TimerRequest, TimerSpec,
};
use dial9_telemetry::fp_profiler::SigactionRequest;
use dial9_telemetry::text::{from_decimal, to_decimal};

fn eperm() -> IoError {
    IoError::from_raw_os_error(libc::EPERM, "Operation not permitted".to_string())
}

#[test]
fn start_rejects_zero_interval() {
    let err = start(0).unwrap_err();
    assert_eq!(err.kind(), ErrorKind::InvalidInput);
}

#[test]
fn start_rejects_negative_interval() {
    let err = start(-1).unwrap_err();
    assert_eq!(err.kind(), ErrorKind::InvalidInput);
}

#[test]
fn register_thread_fails_when_not_running() {
    let mut engine = CtimerEngine::new();
    stop(&mut engine);
    match register_thread(&engine, &ThreadTimer { id: None }, 1) {
        Registration::Refused(err) => assert!(err.message().contains("not running")),
        other => panic!("expected a refusal, got {other:?}"),
    }
}

#[test]
fn start_asks_for_the_profiling_signal() {
    assert_eq!(
        start(1).unwrap(),
        SigactionRequest { signal: libc::SIGPROF, flags: libc::SA_SIGINFO | libc::SA_RESTART }
    );
}

#[test]
fn failed_start_leaves_the_engine_alone() {
    let mut engine = CtimerEngine::new();
    started(&mut engine, 5, Err(eperm())).unwrap_err();
    assert_eq!(engine, CtimerEngine { interval_ns: 0, running: false });
    started(&mut engine, 5, Ok(())).unwrap();
    assert!(is_running(&engine));
    assert_eq!(interval_ns(&engine), 5);
}

#[test]
fn stop_and_resume_keep_the_interval() {
    let mut engine = CtimerEngine::new();
    started(&mut engine, 10, Ok(())).unwrap();
    stop(&mut engine);
    assert!(!is_running(&engine));
    resume(&mut engine);
    assert!(is_running(&engine));
    assert_eq!(interval_ns(&engine), 10);
}

#[test]
fn thread_gets_a_timer_and_loses_it() {
    let mut engine = CtimerEngine::new();
    started(&mut engine, 2_000_000_010, Ok(())).unwrap();
    let mut thread = ThreadTimer { id: None };
    match register_thread(&engine, &thread, 42) {
        Registration::Create(request) => assert_eq!(
            request,
            TimerRequest {
                clock: libc::CLOCK_THREAD_CPUTIME_ID,
                notify: libc::SIGEV_THREAD_ID,
                signal: libc::SIGPROF,
                thread_id: 42,
                value: 42,
            }
        ),
        other => panic!("expected a timer request, got {other:?}"),
    }
    assert_eq!(
        timer_created(&engine, Ok(9)).unwrap(),
        TimerCall::SetTime { timer: 9, spec: TimerSpec { sec: 2, nsec: 10 } }
    );
    timer_armed(&mut thread, 9, Ok(())).unwrap();
    assert_eq!(current_thread_timer_id(&thread), Some(9));
    assert!(matches!(register_thread(&engine, &thread, 42), Registration::Registered));
    assert_eq!(
        unregister_thread(&mut thread),
        vec![
            TimerCall::SetTime { timer: 9, spec: TimerSpec { sec: 0, nsec: 0 } },
            TimerCall::Delete { timer: 9 },
        ]
    );
    assert_eq!(current_thread_timer_id(&thread), None);
    assert!(unregister_thread(&mut thread).is_empty());
}

#[test]
fn timer_that_cannot_be_armed_is_deleted() {
    let engine = CtimerEngine { interval_ns: 5, running: true };
    assert_eq!(timer_created(&engine, Err(eperm())).unwrap_err().raw_os_error(), Some(libc::EPERM));
    let mut thread = ThreadTimer { id: None };
    let (call, error) = timer_armed(&mut thread, 3, Err(eperm())).unwrap_err();
    assert_eq!(call, TimerCall::Delete { timer: 3 });
    assert_eq!(error.raw_os_error(), Some(libc::EPERM));
    assert_eq!(thread.id, None);
}

#[test]
fn numbers_are_written_in_decimal() {
    assert_eq!(to_decimal(0), "0");
    assert_eq!(to_decimal(9), "9");
    assert_eq!(to_decimal(10), "10");
    assert_eq!(to_decimal(1_234_567_890), "1234567890");
    assert_eq!(to_decimal(u64::MAX), u64::MAX.to_string());
    for n in [0, 7, 10, 905, u64::MAX] {
        assert_eq!(from_decimal(&n.to_string()), n);
    }
}

#[test]
fn caused_error_tells_both_texts() {
    let error = IoError::caused(ErrorKind::Other, "outer: ", &eperm());
    assert_eq!(error.message(), "outer: Operation not permitted");
    assert_eq!(error.kind(), ErrorKind::Other);
    assert_eq!(error.raw_os_error(), None);
}
