use proxy_bridge::argv::{marshal_args, ArgvSlot, MarshalError};
use proxy_bridge::bridge::{
    stop_result, ProxyBridge, StartDecision, StopDecision, FAILURE_CODE, STOP_SUCCESS_CODE,
};
use proxy_bridge::lifecycle::LifecycleGuard;

fn args_of(strings: &[&str]) -> Vec<Vec<u8>> {
    strings.iter().map(|s| s.as_bytes().to_vec()).collect()
}

#[test]
fn guard_starts_released() {
    let guard = LifecycleGuard::new();
    assert!(!guard.is_running());
}

#[test]
fn guard_acquire_release_cycle() {
    let mut guard = LifecycleGuard::new();
    assert!(guard.try_acquire());
    assert!(guard.is_running());
    assert!(!guard.try_acquire());
    assert!(guard.is_running());
    guard.release();
    assert!(!guard.is_running());
    assert!(guard.try_acquire());
}

#[test]
fn result_codes() {
    assert_eq!(FAILURE_CODE, -1);
    assert_eq!(STOP_SUCCESS_CODE, 0);
}

#[test]
fn marshal_two_args_builds_sentinel_terminated_table() {
    let table = marshal_args(&args_of(&["a", "b"])).unwrap();
    assert_eq!(table.argc(), 2);
    assert_eq!(table.slots.len(), 3);
    match &table.slots[0] {
        ArgvSlot::Arg(bytes) => assert_eq!(bytes, &vec![b'a', 0u8]),
        ArgvSlot::Sentinel => panic!("entry 0 must be a real argument"),
    }
    match &table.slots[1] {
        ArgvSlot::Arg(bytes) => assert_eq!(bytes, &vec![b'b', 0u8]),
        ArgvSlot::Sentinel => panic!("entry 1 must be a real argument"),
    }
    assert!(matches!(table.slots[2], ArgvSlot::Sentinel));
}

#[test]
fn marshal_keeps_backing_bytes_intact_through_simulated_call() {
    let table = marshal_args(&args_of(&["a", "b"])).unwrap();
    // Simulate an engine call that reads the table repeatedly while it is
    // held alive: every read must see the same owned bytes.
    for _round in 0..16 {
        match &table.slots[0] {
            ArgvSlot::Arg(bytes) => assert_eq!(bytes.as_slice(), &[b'a', 0u8]),
            ArgvSlot::Sentinel => panic!("entry 0 must be a real argument"),
        }
        match &table.slots[1] {
            ArgvSlot::Arg(bytes) => assert_eq!(bytes.as_slice(), &[b'b', 0u8]),
            ArgvSlot::Sentinel => panic!("entry 1 must be a real argument"),
        }
    }
    assert_eq!(table.argc(), 2);
}

#[test]
fn marshal_empty_argument_list() {
    let table = marshal_args(&Vec::new()).unwrap();
    assert_eq!(table.argc(), 0);
    assert_eq!(table.slots.len(), 1);
    assert!(matches!(table.slots[0], ArgvSlot::Sentinel));
}

#[test]
fn marshal_accepts_empty_string_argument() {
    let table = marshal_args(&args_of(&[""])).unwrap();
    assert_eq!(table.argc(), 1);
    match &table.slots[0] {
        ArgvSlot::Arg(bytes) => assert_eq!(bytes, &vec![0u8]),
        ArgvSlot::Sentinel => panic!("entry 0 must be a real argument"),
    }
}

#[test]
fn marshal_rejects_embedded_nul() {
    let mut args = args_of(&["ok"]);
    args.push(vec![b'b', 0u8, b'd']);
    let err = marshal_args(&args).unwrap_err();
    assert_eq!(err, MarshalError::EmbeddedNul { index: 1 });
}

#[test]
fn marshal_reports_first_offending_argument() {
    let args = vec![vec![0u8], vec![b'x', 0u8]];
    let err = marshal_args(&args).unwrap_err();
    assert_eq!(err, MarshalError::EmbeddedNul { index: 0 });
}

#[test]
fn start_while_running_is_turned_away() {
    let mut bridge = ProxyBridge::new();
    let first = bridge.start_request(&args_of(&["-p", "1080"]));
    assert!(matches!(first, StartDecision::Invoke(_)));
    assert!(bridge.is_running());
    // A second start during the session: contention, no marshalled table,
    // and the running session is untouched.
    let second = bridge.start_request(&args_of(&["-p", "1081"]));
    assert!(matches!(second, StartDecision::AlreadyRunning));
    assert!(bridge.is_running());
}

#[test]
fn start_with_bad_argument_leaves_process_stopped() {
    let mut bridge = ProxyBridge::new();
    let mut args = args_of(&["-p"]);
    args.push(vec![b'1', 0u8, b'0']);
    let decision = bridge.start_request(&args);
    match decision {
        StartDecision::BadArgument(MarshalError::EmbeddedNul { index }) => {
            assert_eq!(index, 1)
        }
        _ => panic!("an embedded null byte must be rejected"),
    }
    // The rejection happened before any engine work: no session is left
    // behind, and a corrected start goes through.
    assert!(!bridge.is_running());
    let retry = bridge.start_request(&args_of(&["-p", "10"]));
    assert!(matches!(retry, StartDecision::Invoke(_)));
}

#[test]
fn start_scenario_six_args() {
    let mut bridge = ProxyBridge::new();
    let decision = bridge.start_request(&args_of(&["-N", "tls", "-A", "127.0.0.1", "-p", "1080"]));
    let table = match decision {
        StartDecision::Invoke(table) => table,
        _ => panic!("an idle instance must admit the start"),
    };
    assert!(bridge.is_running());
    assert_eq!(table.argc(), 6);
    assert_eq!(table.slots.len(), 7);
    assert!(matches!(table.slots[6], ArgvSlot::Sentinel));
    match &table.slots[3] {
        ArgvSlot::Arg(bytes) => assert_eq!(bytes, &vec![b'1', b'2', b'7', b'.', b'0', b'.', b'0', b'.', b'1', 0u8]),
        ArgvSlot::Sentinel => panic!("entry 3 must be a real argument"),
    }
    // The engine call returns with its own exit code; it is propagated
    // verbatim and the flag clears.
    let result = bridge.finish_session(42);
    assert_eq!(result, 42);
    assert!(!bridge.is_running());
}

#[test]
fn engine_exit_code_propagated_verbatim() {
    for code in [-7, 0, 3] {
        let mut bridge = ProxyBridge::new();
        let started = bridge.start_request(&args_of(&["-p", "1080"]));
        assert!(matches!(started, StartDecision::Invoke(_)));
        assert_eq!(bridge.finish_session(code), code);
        assert!(!bridge.is_running());
    }
}

#[test]
fn stop_while_not_running_issues_no_shutdown() {
    let bridge = ProxyBridge::new();
    assert!(matches!(bridge.stop_request(), StopDecision::NotRunning));
    assert!(!bridge.is_running());
}

#[test]
fn stop_right_after_start_may_succeed_or_fail() {
    let mut bridge = ProxyBridge::new();
    let started = bridge.start_request(&args_of(&["-p", "1080"]));
    assert!(matches!(started, StartDecision::Invoke(_)));
    // A stop in the window right after a successful start is admitted; what
    // it reports depends on the shutdown system call against whatever
    // descriptor the engine has (or has not yet) published.
    assert!(matches!(bridge.stop_request(), StopDecision::ForceShutdown));
    assert_eq!(stop_result(0), STOP_SUCCESS_CODE);
    assert_eq!(stop_result(-1), FAILURE_CODE);
    // Any nonzero system-call result is a failure, not only -1.
    assert_eq!(stop_result(7), FAILURE_CODE);
}

#[test]
fn double_stop_second_reports_not_running() {
    let mut bridge = ProxyBridge::new();
    let started = bridge.start_request(&args_of(&["-p", "1080"]));
    assert!(matches!(started, StartDecision::Invoke(_)));
    // First stop: a session is running, the forced shutdown is issued and
    // succeeds.
    assert!(matches!(bridge.stop_request(), StopDecision::ForceShutdown));
    assert_eq!(stop_result(0), STOP_SUCCESS_CODE);
    // The unblocked engine call returns and the flag clears.
    bridge.finish_session(0);
    // Second stop: nothing is running any more.
    assert!(matches!(bridge.stop_request(), StopDecision::NotRunning));
}

#[test]
fn flag_tracks_whether_latest_session_ended() {
    let mut bridge = ProxyBridge::new();
    assert!(!bridge.is_running());
    // Failed start: no session.
    let bad = bridge.start_request(&vec![vec![0u8]]);
    assert!(matches!(bad, StartDecision::BadArgument(_)));
    assert!(!bridge.is_running());
    // Successful start: session open until the engine call returns.
    let ok = bridge.start_request(&args_of(&["-p", "1080"]));
    assert!(matches!(ok, StartDecision::Invoke(_)));
    assert!(bridge.is_running());
    // Stops do not move the flag by themselves.
    assert!(matches!(bridge.stop_request(), StopDecision::ForceShutdown));
    assert!(bridge.is_running());
    // The engine call returning ends the session, whatever its code.
    bridge.finish_session(-13);
    assert!(!bridge.is_running());
    // And the cycle can repeat.
    let again = bridge.start_request(&args_of(&["-p", "1081"]));
    assert!(matches!(again, StartDecision::Invoke(_)));
    assert!(bridge.is_running());
    bridge.finish_session(0);
    assert!(!bridge.is_running());
}
