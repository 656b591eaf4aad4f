use procdeck::platform::{
    boosted_nice, control, control_outcome, deliver, error_from_code, kill, launch_plan,
    lowered_nice, names_a_process, resume, signal_request, suspend, thread_pass_outcome,
    threads_in_process, ControlOp, ControlSignal, Host, MonitorError, SignalRequest, ThreadEntry,
    EACCES, EPERM, ERROR_ACCESS_DENIED, ERROR_INVALID_PARAMETER, ESRCH, NICE_MAX, NICE_MIN,
};

// Linux hands out no process identifier above 4194304.
const NO_SUCH_PID: i32 = i32::MAX;

#[test]
fn kill_of_a_process_that_does_not_exist_fails() {
    assert_eq!(kill(NO_SUCH_PID), Err(MonitorError::NoSuchProcess));
}

#[test]
fn suspend_and_resume_of_a_process_that_does_not_exist_fail() {
    assert_eq!(suspend(NO_SUCH_PID), Err(MonitorError::NoSuchProcess));
    assert_eq!(resume(NO_SUCH_PID), Err(MonitorError::NoSuchProcess));
    assert_eq!(deliver(NO_SUCH_PID, ControlSignal::Stop), Err(MonitorError::NoSuchProcess));
}

#[test]
fn identifiers_that_name_no_process_are_refused() {
    for pid in [0, -1, -2, i32::MIN] {
        assert_eq!(kill(pid), Err(MonitorError::NoSuchProcess));
        assert_eq!(suspend(pid), Err(MonitorError::NoSuchProcess));
        assert_eq!(resume(pid), Err(MonitorError::NoSuchProcess));
    }
}

#[test]
fn resume_of_a_running_process_succeeds() {
    let own = nix::unistd::getpid().as_raw();
    assert_eq!(resume(own), Ok(()));
}

#[test]
fn errno_meanings() {
    assert_eq!(error_from_code(Host::Posix, EPERM), MonitorError::PermissionDenied);
    assert_eq!(error_from_code(Host::Posix, EACCES), MonitorError::PermissionDenied);
    assert_eq!(error_from_code(Host::Posix, ESRCH), MonitorError::NoSuchProcess);
    assert_eq!(error_from_code(Host::Posix, 22), MonitorError::OsCallFailed(22));
    assert_eq!(error_from_code(Host::Posix, 0), MonitorError::OsCallFailed(0));
    assert_eq!(error_from_code(Host::Posix, -7), MonitorError::OsCallFailed(-7));
    assert_eq!(EPERM, nix::errno::Errno::EPERM as i32);
    assert_eq!(ESRCH, nix::errno::Errno::ESRCH as i32);
    assert_eq!(EACCES, nix::errno::Errno::EACCES as i32);
}

#[test]
fn windows_error_code_meanings() {
    assert_eq!(error_from_code(Host::Windows, ERROR_ACCESS_DENIED), MonitorError::PermissionDenied);
    assert_eq!(error_from_code(Host::Windows, ERROR_INVALID_PARAMETER), MonitorError::NoSuchProcess);
    assert_eq!(error_from_code(Host::Windows, 50), MonitorError::UnsupportedOnPlatform);
    assert_eq!(error_from_code(Host::Windows, 120), MonitorError::UnsupportedOnPlatform);
    assert_eq!(error_from_code(Host::Posix, 50), MonitorError::OsCallFailed(50));
    assert_eq!(error_from_code(Host::Windows, 3), MonitorError::OsCallFailed(3));
    assert_eq!(error_from_code(Host::Windows, 1), MonitorError::OsCallFailed(1));
    assert_eq!(error_from_code(Host::Windows, 6), MonitorError::OsCallFailed(6));
}

#[test]
fn outcome_of_a_system_call() {
    assert_eq!(control_outcome(Host::Posix, Ok(())), Ok(()));
    assert_eq!(control_outcome(Host::Windows, Ok(())), Ok(()));
    assert_eq!(control_outcome(Host::Posix, Err(3)), Err(MonitorError::NoSuchProcess));
    assert_eq!(control_outcome(Host::Posix, Err(1)), Err(MonitorError::PermissionDenied));
    assert_eq!(control_outcome(Host::Windows, Err(5)), Err(MonitorError::PermissionDenied));
    assert_eq!(control_outcome(Host::Windows, Err(87)), Err(MonitorError::NoSuchProcess));
    assert_eq!(control_outcome(Host::Posix, Err(87)), Err(MonitorError::OsCallFailed(87)));
}

#[test]
fn boost_steps_down_within_range() {
    assert_eq!((NICE_MIN, NICE_MAX), (-20, 19));
    assert_eq!(boosted_nice(0), -1);
    assert_eq!(boosted_nice(19), 18);
    assert_eq!(boosted_nice(-19), -20);
    assert_eq!(boosted_nice(-20), -20);
    assert_eq!(boosted_nice(-21), -20);
    assert_eq!(boosted_nice(i32::MIN), -20);
    assert_eq!(boosted_nice(20), 19);
    assert_eq!(boosted_nice(21), 19);
    assert_eq!(boosted_nice(i32::MAX), 19);
}

#[test]
fn lower_steps_up_within_range() {
    assert_eq!(lowered_nice(0), 1);
    assert_eq!(lowered_nice(-20), -19);
    assert_eq!(lowered_nice(18), 19);
    assert_eq!(lowered_nice(19), 19);
    assert_eq!(lowered_nice(20), 19);
    assert_eq!(lowered_nice(i32::MAX), 19);
    assert_eq!(lowered_nice(-21), -20);
    assert_eq!(lowered_nice(-22), -20);
    assert_eq!(lowered_nice(i32::MIN), -20);
}

#[test]
fn nice_steps_match_clamping() {
    for current in -40..40 {
        assert_eq!(boosted_nice(current), (current - 1).clamp(-20, 19));
        assert_eq!(lowered_nice(current), (current + 1).clamp(-20, 19));
    }
}

#[test]
fn threads_of_one_process_are_picked_in_order() {
    let snapshot = vec![
        ThreadEntry { owner_pid: 4, thread_id: 100 },
        ThreadEntry { owner_pid: 812, thread_id: 7 },
        ThreadEntry { owner_pid: 4, thread_id: 104 },
        ThreadEntry { owner_pid: 812, thread_id: 3 },
        ThreadEntry { owner_pid: 900, thread_id: 1 },
    ];
    assert_eq!(threads_in_process(&snapshot, 812), vec![7, 3]);
    assert_eq!(threads_in_process(&snapshot, 4), vec![100, 104]);
    assert_eq!(threads_in_process(&snapshot, 5), Vec::<u32>::new());
    assert_eq!(threads_in_process(&[], 812), Vec::<u32>::new());
}

#[test]
fn negative_identifier_owns_no_thread() {
    let snapshot = vec![ThreadEntry { owner_pid: u32::MAX, thread_id: 9 }];
    assert_eq!(threads_in_process(&snapshot, -1), Vec::<u32>::new());
}

#[test]
fn blank_command_launches_nothing() {
    for cmd in ["", " ", "   ", "\t", " \n\t ", "\u{a0}", "\u{2003}\u{3000}"] {
        assert!(launch_plan(Host::Posix, cmd).is_none());
        assert!(launch_plan(Host::Windows, cmd).is_none());
    }
}

#[test]
fn command_goes_through_the_interpreter() {
    let plan = launch_plan(Host::Posix, "sleep 5 ").unwrap();
    assert_eq!(plan.program, "sh");
    assert_eq!(plan.args, vec!["-c".to_string(), "sleep 5 ".to_string()]);
    let plan = launch_plan(Host::Windows, " notepad").unwrap();
    assert_eq!(plan.program, "cmd");
    assert_eq!(plan.args, vec!["/C".to_string(), " notepad".to_string()]);
    assert!(launch_plan(Host::Posix, "\u{200b}").is_some());
}

#[test]
fn failures_in_words() {
    assert_eq!(MonitorError::PermissionDenied.describe(), "permission denied");
    assert_eq!(MonitorError::NoSuchProcess.describe(), "no such process");
    assert_eq!(MonitorError::UnsupportedOnPlatform.describe(), "not supported on this platform");
    assert_eq!(MonitorError::OsCallFailed(22).describe(), "system error 22");
    assert_eq!(MonitorError::OsCallFailed(-3).describe(), "system error -3");
    assert_eq!(MonitorError::EnumerationFailed.describe(), "the processes could not be listed");
}

#[test]
fn only_positive_identifiers_name_a_process() {
    assert!(names_a_process(1));
    assert!(names_a_process(i32::MAX));
    assert!(!names_a_process(0));
    assert!(!names_a_process(-1));
    assert!(!names_a_process(i32::MIN));
}

#[test]
fn each_operation_asks_for_its_own_signal_and_its_own_target() {
    assert_eq!(
        signal_request(ControlOp::Terminate, 812),
        Ok(SignalRequest { target: 812, signal: ControlSignal::Kill })
    );
    assert_eq!(
        signal_request(ControlOp::Suspend, 812),
        Ok(SignalRequest { target: 812, signal: ControlSignal::Stop })
    );
    assert_eq!(
        signal_request(ControlOp::Resume, 1),
        Ok(SignalRequest { target: 1, signal: ControlSignal::Continue })
    );
    assert_eq!(
        signal_request(ControlOp::Resume, i32::MAX),
        Ok(SignalRequest { target: i32::MAX, signal: ControlSignal::Continue })
    );
}

#[test]
fn nothing_is_asked_for_an_identifier_that_names_no_process() {
    for op in [ControlOp::Terminate, ControlOp::Suspend, ControlOp::Resume] {
        for pid in [0, -1, -812, i32::MIN] {
            assert_eq!(signal_request(op, pid), Err(MonitorError::NoSuchProcess));
            assert_eq!(control(op, pid), Err(MonitorError::NoSuchProcess));
        }
    }
}

#[test]
fn control_of_a_process_that_does_not_exist_fails() {
    for op in [ControlOp::Terminate, ControlOp::Suspend, ControlOp::Resume] {
        assert_eq!(control(op, NO_SUCH_PID), Err(MonitorError::NoSuchProcess));
    }
}

#[test]
fn control_resumes_a_running_process() {
    let own = nix::unistd::getpid().as_raw();
    assert_eq!(control(ControlOp::Resume, own), Ok(()));
}

#[test]
fn thread_pass_fails_where_nothing_was_done() {
    assert_eq!(thread_pass_outcome(0, 0, 0), Err(MonitorError::NoSuchProcess));
    assert_eq!(thread_pass_outcome(0, 0, 5), Err(MonitorError::NoSuchProcess));
    assert_eq!(thread_pass_outcome(3, 0, 5), Err(MonitorError::PermissionDenied));
    assert_eq!(thread_pass_outcome(3, 0, 87), Err(MonitorError::NoSuchProcess));
    assert_eq!(thread_pass_outcome(3, 0, 6), Err(MonitorError::OsCallFailed(6)));
    assert_eq!(thread_pass_outcome(1, 0, 0), Err(MonitorError::OsCallFailed(0)));
    assert_eq!(thread_pass_outcome(3, 1, 5), Ok(()));
    assert_eq!(thread_pass_outcome(3, 3, 0), Ok(()));
    assert_eq!(thread_pass_outcome(usize::MAX, usize::MAX, 0), Ok(()));
}
