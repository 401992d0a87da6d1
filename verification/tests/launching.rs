use winprofile::command_line::build_windows_command_line;
use winprofile::console_launch::{
    ConsoleAction, ConsoleEvent, ConsoleLaunch, StartedProcess, TrustedInstallerLaunchError,
    TI_REQUEST_OPERATION, TI_TERMINAL_OPERATION,
};
use winprofile::journal::AuditStatus;
use winprofile::paths::{file_name, is_absolute, parent};
use winprofile::registry::encode_utf16;
use winprofile::security::SecurityError;
use winprofile::shell::{
    folder_dialog_owner, handle_from_raw, open, open_outcome, pointer_from_raw, BrowserError,
    FolderDialogError, FolderDialogOwner, FolderPick, NativeFailure, PickAction, PickEvent,
    WindowHandle, CANCELLED_HRESULT, PICKER_OPTIONS, RPC_E_CHANGED_MODE,
};
use winprofile::token_run::{
    PollAction, PollEvent, ProcessAction, ProcessEvent, ProcessInformation, ProcessLaunch,
    ServicePoll, ServiceStatus, TokenAction, TokenEvent, TokenRun,
};
use winprofile::tokens::{
    compensate_process, find_process_id_by_name, get_requesting_process_session,
    interactive_session, restore_after_operation, session_connect_state, system_command_path,
    system_directory_step, trustedinstaller_console_launch_spec, wait_for_exit, wait_millis,
    ConnectStateReply, ProcessEntry, ProcessLaunchSpec, SystemDirectoryStep, TokenError,
    CREATE_UNICODE_ENVIRONMENT, ERROR_SERVICE_ALREADY_RUNNING, SC_MANAGER_CONNECT,
    SERVICE_CONTINUE_PENDING, SERVICE_QUERY_AND_START, SERVICE_RUNNING,
    SERVICE_START_PENDING, SERVICE_START_POLL_INTERVAL_MS, SYSTEM_COMMAND_NAME,
    TRUSTED_INSTALLER_CONSOLE_TITLE, TRUSTED_INSTALLER_LAUNCH_TOKEN_ACCESS,
    TRUSTED_INSTALLER_PROCESS_ACCESS, TRUSTED_INSTALLER_SOURCE_TOKEN_ACCESS, WAIT_FAILED,
    WAIT_TIMEOUT, WTS_ACTIVE, WTS_CONNECTED,
};

/// The number of a session that is disconnected.
const WTS_DISCONNECTED: i32 = 4;

/// The number of a service that is stopped.
const SERVICE_STOPPED: u32 = 1;

// ---------------------------------------------------------------------------
// The session
// ---------------------------------------------------------------------------

#[test]
fn requesting_process_session_wins_when_physical_console_differs() {
    let physical_console_session = 1u32;
    let requesting_process_session = 9u32;

    let result = get_requesting_process_session(Ok(requesting_process_session), Ok(WTS_ACTIVE));

    assert_eq!(result.expect("request session"), requesting_process_session);
    assert_ne!(requesting_process_session, physical_console_session);
    assert_eq!(
        interactive_session(Ok(requesting_process_session)).expect("state is queried"),
        requesting_process_session
    );
}

#[test]
fn requesting_process_session_zero_is_rejected_before_state_query() {
    assert!(matches!(
        interactive_session(Ok(0)),
        Err(TokenError::NonInteractiveRequestSession(0))
    ));
    assert!(matches!(
        get_requesting_process_session(Ok(0), Ok(WTS_ACTIVE)),
        Err(TokenError::NonInteractiveRequestSession(0))
    ));
}

#[test]
fn requesting_process_session_lookup_error_fails_closed() {
    assert!(matches!(
        interactive_session(Err(TokenError::Win32Error(5))),
        Err(TokenError::Win32Error(5))
    ));
    assert!(matches!(
        get_requesting_process_session(Err(TokenError::Win32Error(5)), Ok(WTS_ACTIVE)),
        Err(TokenError::Win32Error(5))
    ));
}

#[test]
fn disconnected_requesting_process_session_is_rejected() {
    assert!(matches!(
        get_requesting_process_session(Ok(9), Ok(WTS_DISCONNECTED)),
        Err(TokenError::RequestSessionNotConnected { session_id: 9, state })
            if state == WTS_DISCONNECTED
    ));
}

#[test]
fn connected_requesting_process_session_is_accepted() {
    assert_eq!(
        get_requesting_process_session(Ok(9), Ok(WTS_CONNECTED)).expect("connected request session"),
        9
    );
}

#[test]
fn requesting_process_session_state_query_error_fails_closed() {
    assert!(matches!(
        get_requesting_process_session(Ok(9), Err(TokenError::Win32Error(1722))),
        Err(TokenError::Win32Error(1722))
    ));
}

#[test]
fn session_state_data_is_checked() {
    let reply = |present: bool, bytes_returned: u32| ConnectStateReply {
        present,
        bytes_returned,
        connect_state: WTS_ACTIVE,
    };
    assert_eq!(session_connect_state(9, Ok(reply(true, 4))).expect("valid"), WTS_ACTIVE);
    assert!(matches!(
        session_connect_state(9, Ok(reply(true, 2))),
        Err(TokenError::InvalidSessionStateData { session_id: 9, bytes_returned: 2 })
    ));
    assert!(session_connect_state(9, Ok(reply(false, 4))).is_err());
    assert!(matches!(session_connect_state(9, Err(5)), Err(TokenError::Win32Error(5))));
}

// ---------------------------------------------------------------------------
// What is launched
// ---------------------------------------------------------------------------

#[test]
fn command_resolver_is_absolute_and_ignores_fake_current_directory_cmd() {
    let directory = r"C:\Windows\System32".to_string();
    let canonical_fake = r"C:\Temp\fake-cmd\cmd.exe";
    let looked_for = system_command_path(&directory);

    let spec = trustedinstaller_console_launch_spec(Ok(directory), Ok(looked_for.clone()), true)
        .expect("resolve system command");

    assert!(is_absolute(spec.application_path()));
    assert_eq!(file_name(spec.application_path()).as_deref(), Some(SYSTEM_COMMAND_NAME));
    assert_ne!(spec.application_path(), canonical_fake);
    assert_eq!(parent(spec.application_path()).as_deref(), Some(spec.working_directory()));
    assert_eq!(spec.arguments, vec!["/k", "title", TRUSTED_INSTALLER_CONSOLE_TITLE]);

    assert!(matches!(
        trustedinstaller_console_launch_spec(
            Ok(r"C:\Windows\System32".to_string()),
            Err("gone".to_string()),
            true
        ),
        Err(TokenError::SystemExecutableUnavailable { path, reason })
            if path == looked_for && reason == "gone"
    ));
    assert!(matches!(
        trustedinstaller_console_launch_spec(
            Ok(r"C:\Windows\System32".to_string()),
            Ok("cmd.exe".to_string()),
            true
        ),
        Err(TokenError::InvalidSystemDirectory(path)) if path == "cmd.exe"
    ));
}

#[test]
fn the_system_directory_is_asked_for_again_where_it_does_not_fit() {
    let units = encode_utf16(r"C:\Windows\System32");
    assert!(matches!(
        system_directory_step(260, units.len() as u32, &units, 0),
        Ok(SystemDirectoryStep::Found(path)) if path == r"C:\Windows\System32"
    ));
    assert!(matches!(
        system_directory_step(4, 300, &Vec::new(), 0),
        Ok(SystemDirectoryStep::Retry(301))
    ));
    assert!(matches!(
        system_directory_step(260, 0, &Vec::new(), 5),
        Err(TokenError::Win32Error(5))
    ));
    let relative = encode_utf16("System32");
    assert!(matches!(
        system_directory_step(260, 8, &relative, 0),
        Err(TokenError::InvalidSystemDirectory(path)) if path == "System32"
    ));
}

#[test]
fn command_lines_are_quoted_as_windows_reads_them() {
    let line = |application: &str, arguments: &[&str]| {
        let arguments: Vec<Vec<u16>> = arguments.iter().map(|a| encode_utf16(a)).collect();
        let mut units = build_windows_command_line(&encode_utf16(application), &arguments);
        assert_eq!(units.pop(), Some(0));
        String::from_utf16(&units).expect("UTF-16")
    };
    assert_eq!(line("cmd.exe", &["/k"]), "cmd.exe /k");
    assert_eq!(line("a b", &["", "x y"]), "\"a b\" \"\" \"x y\"");
    assert_eq!(line("a", &["say \"hi\""]), "a \"say \\\"hi\\\"\"");
    assert_eq!(line("a", &["tail \\"]), "a \"tail \\\\\"");
}

#[test]
fn processes_are_found_by_name() {
    let entry = |name: &str, pid: u32| {
        let mut image_name = encode_utf16(name);
        image_name.push(0);
        ProcessEntry { image_name, process_id: pid }
    };
    let entries = || vec![entry("System", 4), entry("TrustedInstaller.exe", 77)];
    assert_eq!(
        find_process_id_by_name("trustedinstaller.EXE", Ok(entries())).expect("found"),
        77
    );
    assert!(matches!(
        find_process_id_by_name("other.exe", Ok(entries())),
        Err(TokenError::ProcessNotFound(name)) if name == "other.exe"
    ));
    assert!(matches!(
        find_process_id_by_name("other.exe", Err(5)),
        Err(TokenError::Win32Error(5))
    ));
}

#[test]
fn waits_end_in_time_or_say_why_not() {
    assert_eq!(wait_millis(5_000), 5_000);
    assert_eq!(wait_millis(u64::MAX), u32::MAX - 1);
    assert!(wait_for_exit(5_000, 0, 0).is_ok());
    assert!(matches!(
        wait_for_exit(5_000, WAIT_TIMEOUT, 0),
        Err(TokenError::ProcessWaitTimeout(5_000))
    ));
    assert!(matches!(
        wait_for_exit(5_000, WAIT_FAILED, 6),
        Err(TokenError::ProcessWaitFailed(6))
    ));
    assert!(compensate_process(Ok(()), Ok(())).is_none());
    let failures = compensate_process(Err(TokenError::Win32Error(5)), Ok(())).expect("failure");
    assert!(failures.contains('5'));
}

// ---------------------------------------------------------------------------
// The token
// ---------------------------------------------------------------------------

fn status(state: u32, process_id: u32, win32: u32, service: u32) -> ServiceStatus {
    ServiceStatus { state, process_id, win32_exit_code: win32, service_exit_code: service }
}

/// A poll up to the query for the state of the service, and the actions on the way.
fn queried(started: Result<(), u32>) -> (ServicePoll, Vec<String>) {
    let (mut run, first) = ServicePoll::ensure_trustedinstaller_service_running();
    let mut calls = vec![format!("{first:?}")];
    calls.push(format!("{:?}", run.step(PollEvent::Called(Ok(())))));
    calls.push(format!("{:?}", run.step(PollEvent::Called(Ok(())))));
    calls.push(format!("{:?}", run.step(PollEvent::Called(started))));
    (run, calls)
}

/// A run behind the start of the service.
fn served() -> TokenRun {
    let (mut run, first) = TokenRun::duplicate_trustedinstaller_token();
    assert!(matches!(first, TokenAction::EnsureService));
    assert!(matches!(
        run.step(TokenEvent::Served(Ok(7331))),
        TokenAction::RaiseDebug { privilege: "SeDebugPrivilege" }
    ));
    run
}

#[test]
fn trustedinstaller_capture_uses_exact_minimum_access_masks() {
    let mut run = served();
    assert!(matches!(
        run.step(TokenEvent::Privileged(Ok(()))),
        TokenAction::OpenProcess { pid: 7331, access: TRUSTED_INSTALLER_PROCESS_ACCESS }
    ));
    assert!(matches!(
        run.step(TokenEvent::Called(Ok(()))),
        TokenAction::OpenToken { access: TRUSTED_INSTALLER_SOURCE_TOKEN_ACCESS }
    ));
    assert!(matches!(
        run.step(TokenEvent::Called(Ok(()))),
        TokenAction::DuplicateToken { access: TRUSTED_INSTALLER_LAUNCH_TOKEN_ACCESS }
    ));
    assert!(matches!(run.step(TokenEvent::Called(Ok(()))), TokenAction::RestoreDebug));
    assert!(matches!(
        run.step(TokenEvent::Privileged(Ok(()))),
        TokenAction::RaiseImpersonate { privilege: "SeImpersonatePrivilege" }
    ));
    assert!(matches!(
        run.step(TokenEvent::Privileged(Ok(()))),
        TokenAction::Finish(Ok(()))
    ));
    // PROCESS_QUERY_LIMITED_INFORMATION, TOKEN_DUPLICATE, and the three rights of the copy:
    // TOKEN_QUERY, TOKEN_DUPLICATE and TOKEN_ASSIGN_PRIMARY.
    assert_eq!(TRUSTED_INSTALLER_PROCESS_ACCESS, 0x1000);
    assert_eq!(TRUSTED_INSTALLER_SOURCE_TOKEN_ACCESS, 0x2);
    assert_eq!(TRUSTED_INSTALLER_LAUNCH_TOKEN_ACCESS, 0x8 | 0x2 | 0x1);
}

#[test]
fn trustedinstaller_capture_reports_the_exact_failing_stage() {
    let stages = [
        (0, "OpenProcess for TrustedInstaller"),
        (1, "OpenProcessToken for TrustedInstaller"),
        (2, "DuplicateTokenEx for TrustedInstaller"),
    ];
    for (successes, expected) in stages {
        let mut run = served();
        run.step(TokenEvent::Privileged(Ok(())));
        for _ in 0..successes {
            run.step(TokenEvent::Called(Ok(())));
        }
        assert!(matches!(run.step(TokenEvent::Called(Err(5))), TokenAction::RestoreDebug));
        assert!(matches!(
            run.step(TokenEvent::Privileged(Ok(()))),
            TokenAction::Finish(Err(TokenError::Win32Operation { operation, code: 5 }))
                if operation == expected
        ));
    }
}

#[test]
fn trustedinstaller_scm_uses_exact_masks_and_returns_running_pid() {
    let (mut run, calls) = queried(Ok(()));
    assert_eq!(
        calls,
        vec![
            format!("{:?}", PollAction::OpenManager { access: SC_MANAGER_CONNECT }),
            format!(
                "{:?}",
                PollAction::OpenService {
                    name: "TrustedInstaller",
                    access: SERVICE_QUERY_AND_START,
                }
            ),
            format!("{:?}", PollAction::StartService),
            format!("{:?}", PollAction::QueryStatus),
        ]
    );
    assert!(matches!(
        run.step(PollEvent::Queried(Ok(status(SERVICE_RUNNING, 7331, 0, 0)))),
        PollAction::Finish(Ok(7331))
    ));
    // SERVICE_START and SERVICE_QUERY_STATUS.
    assert_eq!(SERVICE_QUERY_AND_START, 0x10 | 0x4);
}

#[test]
fn trustedinstaller_scm_accepts_already_running_and_polls_transitional_states() {
    let (mut run, calls) = queried(Err(ERROR_SERVICE_ALREADY_RUNNING));
    assert_eq!(calls.last(), Some(&format!("{:?}", PollAction::QueryStatus)));
    for state in [SERVICE_START_PENDING, SERVICE_CONTINUE_PENDING] {
        assert!(matches!(
            run.step(PollEvent::Queried(Ok(status(state, 0, 0, 0)))),
            PollAction::Wait { millis: SERVICE_START_POLL_INTERVAL_MS }
        ));
        assert!(matches!(run.step(PollEvent::Waited), PollAction::QueryStatus));
    }
    assert!(matches!(
        run.step(PollEvent::Queried(Ok(status(SERVICE_RUNNING, 7331, 0, 0)))),
        PollAction::Finish(Ok(7331))
    ));
}

#[test]
fn trustedinstaller_service_that_never_arrives_is_given_up() {
    let (mut run, _) = queried(Ok(()));
    let mut waits: usize = 0;
    loop {
        match run.step(PollEvent::Queried(Ok(status(SERVICE_START_PENDING, 0, 0, 0)))) {
            PollAction::Wait { .. } => {
                waits += 1;
                run.step(PollEvent::Waited);
            }
            PollAction::Finish(Err(TokenError::TrustedInstallerServiceState { .. })) => break,
            other => panic!("{other:?}"),
        }
    }
    assert_eq!(waits, 19);
}

#[test]
fn trustedinstaller_scm_reports_the_exact_open_and_start_stage() {
    let cases = [
        (0, "OpenSCManagerW for TrustedInstaller"),
        (1, "OpenServiceW for TrustedInstaller"),
        (2, "StartServiceW for TrustedInstaller"),
    ];
    for (successes, expected_operation) in cases {
        let (mut run, _) = ServicePoll::ensure_trustedinstaller_service_running();
        for _ in 0..successes {
            run.step(PollEvent::Called(Ok(())));
        }
        assert!(matches!(
            run.step(PollEvent::Called(Err(5))),
            PollAction::Finish(Err(TokenError::Win32Operation { operation, code: 5 }))
                if operation == expected_operation
        ));
    }
}

#[test]
fn a_service_that_does_not_run_has_no_token() {
    let (mut run, _) = TokenRun::duplicate_trustedinstaller_token();
    assert!(matches!(
        run.step(TokenEvent::Served(Err(TokenError::Win32Error(5)))),
        TokenAction::Finish(Err(TokenError::Win32Error(5)))
    ));
}

#[test]
fn trustedinstaller_query_status_error_keeps_stage_and_win32_code() {
    let (mut run, _) = queried(Ok(()));
    assert!(matches!(
        run.step(PollEvent::Queried(Err(5))),
        PollAction::Finish(Err(TokenError::Win32Operation {
            operation: "QueryServiceStatusEx for TrustedInstaller",
            code: 5,
        }))
    ));
}

#[test]
fn trustedinstaller_terminal_service_state_is_diagnostic_and_not_retried() {
    let (mut run, _) = queried(Ok(()));
    assert!(matches!(
        run.step(PollEvent::Queried(Ok(status(SERVICE_STOPPED, 0, 1066, 73)))),
        PollAction::Finish(Err(TokenError::TrustedInstallerServiceState {
            state: SERVICE_STOPPED,
            win32_exit_code: 1066,
            service_exit_code: 73,
            process_id: 0,
        }))
    ));
}

#[test]
fn a_privilege_that_stays_up_is_told_beside_the_error() {
    assert!(matches!(
        restore_after_operation::<u32>(
            Err(TokenError::Win32Error(5)),
            Err(SecurityError::Win32Error(1300)),
        ),
        Err(TokenError::OperationAndPrivilegeRestoreFailed { operation_error, restore_error })
            if operation_error.contains('5') && restore_error.contains("1300")
    ));
    assert_eq!(restore_after_operation(Ok(7u32), Ok(())).expect("value"), 7);
    assert!(matches!(
        restore_after_operation(Ok(7u32), Err(SecurityError::Win32Error(1300))),
        Err(TokenError::SecurityError(_))
    ));
}

// ---------------------------------------------------------------------------
// The process
// ---------------------------------------------------------------------------

fn launch_spec() -> ProcessLaunchSpec {
    ProcessLaunchSpec {
        application_path: r"C:\System Root\cmd.exe".to_string(),
        working_directory: r"C:\System Root".to_string(),
        arguments: vec![
            "/k".to_string(),
            "title".to_string(),
            TRUSTED_INSTALLER_CONSOLE_TITLE.to_string(),
        ],
    }
}

fn created(info: Result<ProcessInformation, u32>) -> (ProcessLaunch, ProcessAction) {
    let (mut launch, _) = ProcessLaunch::launch_process_with_token(launch_spec());
    launch.step(ProcessEvent::EnvironmentCreated(Ok(())));
    let next = launch.step(ProcessEvent::ProcessCreated(info));
    (launch, next)
}

#[test]
fn process_creation_uses_with_token_contract_and_inherits_caller_desktop() {
    let (mut launch, first) = ProcessLaunch::launch_process_with_token(launch_spec());
    assert!(matches!(first, ProcessAction::CreateEnvironment));
    let ProcessAction::CreateProcess {
        logon_flags,
        application,
        command_line,
        creation_flags,
        working_directory,
    } = launch.step(ProcessEvent::EnvironmentCreated(Ok(())))
    else {
        panic!("the process is created");
    };
    let text = |units: &[u16]| {
        assert_eq!(units.last(), Some(&0));
        String::from_utf16(&units[..units.len() - 1]).expect("UTF-16")
    };
    assert_eq!(logon_flags, 0);
    assert_eq!(text(&application), launch_spec().application_path);
    assert_eq!(creation_flags, CREATE_UNICODE_ENVIRONMENT);
    assert_eq!(text(&working_directory), launch_spec().working_directory);
    assert_eq!(
        text(&command_line),
        r#""C:\System Root\cmd.exe" /k title "TrustedInstaller Elevated Console""#
    );
    launch.step(ProcessEvent::ProcessCreated(Err(5)));
    assert!(matches!(
        launch.step(ProcessEvent::Restored(Ok(()))),
        ProcessAction::Finish(Err(TokenError::Win32Operation {
            operation: "CreateProcessWithTokenW for TrustedInstaller",
            ..
        }))
    ));
}

#[test]
fn privilege_restore_failure_after_process_creation_compensates_and_closes() {
    let (mut launch, next) =
        created(Ok(ProcessInformation { has_process: true, has_thread: true, pid: 7331 }));
    assert!(matches!(next, ProcessAction::RestorePrivilege));
    assert!(matches!(
        launch.step(ProcessEvent::Restored(Err(SecurityError::Win32Error(1300)))),
        ProcessAction::Terminate { .. }
    ));
    assert!(matches!(
        launch.step(ProcessEvent::Terminated(Ok(()))),
        ProcessAction::WaitForExit { .. }
    ));
    assert!(matches!(
        launch.step(ProcessEvent::Exited(Ok(()))),
        ProcessAction::Finish(Err(TokenError::PrivilegeRestoreCompensated {
            pid: 7331,
            restore_error,
        })) if restore_error.contains("1300")
    ));
}

#[test]
fn partial_process_information_is_compensated_before_error() {
    let (mut launch, next) =
        created(Ok(ProcessInformation { has_process: true, has_thread: false, pid: 8123 }));
    assert!(matches!(next, ProcessAction::Terminate { .. }));
    assert!(matches!(
        launch.step(ProcessEvent::Terminated(Ok(()))),
        ProcessAction::WaitForExit { .. }
    ));
    launch.step(ProcessEvent::Exited(Ok(())));
    assert!(matches!(
        launch.step(ProcessEvent::Restored(Ok(()))),
        ProcessAction::Finish(Err(TokenError::InvalidProcessInformationCompensated(8123)))
    ));
}

#[test]
fn partial_process_information_compensation_failure_is_explicit() {
    let (mut launch, _) =
        created(Ok(ProcessInformation { has_process: true, has_thread: false, pid: 8124 }));
    launch.step(ProcessEvent::Terminated(Err(TokenError::Win32Error(5))));
    launch.step(ProcessEvent::Exited(Err(TokenError::Win32Error(1460))));
    assert!(matches!(
        launch.step(ProcessEvent::Restored(Ok(()))),
        ProcessAction::Finish(Err(TokenError::InvalidProcessInformationCompensationFailed {
            pid: 8124,
            compensation_error,
        })) if compensation_error.contains("5") && compensation_error.contains("1460")
    ));
}

#[test]
fn missing_process_handle_contract_violation_is_explicit() {
    let (mut launch, _) =
        created(Ok(ProcessInformation { has_process: false, has_thread: true, pid: 8125 }));
    assert!(matches!(
        launch.step(ProcessEvent::Restored(Ok(()))),
        ProcessAction::Finish(Err(TokenError::InvalidProcessInformationMissingProcessHandle {
            pid: 8125,
            thread_handle_present: true,
        }))
    ));
}

#[test]
fn privileged_launch_has_no_session_token_or_tcb_path() {
    let mut shown = String::new();
    let (mut poll, calls) = queried(Ok(()));
    shown.push_str(&calls.concat());
    let running = PollEvent::Queried(Ok(status(SERVICE_RUNNING, 7331, 0, 0)));
    shown.push_str(&format!("{:?}", poll.step(running)));
    let (mut run, first) = TokenRun::duplicate_trustedinstaller_token();
    shown.push_str(&format!("{first:?}"));
    for event in [
        TokenEvent::Served(Ok(7331)),
        TokenEvent::Privileged(Ok(())),
        TokenEvent::Called(Ok(())),
        TokenEvent::Called(Ok(())),
        TokenEvent::Called(Ok(())),
        TokenEvent::Privileged(Ok(())),
        TokenEvent::Privileged(Ok(())),
    ] {
        shown.push_str(&format!("{:?}", run.step(event)));
    }
    let (mut launch, next) = created(Err(5));
    shown.push_str(&format!("{next:?}"));
    shown.push_str(&format!("{:?}", launch.step(ProcessEvent::Restored(Ok(())))));
    let forbidden = [
        ["CreateProcess", "AsUserW"].concat(),
        ["SetToken", "Information"].concat(),
        ["Token", "SessionId"].concat(),
        ["SE_", "TCB_NAME"].concat(),
        ["winsta0", "\\default"].concat(),
    ];

    for pattern in forbidden {
        assert!(!shown.contains(&pattern), "forbidden path remains: {pattern}");
    }
    assert!(shown.contains(&["CreateProcess", "WithTokenW"].concat()));
}

// ---------------------------------------------------------------------------
// The console
// ---------------------------------------------------------------------------

fn audits(action: &ConsoleAction, name: &str, outcome: AuditStatus) -> bool {
    matches!(
        action,
        ConsoleAction::Audit { operation, status, .. } if *operation == name && *status == outcome
    )
}

#[test]
fn trustedinstaller_request_audit_failure_prevents_launcher_call() {
    let (mut launch, first) = ConsoleLaunch::execute_trustedinstaller_launch();
    assert!(matches!(first, ConsoleAction::Lock));
    let request = launch.step(ConsoleEvent::Locked(Ok(())));
    assert!(audits(&request, TI_REQUEST_OPERATION, AuditStatus::Success));
    assert!(matches!(
        launch.step(ConsoleEvent::Audited(Err("request journal unavailable".to_string()))),
        ConsoleAction::Finish(Err(TrustedInstallerLaunchError::RequestAudit(error)))
            if error == "request journal unavailable"
    ));
}

#[test]
fn trustedinstaller_operation_lock_failure_prevents_request_and_launcher() {
    let (mut launch, _) = ConsoleLaunch::execute_trustedinstaller_launch();
    assert!(matches!(
        launch.step(ConsoleEvent::Locked(Err("another operation is active".to_string()))),
        ConsoleAction::Finish(Err(TrustedInstallerLaunchError::OperationLock(error)))
            if error == "another operation is active"
    ));
}

#[test]
fn trustedinstaller_operation_guard_covers_request_and_terminal_audit() {
    let (mut launch, first) = ConsoleLaunch::execute_trustedinstaller_launch();
    assert!(matches!(first, ConsoleAction::Lock), "the lock comes before everything");
    launch.step(ConsoleEvent::Locked(Ok(())));
    assert!(matches!(launch.step(ConsoleEvent::Audited(Ok(()))), ConsoleAction::Launch));
    let recorded = launch.step(ConsoleEvent::Launched(Ok(StartedProcess {
        pid: 4242,
        session_id: 7,
    })));
    assert!(matches!(
        &recorded,
        ConsoleAction::Audit { details, .. } if details == "Spawned PID 4242 in session 7"
    ));
    assert!(matches!(
        launch.step(ConsoleEvent::Audited(Ok(()))),
        ConsoleAction::Finish(Ok(4242))
    ));
}

#[test]
fn trustedinstaller_terminal_audit_failure_terminates_and_waits() {
    let (mut launch, _) = ConsoleLaunch::execute_trustedinstaller_launch();
    launch.step(ConsoleEvent::Locked(Ok(())));
    launch.step(ConsoleEvent::Audited(Ok(())));
    let recorded = launch.step(ConsoleEvent::Launched(Ok(StartedProcess {
        pid: 4242,
        session_id: 7,
    })));
    assert!(audits(&recorded, TI_TERMINAL_OPERATION, AuditStatus::Success));
    assert!(matches!(
        launch.step(ConsoleEvent::Audited(Err("terminal journal unavailable".to_string()))),
        ConsoleAction::Terminate { .. }
    ));
    assert!(matches!(
        launch.step(ConsoleEvent::Terminated(Ok(()))),
        ConsoleAction::WaitForExit { .. }
    ));
    assert!(matches!(
        launch.step(ConsoleEvent::Exited(Ok(()))),
        ConsoleAction::Finish(Err(TrustedInstallerLaunchError::TerminalAuditCompensated {
            pid: 4242,
            audit_error,
        })) if audit_error == "terminal journal unavailable"
    ));
}

#[test]
fn trustedinstaller_launch_failure_is_durably_audited() {
    let (mut launch, _) = ConsoleLaunch::execute_trustedinstaller_launch();
    launch.step(ConsoleEvent::Locked(Ok(())));
    launch.step(ConsoleEvent::Audited(Ok(())));
    let recorded = launch.step(ConsoleEvent::Launched(Err("CreateProcess denied".to_string())));
    assert!(audits(&recorded, TI_TERMINAL_OPERATION, AuditStatus::Failed));
    assert!(matches!(
        launch.step(ConsoleEvent::Audited(Ok(()))),
        ConsoleAction::Finish(Err(TrustedInstallerLaunchError::Launch(error)))
            if error == "CreateProcess denied"
    ));
}

#[test]
fn trustedinstaller_launch_and_failure_audit_errors_are_both_visible() {
    let (mut launch, _) = ConsoleLaunch::execute_trustedinstaller_launch();
    launch.step(ConsoleEvent::Locked(Ok(())));
    launch.step(ConsoleEvent::Audited(Ok(())));
    launch.step(ConsoleEvent::Launched(Err("CreateProcess denied".to_string())));
    assert!(matches!(
        launch.step(ConsoleEvent::Audited(Err("failed journal unavailable".to_string()))),
        ConsoleAction::Finish(Err(TrustedInstallerLaunchError::LaunchAndFailureAudit {
            launch_error,
            audit_error,
        })) if launch_error == "CreateProcess denied"
            && audit_error == "failed journal unavailable"
    ));
}

#[test]
fn trustedinstaller_compensation_failure_names_both_steps() {
    let (mut launch, _) = ConsoleLaunch::execute_trustedinstaller_launch();
    launch.step(ConsoleEvent::Locked(Ok(())));
    launch.step(ConsoleEvent::Audited(Ok(())));
    launch.step(ConsoleEvent::Launched(Ok(StartedProcess { pid: 9, session_id: 1 })));
    launch.step(ConsoleEvent::Audited(Err("journal".to_string())));
    launch.step(ConsoleEvent::Terminated(Err("denied".to_string())));
    let ConsoleAction::Finish(Err(error)) =
        launch.step(ConsoleEvent::Exited(Err("timeout".to_string())))
    else {
        panic!("the launch fails");
    };
    assert_eq!(
        error.message(),
        "TrustedInstaller SUCCESS audit failed for PID 9: journal; compensation failed: \
         terminate: denied; wait: timeout"
    );
}

// ---------------------------------------------------------------------------
// The shell
// ---------------------------------------------------------------------------

#[test]
fn owner_requires_an_exact_win32_handle() {
    assert_eq!(
        folder_dialog_owner(Some(WindowHandle::Win32(1))).expect("Win32 owner"),
        FolderDialogOwner(1)
    );
    assert!(matches!(
        folder_dialog_owner(Some(WindowHandle::Foreign)),
        Err(FolderDialogError::UnsupportedOwner)
    ));
    assert!(matches!(folder_dialog_owner(None), Err(FolderDialogError::OwnerUnavailable)));
}

fn failure(code: i32) -> NativeFailure {
    NativeFailure { code, reason: format!("HRESULT {code}") }
}

#[test]
fn fresh_ui_thread_accepts_sta_initialization() {
    let (mut pick, first) = FolderPick::pick_existing_folder(FolderDialogOwner(1), "Destination", "Use");
    assert!(matches!(first, PickAction::Initialize));
    assert!(matches!(pick.step(PickEvent::Initialized(Ok(()))), PickAction::CreateDialog));
}

#[test]
fn incompatible_com_apartment_is_refused_explicitly() {
    let (mut pick, _) = FolderPick::pick_existing_folder(FolderDialogOwner(1), "Destination", "Use");
    assert!(matches!(
        pick.step(PickEvent::Initialized(Err(failure(RPC_E_CHANGED_MODE)))),
        PickAction::Finish(Err(FolderDialogError::ApartmentMismatch))
    ));
    let (mut pick, _) = FolderPick::pick_existing_folder(FolderDialogOwner(1), "Destination", "Use");
    assert!(matches!(
        pick.step(PickEvent::Initialized(Err(failure(-1)))),
        PickAction::Finish(Err(FolderDialogError::ComInitialization(_)))
    ));
}

/// A picker that is shown.
fn shown_picker() -> FolderPick {
    let (mut pick, _) = FolderPick::pick_existing_folder(FolderDialogOwner(0x1234), "Destination", "Use");
    pick.step(PickEvent::Initialized(Ok(())));
    pick.step(PickEvent::Called(Ok(())));
    assert!(matches!(
        pick.step(PickEvent::Options(Ok(0x1))),
        PickAction::SetOptions { options } if options == (0x1 | PICKER_OPTIONS)
    ));
    assert!(matches!(
        pick.step(PickEvent::Called(Ok(()))),
        PickAction::SetTitle { title } if title == "Destination"
    ));
    assert!(matches!(
        pick.step(PickEvent::Called(Ok(()))),
        PickAction::SetLabel { label } if label == "Use"
    ));
    assert!(matches!(
        pick.step(PickEvent::Called(Ok(()))),
        PickAction::Show { hwnd: 0x1234 }
    ));
    pick
}

#[test]
fn a_dismissed_dialog_picks_nothing() {
    let mut pick = shown_picker();
    assert!(matches!(
        pick.step(PickEvent::Called(Err(failure(CANCELLED_HRESULT)))),
        PickAction::Finish(Ok(None))
    ));
    let mut pick = shown_picker();
    assert!(matches!(
        pick.step(PickEvent::Called(Err(failure(-1)))),
        PickAction::Finish(Err(FolderDialogError::Native(_)))
    ));
    let mut pick = shown_picker();
    pick.step(PickEvent::Called(Ok(())));
    pick.step(PickEvent::Called(Ok(())));
    assert!(matches!(
        pick.step(PickEvent::Named(Ok(Ok(r"D:\Picked".to_string())))),
        PickAction::Finish(Ok(Some(path))) if path == r"D:\Picked"
    ));
}

#[test]
fn raw_handles_are_held_only_where_they_are_valid() {
    assert_eq!(handle_from_raw(0), None);
    assert_eq!(handle_from_raw(-1), None);
    assert_eq!(handle_from_raw(8), Some(8));
    assert_eq!(pointer_from_raw(0), None);
    assert_eq!(pointer_from_raw(8), Some(8));
}

#[test]
fn the_shell_opens_targets_without_a_zero() {
    assert!(matches!(open("https://slint.dev", false), Err(BrowserError::Unsupported)));
    assert!(matches!(open("a\0b", true), Err(BrowserError::InvalidInput)));
    let request = open("https://slint.dev", true).expect("request");
    assert_eq!(
        String::from_utf16(&request.target).expect("UTF-16"),
        "https://slint.dev\0"
    );
    assert!(open_outcome(33).is_ok());
    let refused = open_outcome(5).expect_err("refused");
    assert_eq!(
        refused.message(),
        "Windows shell rejected the browser target with code 5"
    );
}
