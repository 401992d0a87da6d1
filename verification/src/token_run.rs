//! The runs that start the TrustedInstaller service, take its token and start a process
//! under it.
use crate::command_line::{build_windows_command_line, quoted, quoted_list};
use crate::registry::{encode_utf16, utf16_units};
use crate::security::{SecurityError, SE_DEBUG_NAME, SE_IMPERSONATE_NAME};
use crate::text::{joined, owned};
use crate::tokens::{
    compensate_process, compensation_failures, encode_all, restore_after_operation,
    restored_outcome, ProcessLaunchSpec, TokenError, CREATE_UNICODE_ENVIRONMENT,
    ERROR_SERVICE_ALREADY_RUNNING, PROCESS_COMPENSATION_EXIT_CODE,
    PROCESS_COMPENSATION_TIMEOUT_MS, SC_MANAGER_CONNECT, SERVICE_CONTINUE_PENDING,
    SERVICE_QUERY_AND_START, SERVICE_RUNNING, SERVICE_START_PENDING, SERVICE_START_POLL_ATTEMPTS,
    SERVICE_START_POLL_INTERVAL_MS, TRUSTED_INSTALLER_LAUNCH_TOKEN_ACCESS,
    TRUSTED_INSTALLER_PROCESS_ACCESS, TRUSTED_INSTALLER_SERVICE,
    TRUSTED_INSTALLER_SOURCE_TOKEN_ACCESS,
};
use vstd::prelude::*;

verus! {

// ---------------------------------------------------------------------------
// The service
// ---------------------------------------------------------------------------

/// What the poll is waiting for.
#[derive(Debug, Clone, Copy, PartialEq, Eq, Structural)]
pub enum PollStage {
    OpenManager,
    OpenService,
    StartService,
    QueryStatus,
    Wait,
    Finished,
}

/// The state of a service.
#[derive(Debug, Clone, Copy, PartialEq, Eq, Structural)]
pub struct ServiceStatus {
    pub state: u32,
    pub win32_exit_code: u32,
    pub service_exit_code: u32,
    pub process_id: u32,
}

/// The outcome of a call; a failed one holds its error code.
#[derive(Debug)]
pub enum PollEvent {
    Called(Result<(), u32>),
    Queried(Result<ServiceStatus, u32>),
    Waited,
}

#[derive(Debug)]
pub enum PollAction {
    OpenManager { access: u32 },
    OpenService { name: &'static str, access: u32 },
    StartService,
    QueryStatus,
    Wait { millis: u64 },
    /// The process of the service, or why it does not run.
    Finish(Result<u32, TokenError>),
}

/// The start of the TrustedInstaller service.
#[derive(Debug)]
pub struct ServicePoll {
    pub stage: PollStage,
    /// How often the service was found on its way.
    pub attempt: usize,
}

impl PollStage {
    pub open spec fn expects(self, event: PollEvent) -> bool {
        match self {
            PollStage::OpenManager | PollStage::OpenService | PollStage::StartService =>
                event is Called,
            PollStage::QueryStatus => event is Queried,
            PollStage::Wait => event is Waited,
            PollStage::Finished => false,
        }
    }

    /// The call that the stage waits for, as an error names it.
    pub open spec fn call(self) -> Seq<char> {
        match self {
            PollStage::OpenManager => "OpenSCManagerW for TrustedInstaller"@,
            PollStage::OpenService => "OpenServiceW for TrustedInstaller"@,
            PollStage::StartService => "StartServiceW for TrustedInstaller"@,
            _ => "QueryServiceStatusEx for TrustedInstaller"@,
        }
    }

    fn call_name(self) -> (r: &'static str)
        ensures
            r@ == self.call(),
    {
        match self {
            PollStage::OpenManager => "OpenSCManagerW for TrustedInstaller",
            PollStage::OpenService => "OpenServiceW for TrustedInstaller",
            PollStage::StartService => "StartServiceW for TrustedInstaller",
            _ => "QueryServiceStatusEx for TrustedInstaller",
        }
    }
}

/// Whether a service runs, and as which process.
pub open spec fn is_up(status: ServiceStatus) -> bool {
    status.state == SERVICE_RUNNING && status.process_id != 0
}

/// Whether a service is on its way to running.
pub open spec fn is_transitional(status: ServiceStatus) -> bool {
    status.state == SERVICE_START_PENDING || status.state == SERVICE_CONTINUE_PENDING
}

/// The error of a service that does not run.
pub open spec fn state_error(status: ServiceStatus) -> TokenError {
    TokenError::TrustedInstallerServiceState {
        state: status.state,
        win32_exit_code: status.win32_exit_code,
        service_exit_code: status.service_exit_code,
        process_id: status.process_id,
    }
}

fn service_state_error(status: ServiceStatus) -> (r: TokenError)
    ensures
        r == state_error(status),
{
    TokenError::TrustedInstallerServiceState {
        state: status.state,
        win32_exit_code: status.win32_exit_code,
        service_exit_code: status.service_exit_code,
        process_id: status.process_id,
    }
}

pub open spec fn poll_ends(n: ServicePoll, action: PollAction, r: Result<u32, TokenError>) -> bool {
    n.stage is Finished && action == PollAction::Finish(r)
}

/// The same poll at another stage.
pub open spec fn poll_goes(m: ServicePoll, n: ServicePoll, stage: PollStage) -> bool {
    n.stage == stage && n.attempt == m.attempt
}

/// What follows an event in the start of the service.
pub open spec fn poll_follows(
    m: ServicePoll,
    event: PollEvent,
    n: ServicePoll,
    action: PollAction,
) -> bool {
    match event {
        PollEvent::Called(Ok(_)) => match m.stage {
            PollStage::OpenManager => poll_goes(m, n, PollStage::OpenService) && action == (
            PollAction::OpenService {
                name: TRUSTED_INSTALLER_SERVICE,
                access: SERVICE_QUERY_AND_START,
            }),
            PollStage::OpenService => poll_goes(m, n, PollStage::StartService)
                && action is StartService,
            _ => poll_goes(m, n, PollStage::QueryStatus) && action is QueryStatus,
        },
        PollEvent::Called(Err(code)) => if m.stage is StartService && code
            == ERROR_SERVICE_ALREADY_RUNNING {
            poll_goes(m, n, PollStage::QueryStatus) && action is QueryStatus
        } else {
            n.stage is Finished && (action matches PollAction::Finish(Err(e)) && e.is_operation(
                m.stage.call(),
                code,
            ))
        },
        PollEvent::Queried(Err(code)) => n.stage is Finished && (action matches PollAction::Finish(
            Err(e),
        ) && e.is_operation(m.stage.call(), code)),
        PollEvent::Queried(Ok(status)) => if is_up(status) {
            poll_ends(n, action, Ok(status.process_id))
        } else if is_transitional(status) && m.attempt + 1 < SERVICE_START_POLL_ATTEMPTS {
            n.stage is Wait && n.attempt == m.attempt + 1 && action == (PollAction::Wait {
                millis: SERVICE_START_POLL_INTERVAL_MS,
            })
        } else {
            poll_ends(n, action, Err(state_error(status)))
        },
        PollEvent::Waited => poll_goes(m, n, PollStage::QueryStatus) && action is QueryStatus,
    }
}

impl ServicePoll {
    /// What holds between steps: the service was asked about less often than it may be.
    pub open spec fn inv(self) -> bool {
        self.attempt < SERVICE_START_POLL_ATTEMPTS
    }

    /// Starts the service where it does not run yet.
    pub fn ensure_trustedinstaller_service_running() -> (r: (ServicePoll, PollAction))
        ensures
            r.0.inv(),
            r.0.stage is OpenManager,
            r.0.attempt == 0,
            r.1 == (PollAction::OpenManager { access: SC_MANAGER_CONNECT }),
    {
        (
            ServicePoll { stage: PollStage::OpenManager, attempt: 0 },
            PollAction::OpenManager { access: SC_MANAGER_CONNECT },
        )
    }

    fn finish(&mut self, result: Result<u32, TokenError>) -> (r: PollAction)
        requires
            old(self).inv(),
        ensures
            final(self).inv(),
            poll_ends(*final(self), r, result),
    {
        self.stage = PollStage::Finished;
        PollAction::Finish(result)
    }

    /// Goes on after an event. The service is asked about no more than a fixed number of
    /// times, and only one that runs has a process.
    pub fn step(&mut self, event: PollEvent) -> (r: PollAction)
        requires
            old(self).inv(),
            old(self).stage.expects(event),
        ensures
            final(self).inv(),
            poll_follows(*old(self), event, *final(self), r),
            r matches PollAction::Finish(Ok(pid)) ==> pid != 0,
    {
        match event {
            PollEvent::Called(outcome) => match outcome {
                Ok(()) => match self.stage {
                    PollStage::OpenManager => {
                        self.stage = PollStage::OpenService;
                        PollAction::OpenService {
                name: TRUSTED_INSTALLER_SERVICE,
                access: SERVICE_QUERY_AND_START,
            }
                    },
                    PollStage::OpenService => {
                        self.stage = PollStage::StartService;
                        PollAction::StartService
                    },
                    _ => {
                        self.stage = PollStage::QueryStatus;
                        PollAction::QueryStatus
                    },
                },
                Err(code) => {
                    if self.stage == PollStage::StartService && code
                        == ERROR_SERVICE_ALREADY_RUNNING {
                        self.stage = PollStage::QueryStatus;
                        return PollAction::QueryStatus;
                    }
                    let error = TokenError::Win32Operation {
                        operation: self.stage.call_name(),
                        code: code,
                    };
                    self.finish(Err(error))
                },
            },
            PollEvent::Queried(queried) => match queried {
                Err(code) => {
                    let error = TokenError::Win32Operation {
                        operation: self.stage.call_name(),
                        code: code,
                    };
                    self.finish(Err(error))
                },
                Ok(status) => {
                    if status.state == SERVICE_RUNNING && status.process_id != 0 {
                        return self.finish(Ok(status.process_id));
                    }
                    let transitional = status.state == SERVICE_START_PENDING || status.state
                        == SERVICE_CONTINUE_PENDING;
                    if !transitional || self.attempt + 1 == SERVICE_START_POLL_ATTEMPTS {
                        return self.finish(Err(service_state_error(status)));
                    }
                    self.attempt = self.attempt + 1;
                    self.stage = PollStage::Wait;
                    PollAction::Wait { millis: SERVICE_START_POLL_INTERVAL_MS }
                },
            },
            PollEvent::Waited => {
                self.stage = PollStage::QueryStatus;
                PollAction::QueryStatus
            },
        }
    }
}

// ---------------------------------------------------------------------------
// The token
// ---------------------------------------------------------------------------

/// What the run is waiting for.
#[derive(Debug, Clone, Copy, PartialEq, Eq, Structural)]
pub enum TokenStage {
    EnsureService,
    RaiseDebug,
    OpenProcess,
    OpenToken,
    DuplicateToken,
    RestoreDebug,
    RaiseImpersonate,
    Finished,
}

/// The outcome of a call; a failed one holds its error code.
#[derive(Debug)]
pub enum TokenEvent {
    /// The process of the service, or why it does not run.
    Served(Result<u32, TokenError>),
    Called(Result<(), u32>),
    Privileged(Result<(), SecurityError>),
}

#[derive(Debug)]
pub enum TokenAction {
    EnsureService,
    RaiseDebug { privilege: &'static str },
    OpenProcess { pid: u32, access: u32 },
    OpenToken { access: u32 },
    DuplicateToken { access: u32 },
    RestoreDebug,
    RaiseImpersonate { privilege: &'static str },
    Finish(Result<(), TokenError>),
}

/// A run that takes the TrustedInstaller token.
#[derive(Debug)]
pub struct TokenRun {
    pub stage: TokenStage,
    /// The process of the service.
    pub pid: u32,
    /// Why the token was not taken.
    pub failure: Option<TokenError>,
}

impl TokenStage {
    pub open spec fn expects(self, event: TokenEvent) -> bool {
        match self {
            TokenStage::EnsureService => event is Served,
            TokenStage::OpenProcess | TokenStage::OpenToken | TokenStage::DuplicateToken =>
                event is Called,
            TokenStage::RaiseDebug | TokenStage::RestoreDebug | TokenStage::RaiseImpersonate =>
                event is Privileged,
            TokenStage::Finished => false,
        }
    }

    /// Whether the debug privilege is up.
    pub open spec fn has_debug(self) -> bool {
        self is OpenProcess || self is OpenToken || self is DuplicateToken || self is RestoreDebug
    }

    /// The call that the stage waits for, as an error names it.
    pub open spec fn call(self) -> Seq<char> {
        match self {
            TokenStage::OpenProcess => "OpenProcess for TrustedInstaller"@,
            TokenStage::OpenToken => "OpenProcessToken for TrustedInstaller"@,
            _ => "DuplicateTokenEx for TrustedInstaller"@,
        }
    }

    fn call_name(self) -> (r: &'static str)
        ensures
            r@ == self.call(),
    {
        match self {
            TokenStage::OpenProcess => "OpenProcess for TrustedInstaller",
            TokenStage::OpenToken => "OpenProcessToken for TrustedInstaller",
            _ => "DuplicateTokenEx for TrustedInstaller",
        }
    }
}

pub open spec fn token_ends(n: TokenRun, action: TokenAction, r: Result<(), TokenError>) -> bool {
    n.stage is Finished && action == TokenAction::Finish(r)
}

/// The same run at another stage.
pub open spec fn token_goes(m: TokenRun, n: TokenRun, stage: TokenStage) -> bool {
    n.stage == stage && n.pid == m.pid && n.failure == m.failure
}

/// What follows an event in the run that takes the token.
pub open spec fn token_follows(
    m: TokenRun,
    event: TokenEvent,
    n: TokenRun,
    action: TokenAction,
) -> bool {
    match event {
        TokenEvent::Served(Ok(pid)) => n.stage is RaiseDebug && n.pid == pid && n.failure
            == m.failure && action == (TokenAction::RaiseDebug { privilege: SE_DEBUG_NAME }),
        TokenEvent::Served(Err(e)) => token_ends(n, action, Err(e)),
        TokenEvent::Called(Ok(_)) => match m.stage {
            TokenStage::OpenProcess => token_goes(m, n, TokenStage::OpenToken) && action == (
            TokenAction::OpenToken { access: TRUSTED_INSTALLER_SOURCE_TOKEN_ACCESS }),
            TokenStage::OpenToken => token_goes(m, n, TokenStage::DuplicateToken) && action == (
            TokenAction::DuplicateToken { access: TRUSTED_INSTALLER_LAUNCH_TOKEN_ACCESS }),
            _ => token_goes(m, n, TokenStage::RestoreDebug) && action is RestoreDebug,
        },
        TokenEvent::Called(Err(code)) => n.stage is RestoreDebug && n.pid == m.pid
            && action is RestoreDebug && (n.failure matches Some(e) && e.is_operation(
            m.stage.call(),
            code,
        )),
        TokenEvent::Privileged(outcome) => match m.stage {
            TokenStage::RaiseDebug => match outcome {
                Ok(_) => token_goes(m, n, TokenStage::OpenProcess) && action == (
                TokenAction::OpenProcess {
                    pid: m.pid,
                    access: TRUSTED_INSTALLER_PROCESS_ACCESS,
                }),
                Err(e) => token_ends(n, action, Err(TokenError::SecurityError(e))),
            },
            TokenStage::RestoreDebug => match (m.failure, outcome) {
                (None, Ok(_)) => token_goes(m, n, TokenStage::RaiseImpersonate)
                    && action == (TokenAction::RaiseImpersonate { privilege: SE_IMPERSONATE_NAME }),
                (None, Err(e)) => token_ends(n, action, Err(TokenError::SecurityError(e))),
                (Some(failure), _) => n.stage is Finished && (action matches TokenAction::Finish(r)
                    && restored_outcome(Err(failure), outcome, r)),
            },
            _ => match outcome {
                Ok(_) => token_ends(n, action, Ok(())),
                Err(e) => token_ends(n, action, Err(TokenError::SecurityError(e))),
            },
        },
    }
}

impl TokenRun {
    /// What holds between steps: the token failed to be taken only where the privilege
    /// is given back.
    pub open spec fn inv(self) -> bool {
        self.failure is Some ==> self.stage is RestoreDebug || self.stage is Finished
    }

    /// Starts the run.
    pub fn duplicate_trustedinstaller_token() -> (r: (TokenRun, TokenAction))
        ensures
            r.0.inv(),
            r.0.stage is EnsureService,
            r.0.failure is None,
            r.1 is EnsureService,
    {
        (
            TokenRun { stage: TokenStage::EnsureService, pid: 0, failure: None },
            TokenAction::EnsureService,
        )
    }

    fn finish(&mut self, result: Result<(), TokenError>) -> (r: TokenAction)
        ensures
            final(self).inv(),
            token_ends(*final(self), r, result),
    {
        self.stage = TokenStage::Finished;
        TokenAction::Finish(result)
    }

    /// Goes on after an event. The debug privilege is up only between its two changes.
    pub fn step(&mut self, event: TokenEvent) -> (r: TokenAction)
        requires
            old(self).inv(),
            old(self).stage.expects(event),
        ensures
            final(self).inv(),
            token_follows(*old(self), event, *final(self), r),
            r is OpenProcess ==> old(self).stage is RaiseDebug,
            r is Finish && old(self).stage.has_debug() ==> old(self).stage is RestoreDebug,
    {
        match event {
            TokenEvent::Served(served) => match served {
                Ok(pid) => {
                    self.pid = pid;
                    self.stage = TokenStage::RaiseDebug;
                    TokenAction::RaiseDebug { privilege: SE_DEBUG_NAME }
                },
                Err(e) => self.finish(Err(e)),
            },
            TokenEvent::Called(outcome) => match outcome {
                Ok(()) => match self.stage {
                    TokenStage::OpenProcess => {
                        self.stage = TokenStage::OpenToken;
                        TokenAction::OpenToken { access: TRUSTED_INSTALLER_SOURCE_TOKEN_ACCESS }
                    },
                    TokenStage::OpenToken => {
                        self.stage = TokenStage::DuplicateToken;
                        TokenAction::DuplicateToken {
                            access: TRUSTED_INSTALLER_LAUNCH_TOKEN_ACCESS,
                        }
                    },
                    _ => {
                        self.stage = TokenStage::RestoreDebug;
                        TokenAction::RestoreDebug
                    },
                },
                Err(code) => {
                    self.failure = Some(
                        TokenError::Win32Operation {
                            operation: self.stage.call_name(),
                            code: code,
                        },
                    );
                    self.stage = TokenStage::RestoreDebug;
                    TokenAction::RestoreDebug
                },
            },
            TokenEvent::Privileged(outcome) => match self.stage {
                TokenStage::RaiseDebug => match outcome {
                    Ok(()) => {
                        self.stage = TokenStage::OpenProcess;
                        TokenAction::OpenProcess {
                            pid: self.pid,
                            access: TRUSTED_INSTALLER_PROCESS_ACCESS,
                        }
                    },
                    Err(e) => self.finish(Err(TokenError::SecurityError(e))),
                },
                TokenStage::RestoreDebug => {
                    if self.failure.is_some() {
                        let failure = self.failure.take().unwrap();
                        let result: Result<(), TokenError> = restore_after_operation(
                            Err(failure),
                            outcome,
                        );
                        return self.finish(result);
                    }
                    match outcome {
                        Ok(()) => {
                            self.stage = TokenStage::RaiseImpersonate;
                            TokenAction::RaiseImpersonate { privilege: SE_IMPERSONATE_NAME }
                        },
                        Err(e) => self.finish(Err(TokenError::SecurityError(e))),
                    }
                },
                _ => match outcome {
                    Ok(()) => self.finish(Ok(())),
                    Err(e) => self.finish(Err(TokenError::SecurityError(e))),
                },
            },
        }
    }
}

// ---------------------------------------------------------------------------
// The process
// ---------------------------------------------------------------------------

/// What the launch is waiting for.
#[derive(Debug, Clone, Copy, PartialEq, Eq, Structural)]
pub enum ProcessStage {
    CreateEnvironment,
    CreateProcess,
    /// Stopping a process of which only the process handle came back.
    StopIncomplete,
    ReapIncomplete,
    RestorePrivilege,
    /// Stopping a process behind which the privilege stayed up.
    StopUnrestored,
    ReapUnrestored,
    Finished,
}

/// What came back of the creation of a process.
#[derive(Debug, Clone, Copy, PartialEq, Eq, Structural)]
pub struct ProcessInformation {
    pub has_process: bool,
    pub has_thread: bool,
    pub pid: u32,
}

#[derive(Debug)]
pub enum ProcessEvent {
    EnvironmentCreated(Result<(), u32>),
    ProcessCreated(Result<ProcessInformation, u32>),
    Terminated(Result<(), TokenError>),
    Exited(Result<(), TokenError>),
    Restored(Result<(), SecurityError>),
}

#[derive(Debug)]
pub enum ProcessAction {
    CreateEnvironment,
    /// All texts end in a zero.
    CreateProcess {
        logon_flags: u32,
        application: Vec<u16>,
        command_line: Vec<u16>,
        creation_flags: u32,
        working_directory: Vec<u16>,
    },
    Terminate { exit_code: u32 },
    WaitForExit { millis: u64 },
    RestorePrivilege,
    Finish(Result<u32, TokenError>),
}

/// The launch of a process under a token.
#[derive(Debug)]
pub struct ProcessLaunch {
    pub spec: ProcessLaunchSpec,
    pub stage: ProcessStage,
    /// The process that was created and whose handle is held.
    pub running: Option<u32>,
    /// Why the launch failed.
    pub failure: Option<TokenError>,
    /// The outcome of stopping the process.
    pub terminated: Option<Result<(), TokenError>>,
    /// Why the privilege was not given back.
    pub restore_error: String,
}

/// A text in UTF-16 with a zero at its end.
pub open spec fn wide(s: Seq<char>) -> Seq<u16> {
    utf16_units(s).push(0)
}

fn wide_null(s: &str) -> (r: Vec<u16>)
    ensures
        r@ == wide(s@),
{
    let mut units = encode_utf16(s);
    units.push(0);
    units
}

impl ProcessStage {
    pub open spec fn expects(self, event: ProcessEvent) -> bool {
        match self {
            ProcessStage::CreateEnvironment => event is EnvironmentCreated,
            ProcessStage::CreateProcess => event is ProcessCreated,
            ProcessStage::StopIncomplete | ProcessStage::StopUnrestored => event is Terminated,
            ProcessStage::ReapIncomplete | ProcessStage::ReapUnrestored => event is Exited,
            ProcessStage::RestorePrivilege => event is Restored,
            ProcessStage::Finished => false,
        }
    }
}

/// Whether an action creates the process that a launch is for.
pub open spec fn creates(action: ProcessAction, spec: ProcessLaunchSpec) -> bool {
    action matches ProcessAction::CreateProcess {
        logon_flags,
        application,
        command_line,
        creation_flags,
        working_directory,
    } && logon_flags == 0 && creation_flags == CREATE_UNICODE_ENVIRONMENT && application@ == wide(
        spec.application_path@,
    ) && working_directory@ == wide(spec.working_directory@) && exists|arguments: Vec<Vec<u16>>|
        arguments@.len() == spec.arguments@.len() && (forall|i: int|
            0 <= i < arguments@.len() ==> (#[trigger] arguments@[i])@ == utf16_units(
                spec.arguments@[i]@,
            )) && command_line@ == quoted(utf16_units(spec.application_path@)) + #[trigger] quoted_list(
            arguments@,
        ) + seq![0u16]
}

/// Gives the privilege back behind a failure.
pub open spec fn fails_launch(n: ProcessLaunch, action: ProcessAction, e: TokenError) -> bool {
    n.stage is RestorePrivilege && n.running is None && n.failure == Some(e)
        && action is RestorePrivilege
}

/// The error of an incomplete creation, once the process was stopped.
pub open spec fn incomplete_error(
    pid: u32,
    terminate: Result<(), TokenError>,
    wait: Result<(), TokenError>,
    e: TokenError,
) -> bool {
    if terminate is Ok && wait is Ok {
        e == TokenError::InvalidProcessInformationCompensated(pid)
    } else {
        e matches TokenError::InvalidProcessInformationCompensationFailed {
            pid: p,
            compensation_error,
        } && p == pid && compensation_error@ == joined(
            compensation_failures(terminate, wait),
            "; "@,
        )
    }
}

/// The error of a launch behind which the privilege stayed up, once the process was
/// stopped.
pub open spec fn unrestored_error(
    pid: u32,
    why: Seq<char>,
    terminate: Result<(), TokenError>,
    wait: Result<(), TokenError>,
    e: TokenError,
) -> bool {
    if terminate is Ok && wait is Ok {
        e matches TokenError::PrivilegeRestoreCompensated { pid: p, restore_error } && p == pid
            && restore_error@ == why
    } else {
        e matches TokenError::PrivilegeRestoreCompensationFailed {
            pid: p,
            restore_error,
            compensation_error,
        } && p == pid && restore_error@ == why && compensation_error@ == joined(
            compensation_failures(terminate, wait),
            "; "@,
        )
    }
}

/// What follows an event in the launch of a process.
pub open spec fn launch_follows(
    m: ProcessLaunch,
    event: ProcessEvent,
    n: ProcessLaunch,
    action: ProcessAction,
) -> bool {
    match event {
        ProcessEvent::EnvironmentCreated(created) => match created {
            Ok(_) => n.stage is CreateProcess && creates(action, m.spec),
            Err(code) => exists|e: TokenError|
                e.is_operation("CreateEnvironmentBlock for TrustedInstaller"@, code)
                    && #[trigger] fails_launch(n, action, e),
        },
        ProcessEvent::ProcessCreated(created) => match created {
            Err(code) => exists|e: TokenError|
                e.is_operation("CreateProcessWithTokenW for TrustedInstaller"@, code)
                    && #[trigger] fails_launch(n, action, e),
            Ok(info) => if !info.has_process {
                fails_launch(
                    n,
                    action,
                    TokenError::InvalidProcessInformationMissingProcessHandle {
                        pid: info.pid,
                        thread_handle_present: info.has_thread,
                    },
                )
            } else if info.has_thread {
                n.stage is RestorePrivilege && n.running == Some(info.pid) && n.failure is None
                    && action is RestorePrivilege
            } else {
                n.stage is StopIncomplete && n.running == Some(info.pid) && action == (
                ProcessAction::Terminate { exit_code: PROCESS_COMPENSATION_EXIT_CODE })
            },
        },
        ProcessEvent::Terminated(outcome) => n.running == m.running && n.terminated == Some(
            outcome,
        ) && n.restore_error == m.restore_error && action == (ProcessAction::WaitForExit {
            millis: PROCESS_COMPENSATION_TIMEOUT_MS,
        }) && if m.stage is StopIncomplete {
            n.stage is ReapIncomplete
        } else {
            n.stage is ReapUnrestored
        },
        ProcessEvent::Exited(outcome) => if m.stage is ReapIncomplete {
            exists|e: TokenError|
                incomplete_error(m.running->0, m.terminated->0, outcome, e)
                    && #[trigger] fails_launch(n, action, e)
        } else {
            n.stage is Finished && n.running is None && (action matches ProcessAction::Finish(
                Err(e),
            ) && unrestored_error(
                m.running->0,
                m.restore_error@,
                m.terminated->0,
                outcome,
                e,
            ))
        },
        ProcessEvent::Restored(outcome) => match (m.running, outcome) {
            (Some(pid), Ok(_)) => n.stage is Finished && action == ProcessAction::Finish(Ok(pid)),
            (Some(pid), Err(e)) => n.stage is StopUnrestored && n.running == m.running
                && n.restore_error@ == e.text() && action == (ProcessAction::Terminate {
                exit_code: PROCESS_COMPENSATION_EXIT_CODE,
            }),
            (None, _) => n.stage is Finished && n.running is None && (
            action matches ProcessAction::Finish(r) && restored_outcome(
                Err(m.failure->0),
                outcome,
                r,
            )),
        },
    }
}

impl ProcessLaunch {
    /// What holds between steps.
    pub open spec fn inv(self) -> bool {
        match self.stage {
            ProcessStage::CreateEnvironment | ProcessStage::CreateProcess => self.running is None
                && self.failure is None,
            ProcessStage::StopIncomplete | ProcessStage::StopUnrestored => self.running is Some,
            ProcessStage::ReapIncomplete | ProcessStage::ReapUnrestored => self.running is Some
                && self.terminated is Some,
            ProcessStage::RestorePrivilege => self.running is None ==> self.failure is Some,
            ProcessStage::Finished => true,
        }
    }

    /// Starts the launch of a process.
    pub fn launch_process_with_token(spec: ProcessLaunchSpec) -> (r: (ProcessLaunch, ProcessAction))
        ensures
            r.0.inv(),
            r.0.spec == spec,
            r.0.stage is CreateEnvironment,
            r.1 is CreateEnvironment,
    {
        (
            ProcessLaunch {
                spec: spec,
                stage: ProcessStage::CreateEnvironment,
                running: None,
                failure: None,
                terminated: None,
                restore_error: String::new(),
            },
            ProcessAction::CreateEnvironment,
        )
    }

    fn fail(&mut self, e: TokenError) -> (r: ProcessAction)
        ensures
            final(self).inv(),
            final(self).spec == old(self).spec,
            fails_launch(*final(self), r, e),
    {
        self.running = None;
        self.failure = Some(e);
        self.stage = ProcessStage::RestorePrivilege;
        ProcessAction::RestorePrivilege
    }

    fn create(&mut self) -> (r: ProcessAction)
        requires
            old(self).running is None,
            old(self).failure is None,
        ensures
            final(self).inv(),
            final(self).spec == old(self).spec,
            final(self).stage is CreateProcess,
            creates(r, old(self).spec),
    {
        let application = encode_utf16(self.spec.application_path.as_str());
        let arguments = encode_all(&self.spec.arguments);
        let line = build_windows_command_line(&application, &arguments);
        self.stage = ProcessStage::CreateProcess;
        assert(line@ == quoted(utf16_units(self.spec.application_path@)) + quoted_list(arguments@)
            + seq![0u16]);
        ProcessAction::CreateProcess {
            logon_flags: 0,
            application: wide_null(self.spec.application_path.as_str()),
            command_line: line,
            creation_flags: CREATE_UNICODE_ENVIRONMENT,
            working_directory: wide_null(self.spec.working_directory.as_str()),
        }
    }

    fn step_exited(&mut self, outcome: Result<(), TokenError>) -> (r: ProcessAction)
        requires
            old(self).inv(),
            old(self).stage is ReapIncomplete || old(self).stage is ReapUnrestored,
        ensures
            final(self).inv(),
            final(self).spec == old(self).spec,
            launch_follows(*old(self), ProcessEvent::Exited(outcome), *final(self), r),
            !(r matches ProcessAction::Finish(Ok(_))),
    {
        let pid: u32 = self.running.unwrap();
        let terminated = self.terminated.take().unwrap();
        let failed = compensate_process(terminated, outcome);
        match self.stage {
            ProcessStage::ReapIncomplete => {
                let error = match failed {
                    None => TokenError::InvalidProcessInformationCompensated(pid),
                    Some(text) => TokenError::InvalidProcessInformationCompensationFailed {
                        pid: pid,
                        compensation_error: text,
                    },
                };
                assert(incomplete_error(pid, terminated, outcome, error));
                self.fail(error)
            },
            _ => {
                let why = owned(self.restore_error.as_str());
                let error = match failed {
                    None => TokenError::PrivilegeRestoreCompensated {
                        pid: pid,
                        restore_error: why,
                    },
                    Some(text) => TokenError::PrivilegeRestoreCompensationFailed {
                        pid: pid,
                        restore_error: why,
                        compensation_error: text,
                    },
                };
                self.running = None;
                self.stage = ProcessStage::Finished;
                ProcessAction::Finish(Err(error))
            },
        }
    }

    /// Goes on after an event. A process that was created is handed back, or it was
    /// told to stop and waited for; the launch succeeds only with the privilege given
    /// back.
    pub fn step(&mut self, event: ProcessEvent) -> (r: ProcessAction)
        requires
            old(self).inv(),
            old(self).stage.expects(event),
        ensures
            final(self).inv(),
            final(self).spec == old(self).spec,
            launch_follows(*old(self), event, *final(self), r),
            r matches ProcessAction::Finish(Ok(pid)) ==> old(self).running == Some(pid)
                && (event matches ProcessEvent::Restored(Ok(_))),
            r matches ProcessAction::Finish(Err(_)) ==> old(self).running is None
                || old(self).stage is ReapUnrestored,
    {
        match event {
            ProcessEvent::EnvironmentCreated(created) => match created {
                Ok(()) => self.create(),
                Err(code) => {
                    let error = TokenError::Win32Operation {
                        operation: "CreateEnvironmentBlock for TrustedInstaller",
                        code: code,
                    };
                    self.fail(error)
                },
            },
            ProcessEvent::ProcessCreated(created) => match created {
                Err(code) => {
                    let error = TokenError::Win32Operation {
                        operation: "CreateProcessWithTokenW for TrustedInstaller",
                        code: code,
                    };
                    self.fail(error)
                },
                Ok(info) => {
                    if !info.has_process {
                        self.fail(
                            TokenError::InvalidProcessInformationMissingProcessHandle {
                                pid: info.pid,
                                thread_handle_present: info.has_thread,
                            },
                        )
                    } else if info.has_thread {
                        self.running = Some(info.pid);
                        self.stage = ProcessStage::RestorePrivilege;
                        ProcessAction::RestorePrivilege
                    } else {
                        self.running = Some(info.pid);
                        self.stage = ProcessStage::StopIncomplete;
                        ProcessAction::Terminate { exit_code: PROCESS_COMPENSATION_EXIT_CODE }
                    }
                },
            },
            ProcessEvent::Terminated(outcome) => {
                self.terminated = Some(outcome);
                self.stage = match self.stage {
                    ProcessStage::StopIncomplete => ProcessStage::ReapIncomplete,
                    _ => ProcessStage::ReapUnrestored,
                };
                ProcessAction::WaitForExit { millis: PROCESS_COMPENSATION_TIMEOUT_MS }
            },
            ProcessEvent::Exited(outcome) => self.step_exited(outcome),
            ProcessEvent::Restored(outcome) => match self.running {
                Some(pid) => match outcome {
                    Ok(()) => {
                        self.stage = ProcessStage::Finished;
                        ProcessAction::Finish(Ok(pid))
                    },
                    Err(e) => {
                        self.restore_error = e.message();
                        self.stage = ProcessStage::StopUnrestored;
                        ProcessAction::Terminate { exit_code: PROCESS_COMPENSATION_EXIT_CODE }
                    },
                },
                None => {
                    let failure = self.failure.take().unwrap();
                    let result: Result<u32, TokenError> = restore_after_operation(
                        Err(failure),
                        outcome,
                    );
                    self.stage = ProcessStage::Finished;
                    ProcessAction::Finish(result)
                },
            },
        }
    }
}

/// The service is taken to run only where it says so and names its process; it is waited for
/// only while it starts, and not forever. That it runs already is no failure.
pub proof fn the_service_is_used_only_once_it_runs(
    m: ServicePoll,
    event: PollEvent,
    n: ServicePoll,
    action: PollAction,
)
    requires
        m.stage.expects(event),
        poll_follows(m, event, n, action),
    ensures
        action matches PollAction::Finish(Ok(pid)) ==> pid != 0 && (event matches PollEvent::Queried(
            Ok(status),
        ) && status.state == 4 && status.process_id == pid),
        (event matches PollEvent::Queried(Ok(status)) && status.state == 4 && status.process_id != 0)
            ==> (action matches PollAction::Finish(Ok(_))),
        action is Wait ==> n.attempt == m.attempt + 1 && n.attempt < 20 && (event matches
            PollEvent::Queried(Ok(status)) && (status.state == 2 || status.state == 5)),
        action is StartService ==> m.stage is OpenService && (event matches PollEvent::Called(Ok(_))),
        event matches PollEvent::Called(Err(code)) ==> if m.stage is StartService && code == 1056 {
            action is QueryStatus
        } else {
            action matches PollAction::Finish(Err(_))
        },
        (event matches PollEvent::Queried(Err(_))) ==> (action matches PollAction::Finish(Err(_))),
{
}

/// The token that is taken is that of the process that the service named. Whatever fails
/// while the debug privilege is up, the privilege is given back first and the failure told.
pub proof fn a_token_is_taken_under_a_privilege_that_is_given_back(
    m: TokenRun,
    event: TokenEvent,
    n: TokenRun,
    action: TokenAction,
)
    requires
        m.inv(),
        m.stage.expects(event),
        token_follows(m, event, n, action),
    ensures
        event matches TokenEvent::Served(Ok(pid)) ==> n.pid == pid && action is RaiseDebug,
        action matches TokenAction::OpenProcess { pid, .. } ==> pid == m.pid && n.pid == m.pid && (
        event matches TokenEvent::Privileged(Ok(_))),
        m.stage is OpenProcess || m.stage is OpenToken || m.stage is DuplicateToken ==> !(
        action is Finish) && !(action is RaiseImpersonate),
        event matches TokenEvent::Called(Err(code)) ==> action is RestoreDebug && (n.failure matches
            Some(TokenError::Win32Operation { code: c, .. }) && c == code),
        action is RaiseImpersonate ==> m.stage is RestoreDebug && m.failure is None && (
        event matches TokenEvent::Privileged(Ok(_))),
        (action matches TokenAction::Finish(Ok(_))) ==> m.stage is RaiseImpersonate && (
        event matches TokenEvent::Privileged(Ok(_))),
        m.stage is RestoreDebug && m.failure is Some ==> (action matches TokenAction::Finish(Err(_))),
{
}

/// A launch ends well only with a process that was created whole, and only once the
/// privilege was given back; a process that was created otherwise is asked to stop.
pub proof fn a_launch_leaves_no_process_behind_unless_it_ends_well(
    m: ProcessLaunch,
    event: ProcessEvent,
    n: ProcessLaunch,
    action: ProcessAction,
)
    requires
        m.inv(),
        m.stage.expects(event),
        launch_follows(m, event, n, action),
    ensures
        action matches ProcessAction::Finish(Ok(pid)) ==> m.stage is RestorePrivilege && m.running
            == Some(pid) && (event matches ProcessEvent::Restored(Ok(_))),
        event matches ProcessEvent::ProcessCreated(Ok(info)) ==> if info.has_process
            && info.has_thread {
            action is RestorePrivilege && n.running == Some(info.pid)
        } else if info.has_process {
            action is Terminate && n.running == Some(info.pid)
        } else {
            action is RestorePrivilege && n.running is None && n.failure is Some
        },
        m.running is Some && (event matches ProcessEvent::Restored(Err(_))) ==> action is Terminate
            && n.running == m.running,
        event is Terminated ==> action is WaitForExit && n.running == m.running,
        event is Exited ==> n.running is None && (action is RestorePrivilege && n.failure is Some || (
        action matches ProcessAction::Finish(Err(_)))),
        (event matches ProcessEvent::EnvironmentCreated(Err(_))) || (event matches
            ProcessEvent::ProcessCreated(Err(_))) ==> action is RestorePrivilege && n.running is None
            && n.failure is Some,
        m.running is None && event is Restored ==> (action matches ProcessAction::Finish(Err(_))),
{
}

} // verus!
