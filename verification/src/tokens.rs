//! Process tokens: the TrustedInstaller service, its token, and a process under it.
use crate::paths::{is_absolute, is_absolute_path, join_path, parent, parent_path, path_join};
use crate::registry::{
    before_nul, decode_utf16, encode_utf16, units_before_nul, utf16_chars, utf16_units,
};
use crate::restart_manager::{decode_utf16_lossy, utf16_chars_lossy};
use crate::security::SecurityError;
use crate::text::{
    ascii_lower, cat2, cat3, cat4, cat5, cat6, dec, decimal, eq_ignore_ascii_case, join, joined,
    owned, signed_dec, signed_decimal, texts,
};
use vstd::prelude::*;

verus! {

pub const TRUSTED_INSTALLER_SERVICE: &'static str = "TrustedInstaller";

pub const SERVICE_START_POLL_ATTEMPTS: usize = 20;

pub const SERVICE_START_POLL_INTERVAL_MS: u64 = 150;

pub const SYSTEM_COMMAND_NAME: &'static str = "cmd.exe";

pub const TRUSTED_INSTALLER_CONSOLE_TITLE: &'static str = "TrustedInstaller Elevated Console";

pub const INITIAL_SYSTEM_DIRECTORY_CAPACITY: usize = 260;

pub const PROCESS_COMPENSATION_EXIT_CODE: u32 = 1;

pub const PROCESS_COMPENSATION_TIMEOUT_MS: u64 = 5000;

/// The right to connect to the service manager.
pub const SC_MANAGER_CONNECT: u32 = 1;

/// The rights to query the state of a service and to start it.
pub const SERVICE_QUERY_AND_START: u32 = 0x14;

/// The right to query limited information of a process.
pub const TRUSTED_INSTALLER_PROCESS_ACCESS: u32 = 0x1000;

/// The right to duplicate a token.
pub const TRUSTED_INSTALLER_SOURCE_TOKEN_ACCESS: u32 = 2;

/// The rights to query a token, to duplicate it and to assign it to a process.
pub const TRUSTED_INSTALLER_LAUNCH_TOKEN_ACCESS: u32 = 0xb;

/// The environment of a new process is in UTF-16.
pub const CREATE_UNICODE_ENVIRONMENT: u32 = 0x400;

pub const ERROR_SERVICE_ALREADY_RUNNING: u32 = 1056;

pub const SERVICE_START_PENDING: u32 = 2;

pub const SERVICE_RUNNING: u32 = 4;

pub const SERVICE_CONTINUE_PENDING: u32 = 5;

/// A user is signed in at the session.
pub const WTS_ACTIVE: i32 = 0;

/// A client is connected to the session.
pub const WTS_CONNECTED: i32 = 1;

/// How many bytes a connection state takes.
pub const CONNECT_STATE_BYTES: u32 = 4;

pub const WAIT_OBJECT_0: u32 = 0;

pub const WAIT_TIMEOUT: u32 = 258;

pub const WAIT_FAILED: u32 = 0xffff_ffff;

#[derive(Debug)]
pub enum TokenError {
    Win32Error(u32),
    Win32Operation { operation: &'static str, code: u32 },
    ProcessNotFound(String),
    TrustedInstallerServiceState {
        state: u32,
        win32_exit_code: u32,
        service_exit_code: u32,
        process_id: u32,
    },
    NonInteractiveRequestSession(u32),
    RequestSessionNotConnected { session_id: u32, state: i32 },
    InvalidSessionStateData { session_id: u32, bytes_returned: u32 },
    InvalidSystemDirectory(String),
    SystemExecutableUnavailable { path: String, reason: String },
    ProcessWaitTimeout(u32),
    ProcessWaitFailed(u32),
    InvalidProcessInformationCompensated(u32),
    InvalidProcessInformationCompensationFailed { pid: u32, compensation_error: String },
    InvalidProcessInformationMissingProcessHandle { pid: u32, thread_handle_present: bool },
    OperationAndPrivilegeRestoreFailed { operation_error: String, restore_error: String },
    PrivilegeRestoreCompensated { pid: u32, restore_error: String },
    PrivilegeRestoreCompensationFailed {
        pid: u32,
        restore_error: String,
        compensation_error: String,
    },
    SecurityError(SecurityError),
}

/// How a truth value is written.
pub open spec fn truth(value: bool) -> Seq<char> {
    if value {
        "true"@
    } else {
        "false"@
    }
}

impl TokenError {
    /// The text that describes the error.
    pub open spec fn text(self) -> Seq<char> {
        match self {
            TokenError::Win32Error(code) => "Token operation failed with Win32 error code: "@
                + decimal(code as nat),
            TokenError::Win32Operation { operation, code } => operation@
                + " failed with Win32 error code: "@ + decimal(code as nat),
            TokenError::ProcessNotFound(name) => "Process '"@ + name@ + "' not found"@,
            TokenError::TrustedInstallerServiceState {
                state,
                win32_exit_code,
                service_exit_code,
                process_id,
            } => "TrustedInstaller did not reach RUNNING (state "@ + decimal(state as nat)
                + ", Win32 exit "@ + decimal(win32_exit_code as nat) + ", service exit "@
                + decimal(service_exit_code as nat) + ", PID "@ + decimal(process_id as nat)
                + ")"@,
            TokenError::NonInteractiveRequestSession(session) => "Requesting process session "@
                + decimal(session as nat) + " is not interactive"@,
            TokenError::RequestSessionNotConnected { session_id, state } =>
                "Requesting process session "@ + decimal(session_id as nat)
                + " is not active or connected (state "@ + signed_decimal(state as int)
                + ")"@,
            TokenError::InvalidSessionStateData { session_id, bytes_returned } =>
                "WTS returned invalid connection-state data for session "@ + decimal(
                    session_id as nat,
                ) + " ("@ + decimal(bytes_returned as nat) + " bytes)"@,
            TokenError::InvalidSystemDirectory(path) =>
                "Windows system directory returned an invalid path: "@ + path@,
            TokenError::SystemExecutableUnavailable { path, reason } =>
                "Windows system executable is unavailable at "@ + path@ + ": "@ + reason@,
            TokenError::ProcessWaitTimeout(millis) => "Process termination wait timed out after "@
                + decimal(millis as nat) + " milliseconds"@,
            TokenError::ProcessWaitFailed(code) =>
                "Process termination wait failed with Win32 error code: "@ + decimal(code as nat),
            TokenError::InvalidProcessInformationCompensated(pid) =>
                "CreateProcessWithTokenW returned incomplete process information for PID "@
                + decimal(pid as nat) + "; child was terminated and reaped"@,
            TokenError::InvalidProcessInformationCompensationFailed { pid, compensation_error } =>
                "CreateProcessWithTokenW returned incomplete process information for PID "@
                + decimal(pid as nat) + "; compensation failed: "@ + compensation_error@,
            TokenError::InvalidProcessInformationMissingProcessHandle {
                pid,
                thread_handle_present,
            } => "CreateProcessWithTokenW returned success without a process handle for PID "@
                + decimal(pid as nat) + " (thread handle present: "@ + truth(thread_handle_present)
                + "); child cannot be compensated"@,
            TokenError::OperationAndPrivilegeRestoreFailed { operation_error, restore_error } =>
                "Privileged operation failed: "@ + operation_error@
                + "; privilege restoration also failed: "@ + restore_error@,
            TokenError::PrivilegeRestoreCompensated { pid, restore_error } =>
                "Privilege restoration failed after launching PID "@ + decimal(pid as nat) + ": "@
                + restore_error@ + "; process was terminated and reaped"@,
            TokenError::PrivilegeRestoreCompensationFailed {
                pid,
                restore_error,
                compensation_error,
            } => "Privilege restoration failed after launching PID "@ + decimal(pid as nat)
                + ": "@ + restore_error@ + "; process compensation failed: "@
                + compensation_error@,
            TokenError::SecurityError(error) => "Security or privilege error: "@ + error.text(),
        }
    }

    pub fn message(&self) -> (r: String)
        ensures
            r@ == self.text(),
    {
        match self {
            TokenError::Win32Error(code) => {
                let digits = dec(*code as u64);
                cat2("Token operation failed with Win32 error code: ", digits.as_str())
            },
            TokenError::Win32Operation { operation, code } => {
                let digits = dec(*code as u64);
                cat3(operation, " failed with Win32 error code: ", digits.as_str())
            },
            TokenError::ProcessNotFound(name) => cat3("Process '", name.as_str(), "' not found"),
            TokenError::TrustedInstallerServiceState {
                state,
                win32_exit_code,
                service_exit_code,
                process_id,
            } => {
                let state = dec(*state as u64);
                let win32 = dec(*win32_exit_code as u64);
                let service = dec(*service_exit_code as u64);
                let pid = dec(*process_id as u64);
                let head = cat6(
                    "TrustedInstaller did not reach RUNNING (state ",
                    state.as_str(),
                    ", Win32 exit ",
                    win32.as_str(),
                    ", service exit ",
                    service.as_str(),
                );
                cat4(head.as_str(), ", PID ", pid.as_str(), ")")
            },
            TokenError::NonInteractiveRequestSession(session) => {
                let session = dec(*session as u64);
                cat3("Requesting process session ", session.as_str(), " is not interactive")
            },
            TokenError::RequestSessionNotConnected { session_id, state } => {
                let session = dec(*session_id as u64);
                let number = signed_dec(*state as i128);
                cat5(
                    "Requesting process session ",
                    session.as_str(),
                    " is not active or connected (state ",
                    number.as_str(),
                    ")",
                )
            },
            TokenError::InvalidSessionStateData { session_id, bytes_returned } => {
                let session = dec(*session_id as u64);
                let bytes = dec(*bytes_returned as u64);
                cat5(
                    "WTS returned invalid connection-state data for session ",
                    session.as_str(),
                    " (",
                    bytes.as_str(),
                    " bytes)",
                )
            },
            TokenError::InvalidSystemDirectory(path) => cat2(
                "Windows system directory returned an invalid path: ",
                path.as_str(),
            ),
            TokenError::SystemExecutableUnavailable { path, reason } => cat4(
                "Windows system executable is unavailable at ",
                path.as_str(),
                ": ",
                reason.as_str(),
            ),
            TokenError::ProcessWaitTimeout(millis) => {
                let millis = dec(*millis as u64);
                cat3(
                    "Process termination wait timed out after ",
                    millis.as_str(),
                    " milliseconds",
                )
            },
            TokenError::ProcessWaitFailed(code) => {
                let digits = dec(*code as u64);
                cat2(
                    "Process termination wait failed with Win32 error code: ",
                    digits.as_str(),
                )
            },
            TokenError::InvalidProcessInformationCompensated(pid) => {
                let pid = dec(*pid as u64);
                cat3(
                    "CreateProcessWithTokenW returned incomplete process information for PID ",
                    pid.as_str(),
                    "; child was terminated and reaped",
                )
            },
            TokenError::InvalidProcessInformationCompensationFailed { pid, compensation_error } => {
                let pid = dec(*pid as u64);
                cat4(
                    "CreateProcessWithTokenW returned incomplete process information for PID ",
                    pid.as_str(),
                    "; compensation failed: ",
                    compensation_error.as_str(),
                )
            },
            TokenError::InvalidProcessInformationMissingProcessHandle {
                pid,
                thread_handle_present,
            } => {
                let pid = dec(*pid as u64);
                let present = if *thread_handle_present {
                    "true"
                } else {
                    "false"
                };
                cat5(
                    "CreateProcessWithTokenW returned success without a process handle for PID ",
                    pid.as_str(),
                    " (thread handle present: ",
                    present,
                    "); child cannot be compensated",
                )
            },
            TokenError::OperationAndPrivilegeRestoreFailed { operation_error, restore_error } =>
                cat4(
                    "Privileged operation failed: ",
                    operation_error.as_str(),
                    "; privilege restoration also failed: ",
                    restore_error.as_str(),
                ),
            TokenError::PrivilegeRestoreCompensated { pid, restore_error } => {
                let pid = dec(*pid as u64);
                cat5(
                    "Privilege restoration failed after launching PID ",
                    pid.as_str(),
                    ": ",
                    restore_error.as_str(),
                    "; process was terminated and reaped",
                )
            },
            TokenError::PrivilegeRestoreCompensationFailed {
                pid,
                restore_error,
                compensation_error,
            } => {
                let pid = dec(*pid as u64);
                cat6(
                    "Privilege restoration failed after launching PID ",
                    pid.as_str(),
                    ": ",
                    restore_error.as_str(),
                    "; process compensation failed: ",
                    compensation_error.as_str(),
                )
            },
            TokenError::SecurityError(error) => {
                let reason = error.message();
                cat2("Security or privilege error: ", reason.as_str())
            },
        }
    }

    /// Whether this is a failed call, by name and code.
    pub open spec fn is_operation(self, name: Seq<char>, number: u32) -> bool {
        self matches TokenError::Win32Operation { operation, code } && operation@ == name && code
            == number
    }
}

/// The outcome of work under a privilege, once it was given back.
pub open spec fn restored_outcome<T>(
    operation: Result<T, TokenError>,
    restore: Result<(), SecurityError>,
    r: Result<T, TokenError>,
) -> bool {
    match (operation, restore) {
        (_, Ok(_)) => r == operation,
        (Ok(_), Err(e)) => r == Result::<T, TokenError>::Err(TokenError::SecurityError(e)),
        (Err(o), Err(e)) => r matches Err(
            TokenError::OperationAndPrivilegeRestoreFailed { operation_error, restore_error },
        ) && operation_error@ == o.text() && restore_error@ == e.text(),
    }
}

pub fn restore_after_operation<T>(
    operation: Result<T, TokenError>,
    restore: Result<(), SecurityError>,
) -> (r: Result<T, TokenError>)
    ensures
        restored_outcome(operation, restore, r),
{
    match restore {
        Ok(()) => operation,
        Err(e) => match operation {
            Ok(_) => Err(TokenError::SecurityError(e)),
            Err(o) => Err(
                TokenError::OperationAndPrivilegeRestoreFailed {
                    operation_error: o.message(),
                    restore_error: e.message(),
                },
            ),
        },
    }
}

// ---------------------------------------------------------------------------
// Sessions and processes
// ---------------------------------------------------------------------------

/// The session that is asked about further: one that a user can be at.
pub fn interactive_session(session: Result<u32, TokenError>) -> (r: Result<u32, TokenError>)
    ensures
        match session {
            Err(e) => r == Result::<u32, TokenError>::Err(e),
            Ok(id) => if id == 0 {
                r == Result::<u32, TokenError>::Err(TokenError::NonInteractiveRequestSession(0))
            } else {
                r == Result::<u32, TokenError>::Ok(id)
            },
        },
{
    match session {
        Err(e) => Err(e),
        Ok(id) => {
            if id == 0 {
                Err(TokenError::NonInteractiveRequestSession(id))
            } else {
                Ok(id)
            }
        },
    }
}

/// What the query for a connection state put into its buffer.
#[derive(Debug, Clone, Copy, PartialEq, Eq, Structural)]
pub struct ConnectStateReply {
    pub present: bool,
    pub bytes_returned: u32,
    pub connect_state: i32,
}

/// The connection state of a session; a failed query holds its error code.
pub fn session_connect_state(session_id: u32, queried: Result<ConnectStateReply, u32>) -> (r:
    Result<i32, TokenError>)
    ensures
        r == (match queried {
            Err(code) => Result::<i32, TokenError>::Err(TokenError::Win32Error(code)),
            Ok(reply) => if !reply.present || reply.bytes_returned < CONNECT_STATE_BYTES {
                Result::<i32, TokenError>::Err(
                    TokenError::InvalidSessionStateData {
                        session_id: session_id,
                        bytes_returned: reply.bytes_returned,
                    },
                )
            } else {
                Result::<i32, TokenError>::Ok(reply.connect_state)
            },
        }),
{
    match queried {
        Err(code) => Err(TokenError::Win32Error(code)),
        Ok(reply) => {
            if !reply.present || reply.bytes_returned < CONNECT_STATE_BYTES {
                Err(
                    TokenError::InvalidSessionStateData {
                        session_id: session_id,
                        bytes_returned: reply.bytes_returned,
                    },
                )
            } else {
                Ok(reply.connect_state)
            }
        },
    }
}

/// The session of the process that asks: interactive, and active or connected. The
/// state counts only where the session is interactive.
pub fn get_requesting_process_session(
    session: Result<u32, TokenError>,
    state: Result<i32, TokenError>,
) -> (r: Result<u32, TokenError>)
    ensures
        match (session, state) {
            (Err(e), _) => r == Result::<u32, TokenError>::Err(e),
            (Ok(0), _) => r == Result::<u32, TokenError>::Err(
                TokenError::NonInteractiveRequestSession(0),
            ),
            (Ok(_), Err(e)) => r == Result::<u32, TokenError>::Err(e),
            (Ok(id), Ok(connect)) => if connect == WTS_ACTIVE || connect == WTS_CONNECTED {
                r == Result::<u32, TokenError>::Ok(id)
            } else {
                r == Result::<u32, TokenError>::Err(
                    TokenError::RequestSessionNotConnected {
                        session_id: id,
                        state: connect,
                    },
                )
            },
        },
{
    let id: u32 = match interactive_session(session) {
        Ok(id) => id,
        Err(e) => {
            return Err(e);
        },
    };
    let connect: i32 = match state {
        Ok(connect) => connect,
        Err(e) => {
            return Err(e);
        },
    };
    if connect != WTS_ACTIVE && connect != WTS_CONNECTED {
        return Err(
            TokenError::RequestSessionNotConnected { session_id: id, state: connect },
        );
    }
    Ok(id)
}

/// A process of a snapshot: the zero-terminated name of its image, and its number.
#[derive(Debug)]
pub struct ProcessEntry {
    pub image_name: Vec<u16>,
    pub process_id: u32,
}

/// Whether a process has an image of a given name, whatever the case of ASCII letters.
pub open spec fn has_image(entry: ProcessEntry, name: Seq<char>) -> bool {
    ascii_lower(utf16_chars_lossy(before_nul(entry.image_name@))) == ascii_lower(name)
}

/// Whether the first process with an image of a given name stands at a place.
pub open spec fn first_with_image(entries: Seq<ProcessEntry>, name: Seq<char>, at: int) -> bool {
    &&& 0 <= at < entries.len()
    &&& has_image(entries[at], name)
    &&& forall|j: int| 0 <= j < at ==> !has_image(#[trigger] entries[j], name)
}

/// The outcome of the search for a process.
pub open spec fn process_outcome(
    entries: Seq<ProcessEntry>,
    name: Seq<char>,
    r: Result<u32, TokenError>,
) -> bool {
    match r {
        Ok(pid) => exists|i: int| #[trigger]
            first_with_image(entries, name, i) && entries[i].process_id == pid,
        Err(e) => (e matches TokenError::ProcessNotFound(missing) && missing@ == name)
            && forall|i: int| 0 <= i < entries.len() ==> !has_image(#[trigger] entries[i], name),
    }
}

/// The number of the first process with an image of a given name; a snapshot that
/// could not be taken holds its error code.
pub fn find_process_id_by_name(image_name: &str, snapshot: Result<Vec<ProcessEntry>, u32>) -> (r:
    Result<u32, TokenError>)
    ensures
        match snapshot {
            Err(code) => r == Result::<u32, TokenError>::Err(TokenError::Win32Error(code)),
            Ok(entries) => process_outcome(entries@, image_name@, r),
        },
{
    let entries = match snapshot {
        Ok(entries) => entries,
        Err(code) => {
            return Err(TokenError::Win32Error(code));
        },
    };
    let mut i: usize = 0;
    while i < entries.len()
        invariant
            i <= entries@.len(),
            snapshot == Result::<Vec<ProcessEntry>, u32>::Ok(entries),
            forall|j: int| 0 <= j < i ==> !has_image(#[trigger] entries@[j], image_name@),
        decreases entries.len() - i,
    {
        let units = units_before_nul(entries[i].image_name.as_slice());
        let name = decode_utf16_lossy(units.as_slice());
        if eq_ignore_ascii_case(name.as_str(), image_name) {
            assert(first_with_image(entries@, image_name@, i as int));
            let found = Ok(entries[i].process_id);
            assert(process_outcome(entries@, image_name@, found));
            return found;
        }
        i += 1;
    }
    Err(TokenError::ProcessNotFound(owned(image_name)))
}

/// The number of milliseconds that a wait is asked for.
pub fn wait_millis(timeout_ms: u64) -> (r: u32)
    ensures
        r == (if timeout_ms < u32::MAX {
            timeout_ms as int
        } else {
            u32::MAX - 1
        }),
{
    if timeout_ms < 0xffff_ffff {
        timeout_ms as u32
    } else {
        0xffff_fffe
    }
}

/// The outcome of the wait for the end of a process.
pub fn wait_for_exit(timeout_ms: u64, result: u32, last_error: u32) -> (r: Result<(), TokenError>)
    ensures
        result == WAIT_OBJECT_0 ==> r is Ok,
        result == WAIT_TIMEOUT ==> (r matches Err(TokenError::ProcessWaitTimeout(millis)) && millis
            == (if timeout_ms < u32::MAX {
            timeout_ms as int
        } else {
            u32::MAX - 1
        })),
        result == WAIT_FAILED ==> r == Result::<(), TokenError>::Err(
            TokenError::ProcessWaitFailed(last_error),
        ),
        result != WAIT_OBJECT_0 && result != WAIT_TIMEOUT && result != WAIT_FAILED ==> r
            == Result::<(), TokenError>::Err(TokenError::ProcessWaitFailed(result)),
{
    if result == WAIT_OBJECT_0 {
        Ok(())
    } else if result == WAIT_TIMEOUT {
        Err(TokenError::ProcessWaitTimeout(wait_millis(timeout_ms)))
    } else if result == WAIT_FAILED {
        Err(TokenError::ProcessWaitFailed(last_error))
    } else {
        Err(TokenError::ProcessWaitFailed(result))
    }
}

/// The failures of stopping a process, one text for each step that failed.
pub open spec fn compensation_failures(
    terminate: Result<(), TokenError>,
    wait: Result<(), TokenError>,
) -> Seq<Seq<char>> {
    (match terminate {
        Ok(_) => Seq::empty(),
        Err(e) => seq!["terminate: "@ + e.text()],
    }) + (match wait {
        Ok(_) => Seq::<Seq<char>>::empty(),
        Err(e) => seq!["wait: "@ + e.text()],
    })
}

/// The outcome of stopping a process and waiting for its end: nothing, or what failed.
pub fn compensate_process(terminate: Result<(), TokenError>, wait: Result<(), TokenError>) -> (r:
    Option<String>)
    ensures
        match r {
            None => terminate is Ok && wait is Ok,
            Some(text) => (terminate is Err || wait is Err) && text@ == joined(
                compensation_failures(terminate, wait),
                "; "@,
            ),
        },
{
    let mut failures: Vec<String> = Vec::new();
    match &terminate {
        Ok(()) => {},
        Err(e) => {
            let reason = e.message();
            failures.push(cat2("terminate: ", reason.as_str()));
        },
    }
    match &wait {
        Ok(()) => {},
        Err(e) => {
            let reason = e.message();
            failures.push(cat2("wait: ", reason.as_str()));
        },
    }
    assert(texts(failures@) =~= compensation_failures(terminate, wait));
    if failures.len() == 0 {
        None
    } else {
        Some(join(&failures, "; "))
    }
}

// ---------------------------------------------------------------------------
// What is launched
// ---------------------------------------------------------------------------

/// What follows a query for the system directory.
#[derive(Debug)]
pub enum SystemDirectoryStep {
    Found(String),
    /// Ask again with room for this many units.
    Retry(usize),
}

/// The outcome of a query for the system directory into a buffer.
pub open spec fn directory_outcome(
    capacity: usize,
    length: u32,
    units: Seq<u16>,
    last_error: u32,
    r: Result<SystemDirectoryStep, TokenError>,
) -> bool {
    if length == 0 {
        r == Result::<SystemDirectoryStep, TokenError>::Err(TokenError::Win32Error(last_error))
    } else if length < capacity {
        match utf16_chars(units.take(length as int)) {
            Some(path) => if is_absolute_path(path) {
                r matches Ok(SystemDirectoryStep::Found(text)) && text@ == path
            } else {
                r matches Err(TokenError::InvalidSystemDirectory(text)) && text@ == path
            },
            None => r matches Err(TokenError::InvalidSystemDirectory(text)) && text@
                == utf16_chars_lossy(units.take(length as int)),
        }
    } else {
        r matches Ok(SystemDirectoryStep::Retry(room)) && room == (if length < usize::MAX {
            length + 1
        } else {
            usize::MAX as int
        })
    }
}

/// Decides after a query for the system directory into a buffer of some capacity.
pub fn system_directory_step(
    capacity: usize,
    length: u32,
    units: &Vec<u16>,
    last_error: u32,
) -> (r: Result<SystemDirectoryStep, TokenError>)
    requires
        length < capacity ==> length <= units@.len(),
    ensures
        directory_outcome(capacity, length, units@, last_error, r),
{
    if length == 0 {
        return Err(TokenError::Win32Error(last_error));
    }
    let size: usize = length as usize;
    if size < capacity {
        let mut path: Vec<u16> = Vec::new();
        let mut i: usize = 0;
        assert(path@ =~= units@.take(0));
        while i < size
            invariant
                i <= size,
                size <= units@.len(),
                path@ == units@.take(i as int),
            decreases size - i,
        {
            path.push(units[i]);
            i += 1;
            assert(path@ =~= units@.take(i as int));
        }
        match decode_utf16(path.as_slice()) {
            Some(text) => {
                if is_absolute(text.as_str()) {
                    Ok(SystemDirectoryStep::Found(text))
                } else {
                    Err(TokenError::InvalidSystemDirectory(text))
                }
            },
            None => Err(TokenError::InvalidSystemDirectory(decode_utf16_lossy(path.as_slice()))),
        }
    } else if size == usize::MAX {
        Ok(SystemDirectoryStep::Retry(usize::MAX))
    } else {
        Ok(SystemDirectoryStep::Retry(size + 1))
    }
}

/// A program to start, where to start it, and its arguments.
#[derive(Debug, Clone)]
pub struct ProcessLaunchSpec {
    pub application_path: String,
    pub working_directory: String,
    pub arguments: Vec<String>,
}

impl ProcessLaunchSpec {
    pub fn application_path(&self) -> (r: &str)
        ensures
            r@ == self.application_path@,
    {
        self.application_path.as_str()
    }

    pub fn working_directory(&self) -> (r: &str)
        ensures
            r@ == self.working_directory@,
    {
        self.working_directory.as_str()
    }
}

/// The place where the command interpreter is looked for.
pub fn system_command_path(system_directory: &str) -> (r: String)
    ensures
        r@ == path_join(system_directory@, SYSTEM_COMMAND_NAME@),
{
    join_path(system_directory, SYSTEM_COMMAND_NAME)
}

/// The arguments of the console: it stays open and has a title.
pub open spec fn console_arguments() -> Seq<Seq<char>> {
    seq!["/k"@, "title"@, TRUSTED_INSTALLER_CONSOLE_TITLE@]
}

/// The outcome of resolving what is launched as a console.
pub open spec fn console_outcome(
    system_directory: Result<String, TokenError>,
    canonical: Result<String, String>,
    is_file: bool,
    r: Result<ProcessLaunchSpec, TokenError>,
) -> bool {
    match system_directory {
        Err(e) => r == Result::<ProcessLaunchSpec, TokenError>::Err(e),
        Ok(directory) => match canonical {
            Err(why) => r matches Err(TokenError::SystemExecutableUnavailable { path, reason })
                && path@ == path_join(directory@, SYSTEM_COMMAND_NAME@) && reason@ == why@,
            Ok(path) => if is_absolute_path(path@) && is_file && parent_path(path@) is Some {
                r matches Ok(spec) && spec.application_path@ == path@ && spec.working_directory@
                    == parent_path(path@)->0 && texts(spec.arguments@) == console_arguments()
            } else {
                r matches Err(TokenError::InvalidSystemDirectory(text)) && text@ == path@
            },
        },
    }
}

/// What is launched as a console: the command interpreter of the system directory,
/// from the directory that holds it. `canonical` is the canonical path of
/// [`system_command_path`] or why there is none.
pub fn trustedinstaller_console_launch_spec(
    system_directory: Result<String, TokenError>,
    canonical: Result<String, String>,
    is_file: bool,
) -> (r: Result<ProcessLaunchSpec, TokenError>)
    ensures
        console_outcome(system_directory, canonical, is_file, r),
{
    let directory = match system_directory {
        Ok(directory) => directory,
        Err(e) => {
            return Err(e);
        },
    };
    let path = match canonical {
        Ok(path) => path,
        Err(reason) => {
            return Err(
                TokenError::SystemExecutableUnavailable {
                    path: system_command_path(directory.as_str()),
                    reason: reason,
                },
            );
        },
    };
    if !is_absolute(path.as_str()) || !is_file {
        return Err(TokenError::InvalidSystemDirectory(path));
    }
    match parent(path.as_str()) {
        None => Err(TokenError::InvalidSystemDirectory(path)),
        Some(home) => {
            let mut arguments: Vec<String> = Vec::new();
            arguments.push(owned("/k"));
            arguments.push(owned("title"));
            arguments.push(owned(TRUSTED_INSTALLER_CONSOLE_TITLE));
            assert(texts(arguments@) =~= console_arguments());
            Ok(
                ProcessLaunchSpec {
                    application_path: path,
                    working_directory: home,
                    arguments: arguments,
                },
            )
        },
    }
}

/// The UTF-16 units of texts.
pub fn encode_all(list: &Vec<String>) -> (r: Vec<Vec<u16>>)
    ensures
        r@.len() == list@.len(),
        forall|i: int| 0 <= i < r@.len() ==> (#[trigger] r@[i])@ == utf16_units(list@[i]@),
{
    let mut out: Vec<Vec<u16>> = Vec::new();
    let mut i: usize = 0;
    while i < list.len()
        invariant
            i <= list@.len(),
            out@.len() == i,
            forall|k: int| 0 <= k < i ==> (#[trigger] out@[k])@ == utf16_units(list@[k]@),
        decreases list.len() - i,
    {
        out.push(encode_utf16(list[i].as_str()));
        i += 1;
    }
    out
}

/// Work under a privilege has succeeded exactly where the work did and the privilege was
/// given back, and then hands on what the work gave.
pub proof fn privileged_work_succeeds_as_a_whole<T>(
    operation: Result<T, TokenError>,
    restore: Result<(), SecurityError>,
    r: Result<T, TokenError>,
)
    requires
        restored_outcome(operation, restore, r),
    ensures
        r is Ok <==> operation is Ok && restore is Ok,
        r is Ok ==> r == operation,
        operation is Err && restore is Ok ==> r == operation,
{
}

/// A process is found under its name whatever the case, and is never another one.
pub proof fn a_process_is_found_by_its_name(
    entries: Seq<ProcessEntry>,
    name: Seq<char>,
    other: Seq<char>,
    r: Result<u32, TokenError>,
)
    requires
        process_outcome(entries, name, r),
        ascii_lower(name) == ascii_lower(other),
    ensures
        r matches Ok(pid) ==> exists|i: int|
            0 <= i < entries.len() && (#[trigger] entries[i]).process_id == pid && ascii_lower(
                utf16_chars_lossy(before_nul(entries[i].image_name@)),
            ) == ascii_lower(other),
        r is Err ==> forall|i: int|
            0 <= i < entries.len() ==> ascii_lower(
                utf16_chars_lossy(before_nul((#[trigger] entries[i]).image_name@)),
            ) != ascii_lower(other),
{
    if let Ok(pid) = r {
        let i = choose|i: int| #[trigger]
            first_with_image(entries, name, i) && entries[i].process_id == pid;
        assert(entries[i].process_id == pid);
    } else {
        assert forall|i: int| 0 <= i < entries.len() implies ascii_lower(
            utf16_chars_lossy(before_nul((#[trigger] entries[i]).image_name@)),
        ) != ascii_lower(other) by {
            assert(!has_image(entries[i], name));
        }
    }
}

/// A compensation leaves nothing to tell exactly where both of its steps succeeded; else
/// every failure is told.
pub proof fn a_compensation_tells_each_failure(
    terminate: Result<(), TokenError>,
    wait: Result<(), TokenError>,
)
    ensures
        compensation_failures(terminate, wait).len() == 0 <==> terminate is Ok && wait is Ok,
        terminate matches Err(e) ==> compensation_failures(terminate, wait)[0] == "terminate: "@
            + e.text(),
        wait matches Err(e) ==> compensation_failures(terminate, wait).last() == "wait: "@
            + e.text(),
        compensation_failures(terminate, wait).len() <= 2,
        terminate is Err && wait is Err ==> compensation_failures(terminate, wait).len() == 2,
{
}

/// The console is started from a file that is there, under an absolute path, in the directory
/// that holds it; nothing else is started.
pub proof fn the_console_is_the_command_that_was_found(
    system_directory: Result<String, TokenError>,
    canonical: Result<String, String>,
    is_file: bool,
    r: Result<ProcessLaunchSpec, TokenError>,
)
    requires
        console_outcome(system_directory, canonical, is_file, r),
    ensures
        r matches Ok(spec) ==> system_directory is Ok && is_file && (canonical matches Ok(path)
            && spec.application_path@ == path@) && is_absolute_path(spec.application_path@)
            && parent_path(spec.application_path@) == Some(spec.working_directory@)
            && spec.arguments@.len() == 3 && spec.arguments@[0]@ == "/k"@,
        system_directory is Ok && is_file && (canonical matches Ok(path) && is_absolute_path(path@)
            && parent_path(path@) is Some) ==> r is Ok,
{
    if let Ok(spec) = r {
        assert(texts(spec.arguments@).len() == 3);
        assert(texts(spec.arguments@)[0] == spec.arguments@[0]@);
        assert(console_arguments()[0] == "/k"@);
    }
}

/// The system directory is taken only where it was handed over whole and is an absolute path;
/// where the room was too small, more is offered.
pub proof fn the_system_directory_is_whole_and_absolute(
    capacity: usize,
    length: u32,
    units: Seq<u16>,
    last_error: u32,
    r: Result<SystemDirectoryStep, TokenError>,
)
    requires
        directory_outcome(capacity, length, units, last_error, r),
    ensures
        r matches Ok(SystemDirectoryStep::Found(text)) ==> 0 < length && length < capacity
            && is_absolute_path(text@) && utf16_chars(units.take(length as int)) == Some(text@),
        r matches Ok(SystemDirectoryStep::Retry(room)) ==> length >= capacity && room >= capacity,
        length == 0 ==> r == Result::<SystemDirectoryStep, TokenError>::Err(
            TokenError::Win32Error(last_error),
        ),
{
}

} // verus!
