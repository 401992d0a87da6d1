//! The audited launch of a console under TrustedInstaller.
use crate::clock::UtcTime;
use crate::journal::{admin_entry, admin_model, AuditEntry, AuditStatus};
use crate::text::{cat2, cat4, cat5, cat6, dec, decimal, join, joined, owned, texts};
use vstd::prelude::*;

verus! {

pub const TI_REQUEST_OPERATION: &'static str = "LaunchTrustedInstallerConsoleRequested";

pub const TI_TERMINAL_OPERATION: &'static str = "LaunchTrustedInstallerConsole";

pub const TI_AUDIT_TARGET: &'static str = "Windows system command interpreter";

pub const TI_REQUEST_DETAIL: &'static str = "TrustedInstaller console launch request accepted";

pub const TI_TERMINATION_EXIT_CODE: u32 = 1;

pub const TI_TERMINATION_TIMEOUT_MS: u64 = 5000;

/// The audit entry that an action of the launch asks for.
pub fn launch_entry(operation: &str, status: AuditStatus, details: String, timestamp: UtcTime) -> (r:
    AuditEntry)
    ensures
        r@ == admin_model(operation@, TI_AUDIT_TARGET@, status, details@, timestamp),
{
    admin_entry(operation, TI_AUDIT_TARGET, status, details, timestamp)
}

#[derive(Debug)]
pub enum TrustedInstallerLaunchError {
    OperationLock(String),
    RequestAudit(String),
    Launch(String),
    LaunchAndFailureAudit { launch_error: String, audit_error: String },
    TerminalAuditCompensated { pid: u32, audit_error: String },
    TerminalAuditCompensationFailed { pid: u32, audit_error: String, compensation_error: String },
}

impl TrustedInstallerLaunchError {
    /// The text that describes the error.
    pub open spec fn text(self) -> Seq<char> {
        match self {
            TrustedInstallerLaunchError::OperationLock(reason) =>
                "TrustedInstaller operation lock acquisition failed before audit or process effects: "@
                + reason@,
            TrustedInstallerLaunchError::RequestAudit(reason) =>
                "TrustedInstaller launch request audit failed before process acquisition: "@
                + reason@,
            TrustedInstallerLaunchError::Launch(reason) =>
                "TrustedInstaller process launch failed: "@ + reason@,
            TrustedInstallerLaunchError::LaunchAndFailureAudit { launch_error, audit_error } =>
                "TrustedInstaller process launch failed: "@ + launch_error@
                + "; FAILED audit also failed: "@ + audit_error@,
            TrustedInstallerLaunchError::TerminalAuditCompensated { pid, audit_error } =>
                "TrustedInstaller SUCCESS audit failed for PID "@ + decimal(pid as nat) + ": "@
                + audit_error@ + "; process was terminated and reaped"@,
            TrustedInstallerLaunchError::TerminalAuditCompensationFailed {
                pid,
                audit_error,
                compensation_error,
            } => "TrustedInstaller SUCCESS audit failed for PID "@ + decimal(pid as nat) + ": "@
                + audit_error@ + "; compensation failed: "@ + compensation_error@,
        }
    }

    pub fn message(&self) -> (r: String)
        ensures
            r@ == self.text(),
    {
        match self {
            TrustedInstallerLaunchError::OperationLock(reason) => cat2(
                "TrustedInstaller operation lock acquisition failed before audit or process effects: ",
                reason.as_str(),
            ),
            TrustedInstallerLaunchError::RequestAudit(reason) => cat2(
                "TrustedInstaller launch request audit failed before process acquisition: ",
                reason.as_str(),
            ),
            TrustedInstallerLaunchError::Launch(reason) => cat2(
                "TrustedInstaller process launch failed: ",
                reason.as_str(),
            ),
            TrustedInstallerLaunchError::LaunchAndFailureAudit { launch_error, audit_error } =>
                cat4(
                    "TrustedInstaller process launch failed: ",
                    launch_error.as_str(),
                    "; FAILED audit also failed: ",
                    audit_error.as_str(),
                ),
            TrustedInstallerLaunchError::TerminalAuditCompensated { pid, audit_error } => {
                let pid = dec(*pid as u64);
                cat5(
                    "TrustedInstaller SUCCESS audit failed for PID ",
                    pid.as_str(),
                    ": ",
                    audit_error.as_str(),
                    "; process was terminated and reaped",
                )
            },
            TrustedInstallerLaunchError::TerminalAuditCompensationFailed {
                pid,
                audit_error,
                compensation_error,
            } => {
                let pid = dec(*pid as u64);
                cat6(
                    "TrustedInstaller SUCCESS audit failed for PID ",
                    pid.as_str(),
                    ": ",
                    audit_error.as_str(),
                    "; compensation failed: ",
                    compensation_error.as_str(),
                )
            },
        }
    }
}

/// What the launch is waiting for.
#[derive(Debug, Clone, Copy, PartialEq, Eq, Structural)]
pub enum ConsoleStage {
    Lock,
    AuditRequest,
    Launch,
    AuditFailure,
    AuditSuccess,
    Terminate,
    Wait,
    Finished,
}

/// A process that was started, and the session it is in.
#[derive(Debug, Clone, Copy, PartialEq, Eq, Structural)]
pub struct StartedProcess {
    pub pid: u32,
    pub session_id: u32,
}

#[derive(Debug)]
pub enum ConsoleEvent {
    Locked(Result<(), String>),
    Audited(Result<(), String>),
    Launched(Result<StartedProcess, String>),
    Terminated(Result<(), String>),
    Exited(Result<(), String>),
}

#[derive(Debug)]
pub enum ConsoleAction {
    /// Takes the operation lock; it is held until the launch ends.
    Lock,
    Audit { operation: &'static str, status: AuditStatus, details: String },
    Launch,
    Terminate { exit_code: u32 },
    WaitForExit { millis: u64 },
    Finish(Result<u32, TrustedInstallerLaunchError>),
}

/// The launch of a console.
#[derive(Debug)]
pub struct ConsoleLaunch {
    pub stage: ConsoleStage,
    /// The process that runs.
    pub pid: u32,
    pub launch_error: String,
    pub audit_error: String,
    pub terminated: Result<(), String>,
}

impl ConsoleStage {
    pub open spec fn expects(self, event: ConsoleEvent) -> bool {
        match self {
            ConsoleStage::Lock => event is Locked,
            ConsoleStage::AuditRequest | ConsoleStage::AuditFailure | ConsoleStage::AuditSuccess =>
                event is Audited,
            ConsoleStage::Launch => event is Launched,
            ConsoleStage::Terminate => event is Terminated,
            ConsoleStage::Wait => event is Exited,
            ConsoleStage::Finished => false,
        }
    }
}

pub open spec fn console_ends(
    n: ConsoleLaunch,
    action: ConsoleAction,
    r: Result<u32, TrustedInstallerLaunchError>,
) -> bool {
    n.stage is Finished && action == ConsoleAction::Finish(r)
}

/// Whether an action writes a given audit entry.
pub open spec fn console_audits(
    action: ConsoleAction,
    operation: Seq<char>,
    status: AuditStatus,
    details: Seq<char>,
) -> bool {
    action matches ConsoleAction::Audit { operation: o, status: s, details: d } && o@ == operation
        && s == status && d@ == details
}

/// The failures of stopping the process, one text for each step that failed.
pub open spec fn stop_failures(
    terminated: Result<(), String>,
    exited: Result<(), String>,
) -> Seq<Seq<char>> {
    (match terminated {
        Ok(_) => Seq::empty(),
        Err(reason) => seq!["terminate: "@ + reason@],
    }) + (match exited {
        Ok(_) => Seq::<Seq<char>>::empty(),
        Err(reason) => seq!["wait: "@ + reason@],
    })
}

/// What follows an event in the launch of a console.
pub open spec fn console_follows(
    m: ConsoleLaunch,
    event: ConsoleEvent,
    n: ConsoleLaunch,
    action: ConsoleAction,
) -> bool {
    match event {
        ConsoleEvent::Locked(locked) => match locked {
            Ok(_) => n.stage is AuditRequest && console_audits(
                action,
                TI_REQUEST_OPERATION@,
                AuditStatus::Success,
                TI_REQUEST_DETAIL@,
            ),
            Err(reason) => console_ends(
                n,
                action,
                Err(TrustedInstallerLaunchError::OperationLock(reason)),
            ),
        },
        ConsoleEvent::Audited(audited) => match m.stage {
            ConsoleStage::AuditRequest => match audited {
                Ok(_) => n.stage is Launch && action is Launch,
                Err(reason) => console_ends(
                    n,
                    action,
                    Err(TrustedInstallerLaunchError::RequestAudit(reason)),
                ),
            },
            ConsoleStage::AuditFailure => n.stage is Finished && (
            action matches ConsoleAction::Finish(Err(e)) && match audited {
                Ok(_) => e matches TrustedInstallerLaunchError::Launch(reason) && reason@
                    == m.launch_error@,
                Err(why) => e matches TrustedInstallerLaunchError::LaunchAndFailureAudit {
                    launch_error,
                    audit_error,
                } && launch_error@ == m.launch_error@ && audit_error@ == why@,
            }),
            _ => match audited {
                Ok(_) => console_ends(n, action, Ok(m.pid)),
                Err(reason) => n.stage is Terminate && n.pid == m.pid && n.audit_error@ == reason@
                    && action == (ConsoleAction::Terminate {
                    exit_code: TI_TERMINATION_EXIT_CODE,
                }),
            },
        },
        ConsoleEvent::Launched(launched) => match launched {
            Ok(started) => n.stage is AuditSuccess && n.pid == started.pid && console_audits(
                action,
                TI_TERMINAL_OPERATION@,
                AuditStatus::Success,
                "Spawned PID "@ + decimal(started.pid as nat) + " in session "@ + decimal(
                    started.session_id as nat,
                ),
            ),
            Err(reason) => n.stage is AuditFailure && n.launch_error@ == reason@
                && console_audits(
                action,
                TI_TERMINAL_OPERATION@,
                AuditStatus::Failed,
                reason@,
            ),
        },
        ConsoleEvent::Terminated(outcome) => n.stage is Wait && n.pid == m.pid && n.audit_error
            == m.audit_error && n.terminated == outcome && action == (
        ConsoleAction::WaitForExit { millis: TI_TERMINATION_TIMEOUT_MS }),
        ConsoleEvent::Exited(outcome) => n.stage is Finished && (
        action matches ConsoleAction::Finish(Err(e)) && if m.terminated is Ok && outcome is Ok {
            e matches TrustedInstallerLaunchError::TerminalAuditCompensated { pid, audit_error }
                && pid == m.pid && audit_error@ == m.audit_error@
        } else {
            e matches TrustedInstallerLaunchError::TerminalAuditCompensationFailed {
                pid,
                audit_error,
                compensation_error,
            } && pid == m.pid && audit_error@ == m.audit_error@ && compensation_error@ == joined(
                stop_failures(m.terminated, outcome),
                "; "@,
            )
        }),
    }
}

fn stop_outcome(terminated: &Result<(), String>, exited: &Result<(), String>) -> (r: Option<String>)
    ensures
        match r {
            None => terminated is Ok && exited is Ok,
            Some(text) => !(terminated is Ok && exited is Ok) && text@ == joined(
                stop_failures(*terminated, *exited),
                "; "@,
            ),
        },
{
    let mut failures: Vec<String> = Vec::new();
    match terminated {
        Ok(()) => {},
        Err(reason) => {
            failures.push(cat2("terminate: ", reason.as_str()));
        },
    }
    match exited {
        Ok(()) => {},
        Err(reason) => {
            failures.push(cat2("wait: ", reason.as_str()));
        },
    }
    assert(texts(failures@) =~= stop_failures(*terminated, *exited));
    if failures.len() == 0 {
        None
    } else {
        Some(join(&failures, "; "))
    }
}

/// Whether a launch in a given state, told of these events one after the other, ends
/// with a given result at the last of them.
pub open spec fn console_runs(
    m: ConsoleLaunch,
    events: Seq<ConsoleEvent>,
    result: Result<u32, TrustedInstallerLaunchError>,
) -> bool
    decreases events.len(),
{
    &&& events.len() > 0
    &&& m.stage.expects(events[0])
    &&& exists|n: ConsoleLaunch, action: ConsoleAction| #[trigger]
        console_follows(m, events[0], n, action) && if events.len() == 1 {
            action == ConsoleAction::Finish(result)
        } else {
            console_runs(n, events.drop_first(), result)
        }
}

/// What the launch of a console ends with, by what came of the lock, the audit of the
/// request, the launch, the audit of its outcome and the stopping of a process whose
/// start is not in the journal.
pub open spec fn launch_outcome(
    events: Seq<ConsoleEvent>,
    result: Result<u32, TrustedInstallerLaunchError>,
) -> bool {
    match events[0] {
        ConsoleEvent::Locked(Err(reason)) => events.len() == 1 && result == Result::<
            u32,
            TrustedInstallerLaunchError,
        >::Err(TrustedInstallerLaunchError::OperationLock(reason)),
        ConsoleEvent::Locked(Ok(_)) => match events[1] {
            ConsoleEvent::Audited(Err(reason)) => events.len() == 2 && result == Result::<
                u32,
                TrustedInstallerLaunchError,
            >::Err(TrustedInstallerLaunchError::RequestAudit(reason)),
            ConsoleEvent::Audited(Ok(_)) => match events[2] {
                ConsoleEvent::Launched(Err(why)) => {
                    &&& events.len() == 4
                    &&& events[3] matches ConsoleEvent::Audited(recorded)
                    &&& result matches Err(e)
                    &&& match recorded {
                        Ok(_) => e matches TrustedInstallerLaunchError::Launch(reason) && reason@
                            == why@,
                        Err(unrecorded) =>
                            e matches TrustedInstallerLaunchError::LaunchAndFailureAudit {
                            launch_error,
                            audit_error,
                        } && launch_error@ == why@ && audit_error@ == unrecorded@,
                    }
                },
                ConsoleEvent::Launched(Ok(started)) => match events[3] {
                    ConsoleEvent::Audited(Ok(_)) => events.len() == 4 && result == Result::<
                        u32,
                        TrustedInstallerLaunchError,
                    >::Ok(started.pid),
                    ConsoleEvent::Audited(Err(unrecorded)) => {
                        &&& events.len() == 6
                        &&& events[4] matches ConsoleEvent::Terminated(terminated)
                        &&& events[5] matches ConsoleEvent::Exited(exited)
                        &&& result matches Err(e)
                        &&& if terminated is Ok && exited is Ok {
                            e matches TrustedInstallerLaunchError::TerminalAuditCompensated {
                                pid,
                                audit_error,
                            } && pid == started.pid && audit_error@ == unrecorded@
                        } else {
                            e matches TrustedInstallerLaunchError::TerminalAuditCompensationFailed {
                                pid,
                                audit_error,
                                compensation_error,
                            } && pid == started.pid && audit_error@ == unrecorded@
                                && compensation_error@ == joined(
                                stop_failures(terminated, exited),
                                "; "@,
                            )
                        }
                    },
                    _ => false,
                },
                _ => false,
            },
            _ => false,
        },
        _ => false,
    }
}

/// The state after the first event of a launch that ends, and the action it asks for.
proof fn lemma_first_event(
    m: ConsoleLaunch,
    events: Seq<ConsoleEvent>,
    result: Result<u32, TrustedInstallerLaunchError>,
) -> (r: (ConsoleLaunch, ConsoleAction))
    requires
        console_runs(m, events, result),
    ensures
        events.len() > 0,
        m.stage.expects(events[0]),
        console_follows(m, events[0], r.0, r.1),
        events.len() == 1 ==> r.1 == ConsoleAction::Finish(result),
        events.len() > 1 ==> console_runs(r.0, events.drop_first(), result),
        r.0.stage is Finished ==> events.len() == 1,
{
    let (n, action) = choose|n: ConsoleLaunch, action: ConsoleAction| #[trigger]
        console_follows(m, events[0], n, action) && if events.len() == 1 {
            action == ConsoleAction::Finish(result)
        } else {
            console_runs(n, events.drop_first(), result)
        };
    (n, action)
}

/// A launch that waits for its lock ends as its steps came out.
proof fn lemma_launch_outcome(
    m: ConsoleLaunch,
    events: Seq<ConsoleEvent>,
    result: Result<u32, TrustedInstallerLaunchError>,
)
    requires
        m.stage is Lock,
        console_runs(m, events, result),
    ensures
        launch_outcome(events, result),
{
    let (locked, _) = lemma_first_event(m, events, result);
    if locked.stage is AuditRequest {
        let after_lock = events.drop_first();
        let (requested, _) = lemma_first_event(locked, after_lock, result);
        if requested.stage is Launch {
            let after_request = after_lock.drop_first();
            let (launched, _) = lemma_first_event(requested, after_request, result);
            let after_launch = after_request.drop_first();
            let (recorded, _) = lemma_first_event(launched, after_launch, result);
            if recorded.stage is Terminate {
                let after_record = after_launch.drop_first();
                let (terminated, _) = lemma_first_event(recorded, after_record, result);
                let after_stop = after_record.drop_first();
                let (ended, _) = lemma_first_event(terminated, after_stop, result);
            }
        }
    }
}

impl ConsoleLaunch {
    /// Starts the launch. Nothing has happened yet; the lock is taken first, and what
    /// the launch ends with follows from what comes of its steps.
    pub fn execute_trustedinstaller_launch() -> (r: (ConsoleLaunch, ConsoleAction))
        ensures
            r.0.stage is Lock,
            r.0.pid == 0,
            r.0.launch_error@ == Seq::<char>::empty(),
            r.0.audit_error@ == Seq::<char>::empty(),
            r.0.terminated is Ok,
            r.1 is Lock,
            forall|events: Seq<ConsoleEvent>, result: Result<u32, TrustedInstallerLaunchError>|
                #[trigger] console_runs(r.0, events, result) ==> launch_outcome(events, result),
    {
        let launch = ConsoleLaunch {
            stage: ConsoleStage::Lock,
            pid: 0,
            launch_error: String::new(),
            audit_error: String::new(),
            terminated: Ok(()),
        };
        proof {
            assert forall|
                events: Seq<ConsoleEvent>,
                result: Result<u32, TrustedInstallerLaunchError>,
            | #[trigger] console_runs(launch, events, result) implies launch_outcome(
                events,
                result,
            ) by {
                lemma_launch_outcome(launch, events, result);
            }
        }
        (launch, ConsoleAction::Lock)
    }

    fn finish(&mut self, result: Result<u32, TrustedInstallerLaunchError>) -> (r: ConsoleAction)
        ensures
            console_ends(*final(self), r, result),
    {
        self.stage = ConsoleStage::Finished;
        ConsoleAction::Finish(result)
    }

    /// Goes on after an event. Nothing is launched unless the lock is held and the
    /// request is in the journal; a process whose start could not be journaled is
    /// stopped and waited for.
    pub fn step(&mut self, event: ConsoleEvent) -> (r: ConsoleAction)
        requires
            old(self).stage.expects(event),
        ensures
            console_follows(*old(self), event, *final(self), r),
            r is Launch ==> old(self).stage is AuditRequest && (event matches ConsoleEvent::Audited(
                Ok(_),
            )),
            r matches ConsoleAction::Finish(Ok(_)) ==> old(self).stage is AuditSuccess && (
            event matches ConsoleEvent::Audited(Ok(_))),
            old(self).stage is AuditSuccess && (event matches ConsoleEvent::Audited(Err(_)))
                ==> r is Terminate,
            old(self).stage is Terminate ==> r is WaitForExit,
    {
        match event {
            ConsoleEvent::Locked(locked) => match locked {
                Ok(()) => {
                    self.stage = ConsoleStage::AuditRequest;
                    ConsoleAction::Audit {
                        operation: TI_REQUEST_OPERATION,
                        status: AuditStatus::Success,
                        details: owned(TI_REQUEST_DETAIL),
                    }
                },
                Err(reason) => self.finish(Err(TrustedInstallerLaunchError::OperationLock(reason))),
            },
            ConsoleEvent::Audited(audited) => match self.stage {
                ConsoleStage::AuditRequest => match audited {
                    Ok(()) => {
                        self.stage = ConsoleStage::Launch;
                        ConsoleAction::Launch
                    },
                    Err(reason) => self.finish(
                        Err(TrustedInstallerLaunchError::RequestAudit(reason)),
                    ),
                },
                ConsoleStage::AuditFailure => {
                    let launch_error = owned(self.launch_error.as_str());
                    match audited {
                        Ok(()) => self.finish(
                            Err(TrustedInstallerLaunchError::Launch(launch_error)),
                        ),
                        Err(audit_error) => self.finish(
                            Err(
                                TrustedInstallerLaunchError::LaunchAndFailureAudit {
                                    launch_error: launch_error,
                                    audit_error: audit_error,
                                },
                            ),
                        ),
                    }
                },
                _ => match audited {
                    Ok(()) => self.finish(Ok(self.pid)),
                    Err(reason) => {
                        self.audit_error = reason;
                        self.stage = ConsoleStage::Terminate;
                        ConsoleAction::Terminate { exit_code: TI_TERMINATION_EXIT_CODE }
                    },
                },
            },
            ConsoleEvent::Launched(launched) => match launched {
                Ok(started) => {
                    let pid = dec(started.pid as u64);
                    let session = dec(started.session_id as u64);
                    self.pid = started.pid;
                    self.stage = ConsoleStage::AuditSuccess;
                    ConsoleAction::Audit {
                        operation: TI_TERMINAL_OPERATION,
                        status: AuditStatus::Success,
                        details: cat4(
                            "Spawned PID ",
                            pid.as_str(),
                            " in session ",
                            session.as_str(),
                        ),
                    }
                },
                Err(reason) => {
                    self.launch_error = owned(reason.as_str());
                    self.stage = ConsoleStage::AuditFailure;
                    ConsoleAction::Audit {
                        operation: TI_TERMINAL_OPERATION,
                        status: AuditStatus::Failed,
                        details: reason,
                    }
                },
            },
            ConsoleEvent::Terminated(outcome) => {
                self.terminated = outcome;
                self.stage = ConsoleStage::Wait;
                ConsoleAction::WaitForExit { millis: TI_TERMINATION_TIMEOUT_MS }
            },
            ConsoleEvent::Exited(outcome) => {
                let audit_error = owned(self.audit_error.as_str());
                let pid: u32 = self.pid;
                match stop_outcome(&self.terminated, &outcome) {
                    None => self.finish(
                        Err(
                            TrustedInstallerLaunchError::TerminalAuditCompensated {
                                pid: pid,
                                audit_error: audit_error,
                            },
                        ),
                    ),
                    Some(text) => self.finish(
                        Err(
                            TrustedInstallerLaunchError::TerminalAuditCompensationFailed {
                                pid: pid,
                                audit_error: audit_error,
                                compensation_error: text,
                            },
                        ),
                    ),
                }
            },
        }
    }
}

/// A console is launched only behind the lock and behind the journal's entry of the
/// request, and what came of the launch is told the journal as it came: a process as a
/// success, anything else as a failure. A process whose start is not in the journal is
/// stopped; a launch succeeds only with its start there.
pub proof fn a_console_is_launched_behind_the_journal(
    m: ConsoleLaunch,
    event: ConsoleEvent,
    n: ConsoleLaunch,
    action: ConsoleAction,
)
    requires
        m.stage.expects(event),
        console_follows(m, event, n, action),
    ensures
        action is Launch <==> m.stage is AuditRequest && (event matches ConsoleEvent::Audited(Ok(_))),
        (event matches ConsoleEvent::Locked(Err(_))) || m.stage is AuditRequest && (event matches
            ConsoleEvent::Audited(Err(_))) ==> (action matches ConsoleAction::Finish(Err(_))),
        event matches ConsoleEvent::Locked(Ok(_)) ==> n.stage is AuditRequest && action is Audit,
        event matches ConsoleEvent::Launched(outcome) ==> (action matches ConsoleAction::Audit {
            operation,
            status,
            details,
        } && (outcome is Ok <==> status is Success) && (outcome is Err <==> status is Failed)),
        m.stage is AuditSuccess && (event matches ConsoleEvent::Audited(Err(_))) ==> action is
            Terminate,
        event is Terminated ==> action is WaitForExit,
        action matches ConsoleAction::Finish(Ok(pid)) ==> m.stage is AuditSuccess && pid == m.pid
            && (event matches ConsoleEvent::Audited(Ok(_))),
        event matches ConsoleEvent::Launched(Ok(started)) ==> n.pid == started.pid,
{
}

/// A console is told to run exactly where the launch was announced in the journal, the process
/// was started and its start is in the journal too; the process told is the one that was
/// started, and where the journal failed behind it, it was asked to stop.
pub proof fn a_console_told_to_run_is_in_the_journal(
    events: Seq<ConsoleEvent>,
    result: Result<u32, TrustedInstallerLaunchError>,
)
    requires
        events.len() > 0,
        launch_outcome(events, result),
    ensures
        result matches Ok(pid) ==> events.len() == 4 && (events[0] matches ConsoleEvent::Locked(
            Ok(_),
        )) && (events[1] matches ConsoleEvent::Audited(Ok(_))) && (events[2] matches
            ConsoleEvent::Launched(Ok(started)) && started.pid == pid) && (events[3] matches
            ConsoleEvent::Audited(Ok(_))),
        (events[0] matches ConsoleEvent::Locked(Err(_))) ==> events.len() == 1 && result is Err,
        events.len() > 2 && (events[2] matches ConsoleEvent::Launched(Ok(_))) && result is Err
            ==> events.len() == 6 && events[4] is Terminated && events[5] is Exited,
{
}

} // verus!
