//! The broker: its messages, how they are framed on a pipe, and how a request is served.
use crate::clock::UtcTime;
use crate::i18n::{shown, I18nError, I18nManager};
use crate::journal::{AuditEntry, AuditStatus, EntryModel};
use crate::models::{describe_anomalies, DiagnosticReport, RepairPlan, UserProfile};
use crate::repair::RepairError;
use crate::restart_manager::{LockingProcessInfo, RestartManagerError};
use crate::scanner::ScannerError;
use crate::text::{cat2, cat3, cat4, dec, decimal, owned, trim_suffixes, without_suffixes};
use vstd::prelude::*;

verus! {

pub const SECURE_PIPE_NAME: &'static str = r"\\.\pipe\WinProfileBrokerSecure";

pub const SECURE_PIPE_SDDL: &'static str = "D:(A;;GA;;;BA)(A;;GA;;;SY)";

pub const PIPE_ACCESS_DUPLEX: u32 = 3;

/// How long a client waits for the pipe, in milliseconds.
pub const PIPE_WAIT_MS: u32 = 2000;

/// The largest request that is read.
pub const MAX_REQUEST_BYTES: u32 = 1_048_576;

/// How many bytes the length of a message takes.
pub const LENGTH_BYTES: u32 = 4;

/// Win32 code for a pipe that does not exist.
pub const ERROR_FILE_NOT_FOUND: u32 = 2;

/// Win32 code for a pipe whose instances are all in use.
pub const ERROR_PIPE_BUSY: u32 = 231;

/// Win32 code for a client that was there before the server waited for it.
pub const ERROR_PIPE_CONNECTED: u32 = 535;

/// The code of the reply to a request that cannot be read.
pub const MALFORMED_REQUEST: u32 = 400;

pub const BROKER_ACTOR: &'static str = "WinProfile-Broker";

/// Why a request to reset the rights on a tree is always refused: nothing here knows how
/// the rights of one account are to be built again.
pub const ACL_RESET_UNSUPPORTED: &'static str = "Automatic ACL reset is not supported";

/// A profile as it is sent.
#[derive(Debug, Clone, PartialEq, Eq)]
pub struct UserProfileDto {
    pub sid: String,
    pub username: String,
    pub domain: String,
    pub profile_path: String,
    pub loaded: bool,
    pub is_bak: bool,
    pub state_mask: u32,
    pub ref_count: u32,
    pub ntuser_exists: bool,
    pub usrclass_exists: bool,
    pub anomalies: Vec<String>,
}

/// A locking process as it is sent.
#[derive(Debug, Clone, PartialEq, Eq)]
pub struct LockingProcessDto {
    pub pid: u32,
    pub app_name: String,
    pub service_name: String,
}

#[derive(Debug, Clone, PartialEq, Eq)]
pub enum BrokerRequest {
    Ping,
    InspectProfiles,
    RepairBakProfile { sid: String },
    ResetProfileState { sid: String },
    ResetAclTree { path: String, owner_sid: String },
    UnlockHiveProcesses { hive_path: String, force: bool },
    LaunchTrustedInstallerProcess { command_line: String, target_session_id: u32 },
}

#[derive(Debug, Clone, PartialEq, Eq)]
pub enum BrokerResponse {
    Pong,
    Success { message: String },
    Error { code: u32, message: String },
    Profiles(Vec<UserProfileDto>),
    LockingProcesses(Vec<LockingProcessDto>),
    ProcessLaunched { pid: u32 },
}

impl BrokerResponse {
    pub open spec fn is_success(self, text: Seq<char>) -> bool {
        self matches BrokerResponse::Success { message } && message@ == text
    }

    pub open spec fn is_error(self, number: u32, text: Seq<char>) -> bool {
        self matches BrokerResponse::Error { code, message } && code == number && message@ == text
    }
}

// ---------------------------------------------------------------------------
// Framing
// ---------------------------------------------------------------------------

#[derive(Debug)]
pub enum PipeError {
    Win32Error(u32),
    JsonError(String),
    BrokerUnavailable,
    UnauthorizedClient,
}

impl PipeError {
    /// The text that describes the error.
    pub open spec fn text(self) -> Seq<char> {
        match self {
            PipeError::Win32Error(code) => "Named pipe Win32 error: "@ + decimal(code as nat),
            PipeError::JsonError(reason) => "Serialization / Deserialization error: "@ + reason@,
            PipeError::BrokerUnavailable =>
                "Named pipe communication timed out or broker offline"@,
            PipeError::UnauthorizedClient =>
                "Client identity could not be verified (impersonation failed)"@,
        }
    }

    pub fn message(&self) -> (r: String)
        ensures
            r@ == self.text(),
    {
        match self {
            PipeError::Win32Error(code) => {
                let digits = dec(*code as u64);
                cat2("Named pipe Win32 error: ", digits.as_str())
            },
            PipeError::JsonError(reason) => cat2(
                "Serialization / Deserialization error: ",
                reason.as_str(),
            ),
            PipeError::BrokerUnavailable => owned(
                "Named pipe communication timed out or broker offline",
            ),
            PipeError::UnauthorizedClient => owned(
                "Client identity could not be verified (impersonation failed)",
            ),
        }
    }
}

/// The bytes of a length, the lowest first.
pub open spec fn length_bytes(length: u32) -> Seq<u8> {
    seq![
        (length % 0x100) as u8,
        (length / 0x100 % 0x100) as u8,
        (length / 0x1_0000 % 0x100) as u8,
        (length / 0x100_0000) as u8,
    ]
}

/// The length that four bytes stand for.
pub open spec fn length_of(bytes: Seq<u8>) -> int {
    bytes[0] + bytes[1] * 0x100 + bytes[2] * 0x1_0000 + bytes[3] * 0x100_0000
}

pub fn encode_length(length: u32) -> (r: Vec<u8>)
    ensures
        r@ == length_bytes(length),
{
    let mut out: Vec<u8> = Vec::new();
    out.push((length % 0x100) as u8);
    out.push((length / 0x100 % 0x100) as u8);
    out.push((length / 0x1_0000 % 0x100) as u8);
    out.push((length / 0x100_0000) as u8);
    assert(out@ =~= length_bytes(length));
    out
}

pub fn decode_length(bytes: &Vec<u8>) -> (r: u32)
    requires
        bytes@.len() == 4,
    ensures
        r == length_of(bytes@),
{
    bytes[0] as u32 + bytes[1] as u32 * 0x100 + bytes[2] as u32 * 0x1_0000 + bytes[3] as u32
        * 0x100_0000
}

/// The length that is read is the length that was written.
pub proof fn length_survives_the_pipe(length: u32)
    ensures
        length_of(length_bytes(length)) == length,
{
}

/// The outcome of making an instance of the pipe: the codes of the failed calls, first
/// that of its security descriptor.
pub fn create_secure_pipe_server_instance(descriptor: Result<(), u32>, pipe: Result<(), u32>) -> (r:
    Result<(), PipeError>)
    ensures
        r == (match (descriptor, pipe) {
            (Err(code), _) => Result::<(), PipeError>::Err(PipeError::Win32Error(code)),
            (Ok(_), Err(code)) => Result::<(), PipeError>::Err(PipeError::Win32Error(code)),
            (Ok(_), Ok(_)) => Result::<(), PipeError>::Ok(()),
        }),
{
    match descriptor {
        Err(code) => Err(PipeError::Win32Error(code)),
        Ok(()) => match pipe {
            Err(code) => Err(PipeError::Win32Error(code)),
            Ok(()) => Ok(()),
        },
    }
}

/// Whether a server goes on with a client.
pub fn client_is_connected(connected: bool, code: u32) -> (r: bool)
    ensures
        r == (connected || code == ERROR_PIPE_CONNECTED),
{
    connected || code == ERROR_PIPE_CONNECTED
}

/// Whether the identity of a client was verified.
pub fn verify_pipe_client_identity(impersonated: bool) -> (r: Result<(), PipeError>)
    ensures
        impersonated ==> r is Ok,
        !impersonated ==> r == Result::<(), PipeError>::Err(PipeError::UnauthorizedClient),
{
    if impersonated {
        Ok(())
    } else {
        Err(PipeError::UnauthorizedClient)
    }
}

/// Whether a request of a given length is read at all.
pub fn admits_request(read: bool, bytes_read: u32, length: u32) -> (r: bool)
    ensures
        r == (read && bytes_read >= LENGTH_BYTES && length <= MAX_REQUEST_BYTES),
{
    read && bytes_read >= LENGTH_BYTES && length <= MAX_REQUEST_BYTES
}

/// The reply to a request that cannot be read.
pub fn malformed_request(reason: &str) -> (r: BrokerResponse)
    ensures
        r.is_error(MALFORMED_REQUEST, "Malformed request: "@ + reason@),
{
    BrokerResponse::Error {
        code: MALFORMED_REQUEST,
        message: cat2("Malformed request: ", reason),
    }
}

/// What an exchange is waiting for.
#[derive(Debug, Clone, Copy, PartialEq, Eq, Structural)]
pub enum ExchangeStage {
    Wait,
    Open,
    Encode,
    WriteLength,
    WritePayload,
    ReadLength,
    ReadPayload,
    Decode,
    Finished,
}

/// The outcome of a call on the pipe, and the last error code.
#[derive(Debug, Clone, Copy, PartialEq, Eq, Structural)]
pub struct PipeCall {
    pub done: bool,
    pub code: u32,
}

#[derive(Debug)]
pub enum ExchangeEvent {
    Waited(PipeCall),
    Opened(bool),
    Encoded(Result<Vec<u8>, String>),
    Wrote(PipeCall),
    /// The bytes that a read put into its buffer.
    Read(PipeCall, Vec<u8>),
    Decoded(Result<BrokerResponse, String>),
}

#[derive(Debug)]
pub enum ExchangeAction {
    Wait { name: &'static str, millis: u32 },
    Open { name: &'static str },
    Encode { request: BrokerRequest },
    Write { bytes: Vec<u8> },
    Read { count: u32 },
    Decode { bytes: Vec<u8> },
    Finish(Result<BrokerResponse, PipeError>),
}

/// One request and its reply, as a client sees them.
#[derive(Debug)]
pub struct Exchange {
    pub stage: ExchangeStage,
    /// The request, until it is handed over to be encoded.
    pub request: Option<BrokerRequest>,
    pub payload: Vec<u8>,
}

impl ExchangeStage {
    pub open spec fn expects(self, event: ExchangeEvent) -> bool {
        match self {
            ExchangeStage::Wait => event is Waited,
            ExchangeStage::Open => event is Opened,
            ExchangeStage::Encode => event matches ExchangeEvent::Encoded(encoded) && (
            encoded matches Ok(bytes) ==> bytes@.len() <= u32::MAX),
            ExchangeStage::WriteLength | ExchangeStage::WritePayload => event is Wrote,
            ExchangeStage::ReadLength | ExchangeStage::ReadPayload => event is Read,
            ExchangeStage::Decode => event is Decoded,
            ExchangeStage::Finished => false,
        }
    }
}

pub open spec fn exchange_ends(
    n: Exchange,
    action: ExchangeAction,
    r: Result<BrokerResponse, PipeError>,
) -> bool {
    n.stage is Finished && action == ExchangeAction::Finish(r)
}

/// What follows an event in an exchange.
pub open spec fn exchange_follows(
    m: Exchange,
    event: ExchangeEvent,
    n: Exchange,
    action: ExchangeAction,
) -> bool {
    match event {
        ExchangeEvent::Waited(call) => if !call.done && (call.code == ERROR_FILE_NOT_FOUND
            || call.code == ERROR_PIPE_BUSY) {
            exchange_ends(n, action, Err(PipeError::BrokerUnavailable))
        } else {
            n.stage is Open && n.request == m.request && action == (ExchangeAction::Open {
                name: SECURE_PIPE_NAME,
            })
        },
        ExchangeEvent::Opened(opened) => if opened {
            n.stage is Encode && action == (ExchangeAction::Encode { request: m.request->0 })
        } else {
            exchange_ends(n, action, Err(PipeError::BrokerUnavailable))
        },
        ExchangeEvent::Encoded(encoded) => match encoded {
            Err(reason) => exchange_ends(n, action, Err(PipeError::JsonError(reason))),
            Ok(bytes) => n.stage is WriteLength && n.payload@ == bytes@ && (
            action matches ExchangeAction::Write { bytes: prefix } && prefix@ == length_bytes(
                bytes@.len() as u32,
            )),
        },
        ExchangeEvent::Wrote(call) => if !call.done {
            exchange_ends(n, action, Err(PipeError::Win32Error(call.code)))
        } else if m.stage is WriteLength {
            n.stage is WritePayload && (action matches ExchangeAction::Write { bytes } && bytes@
                == m.payload@)
        } else {
            n.stage is ReadLength && action == ExchangeAction::Read { count: LENGTH_BYTES }
        },
        ExchangeEvent::Read(call, bytes) => if m.stage is ReadLength {
            if !call.done || bytes@.len() < LENGTH_BYTES {
                exchange_ends(n, action, Err(PipeError::Win32Error(call.code)))
            } else {
                n.stage is ReadPayload && (action matches ExchangeAction::Read { count } && count
                    == length_of(bytes@.take(4)))
            }
        } else if !call.done {
            exchange_ends(n, action, Err(PipeError::Win32Error(call.code)))
        } else {
            n.stage is Decode && action == ExchangeAction::Decode { bytes: bytes }
        },
        ExchangeEvent::Decoded(decoded) => match decoded {
            Err(reason) => exchange_ends(n, action, Err(PipeError::JsonError(reason))),
            Ok(response) => exchange_ends(n, action, Ok(response)),
        },
    }
}

/// Starts an exchange with the broker: this request is what is encoded and written.
pub fn send_broker_request(request: BrokerRequest) -> (r: (Exchange, ExchangeAction))
    ensures
        r.0.inv(),
        r.0.stage is Wait,
        r.0.request == Some(request),
        r.1 == (ExchangeAction::Wait { name: SECURE_PIPE_NAME, millis: PIPE_WAIT_MS }),
{
    (
        Exchange { stage: ExchangeStage::Wait, request: Some(request), payload: Vec::new() },
        ExchangeAction::Wait { name: SECURE_PIPE_NAME, millis: PIPE_WAIT_MS },
    )
}

impl Exchange {
    /// What holds between steps: the request is there until it is encoded.
    pub open spec fn inv(self) -> bool {
        self.stage is Wait || self.stage is Open ==> self.request is Some
    }

    fn finish(&mut self, result: Result<BrokerResponse, PipeError>) -> (r: ExchangeAction)
        ensures
            final(self).inv(),
            exchange_ends(*final(self), r, result),
    {
        self.stage = ExchangeStage::Finished;
        ExchangeAction::Finish(result)
    }

    /// Goes on after an event.
    pub fn step(&mut self, event: ExchangeEvent) -> (r: ExchangeAction)
        requires
            old(self).inv(),
            old(self).stage.expects(event),
        ensures
            final(self).inv(),
            exchange_follows(*old(self), event, *final(self), r),
    {
        match event {
            ExchangeEvent::Waited(call) => {
                if !call.done && (call.code == ERROR_FILE_NOT_FOUND || call.code
                    == ERROR_PIPE_BUSY) {
                    self.finish(Err(PipeError::BrokerUnavailable))
                } else {
                    self.stage = ExchangeStage::Open;
                    ExchangeAction::Open { name: SECURE_PIPE_NAME }
                }
            },
            ExchangeEvent::Opened(opened) => {
                if opened {
                    let request = self.request.take().unwrap();
                    self.stage = ExchangeStage::Encode;
                    ExchangeAction::Encode { request: request }
                } else {
                    self.finish(Err(PipeError::BrokerUnavailable))
                }
            },
            ExchangeEvent::Encoded(encoded) => match encoded {
                Err(reason) => self.finish(Err(PipeError::JsonError(reason))),
                Ok(bytes) => {
                    let length: u32 = bytes.len() as u32;
                    self.payload = bytes;
                    self.stage = ExchangeStage::WriteLength;
                    ExchangeAction::Write { bytes: encode_length(length) }
                },
            },
            ExchangeEvent::Wrote(call) => {
                if !call.done {
                    return self.finish(Err(PipeError::Win32Error(call.code)));
                }
                match self.stage {
                    ExchangeStage::WriteLength => {
                        let mut bytes: Vec<u8> = Vec::new();
                        bytes.append(&mut self.payload);
                        self.stage = ExchangeStage::WritePayload;
                        ExchangeAction::Write { bytes: bytes }
                    },
                    _ => {
                        self.stage = ExchangeStage::ReadLength;
                        ExchangeAction::Read { count: LENGTH_BYTES }
                    },
                }
            },
            ExchangeEvent::Read(call, bytes) => match self.stage {
                ExchangeStage::ReadLength => {
                    if !call.done || bytes.len() < 4 {
                        return self.finish(Err(PipeError::Win32Error(call.code)));
                    }
                    let mut prefix: Vec<u8> = Vec::new();
                    prefix.push(bytes[0]);
                    prefix.push(bytes[1]);
                    prefix.push(bytes[2]);
                    prefix.push(bytes[3]);
                    assert(prefix@ =~= bytes@.take(4));
                    self.stage = ExchangeStage::ReadPayload;
                    ExchangeAction::Read { count: decode_length(&prefix) }
                },
                _ => {
                    if !call.done {
                        return self.finish(Err(PipeError::Win32Error(call.code)));
                    }
                    self.stage = ExchangeStage::Decode;
                    ExchangeAction::Decode { bytes: bytes }
                },
            },
            ExchangeEvent::Decoded(decoded) => match decoded {
                Err(reason) => self.finish(Err(PipeError::JsonError(reason))),
                Ok(response) => self.finish(Ok(response)),
            },
        }
    }
}

// ---------------------------------------------------------------------------
// Serving a request
// ---------------------------------------------------------------------------

/// Whether a message describes a profile, its anomalies in the locale in use.
pub open spec fn sends_profile(
    dto: UserProfileDto,
    profile: UserProfile,
    bundles: Result<I18nManager, I18nError>,
) -> bool {
    &&& dto.sid@ == profile.sid@
    &&& dto.username@ == profile.username@
    &&& dto.domain@ == profile.domain@
    &&& dto.profile_path@ == profile.profile_path@
    &&& dto.loaded == profile.loaded
    &&& dto.is_bak == profile.is_bak
    &&& dto.state_mask == profile.state_mask
    &&& dto.ref_count == profile.ref_count
    &&& dto.ntuser_exists == profile.ntuser_exists
    &&& dto.usrclass_exists == profile.usrclass_exists
    &&& dto.anomalies@.len() == profile.anomalies@.len()
    &&& forall|i: int|
        0 <= i < dto.anomalies@.len() ==> (#[trigger] dto.anomalies@[i])@ == shown(
            bundles,
            profile.anomalies@[i]@.description_key(),
        )
}

/// Whether messages describe profiles, one for one.
pub open spec fn sends_profiles(
    dtos: Seq<UserProfileDto>,
    profiles: Seq<UserProfile>,
    bundles: Result<I18nManager, I18nError>,
) -> bool {
    dtos.len() == profiles.len() && forall|i: int|
        0 <= i < dtos.len() ==> sends_profile(#[trigger] dtos[i], profiles[i], bundles)
}

fn profile_messages(profiles: &Vec<UserProfile>, bundles: &Result<I18nManager, I18nError>) -> (r:
    Vec<UserProfileDto>)
    ensures
        sends_profiles(r@, profiles@, *bundles),
{
    let mut out: Vec<UserProfileDto> = Vec::new();
    let mut i: usize = 0;
    while i < profiles.len()
        invariant
            i <= profiles@.len(),
            out@.len() == i,
            forall|k: int|
                0 <= k < i ==> sends_profile(#[trigger] out@[k], profiles@[k], *bundles),
        decreases profiles.len() - i,
    {
        let profile = &profiles[i];
        out.push(
            UserProfileDto {
                sid: owned(profile.sid.as_str()),
                username: owned(profile.username.as_str()),
                domain: owned(profile.domain.as_str()),
                profile_path: owned(profile.profile_path.as_str()),
                loaded: profile.loaded,
                is_bak: profile.is_bak,
                state_mask: profile.state_mask,
                ref_count: profile.ref_count,
                ntuser_exists: profile.ntuser_exists,
                usrclass_exists: profile.usrclass_exists,
                anomalies: describe_anomalies(&profile.anomalies, bundles),
            },
        );
        i += 1;
    }
    out
}

/// Whether a message describes a locking process.
pub open spec fn sends_process(dto: LockingProcessDto, process: LockingProcessInfo) -> bool {
    dto.pid == process.process_id && dto.app_name@ == process.app_name@ && dto.service_name@
        == process.service_short_name@
}

pub open spec fn sends_processes(
    dtos: Seq<LockingProcessDto>,
    processes: Seq<LockingProcessInfo>,
) -> bool {
    dtos.len() == processes.len() && forall|i: int|
        0 <= i < dtos.len() ==> sends_process(#[trigger] dtos[i], processes[i])
}

/// The processes of a listing; none where it failed.
pub open spec fn known_processes(
    listed: Result<Vec<LockingProcessInfo>, RestartManagerError>,
) -> Seq<LockingProcessInfo> {
    match listed {
        Ok(processes) => processes@,
        Err(_) => Seq::empty(),
    }
}

fn process_messages(processes: &Vec<LockingProcessInfo>) -> (r: Vec<LockingProcessDto>)
    ensures
        sends_processes(r@, processes@),
{
    let mut out: Vec<LockingProcessDto> = Vec::new();
    let mut i: usize = 0;
    while i < processes.len()
        invariant
            i <= processes@.len(),
            out@.len() == i,
            forall|k: int| 0 <= k < i ==> sends_process(#[trigger] out@[k], processes@[k]),
        decreases processes.len() - i,
    {
        out.push(
            LockingProcessDto {
                pid: processes[i].process_id,
                app_name: owned(processes[i].app_name.as_str()),
                service_name: owned(processes[i].service_short_name.as_str()),
            },
        );
        i += 1;
    }
    out
}

/// The audit entry that an action of the service asks for.
pub fn service_entry(
    operation: &str,
    target: &str,
    status: AuditStatus,
    details: String,
    timestamp: UtcTime,
) -> (r: AuditEntry)
    ensures
        r@ == (EntryModel {
            timestamp: timestamp,
            operation: operation@,
            actor: BROKER_ACTOR@,
            target: target@,
            status: status,
            details: details@,
        }),
{
    AuditEntry {
        timestamp: timestamp,
        operation: owned(operation),
        actor: owned(BROKER_ACTOR),
        target: owned(target),
        status: status,
        details: details,
    }
}

/// What the service of a request is waiting for.
#[derive(Debug, Clone, Copy, PartialEq, Eq, Structural)]
pub enum ServiceStage {
    Scan,
    Repair,
    OpenSession,
    ListLocks,
    DuplicateToken,
    Launch,
    AuditLaunch,
    Finished,
}

#[derive(Debug)]
pub enum ServiceEvent {
    Scanned(Result<DiagnosticReport, ScannerError>),
    Repaired(Result<(), RepairError>),
    SessionOpened(Result<(), RestartManagerError>),
    /// The processes that lock the file, or why they are not known.
    LocksListed(Result<Vec<LockingProcessInfo>, RestartManagerError>),
    TokenDuplicated(Result<(), String>),
    Launched(Result<u32, String>),
    /// The audit entry was handed over, with whatever success.
    Audited,
}

#[derive(Debug)]
pub enum ServiceAction {
    Scan,
    Repair { plan: RepairPlan },
    OpenSession,
    ListLocks { path: String },
    DuplicateToken { session_id: u32 },
    Launch { command_line: String },
    Audit { operation: &'static str, target: String, status: AuditStatus, details: String },
    Reply(BrokerResponse),
}

/// The service of one request.
#[derive(Debug)]
pub struct BrokerService {
    pub request: BrokerRequest,
    pub stage: ServiceStage,
    /// The reply that is sent once the last step is done.
    pub reply: Option<BrokerResponse>,
}

impl ServiceStage {
    pub open spec fn expects(self, event: ServiceEvent) -> bool {
        match self {
            ServiceStage::Scan => event is Scanned,
            ServiceStage::Repair => event is Repaired,
            ServiceStage::OpenSession => event is SessionOpened,
            ServiceStage::ListLocks => event is LocksListed,
            ServiceStage::DuplicateToken => event is TokenDuplicated,
            ServiceStage::Launch => event is Launched,
            ServiceStage::AuditLaunch => event is Audited,
            ServiceStage::Finished => false,
        }
    }
}

pub open spec fn replies(n: BrokerService, action: ServiceAction, r: BrokerResponse) -> bool {
    n.stage is Finished && action == ServiceAction::Reply(r)
}

/// Whether an action writes a given audit entry of the broker.
pub open spec fn service_audits(
    action: ServiceAction,
    operation: Seq<char>,
    target: Seq<char>,
    details: Seq<char>,
) -> bool {
    action matches ServiceAction::Audit { operation: o, target: t, status: s, details: d } && o@
        == operation && t@ == target && s is Success && d@ == details
}

/// Whether a plan is that of a request to repair.
pub open spec fn plan_for(request: BrokerRequest, plan: RepairPlan) -> bool {
    match request {
        BrokerRequest::RepairBakProfile { sid } => plan.sid@ == sid@ && plan.canonical_sid@
            == without_suffixes(sid@, ".bak"@) && plan.profile_path@ == ""@ && plan.fix_bak
            && plan.reset_state && plan.unlock_hive && !plan.dry_run,
        BrokerRequest::ResetProfileState { sid } => plan.sid@ == sid@ && plan.canonical_sid@
            == sid@ && plan.profile_path@ == ""@ && !plan.fix_bak && plan.reset_state
            && !plan.unlock_hive && !plan.dry_run,
        _ => false,
    }
}

/// What the service of a request starts with.
pub open spec fn service_starts(request: BrokerRequest, n: BrokerService, action: ServiceAction) -> bool {
    match request {
        BrokerRequest::Ping => replies(n, action, BrokerResponse::Pong),
        BrokerRequest::InspectProfiles => n.stage is Scan && action is Scan,
        BrokerRequest::RepairBakProfile { .. } | BrokerRequest::ResetProfileState { .. } =>
            n.stage is Repair && (action matches ServiceAction::Repair { plan } && plan_for(
                request,
                plan,
            )),
        BrokerRequest::ResetAclTree { .. } => n.stage is Finished && (
        action matches ServiceAction::Reply(reply) && reply.is_error(4, ACL_RESET_UNSUPPORTED@)),
        BrokerRequest::UnlockHiveProcesses { .. } => n.stage is OpenSession
            && action is OpenSession,
        BrokerRequest::LaunchTrustedInstallerProcess { target_session_id, .. } =>
            n.stage is DuplicateToken && action == (ServiceAction::DuplicateToken {
                session_id: target_session_id,
            }),
    }
}

/// What follows an event in the service of a request.
pub open spec fn service_follows(
    m: BrokerService,
    event: ServiceEvent,
    bundles: Result<I18nManager, I18nError>,
    n: BrokerService,
    action: ServiceAction,
) -> bool {
    match event {
        ServiceEvent::Scanned(scanned) => n.stage is Finished && (
        action matches ServiceAction::Reply(reply) && match scanned {
            Ok(report) => reply matches BrokerResponse::Profiles(dtos) && sends_profiles(
                dtos@,
                report.profiles@,
                bundles,
            ),
            Err(e) => reply.is_error(1, e.text()),
        }),
        ServiceEvent::Repaired(repaired) => n.stage is Finished && (
        action matches ServiceAction::Reply(reply) && match (m.request, repaired) {
            (BrokerRequest::RepairBakProfile { sid }, Ok(_)) => reply.is_success(
                "Profile "@ + sid@ + " successfully repaired."@,
            ),
            (BrokerRequest::RepairBakProfile { .. }, Err(e)) => reply.is_error(2, e.text()),
            (BrokerRequest::ResetProfileState { sid }, Ok(_)) => reply.is_success(
                "State and RefCount reset for "@ + sid@ + "."@,
            ),
            (_, Err(e)) => reply.is_error(3, e.text()),
            _ => false,
        }),
        ServiceEvent::SessionOpened(opened) => match (m.request, opened) {
            (BrokerRequest::UnlockHiveProcesses { hive_path, .. }, Ok(_)) => n.stage is ListLocks
                && (action matches ServiceAction::ListLocks { path } && path@ == hive_path@),
            (_, Err(e)) => n.stage is Finished && (action matches ServiceAction::Reply(reply)
                && reply.is_error(5, e.text())),
            _ => false,
        },
        ServiceEvent::LocksListed(processes) => n.stage is Finished && (
        action matches ServiceAction::Reply(BrokerResponse::LockingProcesses(dtos))
            && sends_processes(dtos@, known_processes(processes))),
        ServiceEvent::TokenDuplicated(duplicated) => match (m.request, duplicated) {
            (BrokerRequest::LaunchTrustedInstallerProcess { command_line, .. }, Ok(_)) =>
                n.stage is Launch && (action matches ServiceAction::Launch { command_line: c }
                    && c@ == command_line@),
            (_, Err(reason)) => n.stage is Finished && (action matches ServiceAction::Reply(reply)
                && reply.is_error(7, "Token duplication failed: "@ + reason@)),
            _ => false,
        },
        ServiceEvent::Launched(launched) => match (m.request, launched) {
            (
                BrokerRequest::LaunchTrustedInstallerProcess { command_line, target_session_id },
                Ok(pid),
            ) => n.stage is AuditLaunch && service_audits(
                action,
                "LaunchTrustedInstallerProcess"@,
                command_line@,
                "Spawned PID "@ + decimal(pid as nat) + " in interactive session "@ + decimal(
                    target_session_id as nat,
                ),
            ) && n.reply == Some(BrokerResponse::ProcessLaunched { pid: pid }),
            (_, Err(reason)) => n.stage is Finished && (action matches ServiceAction::Reply(reply)
                && reply.is_error(6, "Failed to spawn process: "@ + reason@)),
            _ => false,
        },
        ServiceEvent::Audited => replies(n, action, m.reply->0),
    }
}

impl BrokerService {
    /// What holds between steps: the stage is one of the request, and the reply is
    /// there where only the last step is missing.
    pub open spec fn inv(self) -> bool {
        &&& match self.stage {
            ServiceStage::Scan => self.request is InspectProfiles,
            ServiceStage::Repair => self.request is RepairBakProfile
                || self.request is ResetProfileState,
            ServiceStage::OpenSession | ServiceStage::ListLocks =>
                self.request is UnlockHiveProcesses,
            ServiceStage::DuplicateToken | ServiceStage::Launch | ServiceStage::AuditLaunch =>
                self.request is LaunchTrustedInstallerProcess,
            ServiceStage::Finished => true,
        }
        &&& self.stage is AuditLaunch ==> self.reply is Some
    }

    /// Starts the service of a request. Rights are never reset, and the processes that
    /// lock a hive are listed and left running, whether or not force is asked for.
    pub fn handle_broker_request(request: BrokerRequest) -> (r: (BrokerService, ServiceAction))
        ensures
            r.0.inv(),
            r.0.request == request,
            service_starts(request, r.0, r.1),
    {
        proof {
            reveal_strlit("");
        }
        let (stage, action) = match &request {
            BrokerRequest::Ping => (
                ServiceStage::Finished,
                ServiceAction::Reply(BrokerResponse::Pong),
            ),
            BrokerRequest::InspectProfiles => (ServiceStage::Scan, ServiceAction::Scan),
            BrokerRequest::RepairBakProfile { sid } => {
                let plan = RepairPlan {
                    sid: owned(sid.as_str()),
                    canonical_sid: trim_suffixes(sid.as_str(), ".bak"),
                    profile_path: owned(""),
                    fix_bak: true,
                    reset_state: true,
                    unlock_hive: true,
                    dry_run: false,
                };
                (ServiceStage::Repair, ServiceAction::Repair { plan: plan })
            },
            BrokerRequest::ResetProfileState { sid } => {
                let plan = RepairPlan {
                    sid: owned(sid.as_str()),
                    canonical_sid: owned(sid.as_str()),
                    profile_path: owned(""),
                    fix_bak: false,
                    reset_state: true,
                    unlock_hive: false,
                    dry_run: false,
                };
                (ServiceStage::Repair, ServiceAction::Repair { plan: plan })
            },
            BrokerRequest::ResetAclTree { .. } => (
                ServiceStage::Finished,
                ServiceAction::Reply(
                    BrokerResponse::Error { code: 4, message: owned(ACL_RESET_UNSUPPORTED) },
                ),
            ),
            BrokerRequest::UnlockHiveProcesses { .. } => (
                ServiceStage::OpenSession,
                ServiceAction::OpenSession,
            ),
            BrokerRequest::LaunchTrustedInstallerProcess { target_session_id, .. } => (
                ServiceStage::DuplicateToken,
                ServiceAction::DuplicateToken { session_id: *target_session_id },
            ),
        };
        (BrokerService { request: request, stage: stage, reply: None }, action)
    }

    fn reply(&mut self, response: BrokerResponse) -> (r: ServiceAction)
        ensures
            final(self).inv(),
            final(self).request == old(self).request,
            replies(*final(self), r, response),
    {
        self.stage = ServiceStage::Finished;
        ServiceAction::Reply(response)
    }

    fn fail(&mut self, code: u32, message: String) -> (r: ServiceAction)
        ensures
            final(self).inv(),
            final(self).request == old(self).request,
            final(self).stage is Finished,
            r matches ServiceAction::Reply(response) && response.is_error(code, message@),
    {
        self.reply(BrokerResponse::Error { code: code, message: message })
    }

    fn step_repaired(&mut self, repaired: Result<(), RepairError>) -> (r: ServiceAction)
        requires
            old(self).inv(),
            old(self).stage is Repair,
        ensures
            final(self).inv(),
            final(self).request == old(self).request,
            forall|bundles| #[trigger]
                service_follows(
                    *old(self),
                    ServiceEvent::Repaired(repaired),
                    bundles,
                    *final(self),
                    r,
                ),
    {
        match repaired {
            Ok(()) => {
                let message = match &self.request {
                    BrokerRequest::RepairBakProfile { sid } => cat3(
                        "Profile ",
                        sid.as_str(),
                        " successfully repaired.",
                    ),
                    BrokerRequest::ResetProfileState { sid } => cat3(
                        "State and RefCount reset for ",
                        sid.as_str(),
                        ".",
                    ),
                    _ => String::new(),
                };
                self.reply(BrokerResponse::Success { message: message })
            },
            Err(e) => {
                let code: u32 = match &self.request {
                    BrokerRequest::RepairBakProfile { .. } => 2,
                    _ => 3,
                };
                self.fail(code, e.message())
            },
        }
    }

    /// Goes on after an event.
    pub fn step(&mut self, event: ServiceEvent, bundles: &Result<I18nManager, I18nError>) -> (r:
        ServiceAction)
        requires
            old(self).inv(),
            old(self).stage.expects(event),
        ensures
            final(self).inv(),
            final(self).request == old(self).request,
            service_follows(*old(self), event, *bundles, *final(self), r),
    {
        match event {
            ServiceEvent::Scanned(scanned) => match scanned {
                Ok(report) => {
                    let dtos = profile_messages(&report.profiles, bundles);
                    self.reply(BrokerResponse::Profiles(dtos))
                },
                Err(e) => self.fail(1, e.message()),
            },
            ServiceEvent::Repaired(repaired) => self.step_repaired(repaired),
            ServiceEvent::SessionOpened(opened) => match opened {
                Err(e) => self.fail(5, e.message()),
                Ok(()) => {
                    let path = match &self.request {
                        BrokerRequest::UnlockHiveProcesses { hive_path, .. } => owned(
                            hive_path.as_str(),
                        ),
                        _ => String::new(),
                    };
                    self.stage = ServiceStage::ListLocks;
                    ServiceAction::ListLocks { path: path }
                },
            },
            ServiceEvent::LocksListed(processes) => {
                let known = match processes {
                    Ok(known) => known,
                    Err(_) => Vec::new(),
                };
                let dtos = process_messages(&known);
                self.reply(BrokerResponse::LockingProcesses(dtos))
            },
            ServiceEvent::TokenDuplicated(duplicated) => match duplicated {
                Err(reason) => {
                    let message = cat2("Token duplication failed: ", reason.as_str());
                    self.fail(7, message)
                },
                Ok(()) => {
                    let line = match &self.request {
                        BrokerRequest::LaunchTrustedInstallerProcess { command_line, .. } => owned(
                            command_line.as_str(),
                        ),
                        _ => String::new(),
                    };
                    self.stage = ServiceStage::Launch;
                    ServiceAction::Launch { command_line: line }
                },
            },
            ServiceEvent::Launched(launched) => match launched {
                Err(reason) => {
                    let message = cat2("Failed to spawn process: ", reason.as_str());
                    self.fail(6, message)
                },
                Ok(pid) => {
                    let pid_text = dec(pid as u64);
                    let (target, details) = match &self.request {
                        BrokerRequest::LaunchTrustedInstallerProcess {
                            command_line,
                            target_session_id,
                        } => {
                            let session = dec(*target_session_id as u64);
                            (
                                owned(command_line.as_str()),
                                cat4(
                                    "Spawned PID ",
                                    pid_text.as_str(),
                                    " in interactive session ",
                                    session.as_str(),
                                ),
                            )
                        },
                        _ => (String::new(), String::new()),
                    };
                    self.reply = Some(BrokerResponse::ProcessLaunched { pid: pid });
                    self.stage = ServiceStage::AuditLaunch;
                    ServiceAction::Audit {
                        operation: "LaunchTrustedInstallerProcess",
                        target: target,
                        status: AuditStatus::Success,
                        details: details,
                    }
                },
            },
            ServiceEvent::Audited => {
                let response = self.reply.take().unwrap();
                self.reply(response)
            },
        }
    }
}

/// What a client sends is announced by its length, and what it hands on is what the broker
/// sent: no answer is made up where one of the calls failed.
pub proof fn an_exchange_hands_on_what_the_broker_said(
    m: Exchange,
    event: ExchangeEvent,
    n: Exchange,
    action: ExchangeAction,
)
    requires
        m.inv(),
        m.stage.expects(event),
        exchange_follows(m, event, n, action),
    ensures
        action matches ExchangeAction::Finish(Ok(response)) ==> event == ExchangeEvent::Decoded(
            Ok(response),
        ),
        action matches ExchangeAction::Encode { request } ==> m.request == Some(request),
        event matches ExchangeEvent::Encoded(Ok(bytes)) ==> n.payload@ == bytes@ && (
        action matches ExchangeAction::Write { bytes: prefix } && prefix@.len() == 4 && length_of(
            prefix@,
        ) == bytes@.len()),
        m.stage is WriteLength && (event matches ExchangeEvent::Wrote(call) && call.done) ==> (
        action matches ExchangeAction::Write { bytes } && bytes@ == m.payload@),
        event matches ExchangeEvent::Read(call, bytes) ==> if !call.done {
            action matches ExchangeAction::Finish(Err(_))
        } else if m.stage is ReadLength {
            bytes@.len() >= 4 ==> (action matches ExchangeAction::Read { count } && count
                == length_of(bytes@.take(4)))
        } else {
            action == (ExchangeAction::Decode { bytes: bytes })
        },
        (event matches ExchangeEvent::Wrote(call) && !call.done) ==> (
        action matches ExchangeAction::Finish(Err(_))),
        event == ExchangeEvent::Opened(false) ==> action == ExchangeAction::Finish(
            Err(PipeError::BrokerUnavailable),
        ),
{
    if let ExchangeEvent::Encoded(Ok(bytes)) = event {
        length_survives_the_pipe(bytes@.len() as u32);
    }
}

/// A request starts the work that it asks for and no other: only a repair repairs, of the
/// profile that was named and for real; only a launch takes the token, for the session that
/// was named.
pub proof fn a_request_starts_its_own_work(
    request: BrokerRequest,
    n: BrokerService,
    action: ServiceAction,
)
    requires
        service_starts(request, n, action),
    ensures
        action matches ServiceAction::Repair { plan } ==> !plan.dry_run && plan.reset_state && match
            request {
            BrokerRequest::RepairBakProfile { sid } => plan.sid@ == sid@ && plan.fix_bak
                && plan.unlock_hive,
            BrokerRequest::ResetProfileState { sid } => plan.sid@ == sid@ && plan.canonical_sid@
                == sid@ && !plan.fix_bak && !plan.unlock_hive,
            _ => false,
        },
        request is RepairBakProfile || request is ResetProfileState <==> action is Repair,
        request is InspectProfiles <==> action is Scan,
        request is UnlockHiveProcesses <==> action is OpenSession,
        request is LaunchTrustedInstallerProcess <==> action is DuplicateToken,
        request matches BrokerRequest::LaunchTrustedInstallerProcess { target_session_id, .. } ==> (
        action == (ServiceAction::DuplicateToken { session_id: target_session_id })),
        request is Ping || request is ResetAclTree <==> action is Reply,
        request is Ping ==> action == ServiceAction::Reply(BrokerResponse::Pong),
        request is ResetAclTree ==> (action matches ServiceAction::Reply(reply) && reply is Error),
{
}

/// A request is answered by a success exactly where its work succeeded; a process is started
/// only behind a token that was taken, and told only once its start is in the journal.
pub proof fn a_request_is_answered_as_its_work_went(
    m: BrokerService,
    event: ServiceEvent,
    bundles: Result<I18nManager, I18nError>,
    n: BrokerService,
    action: ServiceAction,
)
    requires
        m.inv(),
        m.stage.expects(event),
        service_follows(m, event, bundles, n, action),
    ensures
        event matches ServiceEvent::Repaired(repaired) ==> (action matches ServiceAction::Reply(reply)
            && (reply is Success <==> repaired is Ok) && (reply is Error <==> repaired is Err)),
        event matches ServiceEvent::Scanned(scanned) ==> (action matches ServiceAction::Reply(reply)
            && (reply is Profiles <==> scanned is Ok) && (reply is Error <==> scanned is Err)),
        event matches ServiceEvent::Scanned(Ok(report)) ==> (action matches ServiceAction::Reply(
            BrokerResponse::Profiles(dtos),
        ) && dtos@.len() == report.profiles@.len() && forall|i: int|
            0 <= i < dtos@.len() ==> (#[trigger] dtos@[i]).sid@ == report.profiles@[i].sid@
                && dtos@[i].loaded == report.profiles@[i].loaded && dtos@[i].is_bak
                == report.profiles@[i].is_bak && dtos@[i].anomalies@.len()
                == report.profiles@[i].anomalies@.len()),
        action is Launch ==> (event matches ServiceEvent::TokenDuplicated(Ok(_))),
        action matches ServiceAction::Launch { command_line } ==> (m.request matches
            BrokerRequest::LaunchTrustedInstallerProcess { command_line: asked, .. } && asked@
            == command_line@),
        event matches ServiceEvent::Launched(Ok(pid)) ==> action is Audit && n.reply == Some(
            BrokerResponse::ProcessLaunched { pid: pid },
        ),
        (event matches ServiceEvent::Launched(Err(_))) || (event matches
            ServiceEvent::TokenDuplicated(Err(_))) || (event matches ServiceEvent::SessionOpened(
            Err(_),
        )) ==> (action matches ServiceAction::Reply(reply) && reply is Error),
        action matches ServiceAction::Reply(BrokerResponse::ProcessLaunched { pid })
            ==> event is Audited && m.reply == Some(BrokerResponse::ProcessLaunched { pid: pid }),
        event is Audited ==> action == ServiceAction::Reply(m.reply->0),
        event matches ServiceEvent::LocksListed(Ok(processes)) ==> (
        action matches ServiceAction::Reply(BrokerResponse::LockingProcesses(dtos)) && dtos@.len()
            == processes@.len() && forall|i: int|
            0 <= i < dtos@.len() ==> (#[trigger] dtos@[i]).pid == processes@[i].process_id),
{
    if let ServiceEvent::Scanned(Ok(report)) = event {
        if let ServiceAction::Reply(BrokerResponse::Profiles(dtos)) = action {
            assert forall|i: int| 0 <= i < dtos@.len() implies (#[trigger] dtos@[i]).sid@
                == report.profiles@[i].sid@ && dtos@[i].loaded == report.profiles@[i].loaded
                && dtos@[i].is_bak == report.profiles@[i].is_bak && dtos@[i].anomalies@.len()
                == report.profiles@[i].anomalies@.len() by {
                assert(sends_profile(dtos@[i], report.profiles@[i], bundles));
            }
        }
    }
    if let ServiceEvent::LocksListed(Ok(processes)) = event {
        if let ServiceAction::Reply(BrokerResponse::LockingProcesses(dtos)) = action {
            assert forall|i: int| 0 <= i < dtos@.len() implies (#[trigger] dtos@[i]).pid
                == processes@[i].process_id by {
                assert(sends_process(dtos@[i], processes@[i]));
            }
        }
    }
}

} // verus!
