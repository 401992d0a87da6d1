//! Legacy storage: the durable states of its detachment, and what is pending.
use crate::secure_fs::{status_digits, status_text, FileIdentity};
use crate::security::SecurityError;
use crate::storage::StorageError;
use crate::text::{
    cat2, cat3, cat4, cat5, comes_before, dec, decimal, digit_char, ends_with, has_prefix, has_suffix,
    hex_lower, hex_text, owned, starts_with, str_eq, text_before, text_order_is_total,
    text_order_is_transitive,
};
use vstd::prelude::*;

verus! {

/// The directory that holds the durable states, beside the storage root.
pub const BOOTSTRAP_DIRECTORY: &'static str = "WinProfile.Bootstrap";

pub const BOOTSTRAP_LOCK: &'static str = ".bootstrap.lock";

pub const BOOTSTRAP_LOCK_TIMEOUT_MS: u64 = 2000;

pub const STATE_PREFIX: &'static str = "migration-";

pub const STATE_SUFFIX: &'static str = ".json";

/// Prefix of the name under which a detached root is kept.
pub const LEGACY_PREFIX: &'static str = "WinProfile.Legacy.Untrusted.";

/// Prefix of the name under which the new root is prepared.
pub const NEXT_PREFIX: &'static str = "WinProfile.Next.";

pub const AUDIT_OPERATION: &'static str = "LegacyStorageDetached";

pub const AUDIT_ACTOR: &'static str = "WinProfile-Admin";

#[derive(Debug)]
pub enum LegacyStorageError {
    Storage(StorageError),
    Serialization(String),
    Io(String),
    PublishedStateSync { name: String, reason: String },
    StatePublication { name: String, source: StorageError },
    Privilege(SecurityError),
    OperationAndPrivilegeRestore { operation_error: String, restore_error: String },
    PrivilegeRestore(String),
    IdentityChanged,
    InvalidState(String),
    AmbiguousState,
    Random(i32),
}

impl LegacyStorageError {
    /// The text that describes the error.
    pub open spec fn text(self) -> Seq<char> {
        match self {
            LegacyStorageError::Storage(error) => "protected storage error: "@ + error.text(),
            LegacyStorageError::Serialization(reason) =>
                "legacy migration state serialization failed: "@ + reason@,
            LegacyStorageError::Io(reason) => "legacy migration state IO failed: "@ + reason@,
            LegacyStorageError::PublishedStateSync { name, reason } => "legacy migration state "@
                + name@ + " was published but final synchronization failed: "@ + reason@,
            LegacyStorageError::StatePublication { name, source } => "legacy migration state "@
                + name@ + " publication failed with an ambiguous durable result: "@
                + source.text(),
            LegacyStorageError::Privilege(error) => "privilege adjustment failed: "@
                + error.text(),
            LegacyStorageError::OperationAndPrivilegeRestore { operation_error, restore_error } =>
                "legacy namespace operation failed ("@ + operation_error@
                + ") and privilege restoration failed ("@ + restore_error@ + ")"@,
            LegacyStorageError::PrivilegeRestore(reason) =>
                "privilege restoration failed after a recoverable namespace transition: "@
                + reason@,
            LegacyStorageError::IdentityChanged =>
                "legacy source identity changed after consent; no object was moved"@,
            LegacyStorageError::InvalidState(reason) => "legacy migration state is invalid: "@
                + reason@,
            LegacyStorageError::AmbiguousState =>
                "multiple unfinished legacy migrations are present"@,
            LegacyStorageError::Random(status) =>
                "Windows secure random generation failed with NTSTATUS "@ + status_digits(status),
        }
    }

    pub fn message(&self) -> (r: String)
        ensures
            r@ == self.text(),
    {
        match self {
            LegacyStorageError::Storage(error) => {
                let reason = error.message();
                cat2("protected storage error: ", reason.as_str())
            },
            LegacyStorageError::Serialization(reason) => cat2(
                "legacy migration state serialization failed: ",
                reason.as_str(),
            ),
            LegacyStorageError::Io(reason) => cat2(
                "legacy migration state IO failed: ",
                reason.as_str(),
            ),
            LegacyStorageError::PublishedStateSync { name, reason } => cat4(
                "legacy migration state ",
                name.as_str(),
                " was published but final synchronization failed: ",
                reason.as_str(),
            ),
            LegacyStorageError::StatePublication { name, source } => {
                let reason = source.message();
                cat4(
                    "legacy migration state ",
                    name.as_str(),
                    " publication failed with an ambiguous durable result: ",
                    reason.as_str(),
                )
            },
            LegacyStorageError::Privilege(error) => {
                let reason = error.message();
                cat2("privilege adjustment failed: ", reason.as_str())
            },
            LegacyStorageError::OperationAndPrivilegeRestore { operation_error, restore_error } =>
                cat5(
                    "legacy namespace operation failed (",
                    operation_error.as_str(),
                    ") and privilege restoration failed (",
                    restore_error.as_str(),
                    ")",
                ),
            LegacyStorageError::PrivilegeRestore(reason) => cat2(
                "privilege restoration failed after a recoverable namespace transition: ",
                reason.as_str(),
            ),
            LegacyStorageError::IdentityChanged => owned(
                "legacy source identity changed after consent; no object was moved",
            ),
            LegacyStorageError::InvalidState(reason) => cat2(
                "legacy migration state is invalid: ",
                reason.as_str(),
            ),
            LegacyStorageError::AmbiguousState => owned(
                "multiple unfinished legacy migrations are present",
            ),
            LegacyStorageError::Random(status) => {
                let code = status_text(*status);
                cat2("Windows secure random generation failed with NTSTATUS ", code.as_str())
            },
        }
    }
}

// ---------------------------------------------------------------------------
// Phases and records
// ---------------------------------------------------------------------------

/// How far a detachment has come, as its durable states tell.
#[derive(Debug, Clone, Copy, PartialEq, Eq, Structural)]
pub enum MigrationPhase {
    Prepared,
    Detached,
    RootReady,
    AuditPending,
    Done,
}

impl MigrationPhase {
    /// The place of the phase in the course of a detachment.
    pub open spec fn rank(self) -> nat {
        match self {
            MigrationPhase::Prepared => 0,
            MigrationPhase::Detached => 1,
            MigrationPhase::RootReady => 2,
            MigrationPhase::AuditPending => 3,
            MigrationPhase::Done => 4,
        }
    }

    pub fn number(self) -> (r: u8)
        ensures
            r == self.rank(),
    {
        match self {
            MigrationPhase::Prepared => 0,
            MigrationPhase::Detached => 1,
            MigrationPhase::RootReady => 2,
            MigrationPhase::AuditPending => 3,
            MigrationPhase::Done => 4,
        }
    }

    /// The phase that follows; nothing follows the last.
    pub fn next(self) -> (r: Option<MigrationPhase>)
        ensures
            match r {
                Some(next) => next.rank() == self.rank() + 1,
                None => self is Done,
            },
    {
        match self {
            MigrationPhase::Prepared => Some(MigrationPhase::Detached),
            MigrationPhase::Detached => Some(MigrationPhase::RootReady),
            MigrationPhase::RootReady => Some(MigrationPhase::AuditPending),
            MigrationPhase::AuditPending => Some(MigrationPhase::Done),
            MigrationPhase::Done => None,
        }
    }

    /// The word for the phase.
    pub open spec fn word(self) -> Seq<char> {
        match self {
            MigrationPhase::Prepared => "prepared"@,
            MigrationPhase::Detached => "detached"@,
            MigrationPhase::RootReady => "root-ready"@,
            MigrationPhase::AuditPending => "audit-pending"@,
            MigrationPhase::Done => "done"@,
        }
    }

    pub fn label(self) -> (r: &'static str)
        ensures
            r@ == self.word(),
    {
        match self {
            MigrationPhase::Prepared => "prepared",
            MigrationPhase::Detached => "detached",
            MigrationPhase::RootReady => "root-ready",
            MigrationPhase::AuditPending => "audit-pending",
            MigrationPhase::Done => "done",
        }
    }
}

/// What is left to do of a detachment.
#[derive(Debug, Clone, Copy, PartialEq, Eq, Structural)]
pub enum RecoveryPlan {
    DetachAndActivate,
    Activate,
    MarkAuditPending,
    RetryTerminalAudit,
    Complete,
}

/// What is left to do at a phase.
pub open spec fn plan_of(phase: MigrationPhase) -> RecoveryPlan {
    match phase {
        MigrationPhase::Prepared => RecoveryPlan::DetachAndActivate,
        MigrationPhase::Detached => RecoveryPlan::Activate,
        MigrationPhase::RootReady => RecoveryPlan::MarkAuditPending,
        MigrationPhase::AuditPending => RecoveryPlan::RetryTerminalAudit,
        MigrationPhase::Done => RecoveryPlan::Complete,
    }
}

pub fn recovery_plan(phase: MigrationPhase) -> (r: RecoveryPlan)
    ensures
        r == plan_of(phase),
{
    match phase {
        MigrationPhase::Prepared => RecoveryPlan::DetachAndActivate,
        MigrationPhase::Detached => RecoveryPlan::Activate,
        MigrationPhase::RootReady => RecoveryPlan::MarkAuditPending,
        MigrationPhase::AuditPending => RecoveryPlan::RetryTerminalAudit,
        MigrationPhase::Done => RecoveryPlan::Complete,
    }
}

/// One durable state of a detachment.
#[derive(Debug, Clone, PartialEq, Eq)]
pub struct MigrationStateRecord {
    pub schema: u32,
    pub migration_id: String,
    pub phase: MigrationPhase,
    pub source_identity: FileIdentity,
    pub next_identity: FileIdentity,
    pub legacy_name: String,
    pub next_name: String,
}

#[verifier::ext_equal]
pub struct StateModel {
    pub schema: u32,
    pub migration_id: Seq<char>,
    pub phase: MigrationPhase,
    pub source_identity: FileIdentity,
    pub next_identity: FileIdentity,
    pub legacy_name: Seq<char>,
    pub next_name: Seq<char>,
}

impl View for MigrationStateRecord {
    type V = StateModel;

    open spec fn view(&self) -> StateModel {
        StateModel {
            schema: self.schema,
            migration_id: self.migration_id@,
            phase: self.phase,
            source_identity: self.source_identity,
            next_identity: self.next_identity,
            legacy_name: self.legacy_name@,
            next_name: self.next_name@,
        }
    }
}

impl StateModel {
    /// The same detachment at another phase.
    pub open spec fn at(self, phase: MigrationPhase) -> StateModel {
        StateModel { phase: phase, ..self }
    }

    /// The name of the file that holds the state.
    pub open spec fn file_name(self) -> Seq<char> {
        STATE_PREFIX@ + self.migration_id + "-"@ + decimal(self.phase.rank()) + "-"@
            + self.phase.word() + STATE_SUFFIX@
    }

    /// Whether two states are of one detachment, whatever their phases.
    pub open spec fn agrees(self, other: StateModel) -> bool {
        &&& self.source_identity == other.source_identity
        &&& self.next_identity == other.next_identity
        &&& self.legacy_name == other.legacy_name
        &&& self.next_name == other.next_name
    }
}

impl MigrationStateRecord {
    pub fn copy(&self) -> (r: MigrationStateRecord)
        ensures
            r@ == self@,
    {
        MigrationStateRecord {
            schema: self.schema,
            migration_id: owned(self.migration_id.as_str()),
            phase: self.phase,
            source_identity: self.source_identity,
            next_identity: self.next_identity,
            legacy_name: owned(self.legacy_name.as_str()),
            next_name: owned(self.next_name.as_str()),
        }
    }

    pub fn same(&self, other: &MigrationStateRecord) -> (r: bool)
        ensures
            r == (self@ == other@),
    {
        self.schema == other.schema && str_eq(
            self.migration_id.as_str(),
            other.migration_id.as_str(),
        ) && self.phase == other.phase && self.source_identity == other.source_identity
            && self.next_identity == other.next_identity && str_eq(
            self.legacy_name.as_str(),
            other.legacy_name.as_str(),
        ) && str_eq(self.next_name.as_str(), other.next_name.as_str())
    }

    fn agree(&self, other: &MigrationStateRecord) -> (r: bool)
        ensures
            r == self@.agrees(other@),
    {
        self.source_identity == other.source_identity && self.next_identity
            == other.next_identity && str_eq(self.legacy_name.as_str(), other.legacy_name.as_str())
            && str_eq(self.next_name.as_str(), other.next_name.as_str())
    }
}

/// The name of the file that holds a state.
pub fn state_file_name(state: &MigrationStateRecord) -> (r: String)
    ensures
        r@ == state@.file_name(),
{
    let number = dec(state.phase.number() as u64);
    let id = cat3(STATE_PREFIX, state.migration_id.as_str(), "-");
    cat5(id.as_str(), number.as_str(), "-", state.phase.label(), STATE_SUFFIX)
}

/// Whether a name is that of a state file.
pub open spec fn is_state_name(name: Seq<char>) -> bool {
    has_prefix(name, STATE_PREFIX@) && has_suffix(name, STATE_SUFFIX@)
}

pub fn names_state(name: &str) -> (r: bool)
    ensures
        r == is_state_name(name@),
{
    starts_with(name, STATE_PREFIX) && ends_with(name, STATE_SUFFIX)
}

/// The identifier that random bytes give.
pub fn random_id(drawn: Result<Vec<u8>, i32>) -> (r: Result<String, LegacyStorageError>)
    ensures
        match drawn {
            Ok(bytes) => r matches Ok(id) && id@ == hex_text(bytes@),
            Err(status) => r == Result::<String, LegacyStorageError>::Err(
                LegacyStorageError::Random(status),
            ),
        },
{
    match drawn {
        Ok(bytes) => Ok(hex_lower(bytes.as_slice())),
        Err(status) => Err(LegacyStorageError::Random(status)),
    }
}

// ---------------------------------------------------------------------------
// What is pending
// ---------------------------------------------------------------------------

/// Why a state file gave no state.
#[derive(Debug)]
pub enum StateFailure {
    Open(StorageError),
    Read(String),
    Malformed(String),
}

/// A file of the bootstrap directory. What stands behind its name counts only where
/// it is a state file.
#[derive(Debug)]
pub struct StateEntry {
    /// The name; nothing where it is no text.
    pub name: Option<String>,
    pub content: Result<MigrationStateRecord, StateFailure>,
}

impl StateEntry {
    pub open spec fn is_state_file(self) -> bool {
        self.name matches Some(name) && is_state_name(name@)
    }
}

/// What was read of a state file.
#[derive(Debug)]
pub struct StateFile {
    pub name: String,
    pub content: Result<MigrationStateRecord, StateFailure>,
}

impl StateFile {
    /// Whether the file holds a state and is named after it.
    pub open spec fn is_sound(self) -> bool {
        self.content matches Ok(record) && record.schema == 1 && record@.file_name() == self.name@
    }

    /// The error of a file that is not sound.
    pub open spec fn error(self, e: LegacyStorageError) -> bool {
        match self.content {
            Err(StateFailure::Open(source)) => e == LegacyStorageError::Storage(source),
            Err(StateFailure::Read(reason)) => e == LegacyStorageError::Io(reason),
            Err(StateFailure::Malformed(reason)) => e matches LegacyStorageError::InvalidState(text)
                && text@ == self.name@ + ": "@ + reason@,
            Ok(_) => e matches LegacyStorageError::InvalidState(text) && text@
                == "state filename/content mismatch: "@ + self.name@,
        }
    }
}

/// The state files of a directory.
pub open spec fn state_files(entries: Seq<StateEntry>) -> Seq<StateFile>
    decreases entries.len(),
{
    if entries.len() == 0 {
        Seq::empty()
    } else {
        let front = state_files(entries.drop_last());
        let last = entries.last();
        if last.is_state_file() {
            front.push(StateFile { name: last.name->0, content: last.content })
        } else {
            front
        }
    }
}

/// Whether the first file that is not sound stands at a place.
pub open spec fn first_unsound(files: Seq<StateFile>, at: int) -> bool {
    0 <= at < files.len() && !files[at].is_sound() && all_sound(files.take(at))
}

pub open spec fn all_sound(files: Seq<StateFile>) -> bool {
    forall|i: int| 0 <= i < files.len() ==> (#[trigger] files[i]).is_sound()
}

pub open spec fn states(records: Seq<MigrationStateRecord>) -> Seq<StateModel> {
    records.map_values(|record: MigrationStateRecord| record@)
}

pub open spec fn states_in(files: Seq<StateFile>) -> Seq<StateModel> {
    files.map_values(|file: StateFile| file.content->Ok_0@)
}

/// Whether the state at a place belongs to a detachment.
pub open spec fn belongs(all: Seq<StateModel>, id: Seq<char>, at: int) -> bool {
    0 <= at < all.len() && all[at].migration_id == id
}

/// Whether a detachment has its first state.
pub open spec fn starts(all: Seq<StateModel>, id: Seq<char>) -> bool {
    exists|i: int| #[trigger] belongs(all, id, i) && all[i].phase is Prepared
}

/// Whether the state before the one at a place is there.
pub open spec fn has_previous(all: Seq<StateModel>, at: int) -> bool {
    exists|j: int|
        #[trigger] belongs(all, all[at].migration_id, j) && all[j].phase.rank() + 1
            == all[at].phase.rank()
}

/// Whether the states of a detachment agree, no phase occurs twice, and each but the
/// first follows another.
pub open spec fn is_consistent(all: Seq<StateModel>, id: Seq<char>) -> bool {
    &&& forall|i: int, j: int|
        #![trigger belongs(all, id, i), belongs(all, id, j)]
        i != j && belongs(all, id, i) && belongs(all, id, j) ==> all[i].agrees(all[j])
            && all[i].phase != all[j].phase
    &&& forall|i: int| #[trigger]
        belongs(all, id, i) && !(all[i].phase is Prepared) ==> has_previous(all, i)
}

/// Whether the states of a detachment form its course from the first to some phase.
pub open spec fn is_whole(all: Seq<StateModel>, id: Seq<char>) -> bool {
    starts(all, id) && is_consistent(all, id)
}

/// What is wrong with the states of a detachment.
pub open spec fn fault(all: Seq<StateModel>, id: Seq<char>) -> Seq<char> {
    if !starts(all, id) {
        "migration does not start at prepared"@
    } else {
        "migration state sequence is inconsistent"@
    }
}

/// Whether the state at a place is of the first detachment, by identifier, whose
/// states are not whole.
pub open spec fn first_broken(all: Seq<StateModel>, at: int) -> bool {
    &&& 0 <= at < all.len()
    &&& !is_whole(all, all[at].migration_id)
    &&& forall|j: int|
        0 <= j < all.len() && !is_whole(all, (#[trigger] all[j]).migration_id)
            ==> all[j].migration_id == all[at].migration_id || text_before(
            all[at].migration_id,
            all[j].migration_id,
        )
}

pub open spec fn all_whole(all: Seq<StateModel>) -> bool {
    forall|i: int| 0 <= i < all.len() ==> is_whole(all, (#[trigger] all[i]).migration_id)
}

/// Whether the state at a place is the last of a detachment that is not done.
pub open spec fn is_pending(all: Seq<StateModel>, at: int) -> bool {
    &&& 0 <= at < all.len()
    &&& !(all[at].phase is Done)
    &&& forall|j: int| #[trigger]
        belongs(all, all[at].migration_id, j) ==> all[j].phase.rank() <= all[at].phase.rank()
}

/// What is pending, given sound states.
pub open spec fn pending_outcome(
    all: Seq<StateModel>,
    r: Result<Option<MigrationStateRecord>, LegacyStorageError>,
) -> bool {
    if all_whole(all) {
        match r {
            Ok(None) => forall|i: int| !#[trigger] is_pending(all, i),
            Ok(Some(record)) => exists|i: int| #[trigger]
                is_pending(all, i) && record@ == all[i] && forall|j: int| #[trigger]
                    is_pending(all, j) ==> j == i,
            Err(e) => e is AmbiguousState && exists|i: int, j: int|
                i != j && #[trigger] is_pending(all, i) && #[trigger] is_pending(all, j),
        }
    } else {
        exists|at: int| #[trigger]
            first_broken(all, at) && (r matches Err(LegacyStorageError::InvalidState(text))
                && text@ == fault(all, all[at].migration_id))
    }
}

fn has_first(records: &Vec<MigrationStateRecord>, id: &str) -> (r: bool)
    ensures
        r == starts(states(records@), id@),
{
    let ghost all = states(records@);
    let mut i: usize = 0;
    while i < records.len()
        invariant
            i <= records@.len(),
            all == states(records@),
            forall|k: int| 0 <= k < i && #[trigger] belongs(all, id@, k) ==> !(
            all[k].phase is Prepared),
        decreases records.len() - i,
    {
        assert(all[i as int] == records@[i as int]@);
        if str_eq(records[i].migration_id.as_str(), id) && records[i].phase
            == MigrationPhase::Prepared {
            assert(belongs(all, id@, i as int));
            return true;
        }
        i += 1;
    }
    false
}

fn follows_another(records: &Vec<MigrationStateRecord>, at: usize) -> (r: bool)
    requires
        at < records@.len(),
    ensures
        r == has_previous(states(records@), at as int),
{
    let ghost all = states(records@);
    let wanted: u8 = records[at].phase.number();
    assert(all[at as int] == records@[at as int]@);
    let mut i: usize = 0;
    while i < records.len()
        invariant
            i <= records@.len(),
            at < records@.len(),
            all == states(records@),
            wanted == all[at as int].phase.rank(),
            all[at as int] == records@[at as int]@,
            forall|k: int|
                0 <= k < i && #[trigger] belongs(all, all[at as int].migration_id, k)
                    ==> all[k].phase.rank() + 1 != wanted,
        decreases records.len() - i,
    {
        assert(all[i as int] == records@[i as int]@);
        if str_eq(records[i].migration_id.as_str(), records[at].migration_id.as_str())
            && records[i].phase.number() + 1 == wanted {
            assert(belongs(all, all[at as int].migration_id, i as int));
            return true;
        }
        i += 1;
    }
    false
}

/// Whether a state agrees with all others of its detachment, and its phase is its own.
pub open spec fn stands_out(all: Seq<StateModel>, id: Seq<char>, at: int, upto: int) -> bool {
    forall|j: int|
        j != at && j < upto && #[trigger] belongs(all, id, j) ==> all[at].agrees(all[j])
            && all[at].phase != all[j].phase
}

fn is_distinct(records: &Vec<MigrationStateRecord>, at: usize) -> (r: bool)
    requires
        at < records@.len(),
    ensures
        r == stands_out(
            states(records@),
            records@[at as int].migration_id@,
            at as int,
            records@.len() as int,
        ),
{
    let ghost all = states(records@);
    let ghost id = records@[at as int].migration_id@;
    assert(all[at as int] == records@[at as int]@);
    let mut j: usize = 0;
    while j < records.len()
        invariant
            j <= records@.len(),
            at < records@.len(),
            all == states(records@),
            id == records@[at as int].migration_id@,
            all[at as int] == records@[at as int]@,
            stands_out(all, id, at as int, j as int),
        decreases records.len() - j,
    {
        assert(all[j as int] == records@[j as int]@);
        if j != at && str_eq(records[j].migration_id.as_str(), records[at].migration_id.as_str())
            && (!records[at].agree(&records[j]) || records[at].phase == records[j].phase) {
            assert(belongs(all, id, j as int));
            return false;
        }
        j += 1;
    }
    true
}

fn check_whole(records: &Vec<MigrationStateRecord>, id: &str) -> (r: bool)
    ensures
        r == is_whole(states(records@), id@),
{
    let ghost all = states(records@);
    if !has_first(records, id) {
        return false;
    }
    let mut i: usize = 0;
    while i < records.len()
        invariant
            i <= records@.len(),
            all == states(records@),
            forall|k: int| 0 <= k < i && #[trigger] belongs(all, id@, k) ==> stands_out(
                all,
                id@,
                k,
                records@.len() as int,
            ) && (!(all[k].phase is Prepared) ==> has_previous(all, k)),
        decreases records.len() - i,
    {
        assert(all[i as int] == records@[i as int]@);
        if str_eq(records[i].migration_id.as_str(), id) {
            assert(belongs(all, id@, i as int));
            if !is_distinct(records, i) {
                return false;
            }
            if records[i].phase != MigrationPhase::Prepared && !follows_another(records, i) {
                return false;
            }
        }
        i += 1;
    }
    assert forall|i: int, j: int|
        #![trigger belongs(all, id@, i), belongs(all, id@, j)]
        i != j && belongs(all, id@, i) && belongs(all, id@, j) implies all[i].agrees(all[j])
        && all[i].phase != all[j].phase by {
        assert(stands_out(all, id@, i, records@.len() as int));
    }
    true
}

fn find_broken(records: &Vec<MigrationStateRecord>) -> (r: Option<usize>)
    ensures
        match r {
            Some(at) => first_broken(states(records@), at as int),
            None => all_whole(states(records@)),
        },
{
    let ghost all = states(records@);
    let mut found: Option<usize> = None;
    let mut i: usize = 0;
    while i < records.len()
        invariant
            i <= records@.len(),
            all == states(records@),
            match found {
                None => forall|k: int| 0 <= k < i ==> is_whole(
                    all,
                    (#[trigger] all[k]).migration_id,
                ),
                Some(at) => {
                    &&& at < i
                    &&& !is_whole(all, all[at as int].migration_id)
                    &&& forall|k: int|
                        0 <= k < i && !is_whole(all, (#[trigger] all[k]).migration_id)
                            ==> all[k].migration_id == all[at as int].migration_id || text_before(
                            all[at as int].migration_id,
                            all[k].migration_id,
                        )
                },
            },
        decreases records.len() - i,
    {
        assert(all[i as int] == records@[i as int]@);
        let ghost new_id = all[i as int].migration_id;
        if !check_whole(records, records[i].migration_id.as_str()) {
            match found {
                None => {
                    found = Some(i);
                },
                Some(at) => {
                    let ghost old_id = all[at as int].migration_id;
                    assert(all[at as int] == records@[at as int]@);
                    proof {
                        text_order_is_total(new_id, old_id);
                    }
                    if comes_before(
                        records[i].migration_id.as_str(),
                        records[at].migration_id.as_str(),
                    ) {
                        assert forall|k: int|
                            0 <= k < i && !is_whole(
                                all,
                                (#[trigger] all[k]).migration_id,
                            ) implies text_before(new_id, all[k].migration_id) by {
                            if all[k].migration_id != old_id {
                                text_order_is_transitive(new_id, old_id, all[k].migration_id);
                            }
                        }
                        found = Some(i);
                    }
                },
            }
        }
        i += 1;
    }
    found
}

fn check_pending(records: &Vec<MigrationStateRecord>, at: usize) -> (r: bool)
    requires
        at < records@.len(),
    ensures
        r == is_pending(states(records@), at as int),
{
    let ghost all = states(records@);
    assert(all[at as int] == records@[at as int]@);
    if records[at].phase == MigrationPhase::Done {
        return false;
    }
    let mut j: usize = 0;
    while j < records.len()
        invariant
            j <= records@.len(),
            at < records@.len(),
            all == states(records@),
            all[at as int] == records@[at as int]@,
            forall|k: int|
                0 <= k < j && #[trigger] belongs(all, all[at as int].migration_id, k)
                    ==> all[k].phase.rank() <= all[at as int].phase.rank(),
        decreases records.len() - j,
    {
        assert(all[j as int] == records@[j as int]@);
        if str_eq(records[j].migration_id.as_str(), records[at].migration_id.as_str())
            && records[j].phase.number() > records[at].phase.number() {
            assert(belongs(all, all[at as int].migration_id, j as int));
            return false;
        }
        j += 1;
    }
    true
}

/// What is pending, given the states that were read.
pub fn pending_state(records: &Vec<MigrationStateRecord>) -> (r: Result<
    Option<MigrationStateRecord>,
    LegacyStorageError,
>)
    ensures
        pending_outcome(states(records@), r),
{
    let ghost all = states(records@);
    match find_broken(records) {
        Some(at) => {
            assert(all[at as int] == records@[at as int]@);
            proof {
                assert(first_broken(all, at as int));
                assert(!all_whole(all));
            }
            let text = if has_first(records, records[at].migration_id.as_str()) {
                "migration state sequence is inconsistent"
            } else {
                "migration does not start at prepared"
            };
            return Err(LegacyStorageError::InvalidState(owned(text)));
        },
        None => {},
    }
    let mut found: Option<usize> = None;
    let mut i: usize = 0;
    while i < records.len()
        invariant
            i <= records@.len(),
            all == states(records@),
            all_whole(all),
            match found {
                None => forall|k: int| k < i ==> !#[trigger] is_pending(all, k),
                Some(at) => at < i && is_pending(all, at as int) && forall|k: int|
                    k < i && #[trigger] is_pending(all, k) ==> k == at,
            },
        decreases records.len() - i,
    {
        if check_pending(records, i) {
            match found {
                None => {
                    found = Some(i);
                },
                Some(at) => {
                    assert(is_pending(all, at as int) && is_pending(all, i as int));
                    return Err(LegacyStorageError::AmbiguousState);
                },
            }
        }
        i += 1;
    }
    match found {
        None => Ok(None),
        Some(at) => {
            assert(all[at as int] == records@[at as int]@);
            Ok(Some(records[at].copy()))
        },
    }
}

/// What is pending, given what was read of the state files: the error of the first
/// file that is not sound, else what the states tell.
pub open spec fn load_outcome(
    files: Seq<StateFile>,
    r: Result<Option<MigrationStateRecord>, LegacyStorageError>,
) -> bool {
    if all_sound(files) {
        pending_outcome(states_in(files), r)
    } else {
        exists|at: int| #[trigger]
            first_unsound(files, at) && (r matches Err(e) && files[at].error(e))
    }
}

fn file_is_sound(file: &StateFile) -> (r: bool)
    ensures
        r == file.is_sound(),
{
    match &file.content {
        Ok(record) => {
            let name = state_file_name(record);
            record.schema == 1 && str_eq(name.as_str(), file.name.as_str())
        },
        Err(_) => false,
    }
}

/// The error of a file that is not sound.
fn state_error(file: StateFile) -> (r: LegacyStorageError)
    ensures
        file.error(r),
{
    match file.content {
        Err(StateFailure::Open(source)) => LegacyStorageError::Storage(source),
        Err(StateFailure::Read(reason)) => LegacyStorageError::Io(reason),
        Err(StateFailure::Malformed(reason)) => LegacyStorageError::InvalidState(
            cat3(file.name.as_str(), ": ", reason.as_str()),
        ),
        Ok(_) => LegacyStorageError::InvalidState(
            cat2("state filename/content mismatch: ", file.name.as_str()),
        ),
    }
}

/// Picks the state files out of a directory.
fn select_state_files(entries: Vec<StateEntry>) -> (r: Vec<StateFile>)
    ensures
        r@ == state_files(entries@),
{
    let ghost all = entries@;
    let mut files: Vec<StateFile> = Vec::new();
    assert(all.take(0) =~= Seq::<StateEntry>::empty());
    for entry in it: entries
        invariant
            it.seq() == all,
            files@ =~= state_files(all.take(it.index() as int)),
    {
        let ghost at = it.index() as int;
        let ghost given = entry;
        assert(all[at] == given);
        assert(all.take(at + 1).drop_last() =~= all.take(at));
        assert(all.take(at + 1).last() == given);
        match entry.name {
            Some(name) => {
                if names_state(name.as_str()) {
                    files.push(StateFile { name: name, content: entry.content });
                }
            },
            None => {},
        }
    }
    assert(all.take(all.len() as int) =~= all);
    files
}

/// What is pending in the bootstrap directory.
pub fn load_pending_from_bootstrap(entries: Vec<StateEntry>) -> (r: Result<
    Option<MigrationStateRecord>,
    LegacyStorageError,
>)
    ensures
        load_outcome(state_files(entries@), r),
{
    load_states(select_state_files(entries))
}

fn load_states(files: Vec<StateFile>) -> (r: Result<
    Option<MigrationStateRecord>,
    LegacyStorageError,
>)
    ensures
        load_outcome(files@, r),
{
    let ghost given = files@;
    let mut rest = files;
    let mut records: Vec<MigrationStateRecord> = Vec::new();
    let mut i: usize = 0;
    while i < rest.len()
        invariant
            i <= rest@.len(),
            rest@ == given,
            files@ == given,
            records@.len() == i,
            forall|k: int| 0 <= k < i ==> (#[trigger] given[k]).is_sound(),
            forall|k: int| 0 <= k < i ==> (#[trigger] records@[k])@ == given[k].content->Ok_0@,
        decreases rest.len() - i,
    {
        if !file_is_sound(&rest[i]) {
            assert(all_sound(given.take(i as int)));
            assert(!all_sound(given)) by {
                assert(!given[i as int].is_sound());
            }
            let file = rest.remove(i);
            assert(file == given[i as int]);
            assert(first_unsound(given, i as int));
            return Err(state_error(file));
        }
        match &rest[i].content {
            Ok(record) => {
                records.push(record.copy());
            },
            Err(_) => {},
        }
        i += 1;
    }
    assert(states(records@) =~= states_in(given));
    pending_state(&records)
}

/// Whether these are the states that a detachment has written when it has come to a
/// phase, in whatever order they are read.
pub open spec fn is_course(all: Seq<StateModel>, state: StateModel, upto: MigrationPhase) -> bool {
    &&& forall|i: int|
        0 <= i < all.len() ==> (#[trigger] all[i]) == state.at(all[i].phase)
            && all[i].phase.rank() <= upto.rank()
    &&& forall|i: int, j: int|
        #![trigger all[i], all[j]]
        0 <= i < j < all.len() ==> all[i].phase != all[j].phase
    &&& forall|phase: MigrationPhase| #[trigger]
        phase.rank() <= upto.rank() ==> exists|i: int|
            0 <= i < all.len() && (#[trigger] all[i]).phase == phase
}

/// A detachment that was interrupted behind the write of a state is found again at
/// that state; one that wrote its last state leaves nothing pending.
pub proof fn interrupted_detachment_is_found_again(
    all: Seq<StateModel>,
    state: StateModel,
    upto: MigrationPhase,
    r: Result<Option<MigrationStateRecord>, LegacyStorageError>,
)
    requires
        is_course(all, state, upto),
        pending_outcome(all, r),
    ensures
        upto is Done ==> r == Result::<Option<MigrationStateRecord>, LegacyStorageError>::Ok(None),
        !(upto is Done) ==> (r matches Ok(Some(record)) && record@ == state.at(upto)),
{
    let id = state.migration_id;
    assert forall|i: int| 0 <= i < all.len() implies #[trigger] belongs(all, id, i) by {
        assert(all[i] == state.at(all[i].phase));
    }
    assert(starts(all, id)) by {
        assert(MigrationPhase::Prepared.rank() <= upto.rank());
        let first = choose|i: int| 0 <= i < all.len() && (#[trigger] all[i]).phase is Prepared;
        assert(belongs(all, id, first));
    }
    assert forall|i: int| #[trigger]
        belongs(all, id, i) && !(all[i].phase is Prepared) implies has_previous(all, i) by {
        let before = match all[i].phase {
            MigrationPhase::Done => MigrationPhase::AuditPending,
            MigrationPhase::AuditPending => MigrationPhase::RootReady,
            MigrationPhase::RootReady => MigrationPhase::Detached,
            _ => MigrationPhase::Prepared,
        };
        assert(before.rank() <= upto.rank());
        let at = choose|j: int| 0 <= j < all.len() && (#[trigger] all[j]).phase == before;
        assert(belongs(all, id, at));
        assert(all[i].migration_id == id);
    }
    assert(is_whole(all, id));
    assert(all_whole(all));
    assert(upto.rank() <= upto.rank());
    let last = choose|i: int| 0 <= i < all.len() && (#[trigger] all[i]).phase == upto;
    assert(all[last] == state.at(upto));
    if upto is Done {
        assert forall|i: int| !#[trigger] is_pending(all, i) by {
            if is_pending(all, i) {
                assert(all[i].migration_id == id);
                assert(belongs(all, id, last));
            }
        }
    } else {
        assert(is_pending(all, last));
        assert forall|i: int| #[trigger] is_pending(all, i) implies i == last by {
            assert(all[i].migration_id == id);
            assert(belongs(all, id, last));
        }
    }
}

/// The phases of a detachment are told apart by their place, their word, what is left to do
/// at them and the name of the file that holds the state.
pub proof fn phases_of_a_detachment_are_told_apart(
    a: MigrationPhase,
    b: MigrationPhase,
    state: StateModel,
)
    ensures
        a.rank() == b.rank() ==> a == b,
        a.word() == b.word() ==> a == b,
        plan_of(a) == plan_of(b) ==> a == b,
        state.at(a).file_name() == state.at(b).file_name() ==> a == b,
        plan_of(a) is Complete <==> a is Done,
        a.rank() <= 4,
        a is Prepared <==> a.rank() == 0,
        a is Detached <==> a.rank() == 1,
        a is RootReady <==> a.rank() == 2,
        a is AuditPending <==> a.rank() == 3,
{
    reveal_strlit("prepared");
    reveal_strlit("detached");
    reveal_strlit("root-ready");
    reveal_strlit("audit-pending");
    reveal_strlit("done");
    assert("prepared"@[0] == 'p');
    assert("detached"@[0] == 'd' && "detached"@.len() == 8);
    assert("root-ready"@[0] == 'r');
    assert("audit-pending"@[0] == 'a');
    assert("done"@[0] == 'd' && "done"@.len() == 4);
    if state.at(a).file_name() == state.at(b).file_name() {
        let head = STATE_PREFIX@ + state.migration_id + "-"@;
        let k = head.len() as int;
        let x = state.at(a).file_name();
        let y = state.at(b).file_name();
        assert(decimal(a.rank()) =~= seq![digit_char(a.rank())]);
        assert(decimal(b.rank()) =~= seq![digit_char(b.rank())]);
        assert(x[k] == digit_char(a.rank()));
        assert(y[k] == digit_char(b.rank()));
    }
}

/// What is pending is one of the states that were read: one that is not done, and behind
/// which its detachment wrote no other. Where files were read that are no states, or states
/// that do not follow each other, nothing is told to be pending.
pub proof fn what_is_pending_was_left_unfinished(
    files: Seq<StateFile>,
    r: Result<Option<MigrationStateRecord>, LegacyStorageError>,
)
    requires
        load_outcome(files, r),
    ensures
        r is Ok ==> forall|i: int|
            0 <= i < files.len() ==> ((#[trigger] files[i]).content matches Ok(record)
                && record.schema == 1 && record@.file_name() == files[i].name@),
        r matches Ok(Some(record)) ==> !(record.phase is Done) && (exists|i: int|
            0 <= i < files.len() && (#[trigger] files[i]).content->Ok_0@ == record@) && forall|
            i: int,
        |
            0 <= i < files.len() && (#[trigger] files[i]).content->Ok_0.migration_id@
                == record.migration_id@ ==> files[i].content->Ok_0.phase.rank()
                <= record.phase.rank(),
        r == Result::<Option<MigrationStateRecord>, LegacyStorageError>::Ok(None) ==> forall|i: int|
            0 <= i < files.len() && !((#[trigger] files[i]).content->Ok_0.phase is Done)
                ==> exists|j: int|
                0 <= j < files.len() && (#[trigger] files[j]).content->Ok_0.migration_id@
                    == files[i].content->Ok_0.migration_id@
                    && files[j].content->Ok_0.phase.rank() > files[i].content->Ok_0.phase.rank(),
        r matches Err(e) ==> !(e is AmbiguousState) || exists|i: int, j: int|
            0 <= i < j < files.len() && (#[trigger] files[i]).content->Ok_0.migration_id@ != (
            #[trigger] files[j]).content->Ok_0.migration_id@,
{
    if all_sound(files) {
        let all = states_in(files);
        assert forall|i: int| 0 <= i < files.len() implies all[i] == (
        #[trigger] files[i]).content->Ok_0@ by {}
        match r {
            Ok(Some(record)) => {
                let at = choose|i: int| #[trigger] is_pending(all, i) && record@ == all[i];
                assert(files[at].content->Ok_0@ == record@);
                assert forall|i: int|
                    0 <= i < files.len() && (#[trigger] files[i]).content->Ok_0.migration_id@
                        == record.migration_id@ implies files[i].content->Ok_0.phase.rank()
                    <= record.phase.rank() by {
                    assert(belongs(all, all[at].migration_id, i));
                }
            },
            Ok(None) => {
                assert forall|i: int|
                    0 <= i < files.len() && !((
                    #[trigger] files[i]).content->Ok_0.phase is Done) implies exists|j: int|
                    0 <= j < files.len() && (#[trigger] files[j]).content->Ok_0.migration_id@
                        == files[i].content->Ok_0.migration_id@
                        && files[j].content->Ok_0.phase.rank() > files[i].content->Ok_0.phase.rank()
                    by {
                    assert(!is_pending(all, i));
                    let j = choose|j: int| #[trigger]
                        belongs(all, all[i].migration_id, j) && all[j].phase.rank()
                            > all[i].phase.rank();
                    assert(files[j].content->Ok_0@ == all[j]);
                }
            },
            Err(e) => {
                if e is AmbiguousState {
                    let (i, j) = choose|i: int, j: int|
                        i != j && #[trigger] is_pending(all, i) && #[trigger] is_pending(all, j);
                    if all[i].migration_id == all[j].migration_id {
                        assert(belongs(all, all[i].migration_id, j));
                        assert(belongs(all, all[j].migration_id, i));
                        assert(all[i].phase.rank() == all[j].phase.rank());
                        assert(is_whole(all, all[i].migration_id));
                        assert(belongs(all, all[i].migration_id, i));
                    }
                    assert(files[i].content->Ok_0@ == all[i]);
                    assert(files[j].content->Ok_0@ == all[j]);
                }
            },
        }
    }
}

} // verus!
