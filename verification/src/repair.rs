//! Repairing a profile's registry entries.
use crate::constants::{BAK_EXTENSION, NTUSER_DAT, REG_KEY_PROFILE_LIST};
use crate::journal::AuditStatus;
use crate::models::RepairPlan;
use crate::paths::{is_absolute, is_absolute_path, join_path, path_join};
use crate::registry::RegistryError;
use crate::restart_manager::{LockingProcessInfo, RestartManagerError};
use crate::rollback::RollbackError;
use crate::snapshot::{SnapshotError, SnapshotRequest};
use crate::text::{
    ascii_lower, debug_quoted, decimal, has_prefix, is_ascii_digit, is_blank, joined, split, texts,
    trimmed, without_trailing_slashes,
};
use crate::text::{
    cat2, cat3, cat4, cat5, cat6, char_is_digit, chars_of, debug_str, dec, is_blank_str, join,
    owned, split_chars, starts_with, str_eq, to_ascii_lower, trim, trim_trailing_slashes,
};
use vstd::prelude::*;

verus! {

pub const BACKUP_SUFFIX: &'static str = "pre-repair";

pub const SNAPSHOT_REASON: &'static str = "Mandatory pre-repair snapshot";

/// An application that has to be closed by hand.
#[derive(Debug, PartialEq, Eq)]
pub struct ManualCloseBlocker {
    pub application: String,
    pub process_id: u32,
}

impl ManualCloseBlocker {
    /// The blocker that a locking process is.
    pub fn from_process(process: &LockingProcessInfo) -> (r: ManualCloseBlocker)
        ensures
            r.application@ == process.app_name@,
            r.process_id == process.process_id,
    {
        ManualCloseBlocker {
            application: owned(process.app_name.as_str()),
            process_id: process.process_id,
        }
    }

    /// The blocker as the list of blockers shows it.
    pub open spec fn shown(self) -> Seq<char> {
        "ManualCloseBlocker { application: "@ + debug_quoted(self.application@)
            + ", process_id: "@ + decimal(self.process_id as nat) + " }"@
    }
}

/// The list of blockers as an error shows it.
pub open spec fn blockers_text(blockers: Seq<ManualCloseBlocker>) -> Seq<char> {
    "["@ + joined(blockers.map_values(|b: ManualCloseBlocker| b.shown()), ", "@) + "]"@
}

fn show_blockers(blockers: &Vec<ManualCloseBlocker>) -> (r: String)
    ensures
        r@ == blockers_text(blockers@),
{
    let mut parts: Vec<String> = Vec::new();
    let mut i: usize = 0;
    while i < blockers.len()
        invariant
            i <= blockers@.len(),
            parts@.len() == i,
            forall|k: int| 0 <= k < i ==> (#[trigger] parts@[k])@ == blockers@[k].shown(),
        decreases blockers.len() - i,
    {
        let name = debug_str(blockers[i].application.as_str());
        let pid = dec(blockers[i].process_id as u64);
        parts.push(
            cat5(
                "ManualCloseBlocker { application: ",
                name.as_str(),
                ", process_id: ",
                pid.as_str(),
                " }",
            ),
        );
        i += 1;
    }
    assert(texts(parts@) =~= blockers@.map_values(|b: ManualCloseBlocker| b.shown()));
    let body = join(&parts, ", ");
    cat3("[", body.as_str(), "]")
}

#[derive(Debug)]
pub enum RepairError {
    SessionActive,
    NoActionSelected,
    InvalidSid(String),
    MissingRegistryKey(String),
    RegistryError(RegistryError),
    SnapshotError(SnapshotError),
    RollbackError(RollbackError),
    AuditError(String),
    LockInspectionFailed(String),
    ManualCloseRequired { blockers: Vec<ManualCloseBlocker> },
    AutomaticUnlockUnsupported,
    TransactionFailed { step: String, reason: String },
}

impl RepairError {
    /// The text that describes the error.
    pub open spec fn text(self) -> Seq<char> {
        match self {
            RepairError::SessionActive =>
                "Profile is currently loaded in an active session; log off before repair"@,
            RepairError::NoActionSelected => "Repair plan contains no selected operation"@,
            RepairError::InvalidSid(sid) => "Invalid profile SID: "@ + sid@,
            RepairError::MissingRegistryKey(key) => "Required registry key is missing: "@ + key@,
            RepairError::RegistryError(error) => "Registry operation failed: "@ + error.text(),
            RepairError::SnapshotError(error) => "Snapshot engine error: "@ + error.text(),
            RepairError::RollbackError(error) => "Rollback failed: "@ + error.text(),
            RepairError::AuditError(reason) => "Audit logging failed: "@ + reason@,
            RepairError::LockInspectionFailed(reason) => "NTUSER.DAT lock inspection failed: "@
                + reason@,
            RepairError::ManualCloseRequired { blockers } =>
                "Close the locking applications manually, save their work, and scan again: "@
                + blockers_text(blockers@),
            RepairError::AutomaticUnlockUnsupported =>
                "Automatic process shutdown is no longer supported; scan for blockers and close them manually"@,
            RepairError::TransactionFailed { step, reason } => "Transaction failed at step '"@
                + step@ + "': "@ + reason@,
        }
    }

    pub fn message(&self) -> (r: String)
        ensures
            r@ == self.text(),
    {
        match self {
            RepairError::SessionActive => owned(
                "Profile is currently loaded in an active session; log off before repair",
            ),
            RepairError::NoActionSelected => owned("Repair plan contains no selected operation"),
            RepairError::InvalidSid(sid) => cat2("Invalid profile SID: ", sid.as_str()),
            RepairError::MissingRegistryKey(key) => cat2(
                "Required registry key is missing: ",
                key.as_str(),
            ),
            RepairError::RegistryError(error) => {
                let reason = error.message();
                cat2("Registry operation failed: ", reason.as_str())
            },
            RepairError::SnapshotError(error) => {
                let reason = error.message();
                cat2("Snapshot engine error: ", reason.as_str())
            },
            RepairError::RollbackError(error) => {
                let reason = error.message();
                cat2("Rollback failed: ", reason.as_str())
            },
            RepairError::AuditError(reason) => cat2("Audit logging failed: ", reason.as_str()),
            RepairError::LockInspectionFailed(reason) => cat2(
                "NTUSER.DAT lock inspection failed: ",
                reason.as_str(),
            ),
            RepairError::ManualCloseRequired { blockers } => {
                let list = show_blockers(blockers);
                cat2(
                    "Close the locking applications manually, save their work, and scan again: ",
                    list.as_str(),
                )
            },
            RepairError::AutomaticUnlockUnsupported => owned(
                "Automatic process shutdown is no longer supported; scan for blockers and close them manually",
            ),
            RepairError::TransactionFailed { step, reason } => cat4(
                "Transaction failed at step '",
                step.as_str(),
                "': ",
                reason.as_str(),
            ),
        }
    }

    /// Whether this is a failed transaction with the given step and reason.
    pub open spec fn is_transaction(self, step: Seq<char>, reason: Seq<char>) -> bool {
        self matches RepairError::TransactionFailed { step: s, reason: r } && s@ == step && r@
            == reason
    }
}

fn transaction_failed(step: &str, reason: &str) -> (r: RepairError)
    ensures
        r.is_transaction(step@, reason@),
{
    RepairError::TransactionFailed { step: owned(step), reason: owned(reason) }
}

// ---------------------------------------------------------------------------
// Texts
// ---------------------------------------------------------------------------

/// Whether a text is a SID: `S-1-` and numbers between hyphens.
pub open spec fn is_sid(value: Seq<char>) -> bool {
    has_prefix(value, "S-1-"@) && forall|i: int|
        1 <= i < split(value, '-').len() ==> #[trigger] is_number(split(value, '-')[i])
}

pub open spec fn is_number(part: Seq<char>) -> bool {
    part.len() > 0 && forall|k: int| 0 <= k < part.len() ==> is_ascii_digit(#[trigger] part[k])
}

fn number(part: &str) -> (r: bool)
    ensures
        r == is_number(part@),
{
    let chars = chars_of(part);
    if chars.len() == 0 {
        return false;
    }
    let mut k: usize = 0;
    while k < chars.len()
        invariant
            k <= chars@.len(),
            chars@ == part@,
            forall|j: int| 0 <= j < k ==> is_ascii_digit(#[trigger] part@[j]),
        decreases chars.len() - k,
    {
        if !char_is_digit(chars[k]) {
            assert(!is_ascii_digit(part@[k as int]));
            return false;
        }
        k += 1;
    }
    true
}

pub fn is_valid_sid(value: &str) -> (r: bool)
    ensures
        r == is_sid(value@),
{
    if !starts_with(value, "S-1-") {
        return false;
    }
    let parts = split_chars(value, '-');
    let ghost pieces = split(value@, '-');
    let mut i: usize = 1;
    while i < parts.len()
        invariant
            1 <= i <= parts@.len(),
            texts(parts@) == pieces,
            pieces == split(value@, '-'),
            forall|j: int| 1 <= j < i ==> #[trigger] is_number(pieces[j]),
        decreases parts.len() - i,
    {
        assert(texts(parts@)[i as int] == parts@[i as int]@);
        if !number(parts[i].as_str()) {
            assert(!is_number(pieces[i as int]));
            return false;
        }
        i += 1;
    }
    true
}

/// The form in which profile paths are compared.
pub open spec fn profile_path_key(value: Seq<char>) -> Seq<char> {
    ascii_lower(without_trailing_slashes(trimmed(value)))
}

pub fn normalize_profile_path(value: &str) -> (r: String)
    ensures
        r@ == profile_path_key(value@),
{
    let bare = trim(value);
    let short = trim_trailing_slashes(bare.as_str());
    to_ascii_lower(short.as_str())
}

pub open spec fn bool_text(b: bool) -> Seq<char> {
    if b {
        "true"@
    } else {
        "false"@
    }
}

fn show_bool(b: bool) -> (r: &'static str)
    ensures
        r@ == bool_text(b),
{
    if b {
        "true"
    } else {
        "false"
    }
}

// ---------------------------------------------------------------------------
// Preflight
// ---------------------------------------------------------------------------

/// Whether a plan selects anything.
pub open spec fn selects_action(plan: RepairPlan) -> bool {
    plan.fix_bak || plan.reset_state
}

pub fn validate_selected_actions(plan: &RepairPlan) -> (r: Result<(), RepairError>)
    ensures
        r == (if selects_action(*plan) {
            Result::<(), RepairError>::Ok(())
        } else {
            Result::<(), RepairError>::Err(RepairError::NoActionSelected)
        }),
{
    if !plan.fix_bak && !plan.reset_state {
        return Err(RepairError::NoActionSelected);
    }
    Ok(())
}

pub const ABSOLUTE_PATH_REQUIRED: &'static str =
    "profile path must be absolute before NTUSER.DAT lock inspection";

/// Whether the place of the hive is known.
pub open spec fn has_hive_place(plan: RepairPlan) -> bool {
    !is_blank(plan.profile_path@) && is_absolute_path(plan.profile_path@)
}

/// The place of the hive whose locks are inspected.
pub fn lock_inspection_target(plan: &RepairPlan) -> (r: Result<String, RepairError>)
    ensures
        match r {
            Ok(path) => has_hive_place(*plan) && path@ == path_join(
                plan.profile_path@,
                NTUSER_DAT@,
            ),
            Err(e) => !has_hive_place(*plan) && e.is_transaction(
                "LockInspection"@,
                ABSOLUTE_PATH_REQUIRED@,
            ),
        },
{
    if is_blank_str(plan.profile_path.as_str()) || !is_absolute(plan.profile_path.as_str()) {
        return Err(transaction_failed("LockInspection", ABSOLUTE_PATH_REQUIRED));
    }
    Ok(join_path(plan.profile_path.as_str(), NTUSER_DAT))
}

/// Whether blockers are those that processes stand for.
pub open spec fn stand_for(
    blockers: Seq<ManualCloseBlocker>,
    processes: Seq<LockingProcessInfo>,
) -> bool {
    blockers.len() == processes.len() && forall|i: int|
        0 <= i < blockers.len() ==> (#[trigger] blockers[i]).application@
            == processes[i].app_name@ && blockers[i].process_id == processes[i].process_id
}

/// The outcome of inspecting the locks of a hive: one that is not there has none.
pub open spec fn inspection_outcome(
    ntuser_path: Seq<char>,
    present: Result<bool, String>,
    locking: Result<Vec<LockingProcessInfo>, RestartManagerError>,
    r: Result<Vec<ManualCloseBlocker>, String>,
) -> bool {
    match present {
        Err(reason) => r matches Err(text) && text@ == "failed to determine whether '"@
            + ntuser_path + "' exists: "@ + reason@,
        Ok(there) => if !there {
            r matches Ok(blockers) && blockers@.len() == 0
        } else {
            match locking {
                Err(error) => r matches Err(text) && text@ == error.text(),
                Ok(processes) => r matches Ok(blockers) && stand_for(blockers@, processes@),
            }
        },
    }
}

/// Inspects the locks of a hive, given whether it is there and which processes hold it.
pub fn inspect(
    ntuser_path: &str,
    present: Result<bool, String>,
    locking: Result<Vec<LockingProcessInfo>, RestartManagerError>,
) -> (r: Result<Vec<ManualCloseBlocker>, String>)
    ensures
        inspection_outcome(ntuser_path@, present, locking, r),
{
    match present {
        Err(reason) => {
            return Err(
                cat4(
                    "failed to determine whether '",
                    ntuser_path,
                    "' exists: ",
                    reason.as_str(),
                ),
            );
        },
        Ok(false) => {
            return Ok(Vec::new());
        },
        Ok(true) => {},
    }
    let processes = match locking {
        Ok(processes) => processes,
        Err(error) => {
            return Err(error.message());
        },
    };
    let mut blockers: Vec<ManualCloseBlocker> = Vec::new();
    let mut i: usize = 0;
    while i < processes.len()
        invariant
            i <= processes@.len(),
            blockers@.len() == i,
            forall|k: int|
                0 <= k < i ==> (#[trigger] blockers@[k]).application@ == processes@[k].app_name@
                    && blockers@[k].process_id == processes@[k].process_id,
        decreases processes.len() - i,
    {
        blockers.push(ManualCloseBlocker::from_process(&processes[i]));
        i += 1;
    }
    Ok(blockers)
}

/// What an inspection of the locks means: a failed inspection and any blocker stop
/// a repair.
pub open spec fn lock_outcome(
    inspection: Result<Vec<ManualCloseBlocker>, String>,
    r: Result<(), RepairError>,
) -> bool {
    match inspection {
        Err(reason) => r == Result::<(), RepairError>::Err(
            RepairError::LockInspectionFailed(reason),
        ),
        Ok(blockers) => if blockers@.len() > 0 {
            r == Result::<(), RepairError>::Err(RepairError::ManualCloseRequired { blockers })
        } else {
            r is Ok
        },
    }
}

pub fn validate_lock_contract(inspection: Result<Vec<ManualCloseBlocker>, String>) -> (r: Result<
    (),
    RepairError,
>)
    ensures
        lock_outcome(inspection, r),
{
    match inspection {
        Err(reason) => Err(RepairError::LockInspectionFailed(reason)),
        Ok(blockers) => {
            if blockers.len() > 0 {
                Err(RepairError::ManualCloseRequired { blockers: blockers })
            } else {
                Ok(())
            }
        },
    }
}

/// What was read of the registry before a repair.
pub struct PlanObservation {
    /// Whether the user's hive could be opened.
    pub hive: Result<(), RegistryError>,
    /// Whether the profile list could be opened.
    pub profile_list: Result<(), RegistryError>,
    pub selected_exists: Result<bool, RegistryError>,
    pub selected_path: Result<String, RegistryError>,
    pub bak_exists: Result<bool, RegistryError>,
    pub bak_path: Result<String, RegistryError>,
    pub canonical_exists: Result<bool, RegistryError>,
}

/// The name of a profile key that was set aside.
pub open spec fn bak_name(plan: RepairPlan) -> Seq<char> {
    plan.canonical_sid@ + BAK_EXTENSION@
}

fn make_bak_name(plan: &RepairPlan) -> (r: String)
    ensures
        r@ == bak_name(*plan),
{
    cat2(plan.canonical_sid.as_str(), BAK_EXTENSION)
}

/// Whether a plan names its keys consistently.
pub open spec fn names_keys(plan: RepairPlan) -> bool {
    is_sid(plan.canonical_sid@) && (plan.sid@ == plan.canonical_sid@ || plan.sid@ == bak_name(plan))
}

pub open spec fn reads_true(r: Result<bool, RegistryError>) -> bool {
    r matches Ok(b) && b
}

/// Whether what was read lets a plan be carried out.
pub open spec fn plan_passes(plan: RepairPlan, is_loaded: bool, o: PlanObservation) -> bool {
    &&& selects_action(plan)
    &&& names_keys(plan)
    &&& o.hive is Err && o.hive->Err_0.is_missing_key()
    &&& !is_loaded
    &&& o.profile_list is Ok
    &&& reads_true(o.selected_exists)
    &&& o.selected_path is Ok
    &&& profile_path_key(o.selected_path->Ok_0@) == profile_path_key(plan.profile_path@)
    &&& (if plan.fix_bak {
        reads_true(o.bak_exists) && o.bak_path is Ok && !is_blank(o.bak_path->Ok_0@)
    } else {
        plan.reset_state ==> reads_true(o.canonical_exists)
    })
    &&& o.canonical_exists is Ok
}

/// The error of a key that must be there.
pub open spec fn missing_error(
    exists_: Result<bool, RegistryError>,
    key: Seq<char>,
    e: RepairError,
) -> bool {
    match exists_ {
        Err(error) => e == RepairError::RegistryError(error),
        Ok(_) => e matches RepairError::MissingRegistryKey(k) && k@ == key,
    }
}

/// The error of a plan, by the first check that it fails.
pub open spec fn plan_failure(
    plan: RepairPlan,
    is_loaded: bool,
    o: PlanObservation,
    e: RepairError,
) -> bool {
    if !selects_action(plan) {
        e is NoActionSelected
    } else if !is_sid(plan.canonical_sid@) {
        e matches RepairError::InvalidSid(s) && s@ == plan.canonical_sid@
    } else if !names_keys(plan) {
        e matches RepairError::InvalidSid(s) && s@ == plan.sid@
    } else if o.hive is Err && !o.hive->Err_0.is_missing_key() {
        e == RepairError::RegistryError(o.hive->Err_0)
    } else if is_loaded || o.hive is Ok {
        e is SessionActive
    } else if o.profile_list is Err {
        e == RepairError::RegistryError(o.profile_list->Err_0)
    } else if !reads_true(o.selected_exists) {
        missing_error(o.selected_exists, plan.sid@, e)
    } else if o.selected_path is Err {
        e == RepairError::RegistryError(o.selected_path->Err_0)
    } else if profile_path_key(o.selected_path->Ok_0@) != profile_path_key(plan.profile_path@) {
        e.is_transaction(
            "Preflight"@,
            "selected registry path '"@ + o.selected_path->Ok_0@ + "' does not match plan path '"@
                + plan.profile_path@ + "'"@,
        )
    } else if plan.fix_bak && !reads_true(o.bak_exists) {
        missing_error(o.bak_exists, bak_name(plan), e)
    } else if plan.fix_bak && o.bak_path is Err {
        e == RepairError::RegistryError(o.bak_path->Err_0)
    } else if plan.fix_bak && is_blank(o.bak_path->Ok_0@) {
        e.is_transaction("Preflight"@, "the .bak key has an empty ProfileImagePath"@)
    } else {
        missing_error(o.canonical_exists, plan.canonical_sid@, e)
    }
}

/// The report of a passed preflight.
pub open spec fn preflight_text(plan: RepairPlan, canonical_exists: bool) -> Seq<char> {
    "Preflight passed: fix_bak="@ + bool_text(plan.fix_bak) + ", reset_state="@ + bool_text(
        plan.reset_state,
    ) + ", unlock_hive="@ + bool_text(plan.unlock_hive) + ", canonical_exists="@ + bool_text(
        canonical_exists,
    )
}

/// Checks a plan against what was read; gives the report of the preflight.
pub fn validate_plan(plan: &RepairPlan, is_loaded: bool, o: PlanObservation) -> (r: Result<
    String,
    RepairError,
>)
    ensures
        match r {
            Ok(text) => plan_passes(*plan, is_loaded, o) && text@ == preflight_text(
                *plan,
                o.canonical_exists->Ok_0,
            ),
            Err(e) => !plan_passes(*plan, is_loaded, o) && plan_failure(*plan, is_loaded, o, e),
        },
        r is Ok ==> !is_loaded && o.hive == Result::<(), RegistryError>::Err(
            RegistryError::Win32Error(2),
        ),
        (is_loaded || o.hive is Ok) && (o.hive is Ok || o.hive->Err_0
            == RegistryError::Win32Error(2)) && (plan.fix_bak || plan.reset_state) && is_sid(
            plan.canonical_sid@,
        ) && (plan.sid@ == plan.canonical_sid@ || plan.sid@ == plan.canonical_sid@ + ".bak"@)
            ==> r == Result::<String, RepairError>::Err(RepairError::SessionActive),
{
    match validate_selected_actions(plan) {
        Ok(()) => {},
        Err(e) => {
            return Err(e);
        },
    }
    if !is_valid_sid(plan.canonical_sid.as_str()) {
        return Err(RepairError::InvalidSid(owned(plan.canonical_sid.as_str())));
    }
    let bak = make_bak_name(plan);
    if !str_eq(plan.sid.as_str(), plan.canonical_sid.as_str()) && !str_eq(
        plan.sid.as_str(),
        bak.as_str(),
    ) {
        return Err(RepairError::InvalidSid(owned(plan.sid.as_str())));
    }
    let live = match o.hive {
        Ok(()) => true,
        Err(error) => {
            if !error.missing_key() {
                return Err(RepairError::RegistryError(error));
            }
            false
        },
    };
    if is_loaded || live {
        return Err(RepairError::SessionActive);
    }
    match o.profile_list {
        Ok(()) => {},
        Err(error) => {
            return Err(RepairError::RegistryError(error));
        },
    }
    match o.selected_exists {
        Ok(true) => {},
        Ok(false) => {
            return Err(RepairError::MissingRegistryKey(owned(plan.sid.as_str())));
        },
        Err(error) => {
            return Err(RepairError::RegistryError(error));
        },
    }
    let selected = match o.selected_path {
        Ok(path) => path,
        Err(error) => {
            return Err(RepairError::RegistryError(error));
        },
    };
    let found = normalize_profile_path(selected.as_str());
    let wanted = normalize_profile_path(plan.profile_path.as_str());
    if !str_eq(found.as_str(), wanted.as_str()) {
        let reason = cat5(
            "selected registry path '",
            selected.as_str(),
            "' does not match plan path '",
            plan.profile_path.as_str(),
            "'",
        );
        return Err(transaction_failed("Preflight", reason.as_str()));
    }
    if plan.fix_bak {
        match o.bak_exists {
            Ok(true) => {},
            Ok(false) => {
                return Err(RepairError::MissingRegistryKey(bak));
            },
            Err(error) => {
                return Err(RepairError::RegistryError(error));
            },
        }
        match o.bak_path {
            Ok(path) => {
                if is_blank_str(path.as_str()) {
                    return Err(
                        transaction_failed(
                            "Preflight",
                            "the .bak key has an empty ProfileImagePath",
                        ),
                    );
                }
            },
            Err(error) => {
                return Err(RepairError::RegistryError(error));
            },
        }
    }
    let canonical = match o.canonical_exists {
        Ok(canonical) => canonical,
        Err(error) => {
            return Err(RepairError::RegistryError(error));
        },
    };
    if !plan.fix_bak && !canonical {
        return Err(RepairError::MissingRegistryKey(owned(plan.canonical_sid.as_str())));
    }
    let head = cat6(
        "Preflight passed: fix_bak=",
        show_bool(plan.fix_bak),
        ", reset_state=",
        show_bool(plan.reset_state),
        ", unlock_hive=",
        show_bool(plan.unlock_hive),
    );
    Ok(cat3(head.as_str(), ", canonical_exists=", show_bool(canonical)))
}

// ---------------------------------------------------------------------------
// Snapshots, verification and the summary of a rollback
// ---------------------------------------------------------------------------

/// The path of the profile's key below `HKEY_LOCAL_MACHINE`.
pub open spec fn canonical_path(plan: RepairPlan) -> Seq<char> {
    REG_KEY_PROFILE_LIST@ + "\\"@ + plan.canonical_sid@
}

/// The keys that a repair changes and that are therefore saved first.
pub open spec fn snapshot_paths(plan: RepairPlan, canonical_exists: bool) -> Seq<Seq<char>> {
    if plan.fix_bak {
        if canonical_exists {
            seq![canonical_path(plan) + BAK_EXTENSION@, canonical_path(plan)]
        } else {
            seq![canonical_path(plan) + BAK_EXTENSION@]
        }
    } else if plan.reset_state {
        seq![canonical_path(plan)]
    } else {
        Seq::empty()
    }
}

/// The keys to save before a repair.
pub fn required_snapshots(plan: &RepairPlan, canonical_exists: bool) -> (r: Vec<String>)
    ensures
        texts(r@) == snapshot_paths(*plan, canonical_exists),
{
    let canonical = cat3(REG_KEY_PROFILE_LIST, "\\", plan.canonical_sid.as_str());
    let mut paths: Vec<String> = Vec::new();
    if plan.fix_bak {
        paths.push(cat2(canonical.as_str(), BAK_EXTENSION));
        if canonical_exists {
            paths.push(canonical);
        }
    } else if plan.reset_state {
        paths.push(canonical);
    }
    assert(texts(paths@) =~= snapshot_paths(*plan, canonical_exists));
    paths
}

/// The snapshot that is asked for of a key, before a repair changes it.
pub fn snapshot_request(plan: &RepairPlan, subkey: &str, directory: &str) -> (r: SnapshotRequest)
    ensures
        r.subkey@ == subkey@,
        r.sid@ == plan.canonical_sid@,
        r.profile_path@ == plan.profile_path@,
        r.reason@ == SNAPSHOT_REASON@,
        r.directory@ == directory@,
{
    SnapshotRequest {
        subkey: owned(subkey),
        sid: owned(plan.canonical_sid.as_str()),
        profile_path: owned(plan.profile_path.as_str()),
        reason: owned(SNAPSHOT_REASON),
        directory: owned(directory),
    }
}

/// What was read of the registry after a repair.
pub struct VerifyObservation {
    pub canonical_exists: Result<bool, RegistryError>,
    pub bak_exists: Result<bool, RegistryError>,
    pub image_path: Result<String, RegistryError>,
    pub state: Result<u32, RegistryError>,
    pub ref_count: Result<u32, RegistryError>,
}

/// Whether a repair shows in the registry.
pub open spec fn repair_shows(plan: RepairPlan, o: VerifyObservation) -> bool {
    &&& reads_true(o.canonical_exists)
    &&& plan.fix_bak ==> o.bak_exists == Result::<bool, RegistryError>::Ok(false)
    &&& o.image_path is Ok
    &&& !is_blank(o.image_path->Ok_0@)
    &&& plan.reset_state ==> o.state == Result::<u32, RegistryError>::Ok(0) && o.ref_count
        == Result::<u32, RegistryError>::Ok(0)
}

/// The error of a repair that does not show, by the first check that it fails.
pub open spec fn verify_failure(plan: RepairPlan, o: VerifyObservation, e: RepairError) -> bool {
    if !reads_true(o.canonical_exists) {
        missing_error(o.canonical_exists, plan.canonical_sid@, e)
    } else if plan.fix_bak && o.bak_exists is Err {
        e == RepairError::RegistryError(o.bak_exists->Err_0)
    } else if plan.fix_bak && o.bak_exists->Ok_0 {
        e.is_transaction("Verification"@, "the .bak key still exists"@)
    } else if o.image_path is Err {
        e == RepairError::RegistryError(o.image_path->Err_0)
    } else if is_blank(o.image_path->Ok_0@) {
        e.is_transaction("Verification"@, "ProfileImagePath is empty"@)
    } else if o.state is Err {
        e == RepairError::RegistryError(o.state->Err_0)
    } else if o.ref_count is Err {
        e == RepairError::RegistryError(o.ref_count->Err_0)
    } else {
        e.is_transaction(
            "Verification"@,
            "State="@ + decimal(o.state->Ok_0 as nat) + ", RefCount="@ + decimal(
                o.ref_count->Ok_0 as nat,
            ),
        )
    }
}

/// Checks that a repair shows in the registry.
pub fn verify(plan: &RepairPlan, o: VerifyObservation) -> (r: Result<(), RepairError>)
    ensures
        match r {
            Ok(_) => repair_shows(*plan, o),
            Err(e) => !repair_shows(*plan, o) && verify_failure(*plan, o, e),
        },
{
    match o.canonical_exists {
        Ok(true) => {},
        Ok(false) => {
            return Err(RepairError::MissingRegistryKey(owned(plan.canonical_sid.as_str())));
        },
        Err(error) => {
            return Err(RepairError::RegistryError(error));
        },
    }
    if plan.fix_bak {
        match o.bak_exists {
            Ok(false) => {},
            Ok(true) => {
                return Err(transaction_failed("Verification", "the .bak key still exists"));
            },
            Err(error) => {
                return Err(RepairError::RegistryError(error));
            },
        }
    }
    match o.image_path {
        Ok(path) => {
            if is_blank_str(path.as_str()) {
                return Err(transaction_failed("Verification", "ProfileImagePath is empty"));
            }
        },
        Err(error) => {
            return Err(RepairError::RegistryError(error));
        },
    }
    if plan.reset_state {
        let state: u32 = match o.state {
            Ok(state) => state,
            Err(error) => {
                return Err(RepairError::RegistryError(error));
            },
        };
        let ref_count: u32 = match o.ref_count {
            Ok(ref_count) => ref_count,
            Err(error) => {
                return Err(RepairError::RegistryError(error));
            },
        };
        if state != 0 || ref_count != 0 {
            let a = dec(state as u64);
            let b = dec(ref_count as u64);
            let reason = cat4("State=", a.as_str(), ", RefCount=", b.as_str());
            return Err(transaction_failed("Verification", reason.as_str()));
        }
    }
    Ok(())
}

/// The status of a rollback with the given errors.
pub open spec fn summary_status(errors: Seq<Seq<char>>) -> AuditStatus {
    if errors.len() == 0 {
        AuditStatus::RolledBack
    } else {
        AuditStatus::Failed
    }
}

/// The summary of a rollback.
pub open spec fn summary_text(snapshot_count: nat, errors: Seq<Seq<char>>) -> Seq<char> {
    if errors.len() == 0 {
        "Rollback completed for "@ + decimal(snapshot_count) + " snapshot(s)"@
    } else {
        "Rollback attempted all "@ + decimal(snapshot_count) + " snapshot(s); "@ + decimal(
            errors.len(),
        ) + " error(s): "@ + joined(errors, "; "@)
    }
}

pub fn rollback_summary(snapshot_count: usize, errors: &Vec<String>) -> (r: (AuditStatus, String))
    ensures
        r.0 == summary_status(texts(errors@)),
        r.1@ == summary_text(snapshot_count as nat, texts(errors@)),
{
    let count = dec(snapshot_count as u64);
    if errors.len() == 0 {
        (AuditStatus::RolledBack, cat3("Rollback completed for ", count.as_str(), " snapshot(s)"))
    } else {
        let number = dec(errors.len() as u64);
        let list = join(errors, "; ");
        (
            AuditStatus::Failed,
            cat6(
                "Rollback attempted all ",
                count.as_str(),
                " snapshot(s); ",
                number.as_str(),
                " error(s): ",
                list.as_str(),
            ),
        )
    }
}

/// Why something failed; nothing where it did not.
pub open spec fn failure_of(outcome: Result<(), String>) -> Option<Seq<char>> {
    match outcome {
        Ok(_) => None,
        Err(reason) => Some(reason@),
    }
}

pub open spec fn failures(outcomes: Seq<Result<(), String>>) -> Seq<Option<Seq<char>>> {
    outcomes.map_values(|outcome: Result<(), String>| failure_of(outcome))
}

/// Errors with those of failures behind them.
pub open spec fn with_failures(before: Seq<Seq<char>>, failures: Seq<Option<Seq<char>>>) -> Seq<
    Seq<char>,
>
    decreases failures.len(),
{
    if failures.len() == 0 {
        before
    } else {
        let front = with_failures(before, failures.drop_last());
        match failures.last() {
            None => front,
            Some(reason) => front.push(reason),
        }
    }
}

/// The errors after every restoration was tried and the summary was audited: those
/// before, those of the restorations in order, and that of the audit.
pub open spec fn all_errors(
    before: Seq<Seq<char>>,
    restored: Seq<Option<Seq<char>>>,
    audit: Option<Seq<char>>,
) -> Seq<Seq<char>> {
    with_failures(before, restored.push(audit))
}

/// Gathers the errors of restorations, all of which were tried, and of the audit
/// that follows them.
pub fn attempt_all_then_audit(
    errors: Vec<String>,
    restored: &Vec<Result<(), String>>,
    audit: Result<(), String>,
) -> (r: Vec<String>)
    ensures
        texts(r@) == all_errors(texts(errors@), failures(restored@), failure_of(audit)),
{
    let mut errors = errors;
    let ghost before = texts(errors@);
    let ghost all = failures(restored@);
    let mut i: usize = 0;
    assert(all.take(0) =~= Seq::<Option<Seq<char>>>::empty());
    while i < restored.len()
        invariant
            i <= restored@.len(),
            all == failures(restored@),
            texts(errors@) =~= with_failures(before, all.take(i as int)),
        decreases restored.len() - i,
    {
        let ghost known = texts(errors@);
        assert(all.take(i + 1).drop_last() =~= all.take(i as int));
        assert(all.take(i + 1).last() == failure_of(restored@[i as int]));
        match &restored[i] {
            Ok(()) => {},
            Err(reason) => {
                errors.push(owned(reason.as_str()));
                assert(texts(errors@) =~= known.push(reason@));
            },
        }
        i += 1;
    }
    assert(all.take(i as int) =~= all);
    assert(all.push(failure_of(audit)).drop_last() =~= all);
    let ghost known = texts(errors@);
    match audit {
        Ok(()) => {},
        Err(reason) => {
            errors.push(reason);
            assert(texts(errors@) =~= known.push(reason@));
        },
    }
    errors
}

/// The same path, up to white space around it, separators at its end and the case of its
/// letters.
pub open spec fn same_profile_path(a: Seq<char>, b: Seq<char>) -> bool {
    ascii_lower(without_trailing_slashes(trimmed(a))) == ascii_lower(
        without_trailing_slashes(trimmed(b)),
    )
}

/// A plan is admitted exactly where nothing speaks against it: it selects something, its
/// names fit, the profile is not in use, its key is there and names the path of the plan,
/// and the key that the repair works on is there.
pub proof fn a_plan_is_admitted_where_nothing_speaks_against_it(
    plan: RepairPlan,
    is_loaded: bool,
    o: PlanObservation,
)
    ensures
        plan_passes(plan, is_loaded, o) <==> {
            &&& plan.fix_bak || plan.reset_state
            &&& is_sid(plan.canonical_sid@)
            &&& plan.sid@ == plan.canonical_sid@ || plan.sid@ == plan.canonical_sid@ + ".bak"@
            &&& o.hive == Result::<(), RegistryError>::Err(RegistryError::Win32Error(2))
            &&& !is_loaded
            &&& o.profile_list is Ok
            &&& o.selected_exists == Result::<bool, RegistryError>::Ok(true)
            &&& o.selected_path is Ok && same_profile_path(
                o.selected_path->Ok_0@,
                plan.profile_path@,
            )
            &&& plan.fix_bak ==> o.bak_exists == Result::<bool, RegistryError>::Ok(true)
                && o.bak_path is Ok && !is_blank(o.bak_path->Ok_0@) && o.canonical_exists is Ok
            &&& !plan.fix_bak ==> o.canonical_exists == Result::<bool, RegistryError>::Ok(true)
        },
{
}

/// A profile in use is refused for that reason, whatever else is read: the last scan says
/// that it is loaded, or its hive is found now. An empty selection, and names that do not
/// fit, are told first.
pub proof fn a_profile_in_use_is_refused(
    plan: RepairPlan,
    is_loaded: bool,
    o: PlanObservation,
    e: RepairError,
)
    requires
        is_loaded || o.hive is Ok,
    ensures
        !plan_passes(plan, is_loaded, o),
        plan_failure(plan, is_loaded, o, e) ==> match e {
            RepairError::SessionActive => true,
            RepairError::NoActionSelected => !plan.fix_bak && !plan.reset_state,
            RepairError::InvalidSid(_) => !is_sid(plan.canonical_sid@) || plan.sid@
                != plan.canonical_sid@ && plan.sid@ != plan.canonical_sid@ + ".bak"@,
            RepairError::RegistryError(why) => o.hive == Result::<(), RegistryError>::Err(why)
                && why != RegistryError::Win32Error(2),
            _ => false,
        },
{
}

/// A hive that processes hold stops a repair, and each of them is named; so does a hive
/// whose holders could not be found out. One that is free, or is not there, does not.
pub proof fn a_held_hive_stops_a_repair(
    ntuser_path: Seq<char>,
    present: Result<bool, String>,
    locking: Result<Vec<LockingProcessInfo>, RestartManagerError>,
    inspection: Result<Vec<ManualCloseBlocker>, String>,
    r: Result<(), RepairError>,
)
    requires
        inspection_outcome(ntuser_path, present, locking, inspection),
        lock_outcome(inspection, r),
    ensures
        r is Ok <==> present == Result::<bool, String>::Ok(false) || present
            == Result::<bool, String>::Ok(true) && locking is Ok && locking->Ok_0@.len() == 0,
        present == Result::<bool, String>::Ok(true) && locking is Ok && locking->Ok_0@.len() > 0
            ==> (r matches Err(RepairError::ManualCloseRequired { blockers }) && blockers@.len()
            == locking->Ok_0@.len() && forall|i: int|
            0 <= i < blockers@.len() ==> (#[trigger] blockers@[i]).process_id
                == locking->Ok_0@[i].process_id && blockers@[i].application@
                == locking->Ok_0@[i].app_name@),
        present is Err || present == Result::<bool, String>::Ok(true) && locking is Err ==> (
        r matches Err(RepairError::LockInspectionFailed(_))),
{
}

/// A repair counts as done only where the registry shows it: the profile's key is there
/// with a path, the key that was set aside is gone where that was repaired, and state and
/// reference count are zero where they were reset. Anything else is an error.
pub proof fn a_repair_counts_where_it_shows(plan: RepairPlan, o: VerifyObservation)
    ensures
        repair_shows(plan, o) <==> {
            &&& o.canonical_exists == Result::<bool, RegistryError>::Ok(true)
            &&& plan.fix_bak ==> o.bak_exists == Result::<bool, RegistryError>::Ok(false)
            &&& o.image_path is Ok && !is_blank(o.image_path->Ok_0@)
            &&& plan.reset_state ==> o.state == Result::<u32, RegistryError>::Ok(0) && o.ref_count
                == Result::<u32, RegistryError>::Ok(0)
        },
{
}

/// The keys that are saved are those that the repair changes, and no others: the key that
/// was set aside where it gets its name back, and the profile's key where it is there and
/// is renamed or reset.
pub proof fn what_is_saved_is_what_changes(plan: RepairPlan, present: bool, path: Seq<char>)
    requires
        plan.fix_bak || present,
    ensures
        snapshot_paths(plan, present).contains(path) <==> {
            ||| plan.fix_bak && path == REG_KEY_PROFILE_LIST@ + "\\"@ + (plan.canonical_sid@
                + ".bak"@)
            ||| (plan.fix_bak || plan.reset_state) && present && path == REG_KEY_PROFILE_LIST@
                + "\\"@ + plan.canonical_sid@
        },
{
    let required = snapshot_paths(plan, present);
    let bak = REG_KEY_PROFILE_LIST@ + "\\"@ + (plan.canonical_sid@ + ".bak"@);
    assert(canonical_path(plan) + ".bak"@ =~= bak);
    if plan.fix_bak {
        assert(required[0] == bak);
        if present {
            assert(required[1] == canonical_path(plan));
        }
    } else if plan.reset_state {
        assert(required[0] == canonical_path(plan));
    }
}

} // verus!
