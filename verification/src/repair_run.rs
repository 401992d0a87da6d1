//! The run of a repair: what is done next, given the outcome of what was done.
use crate::clock::{Stamp, UtcTime};
use crate::constants::{REG_KEY_PROFILE_LIST, VAL_REF_COUNT, VAL_STATE};
use crate::journal::{admin_entry, admin_model, AuditEntry, AuditStatus};
use crate::models::{opt_text, RepairPlan};
use crate::paths::path_join;
use crate::registry::RegistryError;
use crate::repair::{
    all_errors, bak_name, has_hive_place, lock_inspection_target, lock_outcome, plan_failure, plan_passes,
    preflight_text, repair_shows, required_snapshots, rollback_summary, selects_action,
    snapshot_paths, summary_status, summary_text, validate_lock_contract, validate_plan, verify,
    verify_failure, with_failures, ManualCloseBlocker, PlanObservation, RepairError, VerifyObservation,
    ABSOLUTE_PATH_REQUIRED, BACKUP_SUFFIX,
};
use crate::rollback::RollbackError;
use crate::snapshot::SnapshotError;
use crate::text::{cat2, cat3, cat5, dec, join, owned};
use crate::text::{decimal, joined, texts};
use vstd::prelude::*;

verus! {

/// What the run is waiting for.
#[derive(Debug, Clone, Copy, PartialEq, Eq, Structural)]
pub enum RepairStage {
    Guard,
    FirstLocks,
    Observe,
    SecondLocks,
    AuditDryRun,
    CheckSnapshotTarget,
    Snapshot,
    AuditStarted,
    OpenList,
    CheckCanonical,
    CheckBackup,
    RenameCanonical,
    RenameBak,
    OpenCanonical,
    SetState,
    SetRefCount,
    Verify,
    AuditSuccess,
    /// Taking back the rename of the set-aside key.
    RollBakCheck,
    RollBakRename,
    /// Taking back the rename of the key that was in its place.
    RollCanonicalCheck,
    RollCanonicalRename,
    RestoreSnapshot,
    AuditSummary,
    AuditFailed,
    AuditRollbackFailed,
    Finished,
}

/// The outcome of what was asked for.
pub enum RepairEvent {
    Guarded(Result<(), String>),
    Inspected(Result<Vec<ManualCloseBlocker>, String>),
    Observed(PlanObservation),
    Audited(Result<(), String>),
    Exists(Result<bool, RegistryError>),
    /// As `Exists`, with the stamp to name a preserved key by.
    ExistsAt(Result<bool, RegistryError>, Stamp),
    Captured(Result<(), SnapshotError>),
    Registry(Result<(), RegistryError>),
    Verified(VerifyObservation),
    Restored(Result<(), RollbackError>),
}

/// What is to be done next.
#[derive(Debug)]
pub enum RepairAction {
    AcquireGuard,
    InspectLocks { ntuser_path: String },
    Observe,
    Audit { operation: &'static str, status: AuditStatus, details: String },
    /// Look whether a key is below the profile list.
    CheckKey { name: String },
    /// Save a key below `HKEY_LOCAL_MACHINE`.
    CaptureSnapshot { path: String },
    /// Open the profile list below `HKEY_LOCAL_MACHINE`.
    OpenProfileList { subkey: &'static str },
    RenameKey { from: String, to: String },
    OpenKey { name: String },
    SetValue { value_name: &'static str, value: u32 },
    ReadBack,
    RestoreSnapshot { index: usize, path: String },
    Finish(Result<(), RepairError>),
}

impl RepairAction {
    /// Whether the action changes the profile list.
    pub open spec fn mutates(self) -> bool {
        self is RenameKey || self is SetValue || self is RestoreSnapshot
    }
}

/// The run of a repair.
pub struct RepairRun {
    pub plan: RepairPlan,
    pub is_loaded: bool,
    pub stage: RepairStage,
    pub validation: String,
    /// The keys to save before anything is changed.
    pub required: Vec<String>,
    /// How many of them are saved.
    pub captured: usize,
    /// The name that the key in the way is to get.
    pub backup_name: String,
    pub bak_moved: bool,
    pub canonical_backup: Option<String>,
    /// Why the repair is taken back.
    pub cause: Option<RepairError>,
    /// Whether it is taken back because its success could not be audited.
    pub after_success: bool,
    pub errors: Vec<String>,
    /// How many snapshots were tried to restore.
    pub restored: usize,
}

#[verifier::ext_equal]
pub struct RepairModel {
    pub stage: RepairStage,
    pub validation: Seq<char>,
    pub required: Seq<Seq<char>>,
    pub captured: nat,
    pub backup_name: Seq<char>,
    pub bak_moved: bool,
    pub canonical_backup: Option<Seq<char>>,
    pub cause: Option<RepairError>,
    pub after_success: bool,
    pub errors: Seq<Seq<char>>,
    pub restored: nat,
}

impl View for RepairRun {
    type V = RepairModel;

    open spec fn view(&self) -> RepairModel {
        RepairModel {
            stage: self.stage,
            validation: self.validation@,
            required: texts(self.required@),
            captured: self.captured as nat,
            backup_name: self.backup_name@,
            bak_moved: self.bak_moved,
            canonical_backup: opt_text(self.canonical_backup),
            cause: self.cause,
            after_success: self.after_success,
            errors: texts(self.errors@),
            restored: self.restored as nat,
        }
    }
}

impl RepairStage {
    pub open spec fn expects(self, event: RepairEvent) -> bool {
        match self {
            RepairStage::Guard => event is Guarded,
            RepairStage::FirstLocks | RepairStage::SecondLocks => event is Inspected,
            RepairStage::Observe => event is Observed,
            RepairStage::AuditDryRun | RepairStage::AuditStarted | RepairStage::AuditSuccess
            | RepairStage::AuditSummary | RepairStage::AuditFailed
            | RepairStage::AuditRollbackFailed => event is Audited,
            RepairStage::CheckSnapshotTarget | RepairStage::CheckBackup
            | RepairStage::RollBakCheck | RepairStage::RollCanonicalCheck => event is Exists,
            RepairStage::CheckCanonical => event is ExistsAt,
            RepairStage::Snapshot => event is Captured,
            RepairStage::OpenList | RepairStage::RenameCanonical | RepairStage::RenameBak
            | RepairStage::OpenCanonical | RepairStage::SetState | RepairStage::SetRefCount
            | RepairStage::RollBakRename | RepairStage::RollCanonicalRename => event is Registry,
            RepairStage::Verify => event is Verified,
            RepairStage::RestoreSnapshot => event is Restored,
            RepairStage::Finished => false,
        }
    }

    /// Whether the repair is carried out, behind all its checks and snapshots.
    pub open spec fn is_carried_out(self) -> bool {
        match self {
            RepairStage::CheckCanonical | RepairStage::CheckBackup | RepairStage::RenameCanonical
            | RepairStage::RenameBak | RepairStage::OpenCanonical | RepairStage::SetState
            | RepairStage::SetRefCount | RepairStage::Verify | RepairStage::AuditSuccess => true,
            _ => false,
        }
    }

    /// Whether the repair is taken back.
    pub open spec fn is_taken_back(self) -> bool {
        match self {
            RepairStage::RollBakCheck | RepairStage::RollBakRename
            | RepairStage::RollCanonicalCheck | RepairStage::RollCanonicalRename
            | RepairStage::RestoreSnapshot | RepairStage::AuditSummary | RepairStage::AuditFailed
            | RepairStage::AuditRollbackFailed => true,
            _ => false,
        }
    }
}

impl RepairModel {
    /// A run that has done nothing.
    pub open spec fn fresh() -> RepairModel {
        RepairModel {
            stage: RepairStage::Guard,
            validation: Seq::empty(),
            required: Seq::empty(),
            captured: 0,
            backup_name: Seq::empty(),
            bak_moved: false,
            canonical_backup: None,
            cause: None,
            after_success: false,
            errors: Seq::empty(),
            restored: 0,
        }
    }

    pub open spec fn at(self, stage: RepairStage) -> RepairModel {
        RepairModel { stage: stage, ..self }
    }

    /// The reason of a rollback that was not complete.
    pub open spec fn rollback_reason(self) -> Seq<char> {
        "original error: "@ + self.cause->0.text() + "; rollback error: "@
            + "Rollback failed: "@ + ("one or more rollback steps failed: "@ + joined(
            self.errors,
            "; "@,
        ))
    }
}

/// Whether an action writes a given audit entry.
pub open spec fn audits(
    action: RepairAction,
    operation: Seq<char>,
    status: AuditStatus,
    details: Seq<char>,
) -> bool {
    action matches RepairAction::Audit { operation: o, status: s, details: d } && o@ == operation
        && s == status && d@ == details
}

pub open spec fn checks(action: RepairAction, key: Seq<char>) -> bool {
    action matches RepairAction::CheckKey { name } && name@ == key
}

pub open spec fn renames(action: RepairAction, old_name: Seq<char>, new_name: Seq<char>) -> bool {
    action matches RepairAction::RenameKey { from, to } && from@ == old_name && to@ == new_name
}

pub open spec fn ends(n: RepairModel, action: RepairAction, r: Result<(), RepairError>) -> bool {
    n.stage is Finished && action == RepairAction::Finish(r)
}

/// The first checks, behind the guard: no automatic unlocking, something selected,
/// and a place whose locks can be inspected.
pub open spec fn admits(plan: RepairPlan, m: RepairModel, n: RepairModel, action: RepairAction) -> bool {
    if plan.unlock_hive {
        ends(n, action, Err(RepairError::AutomaticUnlockUnsupported))
    } else if !selects_action(plan) {
        ends(n, action, Err(RepairError::NoActionSelected))
    } else {
        inspects(plan, m.at(RepairStage::FirstLocks), n, action)
    }
}

/// Inspects the locks of the hive, if its place is known.
pub open spec fn inspects(
    plan: RepairPlan,
    m: RepairModel,
    n: RepairModel,
    action: RepairAction,
) -> bool {
    if has_hive_place(plan) {
        n == m && (action matches RepairAction::InspectLocks { ntuser_path } && ntuser_path@
            == path_join(plan.profile_path@, crate::constants::NTUSER_DAT@))
    } else {
        n.stage is Finished && (action matches RepairAction::Finish(Err(e)) && e.is_transaction(
            "LockInspection"@,
            ABSOLUTE_PATH_REQUIRED@,
        ))
    }
}

/// Whether these are the keys to save for a plan, the canonical key being there or
/// not.
pub open spec fn saves_what_changes(plan: RepairPlan, required: Seq<Seq<char>>) -> bool {
    required == snapshot_paths(plan, true) || required == snapshot_paths(plan, false)
}

/// Saves the next key, or audits the start where all are saved.
pub open spec fn saves_next(m: RepairModel, n: RepairModel, action: RepairAction) -> bool {
    if m.captured < m.required.len() {
        n == m.at(RepairStage::Snapshot) && (action matches RepairAction::CaptureSnapshot { path }
            && path@ == m.required[m.captured as int])
    } else {
        n == m.at(RepairStage::AuditStarted) && audits(
            action,
            "RepairStarted"@,
            AuditStatus::Warning,
            "Validated repair with "@ + decimal(m.required.len()) + " durable snapshot(s)"@,
        )
    }
}

/// Behind the renames: resets the state if that is selected, else reads back.
pub open spec fn resets(plan: RepairPlan, m: RepairModel, n: RepairModel, action: RepairAction) -> bool {
    if plan.reset_state {
        n == m.at(RepairStage::OpenCanonical) && (action matches RepairAction::OpenKey { name }
            && name@ == plan.canonical_sid@)
    } else {
        n == m.at(RepairStage::Verify) && action is ReadBack
    }
}

/// Takes the repair back because of an error.
pub open spec fn takes_back(
    plan: RepairPlan,
    m: RepairModel,
    n: RepairModel,
    action: RepairAction,
    cause: RepairError,
    after_success: bool,
) -> bool {
    let back = RepairModel {
        cause: Some(cause),
        after_success: after_success,
        errors: Seq::empty(),
        restored: 0,
        ..m
    };
    if m.bak_moved {
        n == back.at(RepairStage::RollBakCheck) && checks(action, plan.canonical_sid@)
    } else {
        rolls_canonical(back, n, action)
    }
}

/// Takes back the rename of the key that was in the way, if there was one.
pub open spec fn rolls_canonical(m: RepairModel, n: RepairModel, action: RepairAction) -> bool {
    match m.canonical_backup {
        Some(name) => n == m.at(RepairStage::RollCanonicalCheck) && checks(action, name),
        None => restores_next(m, n, action),
    }
}

/// Restores the next snapshot, or audits the summary where all were tried.
pub open spec fn restores_next(m: RepairModel, n: RepairModel, action: RepairAction) -> bool {
    if m.restored < m.required.len() {
        n == m.at(RepairStage::RestoreSnapshot) && (action matches RepairAction::RestoreSnapshot {
            index,
            path,
        } && index == m.restored && path@ == "HKLM\\"@ + m.required[m.restored as int])
    } else {
        n == m.at(RepairStage::AuditSummary) && audits(
            action,
            "RepairRollbackSummary"@,
            summary_status(m.errors),
            summary_text(m.required.len(), m.errors),
        )
    }
}

/// The run with one more error.
pub open spec fn with_error(m: RepairModel, text: Seq<char>) -> RepairModel {
    RepairModel { errors: m.errors.push(text), ..m }
}

/// The run with the error of a failure; the same run where nothing failed.
pub open spec fn with_failure(m: RepairModel, failure: Option<Seq<char>>) -> RepairModel {
    match failure {
        None => m,
        Some(text) => with_error(m, text),
    }
}

/// What is said of a key that could not be restored.
pub open spec fn restore_failure(key: Seq<char>, outcome: Result<(), RollbackError>) -> Option<
    Seq<char>,
> {
    match outcome {
        Ok(_) => None,
        Err(e) => Some("restore "@ + ("HKLM\\"@ + key) + ": "@ + e.text()),
    }
}

/// What is said of the summary of a rollback that could not be audited.
pub open spec fn summary_failure(outcome: Result<(), String>) -> Option<Seq<char>> {
    match outcome {
        Ok(_) => None,
        Err(reason) => Some("rollback summary audit: "@ + reason@),
    }
}

/// What follows an event in the run of a repair.
pub open spec fn repair_follows(
    plan: RepairPlan,
    is_loaded: bool,
    m: RepairModel,
    event: RepairEvent,
    n: RepairModel,
    action: RepairAction,
) -> bool {
    match event {
        RepairEvent::Guarded(Ok(_)) => admits(plan, m, n, action),
        RepairEvent::Guarded(Err(reason)) => ends(n, action, Err(RepairError::AuditError(reason))),
        RepairEvent::Inspected(inspection) => match inspection {
            Ok(blockers) if blockers@.len() == 0 => if m.stage is FirstLocks {
                n == m.at(RepairStage::Observe) && action is Observe
            } else if plan.dry_run {
                n == m.at(RepairStage::AuditDryRun) && audits(
                    action,
                    "RepairDryRun"@,
                    AuditStatus::Success,
                    m.validation,
                )
            } else if plan.fix_bak {
                n == m.at(RepairStage::CheckSnapshotTarget) && checks(action, plan.canonical_sid@)
            } else {
                saves_next(
                    RepairModel { required: snapshot_paths(plan, true), captured: 0, ..m },
                    n,
                    action,
                )
            },
            _ => n.stage is Finished && (action matches RepairAction::Finish(r) && r is Err
                && lock_outcome(inspection, r)),
        },
        RepairEvent::Observed(found) => if plan_passes(plan, is_loaded, found) {
            inspects(
                plan,
                RepairModel {
                    stage: RepairStage::SecondLocks,
                    validation: preflight_text(plan, found.canonical_exists->Ok_0),
                    ..m
                },
                n,
                action,
            )
        } else {
            n.stage is Finished && (action matches RepairAction::Finish(Err(e)) && plan_failure(
                plan,
                is_loaded,
                found,
                e,
            ))
        },
        RepairEvent::Audited(outcome) => match m.stage {
            RepairStage::AuditDryRun => match outcome {
                Ok(_) => ends(n, action, Ok(())),
                Err(reason) => ends(n, action, Err(RepairError::AuditError(reason))),
            },
            RepairStage::AuditStarted => match outcome {
                Ok(_) => n == m.at(RepairStage::OpenList) && action == (RepairAction::OpenProfileList {
                    subkey: REG_KEY_PROFILE_LIST,
                }),
                Err(reason) => ends(n, action, Err(RepairError::AuditError(reason))),
            },
            RepairStage::AuditSuccess => match outcome {
                Ok(_) => ends(n, action, Ok(())),
                Err(reason) => takes_back(
                    plan,
                    m,
                    n,
                    action,
                    RepairError::AuditError(reason),
                    true,
                ),
            },
            RepairStage::AuditSummary => {
                let closed = with_failure(m, summary_failure(outcome));
                if closed.errors.len() == 0 {
                    if m.after_success {
                        ends(n, action, Err(m.cause->0))
                    } else {
                        n == closed.at(RepairStage::AuditFailed) && audits(
                            action,
                            "RepairFailed"@,
                            AuditStatus::RolledBack,
                            "Repair failed and rollback completed: "@ + m.cause->0.text(),
                        )
                    }
                } else if m.after_success {
                    n.stage is Finished && (action matches RepairAction::Finish(
                        Err(RepairError::RollbackError(RollbackError::Aggregate(list))),
                    ) && list@ == joined(closed.errors, "; "@))
                } else {
                    n == closed.at(RepairStage::AuditRollbackFailed) && audits(
                        action,
                        "RepairRollbackFailed"@,
                        AuditStatus::Failed,
                        closed.rollback_reason(),
                    )
                }
            },
            RepairStage::AuditFailed => match outcome {
                Ok(_) => ends(n, action, Err(m.cause->0)),
                Err(reason) => ends(n, action, Err(RepairError::AuditError(reason))),
            },
            _ => n.stage is Finished && (action matches RepairAction::Finish(Err(e))
                && e.is_transaction(
                "Rollback"@,
                match outcome {
                    Ok(_) => m.rollback_reason(),
                    Err(reason) => m.rollback_reason() + "; audit error: "@ + reason@,
                },
            )),
        },
        RepairEvent::Exists(outcome) => match m.stage {
            RepairStage::CheckSnapshotTarget => match outcome {
                Ok(present) => saves_next(
                    RepairModel { required: snapshot_paths(plan, present), captured: 0, ..m },
                    n,
                    action,
                ),
                Err(e) => ends(n, action, Err(RepairError::RegistryError(e))),
            },
            RepairStage::CheckBackup => match outcome {
                Ok(present) => if present {
                    exists|e: RepairError|
                        e.is_transaction(
                            "RegistryRename"@,
                            "backup key already exists: "@ + m.backup_name,
                        ) && #[trigger] takes_back(plan, m, n, action, e, false)
                } else {
                    n == m.at(RepairStage::RenameCanonical) && renames(
                        action,
                        plan.canonical_sid@,
                        m.backup_name,
                    )
                },
                Err(e) => takes_back(plan, m, n, action, RepairError::RegistryError(e), false),
            },
            RepairStage::RollBakCheck => match outcome {
                Ok(present) => if present {
                    n == m.at(RepairStage::RollBakRename) && renames(
                        action,
                        plan.canonical_sid@,
                        bak_name(plan),
                    )
                } else {
                    rolls_canonical(m, n, action)
                },
                Err(e) => rolls_canonical(
                    with_error(m, "inspect canonical key: "@ + e.text()),
                    n,
                    action,
                ),
            },
            _ => match outcome {
                Ok(present) => if present {
                    n == m.at(RepairStage::RollCanonicalRename) && renames(
                        action,
                        m.canonical_backup->0,
                        plan.canonical_sid@,
                    )
                } else {
                    restores_next(m, n, action)
                },
                Err(e) => restores_next(
                    with_error(m, "inspect canonical backup: "@ + e.text()),
                    n,
                    action,
                ),
            },
        },
        RepairEvent::ExistsAt(outcome, stamp) => match outcome {
            Ok(present) => if present {
                let name = plan.canonical_sid@ + "."@ + BACKUP_SUFFIX@ + "-"@ + stamp.text@;
                n == (RepairModel {
                    stage: RepairStage::CheckBackup,
                    backup_name: name,
                    ..m
                }) && checks(action, name)
            } else {
                n == m.at(RepairStage::RenameBak) && renames(
                    action,
                    bak_name(plan),
                    plan.canonical_sid@,
                )
            },
            Err(e) => takes_back(plan, m, n, action, RepairError::RegistryError(e), false),
        },
        RepairEvent::Captured(outcome) => match outcome {
            Ok(_) => saves_next(RepairModel { captured: m.captured + 1, ..m }, n, action),
            Err(e) => ends(n, action, Err(RepairError::SnapshotError(e))),
        },
        RepairEvent::Registry(outcome) => match m.stage {
            RepairStage::OpenList => match outcome {
                Ok(_) => if plan.fix_bak {
                    n == m.at(RepairStage::CheckCanonical) && checks(action, plan.canonical_sid@)
                } else {
                    resets(plan, m, n, action)
                },
                Err(e) => ends(n, action, Err(RepairError::RegistryError(e))),
            },
            RepairStage::RollBakRename => match outcome {
                Ok(_) => rolls_canonical(m, n, action),
                Err(e) => rolls_canonical(
                    with_error(m, "restore .bak name: "@ + e.text()),
                    n,
                    action,
                ),
            },
            RepairStage::RollCanonicalRename => match outcome {
                Ok(_) => restores_next(m, n, action),
                Err(e) => restores_next(
                    with_error(m, "restore canonical name: "@ + e.text()),
                    n,
                    action,
                ),
            },
            _ => match outcome {
                Err(e) => takes_back(plan, m, n, action, RepairError::RegistryError(e), false),
                Ok(_) => match m.stage {
                    RepairStage::RenameCanonical => n == (RepairModel {
                        stage: RepairStage::RenameBak,
                        canonical_backup: Some(m.backup_name),
                        ..m
                    }) && renames(action, bak_name(plan), plan.canonical_sid@),
                    RepairStage::RenameBak => resets(
                        plan,
                        RepairModel { bak_moved: true, ..m },
                        n,
                        action,
                    ),
                    RepairStage::OpenCanonical => n == m.at(RepairStage::SetState) && (
                    action matches RepairAction::SetValue { value_name, value } && value_name@ == VAL_STATE@
                        && value == 0),
                    RepairStage::SetState => n == m.at(RepairStage::SetRefCount) && (
                    action matches RepairAction::SetValue { value_name, value } && value_name@
                        == VAL_REF_COUNT@ && value == 0),
                    _ => n == m.at(RepairStage::Verify) && action is ReadBack,
                },
            },
        },
        RepairEvent::Verified(found) => if repair_shows(plan, found) {
            n == m.at(RepairStage::AuditSuccess) && audits(
                action,
                "RepairSuccess"@,
                AuditStatus::Success,
                "Repair verified; preserved prior canonical key: "@ + (match m.canonical_backup {
                    Some(name) => name,
                    None => "none"@,
                }),
            )
        } else {
            exists|e: RepairError|
                verify_failure(plan, found, e) && #[trigger] takes_back(
                    plan,
                    m,
                    n,
                    action,
                    e,
                    false,
                )
        },
        RepairEvent::Restored(outcome) => restores_next(
            with_failure(
                RepairModel { restored: m.restored + 1, ..m },
                restore_failure(m.required[m.restored as int], outcome),
            ),
            n,
            action,
        ),
    }
}

impl RepairRun {
    /// Whether everything that a change rests on was done: the repair is no
    /// rehearsal, nothing forbids it, and every key it changes is saved.
    pub open spec fn is_secured(self) -> bool {
        &&& !self.plan.dry_run
        &&& !self.plan.unlock_hive
        &&& selects_action(self.plan)
        &&& has_hive_place(self.plan)
        &&& !self.is_loaded
        &&& self.captured == self.required@.len()
        &&& saves_what_changes(self.plan, texts(self.required@))
    }

    /// What holds between steps.
    pub open spec fn inv(self) -> bool {
        let stage = self.stage;
        &&& stage.is_carried_out() || stage.is_taken_back() || stage is AuditStarted
            || stage is OpenList ==> self.is_secured()
        &&& !(stage is Guard || stage is Finished) ==> !self.plan.unlock_hive && selects_action(
            self.plan,
        ) && has_hive_place(self.plan)
        &&& stage is Guard ==> !self.plan.dry_run
        &&& stage is SecondLocks || stage is AuditDryRun || stage is CheckSnapshotTarget
            || stage is Snapshot ==> !self.is_loaded
        &&& stage is AuditDryRun ==> self.plan.dry_run
        &&& stage is CheckSnapshotTarget || stage is Snapshot ==> !self.plan.dry_run
        &&& stage is Snapshot ==> self.captured < self.required@.len() && saves_what_changes(
            self.plan,
            texts(self.required@),
        )
        &&& stage is CheckCanonical || stage is CheckBackup || stage is RenameCanonical
            || stage is RenameBak ==> self.plan.fix_bak
        &&& stage.is_taken_back() ==> self.cause is Some && self.restored <= self.required@.len()
        &&& stage is RestoreSnapshot ==> self.restored < self.required@.len()
        &&& stage is AuditSummary || stage is AuditFailed || stage is AuditRollbackFailed
            ==> self.restored == self.required@.len()
        &&& stage is RollCanonicalCheck || stage is RollCanonicalRename
            ==> self.canonical_backup is Some
        &&& stage is AuditFailed || stage is AuditRollbackFailed ==> !self.after_success
    }

    /// The run of a plan, and its first action.
    fn new(plan: RepairPlan, is_loaded: bool) -> (r: (RepairRun, RepairAction))
        ensures
            r.0.inv(),
            r.0.plan == plan,
            r.0.is_loaded == is_loaded,
            !plan.dry_run ==> r.0@ == RepairModel::fresh() && r.1 is AcquireGuard,
            plan.dry_run ==> admits(plan, RepairModel::fresh(), r.0@, r.1),
            !r.1.mutates(),
    {
        let mut run = RepairRun {
            plan: plan,
            is_loaded: is_loaded,
            stage: RepairStage::Guard,
            validation: String::new(),
            required: Vec::new(),
            captured: 0,
            backup_name: String::new(),
            bak_moved: false,
            canonical_backup: None,
            cause: None,
            after_success: false,
            errors: Vec::new(),
            restored: 0,
        };
        assert(run@ =~= RepairModel::fresh());
        if run.plan.dry_run {
            let action = run.enter();
            (run, action)
        } else {
            (run, RepairAction::AcquireGuard)
        }
    }

    fn finish(&mut self, result: Result<(), RepairError>) -> (r: RepairAction)
        ensures
            final(self).inv(),
            final(self).plan == old(self).plan,
            final(self).is_loaded == old(self).is_loaded,
            ends(final(self)@, r, result),
    {
        self.stage = RepairStage::Finished;
        RepairAction::Finish(result)
    }

    /// The first checks, behind the guard.
    fn enter(&mut self) -> (r: RepairAction)
        ensures
            final(self).inv(),
            final(self).plan == old(self).plan,
            final(self).is_loaded == old(self).is_loaded,
            admits(old(self).plan, old(self)@, final(self)@, r),
    {
        if self.plan.unlock_hive {
            return self.finish(Err(RepairError::AutomaticUnlockUnsupported));
        }
        if !self.plan.fix_bak && !self.plan.reset_state {
            return self.finish(Err(RepairError::NoActionSelected));
        }
        match lock_inspection_target(&self.plan) {
            Ok(path) => {
                self.stage = RepairStage::FirstLocks;
                RepairAction::InspectLocks { ntuser_path: path }
            },
            Err(e) => self.finish(Err(e)),
        }
    }

    fn save_next(&mut self) -> (r: RepairAction)
        requires
            old(self).captured <= old(self).required@.len(),
            !old(self).plan.dry_run,
            !old(self).plan.unlock_hive,
            selects_action(old(self).plan),
            has_hive_place(old(self).plan),
            !old(self).is_loaded,
            saves_what_changes(old(self).plan, texts(old(self).required@)),
        ensures
            final(self).inv(),
            final(self).plan == old(self).plan,
            final(self).is_loaded == old(self).is_loaded,
            saves_next(old(self)@, final(self)@, r),
    {
        if self.captured < self.required.len() {
            self.stage = RepairStage::Snapshot;
            assert(self@.required[self.captured as int] == self.required@[self.captured as int]@);
            RepairAction::CaptureSnapshot { path: owned(self.required[self.captured].as_str()) }
        } else {
            let count = dec(self.required.len() as u64);
            self.stage = RepairStage::AuditStarted;
            RepairAction::Audit {
                operation: "RepairStarted",
                status: AuditStatus::Warning,
                details: cat3("Validated repair with ", count.as_str(), " durable snapshot(s)"),
            }
        }
    }

    fn reset(&mut self) -> (r: RepairAction)
        requires
            old(self).is_secured(),
        ensures
            final(self).inv(),
            final(self).plan == old(self).plan,
            final(self).is_loaded == old(self).is_loaded,
            resets(old(self).plan, old(self)@, final(self)@, r),
    {
        if self.plan.reset_state {
            self.stage = RepairStage::OpenCanonical;
            RepairAction::OpenKey { name: owned(self.plan.canonical_sid.as_str()) }
        } else {
            self.stage = RepairStage::Verify;
            RepairAction::ReadBack
        }
    }

    fn restore_next(&mut self) -> (r: RepairAction)
        requires
            old(self).is_secured(),
            old(self).cause is Some,
            old(self).restored <= old(self).required@.len(),
        ensures
            final(self).inv(),
            final(self).plan == old(self).plan,
            final(self).is_loaded == old(self).is_loaded,
            restores_next(old(self)@, final(self)@, r),
    {
        if self.restored < self.required.len() {
            self.stage = RepairStage::RestoreSnapshot;
            assert(self@.required[self.restored as int] == self.required@[self.restored as int]@);
            RepairAction::RestoreSnapshot {
                index: self.restored,
                path: cat2("HKLM\\", self.required[self.restored].as_str()),
            }
        } else {
            let (status, details) = rollback_summary(self.required.len(), &self.errors);
            self.stage = RepairStage::AuditSummary;
            RepairAction::Audit {
                operation: "RepairRollbackSummary",
                status: status,
                details: details,
            }
        }
    }

    fn roll_canonical(&mut self) -> (r: RepairAction)
        requires
            old(self).is_secured(),
            old(self).cause is Some,
            old(self).restored <= old(self).required@.len(),
        ensures
            final(self).inv(),
            final(self).plan == old(self).plan,
            final(self).is_loaded == old(self).is_loaded,
            rolls_canonical(old(self)@, final(self)@, r),
    {
        match &self.canonical_backup {
            Some(name) => {
                let key = owned(name.as_str());
                self.stage = RepairStage::RollCanonicalCheck;
                RepairAction::CheckKey { name: key }
            },
            None => self.restore_next(),
        }
    }

    fn take_back(&mut self, cause: RepairError, after_success: bool) -> (r: RepairAction)
        requires
            old(self).is_secured(),
        ensures
            final(self).inv(),
            final(self).plan == old(self).plan,
            final(self).is_loaded == old(self).is_loaded,
            takes_back(old(self).plan, old(self)@, final(self)@, r, cause, after_success),
    {
        self.cause = Some(cause);
        self.after_success = after_success;
        self.errors = Vec::new();
        self.restored = 0;
        assert(texts(self.errors@) =~= Seq::<Seq<char>>::empty());
        if self.bak_moved {
            self.stage = RepairStage::RollBakCheck;
            RepairAction::CheckKey { name: owned(self.plan.canonical_sid.as_str()) }
        } else {
            self.roll_canonical()
        }
    }

    fn push_error(&mut self, label: &str, reason: &str)
        ensures
            final(self)@ == with_error(old(self)@, label@ + reason@),
            final(self).plan == old(self).plan,
            final(self).is_loaded == old(self).is_loaded,
            final(self).required == old(self).required,
            final(self).captured == old(self).captured,
            final(self).cause == old(self).cause,
            final(self).restored == old(self).restored,
            final(self).stage == old(self).stage,
            final(self).after_success == old(self).after_success,
            final(self).canonical_backup == old(self).canonical_backup,
    {
        let text = cat2(label, reason);
        self.errors.push(text);
        assert(self@ =~= with_error(old(self)@, label@ + reason@));
    }

    fn make_bak_name(&self) -> (r: String)
        ensures
            r@ == bak_name(self.plan),
    {
        cat2(self.plan.canonical_sid.as_str(), crate::constants::BAK_EXTENSION)
    }

    fn step_inspected(&mut self, inspection: Result<Vec<ManualCloseBlocker>, String>) -> (r:
        RepairAction)
        requires
            old(self).inv(),
            old(self).stage is FirstLocks || old(self).stage is SecondLocks,
        ensures
            final(self).inv(),
            final(self).plan == old(self).plan,
            final(self).is_loaded == old(self).is_loaded,
            repair_follows(
                old(self).plan,
                old(self).is_loaded,
                old(self)@,
                RepairEvent::Inspected(inspection),
                final(self)@,
                r,
            ),
            !r.mutates(),
    {
        match validate_lock_contract(inspection) {
            Ok(()) => {},
            Err(e) => {
                return self.finish(Err(e));
            },
        }
        match self.stage {
            RepairStage::FirstLocks => {
                self.stage = RepairStage::Observe;
                RepairAction::Observe
            },
            _ => {
                if self.plan.dry_run {
                    self.stage = RepairStage::AuditDryRun;
                    RepairAction::Audit {
                        operation: "RepairDryRun",
                        status: AuditStatus::Success,
                        details: owned(self.validation.as_str()),
                    }
                } else if self.plan.fix_bak {
                    self.stage = RepairStage::CheckSnapshotTarget;
                    RepairAction::CheckKey { name: owned(self.plan.canonical_sid.as_str()) }
                } else {
                    self.required = required_snapshots(&self.plan, true);
                    self.captured = 0;
                    assert(texts(self.required@) == snapshot_paths(self.plan, true));
                    self.save_next()
                }
            },
        }
    }

    fn step_audited(&mut self, outcome: Result<(), String>) -> (r: RepairAction)
        requires
            old(self).inv(),
            old(self).stage.expects(RepairEvent::Audited(outcome)),
        ensures
            final(self).inv(),
            final(self).plan == old(self).plan,
            final(self).is_loaded == old(self).is_loaded,
            repair_follows(
                old(self).plan,
                old(self).is_loaded,
                old(self)@,
                RepairEvent::Audited(outcome),
                final(self)@,
                r,
            ),
            r.mutates() ==> final(self).is_secured(),
    {
        match self.stage {
            RepairStage::AuditDryRun => match outcome {
                Ok(()) => self.finish(Ok(())),
                Err(reason) => self.finish(Err(RepairError::AuditError(reason))),
            },
            RepairStage::AuditStarted => match outcome {
                Ok(()) => {
                    self.stage = RepairStage::OpenList;
                    RepairAction::OpenProfileList { subkey: REG_KEY_PROFILE_LIST }
                },
                Err(reason) => self.finish(Err(RepairError::AuditError(reason))),
            },
            RepairStage::AuditSuccess => match outcome {
                Ok(()) => self.finish(Ok(())),
                Err(reason) => self.take_back(RepairError::AuditError(reason), true),
            },
            RepairStage::AuditSummary => {
                match outcome {
                    Ok(()) => {},
                    Err(reason) => {
                        self.push_error("rollback summary audit: ", reason.as_str());
                    },
                }
                if self.errors.len() == 0 {
                    if self.after_success {
                        let cause = self.cause.take().unwrap();
                        self.finish(Err(cause))
                    } else {
                        let reason = match &self.cause {
                            Some(cause) => cause.message(),
                            None => String::new(),
                        };
                        self.stage = RepairStage::AuditFailed;
                        RepairAction::Audit {
                            operation: "RepairFailed",
                            status: AuditStatus::RolledBack,
                            details: cat2(
                                "Repair failed and rollback completed: ",
                                reason.as_str(),
                            ),
                        }
                    }
                } else if self.after_success {
                    let list = join(&self.errors, "; ");
                    self.finish(Err(RepairError::RollbackError(RollbackError::Aggregate(list))))
                } else {
                    let reason = self.incomplete_reason();
                    self.stage = RepairStage::AuditRollbackFailed;
                    RepairAction::Audit {
                        operation: "RepairRollbackFailed",
                        status: AuditStatus::Failed,
                        details: reason,
                    }
                }
            },
            RepairStage::AuditFailed => match outcome {
                Ok(()) => {
                    let cause = self.cause.take().unwrap();
                    self.finish(Err(cause))
                },
                Err(reason) => self.finish(Err(RepairError::AuditError(reason))),
            },
            _ => {
                let reason = self.incomplete_reason();
                let reason = match outcome {
                    Ok(()) => reason,
                    Err(audit) => cat3(reason.as_str(), "; audit error: ", audit.as_str()),
                };
                self.finish(
                    Err(RepairError::TransactionFailed { step: owned("Rollback"), reason: reason }),
                )
            },
        }
    }

    fn incomplete_reason(&self) -> (r: String)
        requires
            self.cause is Some,
        ensures
            r@ == self@.rollback_reason(),
    {
        let cause = match &self.cause {
            Some(cause) => cause.message(),
            None => String::new(),
        };
        let list = join(&self.errors, "; ");
        let steps = cat2("one or more rollback steps failed: ", list.as_str());
        cat5(
            "original error: ",
            cause.as_str(),
            "; rollback error: ",
            "Rollback failed: ",
            steps.as_str(),
        )
    }

    fn step_exists(&mut self, outcome: Result<bool, RegistryError>) -> (r: RepairAction)
        requires
            old(self).inv(),
            old(self).stage.expects(RepairEvent::Exists(outcome)),
        ensures
            final(self).inv(),
            final(self).plan == old(self).plan,
            final(self).is_loaded == old(self).is_loaded,
            repair_follows(
                old(self).plan,
                old(self).is_loaded,
                old(self)@,
                RepairEvent::Exists(outcome),
                final(self)@,
                r,
            ),
            r.mutates() ==> final(self).is_secured(),
    {
        match self.stage {
            RepairStage::CheckSnapshotTarget => match outcome {
                Ok(present) => {
                    self.required = required_snapshots(&self.plan, present);
                    self.captured = 0;
                    assert(texts(self.required@) == snapshot_paths(self.plan, present));
                    self.save_next()
                },
                Err(e) => self.finish(Err(RepairError::RegistryError(e))),
            },
            RepairStage::CheckBackup => match outcome {
                Ok(true) => {
                    let e = RepairError::TransactionFailed {
                        step: owned("RegistryRename"),
                        reason: cat2("backup key already exists: ", self.backup_name.as_str()),
                    };
                    self.take_back(e, false)
                },
                Ok(false) => {
                    self.stage = RepairStage::RenameCanonical;
                    RepairAction::RenameKey {
                        from: owned(self.plan.canonical_sid.as_str()),
                        to: owned(self.backup_name.as_str()),
                    }
                },
                Err(e) => self.take_back(RepairError::RegistryError(e), false),
            },
            RepairStage::RollBakCheck => match outcome {
                Ok(true) => {
                    self.stage = RepairStage::RollBakRename;
                    RepairAction::RenameKey {
                        from: owned(self.plan.canonical_sid.as_str()),
                        to: self.make_bak_name(),
                    }
                },
                Ok(false) => self.roll_canonical(),
                Err(e) => {
                    let reason = e.message();
                    self.push_error("inspect canonical key: ", reason.as_str());
                    self.roll_canonical()
                },
            },
            _ => match outcome {
                Ok(true) => {
                    let from = match &self.canonical_backup {
                        Some(name) => owned(name.as_str()),
                        None => String::new(),
                    };
                    self.stage = RepairStage::RollCanonicalRename;
                    RepairAction::RenameKey {
                        from: from,
                        to: owned(self.plan.canonical_sid.as_str()),
                    }
                },
                Ok(false) => self.restore_next(),
                Err(e) => {
                    let reason = e.message();
                    self.push_error("inspect canonical backup: ", reason.as_str());
                    self.restore_next()
                },
            },
        }
    }

    fn step_registry(&mut self, outcome: Result<(), RegistryError>) -> (r: RepairAction)
        requires
            old(self).inv(),
            old(self).stage.expects(RepairEvent::Registry(outcome)),
        ensures
            final(self).inv(),
            final(self).plan == old(self).plan,
            final(self).is_loaded == old(self).is_loaded,
            repair_follows(
                old(self).plan,
                old(self).is_loaded,
                old(self)@,
                RepairEvent::Registry(outcome),
                final(self)@,
                r,
            ),
            r.mutates() ==> final(self).is_secured(),
    {
        match self.stage {
            RepairStage::OpenList => match outcome {
                Ok(()) => {
                    if self.plan.fix_bak {
                        self.stage = RepairStage::CheckCanonical;
                        RepairAction::CheckKey { name: owned(self.plan.canonical_sid.as_str()) }
                    } else {
                        self.reset()
                    }
                },
                Err(e) => self.finish(Err(RepairError::RegistryError(e))),
            },
            RepairStage::RollBakRename => {
                match outcome {
                    Ok(()) => {},
                    Err(e) => {
                        let reason = e.message();
                        self.push_error("restore .bak name: ", reason.as_str());
                    },
                }
                self.roll_canonical()
            },
            RepairStage::RollCanonicalRename => {
                match outcome {
                    Ok(()) => {},
                    Err(e) => {
                        let reason = e.message();
                        self.push_error("restore canonical name: ", reason.as_str());
                    },
                }
                self.restore_next()
            },
            _ => {
                match outcome {
                    Ok(()) => {},
                    Err(e) => {
                        return self.take_back(RepairError::RegistryError(e), false);
                    },
                }
                match self.stage {
                    RepairStage::RenameCanonical => {
                        self.canonical_backup = Some(owned(self.backup_name.as_str()));
                        self.stage = RepairStage::RenameBak;
                        RepairAction::RenameKey {
                            from: self.make_bak_name(),
                            to: owned(self.plan.canonical_sid.as_str()),
                        }
                    },
                    RepairStage::RenameBak => {
                        self.bak_moved = true;
                        self.reset()
                    },
                    RepairStage::OpenCanonical => {
                        self.stage = RepairStage::SetState;
                        RepairAction::SetValue { value_name: VAL_STATE, value: 0 }
                    },
                    RepairStage::SetState => {
                        self.stage = RepairStage::SetRefCount;
                        RepairAction::SetValue { value_name: VAL_REF_COUNT, value: 0 }
                    },
                    _ => {
                        self.stage = RepairStage::Verify;
                        RepairAction::ReadBack
                    },
                }
            },
        }
    }

    fn step_observed(&mut self, found: PlanObservation) -> (r: RepairAction)
        requires
            old(self).inv(),
            old(self).stage.expects(RepairEvent::Observed(found)),
        ensures
            final(self).inv(),
            final(self).plan == old(self).plan,
            final(self).is_loaded == old(self).is_loaded,
            repair_follows(
                old(self).plan,
                old(self).is_loaded,
                old(self)@,
                RepairEvent::Observed(found),
                final(self)@,
                r,
            ),
            r.mutates() ==> final(self).is_secured(),
    {
        match validate_plan(&self.plan, self.is_loaded, found) {
            Ok(validation) => {
                self.validation = validation;
                match lock_inspection_target(&self.plan) {
                    Ok(path) => {
                        self.stage = RepairStage::SecondLocks;
                        RepairAction::InspectLocks { ntuser_path: path }
                    },
                    Err(e) => self.finish(Err(e)),
                }
            },
            Err(e) => self.finish(Err(e)),
        }
    }

    fn step_exists_at(
        &mut self,
        outcome: Result<bool, RegistryError>,
        stamp: Stamp,
    ) -> (r: RepairAction)
        requires
            old(self).inv(),
            old(self).stage.expects(RepairEvent::ExistsAt(outcome, stamp)),
        ensures
            final(self).inv(),
            final(self).plan == old(self).plan,
            final(self).is_loaded == old(self).is_loaded,
            repair_follows(
                old(self).plan,
                old(self).is_loaded,
                old(self)@,
                RepairEvent::ExistsAt(outcome, stamp),
                final(self)@,
                r,
            ),
            r.mutates() ==> final(self).is_secured(),
    {
        match outcome {
            Ok(true) => {
                let name = cat5(
                    self.plan.canonical_sid.as_str(),
                    ".",
                    BACKUP_SUFFIX,
                    "-",
                    stamp.text.as_str(),
                );
                self.backup_name = owned(name.as_str());
                self.stage = RepairStage::CheckBackup;
                RepairAction::CheckKey { name: name }
            },
            Ok(false) => {
                self.stage = RepairStage::RenameBak;
                RepairAction::RenameKey {
                    from: self.make_bak_name(),
                    to: owned(self.plan.canonical_sid.as_str()),
                }
            },
            Err(e) => self.take_back(RepairError::RegistryError(e), false),
        }
    }

    fn step_captured(&mut self, outcome: Result<(), SnapshotError>) -> (r: RepairAction)
        requires
            old(self).inv(),
            old(self).stage.expects(RepairEvent::Captured(outcome)),
        ensures
            final(self).inv(),
            final(self).plan == old(self).plan,
            final(self).is_loaded == old(self).is_loaded,
            repair_follows(
                old(self).plan,
                old(self).is_loaded,
                old(self)@,
                RepairEvent::Captured(outcome),
                final(self)@,
                r,
            ),
            r.mutates() ==> final(self).is_secured(),
    {
        match outcome {
            Ok(()) => {
                assert(self.required.len() <= usize::MAX);
                self.captured += 1;
                self.save_next()
            },
            Err(e) => self.finish(Err(RepairError::SnapshotError(e))),
        }
    }

    fn step_verified(&mut self, found: VerifyObservation) -> (r: RepairAction)
        requires
            old(self).inv(),
            old(self).stage.expects(RepairEvent::Verified(found)),
        ensures
            final(self).inv(),
            final(self).plan == old(self).plan,
            final(self).is_loaded == old(self).is_loaded,
            repair_follows(
                old(self).plan,
                old(self).is_loaded,
                old(self)@,
                RepairEvent::Verified(found),
                final(self)@,
                r,
            ),
            r.mutates() ==> final(self).is_secured(),
    {
        match verify(&self.plan, found) {
            Ok(()) => {
                let kept = match &self.canonical_backup {
                    Some(name) => owned(name.as_str()),
                    None => owned("none"),
                };
                self.stage = RepairStage::AuditSuccess;
                RepairAction::Audit {
                    operation: "RepairSuccess",
                    status: AuditStatus::Success,
                    details: cat2(
                        "Repair verified; preserved prior canonical key: ",
                        kept.as_str(),
                    ),
                }
            },
            Err(e) => self.take_back(e, false),
        }
    }

    fn step_restored(&mut self, outcome: Result<(), RollbackError>) -> (r: RepairAction)
        requires
            old(self).inv(),
            old(self).stage.expects(RepairEvent::Restored(outcome)),
        ensures
            final(self).inv(),
            final(self).plan == old(self).plan,
            final(self).is_loaded == old(self).is_loaded,
            repair_follows(
                old(self).plan,
                old(self).is_loaded,
                old(self)@,
                RepairEvent::Restored(outcome),
                final(self)@,
                r,
            ),
            r.mutates() ==> final(self).is_secured(),
    {
        let at: usize = self.restored;
        let ghost m = self@;
        self.restored += 1;
        match outcome {
            Ok(()) => {},
            Err(e) => {
                assert(m.required[at as int] == self.required@[at as int]@);
                let key = cat2("HKLM\\", self.required[at].as_str());
                let label = cat3("restore ", key.as_str(), ": ");
                let reason = e.message();
                self.push_error(label.as_str(), reason.as_str());
            },
        }
        self.restore_next()
    }

    /// The audit entry that an action of the run asks for.
    pub fn audit_entry(
        &self,
        operation: &str,
        status: AuditStatus,
        details: String,
        timestamp: UtcTime,
    ) -> (r: AuditEntry)
        ensures
            r@ == admin_model(
                operation@,
                self.plan.canonical_sid@,
                status,
                details@,
                timestamp,
            ),
    {
        admin_entry(operation, self.plan.canonical_sid.as_str(), status, details, timestamp)
    }

    /// Takes the outcome of the last action and decides the next.
    ///
    /// Nothing in the profile list is changed unless the run is no rehearsal, its
    /// checks passed and every key that it changes is saved; a repair that fails
    /// after that tries to restore every saved key before it ends.
    #[verifier::spinoff_prover]
    pub fn step(&mut self, event: RepairEvent) -> (r: RepairAction)
        requires
            old(self).inv(),
            old(self).stage.expects(event),
        ensures
            final(self).inv(),
            final(self).plan == old(self).plan,
            final(self).is_loaded == old(self).is_loaded,
            repair_follows(
                old(self).plan,
                old(self).is_loaded,
                old(self)@,
                event,
                final(self)@,
                r,
            ),
            r.mutates() ==> final(self).is_secured(),
            r.mutates() || r is CaptureSnapshot || r is OpenProfileList ==> !old(self).plan.dry_run,
            r matches RepairAction::Finish(Err(_)) ==> !old(self).stage.is_carried_out(),
            r is Finish && old(self).stage.is_taken_back() ==> old(self).restored
                == old(self).required@.len(),
    {
        match event {
            RepairEvent::Guarded(Ok(())) => self.enter(),
            RepairEvent::Guarded(Err(reason)) => self.finish(Err(RepairError::AuditError(reason))),
            RepairEvent::Inspected(inspection) => self.step_inspected(inspection),
            RepairEvent::Observed(found) => self.step_observed(found),
            RepairEvent::Audited(outcome) => self.step_audited(outcome),
            RepairEvent::Exists(outcome) => self.step_exists(outcome),
            RepairEvent::ExistsAt(outcome, stamp) => self.step_exists_at(outcome, stamp),
            RepairEvent::Captured(outcome) => self.step_captured(outcome),
            RepairEvent::Registry(outcome) => self.step_registry(outcome),
            RepairEvent::Verified(found) => self.step_verified(found),
            RepairEvent::Restored(outcome) => self.step_restored(outcome),
        }
    }
}

/// The repair of profiles.
pub struct ProfileRepairEngine;

impl ProfileRepairEngine {
    /// Starts the repair of a plan, and gives its first action: the operation guard, or
    /// the checks where the repair is only rehearsed.
    pub fn execute_plan(plan: RepairPlan, is_loaded: bool) -> (r: (RepairRun, RepairAction))
        ensures
            r.0.inv(),
            r.0.plan == plan,
            r.0.is_loaded == is_loaded,
            !plan.dry_run ==> r.0@ == RepairModel::fresh() && r.1 is AcquireGuard,
            plan.dry_run ==> admits(plan, RepairModel::fresh(), r.0@, r.1),
            !r.1.mutates(),
    {
        RepairRun::new(plan, is_loaded)
    }
}

/// A rehearsal checks what the repair checks: on the same answers both are refused or
/// both go on, the same way up to the last of the checks.
pub proof fn a_rehearsal_checks_what_a_repair_checks(
    plan: RepairPlan,
    is_loaded: bool,
    m: RepairModel,
    event: RepairEvent,
    repaired: (RepairModel, RepairAction),
    rehearsed: (RepairModel, RepairAction),
)
    requires
        m.stage is FirstLocks || m.stage is Observe || m.stage is SecondLocks,
        m.stage.expects(event),
        repair_follows(
            RepairPlan { dry_run: false, ..plan },
            is_loaded,
            m,
            event,
            repaired.0,
            repaired.1,
        ),
        repair_follows(
            RepairPlan { dry_run: true, ..plan },
            is_loaded,
            m,
            event,
            rehearsed.0,
            rehearsed.1,
        ),
    ensures
        repaired.1 is Finish == rehearsed.1 is Finish,
        repaired.1 matches RepairAction::Finish(r) ==> r is Err,
        rehearsed.1 matches RepairAction::Finish(r) ==> r is Err,
        !(repaired.1 is Finish) && !(m.stage is SecondLocks) ==> repaired.0 == rehearsed.0,
        !repaired.1.mutates() && !rehearsed.1.mutates(),
{
}

/// Whether a run that takes a repair back, told of these restorations one after the other,
/// is then in a given state.
pub open spec fn restores_through(
    plan: RepairPlan,
    is_loaded: bool,
    m: RepairModel,
    outcomes: Seq<Result<(), RollbackError>>,
    n: RepairModel,
) -> bool
    decreases outcomes.len(),
{
    if outcomes.len() == 0 {
        n == m
    } else {
        exists|before: RepairModel, action: RepairAction| #[trigger]
            repair_follows(
                plan,
                is_loaded,
                before,
                RepairEvent::Restored(outcomes.last()),
                n,
                action,
            ) && before.stage is RestoreSnapshot && restores_through(
                plan,
                is_loaded,
                m,
                outcomes.drop_last(),
                before,
            )
    }
}

/// What is said of restorations, each of the key that it was for.
pub open spec fn restore_failures(
    keys: Seq<Seq<char>>,
    outcomes: Seq<Result<(), RollbackError>>,
) -> Seq<Option<Seq<char>>> {
    outcomes.map(|i: int, outcome: Result<(), RollbackError>| restore_failure(keys[i], outcome))
}

proof fn lemma_restorations_are_gathered(
    plan: RepairPlan,
    is_loaded: bool,
    m: RepairModel,
    outcomes: Seq<Result<(), RollbackError>>,
    n: RepairModel,
)
    requires
        m.stage is RestoreSnapshot,
        m.restored == 0,
        m.required.len() > 0,
        restores_through(plan, is_loaded, m, outcomes, n),
    ensures
        n.required == m.required,
        n.restored == outcomes.len(),
        n.stage is RestoreSnapshot ==> outcomes.len() < m.required.len(),
        n.stage is AuditSummary ==> outcomes.len() == m.required.len(),
        n.stage is RestoreSnapshot || n.stage is AuditSummary,
        n.errors == with_failures(m.errors, restore_failures(m.required, outcomes)),
    decreases outcomes.len(),
{
    let said = restore_failures(m.required, outcomes);
    if outcomes.len() > 0 {
        let (before, action) = choose|before: RepairModel, action: RepairAction| #[trigger]
            repair_follows(
                plan,
                is_loaded,
                before,
                RepairEvent::Restored(outcomes.last()),
                n,
                action,
            ) && before.stage is RestoreSnapshot && restores_through(
                plan,
                is_loaded,
                m,
                outcomes.drop_last(),
                before,
            );
        lemma_restorations_are_gathered(plan, is_loaded, m, outcomes.drop_last(), before);
        assert(said.drop_last() =~= restore_failures(m.required, outcomes.drop_last()));
        assert(said.last() == restore_failure(
            m.required[outcomes.len() - 1],
            outcomes.last(),
        ));
    }
}

/// A rollback tries every snapshot before its summary is written, whatever fails, and
/// closes with the errors of all restorations, in order, and of the audit: what
/// [`crate::repair::attempt_all_then_audit`] gathers.
pub proof fn a_rollback_gathers_every_failure(
    plan: RepairPlan,
    is_loaded: bool,
    m: RepairModel,
    outcomes: Seq<Result<(), RollbackError>>,
    n: RepairModel,
    audit: Result<(), String>,
)
    requires
        m.stage is RestoreSnapshot,
        m.restored == 0,
        m.required.len() > 0,
        restores_through(plan, is_loaded, m, outcomes, n),
        n.stage is AuditSummary,
    ensures
        outcomes.len() == m.required.len(),
        with_failure(n, summary_failure(audit)).errors == all_errors(
            m.errors,
            restore_failures(m.required, outcomes),
            summary_failure(audit),
        ),
{
    lemma_restorations_are_gathered(plan, is_loaded, m, outcomes, n);
    let said = restore_failures(m.required, outcomes);
    assert(said.push(summary_failure(audit)).drop_last() =~= said);
}

} // verus!
