//! The run of a migration: what is done next, given the outcome of what was done.
use crate::clock::UtcTime;
use crate::constants::APPDATA_ROAMING_REL_PATH;
use crate::copying::{
    file_copy_follows, CopyTransaction, FileCopy, FileCopyAction, FileCopyEvent, FileCopyModel,
    FileCopyStage, FileCopyStep, MigrationPhase, MigrationProgress, MigrationReceipt,
    ProgressModel, TransactionModel,
};
use crate::copying::{manifest_bytes, manifest_size};
use crate::hashing::sha256_text;
use crate::journal::{admin_entry, admin_model, AuditEntry, AuditStatus};
use crate::migration::{
    is_clear, is_sound_plan, map_secure_error, maps_to, plan_error, validate_for_execution,
    MigrationError, MigrationObservation, ValidatedMigration,
};
use crate::models::{opt_text, MigrationPlan};
use crate::paths::{drive_leaf, drive_parent, join_path, path_join};
use crate::restart_manager::{decode_utf16_lossy, utf16_chars_lossy};
use crate::scanner::saturated;
use crate::secure_fs::{copy_units, EntryModel, SecureDirEntry, SecureEntryKind, SecureFsError};
use crate::text::{cat4, cat6, dec, decimal, join, joined, owned, split, split_chars, texts};
use vstd::prelude::*;

verus! {

/// Where the keys of a profile's protected secrets lie, below its directory.
pub const DPAPI_RELATIVE_PATH: &'static str = r"AppData\Roaming\Microsoft\Protect";

pub const DPAPI_WARNING: &'static str =
    "DPAPI material detected; SID-bound secrets are copied but may not decrypt under the destination account.";

/// What the run is waiting for.
#[derive(Debug, Clone, Copy, PartialEq, Eq, Structural)]
pub enum RunStage {
    Guard,
    Observe,
    AuditStart,
    CreateTarget,
    CompareRoots,
    ProbeDpapi,
    AuditDpapi,
    PollRoot,
    OpenSourceRoot,
    EnsureTargetRoot,
    List,
    PollEntry,
    OpenSourceChild,
    EnsureTargetChild,
    CopyFile,
    Leave,
    PollBeforeReceipt,
    PollAfterReceipt,
    PollBeforeAudit,
    AuditSuccess,
    Remove,
    AuditRollbackFailed,
    AuditRolledBack,
    Finished,
}

/// The outcome of what was asked for.
pub enum RunEvent {
    Guarded(Result<(), String>),
    Observed(MigrationObservation),
    Audited(Result<(), String>),
    /// The target was created, or a source directory opened.
    Opened(Result<(), SecureFsError>),
    /// Whether the opened roots overlap, by identity.
    Compared(bool),
    /// A component of the directory of protected secrets was opened.
    Probed(Result<(), SecureFsError>),
    Polled(bool),
    /// A target directory is there; whether it was created.
    Ensured(Result<bool, SecureFsError>),
    /// The entries of the source directory in use, in order.
    Listed(Result<Vec<SecureDirEntry>, SecureFsError>),
    File(FileCopyEvent),
    Left,
    Removed(Result<(), SecureFsError>),
}

/// What is to be done next.
#[derive(Debug)]
pub enum RunAction {
    /// Inspect the places that the plan names.
    Observe,
    Audit { operation: &'static str, status: AuditStatus, details: String },
    /// Create the target, which must not be there yet, under this name in this directory.
    CreateTarget { parent: String, leaf: String },
    CompareRoots,
    /// Open a component of the directory of protected secrets below the source; the
    /// first starts at the source directory itself.
    ProbeDpapi { component: String, first: bool },
    PollCancellation,
    /// Open a component of a selected root below the source; the first starts at
    /// the source directory itself.
    OpenSourceRoot { component: String, first: bool },
    /// Open or create that component below the target.
    EnsureTargetRoot { component: String, first: bool },
    ListSource,
    OpenSourceChild { name: Vec<u16> },
    EnsureTargetChild { name: Vec<u16> },
    OpenFile { name: Vec<u16> },
    File(FileCopyAction),
    /// Go back to the directory that holds the one in use.
    Leave,
    /// Remove the entry that was created last of those still there.
    Remove { path: String },
    Finish(Result<MigrationReceipt, MigrationError>),
}

pub struct RunStep {
    pub progress: Option<MigrationProgress>,
    pub action: RunAction,
}

/// A source directory in use.
pub struct Frame {
    pub relative: String,
    pub entries: Vec<SecureDirEntry>,
    pub next: usize,
}

#[verifier::ext_equal]
pub struct FrameModel {
    pub relative: Seq<char>,
    pub entries: Seq<EntryModel>,
    pub next: nat,
}

impl View for Frame {
    type V = FrameModel;

    open spec fn view(&self) -> FrameModel {
        FrameModel {
            relative: self.relative@,
            entries: crate::secure_fs::entry_models(self.entries@),
            next: self.next as nat,
        }
    }
}

pub open spec fn frame_models(v: Seq<Frame>) -> Seq<FrameModel> {
    v.map_values(|f: Frame| f@)
}

/// Whether no directory in use is read past its end.
pub open spec fn frames_in_range(frames: Seq<FrameModel>) -> bool {
    forall|i: int| 0 <= i < frames.len() ==> (#[trigger] frames[i]).next <= frames[i].entries.len()
}

/// The run of a migration.
pub struct MigrationRun {
    pub plan: MigrationPlan,
    pub stage: RunStage,
    pub validated: Option<ValidatedMigration>,
    pub roots: Vec<String>,
    pub root: usize,
    pub component: usize,
    pub frames: Vec<Frame>,
    /// The entry in hand.
    pub name: Vec<u16>,
    /// The relative path of the entry in hand.
    pub path: String,
    pub file: Option<FileCopy>,
    pub tx: CopyTransaction,
    pub receipt: Option<MigrationReceipt>,
    pub error: Option<MigrationError>,
    pub rollback_error: Option<String>,
}

#[verifier::ext_equal]
pub struct RunModel {
    pub stage: RunStage,
    pub roots: Seq<Seq<char>>,
    pub root: nat,
    pub component: nat,
    pub frames: Seq<FrameModel>,
    pub name: Seq<u16>,
    pub path: Seq<char>,
    pub file: Option<FileCopyModel>,
    pub tx: TransactionModel,
    pub receipt: Option<MigrationReceipt>,
    pub error: Option<MigrationError>,
    pub rollback_error: Option<Seq<char>>,
}

impl View for MigrationRun {
    type V = RunModel;

    open spec fn view(&self) -> RunModel {
        RunModel {
            stage: self.stage,
            roots: texts(self.roots@),
            root: self.root as nat,
            component: self.component as nat,
            frames: frame_models(self.frames@),
            name: self.name@,
            path: self.path@,
            file: match self.file {
                Some(f) => Some(f@),
                None => None,
            },
            tx: self.tx@,
            receipt: self.receipt,
            error: self.error,
            rollback_error: opt_text(self.rollback_error),
        }
    }
}

/// The roots that a plan selects, in the order in which they are copied.
pub open spec fn selected_roots(plan: MigrationPlan) -> Seq<Seq<char>> {
    (if plan.include_roaming_appdata {
        seq![APPDATA_ROAMING_REL_PATH@]
    } else {
        Seq::<Seq<char>>::empty()
    }) + (if plan.include_personal_folders {
        seq!["Documents"@, "Desktop"@, "Downloads"@, "Favorites"@, "Pictures"@]
    } else {
        Seq::<Seq<char>>::empty()
    })
}

/// The components of a selected root.
pub open spec fn root_components(root: Seq<char>) -> Seq<Seq<char>> {
    split(root, '\\')
}

/// The part of a root up to a component.
pub open spec fn root_prefix(root: Seq<char>, component: nat) -> Seq<char> {
    joined(root_components(root).take(component as int + 1), seq!['\\'])
}

impl RunStage {
    /// Whether an event answers what a stage is waiting for.
    pub open spec fn expects(self, event: RunEvent) -> bool {
        match self {
            RunStage::Guard => event is Guarded,
            RunStage::Observe => event is Observed,
            RunStage::AuditStart | RunStage::AuditDpapi | RunStage::AuditSuccess
            | RunStage::AuditRollbackFailed | RunStage::AuditRolledBack => event is Audited,
            RunStage::CreateTarget | RunStage::OpenSourceRoot | RunStage::OpenSourceChild =>
                event is Opened,
            RunStage::CompareRoots => event is Compared,
            RunStage::ProbeDpapi => event is Probed,
            RunStage::PollRoot | RunStage::PollEntry | RunStage::PollBeforeReceipt
            | RunStage::PollAfterReceipt | RunStage::PollBeforeAudit => event is Polled,
            RunStage::EnsureTargetRoot | RunStage::EnsureTargetChild => event is Ensured,
            RunStage::List => event is Listed,
            RunStage::CopyFile => event is File,
            RunStage::Leave => event is Left,
            RunStage::Remove => event is Removed,
            RunStage::Finished => false,
        }
    }

    /// Whether the target may have been created and nothing is being taken back.
    pub open spec fn is_copying(self) -> bool {
        match self {
            RunStage::CompareRoots | RunStage::ProbeDpapi | RunStage::AuditDpapi
            | RunStage::PollRoot | RunStage::OpenSourceRoot | RunStage::EnsureTargetRoot
            | RunStage::List | RunStage::PollEntry | RunStage::OpenSourceChild
            | RunStage::EnsureTargetChild | RunStage::CopyFile | RunStage::Leave
            | RunStage::PollBeforeReceipt | RunStage::PollAfterReceipt | RunStage::PollBeforeAudit
            | RunStage::AuditSuccess => true,
            _ => false,
        }
    }
}

impl RunModel {
    pub open spec fn at(self, stage: RunStage) -> RunModel {
        RunModel { stage: stage, ..self }
    }

    pub open spec fn top(self) -> FrameModel {
        self.frames.last()
    }
}

/// The run of a plan that waits for the operation guard and has done nothing.
pub open spec fn fresh_run(plan: MigrationPlan) -> RunModel {
    RunModel {
        stage: RunStage::Guard,
        roots: selected_roots(plan),
        root: 0,
        component: 0,
        frames: Seq::empty(),
        name: Seq::empty(),
        path: Seq::empty(),
        file: None,
        tx: TransactionModel::fresh(),
        receipt: None,
        error: None,
        rollback_error: None,
    }
}

/// What a receipt says of a transaction.
pub open spec fn receipt_of(tx: TransactionModel, r: MigrationReceipt) -> bool {
    &&& r.copied_files == tx.manifest.len()
    &&& r.copied_bytes == saturated(manifest_size(tx.manifest))
    &&& r.manifest_sha256@ == sha256_text(manifest_bytes(tx.manifest))
    &&& r.manifest_sha256@.len() == 64
}

pub open spec fn quiet(step: RunStep) -> bool {
    step.progress is None
}

/// The run turns back because of an error: progress says so, and the entries that
/// were created are removed, the last first.
pub open spec fn turns_back(m: RunModel, n: RunModel, step: RunStep, error: MigrationError) -> bool {
    &&& step.progress matches Some(p) && p@ == (ProgressModel {
        phase: MigrationPhase::RollingBack,
        relative_path: m.tx.last_path,
        completed_files: m.tx.manifest.len(),
        copied_bytes: m.tx.copied_bytes(),
    })
    &&& removes_next(RunModel { file: None, error: Some(error), ..m }, n, step)
}

/// Removes the next entry, or closes the rollback where none is left.
pub open spec fn removes_next(m: RunModel, n: RunModel, step: RunStep) -> bool {
    if m.tx.created.len() > 0 {
        &&& n == (RunModel {
            stage: RunStage::Remove,
            tx: TransactionModel { created: m.tx.created.drop_last(), ..m.tx },
            ..m
        })
        &&& step.action matches RunAction::Remove { path } && path@ == m.tx.created.last()
    } else if m.rollback_error is Some {
        &&& n == m.at(RunStage::AuditRollbackFailed)
        &&& audits(
            step.action,
            "MigrationRollbackFailed"@,
            AuditStatus::Failed,
            "Migration rollback failed after '"@ + m.error->0.text() + "': "@
                + m.rollback_error->0,
        )
    } else {
        &&& n == m.at(RunStage::AuditRolledBack)
        &&& audits(
            step.action,
            "MigrationRolledBack"@,
            AuditStatus::RolledBack,
            m.error->0.text(),
        )
    }
}

/// Whether an action writes a given audit entry.
pub open spec fn audits(
    action: RunAction,
    operation: Seq<char>,
    status: AuditStatus,
    details: Seq<char>,
) -> bool {
    action matches RunAction::Audit { operation: o, status: s, details: d } && o@ == operation && s
        == status && d@ == details
}

/// Goes on with the directory in use: its next entry, or back out of it.
pub open spec fn goes_on(m: RunModel, n: RunModel, step: RunStep) -> bool {
    if m.top().next < m.top().entries.len() {
        n == m.at(RunStage::PollEntry) && step.action is PollCancellation
    } else {
        n == (RunModel { stage: RunStage::Leave, frames: m.frames.drop_last(), ..m })
            && step.action is Leave
    }
}

/// Goes on with the root behind the one in hand, or to the receipt.
pub open spec fn goes_to_next_root(m: RunModel, n: RunModel, step: RunStep) -> bool {
    step.action is PollCancellation && (if m.root + 1 < m.roots.len() {
        n == (RunModel { stage: RunStage::PollRoot, root: m.root + 1, component: 0, ..m })
    } else {
        n == (RunModel { stage: RunStage::PollBeforeReceipt, root: m.root + 1, component: 0, ..m })
    })
}

/// Ends the run.
pub open spec fn ends(
    m: RunModel,
    n: RunModel,
    step: RunStep,
    result: Result<MigrationReceipt, MigrationError>,
) -> bool {
    n.stage is Finished && n.tx == m.tx && quiet(step) && step.action == RunAction::Finish(result)
}

/// What follows an event in the run of a migration.
pub open spec fn run_follows(
    plan: MigrationPlan,
    m: RunModel,
    event: RunEvent,
    n: RunModel,
    step: RunStep,
) -> bool {
    match event {
        RunEvent::Guarded(Ok(_)) => n == m.at(RunStage::Observe) && quiet(step)
            && step.action is Observe,
        RunEvent::Guarded(Err(reason)) => ends(m, n, step, Err(MigrationError::Audit(reason))),
        RunEvent::Observed(found) => if is_sound_plan(plan) && is_clear(plan, found) {
            &&& n == m.at(RunStage::AuditStart)
            &&& quiet(step)
            &&& audits(
                step.action,
                "MigrationStarted"@,
                AuditStatus::Warning,
                "Verified-copy migration started: "@ + plan.source_path@ + " -> "@
                    + plan.target_path@,
            )
        } else {
            n.stage is Finished && n.tx == m.tx && quiet(step) && (step.action matches RunAction::Finish(Err(e))
                && plan_error(plan, found, e))
        },
        RunEvent::Audited(outcome) => match m.stage {
            RunStage::AuditStart => match outcome {
                Ok(_) => n == m.at(RunStage::CreateTarget) && quiet(step) && (
                step.action matches RunAction::CreateTarget { parent, leaf } && drive_parent(
                    plan.target_path@,
                ) == Some(parent@) && drive_leaf(plan.target_path@) == Some(leaf@)),
                Err(reason) => ends(m, n, step, Err(MigrationError::Audit(reason))),
            },
            RunStage::AuditDpapi => match outcome {
                Ok(_) => starts_roots(m, n, step),
                Err(reason) => turns_back(m, n, step, MigrationError::Audit(reason)),
            },
            RunStage::AuditSuccess => match outcome {
                Ok(_) => ends(m, n, step, Ok(m.receipt->0)),
                Err(reason) => turns_back(m, n, step, MigrationError::Audit(reason)),
            },
            RunStage::AuditRollbackFailed => n.stage is Finished && n.tx == m.tx && quiet(step) && (
            step.action matches RunAction::Finish(
                Err(MigrationError::RollbackFailed { operation_error: o, rollback_error: b }),
            ) && o@ == m.error->0.text() && b@ == (match outcome {
                Ok(_) => m.rollback_error->0,
                Err(reason) => m.rollback_error->0 + "; audit logging also failed: "@ + reason@,
            })),
            _ => match outcome {
                Ok(_) => ends(m, n, step, Err(m.error->0)),
                Err(reason) => ends(m, n, step, Err(MigrationError::Audit(reason))),
            },
        },
        RunEvent::Opened(outcome) => match m.stage {
            RunStage::CreateTarget => match outcome {
                Ok(_) => n == (RunModel {
                    stage: RunStage::CompareRoots,
                    tx: m.tx.with_created(plan.target_path@),
                    ..m
                }) && quiet(step) && step.action is CompareRoots,
                Err(error) => exists|e: MigrationError| #[trigger]
                    maps_to(error, e) && turns_back(m, n, step, e),
            },
            RunStage::OpenSourceRoot => match outcome {
                Ok(_) => quiet(step) && opens_next_component(m, n, step),
                Err(error) => if error is NotFound {
                    quiet(step) && goes_to_next_root(m, n, step)
                } else {
                    exists|e: MigrationError| #[trigger]
                        maps_to(error, e) && turns_back(m, n, step, e)
                },
            },
            _ => match outcome {
                Ok(_) => n == m.at(RunStage::EnsureTargetChild) && quiet(step) && (
                step.action matches RunAction::EnsureTargetChild { name } && name@ == m.name),
                Err(error) => exists|e: MigrationError| #[trigger]
                    maps_to(error, e) && turns_back(m, n, step, e),
            },
        },
        RunEvent::Compared(overlap) => if overlap {
            exists|e: MigrationError| #[trigger]
                e.refuses("opened source and destination directory handles overlap"@)
                    && turns_back(m, n, step, e)
        } else {
            quiet(step) && probes(m, 0, n, step)
        },
        RunEvent::Probed(Err(error)) => if error is NotFound {
            starts_roots(m, n, step)
        } else {
            exists|e: MigrationError| #[trigger] maps_to(error, e) && turns_back(m, n, step, e)
        },
        RunEvent::Probed(Ok(_)) => if m.component + 1 < root_components(
            DPAPI_RELATIVE_PATH@,
        ).len() {
            quiet(step) && probes(m, m.component + 1, n, step)
        } else {
            n == m.at(RunStage::AuditDpapi) && quiet(step) && audits(
                step.action,
                "MigrationWarning"@,
                AuditStatus::Warning,
                DPAPI_WARNING@,
            )
        },
        RunEvent::Polled(cancelled) => if cancelled {
            turns_back(m, n, step, MigrationError::Cancelled)
        } else {
            match m.stage {
                RunStage::PollRoot => n == (RunModel {
                    stage: RunStage::OpenSourceRoot,
                    component: 0,
                    ..m
                }) && quiet(step) && (step.action matches RunAction::OpenSourceRoot {
                    component,
                    first,
                } && component@ == root_components(m.roots[m.root as int])[0] && first),
                RunStage::PollEntry => quiet(step) && takes_entry(m, n, step),
                RunStage::PollBeforeReceipt => quiet(step) && step.action is PollCancellation
                    && n.receipt is Some && receipt_of(m.tx, n.receipt->0) && n == (RunModel {
                    stage: RunStage::PollAfterReceipt,
                    receipt: n.receipt,
                    ..m
                }),
                RunStage::PollAfterReceipt => n == m.at(RunStage::PollBeforeAudit)
                    && step.action is PollCancellation && (step.progress matches Some(p) && p@ == (
                ProgressModel {
                    phase: MigrationPhase::Finalizing,
                    relative_path: None,
                    completed_files: m.receipt->0.copied_files as nat,
                    copied_bytes: m.receipt->0.copied_bytes,
                })),
                _ => n == m.at(RunStage::AuditSuccess) && quiet(step) && audits(
                    step.action,
                    "MigrationSuccess"@,
                    AuditStatus::Success,
                    "Verified "@ + decimal(m.receipt->0.copied_files as nat) + " files ("@
                        + decimal(m.receipt->0.copied_bytes as nat)
                        + " bytes); manifest SHA-256 "@ + m.receipt->0.manifest_sha256@,
                ),
            }
        },
        RunEvent::Ensured(Err(error)) => exists|e: MigrationError| #[trigger]
            maps_to(error, e) && turns_back(m, n, step, e),
        RunEvent::Ensured(Ok(created)) => if m.stage is EnsureTargetRoot {
            quiet(step) && ensures_next_component(
                if created {
                    RunModel {
                        tx: m.tx.with_created(
                            root_prefix(m.roots[m.root as int], m.component),
                        ),
                        ..m
                    }
                } else {
                    m
                },
                n,
                step,
            )
        } else {
            n == (RunModel {
                stage: RunStage::List,
                tx: if created {
                    m.tx.with_created(m.path)
                } else {
                    m.tx
                },
                ..m
            }) && quiet(step) && step.action is ListSource
        },
        RunEvent::Listed(Err(error)) => exists|e: MigrationError| #[trigger]
            maps_to(error, e) && turns_back(m, n, step, e),
        RunEvent::Listed(Ok(entries)) => quiet(step) && goes_on(
            RunModel {
                frames: m.frames.push(
                    FrameModel {
                        relative: m.path,
                        entries: crate::secure_fs::entry_models(entries@),
                        next: 0,
                    },
                ),
                ..m
            },
            n,
            step,
        ),
        RunEvent::File(file_event) => exists|f: FileCopyModel, tx: TransactionModel, s: FileCopyStep|
            #[trigger] file_copy_follows(m.file->0, m.tx, file_event, f, tx, s) && (match s.action {
                FileCopyAction::Fail(e) => turns_back(RunModel { tx: tx, ..m }, n, step, e),
                FileCopyAction::Done => quiet(step) && goes_on(
                    RunModel { tx: tx, file: None, ..m },
                    n,
                    step,
                ),
                _ => n == (RunModel { file: Some(f), tx: tx, ..m }) && step.progress == s.progress
                    && step.action == RunAction::File(s.action),
            }),
        RunEvent::Left => quiet(step) && (if m.frames.len() == 0 {
            goes_to_next_root(m, n, step)
        } else {
            goes_on(m, n, step)
        }),
        RunEvent::Removed(outcome) => quiet(step) && removes_next(
            RunModel {
                rollback_error: match m.rollback_error {
                    Some(first) => Some(first),
                    None => match outcome {
                        Ok(_) => None,
                        Err(error) => Some(error.text()),
                    },
                },
                ..m
            },
            n,
            step,
        ),
    }
}

/// Opens a component of the directory of protected secrets.
pub open spec fn probes(m: RunModel, component: nat, n: RunModel, step: RunStep) -> bool {
    &&& n == (RunModel { stage: RunStage::ProbeDpapi, component: component, ..m })
    &&& step.action matches RunAction::ProbeDpapi { component: text, first } && text@
        == root_components(DPAPI_RELATIVE_PATH@)[component as int] && first == (component == 0)
}

/// Announces the enumeration and goes to the first root.
pub open spec fn starts_roots(m: RunModel, n: RunModel, step: RunStep) -> bool {
    &&& n == (RunModel { stage: RunStage::PollRoot, root: 0, component: 0, ..m })
    &&& step.action is PollCancellation
    &&& step.progress matches Some(p) && p@ == (ProgressModel {
        phase: MigrationPhase::Enumerating,
        relative_path: None,
        completed_files: 0,
        copied_bytes: 0,
    })
}

/// Behind a component that was opened: the next, or the first of the target.
pub open spec fn opens_next_component(m: RunModel, n: RunModel, step: RunStep) -> bool {
    let parts = root_components(m.roots[m.root as int]);
    if m.component + 1 < parts.len() {
        &&& n == (RunModel { component: m.component + 1, ..m })
        &&& step.action matches RunAction::OpenSourceRoot { component, first } && component@
            == parts[m.component as int + 1] && !first
    } else {
        &&& n == (RunModel { stage: RunStage::EnsureTargetRoot, component: 0, ..m })
        &&& step.action matches RunAction::EnsureTargetRoot { component, first } && component@
            == parts[0] && first
    }
}

/// Behind a target component that is there: the next, or the listing of the root.
pub open spec fn ensures_next_component(m: RunModel, n: RunModel, step: RunStep) -> bool {
    let root = m.roots[m.root as int];
    let parts = root_components(root);
    if m.component + 1 < parts.len() {
        &&& n == (RunModel { component: m.component + 1, ..m })
        &&& step.action matches RunAction::EnsureTargetRoot { component, first } && component@
            == parts[m.component as int + 1] && !first
    } else {
        n == (RunModel { stage: RunStage::List, path: root, ..m }) && step.action is ListSource
    }
}

/// Takes the next entry of the directory in use in hand.
pub open spec fn takes_entry(m: RunModel, n: RunModel, step: RunStep) -> bool {
    let top = m.top();
    let entry = top.entries[top.next as int];
    let path = path_join(top.relative, utf16_chars_lossy(entry.name));
    let taken = RunModel {
        frames: m.frames.drop_last().push(FrameModel { next: top.next + 1, ..top }),
        name: entry.name,
        path: path,
        ..m
    };
    if entry.kind is Directory {
        &&& n == taken.at(RunStage::OpenSourceChild)
        &&& step.action matches RunAction::OpenSourceChild { name } && name@ == entry.name
    } else {
        &&& n == (RunModel {
            stage: RunStage::CopyFile,
            file: Some(
                FileCopyModel {
                    path: path,
                    name: entry.name,
                    stage: FileCopyStage::OpenInput,
                    source: Seq::empty(),
                    copy: Seq::empty(),
                    pending: Seq::empty(),
                    copied_bytes: 0,
                    completed_bytes: 0,
                    source_sha: Seq::empty(),
                },
            ),
            ..taken
        })
        &&& step.action matches RunAction::OpenFile { name } && name@ == entry.name
    }
}

/// A component of the directory of protected secrets.
fn secrets_component(component: usize) -> (r: Option<String>)
    ensures
        match r {
            Some(text) => component < root_components(DPAPI_RELATIVE_PATH@).len() && text@
                == root_components(DPAPI_RELATIVE_PATH@)[component as int],
            None => component >= root_components(DPAPI_RELATIVE_PATH@).len(),
        },
{
    let parts = split_chars(DPAPI_RELATIVE_PATH, '\\');
    if component < parts.len() {
        assert(texts(parts@)[component as int] == parts@[component as int]@);
        Some(owned(parts[component].as_str()))
    } else {
        None
    }
}

/// The component of the directory of protected secrets behind another.
fn secrets_component_after(component: usize) -> (r: Option<String>)
    requires
        component < root_components(DPAPI_RELATIVE_PATH@).len(),
    ensures
        component < usize::MAX,
        match r {
            Some(text) => component + 1 < root_components(DPAPI_RELATIVE_PATH@).len() && text@
                == root_components(DPAPI_RELATIVE_PATH@)[component + 1],
            None => component + 1 >= root_components(DPAPI_RELATIVE_PATH@).len(),
        },
{
    let parts = split_chars(DPAPI_RELATIVE_PATH, '\\');
    assert(texts(parts@).len() == parts@.len());
    let total: usize = parts.len();
    secrets_component(component + 1)
}

impl MigrationRun {
    /// What holds between steps.
    pub open spec fn inv(self) -> bool {
        let m = self@;
        let stage = self.stage;
        &&& m.roots == selected_roots(self.plan)
        &&& frames_in_range(m.frames)
        &&& stage is Guard || stage is Observe || stage is AuditStart || stage is CreateTarget
            ==> m.tx == TransactionModel::fresh()
        &&& stage.is_copying() || stage is AuditStart || stage is CreateTarget ==> is_sound_plan(
            self.plan,
        )
        &&& stage is PollRoot || stage is OpenSourceRoot || stage is EnsureTargetRoot || stage is List
            || stage is PollEntry || stage is OpenSourceChild || stage is EnsureTargetChild
            || stage is CopyFile || stage is Leave ==> self.root < self.roots@.len()
        &&& stage is AuditStart || stage is CreateTarget ==> (self.validated matches Some(v)
            && v.source_path@ == self.plan.source_path@ && v.target_path@ == self.plan.target_path@
            && drive_parent(self.plan.target_path@) == Some(v.target_parent@) && drive_leaf(
            self.plan.target_path@,
        ) == Some(v.target_leaf@))
        &&& stage is ProbeDpapi ==> m.component < root_components(DPAPI_RELATIVE_PATH@).len()
        &&& stage is OpenSourceRoot || stage is EnsureTargetRoot ==> m.component < root_components(
            m.roots[m.root as int],
        ).len()
        &&& stage is CreateTarget || stage is CompareRoots || stage is ProbeDpapi
            || stage is AuditDpapi || stage is AuditStart || stage is Observe || stage is Guard
            || stage is PollRoot || stage is OpenSourceRoot || stage is EnsureTargetRoot
            ==> m.frames.len() == 0
        &&& stage is PollEntry ==> m.frames.len() > 0 && m.top().next < m.top().entries.len()
        &&& stage is OpenSourceChild || stage is EnsureTargetChild || stage is CopyFile
            ==> m.frames.len() > 0
        &&& stage is CopyFile ==> self.file is Some && self.file->0.inv() && !(
        self.file->0.stage is Finished)
        &&& stage is PollAfterReceipt || stage is PollBeforeAudit || stage is AuditSuccess
            ==> self.receipt is Some && receipt_of(m.tx, self.receipt->0)
        &&& stage is Remove || stage is AuditRollbackFailed || stage is AuditRolledBack
            ==> self.error is Some
        &&& stage is AuditRollbackFailed || stage is AuditRolledBack ==> m.tx.created.len() == 0
        &&& stage is AuditRollbackFailed ==> self.rollback_error is Some
        &&& stage.is_copying() || stage is Guard || stage is Observe || stage is AuditStart
            || stage is CreateTarget ==> self.rollback_error is None
    }

    /// The run of a plan, and its first action: to acquire the operation guard.
    fn new(plan: MigrationPlan) -> (r: MigrationRun)
        ensures
            r.inv(),
            r.plan == plan,
            r@ == fresh_run(plan),
    {
        let mut roots: Vec<String> = Vec::new();
        if plan.include_roaming_appdata {
            roots.push(owned(APPDATA_ROAMING_REL_PATH));
        }
        if plan.include_personal_folders {
            roots.push(owned("Documents"));
            roots.push(owned("Desktop"));
            roots.push(owned("Downloads"));
            roots.push(owned("Favorites"));
            roots.push(owned("Pictures"));
        }
        assert(texts(roots@) =~= selected_roots(plan));
        let r = MigrationRun {
            plan: plan,
            stage: RunStage::Guard,
            validated: None,
            roots: roots,
            root: 0,
            component: 0,
            frames: Vec::new(),
            name: Vec::new(),
            path: String::new(),
            file: None,
            tx: CopyTransaction::new(),
            receipt: None,
            error: None,
            rollback_error: None,
        };
        assert(r@ =~= fresh_run(plan));
        r
    }

    fn finish(&mut self, result: Result<MigrationReceipt, MigrationError>) -> (r: RunStep)
        requires
            old(self).inv(),
        ensures
            final(self).inv(),
            final(self).plan == old(self).plan,
            final(self)@ == old(self)@.at(RunStage::Finished),
            ends(old(self)@, final(self)@, r, result),
    {
        self.stage = RunStage::Finished;
        RunStep { progress: None, action: RunAction::Finish(result) }
    }

    /// Removes the next created entry, or closes the rollback.
    fn remove_next(&mut self) -> (r: RunStep)
        requires
            texts(old(self).roots@) == selected_roots(old(self).plan),
            frames_in_range(old(self)@.frames),
            old(self).error is Some,
        ensures
            final(self).inv(),
            final(self).plan == old(self).plan,
            quiet(r),
            removes_next(old(self)@, final(self)@, r),
    {
        match self.tx.take_last_created() {
            Some(path) => {
                self.stage = RunStage::Remove;
                RunStep { progress: None, action: RunAction::Remove { path: path } }
            },
            None => {
                let reason = match &self.error {
                    Some(error) => error.message(),
                    None => String::new(),
                };
                match &self.rollback_error {
                    Some(rollback) => {
                        let details = cat4(
                            "Migration rollback failed after '",
                            reason.as_str(),
                            "': ",
                            rollback.as_str(),
                        );
                        self.stage = RunStage::AuditRollbackFailed;
                        RunStep {
                            progress: None,
                            action: RunAction::Audit {
                                operation: "MigrationRollbackFailed",
                                status: AuditStatus::Failed,
                                details: details,
                            },
                        }
                    },
                    None => {
                        self.stage = RunStage::AuditRolledBack;
                        RunStep {
                            progress: None,
                            action: RunAction::Audit {
                                operation: "MigrationRolledBack",
                                status: AuditStatus::RolledBack,
                                details: reason,
                            },
                        }
                    },
                }
            },
        }
    }

    /// Turns back because of an error.
    fn turn_back(&mut self, error: MigrationError) -> (r: RunStep)
        requires
            texts(old(self).roots@) == selected_roots(old(self).plan),
            frames_in_range(old(self)@.frames),
            old(self).rollback_error is None,
        ensures
            final(self).inv(),
            final(self).plan == old(self).plan,
            turns_back(old(self)@, final(self)@, r, error),
    {
        let progress = MigrationProgress {
            phase: MigrationPhase::RollingBack,
            relative_path: match &self.tx.last_relative_path {
                Some(path) => Some(owned(path.as_str())),
                None => None,
            },
            completed_files: self.tx.completed_files(),
            copied_bytes: self.tx.copied_bytes(),
        };
        self.file = None;
        self.error = Some(error);
        let step = self.remove_next();
        RunStep { progress: Some(progress), action: step.action }
    }

    fn turn_back_from(&mut self, error: SecureFsError) -> (r: RunStep)
        requires
            texts(old(self).roots@) == selected_roots(old(self).plan),
            frames_in_range(old(self)@.frames),
            old(self).rollback_error is None,
        ensures
            final(self).inv(),
            final(self).plan == old(self).plan,
            exists|e: MigrationError| #[trigger]
                maps_to(error, e) && turns_back(old(self)@, final(self)@, r, e),
    {
        let mapped = map_secure_error(error);
        assert(maps_to(error, mapped));
        self.turn_back(mapped)
    }

    /// Goes on with the directory in use.
    fn go_on(&mut self) -> (r: RunStep)
        requires
            texts(old(self).roots@) == selected_roots(old(self).plan),
            frames_in_range(old(self)@.frames),
            old(self).frames@.len() > 0,
            old(self).root < old(self).roots@.len(),
            is_sound_plan(old(self).plan),
            old(self).rollback_error is None,
        ensures
            final(self).inv(),
            final(self).plan == old(self).plan,
            quiet(r),
            goes_on(old(self)@, final(self)@, r),
    {
        let at: usize = self.frames.len() - 1;
        let more = self.frames[at].next < self.frames[at].entries.len();
        proof {
            assert(self@.top() == self.frames@[at as int]@);
        }
        if more {
            self.stage = RunStage::PollEntry;
            RunStep { progress: None, action: RunAction::PollCancellation }
        } else {
            let _ = self.frames.pop();
            self.stage = RunStage::Leave;
            proof {
                assert(self@.frames =~= old(self)@.frames.drop_last());
            }
            RunStep { progress: None, action: RunAction::Leave }
        }
    }

    /// Goes to the next root, or to the receipt.
    fn next_root(&mut self) -> (r: RunStep)
        requires
            texts(old(self).roots@) == selected_roots(old(self).plan),
            old(self).frames@.len() == 0,
            old(self).root < old(self).roots@.len(),
            is_sound_plan(old(self).plan),
            old(self).rollback_error is None,
        ensures
            final(self).inv(),
            final(self).plan == old(self).plan,
            quiet(r),
            goes_to_next_root(old(self)@, final(self)@, r),
    {
        self.root += 1;
        self.component = 0;
        if self.root < self.roots.len() {
            self.stage = RunStage::PollRoot;
        } else {
            self.stage = RunStage::PollBeforeReceipt;
        }
        RunStep { progress: None, action: RunAction::PollCancellation }
    }

    /// Announces the enumeration and goes to the first root.
    fn start_roots(&mut self) -> (r: RunStep)
        requires
            old(self).inv(),
            old(self).stage is ProbeDpapi || old(self).stage is AuditDpapi,
        ensures
            final(self).inv(),
            final(self).plan == old(self).plan,
            starts_roots(old(self)@, final(self)@, r),
    {
        self.root = 0;
        self.component = 0;
        self.stage = RunStage::PollRoot;
        proof {
            assert(self.plan.include_roaming_appdata || self.plan.include_personal_folders);
            assert(self@.roots.len() > 0);
        }
        RunStep {
            progress: Some(
                MigrationProgress {
                    phase: MigrationPhase::Enumerating,
                    relative_path: None,
                    completed_files: 0,
                    copied_bytes: 0,
                },
            ),
            action: RunAction::PollCancellation,
        }
    }

    /// A component of the root in hand.
    fn root_component(&self, component: usize) -> (r: Option<String>)
        requires
            self.root < self.roots@.len(),
        ensures
            match r {
                Some(text) => component < root_components(self@.roots[self.root as int]).len()
                    && text@ == root_components(self@.roots[self.root as int])[component as int],
                None => component >= root_components(self@.roots[self.root as int]).len(),
            },
    {
        let parts = split_chars(self.roots[self.root].as_str(), '\\');
        assert(self@.roots[self.root as int] == self.roots@[self.root as int]@);
        if component < parts.len() {
            assert(texts(parts@)[component as int] == parts@[component as int]@);
            Some(owned(parts[component].as_str()))
        } else {
            None
        }
    }

    /// The component behind the one in hand.
    fn component_after(&self) -> (r: Option<String>)
        requires
            self.root < self.roots@.len(),
            self.component < root_components(self@.roots[self.root as int]).len(),
        ensures
            self.component < usize::MAX,
            match r {
                Some(text) => self.component + 1 < root_components(
                    self@.roots[self.root as int],
                ).len() && text@ == root_components(
                    self@.roots[self.root as int],
                )[self.component + 1],
                None => self.component + 1 >= root_components(
                    self@.roots[self.root as int],
                ).len(),
            },
    {
        let parts = split_chars(self.roots[self.root].as_str(), '\\');
        assert(self@.roots[self.root as int] == self.roots@[self.root as int]@);
        let total: usize = parts.len();
        self.root_component(self.component + 1)
    }

    /// The part of the root in hand up to the component in hand.
    fn prefix_of_root(&self) -> (r: String)
        requires
            self.root < self.roots@.len(),
            self.component < root_components(self@.roots[self.root as int]).len(),
        ensures
            r@ == root_prefix(self@.roots[self.root as int], self.component as nat),
    {
        let parts = split_chars(self.roots[self.root].as_str(), '\\');
        assert(self@.roots[self.root as int] == self.roots@[self.root as int]@);
        let ghost all = texts(parts@);
        let mut head: Vec<String> = Vec::new();
        let total: usize = parts.len();
        let count: usize = self.component + 1;
        let mut i: usize = 0;
        while i < count
            invariant
                i <= count,
                count <= parts@.len(),
                all == texts(parts@),
                texts(head@) =~= all.take(i as int),
            decreases count - i,
        {
            let ghost known = texts(head@);
            head.push(owned(parts[i].as_str()));
            assert(texts(head@) =~= known.push(all[i as int]));
            i += 1;
        }
        proof {
            reveal_strlit("\\");
            assert("\\"@ =~= seq!['\\']);
        }
        join(&head, "\\")
    }

    /// Takes the next entry of the directory in use in hand.
    #[verifier::rlimit(30)]
    fn take_entry(&mut self) -> (r: RunStep)
        requires
            old(self).inv(),
            old(self).stage is PollEntry,
        ensures
            final(self).inv(),
            final(self).plan == old(self).plan,
            quiet(r),
            takes_entry(old(self)@, final(self)@, r),
    {
        let ghost m = self@;
        let at: usize = self.frames.len() - 1;
        assert(m.top() == self.frames@[at as int]@);
        let next: usize = self.frames[at].next;
        let total: usize = self.frames[at].entries.len();
        assert(m.top().entries[next as int] == self.frames@[at as int].entries@[next as int]@);
        let kind = self.frames[at].entries[next].kind;
        let name = copy_units(&self.frames[at].entries[next].name);
        let text = decode_utf16_lossy(name.as_slice());
        let path = join_path(self.frames[at].relative.as_str(), text.as_str());
        match self.frames.pop() {
            Some(frame) => {
                let moved = Frame {
                    relative: frame.relative,
                    entries: frame.entries,
                    next: next + 1,
                };
                assert(moved@ =~= (FrameModel { next: m.top().next + 1, ..m.top() }));
                self.frames.push(moved);
            },
            None => {},
        }
        proof {
            assert(self@.frames =~= m.frames.drop_last().push(
                FrameModel { next: m.top().next + 1, ..m.top() },
            ));
            assert forall|i: int| 0 <= i < self@.frames.len() implies (#[trigger] self@.frames[i]).next
                <= self@.frames[i].entries.len() by {
                if i < at {
                    assert(self@.frames[i] == m.frames[i]);
                }
            }
        }
        self.name = copy_units(&name);
        self.path = owned(path.as_str());
        match kind {
            SecureEntryKind::Directory => {
                self.stage = RunStage::OpenSourceChild;
                RunStep { progress: None, action: RunAction::OpenSourceChild { name: name } }
            },
            SecureEntryKind::File => {
                self.file = Some(FileCopy::new(path, copy_units(&name)));
                self.stage = RunStage::CopyFile;
                RunStep { progress: None, action: RunAction::OpenFile { name: name } }
            },
        }
    }

    fn step_audited(&mut self, outcome: Result<(), String>) -> (r: RunStep)
        requires
            old(self).inv(),
            old(self).stage.expects(RunEvent::Audited(outcome)),
        ensures
            final(self).inv(),
            final(self).plan == old(self).plan,
            run_follows(old(self).plan, old(self)@, RunEvent::Audited(outcome), final(self)@, r),
    {
        match self.stage {
            RunStage::AuditStart => match outcome {
                Ok(()) => {
                    let (parent, leaf) = match &self.validated {
                        Some(validated) => (
                            owned(validated.target_parent.as_str()),
                            owned(validated.target_leaf.as_str()),
                        ),
                        None => (String::new(), String::new()),
                    };
                    self.stage = RunStage::CreateTarget;
                    RunStep {
                        progress: None,
                        action: RunAction::CreateTarget { parent: parent, leaf: leaf },
                    }
                },
                Err(reason) => self.finish(Err(MigrationError::Audit(reason))),
            },
            RunStage::AuditDpapi => match outcome {
                Ok(()) => self.start_roots(),
                Err(reason) => self.turn_back(MigrationError::Audit(reason)),
            },
            RunStage::AuditSuccess => match outcome {
                Ok(()) => {
                    self.stage = RunStage::Finished;
                    let receipt = self.receipt.take().unwrap();
                    RunStep { progress: None, action: RunAction::Finish(Ok(receipt)) }
                },
                Err(reason) => self.turn_back(MigrationError::Audit(reason)),
            },
            RunStage::AuditRollbackFailed => {
                let operation = match &self.error {
                    Some(error) => error.message(),
                    None => String::new(),
                };
                let rollback = match &self.rollback_error {
                    Some(rollback) => owned(rollback.as_str()),
                    None => String::new(),
                };
                let rollback = match outcome {
                    Ok(()) => rollback,
                    Err(reason) => crate::text::cat3(
                        rollback.as_str(),
                        "; audit logging also failed: ",
                        reason.as_str(),
                    ),
                };
                self.finish(
                    Err(
                        MigrationError::RollbackFailed {
                            operation_error: operation,
                            rollback_error: rollback,
                        },
                    ),
                )
            },
            _ => match outcome {
                Ok(()) => {
                    self.stage = RunStage::Finished;
                    let error = self.error.take().unwrap();
                    RunStep { progress: None, action: RunAction::Finish(Err(error)) }
                },
                Err(reason) => self.finish(Err(MigrationError::Audit(reason))),
            },
        }
    }

    fn step_opened(&mut self, outcome: Result<(), SecureFsError>) -> (r: RunStep)
        requires
            old(self).inv(),
            old(self).stage.expects(RunEvent::Opened(outcome)),
        ensures
            final(self).inv(),
            final(self).plan == old(self).plan,
            run_follows(old(self).plan, old(self)@, RunEvent::Opened(outcome), final(self)@, r),
    {
        match self.stage {
            RunStage::CreateTarget => match outcome {
                Ok(()) => {
                    self.tx.record_created(owned(self.plan.target_path.as_str()));
                    self.stage = RunStage::CompareRoots;
                    RunStep { progress: None, action: RunAction::CompareRoots }
                },
                Err(error) => self.turn_back_from(error),
            },
            RunStage::OpenSourceRoot => match outcome {
                Ok(()) => {
                    match self.component_after() {
                        Some(component) => {
                            self.component += 1;
                            RunStep {
                                progress: None,
                                action: RunAction::OpenSourceRoot {
                                    component: component,
                                    first: false,
                                },
                            }
                        },
                        None => {
                            let first = match self.root_component(0) {
                                Some(component) => component,
                                None => String::new(),
                            };
                            self.component = 0;
                            self.stage = RunStage::EnsureTargetRoot;
                            RunStep {
                                progress: None,
                                action: RunAction::EnsureTargetRoot {
                                    component: first,
                                    first: true,
                                },
                            }
                        },
                    }
                },
                Err(SecureFsError::NotFound(_)) => self.next_root(),
                Err(error) => self.turn_back_from(error),
            },
            _ => match outcome {
                Ok(()) => {
                    self.stage = RunStage::EnsureTargetChild;
                    RunStep {
                        progress: None,
                        action: RunAction::EnsureTargetChild { name: copy_units(&self.name) },
                    }
                },
                Err(error) => self.turn_back_from(error),
            },
        }
    }

    /// Goes on with the directory of protected secrets, which is there where every
    /// component is and not where one is missing.
    fn step_probed(&mut self, outcome: Result<(), SecureFsError>) -> (r: RunStep)
        requires
            old(self).inv(),
            old(self).stage is ProbeDpapi,
        ensures
            final(self).inv(),
            final(self).plan == old(self).plan,
            run_follows(old(self).plan, old(self)@, RunEvent::Probed(outcome), final(self)@, r),
    {
        match outcome {
            Err(SecureFsError::NotFound(_)) => self.start_roots(),
            Err(error) => self.turn_back_from(error),
            Ok(()) => {
                match secrets_component_after(self.component) {
                    Some(component) => {
                        self.component += 1;
                        return RunStep {
                            progress: None,
                            action: RunAction::ProbeDpapi { component: component, first: false },
                        };
                    },
                    None => {},
                }
                self.stage = RunStage::AuditDpapi;
                RunStep {
                    progress: None,
                    action: RunAction::Audit {
                        operation: "MigrationWarning",
                        status: AuditStatus::Warning,
                        details: owned(DPAPI_WARNING),
                    },
                }
            },
        }
    }

    fn step_ensured(&mut self, outcome: Result<bool, SecureFsError>) -> (r: RunStep)
        requires
            old(self).inv(),
            old(self).stage.expects(RunEvent::Ensured(outcome)),
        ensures
            final(self).inv(),
            final(self).plan == old(self).plan,
            run_follows(old(self).plan, old(self)@, RunEvent::Ensured(outcome), final(self)@, r),
    {
        let created = match outcome {
            Ok(created) => created,
            Err(error) => {
                return self.turn_back_from(error);
            },
        };
        match self.stage {
            RunStage::EnsureTargetRoot => {
                if created {
                    let prefix = self.prefix_of_root();
                    self.tx.record_created(prefix);
                }
                match self.component_after() {
                    Some(component) => {
                        self.component += 1;
                        RunStep {
                            progress: None,
                            action: RunAction::EnsureTargetRoot {
                                component: component,
                                first: false,
                            },
                        }
                    },
                    None => {
                        assert(self@.roots[self.root as int] == self.roots@[self.root as int]@);
                        self.path = owned(self.roots[self.root].as_str());
                        self.stage = RunStage::List;
                        RunStep { progress: None, action: RunAction::ListSource }
                    },
                }
            },
            _ => {
                if created {
                    self.tx.record_created(owned(self.path.as_str()));
                }
                self.stage = RunStage::List;
                RunStep { progress: None, action: RunAction::ListSource }
            },
        }
    }

    fn step_polled(&mut self, cancelled: bool) -> (r: RunStep)
        requires
            old(self).inv(),
            old(self).stage.expects(RunEvent::Polled(cancelled)),
        ensures
            final(self).inv(),
            final(self).plan == old(self).plan,
            run_follows(old(self).plan, old(self)@, RunEvent::Polled(cancelled), final(self)@, r),
    {
        if cancelled {
            return self.turn_back(MigrationError::Cancelled);
        }
        match self.stage {
            RunStage::PollRoot => {
                let component = match self.root_component(0) {
                    Some(component) => component,
                    None => String::new(),
                };
                proof {
                    crate::text::lemma_split_nonempty(self@.roots[self.root as int], '\\');
                }
                self.component = 0;
                self.stage = RunStage::OpenSourceRoot;
                RunStep {
                    progress: None,
                    action: RunAction::OpenSourceRoot { component: component, first: true },
                }
            },
            RunStage::PollEntry => self.take_entry(),
            RunStage::PollBeforeReceipt => {
                self.receipt = Some(self.tx.receipt());
                self.stage = RunStage::PollAfterReceipt;
                RunStep { progress: None, action: RunAction::PollCancellation }
            },
            RunStage::PollAfterReceipt => {
                let (files, bytes): (usize, u64) = match &self.receipt {
                    Some(receipt) => (receipt.copied_files, receipt.copied_bytes),
                    None => (0, 0),
                };
                self.stage = RunStage::PollBeforeAudit;
                RunStep {
                    progress: Some(
                        MigrationProgress {
                            phase: MigrationPhase::Finalizing,
                            relative_path: None,
                            completed_files: files,
                            copied_bytes: bytes,
                        },
                    ),
                    action: RunAction::PollCancellation,
                }
            },
            _ => {
                let details = match &self.receipt {
                    Some(receipt) => {
                        let files = dec(receipt.copied_files as u64);
                        let bytes = dec(receipt.copied_bytes);
                        cat6(
                            "Verified ",
                            files.as_str(),
                            " files (",
                            bytes.as_str(),
                            " bytes); manifest SHA-256 ",
                            receipt.manifest_sha256.as_str(),
                        )
                    },
                    None => String::new(),
                };
                self.stage = RunStage::AuditSuccess;
                RunStep {
                    progress: None,
                    action: RunAction::Audit {
                        operation: "MigrationSuccess",
                        status: AuditStatus::Success,
                        details: details,
                    },
                }
            },
        }
    }

    fn step_observed(&mut self, found: MigrationObservation) -> (r: RunStep)
        requires
            old(self).inv(),
            old(self).stage is Observe,
        ensures
            final(self).inv(),
            final(self).plan == old(self).plan,
            run_follows(old(self).plan, old(self)@, RunEvent::Observed(found), final(self)@, r),
    {
        match validate_for_execution(&self.plan, found) {
            Ok(validated) => {
                let details = cat4(
                    "Verified-copy migration started: ",
                    validated.source_path.as_str(),
                    " -> ",
                    validated.target_path.as_str(),
                );
                self.validated = Some(validated);
                self.stage = RunStage::AuditStart;
                RunStep {
                    progress: None,
                    action: RunAction::Audit {
                        operation: "MigrationStarted",
                        status: AuditStatus::Warning,
                        details: details,
                    },
                }
            },
            Err(error) => self.finish(Err(error)),
        }
    }

    fn step_file(&mut self, event: FileCopyEvent) -> (r: RunStep)
        requires
            old(self).inv(),
            old(self).stage is CopyFile,
            old(self).file->0.stage.expects(event),
        ensures
            final(self).inv(),
            final(self).plan == old(self).plan,
            run_follows(old(self).plan, old(self)@, RunEvent::File(event), final(self)@, r),
    {
        let ghost m = self@;
        let mut file = self.file.take().unwrap();
        let step = file.step(event, &mut self.tx);
        let ghost given = step;
        let ghost tx = self.tx@;
        assert(file_copy_follows(m.file->0, m.tx, event, file@, tx, given));
        match step.action {
            FileCopyAction::Fail(error) => {
                let ghost here = self@;
                let r = self.turn_back(error);
                assert(turns_back(here, self@, r, error));
                assert(RunModel { file: None, error: Some(error), ..here } == RunModel {
                    file: None,
                    error: Some(error),
                    ..RunModel { tx: tx, ..m }
                });
                r
            },
            FileCopyAction::Done => {
                assert(self@ =~= RunModel { tx: tx, file: None, ..m });
                self.go_on()
            },
            action => {
                self.file = Some(file);
                assert(self@ =~= RunModel { file: Some(file@), tx: tx, ..m });
                RunStep { progress: step.progress, action: RunAction::File(action) }
            },
        }
    }

    /// The audit entry that an action of the run asks for.
    pub fn audit_entry(
        &self,
        operation: &str,
        status: AuditStatus,
        details: String,
        timestamp: UtcTime,
    ) -> (r: AuditEntry)
        ensures
            r@ == admin_model(operation@, self.plan.source_sid@, status, details@, timestamp),
    {
        admin_entry(operation, self.plan.source_sid.as_str(), status, details, timestamp)
    }

    /// Takes the outcome of the last action and decides the next.
    ///
    /// Nothing is created before the guard is held, the plan is accepted and the
    /// start is audited; the target is created where the plan says; what is removed was created by this run, the last created
    /// first, and nothing else leaves the record; a run that ends in an error has tried
    /// to remove everything that it created.
    pub fn step(&mut self, event: RunEvent) -> (r: RunStep)
        requires
            old(self).inv(),
            old(self).stage.expects(event),
            event matches RunEvent::File(f) ==> old(self).file->0.stage.expects(f),
        ensures
            final(self).inv(),
            final(self).plan == old(self).plan,
            run_follows(old(self).plan, old(self)@, event, final(self)@, r),
            r.action matches RunAction::CreateTarget { parent, leaf } ==> is_sound_plan(
                final(self).plan,
            ) && drive_parent(old(self).plan.target_path@) == Some(parent@) && drive_leaf(
                old(self).plan.target_path@,
            ) == Some(leaf@),
            r.action matches RunAction::Finish(Ok(receipt)) ==> receipt_of(old(self)@.tx, receipt)
                && is_sound_plan(old(self).plan),
            (r.action matches RunAction::Finish(Err(_))) ==> final(self)@.tx.created.len() == 0,
            r.action matches RunAction::Remove { path } ==> old(self)@.tx.created.len() > 0 && path@
                == old(self)@.tx.created.last() && final(self)@.tx.created
                == old(self)@.tx.created.drop_last(),
            !(r.action is Remove) ==> final(self)@.tx.created == old(self)@.tx.created || (
            final(self)@.tx.created.len() == old(self)@.tx.created.len() + 1
                && final(self)@.tx.created.drop_last() == old(self)@.tx.created),
    {
        let ghost m = self@;
        let r = match event {
            RunEvent::Guarded(Ok(())) => {
                self.stage = RunStage::Observe;
                RunStep { progress: None, action: RunAction::Observe }
            },
            RunEvent::Guarded(Err(reason)) => self.finish(Err(MigrationError::Audit(reason))),
            RunEvent::Observed(found) => self.step_observed(found),
            RunEvent::Audited(outcome) => self.step_audited(outcome),
            RunEvent::Opened(outcome) => self.step_opened(outcome),
            RunEvent::Compared(overlap) => {
                if overlap {
                    let error = MigrationError::InvalidPlan(
                        owned("opened source and destination directory handles overlap"),
                    );
                    assert(error.refuses(
                        "opened source and destination directory handles overlap"@,
                    ));
                    self.turn_back(error)
                } else {
                    proof {
                        crate::text::lemma_split_nonempty(DPAPI_RELATIVE_PATH@, '\\');
                    }
                    let component = match secrets_component(0) {
                        Some(component) => component,
                        None => String::new(),
                    };
                    self.component = 0;
                    self.stage = RunStage::ProbeDpapi;
                    RunStep {
                        progress: None,
                        action: RunAction::ProbeDpapi { component: component, first: true },
                    }
                }
            },
            RunEvent::Probed(outcome) => self.step_probed(outcome),
            RunEvent::Polled(cancelled) => self.step_polled(cancelled),
            RunEvent::Ensured(outcome) => self.step_ensured(outcome),
            RunEvent::Listed(Err(error)) => self.turn_back_from(error),
            RunEvent::Listed(Ok(entries)) => {
                let frame = Frame { relative: owned(self.path.as_str()), entries: entries, next: 0 };
                self.frames.push(frame);
                assert(self@.frames =~= m.frames.push(frame@));
                self.go_on()
            },
            RunEvent::File(file_event) => self.step_file(file_event),
            RunEvent::Left => {
                if self.frames.len() == 0 {
                    self.next_root()
                } else {
                    self.go_on()
                }
            },
            RunEvent::Removed(outcome) => {
                if self.rollback_error.is_none() {
                    match outcome {
                        Ok(()) => {},
                        Err(error) => {
                            self.rollback_error = Some(error.message());
                        },
                    }
                }
                self.remove_next()
            },
        };
        proof {
            let created = m.tx.created;
            assert forall|path: Seq<char>| #[trigger] created.push(path).drop_last() == created by {
                assert(created.push(path).drop_last() =~= created);
            }
        }
        r
    }
}

/// The migration of profiles.
pub struct ProfileMigrationEngine;

impl ProfileMigrationEngine {
    /// Starts the migration of a plan, whose first step is the operation guard. It can be
    /// cancelled between any two pieces of a file.
    pub fn execute_migration_with_cancel(plan: MigrationPlan) -> (r: MigrationRun)
        ensures
            r.inv(),
            r.plan == plan,
            r@ == fresh_run(plan),
    {
        MigrationRun::new(plan)
    }

    /// Starts the migration of a plan that nobody will cancel: it is the same run, whose
    /// every poll is answered with no.
    pub fn execute_migration(plan: MigrationPlan) -> (r: MigrationRun)
        ensures
            r.inv(),
            r.plan == plan,
            r@ == fresh_run(plan),
    {
        MigrationRun::new(plan)
    }
}

} // verus!
