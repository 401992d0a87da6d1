//! The window: what the operator sees and has chosen.
use crate::locale::{are_blank, AppStrings};
use crate::text::{clone_texts, owned, texts};
use crate::view_model::{
    copy_issues, issue_models, AuditLogEntry, AuditRowModel, IssueModel, ProfileEntry,
    ProfileIssue, RowModel,
};
use vstd::prelude::*;

verus! {

/// The index of no row, and the health of no profile.
pub const NO_ROW: i32 = -1;

/// The status line and the details behind it.
#[derive(Debug)]
pub struct StatusPane {
    pub message: String,
    pub details: String,
}

/// The inventory and its counts.
#[derive(Debug)]
pub struct Inventory {
    pub profiles: Vec<ProfileEntry>,
    pub total: i32,
    pub healthy: i32,
    pub warning: i32,
    pub corrupted: i32,
    pub temporary: i32,
}

/// The profile that is selected.
#[derive(Debug)]
pub struct Selection {
    pub index: i32,
    pub sid: String,
    pub path: String,
    pub username: String,
    pub account: String,
    pub health_type: i32,
    pub anomalies: String,
    pub issues: Vec<ProfileIssue>,
    pub locking_processes: Vec<String>,
    pub has_locking_processes: bool,
    pub lock_inspection_failure: String,
    pub repair_blocked_by_lock_inspection: bool,
    pub loaded: bool,
}

#[verifier::ext_equal]
pub struct SelectionModel {
    pub index: i32,
    pub sid: Seq<char>,
    pub path: Seq<char>,
    pub username: Seq<char>,
    pub account: Seq<char>,
    pub health_type: i32,
    pub anomalies: Seq<char>,
    pub issues: Seq<IssueModel>,
    pub locking_processes: Seq<Seq<char>>,
    pub has_locking_processes: bool,
    pub lock_inspection_failure: Seq<char>,
    pub repair_blocked_by_lock_inspection: bool,
    pub loaded: bool,
}

impl View for Selection {
    type V = SelectionModel;

    open spec fn view(&self) -> SelectionModel {
        SelectionModel {
            index: self.index,
            sid: self.sid@,
            path: self.path@,
            username: self.username@,
            account: self.account@,
            health_type: self.health_type,
            anomalies: self.anomalies@,
            issues: issue_models(self.issues@),
            locking_processes: texts(self.locking_processes@),
            has_locking_processes: self.has_locking_processes,
            lock_inspection_failure: self.lock_inspection_failure@,
            repair_blocked_by_lock_inspection: self.repair_blocked_by_lock_inspection,
            loaded: self.loaded,
        }
    }
}

impl SelectionModel {
    /// Nothing selected.
    pub open spec fn nothing() -> SelectionModel {
        SelectionModel {
            index: NO_ROW,
            sid: Seq::empty(),
            path: Seq::empty(),
            username: Seq::empty(),
            account: Seq::empty(),
            health_type: NO_ROW,
            anomalies: Seq::empty(),
            issues: Seq::empty(),
            locking_processes: Seq::empty(),
            has_locking_processes: false,
            lock_inspection_failure: Seq::empty(),
            repair_blocked_by_lock_inspection: false,
            loaded: false,
        }
    }

    /// A row selected at a place.
    pub open spec fn of(row: RowModel, index: i32) -> SelectionModel {
        SelectionModel {
            index: index,
            sid: row.sid,
            path: row.profile_path,
            username: row.username,
            account: if row.domain.len() == 0 {
                row.username
            } else {
                row.domain + "\\"@ + row.username
            },
            health_type: row.health_type,
            anomalies: row.anomalies,
            issues: row.issues,
            locking_processes: row.locking_processes,
            has_locking_processes: row.has_locking_processes,
            lock_inspection_failure: row.lock_inspection_failure,
            repair_blocked_by_lock_inspection: row.repair_blocked_by_lock_inspection,
            loaded: row.loaded,
        }
    }
}

impl Selection {
    pub fn nothing() -> (r: Selection)
        ensures
            r@ == SelectionModel::nothing(),
    {
        let r = Selection {
            index: NO_ROW,
            sid: String::new(),
            path: String::new(),
            username: String::new(),
            account: String::new(),
            health_type: NO_ROW,
            anomalies: String::new(),
            issues: Vec::new(),
            locking_processes: Vec::new(),
            has_locking_processes: false,
            lock_inspection_failure: String::new(),
            repair_blocked_by_lock_inspection: false,
            loaded: false,
        };
        assert(r@ =~= SelectionModel::nothing());
        r
    }

    pub fn of(row: &ProfileEntry, index: i32) -> (r: Selection)
        ensures
            r@ == SelectionModel::of(row@, index),
    {
        let account = if row.domain.as_str().is_empty() {
            owned(row.username.as_str())
        } else {
            crate::text::cat3(row.domain.as_str(), "\\", row.username.as_str())
        };
        Selection {
            index: index,
            sid: owned(row.sid.as_str()),
            path: owned(row.profile_path.as_str()),
            username: owned(row.username.as_str()),
            account: account,
            health_type: row.health_type,
            anomalies: owned(row.anomalies.as_str()),
            issues: copy_issues(&row.issues),
            locking_processes: clone_texts(&row.locking_processes),
            has_locking_processes: row.has_locking_processes,
            lock_inspection_failure: owned(row.lock_inspection_failure.as_str()),
            repair_blocked_by_lock_inspection: row.repair_blocked_by_lock_inspection,
            loaded: row.loaded,
        }
    }
}

/// What the operator has entered for a migration, and what is shown of it.
#[derive(Debug)]
pub struct MigrationDraft {
    pub target_path: String,
    pub include_roaming: bool,
    pub include_docs: bool,
    pub preflight_valid: bool,
    /// How far the bar is, in percent.
    pub progress: u32,
    pub phase: String,
    pub relative_path: String,
    pub completed_files: i32,
    pub copied_bytes: String,
    pub status: String,
    pub running: bool,
}

#[verifier::ext_equal]
pub struct DraftModel {
    pub target_path: Seq<char>,
    pub include_roaming: bool,
    pub include_docs: bool,
    pub preflight_valid: bool,
    pub progress: u32,
    pub phase: Seq<char>,
    pub relative_path: Seq<char>,
    pub completed_files: i32,
    pub copied_bytes: Seq<char>,
    pub status: Seq<char>,
    pub running: bool,
}

impl View for MigrationDraft {
    type V = DraftModel;

    open spec fn view(&self) -> DraftModel {
        DraftModel {
            target_path: self.target_path@,
            include_roaming: self.include_roaming,
            include_docs: self.include_docs,
            preflight_valid: self.preflight_valid,
            progress: self.progress,
            phase: self.phase@,
            relative_path: self.relative_path@,
            completed_files: self.completed_files,
            copied_bytes: self.copied_bytes@,
            status: self.status@,
            running: self.running,
        }
    }
}

impl DraftModel {
    /// Nothing entered; whether a migration runs stays.
    pub open spec fn blank(running: bool) -> DraftModel {
        DraftModel {
            target_path: Seq::empty(),
            include_roaming: false,
            include_docs: false,
            preflight_valid: false,
            progress: 0,
            phase: Seq::empty(),
            relative_path: Seq::empty(),
            completed_files: 0,
            copied_bytes: "0"@,
            status: Seq::empty(),
            running: running,
        }
    }
}

impl MigrationDraft {
    pub fn blank(running: bool) -> (r: MigrationDraft)
        ensures
            r@ == DraftModel::blank(running),
    {
        let r = MigrationDraft {
            target_path: String::new(),
            include_roaming: false,
            include_docs: false,
            preflight_valid: false,
            progress: 0,
            phase: String::new(),
            relative_path: String::new(),
            completed_files: 0,
            copied_bytes: owned("0"),
            status: String::new(),
            running: running,
        };
        assert(r@ =~= DraftModel::blank(running));
        r
    }
}

/// What the operator is asked to confirm.
#[derive(Debug)]
pub struct Confirmation {
    pub kind: i32,
    pub title: String,
    pub message: String,
    pub visible: bool,
}

/// What is shown before the storage is ready.
#[derive(Debug)]
pub struct StartupPane {
    pub visible: bool,
    pub busy: bool,
    pub consent_required: bool,
    pub consent_granted: bool,
    pub title: String,
    pub message: String,
    pub details: String,
    pub action_text: String,
    pub quit_text: String,
    pub consent_text: String,
}

/// The window.
#[derive(Debug)]
pub struct MainWindow {
    pub strings: AppStrings,
    pub current_locale: String,
    pub is_elevated: bool,
    pub operation_busy: bool,
    pub status: StatusPane,
    pub inventory: Inventory,
    pub selection: Selection,
    pub repair_fix_bak: bool,
    pub repair_reset_state: bool,
    pub draft: MigrationDraft,
    pub confirmation: Confirmation,
    pub audit_entries: Vec<AuditLogEntry>,
    pub startup: StartupPane,
}

pub open spec fn audit_rows(rows: Seq<AuditLogEntry>) -> Seq<AuditRowModel> {
    rows.map_values(|row: AuditLogEntry| row@)
}

impl MainWindow {
    /// A window that shows nothing yet, at start.
    pub fn new() -> (r: MainWindow)
        ensures
            r.selection@ == SelectionModel::nothing(),
            r.draft@ == DraftModel::blank(false),
            !r.operation_busy,
            !r.confirmation.visible,
            !r.repair_fix_bak,
            !r.repair_reset_state,
            r.startup.visible,
            r.startup.busy,
            !r.startup.consent_required,
            !r.startup.consent_granted,
            r.inventory.profiles@.len() == 0,
            r.inventory.total == 0,
            r.inventory.healthy == 0,
            r.inventory.warning == 0,
            r.inventory.corrupted == 0,
            r.inventory.temporary == 0,
            r.audit_entries@.len() == 0,
            are_blank(r.strings),
            r.current_locale@.len() == 0,
            !r.is_elevated,
            r.status.message@.len() == 0,
            r.status.details@.len() == 0,
            r.confirmation.kind == 0,
            r.confirmation.title@.len() == 0,
            r.confirmation.message@.len() == 0,
            r.startup.title@.len() == 0,
            r.startup.message@.len() == 0,
            r.startup.details@.len() == 0,
            r.startup.action_text@.len() == 0,
            r.startup.quit_text@.len() == 0,
            r.startup.consent_text@.len() == 0,
    {
        MainWindow {
            strings: AppStrings::new(),
            current_locale: String::new(),
            is_elevated: false,
            operation_busy: false,
            status: StatusPane { message: String::new(), details: String::new() },
            inventory: Inventory {
                profiles: Vec::new(),
                total: 0,
                healthy: 0,
                warning: 0,
                corrupted: 0,
                temporary: 0,
            },
            selection: Selection::nothing(),
            repair_fix_bak: false,
            repair_reset_state: false,
            draft: MigrationDraft::blank(false),
            confirmation: Confirmation {
                kind: 0,
                title: String::new(),
                message: String::new(),
                visible: false,
            },
            audit_entries: Vec::new(),
            startup: StartupPane {
                visible: true,
                busy: true,
                consent_required: false,
                consent_granted: false,
                title: String::new(),
                message: String::new(),
                details: String::new(),
                action_text: String::new(),
                quit_text: String::new(),
                consent_text: String::new(),
            },
        }
    }

    /// Whether another language can be chosen: not while an operation runs or something
    /// is to be confirmed.
    pub open spec fn can_switch_language(self) -> bool {
        !self.operation_busy && !self.confirmation.visible
    }

    pub fn language_switch_enabled(&self) -> (r: bool)
        ensures
            r == self.can_switch_language(),
    {
        !self.operation_busy && !self.confirmation.visible
    }

    /// Whether a repair can be started: the storage is ready, the process elevated and
    /// idle, a profile and at least one action selected, and no lock in the way.
    pub open spec fn can_repair(self) -> bool {
        &&& !self.startup.visible
        &&& self.is_elevated
        &&& !self.operation_busy
        &&& self.selection.sid@.len() > 0
        &&& self.repair_fix_bak || self.repair_reset_state
        &&& !self.selection.repair_blocked_by_lock_inspection
    }

    pub fn repair_execution_enabled(&self) -> (r: bool)
        ensures
            r == self.can_repair(),
    {
        !self.startup.visible && self.is_elevated && !self.operation_busy
            && !self.selection.sid.as_str().is_empty() && (self.repair_fix_bak
            || self.repair_reset_state) && !self.selection.repair_blocked_by_lock_inspection
    }
}

/// A repair can be started only with a profile and at least one action selected, by an
/// elevated process that does nothing else, with the storage ready and no lock in the way;
/// and then it can.
pub proof fn a_repair_needs_a_profile_and_an_action(ui: MainWindow)
    ensures
        ui.selection@ == SelectionModel::nothing() ==> !ui.can_repair(),
        !ui.repair_fix_bak && !ui.repair_reset_state ==> !ui.can_repair(),
        !ui.is_elevated || ui.operation_busy || ui.startup.visible ==> !ui.can_repair(),
        ui.selection.repair_blocked_by_lock_inspection ==> !ui.can_repair(),
        ui.selection.sid@.len() > 0 && (ui.repair_fix_bak || ui.repair_reset_state)
            && ui.is_elevated && !ui.operation_busy && !ui.startup.visible
            && !ui.selection.repair_blocked_by_lock_inspection ==> ui.can_repair(),
{
}

/// What is selected is what the row says: the profile, whether it is in use and whether its
/// locks stand in the way of a repair. Nothing selected is no profile.
pub proof fn a_selection_is_its_row(row: RowModel, index: i32)
    ensures
        SelectionModel::of(row, index).index == index,
        SelectionModel::of(row, index).sid == row.sid,
        SelectionModel::of(row, index).path == row.profile_path,
        SelectionModel::of(row, index).username == row.username,
        SelectionModel::of(row, index).loaded == row.loaded,
        SelectionModel::of(row, index).health_type == row.health_type,
        SelectionModel::of(row, index).issues == row.issues,
        SelectionModel::of(row, index).locking_processes == row.locking_processes,
        SelectionModel::of(row, index).repair_blocked_by_lock_inspection
            == row.repair_blocked_by_lock_inspection,
        SelectionModel::of(row, index).lock_inspection_failure == row.lock_inspection_failure,
        SelectionModel::nothing().sid.len() == 0,
        SelectionModel::nothing().index < 0,
        !DraftModel::blank(false).preflight_valid,
        !DraftModel::blank(false).include_roaming && !DraftModel::blank(false).include_docs,
        DraftModel::blank(false).target_path.len() == 0,
{
}

} // verus!
