//! The application behind the window: what each request does to it.
use crate::clock::UtcTime;
use crate::console_launch::TI_AUDIT_TARGET;
use crate::copying::MigrationReceipt;
use crate::i18n::{
    arg_views, shown, shown_with, t, t_args, I18nError, I18nManager, ENGLISH_LOCALE, FRENCH_LOCALE,
};
use crate::journal::{AuditEntry, AuditError, AuditLogger, EntryModel};
use crate::locale::{are_shown, set_locale_and_app_strings};
use crate::migration::{
    is_clear, is_sound_plan, is_valid_component, plan_error, prevalidate_migration_plan,
    MigrationError, MigrationObservation,
};
use crate::migration_view::{
    default_target_leaf, derived_leaf, migration_validation_summary_key, success_arguments,
    summary_key, token_matches, valid_target_leaf, validate_migration_source,
    MigrationPreflightPresentation, MigrationPreflightToken, MigrationTerminalPresentation,
    MIGRATION_SOURCE_LOADED_ERROR,
};
use crate::models::{DiagnosticReport, MigrationPlan, RepairPlan};
use crate::operation::{
    ClosePolicy, OperationKind, OperationState, OperatorStatusOperation,
};
use crate::paths::{file_name, join_path, last_name, path_join, same_path};
use crate::rendering::{
    apply_operator_status, audit_rows_of, chosen_repairs, is_entered_plan, migration_plan_from_ui,
    render_audit_entries, render_report, reselected, rows_of, selected_repair_actions,
    shows_report, shows_status,
};
use crate::startup::{CloseRequestResponse, CONFIRM_REPAIR, CONFIRM_TRUSTED_INSTALLER};
use crate::status::{
    pairs, scan_status, OperatorStatus, OperatorStatusOutcome, StatusModel,
};
use crate::text::{
    chars_of, copy_range, dec, decimal, join, joined, owned, str_eq, trim_suffixes,
    without_suffixes,
};
use crate::window::{audit_rows, DraftModel, MainWindow, MigrationDraft, Selection, SelectionModel};
use vstd::prelude::*;

verus! {

/// What every failure suggests.
pub const RETRY_HINT: &'static str = "status.recovery.retry";

/// The application behind the window. What it has told the operator is kept untranslated.
#[derive(Debug)]
pub struct AppController {
    pub operation_state: OperationState,
    /// Whether the migration that runs has been cancelled; nothing where none runs.
    pub migration_cancellation: Option<bool>,
    pub migration_preflight: Option<MigrationPreflightToken>,
    pub migration_preflight_presentation: MigrationPreflightPresentation,
    pub last_report: Option<DiagnosticReport>,
    pub last_audit_entries: Option<Vec<AuditEntry>>,
    pub last_migration_terminal: Option<MigrationTerminalPresentation>,
    pub last_operator_status: OperatorStatus,
}

// ---------------------------------------------------------------------------
// What a request leaves behind
// ---------------------------------------------------------------------------

/// Whether the operator was told something.
pub open spec fn told(
    controller: AppController,
    ui: MainWindow,
    status: StatusModel,
    bundles: Result<I18nManager, I18nError>,
) -> bool {
    controller.last_operator_status@ == status && shows_status(ui.status, status, bundles)
}

/// Whether the operator was told something and nothing else happened.
pub open spec fn only_tells(
    before: AppController,
    ui_before: MainWindow,
    after: AppController,
    ui_after: MainWindow,
    status: StatusModel,
    bundles: Result<I18nManager, I18nError>,
) -> bool {
    &&& told(after, ui_after, status, bundles)
    &&& after == (AppController { last_operator_status: after.last_operator_status, ..before })
    &&& ui_after == (MainWindow { status: ui_after.status, ..ui_before })
}

/// Whether an operation was begun, the operator was told, and nothing else happened.
pub open spec fn begins(
    before: AppController,
    ui_before: MainWindow,
    after: AppController,
    ui_after: MainWindow,
    operation: OperationKind,
    status: StatusModel,
    bundles: Result<I18nManager, I18nError>,
) -> bool {
    &&& before.operation_state.active is Idle
    &&& told(after, ui_after, status, bundles)
    &&& after == (AppController {
        operation_state: OperationState { active: operation, ..before.operation_state },
        last_operator_status: after.last_operator_status,
        ..before
    })
    &&& ui_after == (MainWindow { operation_busy: true, status: ui_after.status, ..ui_before })
}

/// A status without arguments.
pub open spec fn note(
    operation: OperatorStatusOperation,
    outcome: OperatorStatusOutcome,
    target: Seq<char>,
    now: UtcTime,
    key: Seq<char>,
) -> StatusModel {
    StatusModel::saying(operation, outcome, target, now, key)
}

/// The status of a failure.
pub open spec fn failed(
    operation: OperatorStatusOperation,
    target: Seq<char>,
    now: UtcTime,
    reason: Seq<char>,
) -> StatusModel {
    StatusModel::failed(operation, target, now, reason, Some(RETRY_HINT@))
}

/// The status of an operation that cannot begin because another runs.
pub open spec fn busy_note(operation: OperationKind, now: UtcTime) -> StatusModel {
    note(
        operation.part(),
        OperatorStatusOutcome::Warning,
        "System"@,
        now,
        "error.operation_busy"@,
    )
}

/// The status of an operation that the process may not carry out.
pub open spec fn elevation_note(
    operation: OperatorStatusOperation,
    elevated: Result<bool, String>,
    now: UtcTime,
) -> StatusModel {
    match elevated {
        Err(reason) => failed(operation, "System"@, now, reason@),
        Ok(_) => note(
            operation,
            OperatorStatusOutcome::Warning,
            "System"@,
            now,
            "error.elevation_required"@,
        ),
    }
}

pub open spec fn is_elevated(elevated: Result<bool, String>) -> bool {
    elevated matches Ok(yes) && yes
}

/// The draft with a preflight that is or is not valid, and what is said of it.
pub open spec fn with_preflight(
    draft: DraftModel,
    valid: bool,
    presentation: MigrationPreflightPresentation,
    bundles: Result<I18nManager, I18nError>,
) -> DraftModel {
    DraftModel {
        preflight_valid: valid,
        status: match presentation.shown(bundles) {
            Some(text) => text,
            None => draft.status,
        },
        ..draft
    }
}

/// The journal as it was read, or why it could not be: what is shown of it, and the
/// status behind it.
pub open spec fn shows_journal(
    before: AppController,
    ui_before: MainWindow,
    after: AppController,
    ui_after: MainWindow,
    read: Result<Vec<AuditEntry>, AuditError>,
    bundles: Result<I18nManager, I18nError>,
) -> bool {
    match read {
        Ok(entries) => {
            &&& after.last_audit_entries == Some(entries)
            &&& audit_rows(ui_after.audit_entries@) == audit_rows_of(entries@, bundles)
        },
        Err(_) => {
            &&& after.last_audit_entries == before.last_audit_entries
            &&& ui_after.audit_entries == ui_before.audit_entries
        },
    }
}

/// The status that stays: that of the operation, unless the journal could not be read.
pub open spec fn status_behind(
    status: StatusModel,
    read: Result<Vec<AuditEntry>, AuditError>,
    now: UtcTime,
) -> StatusModel {
    match read {
        Ok(_) => status,
        Err(e) => failed(OperatorStatusOperation::Audit, "Display"@, now, e.text()),
    }
}

impl AppController {
    pub fn new(now: UtcTime) -> (r: AppController)
        ensures
            r.operation_state == (OperationState {
                active: OperationKind::Idle,
                close_after_finish: false,
            }),
            r.migration_cancellation is None,
            r.migration_preflight is None,
            r.migration_preflight_presentation is Silent,
            r.last_report is None,
            r.last_audit_entries is None,
            r.last_migration_terminal is None,
            r.last_operator_status@ == note(
                OperatorStatusOperation::Application,
                OperatorStatusOutcome::Ready,
                "WinProfile"@,
                now,
                "status.ready"@,
            ),
    {
        let arguments: Vec<(String, String)> = Vec::new();
        assert(pairs(arguments@) =~= Seq::<(Seq<char>, Seq<char>)>::empty());
        AppController {
            operation_state: OperationState::new(),
            migration_cancellation: None,
            migration_preflight: None,
            migration_preflight_presentation: MigrationPreflightPresentation::Silent,
            last_report: None,
            last_audit_entries: None,
            last_migration_terminal: None,
            last_operator_status: OperatorStatus::localized(
                OperatorStatusOperation::Application,
                OperatorStatusOutcome::Ready,
                "WinProfile",
                now,
                "status.ready",
                arguments,
            ),
        }
    }

    // -----------------------------------------------------------------------
    // Telling the operator
    // -----------------------------------------------------------------------

    /// Tells the operator something and remembers it.
    pub fn publish_operator_status(
        &mut self,
        ui: &mut MainWindow,
        bundles: &Result<I18nManager, I18nError>,
        status: OperatorStatus,
    )
        ensures
            only_tells(*old(self), *old(ui), *final(self), *final(ui), status@, *bundles),
    {
        apply_operator_status(ui, &status, bundles);
        self.last_operator_status = status;
    }

    fn publish_localized_status(
        &mut self,
        ui: &mut MainWindow,
        bundles: &Result<I18nManager, I18nError>,
        now: UtcTime,
        operation: OperatorStatusOperation,
        outcome: OperatorStatusOutcome,
        target: &str,
        key: &'static str,
    )
        ensures
            only_tells(
                *old(self),
                *old(ui),
                *final(self),
                *final(ui),
                note(operation, outcome, target@, now, key@),
                *bundles,
            ),
    {
        let arguments: Vec<(String, String)> = Vec::new();
        assert(pairs(arguments@) =~= Seq::<(Seq<char>, Seq<char>)>::empty());
        let status = OperatorStatus::localized(operation, outcome, target, now, key, arguments);
        self.publish_operator_status(ui, bundles, status);
    }

    /// Tells the operator of a failure, which can be tried again.
    pub fn publish_failure(
        &mut self,
        ui: &mut MainWindow,
        bundles: &Result<I18nManager, I18nError>,
        now: UtcTime,
        operation: OperatorStatusOperation,
        target: &str,
        raw_details: &str,
    )
        ensures
            only_tells(
                *old(self),
                *old(ui),
                *final(self),
                *final(ui),
                failed(operation, target@, now, raw_details@),
                *bundles,
            ),
    {
        let status = OperatorStatus::failure(
            operation,
            target,
            now,
            raw_details,
            Some(RETRY_HINT),
        );
        self.publish_operator_status(ui, bundles, status);
    }

    // -----------------------------------------------------------------------
    // Operations
    // -----------------------------------------------------------------------

    fn begin_operation(
        &mut self,
        ui: &mut MainWindow,
        bundles: &Result<I18nManager, I18nError>,
        now: UtcTime,
        operation: OperationKind,
    ) -> (r: bool)
        ensures
            r == (old(self).operation_state.active is Idle),
            if r {
                &&& *final(self) == (AppController {
                    operation_state: OperationState {
                        active: operation,
                        ..old(self).operation_state
                    },
                    ..*old(self)
                })
                &&& *final(ui) == (MainWindow { operation_busy: true, ..*old(ui) })
            } else {
                only_tells(
                    *old(self),
                    *old(ui),
                    *final(self),
                    *final(ui),
                    busy_note(operation, now),
                    *bundles,
                )
            },
    {
        if !self.operation_state.try_begin(operation) {
            self.publish_localized_status(
                ui,
                bundles,
                now,
                operation.status_operation(),
                OperatorStatusOutcome::Warning,
                "System",
                "error.operation_busy",
            );
            return false;
        }
        ui.operation_busy = true;
        true
    }

    fn require_elevation(
        &mut self,
        ui: &mut MainWindow,
        bundles: &Result<I18nManager, I18nError>,
        now: UtcTime,
        operation: OperatorStatusOperation,
        elevated: &Result<bool, String>,
    ) -> (r: bool)
        ensures
            r == is_elevated(*elevated),
            if r {
                *final(self) == *old(self) && *final(ui) == *old(ui)
            } else {
                only_tells(
                    *old(self),
                    *old(ui),
                    *final(self),
                    *final(ui),
                    elevation_note(operation, *elevated, now),
                    *bundles,
                )
            },
    {
        match elevated {
            Ok(yes) => {
                if *yes {
                    return true;
                }
                self.publish_localized_status(
                    ui,
                    bundles,
                    now,
                    operation,
                    OperatorStatusOutcome::Warning,
                    "System",
                    "error.elevation_required",
                );
                false
            },
            Err(reason) => {
                self.publish_failure(ui, bundles, now, operation, "System", reason.as_str());
                false
            },
        }
    }

    /// Ends the operation that runs and says whether the window closes now.
    pub fn finish_operation(&mut self) -> (r: bool)
        ensures
            r == old(self).operation_state.close_after_finish,
            *final(self) == (AppController {
                operation_state: OperationState {
                    active: OperationKind::Idle,
                    close_after_finish: false,
                },
                ..*old(self)
            }),
    {
        self.operation_state.finish()
    }

    /// Whether a request that needs an idle application is heard.
    pub open spec fn is_free(self, ui: MainWindow) -> bool {
        self.operation_state.active is Idle && ui.can_switch_language()
    }

    fn free(&self, ui: &MainWindow) -> (r: bool)
        ensures
            r == self.is_free(*ui),
    {
        self.operation_state.active_operation() == OperationKind::Idle
            && ui.language_switch_enabled()
    }

    // -----------------------------------------------------------------------
    // Language
    // -----------------------------------------------------------------------

    /// What is said below the draft: of its preflight, else of how the last migration
    /// ended, else what was said before.
    pub open spec fn draft_message(
        self,
        before: Seq<char>,
        bundles: Result<I18nManager, I18nError>,
    ) -> Seq<char> {
        match self.migration_preflight_presentation.shown(bundles) {
            Some(text) => text,
            None => match self.last_migration_terminal {
                Some(terminal) => terminal.shown(bundles),
                None => before,
            },
        }
    }

    /// Shows everything that is remembered in the locale in use. Nothing is read or
    /// scanned again.
    fn render_again(&self, ui: &mut MainWindow, bundles: &Result<I18nManager, I18nError>)
        ensures
            rendered_again(*self, *old(ui), *final(ui), *bundles),
            *final(ui) == (MainWindow {
                inventory: final(ui).inventory,
                selection: final(ui).selection,
                audit_entries: final(ui).audit_entries,
                draft: final(ui).draft,
                status: final(ui).status,
                ..*old(ui)
            }),
    {
        match &self.last_report {
            Some(report) => {
                render_report(ui, report, bundles, false);
            },
            None => {},
        }
        match &self.last_audit_entries {
            Some(entries) => {
                render_audit_entries(ui, entries, bundles);
            },
            None => {},
        }
        match self.migration_preflight_presentation.render(bundles) {
            Some(message) => {
                ui.draft.status = message;
            },
            None => match &self.last_migration_terminal {
                Some(terminal) => {
                    ui.draft.status = terminal.render(bundles);
                },
                None => {},
            },
        }
        apply_operator_status(ui, &self.last_operator_status, bundles);
    }

    /// Puts another locale in use. It is refused while an operation runs or something is
    /// to be confirmed; the application itself does not change.
    pub fn change_locale(
        &self,
        ui: &mut MainWindow,
        bundles: &mut Result<I18nManager, I18nError>,
        locale: &str,
    ) -> (r: Result<bool, String>)
        ensures
            r matches Ok(changed) ==> changed == self.is_free(*old(ui)),
            r is Err ==> self.is_free(*old(ui)),
            !(r matches Ok(changed) && changed) ==> *final(ui) == *old(ui),
            match *old(bundles) {
                Err(e) => {
                    &&& *final(bundles) == *old(bundles)
                    &&& self.is_free(*old(ui)) ==> (r matches Err(reason) && reason@ == e.text())
                },
                Ok(manager) => {
                    &&& *final(bundles) matches Ok(now_in_use)
                    &&& now_in_use.english_map() == manager.english_map()
                    &&& now_in_use.french_map() == manager.french_map()
                    &&& match r {
                        Ok(changed) => {
                            &&& !changed ==> now_in_use.is_french() == manager.is_french()
                            &&& changed ==> is_supported(locale@)
                            &&& changed ==> now_in_use.is_french() == (locale@ == FRENCH_LOCALE@)
                            &&& changed ==> in_locale(*self, *old(ui), *final(ui), *final(bundles))
                            &&& changed ==> final(ui).current_locale@ == locale@
                        },
                        Err(reason) => {
                            &&& !is_supported(locale@)
                            &&& now_in_use.is_french() == manager.is_french()
                            &&& reason@ == unsupported(locale@)
                        },
                    }
                },
            },
    {
        if !self.free(ui) {
            return Ok(false);
        }
        match set_locale_and_app_strings(ui, bundles, locale) {
            Ok(()) => {},
            Err(e) => {
                return Err(e.message());
            },
        }
        self.render_again(ui, &*bundles);
        Ok(true)
    }

    // -----------------------------------------------------------------------
    // The journal
    // -----------------------------------------------------------------------

    fn apply_audit_result(
        &mut self,
        ui: &mut MainWindow,
        bundles: &Result<I18nManager, I18nError>,
        now: UtcTime,
        read: Result<Vec<AuditEntry>, AuditError>,
    )
        ensures
            journal_applied(*old(self), *old(ui), *final(self), *final(ui), read, now, *bundles),
    {
        match read {
            Ok(entries) => {
                render_audit_entries(ui, &entries, bundles);
                self.last_audit_entries = Some(entries);
            },
            Err(e) => {
                let reason = e.message();
                self.publish_failure(
                    ui,
                    bundles,
                    now,
                    OperatorStatusOperation::Audit,
                    "Display",
                    reason.as_str(),
                );
            },
        }
    }

    /// Shows the journal as it was read.
    pub fn refresh_audit_logs(
        &mut self,
        ui: &mut MainWindow,
        bundles: &Result<I18nManager, I18nError>,
        now: UtcTime,
        read: Result<Vec<AuditEntry>, AuditError>,
    )
        ensures
            journal_applied(*old(self), *old(ui), *final(self), *final(ui), read, now, *bundles),
    {
        self.apply_audit_result(ui, bundles, now, read);
    }

    /// Forgets the entries that are shown; the log itself stays.
    pub fn clear_audit_logs(
        &mut self,
        ui: &mut MainWindow,
        bundles: &Result<I18nManager, I18nError>,
        now: UtcTime,
        journal: &mut AuditLogger,
    )
        requires
            old(journal).inv(),
        ensures
            final(journal).inv(),
            final(journal)@ == Seq::<EntryModel>::empty(),
            final(journal).log_file_path == old(journal).log_file_path,
            final(self).last_audit_entries matches Some(entries) && entries@.len() == 0,
            final(ui).audit_entries@.len() == 0,
            told(
                *final(self),
                *final(ui),
                note(
                    OperatorStatusOperation::Audit,
                    OperatorStatusOutcome::Success,
                    "Display"@,
                    now,
                    "status.audit_cleared"@,
                ),
                *bundles,
            ),
            *final(self) == (AppController {
                last_audit_entries: final(self).last_audit_entries,
                last_operator_status: final(self).last_operator_status,
                ..*old(self)
            }),
            *final(ui) == (MainWindow {
                audit_entries: final(ui).audit_entries,
                status: final(ui).status,
                ..*old(ui)
            }),
    {
        journal.clear_memory();
        self.last_audit_entries = Some(Vec::new());
        ui.audit_entries = Vec::new();
        self.publish_localized_status(
            ui,
            bundles,
            now,
            OperatorStatusOperation::Audit,
            OperatorStatusOutcome::Success,
            "Display",
            "status.audit_cleared",
        );
    }

    // -----------------------------------------------------------------------
    // Scanning
    // -----------------------------------------------------------------------

    /// Begins a scan, unless an operation runs.
    pub fn scan_profiles(
        &mut self,
        ui: &mut MainWindow,
        bundles: &Result<I18nManager, I18nError>,
        now: UtcTime,
    ) -> (r: bool)
        ensures
            r == (old(self).operation_state.active is Idle),
            if r {
                begins(
                    *old(self),
                    *old(ui),
                    *final(self),
                    *final(ui),
                    OperationKind::Scan,
                    note(
                        OperatorStatusOperation::Scan,
                        OperatorStatusOutcome::Running,
                        "System"@,
                        now,
                        "status.scanning"@,
                    ),
                    *bundles,
                )
            } else {
                only_tells(
                    *old(self),
                    *old(ui),
                    *final(self),
                    *final(ui),
                    busy_note(OperationKind::Scan, now),
                    *bundles,
                )
            },
    {
        if !self.begin_operation(ui, bundles, now, OperationKind::Scan) {
            return false;
        }
        self.publish_localized_status(
            ui,
            bundles,
            now,
            OperatorStatusOperation::Scan,
            OperatorStatusOutcome::Running,
            "System",
            "status.scanning",
        );
        true
    }

    /// Takes a new report: nothing is selected in it, and what was said of a migration
    /// is over.
    pub fn cache_and_apply_report(
        &mut self,
        ui: &mut MainWindow,
        bundles: &Result<I18nManager, I18nError>,
        report: DiagnosticReport,
    )
        ensures
            starts_over(*final(self), *final(ui), report, old(ui).draft.running, *bundles),
            *final(self) == (AppController {
                last_report: final(self).last_report,
                last_migration_terminal: None,
                migration_preflight: None,
                migration_preflight_presentation: MigrationPreflightPresentation::Silent,
                ..*old(self)
            }),
            *final(ui) == (MainWindow {
                inventory: final(ui).inventory,
                selection: final(ui).selection,
                repair_fix_bak: false,
                repair_reset_state: false,
                draft: final(ui).draft,
                ..*old(ui)
            }),
    {
        render_report(ui, &report, bundles, true);
        self.last_report = Some(report);
        self.last_migration_terminal = None;
        self.migration_preflight = None;
        self.migration_preflight_presentation = MigrationPreflightPresentation::Silent;
    }

    /// Shows how a scan ended, and the journal behind it.
    pub fn queue_scan_result(
        &mut self,
        ui: &mut MainWindow,
        bundles: &Result<I18nManager, I18nError>,
        now: UtcTime,
        result: Result<DiagnosticReport, String>,
        read: Result<Vec<AuditEntry>, AuditError>,
    )
        ensures
            !final(ui).operation_busy,
            shows_journal(*old(self), *old(ui), *final(self), *final(ui), read, *bundles),
            told(
                *final(self),
                *final(ui),
                status_behind(
                    match result {
                        Ok(report) => scan_status(report),
                        Err(reason) => failed(
                            OperatorStatusOperation::Scan,
                            "System"@,
                            now,
                            reason@,
                        ),
                    },
                    read,
                    now,
                ),
                *bundles,
            ),
            match result {
                Ok(report) => refreshed(
                    *old(self),
                    *old(ui),
                    *final(self),
                    *final(ui),
                    report,
                    *bundles,
                ),
                Err(_) => only_result_shown(*old(self), *old(ui), *final(self), *final(ui)),
            },
    {
        ui.operation_busy = false;
        match result {
            Ok(report) => {
                let status = OperatorStatus::scan_completed(&report);
                self.cache_and_apply_report(ui, bundles, report);
                self.publish_operator_status(ui, bundles, status);
            },
            Err(reason) => {
                self.publish_failure(
                    ui,
                    bundles,
                    now,
                    OperatorStatusOperation::Scan,
                    "System",
                    reason.as_str(),
                );
            },
        }
        self.apply_audit_result(ui, bundles, now, read);
    }

    // -----------------------------------------------------------------------
    // The selection
    // -----------------------------------------------------------------------

    fn cache_and_apply_migration_preflight_presentation(
        &mut self,
        ui: &mut MainWindow,
        bundles: &Result<I18nManager, I18nError>,
        presentation: MigrationPreflightPresentation,
    )
        ensures
            final(ui).draft@ == with_preflight(
                old(ui).draft@,
                old(ui).draft.preflight_valid,
                presentation,
                *bundles,
            ),
            *final(ui) == (MainWindow { draft: final(ui).draft, ..*old(ui) }),
            *final(self) == (AppController {
                migration_preflight_presentation: presentation,
                ..*old(self)
            }),
    {
        match presentation.render(bundles) {
            Some(message) => {
                ui.draft.status = message;
            },
            None => {},
        }
        self.migration_preflight_presentation = presentation;
    }

    fn clear_migration_preflight(
        &mut self,
        ui: &mut MainWindow,
        bundles: &Result<I18nManager, I18nError>,
        announce_edit: bool,
    )
        ensures
            final(ui).draft@ == with_preflight(
                old(ui).draft@,
                false,
                cleared_presentation(announce_edit),
                *bundles,
            ),
            *final(ui) == (MainWindow { draft: final(ui).draft, ..*old(ui) }),
            *final(self) == (AppController {
                migration_preflight: None,
                migration_preflight_presentation: cleared_presentation(announce_edit),
                ..*old(self)
            }),
    {
        self.migration_preflight = None;
        ui.draft.preflight_valid = false;
        let presentation = if announce_edit {
            MigrationPreflightPresentation::Changed
        } else {
            MigrationPreflightPresentation::Silent
        };
        self.cache_and_apply_migration_preflight_presentation(ui, bundles, presentation);
    }

    /// Drops the preflight because what it was made for was edited.
    pub fn invalidate_migration_preflight(
        &mut self,
        ui: &mut MainWindow,
        bundles: &Result<I18nManager, I18nError>,
    )
        ensures
            preflight_dropped(
                *old(self),
                *old(ui),
                *final(self),
                *final(ui),
                old(ui).draft.target_path@,
                *bundles,
            ),
    {
        self.clear_migration_preflight(ui, bundles, true);
    }

    fn reset_migration_draft(
        &mut self,
        ui: &mut MainWindow,
        bundles: &Result<I18nManager, I18nError>,
    )
        ensures
            final(ui).draft@ == DraftModel::blank(old(ui).draft.running),
            *final(ui) == (MainWindow { draft: final(ui).draft, ..*old(ui) }),
            *final(self) == (AppController {
                migration_preflight: None,
                migration_preflight_presentation: MigrationPreflightPresentation::Silent,
                last_migration_terminal: None,
                ..*old(self)
            }),
    {
        self.clear_migration_preflight(ui, bundles, false);
        self.last_migration_terminal = None;
        ui.draft = MigrationDraft::blank(ui.draft.running);
    }

    /// Selects a row. The draft of a migration belongs to the profile: it is blank once
    /// another profile is selected. The repairs are preset to those that the profile
    /// calls for.
    pub fn select_profile(
        &mut self,
        ui: &mut MainWindow,
        bundles: &Result<I18nManager, I18nError>,
        index: usize,
    )
        ensures
            index >= old(ui).inventory.profiles@.len() ==> *final(self) == *old(self) && *final(ui)
                == *old(ui),
            index < old(ui).inventory.profiles@.len() ==> {
                let row = old(ui).inventory.profiles@[index as int]@;
                let same = old(ui).selection.sid@ == row.sid && old(ui).selection.path@
                    == row.profile_path;
                &&& final(ui).selection@ == SelectionModel::of(row, index as i32)
                &&& final(ui).repair_fix_bak == row.suggest_fix_bak
                &&& final(ui).repair_reset_state == row.suggest_reset_state
                &&& final(ui).draft@ == (if same {
                    old(ui).draft@
                } else {
                    DraftModel::blank(old(ui).draft.running)
                })
                &&& *final(ui) == (MainWindow {
                    selection: final(ui).selection,
                    repair_fix_bak: final(ui).repair_fix_bak,
                    repair_reset_state: final(ui).repair_reset_state,
                    draft: final(ui).draft,
                    ..*old(ui)
                })
                &&& *final(self) == (if same {
                    *old(self)
                } else {
                    AppController {
                        migration_preflight: None,
                        migration_preflight_presentation: MigrationPreflightPresentation::Silent,
                        last_migration_terminal: None,
                        ..*old(self)
                    }
                })
            },
    {
        if index >= ui.inventory.profiles.len() {
            return;
        }
        let same = str_eq(
            ui.selection.sid.as_str(),
            ui.inventory.profiles[index].sid.as_str(),
        ) && str_eq(
            ui.selection.path.as_str(),
            ui.inventory.profiles[index].profile_path.as_str(),
        );
        if !same {
            self.reset_migration_draft(ui, bundles);
        }
        let place: i32 = #[verifier::truncate]
        (index as i32);
        let selection = Selection::of(&ui.inventory.profiles[index], place);
        ui.selection = selection;
        ui.repair_fix_bak = ui.inventory.profiles[index].suggest_fix_bak;
        ui.repair_reset_state = ui.inventory.profiles[index].suggest_reset_state;
    }

    // -----------------------------------------------------------------------
    // The draft of a migration
    // -----------------------------------------------------------------------

    /// Puts the target below a directory that was picked. The name of the target is the
    /// one that was entered, where it can be one, else one that the user name gives.
    pub fn apply_migration_parent(
        &mut self,
        ui: &mut MainWindow,
        bundles: &Result<I18nManager, I18nError>,
        parent: &str,
    )
        ensures
            if old(self).is_free(*old(ui)) {
                preflight_dropped(
                    *old(self),
                    *old(ui),
                    *final(self),
                    *final(ui),
                    path_join(
                        parent@,
                        target_leaf(old(ui).draft.target_path@, old(ui).selection.username@),
                    ),
                    *bundles,
                )
            } else {
                *final(self) == *old(self) && *final(ui) == *old(ui)
            },
    {
        if !self.free(ui) {
            return;
        }
        let username = owned(ui.selection.username.as_str());
        let leaf = match file_name(ui.draft.target_path.as_str()) {
            Some(name) => {
                if valid_target_leaf(name.as_str()) {
                    name
                } else {
                    default_target_leaf(username.as_str())
                }
            },
            None => default_target_leaf(username.as_str()),
        };
        ui.draft.target_path = join_path(parent, leaf.as_str());
        self.invalidate_migration_preflight(ui, bundles);
    }

    /// Tells that no directory could be picked.
    pub fn report_migration_picker_failure(
        &mut self,
        ui: &mut MainWindow,
        bundles: &Result<I18nManager, I18nError>,
        now: UtcTime,
        details: String,
    )
        ensures
            final(ui).draft@ == (DraftModel { status: details@, ..old(ui).draft@ }),
            told(
                *final(self),
                *final(ui),
                failed(
                    OperatorStatusOperation::Migration,
                    old(ui).draft.target_path@,
                    now,
                    details@,
                ),
                *bundles,
            ),
            final(self).migration_preflight_presentation
                matches MigrationPreflightPresentation::RawFailure { details: kept } && kept@
                == details@,
            *final(self) == (AppController {
                migration_preflight_presentation: final(self).migration_preflight_presentation,
                last_operator_status: final(self).last_operator_status,
                ..*old(self)
            }),
            *final(ui) == (MainWindow {
                draft: final(ui).draft,
                status: final(ui).status,
                ..*old(ui)
            }),
    {
        let kept = owned(details.as_str());
        self.cache_and_apply_migration_preflight_presentation(
            ui,
            bundles,
            MigrationPreflightPresentation::RawFailure { details: kept },
        );
        let target = owned(ui.draft.target_path.as_str());
        self.publish_failure(
            ui,
            bundles,
            now,
            OperatorStatusOperation::Migration,
            target.as_str(),
            details.as_str(),
        );
    }

    /// Checks the plan that was entered, by what was found on the system. A plan that
    /// passes gets a preflight, which stands until something is edited.
    pub fn prevalidate_migration(
        &mut self,
        ui: &mut MainWindow,
        bundles: &Result<I18nManager, I18nError>,
        now: UtcTime,
        found: MigrationObservation,
    )
        ensures
            if old(self).is_free(*old(ui)) {
                prevalidated(
                    *old(self),
                    *old(ui),
                    *final(self),
                    *final(ui),
                    found,
                    now,
                    *bundles,
                )
            } else {
                *final(self) == *old(self) && *final(ui) == *old(ui)
            },
    {
        if !self.free(ui) {
            return;
        }
        let plan = migration_plan_from_ui(ui);
        match validate_migration_source(ui.selection.loaded) {
            Ok(()) => {},
            Err(key) => {
                self.clear_migration_preflight(ui, bundles, false);
                self.cache_and_apply_migration_preflight_presentation(
                    ui,
                    bundles,
                    MigrationPreflightPresentation::ValidationError { summary_key: key },
                );
                self.publish_localized_status(
                    ui,
                    bundles,
                    now,
                    OperatorStatusOperation::Migration,
                    OperatorStatusOutcome::Warning,
                    plan.source_path.as_str(),
                    key,
                );
                return;
            },
        }
        match prevalidate_migration_plan(&plan, found) {
            Ok(validated) => {
                let target = owned(validated.target_path.as_str());
                self.migration_preflight = Some(MigrationPreflightToken::new(&plan, validated));
                ui.draft.preflight_valid = true;
                self.cache_and_apply_migration_preflight_presentation(
                    ui,
                    bundles,
                    MigrationPreflightPresentation::Ready { target: target },
                );
            },
            Err(e) => {
                self.clear_migration_preflight(ui, bundles, false);
                let details = e.message();
                self.cache_and_apply_migration_preflight_presentation(
                    ui,
                    bundles,
                    MigrationPreflightPresentation::ValidationError {
                        summary_key: migration_validation_summary_key(&e),
                    },
                );
                self.publish_failure(
                    ui,
                    bundles,
                    now,
                    OperatorStatusOperation::Migration,
                    plan.target_path.as_str(),
                    details.as_str(),
                );
                assert(refused_plan(*self, *ui, plan, found, e, now, *bundles));
            },
        }
    }

    // -----------------------------------------------------------------------
    // Repair
    // -----------------------------------------------------------------------

    /// Asks the operator to confirm the repairs that are chosen. Nothing is asked where
    /// the profile is locked, none is selected, or no repair is chosen.
    pub fn request_repair_confirmation(
        &mut self,
        ui: &mut MainWindow,
        bundles: &Result<I18nManager, I18nError>,
        now: UtcTime,
    )
        ensures
            if old(ui).selection.repair_blocked_by_lock_inspection {
                only_tells(
                    *old(self),
                    *old(ui),
                    *final(self),
                    *final(ui),
                    repair_note(old(ui).selection.sid@, now, "repair.locked.status"@),
                    *bundles,
                )
            } else if old(ui).selection.sid@.len() == 0 {
                only_tells(
                    *old(self),
                    *old(ui),
                    *final(self),
                    *final(ui),
                    repair_note("Inventory"@, now, "error.profile_not_selected"@),
                    *bundles,
                )
            } else if !old(ui).repair_fix_bak && !old(ui).repair_reset_state {
                only_tells(
                    *old(self),
                    *old(ui),
                    *final(self),
                    *final(ui),
                    repair_note(old(ui).selection.sid@, now, "error.no_repair_action"@),
                    *bundles,
                )
            } else {
                &&& *final(self) == *old(self)
                &&& asks(
                    *old(ui),
                    *final(ui),
                    CONFIRM_REPAIR,
                    shown(*bundles, "repair.confirm.title"@),
                    shown_with(
                        *bundles,
                        "repair.confirm.summary"@,
                        seq![
                            ("sid"@, old(ui).selection.sid@),
                            (
                                "actions"@,
                                joined(
                                    chosen_repairs(
                                        old(ui).repair_fix_bak,
                                        old(ui).repair_reset_state,
                                        *bundles,
                                    ),
                                    ", "@,
                                ),
                            ),
                        ],
                    ),
                )
            },
    {
        let sid = owned(ui.selection.sid.as_str());
        if ui.selection.repair_blocked_by_lock_inspection {
            self.publish_localized_status(
                ui,
                bundles,
                now,
                OperatorStatusOperation::Repair,
                OperatorStatusOutcome::Warning,
                sid.as_str(),
                "repair.locked.status",
            );
            return;
        }
        if sid.as_str().is_empty() {
            self.publish_localized_status(
                ui,
                bundles,
                now,
                OperatorStatusOperation::Repair,
                OperatorStatusOutcome::Warning,
                "Inventory",
                "error.profile_not_selected",
            );
            return;
        }
        let actions = selected_repair_actions(ui, bundles);
        assert(actions@.len() == crate::text::texts(actions@).len());
        if actions.len() == 0 {
            self.publish_localized_status(
                ui,
                bundles,
                now,
                OperatorStatusOperation::Repair,
                OperatorStatusOutcome::Warning,
                sid.as_str(),
                "error.no_repair_action",
            );
            return;
        }
        let actions_text = join(&actions, ", ");
        let arguments = [("sid", sid.as_str()), ("actions", actions_text.as_str())];
        assert(arg_views(arguments@) =~= seq![("sid"@, sid@), ("actions"@, actions_text@)]);
        ui.confirmation.kind = CONFIRM_REPAIR;
        ui.confirmation.title = t(bundles, "repair.confirm.title");
        ui.confirmation.message = t_args(bundles, "repair.confirm.summary", &arguments);
        ui.confirmation.visible = true;
    }

    /// Begins a repair, or a rehearsal of one, and hands over its plan and whether the
    /// profile is loaded. A locked profile is never repaired.
    pub fn execute_repair(
        &mut self,
        ui: &mut MainWindow,
        bundles: &Result<I18nManager, I18nError>,
        now: UtcTime,
        elevated: Result<bool, String>,
        dry_run: bool,
    ) -> (r: Option<(RepairPlan, bool)>)
        ensures
            match r {
                Some((plan, loaded)) => {
                    &&& !old(ui).selection.repair_blocked_by_lock_inspection
                    &&& is_elevated(elevated)
                    &&& is_chosen_repair(plan, *old(ui), dry_run)
                    &&& loaded == old(ui).selection.loaded
                    &&& begins(
                        *old(self),
                        *old(ui),
                        *final(self),
                        *final(ui),
                        OperationKind::Repair,
                        note(
                            OperatorStatusOperation::Repair,
                            OperatorStatusOutcome::Running,
                            old(ui).selection.sid@,
                            now,
                            "status.repairing"@,
                        ),
                        *bundles,
                    )
                },
                None => only_tells(
                    *old(self),
                    *old(ui),
                    *final(self),
                    *final(ui),
                    if old(ui).selection.repair_blocked_by_lock_inspection {
                        repair_note(old(ui).selection.sid@, now, "repair.locked.status"@)
                    } else if !is_elevated(elevated) {
                        elevation_note(OperatorStatusOperation::Repair, elevated, now)
                    } else {
                        busy_note(OperationKind::Repair, now)
                    },
                    *bundles,
                ),
            },
            r is Some <==> !old(ui).selection.repair_blocked_by_lock_inspection && is_elevated(
                elevated,
            ) && old(self).operation_state.active is Idle,
    {
        let sid = owned(ui.selection.sid.as_str());
        if ui.selection.repair_blocked_by_lock_inspection {
            self.publish_localized_status(
                ui,
                bundles,
                now,
                OperatorStatusOperation::Repair,
                OperatorStatusOutcome::Warning,
                sid.as_str(),
                "repair.locked.status",
            );
            return None;
        }
        if !self.require_elevation(ui, bundles, now, OperatorStatusOperation::Repair, &elevated) {
            return None;
        }
        if !self.begin_operation(ui, bundles, now, OperationKind::Repair) {
            return None;
        }
        let plan = RepairPlan {
            sid: owned(sid.as_str()),
            canonical_sid: trim_suffixes(sid.as_str(), ".bak"),
            profile_path: owned(ui.selection.path.as_str()),
            fix_bak: ui.repair_fix_bak,
            reset_state: ui.repair_reset_state,
            unlock_hive: false,
            dry_run: dry_run,
        };
        let loaded = ui.selection.loaded;
        self.publish_localized_status(
            ui,
            bundles,
            now,
            OperatorStatusOperation::Repair,
            OperatorStatusOutcome::Running,
            sid.as_str(),
            "status.repairing",
        );
        Some((plan, loaded))
    }

    /// Whether the profiles are scanned again behind a repair: where it changed something.
    pub fn rescans_after_repair(repaired: bool, dry_run: bool) -> (r: bool)
        ensures
            r == (repaired && !dry_run),
    {
        repaired && !dry_run
    }

    /// Shows how a repair ended, what the profiles look like behind it, and the journal.
    pub fn show_repair_result(
        &mut self,
        ui: &mut MainWindow,
        bundles: &Result<I18nManager, I18nError>,
        now: UtcTime,
        target: &str,
        result: Result<(), String>,
        report: Option<Result<DiagnosticReport, String>>,
        read: Result<Vec<AuditEntry>, AuditError>,
    )
        ensures
            !final(ui).operation_busy,
            shows_journal(*old(self), *old(ui), *final(self), *final(ui), read, *bundles),
            told(
                *final(self),
                *final(ui),
                status_behind(repair_end(target@, result, report, now), read, now),
                *bundles,
            ),
            match (result, report) {
                (Ok(_), Some(Ok(fresh))) => refreshed(
                    *old(self),
                    *old(ui),
                    *final(self),
                    *final(ui),
                    fresh,
                    *bundles,
                ),
                _ => only_result_shown(*old(self), *old(ui), *final(self), *final(ui)),
            },
    {
        ui.operation_busy = false;
        match result {
            Ok(()) => match report {
                Some(Ok(fresh)) => {
                    self.cache_and_apply_report(ui, bundles, fresh);
                    self.publish_localized_status(
                        ui,
                        bundles,
                        now,
                        OperatorStatusOperation::Repair,
                        OperatorStatusOutcome::Success,
                        target,
                        "repair.success.message",
                    );
                },
                Some(Err(reason)) => {
                    let arguments: Vec<(String, String)> = Vec::new();
                    assert(pairs(arguments@) =~= Seq::<(Seq<char>, Seq<char>)>::empty());
                    let mut status = OperatorStatus::localized(
                        OperatorStatusOperation::Repair,
                        OperatorStatusOutcome::Warning,
                        target,
                        now,
                        "status.repair_refresh_warning",
                        arguments,
                    );
                    status.raw_details = Some(reason);
                    status.recovery_hint_key = Some(RETRY_HINT);
                    self.publish_operator_status(ui, bundles, status);
                },
                None => {
                    self.publish_localized_status(
                        ui,
                        bundles,
                        now,
                        OperatorStatusOperation::Repair,
                        OperatorStatusOutcome::Success,
                        target,
                        "status.completed",
                    );
                },
            },
            Err(reason) => {
                self.publish_failure(
                    ui,
                    bundles,
                    now,
                    OperatorStatusOperation::Repair,
                    target,
                    reason.as_str(),
                );
            },
        }
        self.apply_audit_result(ui, bundles, now, read);
    }

    // -----------------------------------------------------------------------
    // The console
    // -----------------------------------------------------------------------

    /// Asks the operator to confirm a console with the rights of the system.
    pub fn request_ti_confirmation(
        &self,
        ui: &mut MainWindow,
        bundles: &Result<I18nManager, I18nError>,
    )
        ensures
            asks(
                *old(ui),
                *final(ui),
                CONFIRM_TRUSTED_INSTALLER,
                shown(*bundles, "maintenance.confirm.title"@),
                shown(*bundles, "maintenance.confirm.message"@),
            ),
    {
        ui.confirmation.kind = CONFIRM_TRUSTED_INSTALLER;
        ui.confirmation.title = t(bundles, "maintenance.confirm.title");
        ui.confirmation.message = t(bundles, "maintenance.confirm.message");
        ui.confirmation.visible = true;
    }

    /// Begins the launch of a console.
    pub fn launch_ti_console(
        &mut self,
        ui: &mut MainWindow,
        bundles: &Result<I18nManager, I18nError>,
        now: UtcTime,
        elevated: Result<bool, String>,
    ) -> (r: bool)
        ensures
            r == (is_elevated(elevated) && old(self).operation_state.active is Idle),
            if r {
                begins(
                    *old(self),
                    *old(ui),
                    *final(self),
                    *final(ui),
                    OperationKind::TrustedInstaller,
                    note(
                        OperatorStatusOperation::TrustedInstaller,
                        OperatorStatusOutcome::Running,
                        TI_AUDIT_TARGET@,
                        now,
                        "status.launching_ti"@,
                    ),
                    *bundles,
                )
            } else {
                only_tells(
                    *old(self),
                    *old(ui),
                    *final(self),
                    *final(ui),
                    if !is_elevated(elevated) {
                        elevation_note(OperatorStatusOperation::TrustedInstaller, elevated, now)
                    } else {
                        busy_note(OperationKind::TrustedInstaller, now)
                    },
                    *bundles,
                )
            },
    {
        if !self.require_elevation(
            ui,
            bundles,
            now,
            OperatorStatusOperation::TrustedInstaller,
            &elevated,
        ) {
            return false;
        }
        if !self.begin_operation(ui, bundles, now, OperationKind::TrustedInstaller) {
            return false;
        }
        self.publish_localized_status(
            ui,
            bundles,
            now,
            OperatorStatusOperation::TrustedInstaller,
            OperatorStatusOutcome::Running,
            TI_AUDIT_TARGET,
            "status.launching_ti",
        );
        true
    }

    /// Shows how the launch of a console ended, and the journal behind it.
    pub fn show_launch_result(
        &mut self,
        ui: &mut MainWindow,
        bundles: &Result<I18nManager, I18nError>,
        now: UtcTime,
        result: Result<u32, String>,
        read: Result<Vec<AuditEntry>, AuditError>,
    )
        ensures
            shows_journal(*old(self), *old(ui), *final(self), *final(ui), read, *bundles),
            told(
                *final(self),
                *final(ui),
                status_behind(
                    match result {
                        Ok(pid) => note(
                            OperatorStatusOperation::TrustedInstaller,
                            OperatorStatusOutcome::Success,
                            TI_AUDIT_TARGET@,
                            now,
                            "status.ti_success"@,
                        ).with(seq![("pid"@, decimal(pid as nat))]),
                        Err(reason) => failed(
                            OperatorStatusOperation::TrustedInstaller,
                            TI_AUDIT_TARGET@,
                            now,
                            reason@,
                        ),
                    },
                    read,
                    now,
                ),
                *bundles,
            ),
            only_result_shown(*old(self), *old(ui), *final(self), *final(ui)),
    {
        ui.operation_busy = false;
        match result {
            Ok(pid) => {
                let mut arguments: Vec<(String, String)> = Vec::new();
                arguments.push((owned("pid"), dec(pid as u64)));
                assert(pairs(arguments@) =~= seq![("pid"@, decimal(pid as nat))]);
                let status = OperatorStatus::localized(
                    OperatorStatusOperation::TrustedInstaller,
                    OperatorStatusOutcome::Success,
                    TI_AUDIT_TARGET,
                    now,
                    "status.ti_success",
                    arguments,
                );
                self.publish_operator_status(ui, bundles, status);
            },
            Err(reason) => {
                self.publish_failure(
                    ui,
                    bundles,
                    now,
                    OperatorStatusOperation::TrustedInstaller,
                    TI_AUDIT_TARGET,
                    reason.as_str(),
                );
            },
        }
        self.apply_audit_result(ui, bundles, now, read);
    }

    // -----------------------------------------------------------------------
    // Export
    // -----------------------------------------------------------------------

    /// Begins an export of the journal.
    pub fn export_audit(
        &mut self,
        ui: &mut MainWindow,
        bundles: &Result<I18nManager, I18nError>,
        now: UtcTime,
    ) -> (r: bool)
        ensures
            r == (old(self).operation_state.active is Idle),
            if r {
                begins(
                    *old(self),
                    *old(ui),
                    *final(self),
                    *final(ui),
                    OperationKind::Export,
                    note(
                        OperatorStatusOperation::Export,
                        OperatorStatusOutcome::Running,
                        "Exports"@,
                        now,
                        "status.exporting"@,
                    ),
                    *bundles,
                )
            } else {
                only_tells(
                    *old(self),
                    *old(ui),
                    *final(self),
                    *final(ui),
                    busy_note(OperationKind::Export, now),
                    *bundles,
                )
            },
    {
        if !self.begin_operation(ui, bundles, now, OperationKind::Export) {
            return false;
        }
        self.publish_localized_status(
            ui,
            bundles,
            now,
            OperatorStatusOperation::Export,
            OperatorStatusOutcome::Running,
            "Exports",
            "status.exporting",
        );
        true
    }

    /// Shows where the journal was exported to, or why it was not.
    pub fn show_export_result(
        &mut self,
        ui: &mut MainWindow,
        bundles: &Result<I18nManager, I18nError>,
        now: UtcTime,
        result: Result<String, String>,
    )
        ensures
            told(
                *final(self),
                *final(ui),
                match result {
                    Ok(path) => note(
                        OperatorStatusOperation::Export,
                        OperatorStatusOutcome::Success,
                        path@,
                        now,
                        "status.export_success"@,
                    ).with(seq![("path"@, path@)]),
                    Err(reason) => failed(
                        OperatorStatusOperation::Export,
                        "Exports"@,
                        now,
                        reason@,
                    ),
                },
                *bundles,
            ),
            *final(self) == (AppController {
                last_operator_status: final(self).last_operator_status,
                ..*old(self)
            }),
            *final(ui) == (MainWindow {
                operation_busy: false,
                status: final(ui).status,
                ..*old(ui)
            }),
    {
        ui.operation_busy = false;
        match result {
            Ok(path) => {
                let mut arguments: Vec<(String, String)> = Vec::new();
                arguments.push((owned("path"), owned(path.as_str())));
                assert(pairs(arguments@) =~= seq![("path"@, path@)]);
                let status = OperatorStatus::localized(
                    OperatorStatusOperation::Export,
                    OperatorStatusOutcome::Success,
                    path.as_str(),
                    now,
                    "status.export_success",
                    arguments,
                );
                self.publish_operator_status(ui, bundles, status);
            },
            Err(reason) => {
                self.publish_failure(
                    ui,
                    bundles,
                    now,
                    OperatorStatusOperation::Export,
                    "Exports",
                    reason.as_str(),
                );
            },
        }
    }

    // -----------------------------------------------------------------------
    // Migration
    // -----------------------------------------------------------------------

    /// Begins the migration that was entered and hands over its plan. It takes the
    /// preflight of exactly this plan, which is used up, and a process that is elevated
    /// and idle. A migration that begins behind a request to close is cancelled at once.
    pub fn start_migration(
        &mut self,
        ui: &mut MainWindow,
        bundles: &Result<I18nManager, I18nError>,
        now: UtcTime,
        elevated: Result<bool, String>,
    ) -> (r: Option<MigrationPlan>)
        ensures
            migration_started(
                *old(self),
                *old(ui),
                *final(self),
                *final(ui),
                elevated,
                now,
                *bundles,
                r,
            ),
    {
        let plan = migration_plan_from_ui(ui);
        match validate_migration_source(ui.selection.loaded) {
            Ok(()) => {},
            Err(key) => {
                self.publish_localized_status(
                    ui,
                    bundles,
                    now,
                    OperatorStatusOperation::Migration,
                    OperatorStatusOutcome::Warning,
                    plan.source_path.as_str(),
                    key,
                );
                return None;
            },
        }
        if plan.source_path.as_str().is_empty() || plan.target_path.as_str().is_empty() || (
        !plan.include_roaming_appdata && !plan.include_personal_folders) {
            self.publish_localized_status(
                ui,
                bundles,
                now,
                OperatorStatusOperation::Migration,
                OperatorStatusOutcome::Warning,
                plan.source_path.as_str(),
                "error.migration_scope",
            );
            return None;
        }
        let held = match &self.migration_preflight {
            Some(token) => token.matches(&plan),
            None => false,
        };
        self.migration_preflight = None;
        if !held {
            self.cache_and_apply_migration_preflight_presentation(
                ui,
                bundles,
                MigrationPreflightPresentation::Changed,
            );
            ui.draft.preflight_valid = false;
            self.publish_localized_status(
                ui,
                bundles,
                now,
                OperatorStatusOperation::Migration,
                OperatorStatusOutcome::Warning,
                plan.target_path.as_str(),
                "error.migration_prevalidation_required",
            );
            return None;
        }
        self.cache_and_apply_migration_preflight_presentation(
            ui,
            bundles,
            MigrationPreflightPresentation::Silent,
        );
        ui.draft.preflight_valid = false;
        if !self.require_elevation(
            ui,
            bundles,
            now,
            OperatorStatusOperation::Migration,
            &elevated,
        ) {
            return None;
        }
        if !self.begin_operation(ui, bundles, now, OperationKind::Migration) {
            return None;
        }
        let mut cancelled = false;
        self.operation_state.cancel_if_close_deferred(&mut cancelled);
        self.migration_cancellation = Some(cancelled);
        ui.draft.running = true;
        ui.draft.progress = 0;
        self.publish_localized_status(
            ui,
            bundles,
            now,
            OperatorStatusOperation::Migration,
            OperatorStatusOutcome::Running,
            plan.source_path.as_str(),
            "status.migrating",
        );
        Some(plan)
    }

    /// Whether the migration that runs is to stop.
    pub fn is_migration_cancelled(&self) -> (r: bool)
        ensures
            r == (self.migration_cancellation == Some(true)),
    {
        match self.migration_cancellation {
            Some(cancelled) => cancelled,
            None => false,
        }
    }

    /// Has the migration that runs stop; nothing happens where none runs.
    pub fn cancel_migration(
        &mut self,
        ui: &mut MainWindow,
        bundles: &Result<I18nManager, I18nError>,
        now: UtcTime,
    )
        ensures
            if old(self).migration_cancellation is Some {
                &&& told(
                    *final(self),
                    *final(ui),
                    cancelling_note(old(ui).selection.path@, now),
                    *bundles,
                )
                &&& *final(self) == (AppController {
                    migration_cancellation: Some(true),
                    last_operator_status: final(self).last_operator_status,
                    ..*old(self)
                })
                &&& *final(ui) == (MainWindow { status: final(ui).status, ..*old(ui) })
            } else {
                *final(self) == *old(self) && *final(ui) == *old(ui)
            },
    {
        if self.migration_cancellation.is_none() {
            return;
        }
        self.migration_cancellation = Some(true);
        let target = owned(ui.selection.path.as_str());
        self.publish_localized_status(
            ui,
            bundles,
            now,
            OperatorStatusOperation::Migration,
            OperatorStatusOutcome::Running,
            target.as_str(),
            "status.cancelling",
        );
    }

    /// Ends the migration that ran and says whether the window closes now.
    pub fn finish_migration(&mut self) -> (r: bool)
        ensures
            r == old(self).operation_state.close_after_finish,
            *final(self) == (AppController {
                migration_cancellation: None,
                operation_state: OperationState {
                    active: OperationKind::Idle,
                    close_after_finish: false,
                },
                ..*old(self)
            }),
    {
        self.migration_cancellation = None;
        self.finish_operation()
    }

    /// Shows how a migration ended and remembers it; what was said of its preflight is over.
    pub fn cache_and_apply_migration_terminal(
        &mut self,
        ui: &mut MainWindow,
        bundles: &Result<I18nManager, I18nError>,
        presentation: MigrationTerminalPresentation,
    )
        ensures
            final(ui).draft@ == (DraftModel {
                status: presentation.shown(*bundles),
                ..old(ui).draft@
            }),
            *final(ui) == (MainWindow { draft: final(ui).draft, ..*old(ui) }),
            *final(self) == (AppController {
                last_migration_terminal: Some(presentation),
                migration_preflight_presentation: MigrationPreflightPresentation::Silent,
                ..*old(self)
            }),
    {
        ui.draft.status = presentation.render(bundles);
        self.last_migration_terminal = Some(presentation);
        self.migration_preflight_presentation = MigrationPreflightPresentation::Silent;
    }

    /// Shows how a migration ended, and the journal behind it.
    pub fn show_migration_result(
        &mut self,
        ui: &mut MainWindow,
        bundles: &Result<I18nManager, I18nError>,
        now: UtcTime,
        target: &str,
        result: Result<MigrationReceipt, MigrationError>,
        read: Result<Vec<AuditEntry>, AuditError>,
    )
        ensures
            shows_journal(*old(self), *old(ui), *final(self), *final(ui), read, *bundles),
            told(
                *final(self),
                *final(ui),
                status_behind(migration_end(target@, result, now), read, now),
                *bundles,
            ),
            final(self).last_migration_terminal matches Some(terminal) && ends_as(terminal, result)
                && final(ui).draft@ == (DraftModel {
                running: false,
                progress: if result is Ok {
                    100
                } else {
                    old(ui).draft.progress
                },
                status: terminal.shown(*bundles),
                ..old(ui).draft@
            }),
            *final(self) == (AppController {
                last_migration_terminal: final(self).last_migration_terminal,
                migration_preflight_presentation: MigrationPreflightPresentation::Silent,
                last_audit_entries: final(self).last_audit_entries,
                last_operator_status: final(self).last_operator_status,
                ..*old(self)
            }),
            *final(ui) == (MainWindow {
                operation_busy: false,
                draft: final(ui).draft,
                audit_entries: final(ui).audit_entries,
                status: final(ui).status,
                ..*old(ui)
            }),
    {
        ui.operation_busy = false;
        ui.draft.running = false;
        match result {
            Ok(receipt) => {
                let hash = first_chars(receipt.manifest_sha256.as_str(), SHOWN_HASH_CHARS);
                let mut arguments: Vec<(String, String)> = Vec::new();
                arguments.push((owned("files"), dec(receipt.copied_files as u64)));
                arguments.push((owned("bytes"), dec(receipt.copied_bytes)));
                arguments.push((owned("hash"), owned(hash.as_str())));
                assert(pairs(arguments@) =~= success_arguments(
                    receipt.copied_files as nat,
                    receipt.copied_bytes as nat,
                    hash@,
                ));
                ui.draft.progress = 100;
                self.cache_and_apply_migration_terminal(
                    ui,
                    bundles,
                    MigrationTerminalPresentation::Success {
                        files: receipt.copied_files,
                        bytes: receipt.copied_bytes,
                        manifest_hash: hash,
                    },
                );
                let status = OperatorStatus::localized(
                    OperatorStatusOperation::Migration,
                    OperatorStatusOutcome::Success,
                    target,
                    now,
                    "migration.success",
                    arguments,
                );
                self.publish_operator_status(ui, bundles, status);
            },
            Err(MigrationError::Cancelled) => {
                self.cache_and_apply_migration_terminal(
                    ui,
                    bundles,
                    MigrationTerminalPresentation::Cancelled,
                );
                self.publish_localized_status(
                    ui,
                    bundles,
                    now,
                    OperatorStatusOperation::Migration,
                    OperatorStatusOutcome::Cancelled,
                    target,
                    "status.cancelled",
                );
            },
            Err(e) => {
                let details = e.message();
                let kept = owned(details.as_str());
                self.cache_and_apply_migration_terminal(
                    ui,
                    bundles,
                    MigrationTerminalPresentation::Error { details: kept },
                );
                self.publish_failure(
                    ui,
                    bundles,
                    now,
                    OperatorStatusOperation::Migration,
                    target,
                    details.as_str(),
                );
            },
        }
        self.apply_audit_result(ui, bundles, now, read);
    }

    // -----------------------------------------------------------------------
    // Closing
    // -----------------------------------------------------------------------

    /// Answers a request to close the window. It closes only where nothing runs; a
    /// migration is cancelled, and the window closes behind it.
    pub fn handle_close_requested(
        &mut self,
        ui: &mut MainWindow,
        bundles: &Result<I18nManager, I18nError>,
        now: UtcTime,
    ) -> (r: CloseRequestResponse)
        ensures
            r is HideWindow <==> old(self).operation_state.active is Idle,
            match old(self).operation_state.active.policy() {
                ClosePolicy::Allow => *final(self) == *old(self) && *final(ui) == *old(ui),
                ClosePolicy::Block => only_tells(
                    *old(self),
                    *old(ui),
                    *final(self),
                    *final(ui),
                    note(
                        old(self).operation_state.active.part(),
                        OperatorStatusOutcome::Warning,
                        "WinProfile"@,
                        now,
                        "status.close_blocked_repair"@,
                    ),
                    *bundles,
                ),
                ClosePolicy::CancelMigration => {
                    &&& told(
                        *final(self),
                        *final(ui),
                        cancelling_note(old(ui).selection.path@, now),
                        *bundles,
                    )
                    &&& *final(self) == (AppController {
                        operation_state: OperationState {
                            close_after_finish: true,
                            ..old(self).operation_state
                        },
                        migration_cancellation: if old(self).migration_cancellation is Some {
                            Some(true)
                        } else {
                            None
                        },
                        last_operator_status: final(self).last_operator_status,
                        ..*old(self)
                    })
                    &&& *final(ui) == (MainWindow { status: final(ui).status, ..*old(ui) })
                },
            },
    {
        let operation = self.operation_state.active_operation();
        match operation.close_policy() {
            ClosePolicy::Allow => CloseRequestResponse::HideWindow,
            ClosePolicy::Block => {
                self.publish_localized_status(
                    ui,
                    bundles,
                    now,
                    operation.status_operation(),
                    OperatorStatusOutcome::Warning,
                    "WinProfile",
                    "status.close_blocked_repair",
                );
                CloseRequestResponse::KeepWindowShown
            },
            ClosePolicy::CancelMigration => {
                self.operation_state.request_close_after_finish();
                if self.migration_cancellation.is_some() {
                    self.migration_cancellation = Some(true);
                }
                let target = owned(ui.selection.path.as_str());
                self.publish_localized_status(
                    ui,
                    bundles,
                    now,
                    OperatorStatusOperation::Migration,
                    OperatorStatusOutcome::Running,
                    target.as_str(),
                    "status.cancelling",
                );
                CloseRequestResponse::KeepWindowShown
            },
        }
    }
}

/// The status of a repair that is not begun.
pub open spec fn repair_note(target: Seq<char>, now: UtcTime, key: Seq<char>) -> StatusModel {
    note(OperatorStatusOperation::Repair, OperatorStatusOutcome::Warning, target, now, key)
}

/// The status of a migration that is being cancelled.
pub open spec fn cancelling_note(target: Seq<char>, now: UtcTime) -> StatusModel {
    note(
        OperatorStatusOperation::Migration,
        OperatorStatusOutcome::Running,
        target,
        now,
        "status.cancelling"@,
    )
}

/// The status of a migration that is not begun.
pub open spec fn migration_note(target: Seq<char>, now: UtcTime, key: Seq<char>) -> StatusModel {
    note(OperatorStatusOperation::Migration, OperatorStatusOutcome::Warning, target, now, key)
}

/// Whether the operator is asked to confirm something, and nothing else happened.
pub open spec fn asks(
    before: MainWindow,
    after: MainWindow,
    kind: i32,
    title: Seq<char>,
    message: Seq<char>,
) -> bool {
    &&& after.confirmation.visible
    &&& after.confirmation.kind == kind
    &&& after.confirmation.title@ == title
    &&& after.confirmation.message@ == message
    &&& after == (MainWindow { confirmation: after.confirmation, ..before })
}

/// Whether a plan is that of the repairs that are chosen. A hive is never unlocked.
pub open spec fn is_chosen_repair(plan: RepairPlan, ui: MainWindow, dry_run: bool) -> bool {
    &&& plan.sid@ == ui.selection.sid@
    &&& plan.canonical_sid@ == without_suffixes(ui.selection.sid@, ".bak"@)
    &&& plan.profile_path@ == ui.selection.path@
    &&& plan.fix_bak == ui.repair_fix_bak
    &&& plan.reset_state == ui.repair_reset_state
    &&& !plan.unlock_hive
    &&& plan.dry_run == dry_run
}

/// The status behind a repair.
pub open spec fn repair_end(
    target: Seq<char>,
    result: Result<(), String>,
    report: Option<Result<DiagnosticReport, String>>,
    now: UtcTime,
) -> StatusModel {
    match result {
        Err(reason) => failed(OperatorStatusOperation::Repair, target, now, reason@),
        Ok(_) => match report {
            None => note(
                OperatorStatusOperation::Repair,
                OperatorStatusOutcome::Success,
                target,
                now,
                "status.completed"@,
            ),
            Some(Ok(_)) => note(
                OperatorStatusOperation::Repair,
                OperatorStatusOutcome::Success,
                target,
                now,
                "repair.success.message"@,
            ),
            Some(Err(reason)) => StatusModel {
                raw_details: Some(reason@),
                recovery_hint_key: Some(RETRY_HINT@),
                ..repair_note(target, now, "status.repair_refresh_warning"@)
            },
        },
    }
}

/// Whether a migration has neither a source, a target nor anything to copy.
pub open spec fn lacks_scope(ui: MainWindow) -> bool {
    ui.selection.path@.len() == 0 || ui.draft.target_path@.len() == 0 || (
    !ui.draft.include_roaming && !ui.draft.include_docs)
}

/// Whether the preflight that is held is that of the plan that was entered.
pub open spec fn holds_preflight(controller: AppController, ui: MainWindow) -> bool {
    &&& controller.migration_preflight matches Some(token)
    &&& token.source_sid@ == ui.selection.sid@
    &&& token.source_path@ == ui.selection.path@
    &&& token.target_path@ == ui.draft.target_path@
    &&& token.include_roaming_appdata == ui.draft.include_roaming
    &&& token.include_personal_folders == ui.draft.include_docs
    &&& same_path(token.validated.source_path@, ui.selection.path@)
    &&& same_path(token.validated.target_path@, ui.draft.target_path@)
}

/// What a request to begin a migration leaves behind.
pub open spec fn migration_started(
    before: AppController,
    ui_before: MainWindow,
    after: AppController,
    ui_after: MainWindow,
    elevated: Result<bool, String>,
    now: UtcTime,
    bundles: Result<I18nManager, I18nError>,
    r: Option<MigrationPlan>,
) -> bool {
    if ui_before.selection.loaded {
        r is None && only_tells(
            before,
            ui_before,
            after,
            ui_after,
            migration_note(ui_before.selection.path@, now, MIGRATION_SOURCE_LOADED_ERROR@),
            bundles,
        )
    } else if lacks_scope(ui_before) {
        r is None && only_tells(
            before,
            ui_before,
            after,
            ui_after,
            migration_note(ui_before.selection.path@, now, "error.migration_scope"@),
            bundles,
        )
    } else if !holds_preflight(before, ui_before) {
        &&& r is None
        &&& told(
            after,
            ui_after,
            migration_note(
                ui_before.draft.target_path@,
                now,
                "error.migration_prevalidation_required"@,
            ),
            bundles,
        )
        &&& after == (AppController {
            migration_preflight: None,
            migration_preflight_presentation: MigrationPreflightPresentation::Changed,
            last_operator_status: after.last_operator_status,
            ..before
        })
        &&& ui_after.draft@ == with_preflight(
            ui_before.draft@,
            false,
            MigrationPreflightPresentation::Changed,
            bundles,
        )
        &&& ui_after == (MainWindow {
            draft: ui_after.draft,
            status: ui_after.status,
            ..ui_before
        })
    } else if !is_elevated(elevated) || !(before.operation_state.active is Idle) {
        &&& r is None
        &&& told(
            after,
            ui_after,
            if !is_elevated(elevated) {
                elevation_note(OperatorStatusOperation::Migration, elevated, now)
            } else {
                busy_note(OperationKind::Migration, now)
            },
            bundles,
        )
        &&& after == (AppController {
            migration_preflight: None,
            migration_preflight_presentation: MigrationPreflightPresentation::Silent,
            last_operator_status: after.last_operator_status,
            ..before
        })
        &&& ui_after.draft@ == (DraftModel { preflight_valid: false, ..ui_before.draft@ })
        &&& ui_after == (MainWindow {
            draft: ui_after.draft,
            status: ui_after.status,
            ..ui_before
        })
    } else {
        &&& r matches Some(plan) && is_entered_plan(plan, ui_before)
        &&& told(
            after,
            ui_after,
            note(
                OperatorStatusOperation::Migration,
                OperatorStatusOutcome::Running,
                ui_before.selection.path@,
                now,
                "status.migrating"@,
            ),
            bundles,
        )
        &&& after == (AppController {
            operation_state: OperationState {
                active: OperationKind::Migration,
                ..before.operation_state
            },
            migration_cancellation: Some(before.operation_state.close_after_finish),
            migration_preflight: None,
            migration_preflight_presentation: MigrationPreflightPresentation::Silent,
            last_operator_status: after.last_operator_status,
            ..before
        })
        &&& ui_after.draft@ == (DraftModel {
            preflight_valid: false,
            running: true,
            progress: 0,
            ..ui_before.draft@
        })
        &&& ui_after == (MainWindow {
            operation_busy: true,
            draft: ui_after.draft,
            status: ui_after.status,
            ..ui_before
        })
    }
}

/// How many characters of the hash of a manifest are shown.
pub const SHOWN_HASH_CHARS: usize = 16;

/// The start of a text.
pub open spec fn start_of(text: Seq<char>, count: nat) -> Seq<char> {
    if text.len() <= count {
        text
    } else {
        text.take(count as int)
    }
}

fn first_chars(text: &str, count: usize) -> (r: String)
    ensures
        r@ == start_of(text@, count as nat),
{
    let chars = chars_of(text);
    let end: usize = if chars.len() < count {
        chars.len()
    } else {
        count
    };
    assert(chars@.subrange(0, end as int) =~= start_of(text@, count as nat));
    copy_range(&chars, 0, end)
}

/// Whether an end that is kept is that of a migration.
pub open spec fn ends_as(
    terminal: MigrationTerminalPresentation,
    result: Result<MigrationReceipt, MigrationError>,
) -> bool {
    match result {
        Ok(receipt) => terminal matches MigrationTerminalPresentation::Success {
            files,
            bytes,
            manifest_hash,
        } && files == receipt.copied_files && bytes == receipt.copied_bytes && manifest_hash@
            == start_of(receipt.manifest_sha256@, SHOWN_HASH_CHARS as nat),
        Err(MigrationError::Cancelled) => terminal is Cancelled,
        Err(e) => terminal matches MigrationTerminalPresentation::Error { details } && details@
            == e.text(),
    }
}

/// The status behind a migration.
pub open spec fn migration_end(
    target: Seq<char>,
    result: Result<MigrationReceipt, MigrationError>,
    now: UtcTime,
) -> StatusModel {
    match result {
        Ok(receipt) => note(
            OperatorStatusOperation::Migration,
            OperatorStatusOutcome::Success,
            target,
            now,
            "migration.success"@,
        ).with(
            success_arguments(
                receipt.copied_files as nat,
                receipt.copied_bytes as nat,
                start_of(receipt.manifest_sha256@, SHOWN_HASH_CHARS as nat),
            ),
        ),
        Err(MigrationError::Cancelled) => note(
            OperatorStatusOperation::Migration,
            OperatorStatusOutcome::Cancelled,
            target,
            now,
            "status.cancelled"@,
        ),
        Err(e) => failed(OperatorStatusOperation::Migration, target, now, e.text()),
    }
}

/// Whether a new report is shown from scratch.
pub open spec fn starts_over(
    after: AppController,
    ui_after: MainWindow,
    report: DiagnosticReport,
    running: bool,
    bundles: Result<I18nManager, I18nError>,
) -> bool {
    &&& after.last_report == Some(report)
    &&& shows_report(ui_after.inventory, report, bundles)
    &&& ui_after.selection@ == SelectionModel::nothing()
    &&& ui_after.draft@ == DraftModel::blank(running)
}

/// Whether a new report was taken behind an operation, and nothing but it, the journal
/// and the status changed.
pub open spec fn refreshed(
    before: AppController,
    ui_before: MainWindow,
    after: AppController,
    ui_after: MainWindow,
    report: DiagnosticReport,
    bundles: Result<I18nManager, I18nError>,
) -> bool {
    &&& starts_over(after, ui_after, report, ui_before.draft.running, bundles)
    &&& after == (AppController {
        last_report: after.last_report,
        last_migration_terminal: None,
        migration_preflight: None,
        migration_preflight_presentation: MigrationPreflightPresentation::Silent,
        last_audit_entries: after.last_audit_entries,
        last_operator_status: after.last_operator_status,
        ..before
    })
    &&& ui_after == (MainWindow {
        operation_busy: false,
        inventory: ui_after.inventory,
        selection: ui_after.selection,
        repair_fix_bak: false,
        repair_reset_state: false,
        draft: ui_after.draft,
        audit_entries: ui_after.audit_entries,
        status: ui_after.status,
        ..ui_before
    })
}

/// Whether behind an operation nothing but the journal and the status changed.
pub open spec fn only_result_shown(
    before: AppController,
    ui_before: MainWindow,
    after: AppController,
    ui_after: MainWindow,
) -> bool {
    &&& after == (AppController {
        last_audit_entries: after.last_audit_entries,
        last_operator_status: after.last_operator_status,
        ..before
    })
    &&& ui_after == (MainWindow {
        operation_busy: false,
        audit_entries: ui_after.audit_entries,
        status: ui_after.status,
        ..ui_before
    })
}

/// What is said of a preflight that was dropped.
pub open spec fn cleared_presentation(announce_edit: bool) -> MigrationPreflightPresentation {
    if announce_edit {
        MigrationPreflightPresentation::Changed
    } else {
        MigrationPreflightPresentation::Silent
    }
}

/// Whether the preflight was dropped over an edit that leaves some target.
pub open spec fn preflight_dropped(
    before: AppController,
    ui_before: MainWindow,
    after: AppController,
    ui_after: MainWindow,
    target: Seq<char>,
    bundles: Result<I18nManager, I18nError>,
) -> bool {
    &&& after == (AppController {
        migration_preflight: None,
        migration_preflight_presentation: MigrationPreflightPresentation::Changed,
        ..before
    })
    &&& ui_after.draft@ == (DraftModel {
        target_path: target,
        preflight_valid: false,
        status: shown(bundles, "migration.validation.changed"@),
        ..ui_before.draft@
    })
    &&& ui_after == (MainWindow { draft: ui_after.draft, ..ui_before })
}

/// The name of the target below a directory that was picked.
pub open spec fn target_leaf(entered: Seq<char>, username: Seq<char>) -> Seq<char> {
    match last_name(entered) {
        Some(name) => if is_valid_component(name) {
            name
        } else {
            derived_leaf(username)
        },
        None => derived_leaf(username),
    }
}

/// What holds where a plan was refused for an error.
pub open spec fn refused_plan(
    after: AppController,
    ui_after: MainWindow,
    plan: MigrationPlan,
    found: MigrationObservation,
    e: MigrationError,
    now: UtcTime,
    bundles: Result<I18nManager, I18nError>,
) -> bool {
    &&& plan_error(plan, found, e)
    &&& after.migration_preflight_presentation
        matches MigrationPreflightPresentation::ValidationError { summary_key: key }
    &&& key@ == summary_key(e)
    &&& told(
        after,
        ui_after,
        failed(OperatorStatusOperation::Migration, plan.target_path@, now, e.text()),
        bundles,
    )
}

/// What a check of the plan that was entered leaves behind.
pub open spec fn prevalidated(
    before: AppController,
    ui_before: MainWindow,
    after: AppController,
    ui_after: MainWindow,
    found: MigrationObservation,
    now: UtcTime,
    bundles: Result<I18nManager, I18nError>,
) -> bool {
    let presentation = after.migration_preflight_presentation;
    &&& after == (AppController {
        migration_preflight: after.migration_preflight,
        migration_preflight_presentation: presentation,
        last_operator_status: after.last_operator_status,
        ..before
    })
    &&& ui_after == (MainWindow { draft: ui_after.draft, status: ui_after.status, ..ui_before })
    &&& ui_after.draft@ == with_preflight(
        ui_before.draft@,
        after.migration_preflight is Some,
        presentation,
        bundles,
    )
    &&& forall|plan: MigrationPlan| #[trigger]
        is_entered_plan(plan, ui_before) ==> {
            let passes = !ui_before.selection.loaded && is_sound_plan(plan) && is_clear(
                plan,
                found,
            );
            &&& after.migration_preflight is Some == passes
            &&& passes ==> token_matches(after.migration_preflight->0, plan)
        }
    &&& if ui_before.selection.loaded {
        &&& presentation matches MigrationPreflightPresentation::ValidationError { summary_key: key }
        &&& key@ == MIGRATION_SOURCE_LOADED_ERROR@
        &&& told(
            after,
            ui_after,
            note(
                OperatorStatusOperation::Migration,
                OperatorStatusOutcome::Warning,
                ui_before.selection.path@,
                now,
                MIGRATION_SOURCE_LOADED_ERROR@,
            ),
            bundles,
        )
    } else if after.migration_preflight is Some {
        &&& presentation matches MigrationPreflightPresentation::Ready { target }
        &&& target@ == ui_before.draft.target_path@
        &&& after.last_operator_status == before.last_operator_status
        &&& ui_after.status == ui_before.status
    } else {
        exists|plan: MigrationPlan, e: MigrationError|
            is_entered_plan(plan, ui_before) && #[trigger] refused_plan(
                after,
                ui_after,
                plan,
                found,
                e,
                now,
                bundles,
            )
    }
}

/// The locales that there are.
pub open spec fn is_supported(locale: Seq<char>) -> bool {
    locale == ENGLISH_LOCALE@ || locale == FRENCH_LOCALE@
}

/// Why a locale was refused.
pub open spec fn unsupported(locale: Seq<char>) -> Seq<char> {
    "Unsupported locale: "@ + locale
}

/// Whether everything that is remembered is shown in a locale.
pub open spec fn rendered_again(
    controller: AppController,
    before: MainWindow,
    after: MainWindow,
    bundles: Result<I18nManager, I18nError>,
) -> bool {
    &&& match controller.last_report {
        Some(report) => shows_report(after.inventory, report, bundles) && after.selection@
            == reselected(before.selection@, rows_of(report.profiles@, bundles)),
        None => after.inventory == before.inventory && after.selection == before.selection,
    }
    &&& match controller.last_audit_entries {
        Some(entries) => audit_rows(after.audit_entries@) == audit_rows_of(entries@, bundles),
        None => after.audit_entries == before.audit_entries,
    }
    &&& after.draft@ == (DraftModel {
        status: controller.draft_message(before.draft.status@, bundles),
        ..before.draft@
    })
    &&& shows_status(after.status, controller.last_operator_status@, bundles)
}

/// Whether the window is in a locale: its own texts and everything that is remembered.
/// What the operator has chosen, entered or is asked stays.
pub open spec fn in_locale(
    controller: AppController,
    before: MainWindow,
    after: MainWindow,
    bundles: Result<I18nManager, I18nError>,
) -> bool {
    &&& are_shown(after.strings, bundles)
    &&& rendered_again(controller, before, after, bundles)
    &&& after == (MainWindow {
        strings: after.strings,
        current_locale: after.current_locale,
        inventory: after.inventory,
        selection: after.selection,
        audit_entries: after.audit_entries,
        draft: after.draft,
        status: after.status,
        ..before
    })
}

/// Whether the journal was shown as it was read, or its failure told.
pub open spec fn journal_applied(
    before: AppController,
    ui_before: MainWindow,
    after: AppController,
    ui_after: MainWindow,
    read: Result<Vec<AuditEntry>, AuditError>,
    now: UtcTime,
    bundles: Result<I18nManager, I18nError>,
) -> bool {
    &&& shows_journal(before, ui_before, after, ui_after, read, bundles)
    &&& read is Ok ==> after.last_operator_status == before.last_operator_status && ui_after.status
        == ui_before.status
    &&& read matches Err(e) ==> told(
        after,
        ui_after,
        failed(OperatorStatusOperation::Audit, "Display"@, now, e.text()),
        bundles,
    )
    &&& after == (AppController {
        last_audit_entries: after.last_audit_entries,
        last_operator_status: after.last_operator_status,
        ..before
    })
    &&& ui_after == (MainWindow {
        audit_entries: ui_after.audit_entries,
        status: ui_after.status,
        ..ui_before
    })
}

// ---------------------------------------------------------------------------
// Laws
// ---------------------------------------------------------------------------

proof fn lemma_rows_keep_their_profiles(
    report: DiagnosticReport,
    one: Result<I18nManager, I18nError>,
    other: Result<I18nManager, I18nError>,
    at: int,
)
    requires
        0 <= at < report.profiles@.len(),
    ensures
        rows_of(report.profiles@, one)[at].sid == rows_of(report.profiles@, other)[at].sid,
        rows_of(report.profiles@, one)[at].profile_path == rows_of(
            report.profiles@,
            other,
        )[at].profile_path,
{
}

/// Going through another locale leaves no trace: the window shows what it would show had
/// the last locale been chosen at once.
pub proof fn locales_leave_no_trace(
    controller: AppController,
    first: MainWindow,
    second: MainWindow,
    third: MainWindow,
    other: Result<I18nManager, I18nError>,
    last: Result<I18nManager, I18nError>,
)
    requires
        in_locale(controller, first, second, other),
        in_locale(controller, second, third, last),
    ensures
        in_locale(controller, first, third, last),
{
    if controller.last_report is Some {
        let report = controller.last_report->0;
        let rows = rows_of(report.profiles@, other);
        let anew = rows_of(report.profiles@, last);
        let at = first.selection@.index as int;
        if 0 <= at < rows.len() {
            lemma_rows_keep_their_profiles(report, other, last, at);
        }
        assert(reselected(reselected(first.selection@, rows), anew) == reselected(
            first.selection@,
            anew,
        ));
    }
}

/// A plan that passed its check begins, as long as nothing was edited, the process is
/// elevated and nothing runs.
pub proof fn a_checked_plan_begins(
    before: AppController,
    ui_before: MainWindow,
    checked: AppController,
    ui_checked: MainWindow,
    begun: AppController,
    ui_begun: MainWindow,
    found: MigrationObservation,
    elevated: Result<bool, String>,
    at_check: UtcTime,
    at_start: UtcTime,
    bundles: Result<I18nManager, I18nError>,
    r: Option<MigrationPlan>,
    plan: MigrationPlan,
)
    requires
        before.is_free(ui_before),
        is_entered_plan(plan, ui_before),
        !ui_before.selection.loaded,
        is_sound_plan(plan),
        is_clear(plan, found),
        !lacks_scope(ui_before),
        prevalidated(before, ui_before, checked, ui_checked, found, at_check, bundles),
        is_elevated(elevated),
        migration_started(
            checked,
            ui_checked,
            begun,
            ui_begun,
            elevated,
            at_start,
            bundles,
            r,
        ),
    ensures
        r matches Some(handed) && is_entered_plan(handed, ui_before),
        begun.operation_state.active is Migration,
{
    assert(token_matches(checked.migration_preflight->0, plan));
    assert(ui_checked.draft@.target_path == ui_before.draft@.target_path);
    assert(holds_preflight(checked, ui_checked));
}

/// Behind an edit no migration begins before the plan was checked again.
pub proof fn an_edit_asks_for_another_check(
    before: AppController,
    ui_before: MainWindow,
    edited: AppController,
    ui_edited: MainWindow,
    asked: AppController,
    ui_asked: MainWindow,
    target: Seq<char>,
    elevated: Result<bool, String>,
    now: UtcTime,
    bundles: Result<I18nManager, I18nError>,
    r: Option<MigrationPlan>,
)
    requires
        preflight_dropped(before, ui_before, edited, ui_edited, target, bundles),
        migration_started(edited, ui_edited, asked, ui_asked, elevated, now, bundles, r),
    ensures
        r is None,
        !ui_edited.draft.preflight_valid,
{
    assert(ui_edited.draft@.preflight_valid == ui_edited.draft.preflight_valid);
}

/// A check is used up by the migration that it lets begin: the next one needs its own.
pub proof fn a_check_serves_once(
    before: AppController,
    ui_before: MainWindow,
    begun: AppController,
    ui_begun: MainWindow,
    again: AppController,
    ui_again: MainWindow,
    elevated: Result<bool, String>,
    elevated_again: Result<bool, String>,
    now: UtcTime,
    later: UtcTime,
    bundles: Result<I18nManager, I18nError>,
    r: Option<MigrationPlan>,
    r_again: Option<MigrationPlan>,
)
    requires
        migration_started(before, ui_before, begun, ui_begun, elevated, now, bundles, r),
        r is Some,
        migration_started(
            begun,
            ui_begun,
            again,
            ui_again,
            elevated_again,
            later,
            bundles,
            r_again,
        ),
    ensures
        r_again is None,
        !ui_begun.draft.preflight_valid,
{
    assert(ui_begun.draft@.preflight_valid == ui_begun.draft.preflight_valid);
}

/// A migration that does not begin ends nothing: what runs goes on running, and the
/// window answers a request to close as it did before.
pub proof fn a_refused_migration_ends_nothing(
    before: AppController,
    ui_before: MainWindow,
    refused: AppController,
    ui_refused: MainWindow,
    elevated: Result<bool, String>,
    now: UtcTime,
    bundles: Result<I18nManager, I18nError>,
    r: Option<MigrationPlan>,
)
    requires
        migration_started(before, ui_before, refused, ui_refused, elevated, now, bundles, r),
        r is None,
    ensures
        refused.operation_state == before.operation_state,
        refused.migration_cancellation == before.migration_cancellation,
        ui_refused.operation_busy == ui_before.operation_busy,
{
}

/// Nothing is migrated unless all is in order: a migration begins only for a source that is
/// not in use, with a scope entered, the entered plan checked, the process elevated and
/// nothing else running; and what begins is the plan that was entered. Where any of these
/// is missing the operator is told so, as no success.
pub proof fn a_migration_begins_only_where_all_is_in_order(
    before: AppController,
    ui_before: MainWindow,
    after: AppController,
    ui_after: MainWindow,
    elevated: Result<bool, String>,
    now: UtcTime,
    bundles: Result<I18nManager, I18nError>,
    r: Option<MigrationPlan>,
)
    requires
        migration_started(before, ui_before, after, ui_after, elevated, now, bundles, r),
    ensures
        r matches Some(plan) ==> {
            &&& !ui_before.selection.loaded
            &&& ui_before.selection.path@.len() > 0 && ui_before.draft.target_path@.len() > 0
            &&& ui_before.draft.include_roaming || ui_before.draft.include_docs
            &&& before.migration_preflight matches Some(token) && token_matches(token, plan)
            &&& elevated == Result::<bool, String>::Ok(true)
            &&& before.operation_state.active is Idle
            &&& after.operation_state.active is Migration
            &&& plan.source_sid@ == ui_before.selection.sid@
            &&& plan.source_path@ == ui_before.selection.path@
            &&& plan.target_path@ == ui_before.draft.target_path@
            &&& plan.include_roaming_appdata == ui_before.draft.include_roaming
            &&& plan.include_personal_folders == ui_before.draft.include_docs
            &&& after.last_operator_status@.outcome is Running
        },
        r is None ==> after.operation_state == before.operation_state && !(
        after.last_operator_status@.outcome is Success) && !(
        after.last_operator_status@.outcome is Running),
        ui_before.selection.loaded ==> r is None,
        elevated != Result::<bool, String>::Ok(true) ==> r is None,
        after.last_operator_status@.operation is Migration,
{
}

/// A repair is told as it ended: as a success only where it succeeded, and where the look
/// afterwards failed as a warning; a failure with its reason.
pub proof fn a_repair_is_told_as_it_ended(
    target: Seq<char>,
    result: Result<(), String>,
    report: Option<Result<DiagnosticReport, String>>,
    now: UtcTime,
)
    ensures
        repair_end(target, result, report, now).operation is Repair,
        repair_end(target, result, report, now).target == target,
        result is Err <==> repair_end(target, result, report, now).outcome is Failed,
        result matches Err(reason) ==> repair_end(target, result, report, now).raw_details == Some(
            reason@,
        ),
        repair_end(target, result, report, now).outcome is Success <==> result is Ok && !(
        report matches Some(Err(_))),
        repair_end(target, result, report, now).outcome is Warning <==> result is Ok && (
        report matches Some(Err(_))),
{
}

/// A migration is told as it ended: as a success with the counts of its receipt, as
/// cancelled where it was cancelled, and otherwise as a failure with its reason; and what
/// is shown beside it says the same.
pub proof fn a_migration_is_told_as_it_ended(
    target: Seq<char>,
    result: Result<MigrationReceipt, MigrationError>,
    now: UtcTime,
    terminal: MigrationTerminalPresentation,
)
    requires
        ends_as(terminal, result),
    ensures
        migration_end(target, result, now).operation is Migration,
        migration_end(target, result, now).target == target,
        result is Ok <==> migration_end(target, result, now).outcome is Success,
        (result matches Err(e) && e is Cancelled) <==> migration_end(
            target,
            result,
            now,
        ).outcome is Cancelled,
        (result matches Err(e) && !(e is Cancelled)) <==> migration_end(
            target,
            result,
            now,
        ).outcome is Failed,
        (result matches Err(e) && !(e is Cancelled)) ==> migration_end(
            target,
            result,
            now,
        ).raw_details == Some(result->Err_0.text()),
        result is Ok <==> terminal is Success,
        (result matches Err(e) && e is Cancelled) <==> terminal is Cancelled,
        result matches Ok(receipt) ==> (terminal matches MigrationTerminalPresentation::Success {
            files,
            bytes,
            manifest_hash,
        } && files == receipt.copied_files && bytes == receipt.copied_bytes && manifest_hash@
            == receipt.manifest_sha256@.take(manifest_hash@.len() as int) && (manifest_hash@.len()
            == 16 || receipt.manifest_sha256@.len() < 16)),
{
}

/// The plan of a repair is of the profile that is selected and of the actions that are
/// chosen; the canonical name is that of the profile without what was hung behind it, and
/// nothing is unlocked by force.
pub proof fn a_chosen_repair_is_of_the_selected_profile(
    plan: RepairPlan,
    ui: MainWindow,
    dry_run: bool,
)
    requires
        is_chosen_repair(plan, ui, dry_run),
    ensures
        plan.sid@ == ui.selection.sid@,
        plan.profile_path@ == ui.selection.path@,
        plan.fix_bak == ui.repair_fix_bak,
        plan.reset_state == ui.repair_reset_state,
        plan.dry_run == dry_run,
        !plan.unlock_hive,
        !crate::text::has_suffix(plan.canonical_sid@, ".bak"@),
        plan.canonical_sid@.len() <= plan.sid@.len(),
        plan.sid@.take(plan.canonical_sid@.len() as int) == plan.canonical_sid@,
        !crate::text::has_suffix(plan.sid@, ".bak"@) ==> plan.canonical_sid@ == plan.sid@,
{
    lemma_bare_name(ui.selection.sid@);
}

proof fn lemma_bare_name(name: Seq<char>)
    ensures
        !crate::text::has_suffix(without_suffixes(name, ".bak"@), ".bak"@),
        without_suffixes(name, ".bak"@).len() <= name.len(),
        name.take(without_suffixes(name, ".bak"@).len() as int) == without_suffixes(name, ".bak"@),
        !crate::text::has_suffix(name, ".bak"@) ==> without_suffixes(name, ".bak"@) == name,
    decreases name.len(),
{
    reveal_strlit(".bak");
    if crate::text::has_suffix(name, ".bak"@) {
        let front = name.take(name.len() - 4);
        lemma_bare_name(front);
        let bare = without_suffixes(name, ".bak"@);
        assert(name.take(bare.len() as int) =~= front.take(bare.len() as int));
    } else {
        assert(name.take(name.len() as int) =~= name);
    }
}

/// A check lets a migration begin only where the source is not in use and the plan is sound
/// and the ground clear.
pub proof fn a_check_passes_only_on_clear_ground(
    before: AppController,
    ui_before: MainWindow,
    after: AppController,
    ui_after: MainWindow,
    found: MigrationObservation,
    now: UtcTime,
    bundles: Result<I18nManager, I18nError>,
    plan: MigrationPlan,
)
    requires
        prevalidated(before, ui_before, after, ui_after, found, now, bundles),
        is_entered_plan(plan, ui_before),
    ensures
        after.migration_preflight is Some ==> {
            &&& !ui_before.selection.loaded
            &&& found.hive == Result::<(), crate::registry::RegistryError>::Err(
                crate::registry::RegistryError::Win32Error(2),
            )
            &&& found.source_root is Ok
            &&& found.target_entry is Ok && found.target_entry->Ok_0 is None
            &&& plan.include_roaming_appdata || plan.include_personal_folders
            &&& token_matches(after.migration_preflight->0, plan)
        },
        after.migration_preflight is Some <==> ui_after.draft@.preflight_valid,
        after.operation_state == before.operation_state,
{
    crate::migration::a_migration_is_admitted_where_it_is_safe(plan, found);
}

/// A process that is not elevated is told to be, or why that is not known; and an operation
/// that is asked for while another runs is told so. Neither is a success.
pub proof fn a_refusal_is_no_success(
    operation: OperatorStatusOperation,
    kind: OperationKind,
    elevated: Result<bool, String>,
    now: UtcTime,
)
    requires
        !is_elevated(elevated),
    ensures
        elevated != Result::<bool, String>::Ok(true),
        elevation_note(operation, elevated, now).operation == operation,
        elevated is Err <==> elevation_note(operation, elevated, now).outcome is Failed,
        elevated is Ok <==> elevation_note(operation, elevated, now).outcome is Warning,
        elevated matches Err(reason) ==> elevation_note(operation, elevated, now).raw_details
            == Some(reason@),
        busy_note(kind, now).outcome is Warning,
        busy_note(kind, now).operation == kind.part(),
{
}

/// A journal that cannot be read takes the place of what was to be told; one that can does
/// not touch it.
pub proof fn an_unread_journal_is_told_before_all_else(
    status: StatusModel,
    read: Result<Vec<AuditEntry>, AuditError>,
    now: UtcTime,
)
    ensures
        read is Ok ==> status_behind(status, read, now) == status,
        read is Err ==> status_behind(status, read, now).operation is Audit && status_behind(
            status,
            read,
            now,
        ).outcome is Failed,
{
}

/// A new report is shown as it is, with nothing selected, nothing left of an earlier choice
/// for a migration, and no check of it standing.
pub proof fn a_new_report_starts_over(
    after: AppController,
    ui_after: MainWindow,
    report: DiagnosticReport,
    running: bool,
    bundles: Result<I18nManager, I18nError>,
)
    requires
        starts_over(after, ui_after, report, running, bundles),
    ensures
        after.last_report == Some(report),
        ui_after.selection@.index < 0,
        ui_after.selection@.sid.len() == 0,
        !ui_after.selection@.loaded,
        ui_after.draft@.target_path.len() == 0,
        !ui_after.draft@.include_roaming,
        !ui_after.draft@.include_docs,
        !ui_after.draft@.preflight_valid,
        ui_after.draft@.running == running,
{
}

/// A locale is accepted exactly where it is one of the two that there are texts for, and the
/// two are not the same.
pub proof fn two_locales_are_accepted(locale: Seq<char>)
    ensures
        is_supported(locale) <==> locale == "en"@ || locale == "fr"@,
        "en"@ != "fr"@,
{
    reveal_strlit("en");
    reveal_strlit("fr");
    assert("en"@[0] == 'e' && "fr"@[0] == 'f');
}

} // verus!
