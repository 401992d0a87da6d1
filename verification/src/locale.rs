//! The texts of the window, and what it shows at start.
use crate::i18n::{
    arg_views, resolve_supported_locale, shown, shown_with, str_texts, t, t_args, I18nError,
    I18nManager, ENGLISH_LOCALE, FRENCH_LOCALE,
};
use crate::i18n::{prefers_french, well_formed_tag};
use crate::text::{owned, texts};
use crate::ui_languages::LocaleError;
use crate::window::MainWindow;
use vstd::prelude::*;

verus! {

pub const ENGLISH_AUTONYM: &'static str = "English";

pub const FRENCH_AUTONYM: &'static str = "Français";

/// The fixed texts of the window.
#[derive(Debug, Clone, PartialEq, Eq)]
pub struct AppStrings {
    pub window_title: String,
    pub app_title: String,
    pub app_subtitle: String,
    pub app_version: String,
    pub app_license: String,
    pub language_english: String,
    pub language_french: String,
    pub nav_dashboard: String,
    pub nav_repair: String,
    pub nav_migration: String,
    pub nav_maintenance: String,
    pub nav_logs: String,
    pub elevated: String,
    pub unelevated: String,
    pub scan: String,
    pub total: String,
    pub healthy: String,
    pub corrupted: String,
    pub temporary: String,
    pub column_account: String,
    pub column_sid: String,
    pub column_path: String,
    pub column_status: String,
    pub column_loaded: String,
    pub column_action: String,
    pub select: String,
    pub yes: String,
    pub no: String,
    pub no_profiles: String,
    pub repair_title: String,
    pub target_account: String,
    pub target_sid: String,
    pub profile_path: String,
    pub anomalies: String,
    pub none_selected: String,
    pub loaded_warning: String,
    pub repair_pipeline: String,
    pub fix_bak: String,
    pub reset_state: String,
    pub unlock_hive: String,
    pub dry_run: String,
    pub execute_repair: String,
    pub migration_title: String,
    pub migration_warning: String,
    pub migration_source: String,
    pub migration_target: String,
    pub migration_placeholder: String,
    pub include_roaming: String,
    pub include_docs: String,
    pub start_migration: String,
    pub cancel_migration: String,
    pub maintenance_title: String,
    pub maintenance_description: String,
    pub launch_ti: String,
    pub audit_title: String,
    pub clear_audit: String,
    pub export_audit: String,
    pub audit_timestamp: String,
    pub audit_operation: String,
    pub audit_target: String,
    pub audit_result: String,
    pub audit_details: String,
    pub about: String,
    pub close: String,
    pub confirm: String,
    pub cancel: String,
}

/// Whether the texts are those of the locale in use; each language is named in itself.
pub open spec fn are_shown(strings: AppStrings, bundles: Result<I18nManager, I18nError>) -> bool {
    &&& strings.window_title@ == shown(bundles, "app.window_title"@)
    &&& strings.app_title@ == shown(bundles, "app.title"@)
    &&& strings.app_subtitle@ == shown(bundles, "app.subtitle"@)
    &&& strings.app_version@ == shown(bundles, "app.version"@)
    &&& strings.app_license@ == shown(bundles, "app.license"@)
    &&& strings.language_english@ == ENGLISH_AUTONYM@
    &&& strings.language_french@ == FRENCH_AUTONYM@
    &&& strings.nav_dashboard@ == shown(bundles, "nav.dashboard"@)
    &&& strings.nav_repair@ == shown(bundles, "nav.repair"@)
    &&& strings.nav_migration@ == shown(bundles, "nav.migration"@)
    &&& strings.nav_maintenance@ == shown(bundles, "nav.maintenance"@)
    &&& strings.nav_logs@ == shown(bundles, "nav.logs"@)
    &&& strings.elevated@ == shown(bundles, "status.elevated"@)
    &&& strings.unelevated@ == shown(bundles, "status.unelevated"@)
    &&& strings.scan@ == shown(bundles, "dashboard.scan_btn"@)
    &&& strings.total@ == shown(bundles, "dashboard.total_profiles"@)
    &&& strings.healthy@ == shown(bundles, "dashboard.healthy_profiles"@)
    &&& strings.corrupted@ == shown(bundles, "dashboard.corrupted_profiles"@)
    &&& strings.temporary@ == shown(bundles, "dashboard.temporary_profiles"@)
    &&& strings.column_account@ == shown(bundles, "dashboard.column.username"@)
    &&& strings.column_sid@ == shown(bundles, "dashboard.column.sid"@)
    &&& strings.column_path@ == shown(bundles, "dashboard.column.path"@)
    &&& strings.column_status@ == shown(bundles, "dashboard.column.status"@)
    &&& strings.column_loaded@ == shown(bundles, "dashboard.column.loaded"@)
    &&& strings.column_action@ == shown(bundles, "dashboard.column.actions"@)
    &&& strings.select@ == shown(bundles, "common.select"@)
    &&& strings.yes@ == shown(bundles, "common.yes"@)
    &&& strings.no@ == shown(bundles, "common.no"@)
    &&& strings.no_profiles@ == shown(bundles, "dashboard.no_profiles"@)
    &&& strings.repair_title@ == shown(bundles, "repair.title"@)
    &&& strings.target_account@ == shown(bundles, "repair.target_account"@)
    &&& strings.target_sid@ == shown(bundles, "repair.target_sid"@)
    &&& strings.profile_path@ == shown(bundles, "repair.profile_path"@)
    &&& strings.anomalies@ == shown(bundles, "repair.anomalies"@)
    &&& strings.none_selected@ == shown(bundles, "common.none"@)
    &&& strings.loaded_warning@ == shown(bundles, "repair.warning.loaded_session"@)
    &&& strings.repair_pipeline@ == shown(bundles, "repair.pipeline"@)
    &&& strings.fix_bak@ == shown(bundles, "repair.action.fix_bak"@)
    &&& strings.reset_state@ == shown(bundles, "repair.action.reset_state"@)
    &&& strings.unlock_hive@ == shown(bundles, "repair.action.unlock_hive"@)
    &&& strings.dry_run@ == shown(bundles, "repair.btn.dry_run"@)
    &&& strings.execute_repair@ == shown(bundles, "repair.btn.execute"@)
    &&& strings.migration_title@ == shown(bundles, "migration.title"@)
    &&& strings.migration_warning@ == shown(bundles, "migration.warning_dpapi"@)
    &&& strings.migration_source@ == shown(bundles, "migration.source"@)
    &&& strings.migration_target@ == shown(bundles, "migration.target"@)
    &&& strings.migration_placeholder@ == shown(bundles, "migration.target_placeholder"@)
    &&& strings.include_roaming@ == shown(bundles, "migration.include_roaming"@)
    &&& strings.include_docs@ == shown(bundles, "migration.include_docs"@)
    &&& strings.start_migration@ == shown(bundles, "migration.btn.start"@)
    &&& strings.cancel_migration@ == shown(bundles, "migration.btn.cancel"@)
    &&& strings.maintenance_title@ == shown(bundles, "maintenance.title"@)
    &&& strings.maintenance_description@ == shown(bundles, "maintenance.description"@)
    &&& strings.launch_ti@ == shown(bundles, "maintenance.btn.launch_ti"@)
    &&& strings.audit_title@ == shown(bundles, "audit.title"@)
    &&& strings.clear_audit@ == shown(bundles, "audit.btn.clear"@)
    &&& strings.export_audit@ == shown(bundles, "audit.btn.export"@)
    &&& strings.audit_timestamp@ == shown(bundles, "audit.column.timestamp"@)
    &&& strings.audit_operation@ == shown(bundles, "audit.column.operation"@)
    &&& strings.audit_target@ == shown(bundles, "audit.column.target"@)
    &&& strings.audit_result@ == shown(bundles, "audit.column.result"@)
    &&& strings.audit_details@ == shown(bundles, "audit.column.details"@)
    &&& strings.about@ == shown(bundles, "about.title"@)
    &&& strings.close@ == shown(bundles, "common.close"@)
    &&& strings.confirm@ == shown(bundles, "common.confirm"@)
    &&& strings.cancel@ == shown(bundles, "common.cancel"@)
}

/// Whether no text is there yet.
pub open spec fn are_blank(strings: AppStrings) -> bool {
    &&& strings.window_title@.len() == 0
    &&& strings.app_title@.len() == 0
    &&& strings.app_subtitle@.len() == 0
    &&& strings.app_version@.len() == 0
    &&& strings.app_license@.len() == 0
    &&& strings.language_english@.len() == 0
    &&& strings.language_french@.len() == 0
    &&& strings.nav_dashboard@.len() == 0
    &&& strings.nav_repair@.len() == 0
    &&& strings.nav_migration@.len() == 0
    &&& strings.nav_maintenance@.len() == 0
    &&& strings.nav_logs@.len() == 0
    &&& strings.elevated@.len() == 0
    &&& strings.unelevated@.len() == 0
    &&& strings.scan@.len() == 0
    &&& strings.total@.len() == 0
    &&& strings.healthy@.len() == 0
    &&& strings.corrupted@.len() == 0
    &&& strings.temporary@.len() == 0
    &&& strings.column_account@.len() == 0
    &&& strings.column_sid@.len() == 0
    &&& strings.column_path@.len() == 0
    &&& strings.column_status@.len() == 0
    &&& strings.column_loaded@.len() == 0
    &&& strings.column_action@.len() == 0
    &&& strings.select@.len() == 0
    &&& strings.yes@.len() == 0
    &&& strings.no@.len() == 0
    &&& strings.no_profiles@.len() == 0
    &&& strings.repair_title@.len() == 0
    &&& strings.target_account@.len() == 0
    &&& strings.target_sid@.len() == 0
    &&& strings.profile_path@.len() == 0
    &&& strings.anomalies@.len() == 0
    &&& strings.none_selected@.len() == 0
    &&& strings.loaded_warning@.len() == 0
    &&& strings.repair_pipeline@.len() == 0
    &&& strings.fix_bak@.len() == 0
    &&& strings.reset_state@.len() == 0
    &&& strings.unlock_hive@.len() == 0
    &&& strings.dry_run@.len() == 0
    &&& strings.execute_repair@.len() == 0
    &&& strings.migration_title@.len() == 0
    &&& strings.migration_warning@.len() == 0
    &&& strings.migration_source@.len() == 0
    &&& strings.migration_target@.len() == 0
    &&& strings.migration_placeholder@.len() == 0
    &&& strings.include_roaming@.len() == 0
    &&& strings.include_docs@.len() == 0
    &&& strings.start_migration@.len() == 0
    &&& strings.cancel_migration@.len() == 0
    &&& strings.maintenance_title@.len() == 0
    &&& strings.maintenance_description@.len() == 0
    &&& strings.launch_ti@.len() == 0
    &&& strings.audit_title@.len() == 0
    &&& strings.clear_audit@.len() == 0
    &&& strings.export_audit@.len() == 0
    &&& strings.audit_timestamp@.len() == 0
    &&& strings.audit_operation@.len() == 0
    &&& strings.audit_target@.len() == 0
    &&& strings.audit_result@.len() == 0
    &&& strings.audit_details@.len() == 0
    &&& strings.about@.len() == 0
    &&& strings.close@.len() == 0
    &&& strings.confirm@.len() == 0
    &&& strings.cancel@.len() == 0
}

impl AppStrings {
    /// No texts yet.
    pub fn new() -> (r: AppStrings)
        ensures
            are_blank(r),
    {
        AppStrings {
            window_title: String::new(),
            app_title: String::new(),
            app_subtitle: String::new(),
            app_version: String::new(),
            app_license: String::new(),
            language_english: String::new(),
            language_french: String::new(),
            nav_dashboard: String::new(),
            nav_repair: String::new(),
            nav_migration: String::new(),
            nav_maintenance: String::new(),
            nav_logs: String::new(),
            elevated: String::new(),
            unelevated: String::new(),
            scan: String::new(),
            total: String::new(),
            healthy: String::new(),
            corrupted: String::new(),
            temporary: String::new(),
            column_account: String::new(),
            column_sid: String::new(),
            column_path: String::new(),
            column_status: String::new(),
            column_loaded: String::new(),
            column_action: String::new(),
            select: String::new(),
            yes: String::new(),
            no: String::new(),
            no_profiles: String::new(),
            repair_title: String::new(),
            target_account: String::new(),
            target_sid: String::new(),
            profile_path: String::new(),
            anomalies: String::new(),
            none_selected: String::new(),
            loaded_warning: String::new(),
            repair_pipeline: String::new(),
            fix_bak: String::new(),
            reset_state: String::new(),
            unlock_hive: String::new(),
            dry_run: String::new(),
            execute_repair: String::new(),
            migration_title: String::new(),
            migration_warning: String::new(),
            migration_source: String::new(),
            migration_target: String::new(),
            migration_placeholder: String::new(),
            include_roaming: String::new(),
            include_docs: String::new(),
            start_migration: String::new(),
            cancel_migration: String::new(),
            maintenance_title: String::new(),
            maintenance_description: String::new(),
            launch_ti: String::new(),
            audit_title: String::new(),
            clear_audit: String::new(),
            export_audit: String::new(),
            audit_timestamp: String::new(),
            audit_operation: String::new(),
            audit_target: String::new(),
            audit_result: String::new(),
            audit_details: String::new(),
            about: String::new(),
            close: String::new(),
            confirm: String::new(),
            cancel: String::new(),
        }
    }
}

fn app_strings(bundles: &Result<I18nManager, I18nError>) -> (r: AppStrings)
    ensures
        are_shown(r, *bundles),
{
    AppStrings {
        window_title: t(bundles, "app.window_title"),
        app_title: t(bundles, "app.title"),
        app_subtitle: t(bundles, "app.subtitle"),
        app_version: t(bundles, "app.version"),
        app_license: t(bundles, "app.license"),
        language_english: owned(ENGLISH_AUTONYM),
        language_french: owned(FRENCH_AUTONYM),
        nav_dashboard: t(bundles, "nav.dashboard"),
        nav_repair: t(bundles, "nav.repair"),
        nav_migration: t(bundles, "nav.migration"),
        nav_maintenance: t(bundles, "nav.maintenance"),
        nav_logs: t(bundles, "nav.logs"),
        elevated: t(bundles, "status.elevated"),
        unelevated: t(bundles, "status.unelevated"),
        scan: t(bundles, "dashboard.scan_btn"),
        total: t(bundles, "dashboard.total_profiles"),
        healthy: t(bundles, "dashboard.healthy_profiles"),
        corrupted: t(bundles, "dashboard.corrupted_profiles"),
        temporary: t(bundles, "dashboard.temporary_profiles"),
        column_account: t(bundles, "dashboard.column.username"),
        column_sid: t(bundles, "dashboard.column.sid"),
        column_path: t(bundles, "dashboard.column.path"),
        column_status: t(bundles, "dashboard.column.status"),
        column_loaded: t(bundles, "dashboard.column.loaded"),
        column_action: t(bundles, "dashboard.column.actions"),
        select: t(bundles, "common.select"),
        yes: t(bundles, "common.yes"),
        no: t(bundles, "common.no"),
        no_profiles: t(bundles, "dashboard.no_profiles"),
        repair_title: t(bundles, "repair.title"),
        target_account: t(bundles, "repair.target_account"),
        target_sid: t(bundles, "repair.target_sid"),
        profile_path: t(bundles, "repair.profile_path"),
        anomalies: t(bundles, "repair.anomalies"),
        none_selected: t(bundles, "common.none"),
        loaded_warning: t(bundles, "repair.warning.loaded_session"),
        repair_pipeline: t(bundles, "repair.pipeline"),
        fix_bak: t(bundles, "repair.action.fix_bak"),
        reset_state: t(bundles, "repair.action.reset_state"),
        unlock_hive: t(bundles, "repair.action.unlock_hive"),
        dry_run: t(bundles, "repair.btn.dry_run"),
        execute_repair: t(bundles, "repair.btn.execute"),
        migration_title: t(bundles, "migration.title"),
        migration_warning: t(bundles, "migration.warning_dpapi"),
        migration_source: t(bundles, "migration.source"),
        migration_target: t(bundles, "migration.target"),
        migration_placeholder: t(bundles, "migration.target_placeholder"),
        include_roaming: t(bundles, "migration.include_roaming"),
        include_docs: t(bundles, "migration.include_docs"),
        start_migration: t(bundles, "migration.btn.start"),
        cancel_migration: t(bundles, "migration.btn.cancel"),
        maintenance_title: t(bundles, "maintenance.title"),
        maintenance_description: t(bundles, "maintenance.description"),
        launch_ti: t(bundles, "maintenance.btn.launch_ti"),
        audit_title: t(bundles, "audit.title"),
        clear_audit: t(bundles, "audit.btn.clear"),
        export_audit: t(bundles, "audit.btn.export"),
        audit_timestamp: t(bundles, "audit.column.timestamp"),
        audit_operation: t(bundles, "audit.column.operation"),
        audit_target: t(bundles, "audit.column.target"),
        audit_result: t(bundles, "audit.column.result"),
        audit_details: t(bundles, "audit.column.details"),
        about: t(bundles, "about.title"),
        close: t(bundles, "common.close"),
        confirm: t(bundles, "common.confirm"),
        cancel: t(bundles, "common.cancel"),
    }
}

/// Puts the texts of the locale in use into the window.
pub fn apply_app_strings(ui: &mut MainWindow, bundles: &Result<I18nManager, I18nError>)
    ensures
        are_shown(final(ui).strings, *bundles),
        *final(ui) == (MainWindow { strings: final(ui).strings, ..*old(ui) }),
{
    ui.strings = app_strings(bundles);
}

/// Puts a locale in use, with its texts.
pub fn set_locale_and_app_strings(
    ui: &mut MainWindow,
    bundles: &mut Result<I18nManager, I18nError>,
    locale: &str,
) -> (r: Result<(), I18nError>)
    ensures
        match *old(bundles) {
            Err(_) => r is Err && *final(bundles) == *old(bundles) && *final(ui) == *old(ui),
            Ok(before) => {
                &&& *final(bundles) matches Ok(after)
                &&& after.english_map() == before.english_map()
                &&& after.french_map() == before.french_map()
                &&& match r {
                    Ok(_) => {
                        &&& locale@ == ENGLISH_LOCALE@ || locale@ == FRENCH_LOCALE@
                        &&& after.is_french() == (locale@ == FRENCH_LOCALE@)
                        &&& are_shown(final(ui).strings, *final(bundles))
                        &&& final(ui).current_locale@ == locale@
                        &&& *final(ui) == (MainWindow {
                            strings: final(ui).strings,
                            current_locale: final(ui).current_locale,
                            ..*old(ui)
                        })
                    },
                    Err(e) => {
                        &&& locale@ != ENGLISH_LOCALE@ && locale@ != FRENCH_LOCALE@
                        &&& (e matches I18nError::UnsupportedLocale(v) && v@ == locale@)
                        &&& after.is_french() == before.is_french()
                        &&& *final(ui) == *old(ui)
                    },
                }
            },
        },
        *old(bundles) matches Err(e) ==> (r matches Err(x) && x.text() == e.text()),
{
    match bundles {
        Ok(manager) => match manager.set_locale(locale) {
            Ok(()) => {},
            Err(e) => {
                return Err(e);
            },
        },
        Err(e) => {
            return Err(e.copy());
        },
    }
    apply_app_strings(ui, &*bundles);
    ui.current_locale = owned(locale);
    Ok(())
}

/// The locale to start with: the first supported one that the user prefers, and English
/// where the preferences could not be read.
pub fn detect_initial_locale(languages: Result<Vec<String>, LocaleError>) -> (r: &'static str)
    ensures
        match languages {
            Err(_) => r@ == ENGLISH_LOCALE@,
            Ok(tags) => r@ == (if (forall|i: int|
                0 <= i < tags@.len() ==> well_formed_tag(#[trigger] tags@[i]@)) && prefers_french(
                texts(tags@),
            ) {
                FRENCH_LOCALE@
            } else {
                ENGLISH_LOCALE@
            }),
        },
{
    match languages {
        Err(_) => ENGLISH_LOCALE,
        Ok(tags) => {
            let mut borrowed: Vec<&str> = Vec::new();
            let mut i: usize = 0;
            while i < tags.len()
                invariant
                    i <= tags@.len(),
                    borrowed@.len() == i,
                    forall|k: int| 0 <= k < i ==> (#[trigger] borrowed@[k])@ == tags@[k]@,
                decreases tags.len() - i,
            {
                borrowed.push(tags[i].as_str());
                i += 1;
            }
            assert(str_texts(borrowed@) =~= texts(tags@));
            assert((forall|i: int|
                0 <= i < borrowed@.len() ==> well_formed_tag(#[trigger] borrowed@[i]@)) ==> (
            forall|i: int| 0 <= i < tags@.len() ==> well_formed_tag(#[trigger] tags@[i]@))) by {
                if forall|i: int|
                    0 <= i < borrowed@.len() ==> well_formed_tag(#[trigger] borrowed@[i]@) {
                    assert forall|i: int| 0 <= i < tags@.len() implies well_formed_tag(
                        #[trigger] tags@[i]@,
                    ) by {
                        assert(borrowed@[i]@ == tags@[i]@);
                    }
                }
            }
            resolve_supported_locale(borrowed.as_slice())
        },
    }
}

/// What is shown at start. It is kept untranslated.
#[derive(Debug, Clone, PartialEq, Eq)]
pub enum StartupPresentation {
    Checking,
    FreshRecovery { reason: String },
    ResumeRecovery { reason: String },
    Working,
    Error { details: String },
}

impl StartupPresentation {
    pub open spec fn title_key(self) -> Seq<char> {
        match self {
            StartupPresentation::Checking => "startup.checking.title"@,
            StartupPresentation::FreshRecovery { .. } => "startup.legacy.title"@,
            StartupPresentation::ResumeRecovery { .. } => "startup.resume.title"@,
            StartupPresentation::Working => "startup.working.title"@,
            StartupPresentation::Error { .. } => "startup.error.title"@,
        }
    }

    pub open spec fn message_key(self) -> Seq<char> {
        match self {
            StartupPresentation::Checking => "startup.checking.message"@,
            StartupPresentation::FreshRecovery { .. } => "startup.legacy.message"@,
            StartupPresentation::ResumeRecovery { .. } => "startup.legacy.message"@,
            StartupPresentation::Working => "startup.working.message"@,
            StartupPresentation::Error { .. } => "startup.error.message"@,
        }
    }

    pub open spec fn action_key(self) -> Seq<char> {
        match self {
            StartupPresentation::FreshRecovery { .. } => "startup.legacy.action"@,
            StartupPresentation::ResumeRecovery { .. } => "startup.resume.action"@,
            _ => "startup.retry"@,
        }
    }

    /// What stands below the message; the technical reason of an error as it is.
    pub open spec fn details(self, bundles: Result<I18nManager, I18nError>) -> Seq<char> {
        match self {
            StartupPresentation::Checking => Seq::empty(),
            StartupPresentation::FreshRecovery { reason } => shown_with(
                bundles,
                "startup.legacy.details"@,
                seq![("reason"@, reason@)],
            ),
            StartupPresentation::ResumeRecovery { reason } => shown_with(
                bundles,
                "startup.legacy.details"@,
                seq![("reason"@, reason@)],
            ),
            StartupPresentation::Working => shown(bundles, "startup.working.details"@),
            StartupPresentation::Error { details } => details@,
        }
    }

    pub fn copy(&self) -> (r: StartupPresentation)
        ensures
            r == *self,
    {
        match self {
            StartupPresentation::Checking => StartupPresentation::Checking,
            StartupPresentation::FreshRecovery { reason } => StartupPresentation::FreshRecovery {
                reason: reason.clone(),
            },
            StartupPresentation::ResumeRecovery { reason } => StartupPresentation::ResumeRecovery {
                reason: reason.clone(),
            },
            StartupPresentation::Working => StartupPresentation::Working,
            StartupPresentation::Error { details } => StartupPresentation::Error {
                details: details.clone(),
            },
        }
    }

    /// Puts the texts into the window and leaves everything else as it is.
    pub fn apply(&self, ui: &mut MainWindow, bundles: &Result<I18nManager, I18nError>)
        ensures
            final(ui).startup.title@ == shown(*bundles, self.title_key()),
            final(ui).startup.message@ == shown(*bundles, self.message_key()),
            final(ui).startup.details@ == self.details(*bundles),
            final(ui).startup.action_text@ == shown(*bundles, self.action_key()),
            final(ui).startup.quit_text@ == shown(*bundles, "startup.quit"@),
            final(ui).startup.consent_text@ == shown(*bundles, "startup.legacy.consent"@),
            final(ui).startup.visible == old(ui).startup.visible,
            final(ui).startup.busy == old(ui).startup.busy,
            final(ui).startup.consent_required == old(ui).startup.consent_required,
            final(ui).startup.consent_granted == old(ui).startup.consent_granted,
            *final(ui) == (MainWindow { startup: final(ui).startup, ..*old(ui) }),
    {
        let (title_key, message_key, action_key): (&'static str, &'static str, &'static str) =
            match self {
            StartupPresentation::Checking => (
                "startup.checking.title",
                "startup.checking.message",
                "startup.retry",
            ),
            StartupPresentation::FreshRecovery { .. } => (
                "startup.legacy.title",
                "startup.legacy.message",
                "startup.legacy.action",
            ),
            StartupPresentation::ResumeRecovery { .. } => (
                "startup.resume.title",
                "startup.legacy.message",
                "startup.resume.action",
            ),
            StartupPresentation::Working => (
                "startup.working.title",
                "startup.working.message",
                "startup.retry",
            ),
            StartupPresentation::Error { .. } => (
                "startup.error.title",
                "startup.error.message",
                "startup.retry",
            ),
        };
        let details = match self {
            StartupPresentation::Checking => String::new(),
            StartupPresentation::FreshRecovery { reason } => reason_text(reason.as_str(), bundles),
            StartupPresentation::ResumeRecovery { reason } => reason_text(reason.as_str(), bundles),
            StartupPresentation::Working => t(bundles, "startup.working.details"),
            StartupPresentation::Error { details } => owned(details.as_str()),
        };
        ui.startup.title = t(bundles, title_key);
        ui.startup.message = t(bundles, message_key);
        ui.startup.details = details;
        ui.startup.action_text = t(bundles, action_key);
        ui.startup.quit_text = t(bundles, "startup.quit");
        ui.startup.consent_text = t(bundles, "startup.legacy.consent");
    }
}

fn reason_text(reason: &str, bundles: &Result<I18nManager, I18nError>) -> (r: String)
    ensures
        r@ == shown_with(*bundles, "startup.legacy.details"@, seq![("reason"@, reason@)]),
{
    let arguments = [("reason", reason)];
    assert(arg_views(arguments@) =~= seq![("reason"@, reason@)]);
    t_args(bundles, "startup.legacy.details", &arguments)
}

/// What the start shows tells apart what is going on: no two situations share a title, a
/// recovery offers to recover and nothing else does, and a recovery that goes on is not
/// offered as a new one.
pub proof fn situations_at_start_are_told_apart(a: StartupPresentation, b: StartupPresentation)
    ensures
        a.title_key() == b.title_key() ==> (a is Checking <==> b is Checking) && (a is FreshRecovery
            <==> b is FreshRecovery) && (a is ResumeRecovery <==> b is ResumeRecovery) && (a is
            Working <==> b is Working),
        a.action_key() == "startup.retry"@ <==> !(a is FreshRecovery || a is ResumeRecovery),
        a is FreshRecovery && b is ResumeRecovery ==> a.action_key() != b.action_key(),
{
    reveal_strlit("startup.checking.title");
    reveal_strlit("startup.legacy.title");
    reveal_strlit("startup.resume.title");
    reveal_strlit("startup.working.title");
    reveal_strlit("startup.error.title");
    reveal_strlit("startup.legacy.action");
    reveal_strlit("startup.resume.action");
    reveal_strlit("startup.retry");
    assert("startup.checking.title"@[8] == 'c');
    assert("startup.legacy.title"@[8] == 'l');
    assert("startup.resume.title"@[8] == 'r');
    assert("startup.working.title"@[8] == 'w');
    assert("startup.error.title"@[8] == 'e');
    assert("startup.legacy.action"@[8] == 'l');
    assert("startup.resume.action"@[8] == 'r' && "startup.resume.action"@.len() == 21);
    assert("startup.retry"@[8] == 'r' && "startup.retry"@.len() == 13);
}

} // verus!
