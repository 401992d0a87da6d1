use std::collections::BTreeMap;
use winprofile::clock::UtcTime;
use winprofile::console_launch::TI_AUDIT_TARGET;
use winprofile::controller::AppController;
use winprofile::copying::{MigrationPhase, MigrationProgress, MigrationReceipt};
use winprofile::i18n::{
    resolve_supported_locale, t, t_args, I18nError, I18nManager, ENGLISH_LOCALE, FRENCH_LOCALE,
};
use winprofile::journal::{AuditEntry, AuditError, AuditLogger, AuditStatus};
use winprofile::legacy::{LegacyStorageError, MigrationPhase as DetachmentPhase, MigrationStateRecord};
use winprofile::legacy_run::{
    LegacyStorageRecovery, PendingProductionStorage, ProductionStorageState,
};
use winprofile::locale::{
    detect_initial_locale, set_locale_and_app_strings, StartupPresentation, ENGLISH_AUTONYM,
    FRENCH_AUTONYM,
};
use winprofile::migration::{MigrationError, MigrationObservation, MigrationPreflight};
use winprofile::migration_view::{
    default_target_leaf, migration_validation_summary_key, valid_target_leaf,
    validate_migration_source, MigrationPreflightPresentation, MigrationPreflightToken,
    MigrationProgressQueue, MigrationTerminalPresentation, MIGRATION_SOURCE_LOADED_ERROR,
};
use winprofile::models::{
    DiagnosticReport, MigrationPlan, ProfileAnomaly, ProfileHealth, UserProfile,
};
use winprofile::operation::{
    ClosePolicy, OperationKind, OperationState, OperatorStatusOperation,
};
use winprofile::rendering::apply_migration_progress;
use winprofile::scan_run::{
    scan_audit_status, scan_details, ScanAction, ScanEvent, ScanRun,
};
use winprofile::secure_fs::SecureEntryKind;
use winprofile::snapshot::SnapshotError;
use winprofile::startup::{
    confirmed_action, inspect, requires_fresh_consent, CloseRequestResponse, ConfirmedAction,
    InspectionStep, ServicesAction, ServicesEvent, ServicesRun, StartupDecision, StartupError,
    StartupRuntime, CONFIRM_REPAIR, CONFIRM_TRUSTED_INSTALLER,
};
use winprofile::status::{OperatorStatus, OperatorStatusOutcome};
use winprofile::ui_languages::LocaleError;
use winprofile::view_model::{
    audit_entry_to_slint, locking_processes, repair_suggestions, user_profile_to_slint,
    RepairSuggestions,
};
use winprofile::window::{MainWindow, NO_ROW};

type Bundles = Result<I18nManager, I18nError>;

// ---------------------------------------------------------------------------
// Fixtures
// ---------------------------------------------------------------------------

/// Keys with their texts in English and French.
const TEXTS: [(&str, &str, &str); 62] = [
    ("app.title", "WinProfile Suite", "WinProfile Suite"),
    ("nav.dashboard", "Inventory & Health", "Inventaire & Santé"),
    ("dashboard.scan_btn", "Scan Profiles", "Analyser les profils"),
    ("migration.progress.copying", "Copying: {file}", "Copie : {file}"),
    (
        "migration.progress.detail",
        "{phase}: {path} ({files} files, {bytes} bytes)",
        "{phase} : {path} ({files} fichiers, {bytes} octets)",
    ),
    ("migration.progress.no_file", "no file", "aucun fichier"),
    ("migration.phase.copying", "Copying", "Copie"),
    (
        "migration.success",
        "Migration verified: {files} files, manifest {hash}",
        "Migration vérifiée : {files} fichiers, manifeste {hash}",
    ),
    (
        "migration.validation.ready",
        "Ready to migrate to {target}",
        "Prêt à migrer vers {target}",
    ),
    (
        "migration.validation.changed",
        "The draft changed; validate it again",
        "Le brouillon a changé ; validez-le à nouveau",
    ),
    ("status.ready", "Ready", "Prêt"),
    (
        "status.cancelled",
        "Operation cancelled and rolled back",
        "Opération annulée et changements annulés",
    ),
    ("status.cancelling", "Cancelling", "Annulation en cours"),
    ("status.operator.failed", "The operation failed", "L'opération a échoué"),
    (
        "status.scan.warning",
        "{total} profiles, {warnings} warnings, {corrupted} corrupted: review required",
        "{total} profils, {warnings} avertissements, {corrupted} corrompus : vérification requise",
    ),
    (
        "status.scan.success",
        "{total} profiles, {warnings} warnings, {corrupted} corrupted",
        "{total} profils, {warnings} avertissements, {corrupted} corrompus",
    ),
    (
        "status.recovery.review_issues",
        "Review every warning or corrupted profile",
        "Vérifiez chaque profil en avertissement ou corrompu",
    ),
    ("status.recovery.retry", "Try again", "Réessayez"),
    ("status.details.operation", "Operation", "Opération"),
    ("status.details.outcome", "Outcome", "Résultat"),
    ("status.details.target", "Target", "Cible"),
    ("status.details.timestamp", "Time (UTC)", "Heure (UTC)"),
    ("status.details.summary", "Summary", "Résumé"),
    ("status.details.technical", "Technical details", "Détails techniques"),
    ("status.details.recovery", "What to do", "Que faire"),
    ("status.operation.scan", "Scan", "Analyse"),
    ("status.outcome.warning", "Warning", "Avertissement"),
    ("status.ti_success", "Console started: {pid}", "Console lancée : {pid}"),
    ("status.export_success", "Exported to {path}", "Exporté vers {path}"),
    (
        "repair.locked.status",
        "The hive is in use: close the listed applications and scan again",
        "La ruche est utilisée : fermez les applications listées et analysez à nouveau",
    ),
    ("repair.confirm.title", "Confirm the repair", "Confirmer la réparation"),
    ("repair.confirm.summary", "{actions} for {sid}", "{actions} pour {sid}"),
    ("repair.confirm.fix_bak", "restore the key", "restaurer la clé"),
    ("repair.confirm.reset_state", "reset the state", "réinitialiser l'état"),
    ("maintenance.confirm.title", "Confirm the console", "Confirmer la console"),
    ("maintenance.confirm.message", "It has all rights", "Elle a tous les droits"),
    ("audit.status.success", "Success", "Succès"),
    ("audit.status.warning", "Warning", "Avertissement"),
    ("audit.status.failed", "Failed", "Échec"),
    ("audit.status.rolled_back", "Rolled back", "Rollback effectué"),
    ("profile.status.healthy", "Healthy", "Sain"),
    ("profile.status.bak_suffix", "Key with a .bak suffix", "Clé avec un suffixe .bak"),
    ("profile.status.temp_session", "Temporary session", "Session temporaire"),
    (
        "profile.status.filesystem_scan_failure",
        "The files could not be scanned",
        "Les fichiers n'ont pas pu être analysés",
    ),
    ("startup.checking.title", "Checking", "Vérification"),
    ("startup.checking.message", "The storage is checked", "Le stockage est vérifié"),
    ("startup.legacy.title", "Old storage found", "Ancien stockage trouvé"),
    ("startup.legacy.message", "It will be set aside", "Il sera mis de côté"),
    ("startup.legacy.details", "Reason: {reason}", "Raison : {reason}"),
    ("startup.legacy.consent", "I agree", "J'accepte"),
    ("startup.legacy.action", "Set aside", "Mettre de côté"),
    ("startup.resume.title", "Interrupted recovery", "Reprise interrompue"),
    ("startup.resume.action", "Resume", "Reprendre"),
    ("startup.working.title", "Working", "En cours"),
    ("startup.working.message", "The storage is prepared", "Le stockage est préparé"),
    ("startup.working.details", "Do not close", "Ne fermez pas"),
    ("startup.error.title", "The start failed", "Échec du démarrage"),
    ("startup.error.message", "Nothing was changed", "Rien n'a été modifié"),
    ("startup.retry", "Retry", "Réessayer"),
    ("startup.quit", "Quit", "Quitter"),
    ("startup.close_blocked", "Wait for the start", "Attendez le démarrage"),
    ("status.completed", "Completed", "Terminé"),
];

/// Keys whose texts only have to differ.
const MORE_KEYS: [&str; 50] = [
    "app.window_title",
    "app.subtitle",
    "app.version",
    "nav.repair",
    "nav.logs",
    "audit.title",
    "about.title",
    "common.cancel",
    "common.close",
    "common.confirm",
    "error.elevation_required",
    "error.migration_prevalidation_required",
    "error.migration_scope",
    "error.migration_source_loaded",
    "error.migration_target_exists",
    "error.migration_validation",
    "error.no_repair_action",
    "error.operation_busy",
    "error.profile_not_selected",
    "migration.phase.enumerating",
    "migration.phase.finalizing",
    "migration.phase.rolling_back",
    "migration.phase.verifying",
    "profile.status.dirty_state",
    "profile.status.hive_locked",
    "profile.status.lock_inspection_failure",
    "profile.status.missing_directory",
    "profile.status.orphan_sid",
    "profile.status.path_collision",
    "profile.status.registry_read_failure",
    "profile.status.sid_resolution_failure",
    "repair.success.message",
    "status.audit_cleared",
    "status.close_blocked_repair",
    "status.exporting",
    "status.launching_ti",
    "status.migrating",
    "status.operation.application",
    "status.operation.audit",
    "status.operation.export",
    "status.operation.migration",
    "status.operation.repair",
    "status.operation.trusted_installer",
    "status.outcome.cancelled",
    "status.outcome.failed",
    "status.outcome.ready",
    "status.outcome.running",
    "status.outcome.success",
    "status.repair_refresh_warning",
    "status.repairing",
];

fn catalogs() -> (String, String) {
    let mut english: BTreeMap<String, String> = BTreeMap::new();
    let mut french: BTreeMap<String, String> = BTreeMap::new();
    for (key, en, fr) in TEXTS {
        english.insert(key.to_string(), en.to_string());
        french.insert(key.to_string(), fr.to_string());
    }
    for key in MORE_KEYS {
        english.insert(key.to_string(), format!("text of {key}"));
        french.insert(key.to_string(), format!("texte de {key}"));
    }
    english.insert("status.scanning".to_string(), "Scanning".to_string());
    french.insert("status.scanning".to_string(), "Analyse en cours".to_string());
    (
        serde_json::to_string(&english).expect("English catalog"),
        serde_json::to_string(&french).expect("French catalog"),
    )
}

fn bundles() -> Bundles {
    let (english, french) = catalogs();
    I18nManager::global(&english, &french)
}

const NOW: UtcTime = UtcTime { seconds: 1_787_246_299, nanos: 0 };

fn window(bundles: &mut Bundles) -> MainWindow {
    let mut ui = MainWindow::new();
    ui.startup.visible = false;
    ui.startup.busy = false;
    set_locale_and_app_strings(&mut ui, bundles, "en").expect("English locale");
    ui
}

fn user(
    sid: &str,
    username: &str,
    path: &str,
    anomalies: Vec<ProfileAnomaly>,
    health: ProfileHealth,
) -> UserProfile {
    UserProfile {
        sid: sid.to_string(),
        canonical_sid: sid.trim_end_matches(".bak").to_string(),
        username: username.to_string(),
        domain: "TEST".to_string(),
        profile_path: path.to_string(),
        loaded: false,
        is_bak: sid.ends_with(".bak"),
        state_mask: 0,
        ref_count: 0,
        guid: None,
        ntuser_exists: true,
        usrclass_exists: true,
        disk_size_bytes: 0,
        anomalies,
        health,
    }
}

fn report_of(profile: UserProfile) -> DiagnosticReport {
    DiagnosticReport {
        timestamp: NOW,
        total_count: 1,
        healthy_count: 0,
        warning_count: 0,
        corrupted_count: 1,
        temporary_count: 0,
        profiles: vec![profile],
    }
}

fn locale_report() -> DiagnosticReport {
    report_of(user(
        "S-1-5-21-1000.bak",
        "LocaleUser",
        "C:\\Users\\LocaleUser",
        vec![ProfileAnomaly::BakSuffix],
        ProfileHealth::Corrupted,
    ))
}

fn repair_report(anomalies: Vec<ProfileAnomaly>) -> DiagnosticReport {
    report_of(user(
        "S-1-5-21-4242.bak",
        "LockedUser",
        "C:\\Users\\LockedUser",
        anomalies,
        ProfileHealth::Corrupted,
    ))
}

fn operator_flow_report() -> DiagnosticReport {
    DiagnosticReport {
        timestamp: NOW,
        total_count: 3,
        healthy_count: 1,
        warning_count: 1,
        corrupted_count: 1,
        temporary_count: 1,
        profiles: vec![
            user(
                "S-1-5-21-1001",
                "HealthyUser",
                r"C:\Users\HealthyUser",
                Vec::new(),
                ProfileHealth::Healthy,
            ),
            user(
                "S-1-5-21-1002",
                "WarningUser",
                r"C:\Users\WarningUser",
                vec![ProfileAnomaly::FilesystemScanFailure(
                    "RAW-WARNING-ACCESS-DENIED-0x5".to_string(),
                )],
                ProfileHealth::Warning,
            ),
            user(
                "S-1-5-21-1003.bak",
                "CorruptedUser",
                r"C:\Users\CorruptedUser",
                vec![ProfileAnomaly::BakSuffix, ProfileAnomaly::TempSession],
                ProfileHealth::Corrupted,
            ),
        ],
    }
}

fn locale_audit_entries() -> Vec<AuditEntry> {
    vec![AuditEntry {
        timestamp: NOW,
        operation: "LocaleFixture".to_string(),
        actor: "test".to_string(),
        target: "profile".to_string(),
        status: AuditStatus::RolledBack,
        details: "raw audit details".to_string(),
    }]
}

fn displayed_models(ui: &MainWindow) -> String {
    format!(
        "{:?}|{:?}|{}",
        ui.inventory.profiles[0], ui.audit_entries[0], ui.inventory.total
    )
}

fn profile_with_anomalies(anomalies: Vec<ProfileAnomaly>) -> UserProfile {
    user(
        "S-1-5-21-1000",
        "TestUser",
        "C:\\Users\\TestUser",
        anomalies,
        ProfileHealth::Healthy,
    )
}

/// A source that is there, and a target that is not.
fn clear_observation() -> MigrationObservation {
    MigrationObservation {
        hive: Err(winprofile::registry::RegistryError::Win32Error(2)),
        source_root: Ok(()),
        target_parent: Ok(()),
        parent_within_source: false,
        target_entry: Ok(None),
    }
}

fn entered_migration(bundles: &mut Bundles) -> MainWindow {
    let mut ui = window(bundles);
    ui.selection.sid = "S-1-5-21-987654".to_string();
    ui.selection.path = r"C:\Users\TokenUser".to_string();
    ui.selection.username = "TokenUser".to_string();
    ui.selection.loaded = false;
    ui.draft.target_path = r"D:\Migrated\AbsentTarget".to_string();
    ui.draft.include_docs = true;
    ui
}

// ---------------------------------------------------------------------------
// Translation
// ---------------------------------------------------------------------------

#[test]
fn test_i18n_translation_and_interpolation() {
    let (english, french) = catalogs();
    I18nManager::validate(&english, &french).expect("translation bundles must be valid");
    let mut loaded = bundles();
    loaded.as_mut().expect("valid i18n").set_locale("en").expect("English locale must exist");
    assert_eq!(t(&loaded, "app.title"), "WinProfile Suite");
    assert_eq!(t(&loaded, "nav.dashboard"), "Inventory & Health");

    let msg = t_args(
        &loaded,
        "migration.progress.copying",
        &[("file", "AppData\\Roaming\\settings.dat")],
    );
    assert_eq!(msg, "Copying: AppData\\Roaming\\settings.dat");

    loaded.as_mut().expect("valid i18n").set_locale("fr").expect("French locale must exist");
    assert_eq!(t(&loaded, "app.title"), "WinProfile Suite");
    assert_eq!(t(&loaded, "nav.dashboard"), "Inventaire & Santé");
    assert!(loaded.as_ref().expect("valid i18n").keys().len() > 80);
}

#[test]
fn startup_recovery_catalog_is_complete_in_english_and_french() {
    let required = [
        "startup.checking.title",
        "startup.checking.message",
        "startup.legacy.title",
        "startup.legacy.message",
        "startup.legacy.details",
        "startup.legacy.consent",
        "startup.legacy.action",
        "startup.resume.title",
        "startup.resume.action",
        "startup.working.title",
        "startup.working.message",
        "startup.working.details",
        "startup.error.title",
        "startup.error.message",
        "startup.retry",
        "startup.quit",
        "startup.close_blocked",
    ];
    let mut loaded = bundles();
    for locale in ["en", "fr"] {
        loaded.as_mut().expect("valid i18n").set_locale(locale).expect("recovery locale must exist");
        for key in required {
            let value = t(&loaded, key);
            assert!(!value.trim().is_empty(), "{locale}:{key} is empty");
            assert_ne!(value, key, "{locale}:{key} is missing");
        }
    }
}

#[test]
fn supported_locale_resolver_follows_windows_preference_order() {
    assert_eq!(resolve_supported_locale(&["fr-CA", "en-US"]), FRENCH_LOCALE);
    assert_eq!(resolve_supported_locale(&["de-DE", "en-GB"]), ENGLISH_LOCALE);
}

#[test]
fn default_empty_and_malformed_language_lists_fall_back_to_english() {
    assert_eq!(bundles().expect("valid i18n").get_locale(), ENGLISH_LOCALE);
    assert_eq!(resolve_supported_locale(&[]), ENGLISH_LOCALE);
    assert_eq!(resolve_supported_locale(&["fr_CA"]), ENGLISH_LOCALE);
    assert_eq!(resolve_supported_locale(&[""]), ENGLISH_LOCALE);
    assert_eq!(resolve_supported_locale(&["fr-CA", "bad_tag"]), ENGLISH_LOCALE);
    assert_eq!(resolve_supported_locale(&["fr-FR-u-ca-gregory"]), FRENCH_LOCALE);
}

#[test]
fn bundles_that_do_not_agree_are_refused() {
    let missing = I18nManager::global("{\"a\":\"x\",\"b\":\"y\"}", "{\"a\":\"x\"}");
    assert!(missing.is_err());
    let unreadable = I18nManager::global("{", "{}");
    assert!(unreadable.is_err());
    assert!(t(&unreadable, "a").starts_with("[i18n:"));
    let mut agreeing = I18nManager::global("{\"a\":\"x {n}\"}", "{\"a\":\"y {n}\"}");
    assert_eq!(t(&agreeing, "a"), "x {n}");
    assert_eq!(t_args(&agreeing, "a", &[("n", "3")]), "x 3");
    let manager = agreeing.as_mut().expect("agreeing bundles");
    assert!(matches!(
        manager.set_locale("de"),
        Err(I18nError::UnsupportedLocale(locale)) if locale == "de"
    ));
    assert_eq!(manager.get_locale(), "en");
}

#[test]
fn windows_failure_empty_and_malformed_preferences_resolve_to_english() {
    assert_eq!(detect_initial_locale(Err(LocaleError::Windows(5))), ENGLISH_LOCALE);
    assert_eq!(detect_initial_locale(Ok(Vec::new())), ENGLISH_LOCALE);
    assert_eq!(detect_initial_locale(Ok(vec!["fr_CA".to_string()])), ENGLISH_LOCALE);
}

#[test]
fn first_supported_preference_is_the_initial_locale() {
    assert_eq!(
        detect_initial_locale(Ok(vec!["de-DE".to_string(), "fr-CA".to_string()])),
        FRENCH_LOCALE
    );
}

#[test]
fn generated_slint_properties_change_between_english_and_french() {
    let mut loaded = bundles();
    let mut ui = MainWindow::new();
    set_locale_and_app_strings(&mut ui, &mut loaded, ENGLISH_LOCALE).expect("apply English strings");
    assert_eq!(ui.strings.nav_dashboard, "Inventory & Health");
    assert_eq!(ui.strings.scan, "Scan Profiles");
    assert_eq!(ui.strings.language_english, ENGLISH_AUTONYM);
    assert_eq!(ui.strings.language_french, FRENCH_AUTONYM);

    set_locale_and_app_strings(&mut ui, &mut loaded, FRENCH_LOCALE).expect("apply French strings");
    assert_eq!(ui.strings.nav_dashboard, "Inventaire & Santé");
    assert_eq!(ui.strings.scan, "Analyser les profils");
    assert_eq!(ui.current_locale, FRENCH_LOCALE);
}

// ---------------------------------------------------------------------------
// Operations
// ---------------------------------------------------------------------------

#[test]
fn close_policy_blocks_every_active_non_migration_operation() {
    for operation in [
        OperationKind::Scan,
        OperationKind::Repair,
        OperationKind::TrustedInstaller,
        OperationKind::Export,
        OperationKind::Unknown,
    ] {
        assert_eq!(operation.close_policy(), ClosePolicy::Block);
    }
}

#[test]
fn close_policy_cancels_migration_before_closing() {
    assert_eq!(OperationKind::Migration.close_policy(), ClosePolicy::CancelMigration);
}

#[test]
fn close_policy_allows_only_idle() {
    assert_eq!(OperationKind::Idle.close_policy(), ClosePolicy::Allow);
}

#[test]
fn operation_kinds_keep_their_numbers() {
    for (number, kind) in [
        (0, OperationKind::Idle),
        (1, OperationKind::Scan),
        (2, OperationKind::Repair),
        (3, OperationKind::Migration),
        (4, OperationKind::TrustedInstaller),
        (5, OperationKind::Export),
        (255, OperationKind::Unknown),
    ] {
        assert_eq!(OperationKind::from_raw(number), kind);
        assert_eq!(kind.to_raw(), number);
    }
    assert_eq!(OperationKind::from_raw(6), OperationKind::Unknown);
}

#[test]
fn operation_state_blocks_scan_and_export_until_each_finishes() {
    let mut state = OperationState::new();

    for operation in [OperationKind::Scan, OperationKind::Export] {
        assert!(state.try_begin(operation));
        assert_eq!(state.active_operation().close_policy(), ClosePolicy::Block);
        assert!(!state.finish());
        assert_eq!(state.active_operation().close_policy(), ClosePolicy::Allow);
    }
}

#[test]
fn operation_state_blocks_close_until_trustedinstaller_terminal_handling_finishes() {
    let mut state = OperationState::new();

    assert!(state.try_begin(OperationKind::TrustedInstaller));
    assert_eq!(state.active_operation().close_policy(), ClosePolicy::Block);
    assert!(!state.finish());
    assert_eq!(state.active_operation().close_policy(), ClosePolicy::Allow);
}

#[test]
fn operation_state_blocks_repair_until_finish() {
    let mut state = OperationState::new();

    assert!(state.try_begin(OperationKind::Repair));
    assert!(!state.try_begin(OperationKind::Scan));
    assert_eq!(state.active_operation().close_policy(), ClosePolicy::Block);
    assert!(!state.finish());
    assert_eq!(state.active_operation().close_policy(), ClosePolicy::Allow);
    assert!(state.try_begin(OperationKind::Scan));
}

#[test]
fn operation_state_defers_migration_close_until_finish() {
    let mut state = OperationState::new();

    assert!(state.try_begin(OperationKind::Migration));
    assert_eq!(state.active_operation().close_policy(), ClosePolicy::CancelMigration);
    state.request_close_after_finish();
    assert!(state.finish());
    assert_eq!(state.active_operation().close_policy(), ClosePolicy::Allow);
    assert!(!state.finish(), "the deferred close request must be consumed");
}

#[test]
fn deferred_close_cancels_a_migration_token_installed_after_the_request() {
    let mut state = OperationState::new();
    let mut cancellation = false;

    assert!(state.try_begin(OperationKind::Migration));
    state.request_close_after_finish();
    state.cancel_if_close_deferred(&mut cancellation);

    assert!(cancellation);
    assert!(state.finish());
}

// ---------------------------------------------------------------------------
// Rows
// ---------------------------------------------------------------------------

#[test]
fn exact_anomalies_enable_only_matching_repair_suggestions() {
    let profile = profile_with_anomalies(vec![
        ProfileAnomaly::BakSuffix,
        ProfileAnomaly::DirtyStateMask(0x100),
        ProfileAnomaly::LockedNtUserDat(vec!["process.exe".to_string()]),
    ]);

    assert_eq!(
        repair_suggestions(&profile),
        RepairSuggestions { fix_bak: true, reset_state: true }
    );
    assert_eq!(locking_processes(&profile), vec!["process.exe".to_string()]);
}

#[test]
fn lock_inspection_failure_is_preserved_raw_and_blocks_repair() {
    let profile = profile_with_anomalies(vec![ProfileAnomaly::LockInspectionFailure(
        "raw Restart Manager failure 123".to_string(),
    )]);

    let entry = user_profile_to_slint(&profile, &bundles());
    assert_eq!(entry.lock_inspection_failure, "raw Restart Manager failure 123");
    assert!(entry.repair_blocked_by_lock_inspection);
    assert_eq!(entry.locking_processes.len(), 0);
}

#[test]
fn unrelated_warnings_do_not_enable_destructive_repair_suggestions() {
    let mut profile = profile_with_anomalies(vec![
        ProfileAnomaly::MissingDirectory("C:\\Users\\Missing".to_string()),
        ProfileAnomaly::SidResolutionFailure("lookup failed".to_string()),
        ProfileAnomaly::FilesystemScanFailure("access denied".to_string()),
    ]);
    profile.health = ProfileHealth::Warning;

    assert_eq!(
        repair_suggestions(&profile),
        RepairSuggestions { fix_bak: false, reset_state: false }
    );
}

#[test]
fn audit_timestamp_is_explicit_utc() {
    let entry = AuditEntry {
        timestamp: NOW,
        operation: "Test".to_string(),
        actor: "test".to_string(),
        target: "profile".to_string(),
        status: AuditStatus::Success,
        details: "raw details".to_string(),
    };

    assert_eq!(audit_entry_to_slint(&entry, &bundles()).timestamp, "2026-08-20 17:18:19Z");
}

#[test]
fn rows_show_state_masks_and_healthy_profiles() {
    let mut profile = profile_with_anomalies(Vec::new());
    profile.state_mask = 0x1a8;
    let entry = user_profile_to_slint(&profile, &bundles());
    assert_eq!(entry.state_raw, "0x01A8");
    assert_eq!(entry.status_text, "Healthy");
    assert_eq!(entry.health_type, 0);
    assert!(entry.issues.is_empty());

    let masked = profile_with_anomalies(vec![
        ProfileAnomaly::DirtyStateMask(0x80),
        ProfileAnomaly::LockedNtUserDat(vec!["a (PID: 1)".to_string(), "b (PID: 2)".to_string()]),
    ]);
    let entry = user_profile_to_slint(&masked, &bundles());
    assert_eq!(entry.issues[0].code, "DIRTY_STATE_MASK");
    assert_eq!(entry.issues[0].technical_details, "0x0080");
    assert_eq!(entry.issues[1].technical_details, "a (PID: 1); b (PID: 2)");
    assert!(entry.suggest_reset_state && !entry.suggest_fix_bak);
}

// ---------------------------------------------------------------------------
// The status
// ---------------------------------------------------------------------------

#[test]
fn technical_error_status_is_preserved_byte_for_byte() {
    let mut loaded = bundles();
    let mut ui = window(&mut loaded);
    let mut controller = AppController::new(NOW);
    let raw = "RAW-WIN32-ERROR-0xC0000022: chemin C:\\Users\\Test";
    controller.publish_failure(
        &mut ui,
        &loaded,
        NOW,
        OperatorStatusOperation::TrustedInstaller,
        TI_AUDIT_TARGET,
        raw,
    );
    assert_eq!(controller.last_operator_status.raw_details.as_deref(), Some(raw));
    assert!(ui.status.details.contains(raw));
    assert!(controller.change_locale(&mut ui, &mut loaded, "fr").expect("French rerender"));
    assert_eq!(controller.last_operator_status.raw_details.as_deref(), Some(raw));
    assert!(ui.status.details.contains(raw));
    assert!(ui.status.message.contains("échoué"));
}

#[test]
fn details_of_a_status_are_complete() {
    let loaded = bundles();
    let mut report = operator_flow_report();
    report.timestamp = NOW;
    let status = OperatorStatus::scan_completed(&report);
    assert_eq!(
        status.render_details(&loaded),
        "Operation: Scan\nOutcome: Warning\nTarget: System\nTime (UTC): 2026-08-20 17:18:19Z\n\
         Summary: 3 profiles, 1 warnings, 1 corrupted: review required\n\
         What to do: Review every warning or corrupted profile"
    );
    let failure = OperatorStatus::failure(
        OperatorStatusOperation::Scan,
        "System",
        NOW,
        "RAW",
        Some("status.recovery.retry"),
    );
    assert_eq!(failure.outcome, OperatorStatusOutcome::Failed);
    assert!(failure
        .render_details(&loaded)
        .ends_with("Summary: The operation failed\nTechnical details:\nRAW\nWhat to do: Try again"));
}

#[test]
fn measured_lockers_and_inspection_failures_block_repair_until_rescan_clears_them() {
    let mut loaded = bundles();
    let mut ui = window(&mut loaded);
    let mut controller = AppController::new(NOW);
    ui.is_elevated = true;

    controller.cache_and_apply_report(
        &mut ui,
        &loaded,
        repair_report(vec![
            ProfileAnomaly::BakSuffix,
            ProfileAnomaly::LockedNtUserDat(vec![
                "Editor.exe (PID: 4242)".to_string(),
                "Sync.exe (PID: 4343)".to_string(),
            ]),
        ]),
    );
    controller.select_profile(&mut ui, &loaded, 0);

    assert!(ui.selection.repair_blocked_by_lock_inspection);
    assert_eq!(ui.selection.locking_processes.len(), 2);
    assert_eq!(ui.selection.locking_processes[0], "Editor.exe (PID: 4242)");
    assert!(!ui.repair_execution_enabled());
    controller.request_repair_confirmation(&mut ui, &loaded, NOW);
    assert!(!ui.confirmation.visible);
    assert!(ui.status.message.contains("close the listed"));
    assert!(controller.execute_repair(&mut ui, &loaded, NOW, Ok(true), false).is_none());
    assert_eq!(controller.operation_state.active_operation(), OperationKind::Idle);

    controller.cache_and_apply_report(
        &mut ui,
        &loaded,
        repair_report(vec![ProfileAnomaly::BakSuffix]),
    );
    controller.select_profile(&mut ui, &loaded, 0);
    assert!(!ui.selection.repair_blocked_by_lock_inspection);
    assert!(ui.repair_execution_enabled());

    controller.cache_and_apply_report(
        &mut ui,
        &loaded,
        repair_report(vec![
            ProfileAnomaly::BakSuffix,
            ProfileAnomaly::LockInspectionFailure("RAW-RM-INSPECTION-ERROR-5".to_string()),
        ]),
    );
    controller.select_profile(&mut ui, &loaded, 0);
    assert!(ui.selection.repair_blocked_by_lock_inspection);
    assert_eq!(ui.selection.lock_inspection_failure, "RAW-RM-INSPECTION-ERROR-5");
    assert!(!ui.repair_execution_enabled());
    controller.request_repair_confirmation(&mut ui, &loaded, NOW);
    assert!(!ui.confirmation.visible);
}

#[test]
fn repair_is_confirmed_only_with_a_profile_and_an_action() {
    let mut loaded = bundles();
    let mut ui = window(&mut loaded);
    let mut controller = AppController::new(NOW);
    controller.request_repair_confirmation(&mut ui, &loaded, NOW);
    assert!(!ui.confirmation.visible);
    assert_eq!(ui.status.message, "text of error.profile_not_selected");

    controller.cache_and_apply_report(&mut ui, &loaded, operator_flow_report());
    controller.select_profile(&mut ui, &loaded, 0);
    controller.request_repair_confirmation(&mut ui, &loaded, NOW);
    assert!(!ui.confirmation.visible);
    assert_eq!(ui.status.message, "text of error.no_repair_action");

    controller.select_profile(&mut ui, &loaded, 2);
    ui.repair_reset_state = true;
    controller.request_repair_confirmation(&mut ui, &loaded, NOW);
    assert!(ui.confirmation.visible);
    assert_eq!(ui.confirmation.kind, CONFIRM_REPAIR);
    assert_eq!(
        ui.confirmation.message,
        "restore the key, reset the state for S-1-5-21-1003.bak"
    );
    assert_eq!(confirmed_action(ui.confirmation.kind), ConfirmedAction::Repair);
}

#[test]
fn repair_begins_once_and_is_followed_by_a_fresh_report() {
    let mut loaded = bundles();
    let mut ui = window(&mut loaded);
    let mut controller = AppController::new(NOW);
    controller.cache_and_apply_report(&mut ui, &loaded, operator_flow_report());
    controller.select_profile(&mut ui, &loaded, 2);
    assert!(controller.execute_repair(&mut ui, &loaded, NOW, Ok(false), false).is_none());
    assert_eq!(ui.status.message, "text of error.elevation_required");
    assert!(controller
        .execute_repair(&mut ui, &loaded, NOW, Err("no token".to_string()), false)
        .is_none());
    assert_eq!(controller.last_operator_status.raw_details.as_deref(), Some("no token"));

    let (plan, is_loaded) = controller
        .execute_repair(&mut ui, &loaded, NOW, Ok(true), false)
        .expect("repair begins");
    assert_eq!(plan.sid, "S-1-5-21-1003.bak");
    assert_eq!(plan.canonical_sid, "S-1-5-21-1003");
    assert!(plan.fix_bak && !plan.reset_state && !plan.unlock_hive && !plan.dry_run);
    assert!(!is_loaded);
    assert!(ui.operation_busy);
    assert!(controller.execute_repair(&mut ui, &loaded, NOW, Ok(true), false).is_none());
    assert_eq!(ui.status.message, "text of error.operation_busy");

    assert!(AppController::rescans_after_repair(true, false));
    assert!(!AppController::rescans_after_repair(true, true));
    assert!(!AppController::rescans_after_repair(false, false));
    assert!(!controller.finish_operation());
    controller.show_repair_result(
        &mut ui,
        &loaded,
        NOW,
        "S-1-5-21-1003.bak",
        Ok(()),
        Some(Ok(operator_flow_report())),
        Ok(locale_audit_entries()),
    );
    assert!(!ui.operation_busy);
    assert_eq!(ui.selection.index, NO_ROW);
    assert_eq!(ui.status.message, "text of repair.success.message");
    assert_eq!(ui.audit_entries[0].status, "Rolled back");

    controller.show_repair_result(
        &mut ui,
        &loaded,
        NOW,
        "S",
        Ok(()),
        Some(Err("scan broke".to_string())),
        Ok(Vec::new()),
    );
    assert_eq!(ui.status.message, "text of status.repair_refresh_warning");
    assert!(ui.status.details.contains("scan broke"));
    controller.show_repair_result(&mut ui, &loaded, NOW, "S", Ok(()), None, Ok(Vec::new()));
    assert_eq!(ui.status.message, "Completed");
    controller.show_repair_result(
        &mut ui,
        &loaded,
        NOW,
        "S",
        Err("repair broke".to_string()),
        None,
        Err(AuditError::Io("journal gone".to_string())),
    );
    assert!(ui.status.details.contains("journal gone"));
}

// ---------------------------------------------------------------------------
// Migration
// ---------------------------------------------------------------------------

#[test]
fn migration_source_must_be_offline() {
    assert_eq!(validate_migration_source(false), Ok(()));
    assert_eq!(validate_migration_source(true), Err(MIGRATION_SOURCE_LOADED_ERROR));
}

#[test]
fn migration_preflight_token_is_invalidated_before_operation_or_audit() {
    let mut loaded = bundles();
    let mut ui = entered_migration(&mut loaded);
    let mut controller = AppController::new(NOW);
    let target = r"D:\Migrated\AbsentTarget";

    controller.prevalidate_migration(&mut ui, &loaded, NOW, clear_observation());
    assert!(ui.draft.preflight_valid);
    let token_before_locale = format!("{:?}", controller.migration_preflight);
    let ready_english = ui.draft.status.clone();
    let target_before_locale = ui.draft.target_path.clone();
    let roaming_before_locale = ui.draft.include_roaming;
    let personal_before_locale = ui.draft.include_docs;

    assert!(controller.change_locale(&mut ui, &mut loaded, "fr").expect("French locale"));
    assert_ne!(ui.draft.status, ready_english);
    assert_eq!(
        ui.draft.status,
        t_args(&loaded, "migration.validation.ready", &[("target", target)])
    );
    assert_eq!(ui.draft.target_path, target_before_locale);
    assert_eq!(ui.draft.include_roaming, roaming_before_locale);
    assert_eq!(ui.draft.include_docs, personal_before_locale);
    assert_eq!(format!("{:?}", controller.migration_preflight), token_before_locale);

    let raw_picker_error = "RAW-PICKER-HRESULT-0x80004005";
    controller.report_migration_picker_failure(
        &mut ui,
        &loaded,
        NOW,
        raw_picker_error.to_string(),
    );
    assert_eq!(ui.draft.status, raw_picker_error);
    assert!(controller.change_locale(&mut ui, &mut loaded, "en").expect("English locale"));
    assert_eq!(ui.draft.status, raw_picker_error);
    assert_eq!(format!("{:?}", controller.migration_preflight), token_before_locale);

    controller.invalidate_migration_preflight(&mut ui, &loaded);
    let changed_english = ui.draft.status.clone();
    assert!(!ui.draft.preflight_valid);
    assert!(controller.migration_preflight.is_none());
    assert!(controller.change_locale(&mut ui, &mut loaded, "fr").expect("French locale"));
    assert_ne!(ui.draft.status, changed_english);
    assert_eq!(ui.draft.status, t(&loaded, "migration.validation.changed"));

    controller.cache_and_apply_migration_terminal(
        &mut ui,
        &loaded,
        MigrationTerminalPresentation::Success {
            files: 1,
            bytes: 13,
            manifest_hash: "deadbeef".to_string(),
        },
    );
    let mut taken = clear_observation();
    taken.target_entry = Ok(Some(SecureEntryKind::Directory));
    controller.prevalidate_migration(&mut ui, &loaded, NOW, taken);
    let validation_error_french = ui.draft.status.clone();
    assert_eq!(validation_error_french, t(&loaded, "error.migration_target_exists"));
    assert!(controller.change_locale(&mut ui, &mut loaded, "en").expect("English locale"));
    assert_ne!(ui.draft.status, validation_error_french);
    assert_eq!(ui.draft.status, t(&loaded, "error.migration_target_exists"));
    assert!(controller.start_migration(&mut ui, &loaded, NOW, Ok(true)).is_none());
    assert_eq!(
        controller.operation_state.active_operation(),
        OperationKind::Idle,
        "missing token must be rejected before operation acquisition"
    );
    assert_eq!(ui.status.message, "text of error.migration_prevalidation_required");
}

#[test]
fn a_checked_migration_begins_once_and_ends_with_its_receipt() {
    let mut loaded = bundles();
    let mut ui = entered_migration(&mut loaded);
    let mut controller = AppController::new(NOW);
    controller.prevalidate_migration(&mut ui, &loaded, NOW, clear_observation());
    let plan = controller
        .start_migration(&mut ui, &loaded, NOW, Ok(true))
        .expect("migration begins");
    assert_eq!(plan.target_path, r"D:\Migrated\AbsentTarget");
    assert!(ui.draft.running && ui.operation_busy && !ui.draft.preflight_valid);
    assert!(!controller.is_migration_cancelled());
    assert!(!controller.scan_profiles(&mut ui, &loaded, NOW));
    assert!(controller.start_migration(&mut ui, &loaded, NOW, Ok(true)).is_none());
    controller.cancel_migration(&mut ui, &loaded, NOW);
    assert!(controller.is_migration_cancelled());
    assert_eq!(ui.status.message, "Cancelling");

    assert!(!controller.finish_migration());
    controller.show_migration_result(
        &mut ui,
        &loaded,
        NOW,
        &plan.source_path,
        Ok(MigrationReceipt {
            copied_files: 7,
            copied_bytes: 4_096,
            manifest_sha256: "0123456789abcdef0123456789abcdef".to_string(),
        }),
        Ok(Vec::new()),
    );
    assert_eq!(ui.draft.progress, 100);
    assert!(!ui.draft.running && !ui.operation_busy);
    assert_eq!(ui.draft.status, "Migration verified: 7 files, manifest 0123456789abcdef");
    assert_eq!(ui.status.message, "Migration verified: 7 files, manifest 0123456789abcdef");

    controller.cancel_migration(&mut ui, &loaded, NOW);
    assert!(!controller.is_migration_cancelled());
    controller.show_migration_result(
        &mut ui,
        &loaded,
        NOW,
        "S",
        Err(MigrationError::Cancelled),
        Ok(Vec::new()),
    );
    assert_eq!(ui.draft.status, "Operation cancelled and rolled back");
    controller.show_migration_result(
        &mut ui,
        &loaded,
        NOW,
        "S",
        Err(MigrationError::VerificationFailed("a.txt".to_string())),
        Ok(Vec::new()),
    );
    assert!(ui.draft.status.contains("a.txt"));
    assert!(ui.status.details.contains("a.txt"));
}

#[test]
fn a_migration_without_scope_or_from_a_loaded_profile_does_not_begin() {
    let mut loaded = bundles();
    let mut ui = entered_migration(&mut loaded);
    let mut controller = AppController::new(NOW);
    ui.draft.include_docs = false;
    assert!(controller.start_migration(&mut ui, &loaded, NOW, Ok(true)).is_none());
    assert_eq!(ui.status.message, "text of error.migration_scope");
    ui.selection.loaded = true;
    assert!(controller.start_migration(&mut ui, &loaded, NOW, Ok(true)).is_none());
    assert_eq!(ui.status.message, "text of error.migration_source_loaded");
    controller.prevalidate_migration(&mut ui, &loaded, NOW, clear_observation());
    assert!(!ui.draft.preflight_valid);
    assert_eq!(ui.draft.status, "text of error.migration_source_loaded");
}

#[test]
fn a_refused_migration_leaves_a_running_repair_alone() {
    let mut loaded = bundles();
    let mut ui = entered_migration(&mut loaded);
    let mut controller = AppController::new(NOW);
    assert!(controller.operation_state.try_begin(OperationKind::Repair));
    ui.operation_busy = true;
    ui.selection.loaded = false;
    ui.selection.path = r"C:\Users\A".to_string();
    ui.draft.target_path = String::new();
    assert!(controller.start_migration(&mut ui, &loaded, NOW, Ok(true)).is_none());
    assert_eq!(ui.status.message, "text of error.migration_scope");
    assert_eq!(controller.operation_state.active_operation(), OperationKind::Repair);
    assert!(ui.operation_busy);
    assert_eq!(
        controller.handle_close_requested(&mut ui, &loaded, NOW),
        CloseRequestResponse::KeepWindowShown
    );
}

#[test]
fn a_preflight_stands_for_one_plan_only() {
    let plan = MigrationPlan {
        source_sid: "S-1-5-21-1".to_string(),
        source_path: r"C:\Users\A".to_string(),
        target_path: r"D:\A".to_string(),
        include_roaming_appdata: true,
        include_personal_folders: false,
    };
    let token = MigrationPreflightToken::new(
        &plan,
        MigrationPreflight {
            source_path: plan.source_path.clone(),
            target_path: plan.target_path.clone(),
        },
    );
    assert!(token.matches(&plan));
    let mut other = plan.clone();
    other.target_path = r"D:\B".to_string();
    assert!(!token.matches(&other));
    let mut other = plan.clone();
    other.include_personal_folders = true;
    assert!(!token.matches(&other));
    let respelled = MigrationPreflightToken::new(
        &plan,
        MigrationPreflight {
            source_path: r"c:\Users\.\A\".to_string(),
            target_path: "D:/A".to_string(),
        },
    );
    assert!(respelled.matches(&plan), "the same paths, component by component");
    let elsewhere = MigrationPreflightToken::new(
        &plan,
        MigrationPreflight {
            source_path: plan.source_path.clone(),
            target_path: r"D:\a".to_string(),
        },
    );
    assert!(!elsewhere.matches(&plan));
    assert_eq!(
        migration_validation_summary_key(&MigrationError::DestinationExists("x".to_string())),
        "error.migration_target_exists"
    );
    assert_eq!(
        migration_validation_summary_key(&MigrationError::InvalidPlan("x".to_string())),
        "error.migration_validation"
    );
}

#[test]
fn picker_parent_derives_or_preserves_a_valid_final_leaf() {
    let mut loaded = bundles();
    let mut ui = window(&mut loaded);
    let mut controller = AppController::new(NOW);
    ui.selection.username = "Alice/Operations".to_string();
    controller.apply_migration_parent(&mut ui, &loaded, r"C:\Picked");
    assert_eq!(ui.draft.target_path, r"C:\Picked\Alice-Operations-migrated");
    assert!(!ui.draft.preflight_valid);

    ui.draft.target_path = r"D:\Previous\OperatorChosenLeaf".to_string();
    controller.apply_migration_parent(&mut ui, &loaded, r"C:\Picked\parent");
    assert_eq!(ui.draft.target_path, r"C:\Picked\parent\OperatorChosenLeaf");
}

#[test]
fn target_leaves_follow_the_rules_of_windows() {
    assert!(valid_target_leaf("Alice"));
    for refused in ["", "a.", "a ", "a/b", "CON", "com1.txt", "LPT²", "nul.x.y", "a\u{1}"] {
        assert!(!valid_target_leaf(refused), "{refused:?}");
    }
    assert_eq!(default_target_leaf("  Alice<>Bob  "), "Alice-Bob-migrated");
    assert_eq!(default_target_leaf("..."), "profile-migrated");
    assert_eq!(default_target_leaf(""), "profile-migrated");
}

#[test]
fn selecting_a_different_profile_resets_the_entire_migration_draft() {
    let mut loaded = bundles();
    let mut ui = window(&mut loaded);
    let mut controller = AppController::new(NOW);
    controller.cache_and_apply_report(&mut ui, &loaded, operator_flow_report());
    controller.select_profile(&mut ui, &loaded, 0);

    let plan = MigrationPlan {
        source_sid: ui.selection.sid.clone(),
        source_path: ui.selection.path.clone(),
        target_path: r"D:\Migrated\OldProfile".to_string(),
        include_roaming_appdata: true,
        include_personal_folders: true,
    };
    controller.migration_preflight = Some(MigrationPreflightToken::new(
        &plan,
        MigrationPreflight {
            source_path: plan.source_path.clone(),
            target_path: plan.target_path.clone(),
        },
    ));
    ui.draft.preflight_valid = true;
    ui.draft.target_path = plan.target_path.clone();
    ui.draft.include_roaming = true;
    ui.draft.include_docs = true;
    ui.draft.progress = 71;
    ui.draft.phase = "Copying".to_string();
    ui.draft.relative_path = "Documents/old.bin".to_string();
    ui.draft.completed_files = 4;
    ui.draft.copied_bytes = "8192".to_string();
    controller.cache_and_apply_migration_terminal(
        &mut ui,
        &loaded,
        MigrationTerminalPresentation::Cancelled,
    );

    controller.select_profile(&mut ui, &loaded, 1);
    assert!(ui.draft.target_path.is_empty());
    assert!(!ui.draft.include_roaming);
    assert!(!ui.draft.include_docs);
    assert!(!ui.draft.preflight_valid);
    assert_eq!(ui.draft.progress, 0);
    assert!(ui.draft.phase.is_empty());
    assert!(ui.draft.relative_path.is_empty());
    assert_eq!(ui.draft.completed_files, 0);
    assert_eq!(ui.draft.copied_bytes, "0");
    assert!(ui.draft.status.is_empty());
    assert!(controller.migration_preflight.is_none());
    assert!(controller.last_migration_terminal.is_none());

    ui.draft.target_path = r"D:\Migrated\PreservedOnSameProfile".to_string();
    controller.select_profile(&mut ui, &loaded, 1);
    assert_eq!(ui.draft.target_path, r"D:\Migrated\PreservedOnSameProfile");
}

#[test]
fn typed_migration_progress_is_indeterminate_and_preserves_exact_counters() {
    let mut loaded = bundles();
    let mut ui = window(&mut loaded);
    ui.draft.progress = 0;
    ui.draft.running = true;
    apply_migration_progress(
        &mut ui,
        &MigrationProgress {
            phase: MigrationPhase::Copying,
            relative_path: Some("Documents/RAW-file.bin".to_string()),
            completed_files: 17,
            copied_bytes: 9_007_199_254_740_991,
        },
        &loaded,
    );
    assert_eq!(ui.draft.phase, "Copying");
    assert_eq!(ui.draft.relative_path, "Documents/RAW-file.bin");
    assert_eq!(ui.draft.completed_files, 17);
    assert_eq!(ui.draft.copied_bytes, "9007199254740991");
    assert_eq!(ui.draft.progress, 0);
    assert!(!ui.draft.status.contains('%'));

    apply_migration_progress(
        &mut ui,
        &MigrationProgress {
            phase: MigrationPhase::Enumerating,
            relative_path: None,
            completed_files: 3_000_000_000,
            copied_bytes: 0,
        },
        &loaded,
    );
    assert_eq!(ui.draft.completed_files, i32::MAX);
    assert_eq!(ui.draft.relative_path, "no file");
}

#[test]
fn only_the_latest_progress_waits_to_be_shown() {
    let mut queue = MigrationProgressQueue::new();
    let progress = |files: usize| MigrationProgress {
        phase: MigrationPhase::Copying,
        relative_path: None,
        completed_files: files,
        copied_bytes: 0,
    };
    assert!(queue.offer(progress(1)));
    assert!(!queue.offer(progress(2)));
    assert_eq!(queue.take().expect("pending").completed_files, 2);
    assert!(queue.take().is_none());
    assert!(queue.offer(progress(3)));
    queue.abandon();
    assert!(queue.take().is_none());
}

// ---------------------------------------------------------------------------
// Inventory and language
// ---------------------------------------------------------------------------

#[test]
fn operator_inventory_partitions_health_and_preserves_selected_raw_issue_across_locale() {
    let mut loaded = bundles();
    let mut ui = window(&mut loaded);
    let mut controller = AppController::new(NOW);
    let report = operator_flow_report();
    assert!(report.has_consistent_health_counts());
    assert_eq!(scan_audit_status(&report), AuditStatus::Warning);
    let clean_status_report = DiagnosticReport {
        timestamp: report.timestamp,
        total_count: 1,
        healthy_count: 1,
        warning_count: 0,
        corrupted_count: 0,
        temporary_count: 0,
        profiles: vec![report.profiles[0].clone()],
    };
    assert_eq!(scan_audit_status(&clean_status_report), AuditStatus::Success);
    assert_eq!(
        OperatorStatus::scan_completed(&clean_status_report).outcome,
        OperatorStatusOutcome::Success
    );
    let corrupted_only_report = DiagnosticReport {
        total_count: 1,
        healthy_count: 0,
        corrupted_count: 1,
        profiles: vec![report.profiles[2].clone()],
        ..clean_status_report.clone()
    };
    assert_eq!(scan_audit_status(&corrupted_only_report), AuditStatus::Warning);
    let corrupted_only_status = OperatorStatus::scan_completed(&corrupted_only_report);
    assert_eq!(corrupted_only_status.outcome, OperatorStatusOutcome::Warning);
    assert!(corrupted_only_status.render_summary(&loaded).contains("review required"));
    assert!(corrupted_only_status
        .render_details(&loaded)
        .contains("warning or corrupted profile"));
    set_locale_and_app_strings(&mut ui, &mut loaded, "fr").expect("French locale");
    assert!(corrupted_only_status.render_summary(&loaded).contains("vérification requise"));
    set_locale_and_app_strings(&mut ui, &mut loaded, "en").expect("restore English locale");
    controller.cache_and_apply_report(&mut ui, &loaded, report.clone());

    assert_eq!(ui.inventory.total, 3);
    assert_eq!(ui.inventory.healthy, 1);
    assert_eq!(ui.inventory.warning, 1);
    assert_eq!(ui.inventory.corrupted, 1);
    assert_eq!(ui.inventory.temporary, 1);
    assert_eq!(
        ui.inventory.profiles.iter().map(|row| row.health_type).collect::<Vec<_>>(),
        vec![0, 1, 2]
    );
    assert_eq!(ui.selection.index, -1);

    controller.select_profile(&mut ui, &loaded, 1);
    assert_eq!(ui.selection.index, 1);
    assert_eq!(ui.selection.account, r"TEST\WarningUser");
    assert_eq!(ui.selection.sid, "S-1-5-21-1002");
    assert_eq!(ui.selection.path, r"C:\Users\WarningUser");
    assert!(!ui.selection.loaded);
    assert_eq!(ui.selection.issues[0].code, "FILESYSTEM_SCAN_FAILURE");
    assert_eq!(ui.selection.issues[0].technical_details, "RAW-WARNING-ACCESS-DENIED-0x5");

    controller.publish_operator_status(&mut ui, &loaded, OperatorStatus::scan_completed(&report));
    assert!(ui.status.message.contains("review required"));
    let selected_before = (
        ui.selection.index,
        ui.selection.sid.clone(),
        ui.selection.path.clone(),
        ui.selection.issues[0].technical_details.clone(),
    );
    assert!(controller.change_locale(&mut ui, &mut loaded, "fr").expect("French rerender"));
    assert_eq!(
        selected_before,
        (
            ui.selection.index,
            ui.selection.sid.clone(),
            ui.selection.path.clone(),
            ui.selection.issues[0].technical_details.clone(),
        )
    );
    assert!(ui.status.message.contains("avertissements"));

    ui.repair_fix_bak = true;
    ui.repair_reset_state = true;
    ui.draft.target_path = r"D:\Migrated\WarningUser".to_string();
    ui.draft.include_roaming = true;
    ui.draft.include_docs = true;
    ui.draft.progress = 61;
    controller.cache_and_apply_migration_terminal(
        &mut ui,
        &loaded,
        MigrationTerminalPresentation::Cancelled,
    );
    controller.cache_and_apply_report(&mut ui, &loaded, report);
    assert_eq!(ui.selection.index, -1);
    assert!(ui.selection.sid.is_empty());
    assert_eq!(ui.selection.issues.len(), 0);
    assert!(!ui.repair_fix_bak);
    assert!(!ui.repair_reset_state);
    assert!(ui.draft.target_path.is_empty());
    assert!(!ui.draft.include_roaming);
    assert!(!ui.draft.include_docs);
    assert_eq!(ui.draft.progress, 0);
    assert!(ui.draft.status.is_empty());
    assert!(controller.last_migration_terminal.is_none());
}

#[test]
fn locale_change_remaps_cached_models_without_scanner_or_journal_reads() {
    let mut loaded = bundles();
    let mut ui = window(&mut loaded);
    let mut controller = AppController::new(NOW);
    controller.cache_and_apply_report(&mut ui, &loaded, locale_report());
    controller.refresh_audit_logs(&mut ui, &loaded, NOW, Ok(locale_audit_entries()));
    controller.select_profile(&mut ui, &loaded, 0);
    controller.cache_and_apply_migration_terminal(
        &mut ui,
        &loaded,
        MigrationTerminalPresentation::Success {
            files: 7,
            bytes: 4_096,
            manifest_hash: "0123456789abcdef".to_string(),
        },
    );
    ui.repair_reset_state = true;
    ui.draft.include_roaming = true;
    ui.draft.progress = 42;
    ui.startup.consent_granted = true;

    assert!(ui.inventory.profiles[0].status_text.contains(".bak suffix"));
    assert_eq!(ui.audit_entries[0].status, "Rolled back");
    assert_eq!(ui.draft.status, "Migration verified: 7 files, manifest 0123456789abcdef");
    let preserved = |ui: &MainWindow| {
        (
            (
                ui.selection.index,
                ui.selection.sid.clone(),
                ui.selection.path.clone(),
                ui.selection.username.clone(),
                ui.inventory.total,
                ui.inventory.healthy,
                ui.inventory.corrupted,
                ui.inventory.temporary,
            ),
            (
                ui.inventory.profiles[0].health_type,
                ui.audit_entries[0].status_type,
                ui.repair_fix_bak,
                ui.repair_reset_state,
                ui.selection.repair_blocked_by_lock_inspection,
                ui.draft.include_roaming,
                ui.draft.progress,
                ui.startup.consent_granted,
            ),
        )
    };
    let before = preserved(&ui);

    assert!(controller.change_locale(&mut ui, &mut loaded, "fr").expect("French rerender"));

    assert!(ui.inventory.profiles[0].status_text.contains("suffixe .bak"));
    assert_eq!(ui.audit_entries[0].status, "Rollback effectué");
    assert!(ui.selection.anomalies.contains("suffixe .bak"));
    assert_eq!(
        ui.draft.status,
        "Migration vérifiée : 7 fichiers, manifeste 0123456789abcdef"
    );
    assert_eq!(before, preserved(&ui));
    assert_eq!(ui.status.message, "Prêt");
}

#[test]
fn locale_change_rerenders_cancelled_but_preserves_raw_migration_error() {
    let mut loaded = bundles();
    let mut ui = window(&mut loaded);
    let mut controller = AppController::new(NOW);
    ui.draft.progress = 73;
    controller.cache_and_apply_migration_terminal(
        &mut ui,
        &loaded,
        MigrationTerminalPresentation::Cancelled,
    );
    assert_eq!(ui.draft.status, "Operation cancelled and rolled back");

    assert!(controller.change_locale(&mut ui, &mut loaded, "fr").expect("French rerender"));
    assert_eq!(ui.draft.status, "Opération annulée et changements annulés");
    assert_eq!(ui.draft.progress, 73);

    let raw_error = "RAW-MIGRATION-ERROR-0x1234";
    controller.cache_and_apply_migration_terminal(
        &mut ui,
        &loaded,
        MigrationTerminalPresentation::Error { details: raw_error.to_string() },
    );
    assert!(controller.change_locale(&mut ui, &mut loaded, "en").expect("English rerender"));
    assert_eq!(ui.draft.status, raw_error);
    assert_eq!(ui.draft.progress, 73);
}

#[test]
fn busy_or_modal_locale_change_preserves_locale_and_models() {
    let mut loaded = bundles();
    let mut ui = window(&mut loaded);
    let mut controller = AppController::new(NOW);
    controller.cache_and_apply_report(&mut ui, &loaded, locale_report());
    controller.refresh_audit_logs(&mut ui, &loaded, NOW, Ok(locale_audit_entries()));
    let original_models = displayed_models(&ui);

    assert!(controller.operation_state.try_begin(OperationKind::Scan));
    ui.operation_busy = true;
    assert!(!controller.change_locale(&mut ui, &mut loaded, "fr").expect("busy change refusal"));
    assert_eq!(loaded.as_ref().expect("valid i18n").get_locale(), "en");
    assert_eq!(ui.current_locale, "en");
    assert_eq!(displayed_models(&ui), original_models);
    controller.finish_operation();
    ui.operation_busy = false;

    ui.confirmation.visible = true;
    assert!(!ui.language_switch_enabled());
    assert!(!controller.change_locale(&mut ui, &mut loaded, "fr").expect("modal change refusal"));
    assert_eq!(loaded.as_ref().expect("valid i18n").get_locale(), "en");
    assert_eq!(displayed_models(&ui), original_models);
}

#[test]
fn an_unknown_locale_is_refused_with_its_name() {
    let mut loaded = bundles();
    let mut ui = window(&mut loaded);
    let controller = AppController::new(NOW);
    let refused = controller.change_locale(&mut ui, &mut loaded, "de");
    assert_eq!(refused, Err("Unsupported locale: de".to_string()));
    assert_eq!(ui.current_locale, "en");
}

#[test]
fn going_through_another_locale_leaves_no_trace() {
    let mut loaded = bundles();
    let mut ui = window(&mut loaded);
    let mut controller = AppController::new(NOW);
    controller.cache_and_apply_report(&mut ui, &loaded, operator_flow_report());
    controller.refresh_audit_logs(&mut ui, &loaded, NOW, Ok(locale_audit_entries()));
    controller.select_profile(&mut ui, &loaded, 1);
    assert!(controller.change_locale(&mut ui, &mut loaded, "en").expect("English"));
    let before = format!("{ui:?}");
    assert!(controller.change_locale(&mut ui, &mut loaded, "fr").expect("French"));
    assert_ne!(format!("{ui:?}"), before);
    assert!(controller.change_locale(&mut ui, &mut loaded, "en").expect("English"));
    assert_eq!(format!("{ui:?}"), before);
}

// ---------------------------------------------------------------------------
// Scan, export, console, closing
// ---------------------------------------------------------------------------

#[test]
fn a_scan_is_recorded_and_shown() {
    let mut loaded = bundles();
    let mut ui = window(&mut loaded);
    let mut controller = AppController::new(NOW);
    assert!(controller.scan_profiles(&mut ui, &loaded, NOW));
    assert_eq!(ui.status.message, "Scanning");
    assert_eq!(
        scan_details(&operator_flow_report()),
        "Discovered 3 profiles (1 healthy, 1 warnings, 1 corrupted, 1 temporary transversal)"
    );
    let (mut run, first) = ScanRun::start();
    assert!(matches!(first, ScanAction::Scan));
    let recorded = run.step(ScanEvent::Scanned(Ok(operator_flow_report())));
    assert!(matches!(recorded, ScanAction::Audit { status: AuditStatus::Warning, .. }));
    let ScanAction::Finish(result) = run.step(ScanEvent::Audited(Ok(()))) else {
        panic!("the scan ends");
    };
    assert!(!controller.finish_operation());
    controller.queue_scan_result(&mut ui, &loaded, NOW, result, Ok(Vec::new()));
    assert_eq!(ui.inventory.total, 3);
    assert!(ui.status.message.contains("review required"));
    controller.queue_scan_result(
        &mut ui,
        &loaded,
        NOW,
        Err("registry closed".to_string()),
        Ok(Vec::new()),
    );
    assert!(ui.status.details.contains("registry closed"));
}

#[test]
fn a_scan_that_cannot_be_recorded_fails_with_both_reasons() {
    let (mut run, _) = ScanRun::start();
    run.step(ScanEvent::Scanned(Ok(operator_flow_report())));
    let again = run.step(ScanEvent::Audited(Err("disk full".to_string())));
    assert!(matches!(
        again,
        ScanAction::Audit { status: AuditStatus::Failed, details }
            if details == "scan completed but audit logging failed: disk full"
    ));
    let end = run.step(ScanEvent::Audited(Err("still full".to_string())));
    assert!(matches!(
        end,
        ScanAction::Finish(Err(reason)) if reason
            == "scan completed but audit logging failed: disk full; audit logging also failed: still full"
    ));
    let (mut run, _) = ScanRun::start();
    run.step(ScanEvent::Scanned(Err("no key".to_string())));
    assert!(matches!(
        run.step(ScanEvent::Audited(Ok(()))),
        ScanAction::Finish(Err(reason)) if reason == "no key"
    ));
}

#[test]
fn the_console_and_the_export_tell_how_they_ended() {
    let mut loaded = bundles();
    let mut ui = window(&mut loaded);
    let mut controller = AppController::new(NOW);
    controller.request_ti_confirmation(&mut ui, &loaded);
    assert_eq!(ui.confirmation.kind, CONFIRM_TRUSTED_INSTALLER);
    assert_eq!(confirmed_action(ui.confirmation.kind), ConfirmedAction::LaunchConsole);
    assert_eq!(confirmed_action(7), ConfirmedAction::Nothing);
    assert!(!controller.launch_ti_console(&mut ui, &loaded, NOW, Ok(false)));
    assert!(controller.launch_ti_console(&mut ui, &loaded, NOW, Ok(true)));
    assert!(!controller.export_audit(&mut ui, &loaded, NOW));
    controller.finish_operation();
    controller.show_launch_result(&mut ui, &loaded, NOW, Ok(4242), Ok(Vec::new()));
    assert_eq!(ui.status.message, "Console started: 4242");
    controller.show_launch_result(&mut ui, &loaded, NOW, Err("denied".to_string()), Ok(Vec::new()));
    assert!(ui.status.details.contains("denied"));

    assert!(controller.export_audit(&mut ui, &loaded, NOW));
    controller.finish_operation();
    controller.show_export_result(&mut ui, &loaded, NOW, Ok(r"C:\Exports\a.jsonl".to_string()));
    assert_eq!(ui.status.message, r"Exported to C:\Exports\a.jsonl");
    controller.show_export_result(&mut ui, &loaded, NOW, Err("no space".to_string()));
    assert!(ui.status.details.contains("no space"));
}

#[test]
fn clearing_the_journal_view_forgets_its_entries() {
    let mut loaded = bundles();
    let mut ui = window(&mut loaded);
    let mut controller = AppController::new(NOW);
    let mut journal =
        AuditLogger::new("audit.jsonl", 10, Ok(Vec::new())).expect("journal");
    for entry in locale_audit_entries() {
        journal.log(entry, Ok(())).expect("entry");
    }
    controller.refresh_audit_logs(&mut ui, &loaded, NOW, Ok(journal.get_entries()));
    assert_eq!(ui.audit_entries.len(), 1);
    controller.clear_audit_logs(&mut ui, &loaded, NOW, &mut journal);
    assert!(ui.audit_entries.is_empty());
    assert!(journal.get_entries().is_empty());
    assert_eq!(ui.status.message, "text of status.audit_cleared");
}

#[test]
fn the_window_closes_only_where_nothing_runs() {
    let mut loaded = bundles();
    let mut ui = entered_migration(&mut loaded);
    let mut controller = AppController::new(NOW);
    assert_eq!(
        controller.handle_close_requested(&mut ui, &loaded, NOW),
        CloseRequestResponse::HideWindow
    );
    assert!(controller.scan_profiles(&mut ui, &loaded, NOW));
    assert_eq!(
        controller.handle_close_requested(&mut ui, &loaded, NOW),
        CloseRequestResponse::KeepWindowShown
    );
    assert_eq!(ui.status.message, "text of status.close_blocked_repair");
    controller.finish_operation();
    ui.operation_busy = false;

    controller.prevalidate_migration(&mut ui, &loaded, NOW, clear_observation());
    controller.start_migration(&mut ui, &loaded, NOW, Ok(true)).expect("migration begins");
    assert_eq!(
        controller.handle_close_requested(&mut ui, &loaded, NOW),
        CloseRequestResponse::KeepWindowShown
    );
    assert!(controller.is_migration_cancelled());
    assert!(controller.finish_migration(), "the window closes behind the migration");
    assert!(!controller.finish_migration());
}

// ---------------------------------------------------------------------------
// The start
// ---------------------------------------------------------------------------

#[test]
fn every_startup_state_rerenders_without_changing_raw_state_or_invoking_actions() {
    let mut loaded = bundles();
    let mut ui = MainWindow::new();
    ui.startup.visible = true;
    ui.startup.consent_granted = true;

    let states = [
        StartupPresentation::Checking,
        StartupPresentation::FreshRecovery { reason: "RAW-FRESH-REASON".to_string() },
        StartupPresentation::ResumeRecovery { reason: "RAW-RESUME-REASON".to_string() },
        StartupPresentation::Working,
        StartupPresentation::Error { details: "RAW-ERROR-DETAILS".to_string() },
    ];
    for state in states {
        set_locale_and_app_strings(&mut ui, &mut loaded, ENGLISH_LOCALE)
            .expect("English startup state");
        state.apply(&mut ui, &loaded);
        let english_title = ui.startup.title.clone();
        let english_action = ui.startup.action_text.clone();
        let english_details = ui.startup.details.clone();

        set_locale_and_app_strings(&mut ui, &mut loaded, FRENCH_LOCALE)
            .expect("French startup state");
        state.apply(&mut ui, &loaded);
        assert_ne!(ui.startup.title, english_title);
        assert_ne!(ui.startup.action_text, english_action);
        match &state {
            StartupPresentation::FreshRecovery { reason }
            | StartupPresentation::ResumeRecovery { reason } => {
                assert!(english_details.contains(reason));
                assert!(ui.startup.details.contains(reason));
            }
            StartupPresentation::Error { details } => {
                assert_eq!(&english_details, details);
                assert_eq!(&ui.startup.details, details);
            }
            StartupPresentation::Checking | StartupPresentation::Working => {}
        }
        assert!(ui.startup.consent_granted);
    }
}

#[test]
fn startup_error_text_keeps_storage_context() {
    let error = StartupError::Legacy(LegacyStorageError::IdentityChanged);
    assert!(error.message().contains("identity changed"));
}

#[test]
fn only_a_fresh_legacy_transition_requires_consent() {
    assert!(requires_fresh_consent(false));
    assert!(!requires_fresh_consent(true));
}

fn recovery(resume: bool) -> LegacyStorageRecovery {
    LegacyStorageRecovery {
        reason: "RAW-REASON".to_string(),
        detected_identity: identity(1),
        resume,
    }
}

fn identity(number: u8) -> winprofile::secure_fs::FileIdentity {
    winprofile::secure_fs::FileIdentity { volume_serial: 7, file_index: number as u64 }
}

fn pending() -> PendingProductionStorage {
    PendingProductionStorage {
        state: MigrationStateRecord {
            schema: 1,
            migration_id: "0123".to_string(),
            phase: DetachmentPhase::AuditPending,
            source_identity: identity(1),
            next_identity: identity(2),
            legacy_name: "WinProfile.Legacy.Untrusted.0123".to_string(),
            next_name: "WinProfile.Next.0123".to_string(),
        },
    }
}

#[test]
fn a_fresh_recovery_waits_for_consent_and_a_resumed_one_does_not() {
    let mut loaded = bundles();
    let mut ui = MainWindow::new();
    set_locale_and_app_strings(&mut ui, &mut loaded, "en").expect("English locale");
    let mut runtime = StartupRuntime::new();
    assert!(!runtime.may_quit());
    assert_eq!(
        runtime.close_requested(&mut ui, &loaded),
        Some(CloseRequestResponse::KeepWindowShown)
    );
    assert_eq!(ui.status.message, "Wait for the start");

    runtime.present_startup_decision(
        &mut ui,
        &loaded,
        StartupDecision::Recovery(recovery(false)),
    );
    assert!(ui.startup.consent_required && !ui.startup.consent_granted && !ui.startup.busy);
    assert_eq!(ui.startup.title, "Old storage found");
    assert_eq!(ui.startup.details, "Reason: RAW-REASON");
    assert!(runtime.start_or_retry(&mut ui, &loaded).is_none(), "no consent yet");
    assert_eq!(
        runtime.close_requested(&mut ui, &loaded),
        Some(CloseRequestResponse::HideWindow)
    );
    runtime.change_locale(&mut ui, &mut loaded, "fr").expect("French");
    assert_eq!(ui.startup.title, "Ancien stockage trouvé");
    assert!(ui.startup.consent_required && !ui.startup.consent_granted);

    ui.startup.consent_granted = true;
    let handed = runtime.start_or_retry(&mut ui, &loaded).expect("it goes on");
    assert_eq!(handed.expect("a recovery").reason, "RAW-REASON");
    assert!(ui.startup.busy && runtime.startup_busy);
    assert!(runtime.start_or_retry(&mut ui, &loaded).is_none(), "already under way");

    runtime.present_startup_decision(&mut ui, &loaded, StartupDecision::Recovery(recovery(true)));
    assert!(!ui.startup.consent_required && ui.startup.consent_granted);
    assert_eq!(ui.startup.action_text, "Reprendre");

    runtime.present_startup_error(&mut ui, &loaded, "RAW-ERROR");
    assert_eq!(ui.startup.details, "RAW-ERROR");
    assert!(runtime.start_or_retry(&mut ui, &loaded).expect("it is tried again").is_none());

    runtime.present_startup_decision(&mut ui, &loaded, StartupDecision::Ready);
    assert!(!ui.startup.visible && runtime.ready);
    assert_eq!(ui.status.message, "Prêt");
    assert_eq!(runtime.close_requested(&mut ui, &loaded), None);
}

#[test]
fn a_detachment_is_completed_only_once_it_is_recorded() {
    let (mut run, first) = ServicesRun::complete_recovery(pending());
    assert!(matches!(first, ServicesAction::OpenJournal { remember: 500 }));
    run.step(ServicesEvent::JournalOpened(Ok(())));
    let recorded = run.step(ServicesEvent::SnapshotsOpened(Ok(())));
    assert!(matches!(
        recorded,
        ServicesAction::Audit { operation: "LegacyStorageDetached", status: AuditStatus::Warning, .. }
    ));
    assert!(matches!(
        run.step(ServicesEvent::Audited(Err("journal gone".to_string()))),
        ServicesAction::Finish(Err(StartupError::Audit(reason))) if reason == "journal gone"
    ));

    let (mut run, _) = ServicesRun::complete_recovery(pending());
    run.step(ServicesEvent::JournalOpened(Ok(())));
    run.step(ServicesEvent::SnapshotsOpened(Ok(())));
    assert!(matches!(run.step(ServicesEvent::Audited(Ok(()))), ServicesAction::Complete));
    assert!(matches!(
        run.step(ServicesEvent::Completed(Ok(()))),
        ServicesAction::Finish(Ok(StartupDecision::Ready))
    ));
}

#[test]
fn the_services_fail_with_their_own_context() {
    let (mut run, _) = ServicesRun::build_controller();
    let ServicesAction::Finish(Err(error)) =
        run.step(ServicesEvent::JournalOpened(Err("locked".to_string())))
    else {
        panic!("the journal is needed");
    };
    assert_eq!(error.message(), "audit service initialization failed: locked");
    let (mut run, _) = ServicesRun::build_controller();
    run.step(ServicesEvent::JournalOpened(Ok(())));
    let ServicesAction::Finish(Err(error)) = run.step(ServicesEvent::SnapshotsOpened(Err(
        SnapshotError::IoError("denied".to_string()),
    ))) else {
        panic!("the snapshots are needed");
    };
    assert!(error.message().starts_with("snapshot service initialization failed: "));

    assert!(matches!(inspect(Ok(ProductionStorageState::Ready)), InspectionStep::Build));
    assert!(matches!(
        inspect(Ok(ProductionStorageState::NeedsConsent(recovery(false)))),
        InspectionStep::Decide(StartupDecision::Recovery(found)) if !found.is_resume()
    ));
    assert!(matches!(
        inspect(Ok(ProductionStorageState::NeedsResume(recovery(true)))),
        InspectionStep::Decide(StartupDecision::Recovery(found)) if found.is_resume()
    ));
    assert!(matches!(
        inspect(Err(LegacyStorageError::IdentityChanged)),
        InspectionStep::Fail(StartupError::Legacy(LegacyStorageError::IdentityChanged))
    ));
}

#[test]
fn a_presentation_renders_what_it_stands_for() {
    let loaded = bundles();
    assert!(MigrationPreflightPresentation::Silent.render(&loaded).is_none());
    assert_eq!(
        MigrationPreflightPresentation::Ready { target: r"D:\X".to_string() }.render(&loaded),
        Some(r"Ready to migrate to D:\X".to_string())
    );
    assert_eq!(
        MigrationPreflightPresentation::RawFailure { details: "RAW".to_string() }.render(&loaded),
        Some("RAW".to_string())
    );
}
