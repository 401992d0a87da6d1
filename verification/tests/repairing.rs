//! Scans, repairs, snapshots and their restoration.
use std::collections::{BTreeMap, BTreeSet};
use winprofile::clock::{timestamp_micros, Stamp, UtcTime};
use winprofile::constants::{
    STATE_DELETE_ROAMING, STATE_LOCAL_ONLY, STATE_MANDATORY, STATE_READONLY, STATE_TEMP_PROFILE,
};
use winprofile::hashing::sha256_hex;
use winprofile::broker::service_entry;
use winprofile::console_launch::launch_entry;
use winprofile::journal::{AuditEntry, AuditStatus};
use winprofile::migration_run::ProfileMigrationEngine;
use winprofile::models::{
    MigrationPlan, ProfileAnomaly, ProfileHealth, RepairPlan, UserProfile,
};
use winprofile::registry::RegistryError;
use winprofile::repair::{
    attempt_all_then_audit, inspect, is_valid_sid, normalize_profile_path, required_snapshots,
    rollback_summary, snapshot_request, validate_plan, verify, ManualCloseBlocker, PlanObservation, RepairError,
    VerifyObservation,
};
use winprofile::repair_run::{ProfileRepairEngine, RepairAction, RepairEvent, RepairStage};
use winprofile::restart_manager::{LockingProcessInfo, RestartManagerError};
use winprofile::rollback::{
    finish_privileged_restore, restore_registry_snapshot, split_restore_target,
    ArtifactObservation, RestoreAction, RestoreEvent, RestoreRun, RollbackError,
};
use winprofile::scan_run::scan_entry;
use winprofile::scanner::{
    build_diagnostic_report, directory_size, mark_path_collisions, ProfileObservation,
    ProfileReadings, ProfileScanner, ScannedDirectory, ScannedEntry, ScannerError,
};
use winprofile::secure_fs::FileIdentity;
use winprofile::security::SecurityError;
use winprofile::snapshot::{
    HiveObservation, InventoryItem, SnapshotAction, SnapshotEngine, SnapshotError, SnapshotEvent,
    SnapshotMetadata, SnapshotRequest, SnapshotSeed,
};
use winprofile::storage::StorageError;

const NOW: UtcTime = UtcTime { seconds: 1_787_246_299, nanos: 123_456_000 };

// ---------------------------------------------------------------------------
// Models and scans
// ---------------------------------------------------------------------------

#[test]
fn test_state_bitmask_constants() {
    assert_eq!(STATE_TEMP_PROFILE, 0x0080);
    assert_eq!(STATE_MANDATORY, 0x0001);
    assert_eq!(STATE_READONLY, 0x0002);
    assert_eq!(STATE_LOCAL_ONLY, 0x0004);
    assert_eq!(STATE_DELETE_ROAMING, 0x0008);
}

#[test]
fn test_profile_health_computation() {
    let mut profile = UserProfile {
        sid: "S-1-5-21-12345-500".into(),
        canonical_sid: "S-1-5-21-12345-500".into(),
        username: "TestAdmin".into(),
        domain: "CONTOSO".into(),
        profile_path: "C:\\Users\\TestAdmin".into(),
        loaded: false,
        is_bak: false,
        state_mask: 0,
        ref_count: 0,
        guid: None,
        ntuser_exists: true,
        usrclass_exists: true,
        disk_size_bytes: 1024,
        anomalies: vec![],
        health: ProfileHealth::Healthy,
    };

    profile.compute_health();
    assert_eq!(profile.health, ProfileHealth::Healthy);

    profile.anomalies.push(ProfileAnomaly::BakSuffix);
    profile.is_bak = true;
    profile.compute_health();
    assert_eq!(profile.health, ProfileHealth::Corrupted);
}

fn profile(sid: &str, path: &str) -> UserProfile {
    UserProfile {
        sid: sid.to_string(),
        canonical_sid: sid.to_string(),
        username: sid.to_string(),
        domain: String::new(),
        profile_path: path.to_string(),
        loaded: false,
        is_bak: false,
        state_mask: 0,
        ref_count: 0,
        guid: None,
        ntuser_exists: true,
        usrclass_exists: true,
        disk_size_bytes: 0,
        anomalies: Vec::new(),
        health: ProfileHealth::Healthy,
    }
}

#[test]
fn collision_detection_uses_duplicate_paths_not_temp_substrings() {
    let mut profiles = vec![
        profile("S-1-5-21-1", r"C:\Users\Template"),
        profile("S-1-5-21-2", r"c:\users\duplicate"),
        profile("S-1-5-21-3", r"C:\Users\Duplicate\"),
    ];
    mark_path_collisions(&mut profiles);

    assert!(profiles[0].anomalies.is_empty());
    assert!(profiles[1]
        .anomalies
        .iter()
        .any(|anomaly| matches!(anomaly, ProfileAnomaly::PathCollision(_))));
    assert!(profiles[2]
        .anomalies
        .iter()
        .any(|anomaly| matches!(anomaly, ProfileAnomaly::PathCollision(_))));
}

#[test]
fn diagnostic_counts_partition_health_and_keep_temporary_transversal() {
    let healthy = profile("S-1-5-21-1", r"C:\Users\Healthy");
    let mut warning = profile("S-1-5-21-2", r"C:\Users\Warning");
    warning.health = ProfileHealth::Warning;
    warning
        .anomalies
        .push(ProfileAnomaly::MissingDirectory(warning.profile_path.clone()));
    let mut corrupted_temporary = profile("S-1-5-21-3", r"C:\Users\Temporary");
    corrupted_temporary.health = ProfileHealth::Corrupted;
    corrupted_temporary.anomalies.push(ProfileAnomaly::TempSession);

    let report = build_diagnostic_report(vec![healthy, warning, corrupted_temporary], NOW);

    assert_eq!(report.total_count, 3);
    assert_eq!(report.healthy_count, 1);
    assert_eq!(report.warning_count, 1);
    assert_eq!(report.corrupted_count, 1);
    assert_eq!(report.temporary_count, 1);
    assert!(report.has_consistent_health_counts());
}

fn scanned_profile() -> ScannedDirectory {
    ScannedDirectory {
        path: r"C:\base\profile".to_string(),
        is_reparse: false,
        entries: Ok(vec![ScannedEntry::File(7), ScannedEntry::Reparse]),
    }
}

#[test]
fn directory_size_skips_child_junction_without_counting_target() {
    let size = directory_size(&scanned_profile()).expect("scan profile with child junction");

    assert_eq!(size, 7);
}

#[test]
fn directory_size_refuses_reparse_root() {
    let junction = ScannedDirectory {
        path: r"C:\base\profile\linked-data".to_string(),
        is_reparse: true,
        entries: Ok(vec![ScannedEntry::File(32)]),
    };

    let error = directory_size(&junction).expect_err("reparse root must be refused");

    assert!(error.contains("reparse point refused"), "{error}");
}

#[test]
fn directory_sizes_add_up_saturate_and_stop_at_the_first_failure() {
    let nested = ScannedDirectory {
        path: "root".to_string(),
        is_reparse: false,
        entries: Ok(vec![
            ScannedEntry::Directory(scanned_profile()),
            ScannedEntry::File(u64::MAX - 8),
        ]),
    };
    assert_eq!(directory_size(&nested), Ok(u64::MAX - 1));
    let full = ScannedDirectory {
        path: "root".to_string(),
        is_reparse: false,
        entries: Ok(vec![ScannedEntry::File(u64::MAX), ScannedEntry::File(5)]),
    };
    assert_eq!(directory_size(&full), Ok(u64::MAX));
    let broken = ScannedDirectory {
        path: "root".to_string(),
        is_reparse: false,
        entries: Ok(vec![
            ScannedEntry::File(1),
            ScannedEntry::Other(r"root\pipe".to_string()),
            ScannedEntry::Failed("later".to_string()),
        ]),
    };
    assert_eq!(
        directory_size(&broken),
        Err(r"unsupported filesystem entry: root\pipe".to_string())
    );
}

fn readings(path: &str) -> ProfileReadings {
    ProfileReadings {
        image_path: Ok(path.to_string()),
        state: Ok(0),
        ref_count: Ok(0),
        guid: Err(RegistryError::ValueNotFound("Guid".to_string())),
        account: Ok(("CONTOSO".to_string(), "anna".to_string())),
        hive: Err(RegistryError::Win32Error(2)),
        dir_exists: true,
        ntuser_exists: true,
        usrclass_exists: true,
        locks: Ok(Vec::new()),
        size: Ok(42),
    }
}

fn observed(name: &str, readings: Result<ProfileReadings, RegistryError>) -> ProfileObservation {
    ProfileObservation { key_name: name.to_string(), readings }
}

#[test]
fn a_scan_passes_over_system_accounts_and_records_what_it_finds() {
    let mut odd = readings("   ");
    odd.state = Ok(0x84);
    odd.ref_count = Err(RegistryError::Win32Error(5));
    odd.account = Err("no mapping".to_string());
    odd.dir_exists = false;
    let mut locked = readings(r"C:\Users\Bea");
    locked.state = Ok(0x100);
    locked.locks = Ok(vec![LockingProcessInfo {
        process_id: 42,
        app_name: "Editor.exe".to_string(),
        service_short_name: String::new(),
        app_type: 1,
        restartable: false,
    }]);
    let report = ProfileScanner::scan_all(
        Ok(vec![
            observed("S-1-5-18", Err(RegistryError::Win32Error(5))),
            observed("S-1-5-21-1", Ok(readings(r"C:\Users\Anna"))),
            observed("S-1-5-21-2.bak", Ok(odd)),
            observed("S-1-5-21-3", Ok(locked)),
        ]),
        NOW,
    )
    .expect("report");
    assert_eq!(report.total_count, 3);
    assert_eq!(report.profiles[0].health, ProfileHealth::Healthy);
    assert_eq!(report.profiles[0].disk_size_bytes, 42);
    assert_eq!(report.profiles[1].canonical_sid, "S-1-5-21-2");
    assert_eq!(report.profiles[1].username, "S-1-5-21-2");
    assert_eq!(
        report.profiles[1].anomalies,
        vec![
            ProfileAnomaly::RegistryReadFailure("ProfileImagePath: empty value".to_string()),
            ProfileAnomaly::RegistryReadFailure(
                "RefCount: Registry operation failed with Win32 error code: 5".to_string()
            ),
            ProfileAnomaly::SidResolutionFailure("no mapping".to_string()),
            ProfileAnomaly::BakSuffix,
            ProfileAnomaly::TempSession,
            ProfileAnomaly::MissingDirectory(String::new()),
        ]
    );
    assert_eq!(
        report.profiles[2].anomalies,
        vec![
            ProfileAnomaly::DirtyStateMask(0x100),
            ProfileAnomaly::LockedNtUserDat(vec!["Editor.exe (PID: 42)".to_string()]),
        ]
    );
    assert_eq!(report.temporary_count, 1);
}

#[test]
fn an_unreadable_profile_key_stops_the_scan() {
    match ProfileScanner::scan_all_profiles(Ok(vec![
        observed("S-1-5-21-1", Ok(readings(r"C:\Users\Anna"))),
        observed("S-1-5-21-2", Err(RegistryError::Win32Error(5))),
    ])) {
        Err(error @ ScannerError::ProfileKeyUnreadable { .. }) => assert_eq!(
            error.message(),
            "Profile key 'S-1-5-21-2' cannot be read: Registry operation failed with Win32 error code: 5"
        ),
        other => panic!("unexpected {other:?}"),
    }
    assert!(matches!(
        ProfileScanner::scan_all_profiles(Err(RegistryError::InvalidUtf16)),
        Err(ScannerError::RegistryError(RegistryError::InvalidUtf16))
    ));
}

// ---------------------------------------------------------------------------
// Repairs
// ---------------------------------------------------------------------------

fn test_plan(unlock_hive: bool) -> RepairPlan {
    RepairPlan {
        sid: "S-1-5-21-1001".to_string(),
        canonical_sid: "S-1-5-21-1001".to_string(),
        profile_path: r"C:\Users\Test".to_string(),
        fix_bak: true,
        reset_state: false,
        unlock_hive,
        dry_run: false,
    }
}

#[test]
fn sid_validation_is_strict() {
    assert!(is_valid_sid("S-1-5-21-1001"));
    assert!(!is_valid_sid("S-1-5-21-1001.bak"));
    assert!(!is_valid_sid("S-1-5-21-abc"));
    assert!(!is_valid_sid("S-1-5-21-"));
    assert!(!is_valid_sid(""));
}

#[test]
fn every_snapshot_is_attempted_before_audit_failure_is_reported() {
    let mut attempted = Vec::new();
    let mut restored = Vec::new();
    for item in [1, 2] {
        attempted.push(item);
        restored.push(if item == 1 { Err("first restore failed".to_string()) } else { Ok(()) });
    }
    let errors = attempt_all_then_audit(
        Vec::new(),
        &restored,
        Err("summary audit failed".to_string()),
    );
    assert_eq!(attempted, vec![1, 2]);
    assert_eq!(errors.len(), 2);
    assert!(errors[0].contains("first restore"));
    assert!(errors[1].contains("audit"));
}

#[test]
fn rename_error_makes_summary_failed_after_every_snapshot_attempt() {
    let restored = vec![Ok(()), Ok(())];
    let before = vec!["restore canonical name: access denied".to_string()];
    let (status, details) = rollback_summary(2, &before);
    let errors = attempt_all_then_audit(before, &restored, Ok(()));

    assert_eq!(errors.len(), 1);
    assert_eq!(status, AuditStatus::Failed);
    assert!(details.contains("restore canonical name: access denied"));
    assert!(details.contains("attempted all 2 snapshot"));
}

/// A registry and a journal in memory, and how a repair of them goes.
struct Machine {
    keys: BTreeMap<String, (u32, u32)>,
    snapshots: Vec<BTreeMap<String, (u32, u32)>>,
    saved: Vec<String>,
    audit: Vec<(String, AuditStatus, String)>,
    inspections: Vec<Result<Vec<ManualCloseBlocker>, String>>,
    inspected: usize,
    refused_audits: BTreeSet<&'static str>,
    refused_renames: usize,
    refused_restores: bool,
    image_path: String,
    open_key: String,
}

impl Machine {
    fn new(names: &[&str]) -> Machine {
        Machine {
            keys: names.iter().map(|name| (name.to_string(), (0x204, 3))).collect(),
            snapshots: Vec::new(),
            saved: Vec::new(),
            audit: Vec::new(),
            inspections: Vec::new(),
            inspected: 0,
            refused_audits: BTreeSet::new(),
            refused_renames: 0,
            refused_restores: false,
            image_path: r"C:\Users\Test".to_string(),
            open_key: String::new(),
        }
    }

    fn observe(&self, plan: &RepairPlan) -> PlanObservation {
        let bak = format!("{}.bak", plan.canonical_sid);
        PlanObservation {
            hive: Err(RegistryError::Win32Error(2)),
            profile_list: Ok(()),
            selected_exists: Ok(self.keys.contains_key(&plan.sid)),
            selected_path: Ok(self.image_path.clone()),
            bak_exists: Ok(self.keys.contains_key(&bak)),
            bak_path: Ok(self.image_path.clone()),
            canonical_exists: Ok(self.keys.contains_key(&plan.canonical_sid)),
        }
    }

    fn repair(&mut self, plan: &RepairPlan) -> Result<(), RepairError> {
        let (mut run, mut action) = ProfileRepairEngine::execute_plan(plan.clone(), false);
        loop {
            let event = match action {
                RepairAction::Finish(result) => return result,
                RepairAction::AcquireGuard => RepairEvent::Guarded(Ok(())),
                RepairAction::InspectLocks { ntuser_path } => {
                    assert_eq!(ntuser_path, r"C:\Users\Test\NTUSER.DAT");
                    self.inspected += 1;
                    RepairEvent::Inspected(if self.inspections.is_empty() {
                        Ok(Vec::new())
                    } else {
                        self.inspections.remove(0)
                    })
                },
                RepairAction::Observe => RepairEvent::Observed(self.observe(plan)),
                RepairAction::Audit { operation, status, details } => {
                    if self.refused_audits.contains(operation) {
                        RepairEvent::Audited(Err("journal is full".to_string()))
                    } else {
                        self.audit.push((operation.to_string(), status, details));
                        RepairEvent::Audited(Ok(()))
                    }
                },
                RepairAction::CheckKey { name } => {
                    let exists = Ok(self.keys.contains_key(&name));
                    if run.stage == RepairStage::CheckCanonical {
                        RepairEvent::ExistsAt(exists, Stamp::of(NOW).expect("stamp"))
                    } else {
                        RepairEvent::Exists(exists)
                    }
                },
                RepairAction::CaptureSnapshot { path } => {
                    self.saved.push(path);
                    self.snapshots.push(self.keys.clone());
                    RepairEvent::Captured(Ok(()))
                },
                RepairAction::OpenProfileList { subkey } => {
                    assert_eq!(
                        subkey,
                        r"SOFTWARE\Microsoft\Windows NT\CurrentVersion\ProfileList"
                    );
                    RepairEvent::Registry(Ok(()))
                },
                RepairAction::RenameKey { from, to } => {
                    if self.refused_renames > 0 {
                        self.refused_renames -= 1;
                        RepairEvent::Registry(Err(RegistryError::Win32Error(5)))
                    } else {
                        let value = self.keys.remove(&from).expect("renamed key");
                        assert!(self.keys.insert(to, value).is_none(), "nothing is replaced");
                        RepairEvent::Registry(Ok(()))
                    }
                },
                RepairAction::OpenKey { name } => {
                    self.open_key = name;
                    RepairEvent::Registry(Ok(()))
                },
                RepairAction::SetValue { value_name, value } => {
                    let key = self.keys.get_mut(&self.open_key).expect("open key");
                    if value_name == "State" {
                        key.0 = value;
                    } else {
                        key.1 = value;
                    }
                    RepairEvent::Registry(Ok(()))
                },
                RepairAction::ReadBack => {
                    let key = self.keys.get(&plan.canonical_sid).copied();
                    RepairEvent::Verified(VerifyObservation {
                        canonical_exists: Ok(key.is_some()),
                        bak_exists: Ok(self
                            .keys
                            .contains_key(&format!("{}.bak", plan.canonical_sid))),
                        image_path: Ok(self.image_path.clone()),
                        state: Ok(key.map_or(1, |values| values.0)),
                        ref_count: Ok(key.map_or(1, |values| values.1)),
                    })
                },
                RepairAction::RestoreSnapshot { index, path } => {
                    assert_eq!(path, format!("HKLM\\{}", self.saved[index]));
                    if self.refused_restores {
                        RepairEvent::Restored(Err(RollbackError::DigestMismatch))
                    } else {
                        self.keys = self.snapshots[index].clone();
                        RepairEvent::Restored(Ok(()))
                    }
                },
            };
            action = run.step(event);
        }
    }
}

fn blocker() -> ManualCloseBlocker {
    ManualCloseBlocker { application: "Editor.exe".to_string(), process_id: 4242 }
}

#[test]
fn measured_lockers_fail_before_snapshot_mutation_or_success_audit() {
    let mut machine = Machine::new(&["S-1-5-21-1001"]);
    machine.inspections.push(Ok(vec![blocker()]));

    let result = machine.repair(&test_plan(false));

    assert!(matches!(
        result,
        Err(RepairError::ManualCloseRequired { blockers }) if blockers == vec![blocker()]
    ));
    assert_eq!(machine.inspected, 1);
    assert!(machine.snapshots.is_empty());
    assert!(machine.audit.is_empty());
}

#[test]
fn obsolete_unlock_flag_is_rejected_even_without_lockers_or_effects() {
    let mut machine = Machine::new(&["S-1-5-21-1001"]);

    let result = machine.repair(&test_plan(true));

    assert!(matches!(result, Err(RepairError::AutomaticUnlockUnsupported)));
    assert_eq!(machine.inspected, 0);
    assert!(machine.snapshots.is_empty());
    assert!(machine.audit.is_empty());
}

#[test]
fn lock_inspection_failure_is_fail_closed_before_any_effect() {
    let mut machine = Machine::new(&["S-1-5-21-1001"]);
    machine.inspections.push(Err("Restart Manager unavailable".to_string()));

    let result = machine.repair(&test_plan(false));

    assert!(matches!(
        result,
        Err(RepairError::LockInspectionFailed(details))
            if details == "Restart Manager unavailable"
    ));
    assert_eq!(machine.inspected, 1);
    assert!(machine.snapshots.is_empty());
    assert!(machine.audit.is_empty());
}

fn bak_plan() -> RepairPlan {
    RepairPlan {
        sid: "S-1-5-21-1001.bak".to_string(),
        canonical_sid: "S-1-5-21-1001".to_string(),
        profile_path: r"C:\Users\Test".to_string(),
        fix_bak: true,
        reset_state: true,
        unlock_hive: false,
        dry_run: false,
    }
}

#[test]
fn a_set_aside_profile_takes_its_name_back_and_the_other_key_is_kept() {
    let mut machine = Machine::new(&["S-1-5-21-1001", "S-1-5-21-1001.bak"]);

    machine.repair(&bak_plan()).expect("repaired");

    let kept = "S-1-5-21-1001.pre-repair-20260820T171819.123456Z";
    assert_eq!(machine.keys.keys().collect::<Vec<_>>(), ["S-1-5-21-1001", kept]);
    assert_eq!(machine.keys["S-1-5-21-1001"], (0, 0));
    assert_eq!(machine.saved.len(), 2);
    let operations: Vec<&str> = machine.audit.iter().map(|entry| entry.0.as_str()).collect();
    assert_eq!(operations, ["RepairStarted", "RepairSuccess"]);
    assert_eq!(machine.audit[0].2, "Validated repair with 2 durable snapshot(s)");
    assert_eq!(
        machine.audit[1].2,
        format!("Repair verified; preserved prior canonical key: {kept}")
    );
    assert_eq!(machine.inspected, 2);
}

#[test]
fn a_rehearsal_changes_nothing() {
    let mut machine = Machine::new(&["S-1-5-21-1001.bak"]);
    let before = machine.keys.clone();

    machine.repair(&RepairPlan { dry_run: true, ..bak_plan() }).expect("rehearsed");

    assert_eq!(machine.keys, before);
    assert!(machine.saved.is_empty());
    assert_eq!(machine.audit.len(), 1);
    assert_eq!(machine.audit[0].0, "RepairDryRun");
}

#[test]
fn a_success_that_cannot_be_audited_is_taken_back_whole() {
    let mut machine = Machine::new(&["S-1-5-21-1001", "S-1-5-21-1001.bak"]);
    let before = machine.keys.clone();
    machine.refused_audits.insert("RepairSuccess");

    assert!(matches!(machine.repair(&bak_plan()), Err(RepairError::AuditError(_))));

    assert_eq!(machine.keys, before);
    assert!(machine.audit.iter().any(|entry| entry.0 == "RepairRollbackSummary"
        && entry.1 == AuditStatus::RolledBack
        && entry.2 == "Rollback completed for 2 snapshot(s)"));
}

#[test]
fn a_rename_that_fails_restores_every_snapshot() {
    let mut machine = Machine::new(&["S-1-5-21-1001.bak"]);
    let before = machine.keys.clone();
    machine.refused_renames = 1;

    let result = machine.repair(&bak_plan());

    assert!(matches!(result, Err(RepairError::RegistryError(RegistryError::Win32Error(5)))));
    assert_eq!(machine.keys, before);
    assert_eq!(machine.audit.last().expect("audited").1, AuditStatus::RolledBack);
}

#[test]
fn restorations_that_fail_are_told_with_the_cause() {
    let mut machine = Machine::new(&["S-1-5-21-1001.bak"]);
    machine.refused_renames = 1;
    machine.refused_restores = true;

    match machine.repair(&bak_plan()) {
        Err(RepairError::TransactionFailed { reason, .. }) => {
            assert!(reason.starts_with(
                "original error: Registry operation failed: Registry operation failed with Win32 error code: 5; rollback error: "
            ), "{reason}");
            assert!(reason.contains("snapshot SHA-256 no longer matches"), "{reason}");
        },
        other => panic!("unexpected {other:?}"),
    }
}

#[test]
fn plans_are_checked_against_the_registry() {
    let machine = Machine::new(&["S-1-5-21-1001.bak"]);
    let plan = bak_plan();
    assert!(validate_plan(&plan, false, machine.observe(&plan)).is_ok());
    assert!(matches!(
        validate_plan(&plan, true, machine.observe(&plan)),
        Err(RepairError::SessionActive)
    ));
    let wrong = RepairPlan { canonical_sid: "S-1-5-21-x".to_string(), ..plan.clone() };
    assert!(matches!(
        validate_plan(&wrong, false, machine.observe(&wrong)),
        Err(RepairError::InvalidSid(_))
    ));
    let elsewhere = RepairPlan { profile_path: r"C:\Users\Other".to_string(), ..plan.clone() };
    assert!(validate_plan(&elsewhere, false, machine.observe(&elsewhere)).is_err());
    let absent = Machine::new(&[]);
    assert!(matches!(
        validate_plan(&plan, false, absent.observe(&plan)),
        Err(RepairError::MissingRegistryKey(_))
    ));
    assert_eq!(required_snapshots(&plan, false).len(), 1);
    assert_eq!(required_snapshots(&plan, true).len(), 2);
    assert_eq!(normalize_profile_path(r"C:\Users\Test\"), r"c:\users\test");
}

#[test]
fn a_repair_that_does_not_show_is_refused() {
    let plan = bak_plan();
    let shown = |state: u32, bak: bool| VerifyObservation {
        canonical_exists: Ok(true),
        bak_exists: Ok(bak),
        image_path: Ok(r"C:\Users\Test".to_string()),
        state: Ok(state),
        ref_count: Ok(0),
    };
    assert!(verify(&plan, shown(0, false)).is_ok());
    assert!(matches!(
        verify(&plan, shown(4, false)),
        Err(RepairError::TransactionFailed { reason, .. }) if reason == "State=4, RefCount=0"
    ));
    assert!(verify(&plan, shown(0, true)).is_err());
}

#[test]
fn inspections_tell_a_missing_hive_from_a_failed_one() {
    let process = LockingProcessInfo {
        process_id: 4242,
        app_name: "Editor.exe".to_string(),
        service_short_name: String::new(),
        app_type: 0,
        restartable: true,
    };
    assert_eq!(inspect("n", Ok(false), Err(RestartManagerError::Win32Error(5))), Ok(Vec::new()));
    assert_eq!(inspect("n", Ok(true), Ok(vec![process])), Ok(vec![blocker()]));
    assert_eq!(
        inspect("n", Ok(true), Err(RestartManagerError::Win32Error(5))),
        Err("Restart Manager failed with error code: 5".to_string())
    );
    assert_eq!(
        inspect("n", Err("denied".to_string()), Ok(Vec::new())),
        Err("failed to determine whether 'n' exists: denied".to_string())
    );
    let error = RepairError::ManualCloseRequired { blockers: vec![blocker()] };
    assert_eq!(
        error.message(),
        "Close the locking applications manually, save their work, and scan again: [ManualCloseBlocker { application: \"Editor.exe\", process_id: 4242 }]"
    );
}

// ---------------------------------------------------------------------------
// Snapshots and their restoration
// ---------------------------------------------------------------------------

const HIVE: FileIdentity = FileIdentity { volume_serial: 7, file_index: 0x1_0000_0002 };

fn metadata(name: &str, bytes: &[u8]) -> SnapshotMetadata {
    SnapshotMetadata {
        id: "inventory-test".to_string(),
        timestamp: NOW,
        sid: "S-1-5-21-test".to_string(),
        profile_path: r"C:\Users\Test".to_string(),
        registry_key_path: r"HKLM\SOFTWARE\WinProfile\Test".to_string(),
        snapshot_file_name: name.to_string(),
        sha256: sha256_hex(bytes),
        file_volume_serial: HIVE.volume_serial,
        file_index: HIVE.file_index,
        reason: "inventory verification".to_string(),
        protected_artifact: false,
    }
}

fn artifact() -> Option<ArtifactObservation> {
    Some(ArtifactObservation {
        captured: HIVE,
        current: Ok(HIVE),
        content: Ok(b"protected hive bytes".to_vec()),
    })
}

#[test]
fn digest_mismatch_refuses_before_restore_api() {
    let mut metadata = metadata("snapshot.hiv", b"protected hive bytes");
    metadata.sha256 = "00".repeat(32);
    let result =
        restore_registry_snapshot(&metadata, r"HKLM\SOFTWARE\WinProfile\Test", artifact());
    assert!(matches!(result, Err(RollbackError::DigestMismatch)));
}

#[test]
fn identity_mismatch_refuses_before_restore_api() {
    let mut metadata = metadata("snapshot.hiv", b"protected hive bytes");
    metadata.file_index ^= 1;
    let result =
        restore_registry_snapshot(&metadata, r"HKLM\SOFTWARE\WinProfile\Test", artifact());
    assert!(matches!(result, Err(RollbackError::IdentityMismatch)));
}

#[test]
fn restore_operation_and_privilege_restore_errors_are_both_visible() {
    let result = finish_privileged_restore(
        Err(RollbackError::RegistryError(5)),
        Err(SecurityError::Win32Error(1300)),
    );

    assert!(matches!(
        result,
        Err(RollbackError::OperationAndPrivilegeRestoreFailed {
            operation_error,
            restore_error,
        }) if operation_error.contains('5') && restore_error.contains("1300")
    ));
}

#[test]
fn only_the_meant_and_held_snapshot_is_restored() {
    let metadata = metadata("snapshot.hiv", b"protected hive bytes");
    assert!(
        restore_registry_snapshot(&metadata, r"hklm\software\winprofile\test", artifact()).is_ok()
    );
    assert!(matches!(
        restore_registry_snapshot(&metadata, r"HKLM\SOFTWARE\Other", artifact()),
        Err(RollbackError::TargetMismatch { .. })
    ));
    assert!(matches!(
        restore_registry_snapshot(&metadata, r"HKLM\SOFTWARE\WinProfile\Test", None),
        Err(RollbackError::ArtifactUnavailable)
    ));
    assert_eq!(
        split_restore_target(r"HKLM\SOFTWARE\A\B").expect("target"),
        (r"SOFTWARE\A".to_string(), "B".to_string())
    );
    assert!(matches!(
        split_restore_target(r"HKLM\SOFTWARE"),
        Err(RollbackError::BaseRegError(RegistryError::InvalidPath))
    ));
    assert!(split_restore_target(r"HKCU\A\B").is_err());
}

fn item(name: &str, metadata: SnapshotMetadata, bytes: &[u8]) -> InventoryItem {
    InventoryItem {
        name: Some(name.to_string()),
        metadata: Ok(metadata),
        hive: HiveObservation { identity: Ok(HIVE), content: Ok(bytes.to_vec()) },
    }
}

#[test]
fn snapshot_inventory_revalidates_associated_hive_identity_and_digest() {
    let listed = SnapshotEngine::list_snapshots(Ok(vec![item(
        "valid.hiv.json",
        metadata("valid.hiv", b"hive"),
        b"hive",
    )]))
    .expect("verified inventory");

    assert_eq!(listed.len(), 1);
    assert_eq!(listed[0].snapshot_file_name, "valid.hiv");
}

#[test]
fn snapshot_inventory_fails_closed_on_identity_mismatch() {
    let mut metadata = metadata("identity.hiv", b"hive");
    metadata.file_index ^= 1;

    assert!(matches!(
        SnapshotEngine::list_snapshots(Ok(vec![item("identity.hiv.json", metadata, b"hive")])),
        Err(SnapshotError::InvalidInventory { reason, .. })
            if reason.contains("identity")
    ));
}

#[test]
fn snapshot_inventory_fails_closed_on_digest_mismatch() {
    let mut metadata = metadata("digest.hiv", b"hive");
    metadata.sha256 = "00".repeat(32);

    assert!(matches!(
        SnapshotEngine::list_snapshots(Ok(vec![item("digest.hiv.json", metadata, b"hive")])),
        Err(SnapshotError::InvalidInventory { reason, .. })
            if reason.contains("SHA-256")
    ));
}

#[test]
fn snapshot_inventory_rejects_non_component_hive_name() {
    let mut metadata = metadata("safe.hiv", b"hive");
    metadata.snapshot_file_name = r"..\outside.hiv".to_string();

    assert!(matches!(
        SnapshotEngine::list_snapshots(Ok(vec![item("safe.hiv.json", metadata, b"hive")])),
        Err(SnapshotError::InvalidInventory { .. })
    ));
    let mut outside = self::metadata("safe.hiv", b"hive");
    outside.snapshot_file_name = r"..\outside.hiv".to_string();
    assert!(matches!(
        SnapshotEngine::list_snapshots(Ok(vec![item(r"..\outside.hiv.json", outside, b"hive")])),
        Err(SnapshotError::InvalidInventory { reason, .. })
            if reason == r"invalid storage component: ..\outside.hiv"
    ));
}

#[test]
fn the_inventory_stands_latest_first_and_other_files_are_passed_over() {
    let mut early = metadata("early.hiv", b"hive");
    early.timestamp = UtcTime { seconds: 10, nanos: 0 };
    let mut twin = metadata("twin.hiv", b"hive");
    twin.timestamp = UtcTime { seconds: 10, nanos: 0 };
    let late = metadata("late.hiv", b"hive");
    let mut stray = item("notes.txt", metadata("x", b""), b"");
    stray.metadata = Err(SnapshotError::IoError("never read".to_string()));
    let mut nameless = item("", metadata("x", b""), b"");
    nameless.name = None;
    let listed = SnapshotEngine::list_snapshots(Ok(vec![
        item("early.hiv.json", early, b"hive"),
        stray,
        item("late.hiv.json", late, b"hive"),
        nameless,
        item("twin.hiv.json", twin, b"hive"),
    ]))
    .expect("inventory");
    let names: Vec<&str> = listed.iter().map(|m| m.snapshot_file_name.as_str()).collect();
    assert_eq!(names, ["late.hiv", "early.hiv", "twin.hiv"]);
    let mut unread = item("bad.hiv.json", metadata("bad.hiv", b""), b"");
    unread.metadata = Err(SnapshotError::IoError("no json".to_string()));
    assert!(matches!(
        SnapshotEngine::list_snapshots(Ok(vec![unread])),
        Err(SnapshotError::IoError(_))
    ));
}

/// How the taking of a snapshot goes, and what is left on disk.
#[derive(Default)]
struct Taking {
    files: BTreeSet<String>,
    collision: bool,
    save_fails: bool,
    hash_fails: bool,
    metadata_fails: bool,
    removal_fails: bool,
    restore_fails: bool,
    restored: bool,
}

impl Taking {
    fn removal(&mut self, name: &str) -> Result<(), StorageError> {
        if self.removal_fails {
            return Err(StorageError::InvalidComponent("held".to_string()));
        }
        self.files.remove(name);
        Ok(())
    }

    fn run(&mut self) -> Result<SnapshotMetadata, SnapshotError> {
        let mut run = SnapshotEngine::create_registry_snapshot(SnapshotRequest {
            subkey: r"SOFTWARE\Test".to_string(),
            sid: r"S-1-5:21\7".to_string(),
            profile_path: r"C:\Users\Test".to_string(),
            reason: "test".to_string(),
            directory: r"C:\Snapshots".to_string(),
        });
        let name = "snap_20260820T171819.123456Z_77_3_S-1-5_21_7.hiv".to_string();
        let json = format!("{name}.json");
        let mut left = vec![b"hi".to_vec(), b"ve".to_vec()];
        let mut event = SnapshotEvent::Storage(Ok(()));
        loop {
            event = match run.step(event) {
                SnapshotAction::Finish(result) => return result,
                SnapshotAction::AcquirePrivileges { privileges } => {
                    assert_eq!(privileges, ("SeBackupPrivilege", "SeRestorePrivilege"));
                    SnapshotEvent::Privileged(Ok(SnapshotSeed {
                        stamp: Stamp::of(NOW).expect("stamp"),
                        process_id: 77,
                        sequence: 3,
                    }))
                },
                SnapshotAction::Probe { name: probed } => {
                    assert_eq!(probed, name);
                    SnapshotEvent::Storage(if self.collision {
                        Ok(())
                    } else {
                        Err(StorageError::Native {
                            operation: "open",
                            path: probed,
                            status: -1073741772,
                        })
                    })
                },
                SnapshotAction::OpenKey { subkey: opened } => {
                    assert_eq!(opened, r"SOFTWARE\Test");
                    SnapshotEvent::Registry(Ok(()))
                },
                SnapshotAction::Save { path } => {
                    assert_eq!(path, format!(r"C:\Snapshots\{name}"));
                    self.files.insert(name.clone());
                    SnapshotEvent::Registry(if self.save_fails {
                        Err(RegistryError::Win32Error(5))
                    } else {
                        Ok(())
                    })
                },
                SnapshotAction::Remove { name } => {
                    SnapshotEvent::Storage(self.removal(&name))
                },
                SnapshotAction::OpenArtifact { .. } => SnapshotEvent::Artifact(Ok(HIVE)),
                SnapshotAction::ReadArtifact { .. } => SnapshotEvent::Chunk(if self.hash_fails {
                    Err(SnapshotError::HashError { operation: "test", status: -1 })
                } else if left.is_empty() {
                    Ok(Vec::new())
                } else {
                    Ok(left.remove(0))
                }),
                SnapshotAction::CreateMetadata { name } => {
                    assert_eq!(name, json);
                    self.files.insert(name);
                    SnapshotEvent::Storage(Ok(()))
                },
                SnapshotAction::WriteMetadata { metadata } => {
                    assert_eq!(metadata.snapshot_file_name, name);
                    assert_eq!(metadata.registry_key_path, r"HKLM\SOFTWARE\Test");
                    assert_eq!(metadata.sha256, sha256_hex(b"hive"));
                    SnapshotEvent::Written(if self.metadata_fails {
                        Err("disk full".to_string())
                    } else {
                        Ok(())
                    })
                },
                SnapshotAction::RollBackMetadata => {
                    SnapshotEvent::Storage(self.removal(&json))
                },
                SnapshotAction::DeleteHive => SnapshotEvent::Storage(self.removal(&name)),
                SnapshotAction::RestorePrivileges => {
                    self.restored = true;
                    SnapshotEvent::Restored(if self.restore_fails {
                        Err(SecurityError::Win32Error(5))
                    } else {
                        Ok(())
                    })
                },
            };
        }
    }
}

#[test]
fn a_snapshot_is_named_hashed_and_described() {
    let mut taking = Taking::default();
    let metadata = taking.run().expect("snapshot");
    assert_eq!(metadata.snapshot_file_name, "snap_20260820T171819.123456Z_77_3_S-1-5_21_7.hiv");
    assert_eq!(metadata.id, "1787246299123456_77_3");
    assert_eq!(timestamp_micros(metadata.timestamp), 1_787_246_299_123_456);
    assert_eq!(metadata.sha256, sha256_hex(b"hive"));
    assert_eq!(metadata.registry_key_path, r"HKLM\SOFTWARE\Test");
    assert_eq!(metadata.file_index, HIVE.file_index);
    assert!(metadata.protected_artifact);
    assert!(taking.restored);
    assert_eq!(taking.files.len(), 2);
}

#[test]
fn failed_save_removes_partial_file_by_handle() {
    let mut taking = Taking { save_fails: true, ..Taking::default() };

    let error = taking.run();

    assert!(matches!(error, Err(SnapshotError::RegistryError(_))));
    assert!(taking.files.is_empty(), "partial hive must be removed");
}

#[test]
fn post_save_validation_error_cleans_hive_or_reports_double_error() {
    let mut taking = Taking { hash_fails: true, ..Taking::default() };
    assert!(matches!(taking.run(), Err(SnapshotError::HashError { .. })));
    assert!(taking.files.is_empty());

    let mut held = Taking { hash_fails: true, removal_fails: true, ..Taking::default() };
    assert!(matches!(held.run(), Err(SnapshotError::PostSaveCleanupFailed { .. })));
    assert_eq!(held.files.len(), 1);
}

#[test]
fn privilege_restore_failure_removes_persisted_metadata_and_hive() {
    let mut taking = Taking { restore_fails: true, ..Taking::default() };

    let result = taking.run();

    assert!(matches!(result, Err(SnapshotError::SecurityError(_))));
    assert!(taking.files.is_empty());
}

#[test]
fn snapshot_operation_and_privilege_restore_errors_are_both_visible() {
    let mut taking = Taking { hash_fails: true, restore_fails: true, ..Taking::default() };

    assert!(matches!(
        taking.run(),
        Err(SnapshotError::OperationAndPrivilegeRestoreFailed {
            operation_error,
            restore_error,
        }) if operation_error.contains("test") && restore_error.contains('5')
    ));
}

#[test]
fn every_failure_of_a_snapshot_has_its_error() {
    let mut collision = Taking { collision: true, ..Taking::default() };
    assert!(matches!(collision.run(), Err(SnapshotError::Collision(_))));
    assert!(collision.restored);
    let mut written = Taking { metadata_fails: true, ..Taking::default() };
    assert!(matches!(written.run(), Err(SnapshotError::IoError(_))));
    assert!(written.files.is_empty());
    let mut stuck = Taking { metadata_fails: true, removal_fails: true, ..Taking::default() };
    assert!(matches!(
        stuck.run(),
        Err(SnapshotError::CleanupFailed { cleanup_error, .. })
            if cleanup_error
                == "metadata: invalid storage component: held; hive: invalid storage component: held"
    ));
    let mut unsaved = Taking { save_fails: true, removal_fails: true, ..Taking::default() };
    assert!(matches!(unsaved.run(), Err(SnapshotError::SaveCleanupFailed { .. })));
    let mut kept = Taking { restore_fails: true, removal_fails: true, ..Taking::default() };
    assert!(matches!(kept.run(), Err(SnapshotError::PrivilegeRestoreCleanupFailed { .. })));
    assert_eq!(
        SnapshotError::HashError { operation: "BCryptHashData", status: -1073741823 }.message(),
        "Windows CNG operation BCryptHashData failed with NTSTATUS 0xc0000001"
    );
}

#[test]
fn every_operation_audits_under_its_own_actor_and_target() {
    let told = |entry: AuditEntry| {
        assert_eq!(entry.timestamp, NOW);
        assert_eq!(entry.status, AuditStatus::Warning);
        assert_eq!(entry.details, "why");
        (entry.operation, entry.actor, entry.target)
    };
    let words = |operation: &str, actor: &str, target: &str| {
        (operation.to_string(), actor.to_string(), target.to_string())
    };
    let why = || "why".to_string();
    let mut plan = test_plan(false);
    plan.sid = "S-1-5-21-1001.bak".to_string();
    let (repair, _) = ProfileRepairEngine::execute_plan(plan, false);
    assert_eq!(
        told(repair.audit_entry("RepairStarted", AuditStatus::Warning, why(), NOW)),
        words("RepairStarted", "WinProfile-Admin", "S-1-5-21-1001"),
    );
    let migration = ProfileMigrationEngine::execute_migration(MigrationPlan {
        source_sid: "S-1-5-21-7".to_string(),
        source_path: r"C:\Users\A".to_string(),
        target_path: r"D:\A".to_string(),
        include_roaming_appdata: true,
        include_personal_folders: false,
    });
    assert_eq!(
        told(migration.audit_entry("MigrationStarted", AuditStatus::Warning, why(), NOW)),
        words("MigrationStarted", "WinProfile-Admin", "S-1-5-21-7"),
    );
    assert_eq!(
        told(scan_entry(AuditStatus::Warning, why(), NOW)),
        words("ProfileScan", "WinProfile-Admin", "System"),
    );
    assert_eq!(
        told(launch_entry("Launch", AuditStatus::Warning, why(), NOW)),
        words("Launch", "WinProfile-Admin", "Windows system command interpreter"),
    );
    assert_eq!(
        told(service_entry("ResetAcl", r"C:\Data", AuditStatus::Warning, why(), NOW)),
        words("ResetAcl", "WinProfile-Broker", r"C:\Data"),
    );
}

#[test]
fn a_repair_asks_for_a_snapshot_of_the_key_it_changes() {
    let request = snapshot_request(&test_plan(false), r"SOFTWARE\Key", r"C:\Snapshots");
    assert_eq!(request.subkey, r"SOFTWARE\Key");
    assert_eq!(request.sid, "S-1-5-21-1001");
    assert_eq!(request.profile_path, r"C:\Users\Test");
    assert_eq!(request.reason, "Mandatory pre-repair snapshot");
    assert_eq!(request.directory, r"C:\Snapshots");
}

#[test]
fn a_rehearsal_is_refused_where_the_repair_is_refused() {
    for blocked in [true, false] {
        let mut verdicts = Vec::new();
        for dry_run in [true, false] {
            let mut machine = Machine::new(&["S-1-5-21-1001", "S-1-5-21-1001.bak"]);
            if blocked {
                machine.inspections.push(Ok(Vec::new()));
                machine.inspections.push(Ok(vec![blocker()]));
            }
            let mut plan = test_plan(false);
            plan.dry_run = dry_run;
            let before = machine.keys.clone();
            verdicts.push(machine.repair(&plan).is_ok());
            assert_eq!(machine.keys == before, dry_run || blocked);
        }
        assert_eq!(verdicts, vec![!blocked, !blocked]);
    }
}

#[test]
fn an_untouched_snapshot_is_listed_and_restores_its_own_key_only() {
    let metadata = Taking::default().run().expect("snapshot");
    let artifact = || {
        Some(ArtifactObservation {
            captured: HIVE,
            current: Ok(HIVE),
            content: Ok(b"hive".to_vec()),
        })
    };
    assert!(restore_registry_snapshot(&metadata, r"HKLM\SOFTWARE\Test", artifact()).is_ok());
    assert!(restore_registry_snapshot(&metadata, r"hklm\software\test", artifact()).is_ok());
    assert!(matches!(
        restore_registry_snapshot(&metadata, r"HKLM\SOFTWARE\Other", artifact()),
        Err(RollbackError::TargetMismatch { .. })
    ));
    let name = format!("{}.json", metadata.snapshot_file_name);
    let listed = SnapshotEngine::list_snapshots(Ok(vec![InventoryItem {
        name: Some(name),
        metadata: Ok(metadata),
        hive: HiveObservation { identity: Ok(HIVE), content: Ok(b"hive".to_vec()) },
    }]))
    .expect("inventory");
    assert_eq!(listed.len(), 1);
}

/// A restoration behind its start.
fn restoration() -> RestoreRun {
    let (run, first) = RestoreRun::restore_registry_file(r"HKLM\SOFTWARE\A\B", r"C:\s.hiv").expect("target");
    assert!(matches!(
        first,
        RestoreAction::RaisePrivileges { privileges: ("SeRestorePrivilege", "SeBackupPrivilege") }
    ));
    run
}

#[test]
fn a_key_is_restored_below_its_parent_and_the_privileges_are_given_back() {
    let mut run = restoration();
    assert!(matches!(
        run.step(RestoreEvent::Privileged(Ok(()))),
        RestoreAction::OpenParent { path } if path == r"SOFTWARE\A"
    ));
    assert!(matches!(
        run.step(RestoreEvent::Registry(Ok(()))),
        RestoreAction::CreateKey { name } if name == "B"
    ));
    assert!(matches!(run.step(RestoreEvent::Registry(Ok(()))), RestoreAction::RestoreFile { path } if path == r"C:\s.hiv"));
    assert!(matches!(run.step(RestoreEvent::Restored(0)), RestoreAction::RestorePrivileges));
    assert!(matches!(run.step(RestoreEvent::Privileged(Ok(()))), RestoreAction::Finish(Ok(()))));

    assert!(matches!(
        RestoreRun::restore_registry_file(r"HKLM\SOFTWARE", r"C:\s.hiv"),
        Err(RollbackError::BaseRegError(RegistryError::InvalidPath))
    ));
}

#[test]
fn a_restoration_that_fails_gives_the_privileges_back_first() {
    let mut run = restoration();
    assert!(matches!(
        run.step(RestoreEvent::Privileged(Err(SecurityError::Win32Error(5)))),
        RestoreAction::Finish(Err(RollbackError::SecurityError(SecurityError::Win32Error(5))))
    ));

    for failed_at in 0..3 {
        for given_back in [true, false] {
            let mut run = restoration();
            run.step(RestoreEvent::Privileged(Ok(())));
            let mut failed = 0;
            let action = loop {
                let event = match (failed == failed_at, failed) {
                    (true, 2) => RestoreEvent::Restored(87),
                    (true, _) => RestoreEvent::Registry(Err(RegistryError::Win32Error(5))),
                    (false, _) => RestoreEvent::Registry(Ok(())),
                };
                let action = run.step(event);
                if failed == failed_at {
                    break action;
                }
                failed += 1;
            };
            assert!(matches!(action, RestoreAction::RestorePrivileges));
            let restored = if given_back { Ok(()) } else { Err(SecurityError::Win32Error(6)) };
            let RestoreAction::Finish(Err(error)) = run.step(RestoreEvent::Privileged(restored))
            else {
                panic!("the restoration ends");
            };
            match (given_back, failed_at) {
                (false, _) => assert!(matches!(
                    error,
                    RollbackError::OperationAndPrivilegeRestoreFailed { .. }
                )),
                (true, 2) => assert!(matches!(error, RollbackError::RegistryError(87))),
                (true, _) => assert!(matches!(
                    error,
                    RollbackError::BaseRegError(RegistryError::Win32Error(5))
                )),
            }
        }
    }
}
