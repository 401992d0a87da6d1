//! Storage, its recovery and the journal.
use std::collections::BTreeMap;
use winprofile::clock::UtcTime;
use winprofile::journal::{AuditEntry, AuditError, AuditLogger, AuditStatus, RotationStep};
use winprofile::legacy::{
    load_pending_from_bootstrap, recovery_plan, state_file_name, LegacyStorageError,
    MigrationPhase, MigrationStateRecord, RecoveryPlan, StateEntry, StateFailure, BOOTSTRAP_LOCK,
    BOOTSTRAP_LOCK_TIMEOUT_MS,
};
use winprofile::legacy_run::{
    finish_privileged_namespace, inspect_production_storage, persist_prepared_state, InspectAction,
    InspectEvent, LegacyStorageRecovery, PendingProductionStorage, PreparedStep,
    ProductionStorageState, RecoveryAction, RecoveryEvent, StateWrite, StateWriteAction,
    StateWriteEvent,
};
use winprofile::secure_dir::{
    native_name_length, nt_open_relative, reject_reparse_handle, AbsoluteAction, AbsoluteEvent,
    AbsoluteOpen, ListingAction, QueryFailure, SecureDirectory,
};
use winprofile::secure_fs::{
    child_display_path, child_kind, create_file, file_identity, open_or_create_directory, overlaps,
    parse_directory_buffer, split_absolute, DirectoryStage, DirectoryStep, FileIdentity, FileStage,
    FileStep, SecureEntryKind, SecureFsError,
};
use winprofile::security::SecurityError;
use winprofile::storage::{
    self, acquire_named_lock, after_cleanup, child_path, durable_rename, open_or_create_child,
    remove_file_if_exists, resolve_known_folder_program_data, revalidate, root_creation_outcome,
    validate_descriptor, validate_kind, validate_production_root, AceRecord, DescriptorObservation,
    LockStep, OpenDecision, StorageError, StorageTrust, Trustee,
};

// ---------------------------------------------------------------------------
// Protected storage
// ---------------------------------------------------------------------------

fn native(status: i32) -> StorageError {
    StorageError::Native { operation: "open", path: "x".to_string(), status }
}

const NOT_FOUND: i32 = -1073741772;
const COLLISION: i32 = -1073741771;
const SHARING_VIOLATION: i32 = -1073741757;

#[test]
fn exclusive_lock_is_process_wide_and_released_on_drop() {
    let mut elapsed = 0;
    let mut waits = Vec::new();
    let refused = loop {
        match acquire_named_lock(Err(native(SHARING_VIOLATION)), elapsed, 30) {
            LockStep::Wait(millis) => {
                waits.push(millis);
                elapsed += millis;
            },
            LockStep::Fail(error) => break error,
            LockStep::Acquired => panic!("the lock is held"),
        }
    };
    assert!(matches!(refused, StorageError::LockTimeout(30)));
    assert_eq!(waits, [10, 10, 10]);
    assert_eq!(refused.message(), "storage lock timed out after 30ms");
    assert!(matches!(acquire_named_lock(Ok(()), elapsed, 30), LockStep::Acquired));
    assert!(matches!(
        acquire_named_lock(Err(native(SHARING_VIOLATION)), 25, 30),
        LockStep::Wait(5)
    ));
    assert!(matches!(
        acquire_named_lock(Err(native(NOT_FOUND)), 0, 30),
        LockStep::Fail(StorageError::Native { .. })
    ));
}

fn ace(flags: u8, trustee: Trustee) -> Result<AceRecord, String> {
    Ok(AceRecord { ace_type: 0, mask: 0x1f_01ff, flags, trustee })
}

fn descriptor(first: Result<AceRecord, String>, second: Result<AceRecord, String>) -> DescriptorObservation {
    DescriptorObservation {
        complete: true,
        control: Ok(0x9004),
        expected_sids: Ok(()),
        owner: Trustee::Administrators,
        ace_count: Ok(2),
        aces: vec![first, second],
    }
}

#[test]
fn canonical_sddl_passes_exact_parser() {
    assert_eq!(storage::ROOT_SDDL, "O:BAG:BAD:P(A;OICI;FA;;;SY)(A;OICI;FA;;;BA)");
    validate_descriptor(
        &descriptor(ace(3, Trustee::System), ace(3, Trustee::Administrators)),
        "test",
    )
    .expect("exact DACL");
}

#[test]
fn canonical_parser_rejects_inherit_only_and_no_propagate_flags() {
    for flags in [3 | 8, 3 | 4] {
        assert!(matches!(
            validate_descriptor(
                &descriptor(ace(flags, Trustee::System), ace(3, Trustee::Administrators)),
                "test",
            ),
            Err(StorageError::LegacyStorageInsecure(_))
        ));
    }
}

#[test]
fn permissive_precreated_production_root_is_rejected_without_mutation() {
    let mut inherited = descriptor(ace(3, Trustee::System), ace(3, Trustee::Administrators));
    inherited.control = Ok(0x8004);
    assert!(matches!(
        validate_production_root(Ok(inherited), r"C:\ProgramData\WinProfile"),
        Err(StorageError::LegacyStorageInsecure(reason))
            if reason == r"C:\ProgramData\WinProfile: DACL inheritance is not protected"
    ));
}

#[test]
fn each_departure_from_the_canonical_rights_is_told() {
    let reason = |d: DescriptorObservation| match validate_descriptor(&d, "p") {
        Err(error) => error.message(),
        Ok(()) => panic!("accepted"),
    };
    let good = || descriptor(ace(3, Trustee::System), ace(3, Trustee::Administrators));
    assert!(reason(DescriptorObservation { complete: false, ..good() }).ends_with("owner or DACL is missing"));
    assert!(reason(DescriptorObservation { owner: Trustee::Other, ..good() })
        .ends_with("owner is neither SYSTEM nor Administrators"));
    assert!(reason(DescriptorObservation { ace_count: Ok(1), aces: vec![ace(3, Trustee::System)], ..good() })
        .ends_with("DACL must contain exactly SYSTEM and Administrators ACEs"));
    assert!(reason(descriptor(ace(3, Trustee::Other), ace(3, Trustee::System)))
        .ends_with("DACL grants access to a third-party SID"));
    assert!(reason(descriptor(ace(3, Trustee::System), ace(3, Trustee::System)))
        .ends_with("SYSTEM or Administrators ACE is missing"));
    assert_eq!(
        reason(DescriptorObservation { control: Err("denied".to_string()), ..good() }),
        "storage IO error during inspect storage DACL control for p: denied"
    );
    assert_eq!(
        reason(DescriptorObservation { expected_sids: Err("no".to_string()), ..good() }),
        "storage IO error during parse expected storage SID for p: no"
    );
    assert_eq!(
        reason(DescriptorObservation { ace_count: Err("no".to_string()), aces: Vec::new(), ..good() }),
        "storage IO error during inspect storage DACL for p: no"
    );
    assert_eq!(
        reason(descriptor(Err("gone".to_string()), ace(3, Trustee::System))),
        "storage IO error during read storage DACL ACE for p: gone"
    );
    assert_eq!(
        validate_production_root(Err("denied".to_string()), "p").expect_err("unread").message(),
        "storage IO error during read storage root security descriptor for p: denied"
    );
}

#[test]
fn root_and_child_junctions_are_refused_without_touching_target() {
    assert!(matches!(
        validate_kind(Ok(0x410), "root-junction", true),
        Err(StorageError::LegacyStorageInsecure(reason))
            if reason == "root-junction: reparse points are forbidden"
    ));
    assert!(matches!(
        validate_kind(Ok(0x20), "Snapshots", true),
        Err(StorageError::LegacyStorageInsecure(reason))
            if reason == "Snapshots: storage object has the wrong type"
    ));
    assert!(validate_kind(Ok(0x10), "Snapshots", true).is_ok());
    assert!(validate_kind(Ok(0x20), "file", false).is_ok());
    assert!(matches!(
        validate_kind(Err("denied".to_string()), "file", false),
        Err(StorageError::Io { .. })
    ));
}

#[test]
fn resolver_seam_ignores_hostile_program_data_environment() {
    let units: Vec<u16> = "C:\\known-folder-result\0rest".encode_utf16().collect();
    assert_eq!(
        resolve_known_folder_program_data(0, Some(units)).expect("resolver result"),
        r"C:\known-folder-result"
    );
    assert!(matches!(
        resolve_known_folder_program_data(0, None),
        Err(StorageError::KnownFolder(code)) if code == 0x8000_4005_u32 as i32
    ));
    assert_eq!(
        resolve_known_folder_program_data(-2147024891, None).expect_err("failed").message(),
        "Known Folder ProgramData resolution failed with HRESULT 0x80070005"
    );
}

#[test]
fn storage_decisions_follow_the_native_status() {
    assert!(matches!(open_or_create_child(Ok(())), OpenDecision::Use));
    assert!(matches!(open_or_create_child(Err(native(NOT_FOUND))), OpenDecision::Create));
    assert!(matches!(open_or_create_child(Err(native(COLLISION))), OpenDecision::Fail(_)));
    assert!(matches!(remove_file_if_exists(Ok(())), Ok(true)));
    assert!(matches!(remove_file_if_exists(Err(native(NOT_FOUND))), Ok(false)));
    assert!(remove_file_if_exists(Err(native(COLLISION))).is_err());
    assert!(durable_rename(Ok(()), Err(native(NOT_FOUND)), "b").is_ok());
    assert!(durable_rename(Ok(()), Ok(()), "b").expect_err("taken").is_collision());
    assert!(durable_rename(Err(native(NOT_FOUND)), Ok(()), "b").expect_err("gone").is_not_found());
    assert!(root_creation_outcome(true, 0, "", "p").is_ok());
    assert!(root_creation_outcome(false, 183, "there", "p").is_ok());
    assert!(root_creation_outcome(false, 5, "denied", "p").is_err());
    assert!(matches!(
        after_cleanup(native(COLLISION), Err(native(NOT_FOUND))),
        StorageError::CleanupFailed { .. }
    ));
    assert!(revalidate(StorageTrust::TrustedInjection, Ok(()), Err(native(5))).is_ok());
    assert!(revalidate(StorageTrust::Production, Ok(()), Err(native(5))).is_err());
    assert!(revalidate(StorageTrust::TrustedInjection, Err(native(5)), Ok(())).is_err());
    assert_eq!(child_path(r"C:\root", "a.json").expect("child"), r"C:\root\a.json");
    for bad in ["", ".", "..", r"a\b", "a/b", "a:b", "a\0b"] {
        assert!(matches!(child_path("r", bad), Err(StorageError::InvalidComponent(_))), "{bad:?}");
    }
    assert_eq!(storage::native_name_length("a\u{1f600}").expect("length"), 6);
    assert!(storage::native_name_length(&"a".repeat(32768)).is_err());
    assert!(storage::nt_open_relative(0, true, "p", "").is_ok());
    assert!(storage::nt_open_relative(NOT_FOUND, false, "p", "").expect_err("gone").is_not_found());
    assert!(matches!(storage::nt_open_relative(0, false, "p", "null"), Err(StorageError::Io { .. })));
}

// ---------------------------------------------------------------------------
// Recovery of legacy storage
// ---------------------------------------------------------------------------

const SOURCE: FileIdentity = FileIdentity { volume_serial: 1, file_index: 10 };
const NEXT: FileIdentity = FileIdentity { volume_serial: 1, file_index: 20 };

fn state(id: &str, phase: MigrationPhase) -> MigrationStateRecord {
    MigrationStateRecord {
        schema: 1,
        migration_id: id.to_string(),
        phase,
        source_identity: SOURCE,
        next_identity: NEXT,
        legacy_name: format!("WinProfile.Legacy.Untrusted.{id}"),
        next_name: format!("WinProfile.Next.{id}"),
    }
}

fn entry(record: &MigrationStateRecord) -> StateEntry {
    StateEntry { name: Some(state_file_name(record)), content: Ok(record.clone()) }
}

#[test]
fn crash_recovery_plan_covers_every_durable_phase() {
    assert_eq!(recovery_plan(MigrationPhase::Prepared), RecoveryPlan::DetachAndActivate);
    assert_eq!(recovery_plan(MigrationPhase::Detached), RecoveryPlan::Activate);
    assert_eq!(recovery_plan(MigrationPhase::RootReady), RecoveryPlan::MarkAuditPending);
    assert_eq!(recovery_plan(MigrationPhase::AuditPending), RecoveryPlan::RetryTerminalAudit);
    assert_eq!(recovery_plan(MigrationPhase::Done), RecoveryPlan::Complete);
}

#[test]
fn corrupt_bootstrap_marker_fails_closed() {
    let corrupt = StateEntry {
        name: Some("migration-corrupt.json".to_string()),
        content: Err(StateFailure::Malformed("expected value at line 1 column 1".to_string())),
    };
    assert!(matches!(
        load_pending_from_bootstrap(vec![corrupt]),
        Err(LegacyStorageError::InvalidState(_))
    ));
}

/// A bootstrap directory in memory.
#[derive(Default)]
struct Bootstrap {
    files: BTreeMap<String, MigrationStateRecord>,
    sync_fails: bool,
}

impl Bootstrap {
    fn entries(&self) -> Vec<StateEntry> {
        self.files
            .iter()
            .map(|(name, record)| StateEntry { name: Some(name.clone()), content: Ok(record.clone()) })
            .collect()
    }

    fn write(&mut self, state: &MigrationStateRecord) -> Result<(), LegacyStorageError> {
        let (mut write, mut action) = StateWrite::new(state.clone());
        let mut temporary = String::new();
        loop {
            let event = match action {
                StateWriteAction::Finish(result) => return result,
                StateWriteAction::Open { name } => {
                    StateWriteEvent::Opened(match self.files.get(&name) {
                        Some(existing) => Ok(Ok(existing.clone())),
                        None => Err(native(NOT_FOUND)),
                    })
                },
                StateWriteAction::DrawRandom => StateWriteEvent::Drawn(Ok(vec![0xab, 0x01])),
                StateWriteAction::Create { name } => {
                    temporary = name;
                    StateWriteEvent::Created(Ok(()))
                },
                StateWriteAction::Store { state: stored } => {
                    assert_eq!(&stored, state);
                    StateWriteEvent::Stored(Ok(()))
                },
                StateWriteAction::Publish { name } => {
                    assert_eq!(temporary, format!(".{}-ab01.tmp", state.migration_id));
                    self.files.insert(name, state.clone());
                    StateWriteEvent::Published(Ok(()))
                },
                StateWriteAction::Sync => StateWriteEvent::Synced(if self.sync_fails {
                    Err("injected final sync failure".to_string())
                } else {
                    Ok(())
                }),
            };
            action = write.step(event);
        }
    }
}

#[test]
fn every_durable_phase_is_recoverable_and_audit_failure_stays_pending() {
    let mut bootstrap = Bootstrap::default();
    for phase in [
        MigrationPhase::Prepared,
        MigrationPhase::Detached,
        MigrationPhase::RootReady,
        MigrationPhase::AuditPending,
    ] {
        bootstrap.write(&state("phase-test", phase)).expect("durable phase");
        let loaded = load_pending_from_bootstrap(bootstrap.entries())
            .expect("valid state")
            .expect("pending state");
        assert_eq!(loaded.phase, phase);
    }
    assert_eq!(
        load_pending_from_bootstrap(bootstrap.entries())
            .expect("valid pending state")
            .expect("audit remains pending")
            .phase,
        MigrationPhase::AuditPending
    );
    bootstrap.write(&state("phase-test", MigrationPhase::Done)).expect("done state");
    assert!(load_pending_from_bootstrap(bootstrap.entries()).expect("complete state").is_none());
    bootstrap.write(&state("phase-test", MigrationPhase::Done)).expect("the same again");
    let mut other = state("phase-test", MigrationPhase::Done);
    other.next_identity = SOURCE;
    assert!(matches!(bootstrap.write(&other), Err(LegacyStorageError::InvalidState(_))));
}

#[test]
fn post_publish_sync_failure_keeps_prepared_marker_and_replacement_root() {
    let mut bootstrap = Bootstrap { sync_fails: true, ..Bootstrap::default() };
    let prepared = state("sync-failure", MigrationPhase::Prepared);

    let step = persist_prepared_state(bootstrap.write(&prepared));

    assert!(matches!(
        step,
        PreparedStep::Fail(LegacyStorageError::PublishedStateSync { name, .. })
            if name == state_file_name(&prepared)
    ));
    assert_eq!(
        load_pending_from_bootstrap(bootstrap.entries())
            .expect("published marker is valid")
            .expect("published marker stays pending"),
        prepared
    );
}

#[test]
fn proven_prepublication_failure_removes_replacement_and_has_no_marker() {
    let step = persist_prepared_state(Err(LegacyStorageError::Io(
        "injected temporary write failure".to_string(),
    )));
    assert!(matches!(step, PreparedStep::RemoveNext(LegacyStorageError::Io(_))));
}

#[test]
fn operation_and_privilege_restore_errors_remain_visible() {
    let operation = Err(LegacyStorageError::IdentityChanged);
    let result = finish_privileged_namespace(operation, Err(SecurityError::Win32Error(5)));
    assert!(matches!(
        result,
        Err(LegacyStorageError::OperationAndPrivilegeRestore {
            operation_error,
            restore_error,
        }) if operation_error.contains("identity changed") && restore_error.contains('5')
    ));
}

#[test]
fn pending_states_must_be_whole_and_of_one_detachment() {
    let broken = [entry(&state("a", MigrationPhase::Detached))];
    assert!(matches!(
        load_pending_from_bootstrap(broken.into()),
        Err(LegacyStorageError::InvalidState(reason))
            if reason == "migration does not start at prepared"
    ));
    let gap = [
        entry(&state("a", MigrationPhase::RootReady)),
        entry(&state("a", MigrationPhase::Prepared)),
    ];
    assert!(matches!(
        load_pending_from_bootstrap(gap.into()),
        Err(LegacyStorageError::InvalidState(reason))
            if reason == "migration state sequence is inconsistent"
    ));
    let two = [
        entry(&state("a", MigrationPhase::Prepared)),
        entry(&state("b", MigrationPhase::Prepared)),
    ];
    assert!(matches!(
        load_pending_from_bootstrap(two.into()),
        Err(LegacyStorageError::AmbiguousState)
    ));
    let misnamed = StateEntry {
        name: Some("migration-x.json".to_string()),
        content: Ok(state("a", MigrationPhase::Prepared)),
    };
    assert!(matches!(
        load_pending_from_bootstrap(vec![misnamed]),
        Err(LegacyStorageError::InvalidState(reason))
            if reason == "state filename/content mismatch: migration-x.json"
    ));
    let strays = vec![
        StateEntry { name: None, content: Err(StateFailure::Read("never read".to_string())) },
        StateEntry {
            name: Some(".bootstrap.lock".to_string()),
            content: Err(StateFailure::Read("never read".to_string())),
        },
        entry(&state("a", MigrationPhase::Prepared)),
    ];
    assert_eq!(
        load_pending_from_bootstrap(strays).expect("valid").expect("pending").migration_id,
        "a"
    );
    assert!(matches!(
        load_pending_from_bootstrap(vec![StateEntry {
            name: Some("migration-x.json".to_string()),
            content: Err(StateFailure::Read("no".to_string())),
        }]),
        Err(LegacyStorageError::Io(_))
    ));
}

#[test]
fn decline_path_inspection_does_not_mutate_legacy_storage() {
    let (mut run, first) = inspect_production_storage();
    assert!(matches!(first, InspectAction::OpenBootstrap { name: "WinProfile.Bootstrap" }));
    assert!(matches!(
        run.step(InspectEvent::Answered(Err(native(NOT_FOUND)))),
        InspectAction::OpenRoot { name: "WinProfile" }
    ));
    let insecure = StorageError::LegacyStorageInsecure("root: owner".to_string());
    assert!(matches!(
        run.step(InspectEvent::Answered(Err(insecure))),
        InspectAction::CaptureIdentity { name: "WinProfile" }
    ));
    match run.step(InspectEvent::Identified(Ok(SOURCE))) {
        InspectAction::Finish(Ok(ProductionStorageState::NeedsConsent(recovery))) => {
            assert_eq!(
                recovery.reason(),
                "legacy storage is insecure and was left unchanged: root: owner"
            );
            assert!(!recovery.is_resume());
        },
        other => panic!("unexpected {other:?}"),
    }
}

#[test]
fn failed_identity_capture_never_offers_consent_or_mutates_storage() {
    let (mut run, _) = inspect_production_storage();
    run.step(InspectEvent::Answered(Err(native(NOT_FOUND))));
    run.step(InspectEvent::Answered(Err(StorageError::LegacyStorageInsecure(String::new()))));
    let result = run.step(InspectEvent::Identified(Err(StorageError::LegacyStorageInsecure(
        "injected identity access denial".to_string(),
    ))));
    assert!(
        matches!(result, InspectAction::Finish(Err(LegacyStorageError::Storage(_)))),
        "identity capture unexpectedly produced {result:?}"
    );
}

#[test]
fn a_missing_root_is_created_and_an_interrupted_detachment_is_resumed() {
    let (mut run, _) = inspect_production_storage();
    run.step(InspectEvent::Answered(Err(native(NOT_FOUND))));
    assert!(matches!(
        run.step(InspectEvent::Answered(Err(native(NOT_FOUND)))),
        InspectAction::CreateRoot { name: "WinProfile" }
    ));
    assert!(matches!(
        run.step(InspectEvent::Answered(Ok(()))),
        InspectAction::Finish(Ok(ProductionStorageState::Ready))
    ));

    let (mut run, _) = inspect_production_storage();
    assert!(matches!(run.step(InspectEvent::Answered(Ok(()))), InspectAction::ValidateBootstrap));
    assert!(matches!(run.step(InspectEvent::Answered(Ok(()))), InspectAction::ReadStates));
    match run.step(InspectEvent::Loaded(Ok(vec![entry(&state("a", MigrationPhase::Prepared))]))) {
        InspectAction::Finish(Ok(ProductionStorageState::NeedsResume(recovery))) => {
            assert_eq!(recovery.reason(), "interrupted legacy storage migration a at prepared");
            assert!(recovery.is_resume());
        },
        other => panic!("unexpected {other:?}"),
    }
}

/// Where the roots stand, and how a recovery of them goes.
struct Namespace {
    roots: BTreeMap<String, FileIdentity>,
    bootstrap: Bootstrap,
    fail_write_of: Option<MigrationPhase>,
    restore_fails: bool,
    actions: Vec<String>,
}

impl Namespace {
    fn new() -> Namespace {
        Namespace {
            roots: BTreeMap::from([("WinProfile".to_string(), SOURCE)]),
            bootstrap: Bootstrap::default(),
            fail_write_of: None,
            restore_fails: false,
            actions: Vec::new(),
        }
    }

    fn identify(&self, name: &str) -> Result<FileIdentity, StorageError> {
        self.roots.get(name).copied().ok_or(native(NOT_FOUND))
    }

    fn rename(&mut self, identity: FileIdentity, to: &str) -> Result<(), StorageError> {
        if self.roots.contains_key(to) {
            return Err(native(COLLISION));
        }
        let from = self
            .roots
            .iter()
            .find(|(_, held)| **held == identity)
            .map(|(name, _)| name.clone())
            .expect("renamed object");
        self.roots.remove(&from);
        self.roots.insert(to.to_string(), identity);
        Ok(())
    }

    fn recover(&mut self, detected: FileIdentity) -> Result<PendingProductionStorage, LegacyStorageError> {
        let recovery = LegacyStorageRecovery {
            reason: "insecure".to_string(),
            detected_identity: detected,
            resume: false,
        };
        let (mut run, mut action) = recovery.execute();
        let mut raised = false;
        loop {
            self.actions.push(format!("{action:?}").split([' ', '(']).next().expect("name").to_string());
            let event = match action {
                RecoveryAction::Finish(result) => {
                    assert!(!raised, "privileges are given back");
                    return result;
                },
                RecoveryAction::OpenBootstrap { name } | RecoveryAction::CreateBootstrap { name } => {
                    assert_eq!(name, "WinProfile.Bootstrap");
                    RecoveryEvent::Answered(Ok(()))
                },
                RecoveryAction::LockBootstrap { name, millis } => {
                    assert_eq!((name, millis), (BOOTSTRAP_LOCK, BOOTSTRAP_LOCK_TIMEOUT_MS));
                    RecoveryEvent::Answered(Ok(()))
                },
                RecoveryAction::ValidateBootstrap | RecoveryAction::ValidateActive => {
                    RecoveryEvent::Answered(Ok(()))
                },
                RecoveryAction::ReadStates => RecoveryEvent::Loaded(Ok(self.bootstrap.entries())),
                RecoveryAction::RaisePrivileges { privileges } => {
                    assert_eq!(privileges, ("SeBackupPrivilege", "SeRestorePrivilege"));
                    raised = true;
                    RecoveryEvent::Privileged(Ok(()))
                },
                RecoveryAction::RestorePrivileges => {
                    raised = false;
                    RecoveryEvent::Privileged(if self.restore_fails {
                        Err(SecurityError::Win32Error(5))
                    } else {
                        Ok(())
                    })
                },
                RecoveryAction::OpenSource { name } => RecoveryEvent::Identified(self.identify(name)),
                RecoveryAction::DrawRandom => RecoveryEvent::Drawn(Ok(vec![0x0f, 0xa0])),
                RecoveryAction::CreateNext { name } => {
                    self.roots.insert(name, NEXT);
                    RecoveryEvent::Answered(Ok(()))
                },
                RecoveryAction::IdentifyNext => RecoveryEvent::Identified(Ok(NEXT)),
                RecoveryAction::WriteState { record } => {
                    RecoveryEvent::Written(if self.fail_write_of == Some(record.phase) {
                        Err(LegacyStorageError::Io("disk full".to_string()))
                    } else {
                        self.bootstrap.write(&record)
                    })
                },
                RecoveryAction::RemoveNext => {
                    self.roots.retain(|_, identity| *identity != NEXT);
                    RecoveryEvent::Answered(Ok(()))
                },
                RecoveryAction::RenameSource { name } => {
                    RecoveryEvent::Answered(self.rename(SOURCE, &name))
                },
                RecoveryAction::ActivateNext { name } => {
                    RecoveryEvent::Answered(self.rename(NEXT, name))
                },
                RecoveryAction::IdentifyActive => {
                    RecoveryEvent::Identified(self.identify("WinProfile"))
                },
                RecoveryAction::IdentifyRoot { name } => {
                    RecoveryEvent::Identified(self.identify(name))
                },
                RecoveryAction::IdentifyObject { name } => {
                    RecoveryEvent::Identified(self.identify(&name))
                },
                RecoveryAction::OpenNext { name } => {
                    RecoveryEvent::Answered(self.identify(&name).map(|_| ()))
                },
                RecoveryAction::OpenRoot { name } => {
                    RecoveryEvent::Answered(self.identify(name).map(|_| ()))
                },
            };
            action = run.step(event);
        }
    }
}

#[test]
fn an_untrusted_root_is_set_aside_and_a_new_one_takes_its_place() {
    let mut namespace = Namespace::new();
    let pending = namespace.recover(SOURCE).expect("recovered");
    assert_eq!(namespace.roots["WinProfile"], NEXT);
    assert_eq!(namespace.roots["WinProfile.Legacy.Untrusted.0fa0"], SOURCE);
    assert_eq!(pending.migration_id(), "0fa0");
    assert_eq!(pending.legacy_name(), "WinProfile.Legacy.Untrusted.0fa0");
    assert_eq!(pending.audit_operation(), "LegacyStorageDetached");
    assert_eq!(pending.audit_actor(), "WinProfile-Admin");
    assert_eq!(
        pending.audit_details(),
        "migration_id=0fa0; legacy_object=WinProfile.Legacy.Untrusted.0fa0; contents are untrusted, opaque, not imported, and retain their previous permissions"
    );
    assert!(load_pending_from_bootstrap(namespace.bootstrap.entries()).expect("states").is_some());
    let (write, action) = pending.complete();
    assert_eq!(write.state.phase, MigrationPhase::Done);
    assert!(matches!(
        action,
        StateWriteAction::Open { name } if name == "migration-0fa0-4-done.json"
    ));
}

#[test]
fn identity_change_after_detection_is_observable_before_rename() {
    let mut namespace = Namespace::new();
    assert!(matches!(namespace.recover(NEXT), Err(LegacyStorageError::IdentityChanged)));
    assert_eq!(namespace.roots["WinProfile"], SOURCE);
    assert!(!namespace.actions.iter().any(|action| action == "RenameSource"));
}

#[test]
fn a_recovery_is_resumed_wherever_it_stopped() {
    for stopped in [
        MigrationPhase::Detached,
        MigrationPhase::RootReady,
        MigrationPhase::AuditPending,
    ] {
        let mut namespace = Namespace::new();
        namespace.fail_write_of = Some(stopped);
        assert!(matches!(namespace.recover(SOURCE), Err(LegacyStorageError::Io(_))));
        namespace.fail_write_of = None;
        let pending = namespace.recover(SOURCE).expect("resumed");
        assert_eq!(pending.migration_id(), "0fa0");
        assert_eq!(namespace.roots["WinProfile"], NEXT);
        assert_eq!(namespace.roots["WinProfile.Legacy.Untrusted.0fa0"], SOURCE);
    }
    let mut namespace = Namespace::new();
    namespace.fail_write_of = Some(MigrationPhase::Prepared);
    assert!(matches!(namespace.recover(SOURCE), Err(LegacyStorageError::Io(_))));
    assert_eq!(namespace.roots, BTreeMap::from([("WinProfile".to_string(), SOURCE)]));
}

#[test]
fn privileges_that_stay_are_told_though_the_transition_is_recoverable() {
    let mut namespace = Namespace::new();
    namespace.restore_fails = true;
    assert!(matches!(namespace.recover(SOURCE), Err(LegacyStorageError::PrivilegeRestore(_))));
    namespace.restore_fails = false;
    assert!(namespace.recover(SOURCE).is_ok());
}

#[test]
fn rename_collision_never_replaces_target() {
    let mut namespace = Namespace::new();
    namespace.roots.insert(
        "WinProfile.Legacy.Untrusted.0fa0".to_string(),
        FileIdentity { volume_serial: 9, file_index: 9 },
    );
    assert!(matches!(
        namespace.recover(SOURCE),
        Err(LegacyStorageError::Storage(error)) if error.is_collision()
    ));
    assert_eq!(namespace.roots["WinProfile"], SOURCE);
}

// ---------------------------------------------------------------------------
// The journal
// ---------------------------------------------------------------------------

fn audit_entry(target: &str) -> AuditEntry {
    AuditEntry {
        timestamp: UtcTime { seconds: 1_787_246_299, nanos: 0 },
        operation: "TestOperation".to_string(),
        actor: "test".to_string(),
        target: target.to_string(),
        status: AuditStatus::Success,
        details: "bounded durable test entry".to_string(),
    }
}

#[test]
fn test_audit_log_rotation_export_and_bounded_memory() {
    let mut files: BTreeMap<String, Vec<u8>> = BTreeMap::new();
    let mut logger =
        AuditLogger::with_limits("audit.jsonl", 3, 320, 2, Ok(Vec::new())).expect("audit logger");

    for index in 0..10 {
        let line = vec![index as u8; 150];
        let held = files.get("audit.jsonl").map_or(0, |log| log.len() as u64);
        for step in logger.rotation(held, line.len() as u64).expect("a line within the limit") {
            match step {
                RotationStep::Remove { name } => {
                    files.remove(&name);
                },
                RotationStep::Rename { from, to } => {
                    if let Some(log) = files.remove(&from) {
                        assert!(files.insert(to, log).is_none(), "no archive is replaced");
                    }
                },
            }
        }
        files.entry("audit.jsonl".to_string()).or_default().extend(line);
        logger
            .log(audit_entry(&format!("target-{index}")), Ok(()))
            .expect("audit write");
    }

    assert!(logger.get_entries().len() <= 3);
    assert_eq!(logger.get_entries()[0].target, "target-9");
    assert!(files.contains_key("audit.jsonl.1"));
    assert!(!files.contains_key("audit.jsonl.3"));
    assert!(files.values().all(|log| log.len() <= 320));
    let export = files["audit.jsonl"].clone();
    AuditLogger::export_copy(&files["audit.jsonl"], &export).expect("verified audit export");
    assert_eq!(files["audit.jsonl"].len(), export.len());
    assert!(matches!(
        AuditLogger::export_copy(&files["audit.jsonl"], &export[1..]),
        Err(AuditError::ExportDiffers)
    ));
    logger.clear_memory();
    assert!(logger.get_entries().is_empty());
    assert!(files.contains_key("audit.jsonl"));
}

#[test]
fn a_line_past_the_limit_is_refused() {
    let logger =
        AuditLogger::with_limits("audit.jsonl", 3, 320, 2, Ok(Vec::new())).expect("audit logger");
    assert!(logger.rotation(0, 320).expect("a line that fills the log").is_empty());
    let refused = logger.rotation(7, 321).expect_err("a line past the limit");
    assert!(matches!(refused, AuditError::LineTooLong { bytes: 321, limit: 320 }));
    assert_eq!(
        refused.message(),
        "audit log line of 321 bytes exceeds the limit of 320 bytes"
    );
}

#[test]
fn test_invalid_audit_history_is_rejected() {
    let history = Ok(vec![Err("expected value".to_string())]);
    assert!(AuditLogger::new("audit.jsonl", 10, history).is_err());
}

#[test]
fn the_first_line_of_the_history_that_is_no_entry_is_named() {
    let history = Ok(vec![Ok(audit_entry("a")), Err("expected value".to_string())]);
    match AuditLogger::new("audit.jsonl", 10, history) {
        Err(error @ AuditError::InvalidHistory { line: 2, .. }) => {
            assert_eq!(error.message(), "audit log line 2 is invalid: expected value");
        },
        other => panic!("unexpected {other:?}"),
    }
}

#[test]
fn test_invalid_audit_limits_are_rejected() {
    assert!(AuditLogger::with_limits("audit.jsonl", 10, 0, 1, Ok(Vec::new())).is_err());
    assert!(AuditLogger::with_limits("audit.jsonl", 10, 1024, 0, Ok(Vec::new())).is_err());
}

#[test]
fn history_beyond_the_memory_is_forgotten_and_a_failed_write_is_told() {
    let history = Ok((0..5).map(|n| Ok(audit_entry(&n.to_string()))).collect());
    let mut logger = AuditLogger::new("audit.jsonl", 2, history).expect("journal");
    let targets: Vec<String> = logger.get_entries().into_iter().map(|e| e.target).collect();
    assert_eq!(targets, ["4", "3"]);
    assert!(matches!(
        logger.log(audit_entry("5"), Err(AuditError::Io("disk full".to_string()))),
        Err(AuditError::Io(_))
    ));
    assert_eq!(logger.get_entries()[0].target, "5");
    assert_eq!(logger.get_entries().len(), 2);
    assert!(matches!(
        AuditLogger::new("audit.jsonl", 2, Err("denied".to_string())),
        Err(AuditError::Io(_))
    ));
}

// ---------------------------------------------------------------------------
// Handle-rooted files
// ---------------------------------------------------------------------------

fn record(next: u32, attributes: u32, name: &str) -> Vec<u8> {
    let units: Vec<u16> = name.encode_utf16().collect();
    let mut bytes = vec![0u8; 104];
    bytes[0..4].copy_from_slice(&next.to_le_bytes());
    bytes[56..60].copy_from_slice(&attributes.to_le_bytes());
    bytes[60..64].copy_from_slice(&((units.len() * 2) as u32).to_le_bytes());
    for unit in units {
        bytes.extend_from_slice(&unit.to_le_bytes());
    }
    while bytes.len() % 8 != 0 || bytes.len() < 112 {
        bytes.push(0);
    }
    bytes
}

#[test]
fn listings_are_read_record_by_record_and_put_in_order() {
    let mut buffer = record(112, 0x10, ".");
    buffer.extend(record(112, 0x20, "beta"));
    buffer.extend(record(0, 0x10, "Alpha"));
    let mut entries = Vec::new();
    parse_directory_buffer(&buffer, r"C:\dir", &mut entries).expect("listing");
    assert_eq!(entries.len(), 2);

    let (mut run, first) = SecureDirectory::root(r"C:\dir".to_string(), SOURCE).entries();
    assert!(matches!(first, ListingAction::Query { restart: true }));
    assert!(matches!(run.step(Ok(buffer)), ListingAction::Query { restart: false }));
    match run.step(Err(QueryFailure { code: 18, source: "no more files".to_string() })) {
        ListingAction::Finish(Ok(list)) => {
            let names: Vec<String> =
                list.iter().map(|e| String::from_utf16(&e.name).expect("name")).collect();
            assert_eq!(names, ["Alpha", "beta"]);
            assert_eq!(list[0].kind, SecureEntryKind::Directory);
            assert_eq!(list[1].kind, SecureEntryKind::File);
        },
        other => panic!("unexpected {other:?}"),
    }
    let (mut run, _) = SecureDirectory::root("d".to_string(), SOURCE).entries();
    assert!(matches!(
        run.step(Err(QueryFailure { code: 5, source: "denied".to_string() })),
        ListingAction::Finish(Err(SecureFsError::Io { .. }))
    ));
}

#[test]
fn listings_that_point_outside_or_at_reparse_points_are_refused() {
    let mut entries = Vec::new();
    assert_eq!(
        parse_directory_buffer(&record(0, 0x400, "link"), r"C:\dir", &mut entries)
            .expect_err("reparse")
            .message(),
        r"reparse point refused on opened object: C:\dir\link"
    );
    assert_eq!(
        parse_directory_buffer(&record(4096, 0, "a"), "d", &mut entries)
            .expect_err("offset")
            .message(),
        "invalid absolute filesystem path: invalid directory enumeration offset for d"
    );
    let mut long = record(0, 0, "a");
    long[60] = 200;
    assert_eq!(
        parse_directory_buffer(&long, "d", &mut entries).expect_err("entry").message(),
        "invalid absolute filesystem path: invalid directory entry returned for d"
    );
    assert_eq!(
        parse_directory_buffer(&[0u8; 8], "d", &mut entries).expect_err("short").message(),
        "invalid absolute filesystem path: invalid directory enumeration for d"
    );
}

#[test]
fn directories_and_files_are_created_without_leaving_anything_behind() {
    let missing = || SecureFsError::NotFound("p".to_string());
    let there = || SecureFsError::AlreadyExists("p".to_string());
    assert!(matches!(
        open_or_create_directory(DirectoryStage::Opening, "p", Err(missing())),
        DirectoryStep::Continue(DirectoryStage::Creating)
    ));
    assert!(matches!(
        open_or_create_directory(DirectoryStage::Creating, "p", Err(there())),
        DirectoryStep::Continue(DirectoryStage::Reopening)
    ));
    assert!(matches!(
        open_or_create_directory(DirectoryStage::Reopening, "p", Ok(())),
        DirectoryStep::Failed(SecureFsError::AlreadyExists(_))
    ));
    let removing = open_or_create_directory(DirectoryStage::Inspecting, "p", Err(missing()));
    match removing {
        DirectoryStep::Continue(stage) => assert!(matches!(
            open_or_create_directory(stage, "p", Err(there())),
            DirectoryStep::Failed(SecureFsError::Rollback { .. })
        )),
        other => panic!("unexpected {other:?}"),
    }
    assert!(matches!(
        create_file(FileStage::Creating, "p", Err(there())),
        FileStep::Continue(FileStage::Probing)
    ));
    assert!(matches!(
        create_file(FileStage::Probing, "p", Err(missing())),
        FileStep::Failed(SecureFsError::AlreadyExists(_))
    ));
    assert!(matches!(create_file(FileStage::Duplicating, "p", Ok(())), FileStep::Created));
}

#[test]
fn absolute_paths_are_opened_component_by_component_and_taken_back() {
    let (root, names) = split_absolute(r"C:\a\.\b/c").expect("split");
    assert_eq!(root, r"C:\");
    assert_eq!(names, ["a", "b", "c"]);
    assert!(split_absolute(r"C:\a\..\b").is_err());
    assert!(split_absolute(r"a\b").is_err());
    assert!(split_absolute(r"C:a").is_err());

    let (root, names) = split_absolute(r"\\?\C:\a\b").expect("verbatim drive");
    assert_eq!(root, r"\\?\C:\");
    assert_eq!(names, ["a", "b"]);
    let (root, names) = split_absolute(r"\\server\share\a").expect("share");
    assert_eq!(root, r"\\server\share\");
    assert_eq!(names, ["a"]);
    let (root, names) = split_absolute(r"\\?\UNC\server\share\a\b").expect("verbatim share");
    assert_eq!(root, r"\\?\UNC\server\share\");
    assert_eq!(names, ["a", "b"]);

    let (mut run, first) = AbsoluteOpen::open_or_create_absolute(r"C:\a\b\c").expect("path");
    assert!(matches!(first, AbsoluteAction::OpenRoot { path } if path == r"C:\"));
    assert!(matches!(
        run.step(AbsoluteEvent::Opened(Ok(false))),
        AbsoluteAction::OpenComponent { name, create: true } if name == "a"
    ));
    assert!(matches!(
        run.step(AbsoluteEvent::Opened(Ok(true))),
        AbsoluteAction::OpenComponent { name, .. } if name == "b"
    ));
    assert!(matches!(
        run.step(AbsoluteEvent::Opened(Ok(true))),
        AbsoluteAction::OpenComponent { name, .. } if name == "c"
    ));
    assert!(matches!(
        run.step(AbsoluteEvent::Opened(Err(SecureFsError::ReparsePoint("c".to_string())))),
        AbsoluteAction::RemoveCreated { index: 1 }
    ));
    assert!(matches!(
        run.step(AbsoluteEvent::Removed(Err(SecureFsError::NotFound("b".to_string())))),
        AbsoluteAction::RemoveCreated { index: 0 }
    ));
    match run.step(AbsoluteEvent::Removed(Ok(()))) {
        AbsoluteAction::Finish(Err(error)) => assert_eq!(
            error.message(),
            "secure filesystem rollback failed after 'reparse point refused on opened object: c': filesystem entry was not found: b"
        ),
        other => panic!("unexpected {other:?}"),
    }

    let (mut run, _) = AbsoluteOpen::open_absolute_existing(r"\\server\share").expect("share");
    assert!(matches!(
        run.step(AbsoluteEvent::Opened(Ok(false))),
        AbsoluteAction::Finish(Ok(0))
    ));
}

#[test]
fn a_directory_overlaps_all_that_is_below_it() {
    let root = SecureDirectory::root(r"C:\".to_string(), file_identity(1, 0, 5));
    let users = root.open_directory("Users", Ok(file_identity(1, 0, 6))).expect("directory");
    let anna = users.open_directory("Anna", Ok(file_identity(1, 0, 7))).expect("directory");
    let other = root.open_directory("Data", Ok(file_identity(1, 0, 8))).expect("directory");
    assert_eq!(anna.display_path, r"C:\Users\Anna");
    assert_eq!(anna.ancestry.len(), 3);
    assert!(users.overlaps(&anna));
    assert!(anna.overlaps(&root));
    assert!(!anna.overlaps(&other));
    assert!(matches!(
        root.open_directory(r"a\b", Ok(SOURCE)),
        Err(SecureFsError::InvalidPath(_))
    ));
    assert!(matches!(
        root.open_directory("a", Err(SecureFsError::ReparsePoint("a".to_string()))),
        Err(SecureFsError::ReparsePoint(_))
    ));
    assert_eq!(users.open_file("a.txt", Ok(())).expect("file"), r"C:\Users\a.txt");
    assert!(users.open_file("..", Ok(())).is_err());
}

#[test]
fn identities_decide_overlap() {
    let id = |n: u32| file_identity(1, n, 7);
    assert_eq!(id(2).file_index, 0x2_0000_0007);
    let source = vec![id(1), id(2)];
    assert!(overlaps(&source, &vec![id(1), id(2), id(3)]));
    assert!(overlaps(&source, &source));
    assert!(!overlaps(&source, &vec![id(1), id(4)]));
    assert!(child_display_path(r"C:\a", "b").is_ok());
    assert!(child_display_path(r"C:\a", r"b\c").is_err());
    assert!(child_display_path(r"C:\a", "b:stream").is_err());
    assert_eq!(native_name_length("ab", "p").expect("length"), 4);
    assert!(nt_open_relative(0, true, "p").is_ok());
    assert!(matches!(nt_open_relative(NOT_FOUND, false, "p"), Err(SecureFsError::NotFound(_))));
    assert!(matches!(nt_open_relative(-1, false, "p"), Err(SecureFsError::Native { .. })));
    assert!(matches!(reject_reparse_handle(Ok(0x400), "p"), Err(SecureFsError::ReparsePoint(_))));
    assert!(reject_reparse_handle(Ok(0x10), "p").is_ok());
    assert!(matches!(
        reject_reparse_handle(Err("denied".to_string()), "p"),
        Err(SecureFsError::Io { .. })
    ));
}

#[test]
fn a_rotation_moves_every_archive_on_and_gives_up_the_last() {
    let logger = AuditLogger::with_limits("log", 5, 100, 3, Ok(Vec::new())).expect("logger");
    let mut files: BTreeMap<String, u32> =
        [("log", 0), ("log.1", 1), ("log.3", 3)].map(|(name, n)| (name.to_string(), n)).into();
    for step in logger.rotation(90, 20).expect("a line within the limit") {
        match step {
            RotationStep::Remove { name } => {
                files.remove(&name);
            }
            RotationStep::Rename { from, to } => {
                if let Some(content) = files.remove(&from) {
                    assert!(files.insert(to, content).is_none(), "nothing is overwritten");
                }
            }
        }
    }
    let expected: BTreeMap<String, u32> =
        [("log.1", 0), ("log.2", 1)].map(|(name, n)| (name.to_string(), n)).into();
    assert_eq!(files, expected);
}

#[test]
fn what_stands_under_a_name_is_told_by_its_attributes() {
    assert!(matches!(child_kind(Ok(Ok(0x10))), Ok(Some(SecureEntryKind::Directory))));
    assert!(matches!(child_kind(Ok(Ok(0x20))), Ok(Some(SecureEntryKind::File))));
    assert!(matches!(child_kind(Err(SecureFsError::NotFound("x".to_string()))), Ok(None)));
    assert!(matches!(
        child_kind(Err(SecureFsError::AlreadyExists("x".to_string()))),
        Err(SecureFsError::AlreadyExists(path)) if path == "x"
    ));
    assert!(matches!(
        child_kind(Ok(Err(SecureFsError::NotFound("gone".to_string())))),
        Err(SecureFsError::NotFound(path)) if path == "gone"
    ));
}

#[test]
fn a_length_of_time_is_written_as_the_system_writes_it() {
    for millis in [0, 1, 30, 999, 1000, 1500, 1050, 1234, 2000, 2569, 60_000, 61_010, u64::MAX] {
        assert_eq!(
            storage::describe_millis(millis),
            format!("{:?}", std::time::Duration::from_millis(millis)),
            "{millis}"
        );
    }
    assert_eq!(
        StorageError::LockTimeout(2500).message(),
        "storage lock timed out after 2.5s"
    );
}
