//! Migrations on a disk that is held in memory.
use std::collections::{BTreeMap, BTreeSet};
use winprofile::copying::{
    display_relative_path, FileCopyAction, FileCopyEvent, MigrationPhase, MigrationProgress,
    MigrationReceipt,
};
use winprofile::journal::AuditStatus;
use winprofile::migration::{
    ensure_source_offline, map_secure_error, map_source_root_error, normalized_path_key,
    paths_overlap, prevalidate_migration_plan, release_absolute_path, validate_windows_component,
    MigrationError, MigrationObservation,
};
use winprofile::migration_run::{ProfileMigrationEngine, RunAction, RunEvent, DPAPI_WARNING};
use winprofile::models::{MigrationPlan, RepairPlan};
use winprofile::registry::RegistryError;
use winprofile::repair::RepairError;
use winprofile::repair_run::{ProfileRepairEngine, RepairAction, RepairEvent};
use winprofile::secure_fs::{SecureDirEntry, SecureEntryKind, SecureFsError};

fn units(text: &str) -> Vec<u16> {
    text.encode_utf16().collect()
}

fn text(units: &[u16]) -> String {
    String::from_utf16(units).expect("valid name")
}

const CHUNK: usize = 64 * 1024;

/// A disk with directories, files and junctions, and what was done to it.
#[derive(Default)]
struct Disk {
    dirs: BTreeSet<String>,
    files: BTreeMap<String, Vec<u8>>,
    junctions: BTreeSet<String>,
    audit: Vec<(String, AuditStatus, String)>,
    progress: Vec<MigrationProgress>,
    polls: usize,
    cancel_at: Option<usize>,
    /// The audit operation that cannot be written.
    refused_audit: Option<&'static str>,
    guard: Option<&'static str>,
    handles_overlap: bool,
    parent_within_source: bool,
    /// A file of which the copy is damaged after it was written.
    damaged: Option<&'static str>,
    /// An entry that cannot be removed again.
    stuck: Option<&'static str>,
}

impl Disk {
    fn with_dirs(paths: &[&str]) -> Disk {
        let mut disk = Disk::default();
        for path in paths {
            disk.mkdirs(path);
        }
        disk
    }

    fn mkdirs(&mut self, path: &str) {
        let mut so_far = String::new();
        for part in path.split('\\') {
            if !so_far.is_empty() {
                so_far.push('\\');
            }
            so_far.push_str(part);
            self.dirs.insert(so_far.clone());
        }
    }

    fn put(&mut self, path: &str, bytes: &[u8]) {
        let (parent, _) = path.rsplit_once('\\').expect("file path");
        self.mkdirs(parent);
        self.files.insert(path.to_string(), bytes.to_vec());
    }

    fn open_dir(&self, path: &str) -> Result<(), SecureFsError> {
        for junction in &self.junctions {
            if path == junction || path.starts_with(&format!("{junction}\\")) {
                return Err(SecureFsError::ReparsePoint(junction.clone()));
            }
        }
        if self.dirs.contains(path) {
            Ok(())
        } else {
            Err(SecureFsError::NotFound(path.to_string()))
        }
    }

    fn observe(&self, plan: &MigrationPlan) -> MigrationObservation {
        let parent = plan
            .target_path
            .rsplit_once('\\')
            .map(|(parent, _)| parent.to_string())
            .unwrap_or_default();
        MigrationObservation {
            hive: Err(RegistryError::Win32Error(2)),
            source_root: self.open_dir(&plan.source_path),
            target_parent: self.open_dir(&parent),
            parent_within_source: self.parent_within_source,
            target_entry: Ok(if self.dirs.contains(&plan.target_path) {
                Some(SecureEntryKind::Directory)
            } else {
                None
            }),
        }
    }

    fn list(&self, path: &str) -> Vec<SecureDirEntry> {
        let prefix = format!("{path}\\");
        let mut found: Vec<(String, SecureEntryKind)> = Vec::new();
        for dir in &self.dirs {
            if let Some(rest) = dir.strip_prefix(&prefix) {
                if !rest.contains('\\') {
                    found.push((rest.to_string(), SecureEntryKind::Directory));
                }
            }
        }
        for file in self.files.keys() {
            if let Some(rest) = file.strip_prefix(&prefix) {
                if !rest.contains('\\') {
                    found.push((rest.to_string(), SecureEntryKind::File));
                }
            }
        }
        found.sort_by_key(|(name, _)| name.to_lowercase());
        found
            .into_iter()
            .map(|(name, kind)| SecureDirEntry { name: units(&name), kind })
            .collect()
    }

    fn remove(&mut self, path: &str) -> Result<(), SecureFsError> {
        if self.stuck.is_some_and(|stuck| path.ends_with(stuck)) {
            return Err(SecureFsError::NotFound(path.to_string()));
        }
        if self.files.remove(path).is_some() {
            return Ok(());
        }
        let prefix = format!("{path}\\");
        let occupied = self.dirs.iter().any(|dir| dir.starts_with(&prefix))
            || self.files.keys().any(|file| file.starts_with(&prefix));
        if !occupied {
            assert!(self.dirs.remove(path), "{path} was created");
        }
        Ok(())
    }

    fn poll(&mut self) -> bool {
        self.polls += 1;
        self.cancel_at.is_some_and(|at| self.polls >= at)
    }

    /// Runs a migration to its end.
    fn migrate(&mut self, plan: &MigrationPlan) -> Result<MigrationReceipt, MigrationError> {
        let mut run = if self.cancel_at.is_some() {
            ProfileMigrationEngine::execute_migration_with_cancel(plan.clone())
        } else {
            ProfileMigrationEngine::execute_migration(plan.clone())
        };
        let mut event = RunEvent::Guarded(match self.guard {
            Some(reason) => Err(reason.to_string()),
            None => Ok(()),
        });
        let mut source = String::new();
        let mut target = String::new();
        let mut input: Vec<u8> = Vec::new();
        let mut offset = 0usize;
        let mut name = String::new();
        loop {
            let step = run.step(event);
            self.progress.extend(step.progress);
            event = match step.action {
                RunAction::Finish(result) => return result,
                RunAction::Observe => RunEvent::Observed(self.observe(plan)),
                RunAction::Audit { operation, status, details } => {
                    if self.refused_audit == Some(operation) {
                        RunEvent::Audited(Err("journal is full".to_string()))
                    } else {
                        self.audit.push((operation.to_string(), status, details));
                        RunEvent::Audited(Ok(()))
                    }
                },
                RunAction::CreateTarget { parent, leaf } => {
                    self.dirs.insert(format!("{}\\{leaf}", parent.trim_end_matches('\\')));
                    RunEvent::Opened(Ok(()))
                },
                RunAction::CompareRoots => RunEvent::Compared(self.handles_overlap),
                RunAction::ProbeDpapi { component, first } => {
                    let parent = if first { plan.source_path.clone() } else { source.clone() };
                    source = format!("{parent}\\{component}");
                    RunEvent::Probed(self.open_dir(&source))
                },
                RunAction::PollCancellation => RunEvent::Polled(self.poll()),
                RunAction::OpenSourceRoot { component, first } => {
                    let parent = if first { plan.source_path.clone() } else { source.clone() };
                    source = format!("{parent}\\{component}");
                    RunEvent::Opened(self.open_dir(&source))
                },
                RunAction::EnsureTargetRoot { component, first } => {
                    let parent = if first { plan.target_path.clone() } else { target.clone() };
                    target = format!("{parent}\\{component}");
                    RunEvent::Ensured(Ok(self.dirs.insert(target.clone())))
                },
                RunAction::ListSource => RunEvent::Listed(Ok(self.list(&source))),
                RunAction::OpenSourceChild { name } => {
                    source = format!("{source}\\{}", text(&name));
                    RunEvent::Opened(self.open_dir(&source))
                },
                RunAction::EnsureTargetChild { name } => {
                    target = format!("{target}\\{}", text(&name));
                    RunEvent::Ensured(Ok(self.dirs.insert(target.clone())))
                },
                RunAction::Leave => {
                    source = source.rsplit_once('\\').expect("source parent").0.to_string();
                    target = target.rsplit_once('\\').expect("target parent").0.to_string();
                    RunEvent::Left
                },
                RunAction::OpenFile { name: units } => {
                    name = text(&units);
                    input = self.files[&format!("{source}\\{name}")].clone();
                    offset = 0;
                    RunEvent::File(FileCopyEvent::Opened(Ok(())))
                },
                RunAction::File(action) => {
                    let path = format!("{target}\\{name}");
                    RunEvent::File(match action {
                        FileCopyAction::CreateOutput { name: units } => {
                            assert_eq!(text(&units), name);
                            if self.files.contains_key(&path) {
                                FileCopyEvent::Opened(Err(SecureFsError::AlreadyExists(path)))
                            } else {
                                self.files.insert(path, Vec::new());
                                FileCopyEvent::Opened(Ok(()))
                            }
                        },
                        FileCopyAction::PollCancellation => FileCopyEvent::Polled(self.poll()),
                        FileCopyAction::ReadInput { max } => {
                            assert_eq!(max, 1024 * 1024);
                            let end = input.len().min(offset + CHUNK);
                            let chunk = input[offset..end].to_vec();
                            offset = end;
                            FileCopyEvent::Chunk(Ok(chunk))
                        },
                        FileCopyAction::WriteOutput { bytes } => {
                            self.files.get_mut(&path).expect("output").extend(&bytes);
                            FileCopyEvent::Written(Ok(()))
                        },
                        FileCopyAction::FlushOutput => {
                            if self.damaged == Some(name.as_str()) {
                                self.files.get_mut(&path).expect("output")[0] ^= 1;
                            }
                            FileCopyEvent::Written(Ok(()))
                        },
                        FileCopyAction::RewindOutput => {
                            offset = 0;
                            FileCopyEvent::Written(Ok(()))
                        },
                        FileCopyAction::ReadOutput { max } => {
                            assert_eq!(max, 1024 * 1024);
                            let output = &self.files[&path];
                            let end = output.len().min(offset + CHUNK);
                            let bytes = output[offset..end].to_vec();
                            offset = end;
                            FileCopyEvent::Chunk(Ok(bytes))
                        },
                        FileCopyAction::QueryLength => {
                            FileCopyEvent::Length(Ok(self.files[&path].len() as u64))
                        },
                        FileCopyAction::Done | FileCopyAction::Fail(_) => {
                            panic!("the run ends the copy of a file itself")
                        },
                    })
                },
                RunAction::Remove { path } => {
                    let place = if path == plan.target_path {
                        path
                    } else {
                        format!("{}\\{path}", plan.target_path)
                    };
                    RunEvent::Removed(self.remove(&place))
                },
            };
        }
    }
}

fn plan(source: &str, target: &str) -> MigrationPlan {
    MigrationPlan {
        source_sid: "S-1-5-21-1001".to_string(),
        source_path: source.to_string(),
        target_path: target.to_string(),
        include_roaming_appdata: false,
        include_personal_folders: true,
    }
}

fn sha256(bytes: &[u8]) -> String {
    let digest = <sha2::Sha256 as sha2::Digest>::digest(bytes);
    digest.iter().map(|byte| format!("{byte:02x}")).collect()
}

#[test]
fn destructive_engines_fail_closed_on_operation_lock_while_dry_run_remains_available() {
    let mut disk = Disk::with_dirs(&[r"C:\Work\source"]);
    disk.guard = Some("storage lock timed out after 2s");
    let migration_plan = plan(r"C:\Work\source", r"C:\Work\target");
    assert!(matches!(disk.migrate(&migration_plan), Err(MigrationError::Audit(_))));
    assert!(
        !disk.dirs.contains(r"C:\Work\target"),
        "migration must not create its target before locking"
    );

    let repair_plan = RepairPlan {
        sid: "invalid".to_string(),
        canonical_sid: "invalid".to_string(),
        profile_path: String::new(),
        fix_bak: false,
        reset_state: false,
        unlock_hive: false,
        dry_run: false,
    };
    let (mut repair, first) = ProfileRepairEngine::execute_plan(repair_plan.clone(), false);
    assert!(matches!(first, RepairAction::AcquireGuard));
    let refused = repair.step(RepairEvent::Guarded(Err("lock timed out".to_string())));
    assert!(matches!(refused, RepairAction::Finish(Err(RepairError::AuditError(_)))));

    let rehearsal = RepairPlan { dry_run: true, ..repair_plan };
    let (_, first) = ProfileRepairEngine::execute_plan(rehearsal, false);
    assert!(matches!(first, RepairAction::Finish(Err(RepairError::NoActionSelected))));
}

#[test]
fn test_migration_copies_and_verifies_without_overwrite() {
    let mut disk = Disk::default();
    disk.put(r"C:\Work\source\Documents\report.txt", b"verified data");

    let receipt = disk
        .migrate(&plan(r"C:\Work\source", r"C:\Work\target"))
        .expect("verified migration");

    assert_eq!(receipt.copied_files, 1);
    assert_eq!(receipt.copied_bytes, 13);
    assert_eq!(receipt.manifest_sha256.len(), 64);
    assert_eq!(disk.files[r"C:\Work\target\Documents\report.txt"], b"verified data");

    let mut manifest = Vec::new();
    manifest.extend_from_slice(b"Documents/report.txt\0");
    manifest.extend_from_slice(&13u64.to_le_bytes());
    manifest.extend_from_slice(sha256(b"verified data").as_bytes());
    manifest.push(b'\n');
    assert_eq!(receipt.manifest_sha256, sha256(&manifest));
}

/// The phases that were told, and whether the counts never fell on the way.
fn told(disk: &Disk) -> Vec<MigrationPhase> {
    for pair in disk.progress.windows(2) {
        assert!(pair[0].completed_files <= pair[1].completed_files);
        assert!(pair[0].copied_bytes <= pair[1].copied_bytes);
    }
    disk.progress.iter().map(|progress| progress.phase).collect()
}

#[test]
fn progress_rises_to_the_receipt_or_turns_back_once() {
    let filled = || {
        let mut disk = Disk::default();
        disk.put(r"C:\Work\source\Documents\a.txt", b"first");
        disk.put(r"C:\Work\source\Documents\empty.txt", b"");
        disk.put(r"C:\Work\source\Pictures\b.png", b"second");
        disk
    };
    let wanted = plan(r"C:\Work\source", r"C:\Work\target");

    let mut disk = filled();
    let receipt = disk.migrate(&wanted).expect("verified migration");
    let phases = told(&disk);
    assert_eq!(phases.first(), Some(&MigrationPhase::Enumerating));
    assert_eq!(phases.last(), Some(&MigrationPhase::Finalizing));
    assert!(!phases.contains(&MigrationPhase::RollingBack));
    let last = disk.progress.last().expect("progress");
    assert_eq!((last.completed_files, last.copied_bytes), (3, 11));
    assert_eq!((receipt.copied_files, receipt.copied_bytes), (3, 11));

    for at in 1..40 {
        let mut disk = filled();
        disk.cancel_at = Some(at);
        if disk.migrate(&wanted).is_err() {
            let phases = told(&disk);
            let back = phases.iter().position(|phase| *phase == MigrationPhase::RollingBack);
            assert_eq!(back, Some(phases.len() - 1), "told once, and last");
        }
    }

    let mut disk = filled();
    disk.refused_audit = Some("MigrationStarted");
    assert!(disk.migrate(&wanted).is_err());
    assert!(disk.progress.is_empty());
    let mut disk = filled();
    disk.guard = Some("storage lock timed out");
    assert!(disk.migrate(&wanted).is_err());
    assert!(disk.progress.is_empty());
}

#[test]
fn test_migration_refuses_overwrite_and_preserves_existing_file() {
    let mut disk = Disk::default();
    disk.put(r"C:\Work\source\Documents\same.txt", b"new");
    disk.put(r"C:\Work\target\Documents\same.txt", b"keep");

    assert!(matches!(
        disk.migrate(&plan(r"C:\Work\source", r"C:\Work\target")),
        Err(MigrationError::DestinationExists(_))
    ));
    assert_eq!(disk.files[r"C:\Work\target\Documents\same.txt"], b"keep");
}

#[test]
fn test_cancelled_migration_rolls_back_created_target() {
    let mut disk = Disk::default();
    disk.put(r"C:\Work\source\Documents\data.txt", b"data");
    disk.cancel_at = Some(1);

    assert!(matches!(
        disk.migrate(&plan(r"C:\Work\source", r"C:\Work\target")),
        Err(MigrationError::Cancelled)
    ));
    assert!(!disk.dirs.contains(r"C:\Work\target"));
}

#[test]
fn test_migration_rejects_intermediate_junction_component() {
    let mut disk = Disk::default();
    disk.put(
        r"C:\Work\real-source\profile\Documents\data.txt",
        b"must not be reached through a junction",
    );
    disk.junctions.insert(r"C:\Work\source-junction".to_string());

    let result = disk.migrate(&plan(r"C:\Work\source-junction\profile", r"C:\Work\target"));

    assert!(matches!(result, Err(MigrationError::ReparsePoint(_))));
    assert!(!disk.dirs.contains(r"C:\Work\target"));
}

#[test]
fn test_migration_never_writes_through_intermediate_target_junction() {
    let mut disk = Disk::with_dirs(&[r"C:\Work\real-target"]);
    disk.put(r"C:\Work\source\Documents\data.txt", b"data");
    disk.junctions.insert(r"C:\Work\target-junction".to_string());

    let result = disk.migrate(&plan(r"C:\Work\source", r"C:\Work\target-junction\profile"));

    assert!(matches!(result, Err(MigrationError::ReparsePoint(_))));
    assert!(
        !disk.dirs.contains(r"C:\Work\real-target\profile"),
        "migration must not create through a destination junction"
    );
}

#[test]
fn test_migration_rejects_subst_alias_overlap_by_handle_identity() {
    let mut disk = Disk::with_dirs(&["Z:"]);
    disk.put(r"C:\Work\source\Documents\data.txt", b"data");
    disk.mkdirs("Z:");
    disk.handles_overlap = true;

    let result = disk.migrate(&plan(r"C:\Work\source", r"Z:\nested-target"));
    assert!(matches!(result, Err(MigrationError::InvalidPlan(_))));
    assert!(
        !disk.dirs.contains(r"Z:\nested-target"),
        "alias target created during validation must be rolled back"
    );

    disk.handles_overlap = false;
    disk.parent_within_source = true;
    let result = disk.migrate(&plan(r"C:\Work\source", r"Z:\nested-target"));
    assert!(matches!(result, Err(MigrationError::InvalidPlan(_))));
}

#[test]
fn test_cancellation_during_large_file_rolls_back_exact_created_handles() {
    let mut disk = Disk::default();
    disk.put(r"C:\Work\source\Documents\large.bin", &vec![0x5a; 8 * 1024 * 1024]);
    disk.cancel_at = Some(5);

    let result = disk.migrate(&plan(r"C:\Work\source", r"C:\Work\target"));

    assert!(matches!(result, Err(MigrationError::Cancelled)));
    assert!(disk.polls >= 5, "cancellation was not polled per chunk");
    assert!(
        !disk.dirs.contains(r"C:\Work\target"),
        "cancelled target must be rolled back"
    );
    assert_eq!(disk.files.len(), 1);
    let back = disk.progress.last().expect("rollback is announced");
    assert_eq!(back.phase, MigrationPhase::RollingBack);
    assert_eq!(back.relative_path.as_deref(), Some("Documents/large.bin"));
}

#[test]
fn test_migration_rejects_overlapping_roots() {
    let mut disk = Disk::with_dirs(&[r"C:\Work\source"]);
    assert!(matches!(
        disk.migrate(&plan(r"C:\Work\source", r"C:\Work\source\nested")),
        Err(MigrationError::InvalidPlan(_))
    ));
}

#[test]
fn whole_trees_are_copied_in_order_and_every_step_is_audited() {
    let mut disk = Disk::default();
    disk.put(r"C:\S\Documents\b\two.txt", b"22");
    disk.put(r"C:\S\Documents\a.txt", b"1");
    disk.put(r"C:\S\Desktop\empty.txt", b"");
    disk.put(r"C:\S\Music\ignored.txt", b"not selected");
    disk.mkdirs(r"C:\S\AppData\Roaming\Microsoft\Protect");
    disk.put(r"C:\S\AppData\Roaming\Tool\settings.dat", b"333");
    let mut wanted = plan(r"C:\S", r"C:\T");
    wanted.include_roaming_appdata = true;
    disk.mkdirs("C:");

    let receipt = disk.migrate(&wanted).expect("migration");

    assert_eq!(receipt.copied_files, 4);
    assert_eq!(receipt.copied_bytes, 6);
    assert_eq!(disk.files[r"C:\T\Documents\b\two.txt"], b"22");
    assert_eq!(disk.files[r"C:\T\AppData\Roaming\Tool\settings.dat"], b"333");
    assert!(!disk.dirs.contains(r"C:\T\Music"));
    let mut manifest = Vec::new();
    for (path, bytes) in [
        ("AppData/Roaming/Tool/settings.dat", &b"333"[..]),
        ("Documents/a.txt", b"1"),
        ("Documents/b/two.txt", b"22"),
        ("Desktop/empty.txt", b""),
    ] {
        manifest.extend_from_slice(path.as_bytes());
        manifest.push(0);
        manifest.extend_from_slice(&(bytes.len() as u64).to_le_bytes());
        manifest.extend_from_slice(sha256(bytes).as_bytes());
        manifest.push(b'\n');
    }
    assert_eq!(receipt.manifest_sha256, sha256(&manifest));
    let operations: Vec<&str> = disk.audit.iter().map(|entry| entry.0.as_str()).collect();
    assert_eq!(operations, ["MigrationStarted", "MigrationWarning", "MigrationSuccess"]);
    assert_eq!(disk.audit[0].2, r"Verified-copy migration started: C:\S -> C:\T");
    assert_eq!(disk.audit[1].2, DPAPI_WARNING);
    assert_eq!(
        disk.audit[2].2,
        format!("Verified 4 files (6 bytes); manifest SHA-256 {}", receipt.manifest_sha256)
    );
}

#[test]
fn a_damaged_copy_is_noticed_and_taken_back() {
    let mut disk = Disk::with_dirs(&["C:"]);
    disk.put(r"C:\S\Documents\a.txt", b"data");
    disk.damaged = Some("a.txt");

    let result = disk.migrate(&plan(r"C:\S", r"C:\T"));

    assert!(matches!(result, Err(MigrationError::VerificationFailed(_))));
    assert!(!disk.dirs.contains(r"C:\T"));
    assert_eq!(disk.audit.last().expect("audited").0, "MigrationRolledBack");
    assert_eq!(disk.audit.last().expect("audited").1, AuditStatus::RolledBack);
}

#[test]
fn a_success_that_cannot_be_audited_is_taken_back() {
    let mut disk = Disk::with_dirs(&["C:"]);
    disk.put(r"C:\S\Documents\a.txt", b"data");
    disk.refused_audit = Some("MigrationSuccess");

    let result = disk.migrate(&plan(r"C:\S", r"C:\T"));

    assert!(matches!(result, Err(MigrationError::Audit(reason)) if reason == "journal is full"));
    assert!(!disk.dirs.contains(r"C:\T"));
    assert_eq!(disk.files.len(), 1);
}

#[test]
fn a_rollback_that_fails_is_reported_with_its_cause() {
    let mut disk = Disk::with_dirs(&["C:"]);
    disk.put(r"C:\S\Documents\a.txt", b"data");
    disk.damaged = Some("a.txt");
    disk.stuck = Some("a.txt");

    match disk.migrate(&plan(r"C:\S", r"C:\T")) {
        Err(MigrationError::RollbackFailed { operation_error, rollback_error }) => {
            assert!(operation_error.contains("Documents"), "{operation_error}");
            assert_eq!(
                rollback_error,
                r"filesystem entry was not found: C:\T\Documents\a.txt"
            );
        },
        other => panic!("unexpected {other:?}"),
    }
    assert_eq!(disk.audit.last().expect("audited").0, "MigrationRollbackFailed");

    disk = Disk::with_dirs(&["C:"]);
    disk.put(r"C:\S\Documents\a.txt", b"data");
    disk.damaged = Some("a.txt");
    disk.stuck = Some("a.txt");
    disk.refused_audit = Some("MigrationRollbackFailed");
    match disk.migrate(&plan(r"C:\S", r"C:\T")) {
        Err(MigrationError::RollbackFailed { rollback_error, .. }) => {
            assert!(rollback_error.ends_with("; audit logging also failed: journal is full"));
        },
        other => panic!("unexpected {other:?}"),
    }
}

#[test]
fn plans_are_checked_before_anything_is_opened() {
    let disk = Disk::with_dirs(&[r"C:\S"]);
    let good = plan(r"C:\S", r"C:\T");
    let passed = prevalidate_migration_plan(&good, MigrationObservation {
        target_parent: Ok(()),
        ..disk.observe(&good)
    })
    .expect("clear");
    assert_eq!(passed.source_path, r"C:\S");
    assert_eq!(passed.target_path, r"C:\T");

    let none = MigrationPlan { include_personal_folders: false, ..good.clone() };
    assert!(matches!(
        prevalidate_migration_plan(&none, disk.observe(&none)),
        Err(MigrationError::InvalidPlan(_))
    ));
    for bad in [r"C:S", r"\\server\share", r"C:\a\..\b", r"C:\CON", r"C:\trailing.", r"C:\a<b", ""] {
        assert!(
            matches!(release_absolute_path(bad, "target"), Err(MigrationError::InvalidPlan(_))),
            "{bad}"
        );
    }
    assert_eq!(release_absolute_path(r"D:\New\Profile", "target").expect("path"), r"D:\New\Profile");
    assert!(matches!(
        validate_windows_component("aux.txt", "target"),
        Err(MigrationError::InvalidPlan(_))
    ));
    assert!(validate_windows_component("report.txt", "target").is_ok());
}

#[test]
fn a_loaded_source_and_unreadable_roots_have_their_own_errors() {
    assert!(matches!(
        ensure_source_offline("S-1-5-21-1.bak", Ok(())),
        Err(MigrationError::SourceLoaded(sid)) if sid == "S-1-5-21-1"
    ));
    assert!(ensure_source_offline("S-1-5-21-1", Err(RegistryError::Win32Error(2))).is_ok());
    assert!(ensure_source_offline("S-1-5-21-1", Err(RegistryError::Win32Error(5))).is_err());
    assert!(matches!(
        ensure_source_offline(r"a\b", Err(RegistryError::Win32Error(2))),
        Err(MigrationError::InvalidPlan(_))
    ));
    assert!(matches!(
        map_source_root_error(SecureFsError::NotFound("x".to_string()), r"C:\S"),
        MigrationError::SourceNotFound(path) if path == r"C:\S"
    ));
    assert!(matches!(
        map_secure_error(SecureFsError::AlreadyExists("x".to_string())),
        MigrationError::DestinationExists(path) if path == "x"
    ));
    assert!(matches!(
        map_secure_error(SecureFsError::InvalidPath("x".to_string())),
        MigrationError::Security(_)
    ));
}

#[test]
fn overlap_is_judged_on_whole_components_without_regard_to_case() {
    assert!(paths_overlap(r"C:\Users\Anna", r"c:\users\anna\Desktop"));
    assert!(paths_overlap(r"C:\Users\Anna\", r"C:\USERS\ANNA"));
    assert!(!paths_overlap(r"C:\Users\Anna", r"C:\Users\Annabel"));
    assert_eq!(normalized_path_key(r"C:\ÄRGER\"), r"c:\ärger");
    assert_eq!(display_relative_path(r"a\b\c"), "a/b/c");
}
