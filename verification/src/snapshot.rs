//! Registry snapshots: how one is taken, and which inventory entries are sound.
use crate::clock::{before, is_before, micros, timestamp_micros, Stamp, UtcTime};
use crate::hashing::{absorb, finish_text, hashed_bytes, new_hasher, sha256_hex, sha256_text};
use crate::paths::path_join;
use crate::registry::RegistryError;
use crate::secure_fs::{status_digits, status_text, FileIdentity};
use crate::security::{SecurityError, SE_BACKUP_NAME, SE_RESTORE_NAME};
use crate::storage::{child_path, is_storage_component, StorageError};
use crate::text::{cat2, cat4, cat5, dec, ends_with, join, owned, replace_char, signed_dec, str_eq};
use crate::text::{decimal, has_suffix, joined, signed_decimal, texts, with_char_replaced};
use vstd::prelude::*;

verus! {

/// How much of a hive is hashed at a time.
pub const HASH_BUFFER_BYTES: usize = 65_536;

#[derive(Debug)]
pub enum SnapshotError {
    IoError(String),
    RegistryError(RegistryError),
    SecurityError(SecurityError),
    StorageError(StorageError),
    Collision(String),
    SaveCleanupFailed { save_error: String, cleanup_error: String },
    CleanupFailed { metadata_error: String, cleanup_error: String },
    PostSaveCleanupFailed { operation_error: String, cleanup_error: String },
    PrivilegeRestoreCleanupFailed { restore_error: String, cleanup_errors: String },
    OperationAndPrivilegeRestoreFailed { operation_error: String, restore_error: String },
    InvalidInventory { metadata_file: String, reason: String },
    HashError { operation: &'static str, status: i32 },
}

impl SnapshotError {
    /// The text that describes the error.
    pub open spec fn text(self) -> Seq<char> {
        match self {
            SnapshotError::IoError(reason) => "Snapshot IO error: "@ + reason@,
            SnapshotError::RegistryError(error) => "Registry error during snapshot: "@
                + error.text(),
            SnapshotError::SecurityError(error) => "Security privilege error: "@ + error.text(),
            SnapshotError::StorageError(error) => "Protected storage error: "@ + error.text(),
            SnapshotError::Collision(name) => "snapshot file already exists: "@ + name@,
            SnapshotError::SaveCleanupFailed { save_error, cleanup_error } =>
                "snapshot save failed ("@ + save_error@ + ") and partial cleanup failed ("@
                + cleanup_error@ + ")"@,
            SnapshotError::CleanupFailed { metadata_error, cleanup_error } =>
                "Snapshot metadata failed ("@ + metadata_error@ + ") and hive cleanup failed ("@
                + cleanup_error@ + ")"@,
            SnapshotError::PostSaveCleanupFailed { operation_error, cleanup_error } =>
                "post-save validation failed ("@ + operation_error@ + ") and hive cleanup failed ("@
                + cleanup_error@ + ")"@,
            SnapshotError::PrivilegeRestoreCleanupFailed { restore_error, cleanup_errors } =>
                "privilege restoration failed ("@ + restore_error@
                + ") and snapshot cleanup was incomplete: "@ + cleanup_errors@,
            SnapshotError::OperationAndPrivilegeRestoreFailed { operation_error, restore_error } =>
                "snapshot operation failed ("@ + operation_error@
                + ") and privilege restoration also failed ("@ + restore_error@ + ")"@,
            SnapshotError::InvalidInventory { metadata_file, reason } =>
                "snapshot inventory entry "@ + metadata_file@ + " is inconsistent: "@ + reason@,
            SnapshotError::HashError { operation, status } => "Windows CNG operation "@
                + operation@ + " failed with NTSTATUS "@ + status_digits(status),
        }
    }

    pub fn message(&self) -> (r: String)
        ensures
            r@ == self.text(),
    {
        match self {
            SnapshotError::IoError(reason) => cat2("Snapshot IO error: ", reason.as_str()),
            SnapshotError::RegistryError(error) => {
                let reason = error.message();
                cat2("Registry error during snapshot: ", reason.as_str())
            },
            SnapshotError::SecurityError(error) => {
                let reason = error.message();
                cat2("Security privilege error: ", reason.as_str())
            },
            SnapshotError::StorageError(error) => {
                let reason = error.message();
                cat2("Protected storage error: ", reason.as_str())
            },
            SnapshotError::Collision(name) => cat2("snapshot file already exists: ", name.as_str()),
            SnapshotError::SaveCleanupFailed { save_error, cleanup_error } => cat5(
                "snapshot save failed (",
                save_error.as_str(),
                ") and partial cleanup failed (",
                cleanup_error.as_str(),
                ")",
            ),
            SnapshotError::CleanupFailed { metadata_error, cleanup_error } => cat5(
                "Snapshot metadata failed (",
                metadata_error.as_str(),
                ") and hive cleanup failed (",
                cleanup_error.as_str(),
                ")",
            ),
            SnapshotError::PostSaveCleanupFailed { operation_error, cleanup_error } => cat5(
                "post-save validation failed (",
                operation_error.as_str(),
                ") and hive cleanup failed (",
                cleanup_error.as_str(),
                ")",
            ),
            SnapshotError::PrivilegeRestoreCleanupFailed { restore_error, cleanup_errors } => cat4(
                "privilege restoration failed (",
                restore_error.as_str(),
                ") and snapshot cleanup was incomplete: ",
                cleanup_errors.as_str(),
            ),
            SnapshotError::OperationAndPrivilegeRestoreFailed { operation_error, restore_error } =>
            cat5(
                "snapshot operation failed (",
                operation_error.as_str(),
                ") and privilege restoration also failed (",
                restore_error.as_str(),
                ")",
            ),
            SnapshotError::InvalidInventory { metadata_file, reason } => cat4(
                "snapshot inventory entry ",
                metadata_file.as_str(),
                " is inconsistent: ",
                reason.as_str(),
            ),
            SnapshotError::HashError { operation, status } => {
                let code = status_text(*status);
                cat4("Windows CNG operation ", operation, " failed with NTSTATUS ", code.as_str())
            },
        }
    }
}

/// What is known of a snapshot.
#[derive(Debug)]
pub struct SnapshotMetadata {
    pub id: String,
    pub timestamp: UtcTime,
    pub sid: String,
    pub profile_path: String,
    pub registry_key_path: String,
    pub snapshot_file_name: String,
    pub sha256: String,
    pub file_volume_serial: u32,
    pub file_index: u64,
    pub reason: String,
    /// Whether the snapshot file is still held open since it was taken. Metadata
    /// that was read back from the inventory holds no file.
    pub protected_artifact: bool,
}

impl SnapshotMetadata {
    /// Whether two snapshots are described alike.
    pub open spec fn says(self, other: SnapshotMetadata) -> bool {
        &&& self.id@ == other.id@
        &&& self.timestamp == other.timestamp
        &&& self.sid@ == other.sid@
        &&& self.profile_path@ == other.profile_path@
        &&& self.registry_key_path@ == other.registry_key_path@
        &&& self.snapshot_file_name@ == other.snapshot_file_name@
        &&& self.sha256@ == other.sha256@
        &&& self.file_volume_serial == other.file_volume_serial
        &&& self.file_index == other.file_index
        &&& self.reason@ == other.reason@
        &&& self.protected_artifact == other.protected_artifact
    }

    pub fn copy(&self) -> (r: SnapshotMetadata)
        ensures
            r.says(*self),
    {
        SnapshotMetadata {
            id: owned(self.id.as_str()),
            timestamp: self.timestamp,
            sid: owned(self.sid.as_str()),
            profile_path: owned(self.profile_path.as_str()),
            registry_key_path: owned(self.registry_key_path.as_str()),
            snapshot_file_name: owned(self.snapshot_file_name.as_str()),
            sha256: owned(self.sha256.as_str()),
            file_volume_serial: self.file_volume_serial,
            file_index: self.file_index,
            reason: owned(self.reason.as_str()),
            protected_artifact: self.protected_artifact,
        }
    }
}

// ---------------------------------------------------------------------------
// Names
// ---------------------------------------------------------------------------

/// What is asked for.
pub struct SnapshotRequest {
    /// The key below `HKEY_LOCAL_MACHINE`.
    pub subkey: String,
    pub sid: String,
    pub profile_path: String,
    pub reason: String,
    /// The directory that holds the snapshots.
    pub directory: String,
}

/// What makes the name of a snapshot its own.
pub struct SnapshotSeed {
    pub stamp: Stamp,
    pub process_id: u32,
    pub sequence: u64,
}

/// The file name of a snapshot.
pub open spec fn snapshot_name(seed: SnapshotSeed, sid: Seq<char>) -> Seq<char> {
    "snap_"@ + seed.stamp.text@ + "_"@ + decimal(seed.process_id as nat) + "_"@ + decimal(
        seed.sequence as nat,
    ) + "_"@ + with_char_replaced(with_char_replaced(sid, '\\', '_'), ':', '_') + ".hiv"@
}

/// The identifier of a snapshot.
pub open spec fn snapshot_id(seed: SnapshotSeed) -> Seq<char> {
    signed_decimal(micros(seed.stamp.at)) + "_"@ + decimal(seed.process_id as nat) + "_"@ + decimal(
        seed.sequence as nat,
    )
}

fn make_name(seed: &SnapshotSeed, sid: &str) -> (r: String)
    ensures
        r@ == snapshot_name(*seed, sid@),
{
    let slashless = replace_char(sid, '\\', '_');
    let safe = replace_char(slashless.as_str(), ':', '_');
    let pid = dec(seed.process_id as u64);
    let sequence = dec(seed.sequence);
    let head = cat5("snap_", seed.stamp.text.as_str(), "_", pid.as_str(), "_");
    cat5(head.as_str(), sequence.as_str(), "_", safe.as_str(), ".hiv")
}

fn make_id(seed: &SnapshotSeed) -> (r: String)
    ensures
        r@ == snapshot_id(*seed),
{
    let time = signed_dec(timestamp_micros(seed.stamp.at));
    let pid = dec(seed.process_id as u64);
    let sequence = dec(seed.sequence);
    cat5(time.as_str(), "_", pid.as_str(), "_", sequence.as_str())
}

// ---------------------------------------------------------------------------
// Taking a snapshot
// ---------------------------------------------------------------------------

#[derive(Debug, Clone, Copy, PartialEq, Eq, Structural)]
pub enum SnapshotStage {
    Lock,
    Privileges,
    /// Looking whether a file of the chosen name is there.
    Probe,
    OpenKey,
    Save,
    /// Removing what a failed save left behind.
    RemovePartial,
    /// Opening the saved file and reading its identity.
    OpenArtifact,
    Hash,
    /// Removing a saved file that could not be validated.
    RemoveSaved,
    CreateMetadata,
    WriteMetadata,
    /// Taking back metadata, then the hive, because metadata failed.
    UndoMetadata,
    UndoHive,
    RestorePrivileges,
    /// Taking back metadata, then the hive, because privileges stayed.
    DiscardMetadata,
    DiscardHive,
    Finished,
}

/// The outcome of what was asked for.
pub enum SnapshotEvent {
    Storage(Result<(), StorageError>),
    Privileged(Result<SnapshotSeed, SecurityError>),
    Registry(Result<(), RegistryError>),
    Artifact(Result<FileIdentity, SnapshotError>),
    /// The next bytes of the saved file; none at the end.
    Chunk(Result<Vec<u8>, SnapshotError>),
    Written(Result<(), String>),
    Restored(Result<(), SecurityError>),
}

#[derive(Debug)]
pub enum SnapshotAction {
    AcquirePrivileges { privileges: (&'static str, &'static str) },
    /// Look whether the named file is there.
    Probe { name: String },
    /// Open this key below `HKEY_LOCAL_MACHINE`.
    OpenKey { subkey: String },
    Save { path: String },
    /// Remove the named file if it is there.
    Remove { name: String },
    OpenArtifact { name: String },
    /// Read no more than this many bytes.
    ReadArtifact { max: usize },
    CreateMetadata { name: String },
    WriteMetadata { metadata: SnapshotMetadata },
    RollBackMetadata,
    DeleteHive,
    RestorePrivileges,
    Finish(Result<SnapshotMetadata, SnapshotError>),
}

/// The taking of a snapshot.
pub struct SnapshotRun {
    pub request: SnapshotRequest,
    pub stage: SnapshotStage,
    pub seed: Option<SnapshotSeed>,
    pub name: String,
    pub identity: Option<FileIdentity>,
    pub hasher: sha2::Sha256,
    /// What was read of the hive.
    pub content: Ghost<Seq<u8>>,
    pub metadata: Option<SnapshotMetadata>,
    pub failure: Option<SnapshotError>,
    pub save_failure: Option<RegistryError>,
    pub restore_failure: Option<SecurityError>,
    pub cleanup_errors: Vec<String>,
}

#[verifier::ext_equal]
pub struct SnapshotModel {
    pub stage: SnapshotStage,
    pub seed: Option<SnapshotSeed>,
    pub name: Seq<char>,
    pub identity: Option<FileIdentity>,
    pub hashed: Seq<u8>,
    pub metadata: Option<SnapshotMetadata>,
    pub failure: Option<SnapshotError>,
    pub save_failure: Option<RegistryError>,
    pub restore_failure: Option<SecurityError>,
    pub cleanup_errors: Seq<Seq<char>>,
}

impl View for SnapshotRun {
    type V = SnapshotModel;

    open spec fn view(&self) -> SnapshotModel {
        SnapshotModel {
            stage: self.stage,
            seed: self.seed,
            name: self.name@,
            identity: self.identity,
            hashed: self.content@,
            metadata: self.metadata,
            failure: self.failure,
            save_failure: self.save_failure,
            restore_failure: self.restore_failure,
            cleanup_errors: texts(self.cleanup_errors@),
        }
    }
}

impl SnapshotStage {
    pub open spec fn expects(self, event: SnapshotEvent) -> bool {
        match self {
            SnapshotStage::Lock | SnapshotStage::Probe | SnapshotStage::RemovePartial
            | SnapshotStage::RemoveSaved | SnapshotStage::CreateMetadata
            | SnapshotStage::UndoMetadata | SnapshotStage::UndoHive
            | SnapshotStage::DiscardMetadata | SnapshotStage::DiscardHive => event is Storage,
            SnapshotStage::Privileges => event is Privileged,
            SnapshotStage::OpenKey | SnapshotStage::Save => event is Registry,
            SnapshotStage::OpenArtifact => event is Artifact,
            SnapshotStage::Hash => event is Chunk,
            SnapshotStage::WriteMetadata => event is Written,
            SnapshotStage::RestorePrivileges => event is Restored,
            SnapshotStage::Finished => false,
        }
    }
}

impl SnapshotModel {
    pub open spec fn at(self, stage: SnapshotStage) -> SnapshotModel {
        SnapshotModel { stage: stage, ..self }
    }
}

/// Whether metadata describes the snapshot that was taken.
pub open spec fn describes_snapshot(
    request: SnapshotRequest,
    m: SnapshotModel,
    metadata: SnapshotMetadata,
) -> bool {
    &&& m.seed is Some
    &&& m.identity is Some
    &&& metadata.id@ == snapshot_id(m.seed->0)
    &&& metadata.timestamp == m.seed->0.stamp.at
    &&& metadata.sid@ == request.sid@
    &&& metadata.profile_path@ == request.profile_path@
    &&& metadata.registry_key_path@ == "HKLM\\"@ + request.subkey@
    &&& metadata.snapshot_file_name@ == m.name
    &&& metadata.sha256@ == sha256_text(m.hashed)
    &&& metadata.file_volume_serial == m.identity->0.volume_serial
    &&& metadata.file_index == m.identity->0.file_index
    &&& metadata.reason@ == request.reason@
    &&& metadata.protected_artifact
}

/// Whether the hive has the name of its snapshot, and one that the storage can hold.
pub open spec fn is_well_named(request: SnapshotRequest, m: SnapshotModel) -> bool {
    &&& m.seed is Some
    &&& m.name == snapshot_name(m.seed->0, request.sid@)
    &&& is_storage_component(m.name)
}

/// The operation is over with an error; the privileges are given back next.
pub open spec fn fails(m: SnapshotModel, n: SnapshotModel, action: SnapshotAction, e: SnapshotError) -> bool {
    n == (SnapshotModel {
        stage: SnapshotStage::RestorePrivileges,
        failure: Some(e),
        metadata: None,
        ..m
    }) && action is RestorePrivileges
}

pub open spec fn done(n: SnapshotModel, action: SnapshotAction, r: Result<SnapshotMetadata, SnapshotError>) -> bool {
    n.stage is Finished && action == SnapshotAction::Finish(r)
}

/// The errors of a cleanup with one more outcome.
pub open spec fn with_outcome(
    errors: Seq<Seq<char>>,
    label: Seq<char>,
    outcome: Result<(), StorageError>,
) -> Seq<Seq<char>> {
    match outcome {
        Ok(_) => errors,
        Err(e) => errors.push(label + e.text()),
    }
}

/// What follows an event in the taking of a snapshot.
pub open spec fn snapshot_follows(
    request: SnapshotRequest,
    m: SnapshotModel,
    event: SnapshotEvent,
    n: SnapshotModel,
    action: SnapshotAction,
) -> bool {
    match event {
        SnapshotEvent::Storage(outcome) => match m.stage {
            SnapshotStage::Lock => match outcome {
                Ok(_) => n == m.at(SnapshotStage::Privileges) && action == (SnapshotAction::AcquirePrivileges {
                    privileges: (SE_BACKUP_NAME, SE_RESTORE_NAME),
                }),
                Err(e) => done(n, action, Err(SnapshotError::StorageError(e))),
            },
            SnapshotStage::Probe => match outcome {
                Ok(_) => exists|e: SnapshotError|
                    (e matches SnapshotError::Collision(name) && name@ == m.name)
                        && #[trigger] fails(m, n, action, e),
                Err(error) => if error.says_not_found() {
                    n == m.at(SnapshotStage::OpenKey) && (action matches SnapshotAction::OpenKey {
                        subkey,
                    } && subkey@ == request.subkey@)
                } else {
                    fails(m, n, action, SnapshotError::StorageError(error))
                },
            },
            SnapshotStage::RemovePartial => match outcome {
                Ok(_) => fails(
                    SnapshotModel { save_failure: None, ..m },
                    n,
                    action,
                    SnapshotError::RegistryError(m.save_failure->0),
                ),
                Err(cleanup) => exists|e: SnapshotError|
                    (e matches SnapshotError::SaveCleanupFailed { save_error, cleanup_error }
                        && save_error@ == m.save_failure->0.text() && cleanup_error@
                        == cleanup.text()) && #[trigger] fails(
                        SnapshotModel { save_failure: None, ..m },
                        n,
                        action,
                        e,
                    ),
            },
            SnapshotStage::RemoveSaved => match outcome {
                Ok(_) => fails(m, n, action, m.failure->0),
                Err(cleanup) => exists|e: SnapshotError|
                    (e matches SnapshotError::PostSaveCleanupFailed {
                        operation_error,
                        cleanup_error,
                    } && operation_error@ == m.failure->0.text() && cleanup_error@
                        == cleanup.text()) && #[trigger] fails(m, n, action, e),
            },
            SnapshotStage::CreateMetadata => match outcome {
                Ok(_) => n == m.at(SnapshotStage::WriteMetadata) && (
                action matches SnapshotAction::WriteMetadata { metadata } && metadata.says(
                    m.metadata->0,
                ) && describes_snapshot(request, m, metadata)),
                Err(e) => n == (SnapshotModel {
                    stage: SnapshotStage::UndoHive,
                    failure: Some(SnapshotError::StorageError(e)),
                    cleanup_errors: Seq::empty(),
                    ..m
                }) && action is DeleteHive,
            },
            SnapshotStage::UndoMetadata => n == (SnapshotModel {
                stage: SnapshotStage::UndoHive,
                cleanup_errors: with_outcome(m.cleanup_errors, "metadata: "@, outcome),
                ..m
            }) && action is DeleteHive,
            SnapshotStage::UndoHive => {
                let errors = with_outcome(m.cleanup_errors, "hive: "@, outcome);
                let cleaned = SnapshotModel { cleanup_errors: errors, ..m };
                if errors.len() == 0 {
                    fails(cleaned, n, action, m.failure->0)
                } else {
                    exists|e: SnapshotError|
                        (e matches SnapshotError::CleanupFailed { metadata_error, cleanup_error }
                            && metadata_error@ == m.failure->0.text() && cleanup_error@ == joined(
                            errors,
                            "; "@,
                        )) && #[trigger] fails(cleaned, n, action, e)
                }
            },
            SnapshotStage::DiscardMetadata => n == (SnapshotModel {
                stage: SnapshotStage::DiscardHive,
                cleanup_errors: with_outcome(m.cleanup_errors, "metadata: "@, outcome),
                ..m
            }) && action is DeleteHive,
            _ => {
                let errors = with_outcome(m.cleanup_errors, "hive: "@, outcome);
                if errors.len() == 0 {
                    done(n, action, Err(SnapshotError::SecurityError(m.restore_failure->0)))
                } else {
                    n.stage is Finished && (action matches SnapshotAction::Finish(
                        Err(
                            SnapshotError::PrivilegeRestoreCleanupFailed {
                                restore_error,
                                cleanup_errors,
                            },
                        ),
                    ) && restore_error@ == m.restore_failure->0.text() && cleanup_errors@ == joined(
                        errors,
                        "; "@,
                    ))
                }
            },
        },
        SnapshotEvent::Privileged(Err(e)) => done(n, action, Err(SnapshotError::SecurityError(e))),
        SnapshotEvent::Privileged(Ok(seed)) => {
            let name = snapshot_name(seed, request.sid@);
            let named = SnapshotModel { seed: Some(seed), name: name, ..m };
            if is_storage_component(name) {
                n == named.at(SnapshotStage::Probe) && (action matches SnapshotAction::Probe {
                    name: p,
                } && p@ == name)
            } else {
                exists|e: SnapshotError|
                    (e matches SnapshotError::StorageError(StorageError::InvalidComponent(c)) && c@
                        == name) && #[trigger] fails(named, n, action, e)
            }
        },
        SnapshotEvent::Registry(outcome) => if m.stage is OpenKey {
            match outcome {
                Ok(_) => n == m.at(SnapshotStage::Save) && (action matches SnapshotAction::Save {
                    path,
                } && path@ == path_join(request.directory@, m.name)),
                Err(e) => fails(m, n, action, SnapshotError::RegistryError(e)),
            }
        } else {
            match outcome {
                Ok(_) => n == m.at(SnapshotStage::OpenArtifact) && (action matches
                    SnapshotAction::OpenArtifact { name } && name@ == m.name),
                Err(e) => n == (SnapshotModel {
                    stage: SnapshotStage::RemovePartial,
                    save_failure: Some(e),
                    ..m
                }) && (action matches SnapshotAction::Remove { name } && name@ == m.name),
            }
        },
        SnapshotEvent::Artifact(outcome) => match outcome {
            Ok(identity) => n == (SnapshotModel {
                stage: SnapshotStage::Hash,
                identity: Some(identity),
                ..m
            }) && action == (SnapshotAction::ReadArtifact { max: HASH_BUFFER_BYTES }),
            Err(e) => removes_saved(m, n, action, e),
        },
        SnapshotEvent::Chunk(outcome) => match outcome {
            Err(e) => removes_saved(m, n, action, e),
            Ok(bytes) => if bytes@.len() > 0 {
                n == (SnapshotModel { hashed: m.hashed + bytes@, ..m }) && action == (
                SnapshotAction::ReadArtifact { max: HASH_BUFFER_BYTES })
            } else {
                &&& n.metadata is Some
                &&& describes_snapshot(request, m, n.metadata->0)
                &&& n.stage is CreateMetadata
                &&& n == (SnapshotModel {
                    stage: SnapshotStage::CreateMetadata,
                    metadata: n.metadata,
                    ..m
                })
                &&& action matches SnapshotAction::CreateMetadata { name } && name@ == m.name
                    + ".json"@
            },
        },
        SnapshotEvent::Written(outcome) => match outcome {
            Ok(_) => n == m.at(SnapshotStage::RestorePrivileges) && action is RestorePrivileges,
            Err(reason) => n == (SnapshotModel {
                stage: SnapshotStage::UndoMetadata,
                failure: Some(SnapshotError::IoError(reason)),
                cleanup_errors: Seq::empty(),
                ..m
            }) && action is RollBackMetadata,
        },
        SnapshotEvent::Restored(outcome) => match (m.failure, outcome) {
            (None, Ok(_)) => done(n, action, Ok(m.metadata->0)),
            (Some(e), Ok(_)) => done(n, action, Err(e)),
            (Some(e), Err(restore)) => n.stage is Finished && (action matches
                SnapshotAction::Finish(
                Err(
                    SnapshotError::OperationAndPrivilegeRestoreFailed {
                        operation_error,
                        restore_error,
                    },
                ),
            ) && operation_error@ == e.text() && restore_error@ == restore.text()),
            (None, Err(restore)) => n == (SnapshotModel {
                stage: SnapshotStage::DiscardMetadata,
                restore_failure: Some(restore),
                cleanup_errors: Seq::empty(),
                ..m
            }) && action is RollBackMetadata,
        },
    }
}

/// Removes a saved file that could not be validated.
pub open spec fn removes_saved(
    m: SnapshotModel,
    n: SnapshotModel,
    action: SnapshotAction,
    e: SnapshotError,
) -> bool {
    n == (SnapshotModel { stage: SnapshotStage::RemoveSaved, failure: Some(e), ..m }) && (
    action matches SnapshotAction::Remove { name } && name@ == m.name)
}

fn push_outcome(errors: &mut Vec<String>, label: &str, outcome: Result<(), StorageError>)
    ensures
        texts(final(errors)@) == with_outcome(texts(old(errors)@), label@, outcome),
{
    match outcome {
        Ok(()) => {},
        Err(e) => {
            let reason = e.message();
            let text = cat2(label, reason.as_str());
            errors.push(text);
            assert(texts(errors@) =~= texts(old(errors)@).push(text@));
        },
    }
}

impl SnapshotRun {
    /// What holds between steps.
    pub open spec fn inv(self) -> bool {
        let stage = self.stage;
        &&& stage is Probe || stage is OpenKey || stage is Save || stage is OpenArtifact
            || stage is Hash || self.metadata is Some ==> is_well_named(self.request, self@)
        &&& stage is Hash ==> self.identity is Some
        &&& stage is CreateMetadata || stage is WriteMetadata || stage is DiscardMetadata
            || stage is DiscardHive || stage is UndoMetadata || stage is UndoHive
            ==> self.metadata is Some
        &&& stage is RemovePartial ==> self.save_failure is Some
        &&& stage is RemoveSaved || stage is UndoMetadata || stage is UndoHive
            ==> self.failure is Some
        &&& stage is RestorePrivileges ==> (self.failure is Some || self.metadata is Some)
        &&& stage is DiscardMetadata || stage is DiscardHive ==> self.restore_failure is Some
        &&& !(stage is RemoveSaved || stage is UndoMetadata || stage is UndoHive
            || stage is RestorePrivileges || stage is Finished) ==> self.failure is None
        &&& self.metadata is None && self.failure is None && !(stage is Finished)
            ==> hashed_bytes(self.hasher) == self.content@
        &&& self.metadata matches Some(metadata) ==> describes_snapshot(
            self.request,
            self@,
            metadata,
        )
        &&& !(stage is CreateMetadata || stage is WriteMetadata || stage is DiscardMetadata
            || stage is DiscardHive || stage is UndoMetadata || stage is UndoHive
            || stage is RestorePrivileges || stage is Finished) ==> self.metadata is None
    }

    /// The taking of a snapshot, which starts with the storage lock.
    fn new(request: SnapshotRequest) -> (r: SnapshotRun)
        ensures
            r.inv(),
            r.request == request,
            r.stage is Lock,
            r@.hashed == Seq::<u8>::empty(),
    {
        SnapshotRun {
            request: request,
            stage: SnapshotStage::Lock,
            seed: None,
            name: String::new(),
            identity: None,
            hasher: new_hasher(),
            content: Ghost(Seq::empty()),
            metadata: None,
            failure: None,
            save_failure: None,
            restore_failure: None,
            cleanup_errors: Vec::new(),
        }
    }

    fn fail(&mut self, e: SnapshotError) -> (r: SnapshotAction)
        ensures
            final(self).inv(),
            final(self).request == old(self).request,
            fails(old(self)@, final(self)@, r, e),
    {
        self.failure = Some(e);
        self.metadata = None;
        self.stage = SnapshotStage::RestorePrivileges;
        SnapshotAction::RestorePrivileges
    }

    fn remove_saved(&mut self, e: SnapshotError) -> (r: SnapshotAction)
        requires
            old(self).metadata is None,
        ensures
            final(self).inv(),
            final(self).request == old(self).request,
            removes_saved(old(self)@, final(self)@, r, e),
    {
        self.failure = Some(e);
        self.stage = SnapshotStage::RemoveSaved;
        SnapshotAction::Remove { name: owned(self.name.as_str()) }
    }

    fn finish(&mut self, result: Result<SnapshotMetadata, SnapshotError>) -> (r: SnapshotAction)
        requires
            old(self).metadata matches Some(metadata) ==> is_well_named(
                old(self).request,
                old(self)@,
            ) && describes_snapshot(old(self).request, old(self)@, metadata),
        ensures
            final(self).inv(),
            final(self).request == old(self).request,
            done(final(self)@, r, result),
    {
        self.stage = SnapshotStage::Finished;
        SnapshotAction::Finish(result)
    }

    fn step_storage(&mut self, outcome: Result<(), StorageError>) -> (r: SnapshotAction)
        requires
            old(self).inv(),
            old(self).stage.expects(SnapshotEvent::Storage(outcome)),
        ensures
            final(self).inv(),
            final(self).request == old(self).request,
            snapshot_follows(
                old(self).request,
                old(self)@,
                SnapshotEvent::Storage(outcome),
                final(self)@,
                r,
            ),
    {
        match self.stage {
            SnapshotStage::Lock => match outcome {
                Ok(()) => {
                    self.stage = SnapshotStage::Privileges;
                    SnapshotAction::AcquirePrivileges {
                        privileges: (SE_BACKUP_NAME, SE_RESTORE_NAME),
                    }
                },
                Err(e) => self.finish(Err(SnapshotError::StorageError(e))),
            },
            SnapshotStage::Probe => match outcome {
                Ok(()) => {
                    let e = SnapshotError::Collision(owned(self.name.as_str()));
                    self.fail(e)
                },
                Err(error) => {
                    if error.is_not_found() {
                        self.stage = SnapshotStage::OpenKey;
                        SnapshotAction::OpenKey { subkey: owned(self.request.subkey.as_str()) }
                    } else {
                        self.fail(SnapshotError::StorageError(error))
                    }
                },
            },
            SnapshotStage::RemovePartial => {
                let save = self.save_failure.take().unwrap();
                match outcome {
                    Ok(()) => self.fail(SnapshotError::RegistryError(save)),
                    Err(cleanup) => self.fail(
                        SnapshotError::SaveCleanupFailed {
                            save_error: save.message(),
                            cleanup_error: cleanup.message(),
                        },
                    ),
                }
            },
            SnapshotStage::RemoveSaved => {
                let ghost m = self@;
                let operation = self.failure.take().unwrap();
                let ghost here = self@;
                match outcome {
                    Ok(()) => {
                        let r = self.fail(operation);
                        assert(fails(m, self@, r, operation));
                        r
                    },
                    Err(cleanup) => {
                        let e = SnapshotError::PostSaveCleanupFailed {
                            operation_error: operation.message(),
                            cleanup_error: cleanup.message(),
                        };
                        let r = self.fail(e);
                        assert(fails(m, self@, r, e));
                        r
                    },
                }
            },
            SnapshotStage::CreateMetadata => match outcome {
                Ok(()) => {
                    self.stage = SnapshotStage::WriteMetadata;
                    SnapshotAction::WriteMetadata { metadata: self.metadata.as_ref().unwrap().copy() }
                },
                Err(e) => {
                    self.failure = Some(SnapshotError::StorageError(e));
                    self.cleanup_errors = Vec::new();
                    assert(texts(self.cleanup_errors@) =~= Seq::<Seq<char>>::empty());
                    self.stage = SnapshotStage::UndoHive;
                    SnapshotAction::DeleteHive
                },
            },
            SnapshotStage::UndoMetadata => {
                push_outcome(&mut self.cleanup_errors, "metadata: ", outcome);
                self.stage = SnapshotStage::UndoHive;
                SnapshotAction::DeleteHive
            },
            SnapshotStage::UndoHive => {
                let ghost m = self@;
                push_outcome(&mut self.cleanup_errors, "hive: ", outcome);
                let ghost cleaned = self@;
                let operation = self.failure.take().unwrap();
                if self.cleanup_errors.len() == 0 {
                    let r = self.fail(operation);
                    assert(fails(cleaned, self@, r, operation));
                    r
                } else {
                    let errors = join(&self.cleanup_errors, "; ");
                    let e = SnapshotError::CleanupFailed {
                        metadata_error: operation.message(),
                        cleanup_error: errors,
                    };
                    let r = self.fail(e);
                    assert(fails(cleaned, self@, r, e));
                    r
                }
            },
            SnapshotStage::DiscardMetadata => {
                push_outcome(&mut self.cleanup_errors, "metadata: ", outcome);
                self.stage = SnapshotStage::DiscardHive;
                SnapshotAction::DeleteHive
            },
            _ => {
                push_outcome(&mut self.cleanup_errors, "hive: ", outcome);
                let restore = self.restore_failure.take().unwrap();
                if self.cleanup_errors.len() == 0 {
                    self.finish(Err(SnapshotError::SecurityError(restore)))
                } else {
                    let errors = join(&self.cleanup_errors, "; ");
                    self.finish(
                        Err(
                            SnapshotError::PrivilegeRestoreCleanupFailed {
                                restore_error: restore.message(),
                                cleanup_errors: errors,
                            },
                        ),
                    )
                }
            },
        }
    }

    /// The metadata of what was saved and read back.
    fn make_metadata(&mut self) -> (r: SnapshotMetadata)
        requires
            old(self).seed is Some,
            old(self).identity is Some,
            hashed_bytes(old(self).hasher) == old(self).content@,
        ensures
            describes_snapshot(old(self).request, old(self)@, r),
            final(self).request == old(self).request,
            final(self)@ == old(self)@,
            final(self).metadata == old(self).metadata,
    {
        let mut hasher = new_hasher();
        std::mem::swap(&mut hasher, &mut self.hasher);
        let digest = finish_text(hasher);
        let id = match &self.seed {
            Some(seed) => make_id(seed),
            None => String::new(),
        };
        let at = match &self.seed {
            Some(seed) => seed.stamp.at,
            None => UtcTime { seconds: 0, nanos: 0 },
        };
        let identity = self.identity.unwrap();
        SnapshotMetadata {
            id: id,
            timestamp: at,
            sid: owned(self.request.sid.as_str()),
            profile_path: owned(self.request.profile_path.as_str()),
            registry_key_path: cat2("HKLM\\", self.request.subkey.as_str()),
            snapshot_file_name: owned(self.name.as_str()),
            sha256: digest,
            file_volume_serial: identity.volume_serial,
            file_index: identity.file_index,
            reason: owned(self.request.reason.as_str()),
            protected_artifact: true,
        }
    }

    fn step_restored(&mut self, outcome: Result<(), SecurityError>) -> (r: SnapshotAction)
        requires
            old(self).inv(),
            old(self).stage is RestorePrivileges,
        ensures
            final(self).inv(),
            final(self).request == old(self).request,
            snapshot_follows(
                old(self).request,
                old(self)@,
                SnapshotEvent::Restored(outcome),
                final(self)@,
                r,
            ),
    {
        if self.failure.is_some() {
            let operation = self.failure.take().unwrap();
            match outcome {
                Ok(()) => self.finish(Err(operation)),
                Err(restore) => self.finish(
                    Err(
                        SnapshotError::OperationAndPrivilegeRestoreFailed {
                            operation_error: operation.message(),
                            restore_error: restore.message(),
                        },
                    ),
                ),
            }
        } else {
            match outcome {
                Ok(()) => {
                    let metadata = self.metadata.take().unwrap();
                    self.finish(Ok(metadata))
                },
                Err(restore) => {
                    self.restore_failure = Some(restore);
                    self.cleanup_errors = Vec::new();
                    assert(texts(self.cleanup_errors@) =~= Seq::<Seq<char>>::empty());
                    self.stage = SnapshotStage::DiscardMetadata;
                    SnapshotAction::RollBackMetadata
                },
            }
        }
    }

    /// Takes the outcome of the last action and decides the next.
    pub fn step(&mut self, event: SnapshotEvent) -> (r: SnapshotAction)
        requires
            old(self).inv(),
            old(self).stage.expects(event),
        ensures
            final(self).inv(),
            final(self).request == old(self).request,
            snapshot_follows(old(self).request, old(self)@, event, final(self)@, r),
            r matches SnapshotAction::Finish(Ok(metadata)) ==> Some(metadata) == old(self).metadata
                && old(self).failure is None && is_well_named(old(self).request, old(self)@)
                && describes_snapshot(old(self).request, old(self)@, metadata),
    {
        match event {
            SnapshotEvent::Storage(outcome) => self.step_storage(outcome),
            SnapshotEvent::Privileged(Err(e)) => self.finish(Err(SnapshotError::SecurityError(e))),
            SnapshotEvent::Privileged(Ok(seed)) => {
                let name = make_name(&seed, self.request.sid.as_str());
                self.seed = Some(seed);
                self.name = owned(name.as_str());
                let ghost named = self@;
                match child_path(self.request.directory.as_str(), name.as_str()) {
                    Ok(_) => {
                        self.stage = SnapshotStage::Probe;
                        SnapshotAction::Probe { name: name }
                    },
                    Err(e) => {
                        let error = SnapshotError::StorageError(e);
                        let r = self.fail(error);
                        assert(named =~= (SnapshotModel {
                            seed: Some(seed),
                            name: snapshot_name(seed, old(self).request.sid@),
                            ..old(self)@
                        }));
                        assert(fails(named, self@, r, error));
                        r
                    },
                }
            },
            SnapshotEvent::Registry(outcome) => match self.stage {
                SnapshotStage::OpenKey => match outcome {
                    Ok(()) => {
                        let path = crate::paths::join_path(
                            self.request.directory.as_str(),
                            self.name.as_str(),
                        );
                        self.stage = SnapshotStage::Save;
                        SnapshotAction::Save { path: path }
                    },
                    Err(e) => self.fail(SnapshotError::RegistryError(e)),
                },
                _ => match outcome {
                    Ok(()) => {
                        self.stage = SnapshotStage::OpenArtifact;
                        SnapshotAction::OpenArtifact { name: owned(self.name.as_str()) }
                    },
                    Err(e) => {
                        self.save_failure = Some(e);
                        self.stage = SnapshotStage::RemovePartial;
                        SnapshotAction::Remove { name: owned(self.name.as_str()) }
                    },
                },
            },
            SnapshotEvent::Artifact(Ok(identity)) => {
                self.identity = Some(identity);
                self.stage = SnapshotStage::Hash;
                SnapshotAction::ReadArtifact { max: HASH_BUFFER_BYTES }
            },
            SnapshotEvent::Artifact(Err(e)) => self.remove_saved(e),
            SnapshotEvent::Chunk(Err(e)) => self.remove_saved(e),
            SnapshotEvent::Chunk(Ok(bytes)) => {
                if bytes.len() > 0 {
                    absorb(&mut self.hasher, bytes.as_slice());
                    proof {
                        self.content@ = self.content@ + bytes@;
                    }
                    SnapshotAction::ReadArtifact { max: HASH_BUFFER_BYTES }
                } else {
                    let metadata = self.make_metadata();
                    self.metadata = Some(metadata);
                    self.stage = SnapshotStage::CreateMetadata;
                    SnapshotAction::CreateMetadata { name: cat2(self.name.as_str(), ".json") }
                }
            },
            SnapshotEvent::Written(Ok(())) => {
                self.stage = SnapshotStage::RestorePrivileges;
                SnapshotAction::RestorePrivileges
            },
            SnapshotEvent::Written(Err(reason)) => {
                self.failure = Some(SnapshotError::IoError(reason));
                self.cleanup_errors = Vec::new();
                assert(texts(self.cleanup_errors@) =~= Seq::<Seq<char>>::empty());
                self.stage = SnapshotStage::UndoMetadata;
                SnapshotAction::RollBackMetadata
            },
            SnapshotEvent::Restored(outcome) => self.step_restored(outcome),
        }
    }
}

// ---------------------------------------------------------------------------
// The inventory
// ---------------------------------------------------------------------------

/// What was found of the hive that an inventory entry names.
pub struct HiveObservation {
    /// The identity of the hive, or why it could not be opened or read.
    pub identity: Result<FileIdentity, String>,
    /// What the hive holds, or why it could not be read.
    pub content: Result<Vec<u8>, String>,
}

/// Whether an inventory entry and its hive belong together.
pub open spec fn is_sound_entry(name: Seq<char>, m: SnapshotMetadata, h: HiveObservation) -> bool {
    &&& has_suffix(m.snapshot_file_name@, ".hiv"@)
    &&& name == m.snapshot_file_name@ + ".json"@
    &&& is_storage_component(m.snapshot_file_name@)
    &&& h.identity == Result::<FileIdentity, String>::Ok(
        FileIdentity { volume_serial: m.file_volume_serial, file_index: m.file_index },
    )
    &&& h.content is Ok
    &&& sha256_text(h.content->Ok_0@) == m.sha256@
}

/// Why an inventory entry is refused, by the first check that it fails.
pub open spec fn entry_fault(name: Seq<char>, m: SnapshotMetadata, h: HiveObservation) -> Seq<char> {
    if !has_suffix(m.snapshot_file_name@, ".hiv"@) {
        "snapshot file name must be a .hiv component"@
    } else if name != m.snapshot_file_name@ + ".json"@ {
        "metadata name does not match associated hive "@ + m.snapshot_file_name@
    } else if !is_storage_component(m.snapshot_file_name@) {
        "invalid storage component: "@ + m.snapshot_file_name@
    } else if h.identity is Err {
        h.identity->Err_0@
    } else if h.identity != Result::<FileIdentity, String>::Ok(
        FileIdentity { volume_serial: m.file_volume_serial, file_index: m.file_index },
    ) {
        "associated hive identity does not match metadata"@
    } else if h.content is Err {
        h.content->Err_0@
    } else {
        "associated hive SHA-256 does not match metadata"@
    }
}

fn invalid_inventory(metadata_file: &str, reason: &str) -> (r: SnapshotError)
    ensures
        r matches SnapshotError::InvalidInventory { metadata_file: f, reason: t } && f@
            == metadata_file@ && t@ == reason@,
{
    SnapshotError::InvalidInventory { metadata_file: owned(metadata_file), reason: owned(reason) }
}

/// Checks that an inventory entry and its hive belong together.
pub fn validate_inventory_entry(
    metadata_file: &str,
    metadata: &SnapshotMetadata,
    hive: &HiveObservation,
) -> (r: Result<(), SnapshotError>)
    ensures
        r is Ok <==> is_sound_entry(metadata_file@, *metadata, *hive),
        r matches Err(e) ==> (e matches SnapshotError::InvalidInventory { metadata_file: f, reason }
            && f@ == metadata_file@ && reason@ == entry_fault(metadata_file@, *metadata, *hive)),
{
    if !ends_with(metadata.snapshot_file_name.as_str(), ".hiv") {
        return Err(invalid_inventory(metadata_file, "snapshot file name must be a .hiv component"));
    }
    let expected = cat2(metadata.snapshot_file_name.as_str(), ".json");
    if !str_eq(metadata_file, expected.as_str()) {
        let reason = cat2(
            "metadata name does not match associated hive ",
            metadata.snapshot_file_name.as_str(),
        );
        return Err(invalid_inventory(metadata_file, reason.as_str()));
    }
    match crate::storage::validate_component(metadata.snapshot_file_name.as_str()) {
        Ok(()) => {},
        Err(e) => {
            let reason = e.message();
            return Err(invalid_inventory(metadata_file, reason.as_str()));
        },
    }
    let identity = match &hive.identity {
        Ok(identity) => *identity,
        Err(reason) => {
            return Err(invalid_inventory(metadata_file, reason.as_str()));
        },
    };
    if identity.volume_serial != metadata.file_volume_serial || identity.file_index
        != metadata.file_index {
        return Err(
            invalid_inventory(metadata_file, "associated hive identity does not match metadata"),
        );
    }
    match &hive.content {
        Ok(bytes) => {
            let digest = sha256_hex(bytes.as_slice());
            if !str_eq(digest.as_str(), metadata.sha256.as_str()) {
                return Err(
                    invalid_inventory(
                        metadata_file,
                        "associated hive SHA-256 does not match metadata",
                    ),
                );
            }
        },
        Err(reason) => {
            return Err(invalid_inventory(metadata_file, reason.as_str()));
        },
    }
    Ok(())
}

/// Whether a file of the snapshot directory is an inventory entry.
pub fn is_inventory_name(name: &str) -> (r: bool)
    ensures
        r == has_suffix(name@, ".json"@),
{
    ends_with(name, ".json")
}

/// Whether snapshots stand latest first.
pub open spec fn latest_first(list: Seq<SnapshotMetadata>) -> bool {
    forall|i: int, j: int|
        #![trigger list[i], list[j]]
        0 <= i < j < list.len() ==> !is_before(list[i].timestamp, list[j].timestamp)
}

/// How many leading snapshots of a list are not earlier than a time.
pub open spec fn insertion_point(list: Seq<SnapshotMetadata>, time: UtcTime) -> int
    decreases list.len(),
{
    if list.len() == 0 || is_before(list[0].timestamp, time) {
        0
    } else {
        1 + insertion_point(list.skip(1), time)
    }
}

/// Snapshots with the latest first; those of one time keep their order.
pub open spec fn ordered(list: Seq<SnapshotMetadata>) -> Seq<SnapshotMetadata>
    decreases list.len(),
{
    if list.len() == 0 {
        Seq::empty()
    } else {
        let rest = ordered(list.drop_last());
        rest.insert(insertion_point(rest, list.last().timestamp), list.last())
    }
}

/// Puts a snapshot into a list that stands latest first; it goes behind those that
/// are not earlier.
fn insert_latest_first(list: &mut Vec<SnapshotMetadata>, item: SnapshotMetadata)
    requires
        latest_first(old(list)@),
    ensures
        latest_first(final(list)@),
        0 <= insertion_point(old(list)@, item.timestamp) <= old(list)@.len(),
        final(list)@ == old(list)@.insert(insertion_point(old(list)@, item.timestamp), item),
{
    let ghost given = list@;
    let mut at: usize = 0;
    assert(given.skip(0) =~= given);
    while at < list.len() && !before(list[at].timestamp, item.timestamp)
        invariant
            at <= list@.len(),
            list@ == given,
            insertion_point(given, item.timestamp) == at + insertion_point(
                given.skip(at as int),
                item.timestamp,
            ),
            forall|k: int|
                0 <= k < at ==> !is_before((#[trigger] given[k]).timestamp, item.timestamp),
        decreases list.len() - at,
    {
        assert(given.skip(at as int).skip(1) =~= given.skip(at + 1));
        at += 1;
    }
    assert(insertion_point(given, item.timestamp) == at);
    proof {
        assert forall|k: int| at <= k < given.len() implies is_before(
            (#[trigger] given[k]).timestamp,
            item.timestamp,
        ) by {
            assert(!is_before(given[at as int].timestamp, given[k].timestamp) || k == at);
        }
    }
    list.insert(at, item);
    proof {
        assert(list@ == given.insert(at as int, item));
        assert forall|i: int, j: int|
            #![trigger list@[i], list@[j]]
            0 <= i < j < list@.len() implies !is_before(list@[i].timestamp, list@[j].timestamp) by {
            let i0 = if i < at { i } else { i - 1 };
            let j0 = if j < at { j } else { j - 1 };
            if i != at {
                assert(list@[i] == given[i0]);
            }
            if j != at {
                assert(list@[j] == given[j0]);
            }
        }
    }
}

/// A file of the snapshot directory. What stands behind its name counts only where it
/// is an inventory entry.
pub struct InventoryItem {
    /// The name; nothing where it is no text.
    pub name: Option<String>,
    /// What the entry says, or why it could not be read.
    pub metadata: Result<SnapshotMetadata, SnapshotError>,
    pub hive: HiveObservation,
}

impl InventoryItem {
    /// Whether the file is an inventory entry.
    pub open spec fn is_entry(self) -> bool {
        self.name matches Some(name) && has_suffix(name@, ".json"@)
    }

    /// Whether the file does not keep the inventory from being listed.
    pub open spec fn is_sound(self) -> bool {
        self.is_entry() ==> (self.metadata matches Ok(m) && is_sound_entry(
            self.name->0@,
            m,
            self.hive,
        ))
    }

    /// Whether an error is that of an entry that is not sound.
    pub open spec fn refuses(self, e: SnapshotError) -> bool {
        match self.metadata {
            Err(unread) => e == unread,
            Ok(m) => e matches SnapshotError::InvalidInventory { metadata_file, reason }
                && metadata_file@ == self.name->0@ && reason@ == entry_fault(
                self.name->0@,
                m,
                self.hive,
            ),
        }
    }
}

/// The snapshots that the entries of a directory stand for.
pub open spec fn listed(items: Seq<InventoryItem>) -> Seq<SnapshotMetadata>
    decreases items.len(),
{
    if items.len() == 0 {
        Seq::empty()
    } else {
        let before = listed(items.drop_last());
        if items.last().is_entry() {
            before.push(items.last().metadata->Ok_0)
        } else {
            before
        }
    }
}

pub open spec fn all_sound(items: Seq<InventoryItem>) -> bool {
    forall|i: int| 0 <= i < items.len() ==> (#[trigger] items[i]).is_sound()
}

/// Whether the first item that is not sound stands at a place.
pub open spec fn first_unsound(items: Seq<InventoryItem>, at: int) -> bool {
    0 <= at < items.len() && !items[at].is_sound() && all_sound(items.take(at))
}

/// The outcome of listing the snapshots: all of them, the latest first, or the error of
/// the first entry that is not sound.
pub open spec fn listing_outcome(
    items: Seq<InventoryItem>,
    r: Result<Vec<SnapshotMetadata>, SnapshotError>,
) -> bool {
    match r {
        Ok(list) => all_sound(items) && list@ == ordered(listed(items)) && latest_first(list@),
        Err(e) => exists|at: int| #[trigger] first_unsound(items, at) && items[at].refuses(e),
    }
}

/// The snapshots: how one is taken, and what a directory of them holds.
pub struct SnapshotEngine;

impl SnapshotEngine {
    /// Starts the taking of a snapshot, whose first step is the storage lock.
    pub fn create_registry_snapshot(request: SnapshotRequest) -> (r: SnapshotRun)
        ensures
            r.inv(),
            r.request == request,
            r.stage is Lock,
            r@.hashed == Seq::<u8>::empty(),
    {
        SnapshotRun::new(request)
    }

    /// The snapshots of a directory. One entry that does not belong to its hive keeps
    /// the whole inventory from being listed.
    pub fn list_snapshots(found: Result<Vec<InventoryItem>, SnapshotError>) -> (r: Result<
        Vec<SnapshotMetadata>,
        SnapshotError,
    >)
        ensures
            match found {
                Err(e) => r == Result::<Vec<SnapshotMetadata>, SnapshotError>::Err(e),
                Ok(items) => listing_outcome(items@, r),
            },
    {
        let mut rest: Vec<InventoryItem> = match found {
            Ok(items) => items,
            Err(e) => {
                return Err(e);
            },
        };
        let ghost all = rest@;
        let ghost mut done: int = 0;
        let mut results: Vec<SnapshotMetadata> = Vec::new();
        assert(all.skip(0) =~= all);
        assert(all.take(0) =~= Seq::<InventoryItem>::empty());
        while rest.len() > 0
            invariant
                found matches Ok(items) && items@ == all,
                0 <= done <= all.len(),
                rest@ == all.skip(done),
                all_sound(all.take(done)),
                results@ == ordered(listed(all.take(done))),
                latest_first(results@),
            decreases rest.len(),
        {
            let item = rest.remove(0);
            assert(item == all[done]);
            assert(rest@ =~= all.skip(done + 1));
            assert(all.take(done + 1).drop_last() =~= all.take(done));
            assert(all.take(done + 1).last() == item);
            let entry = match &item.name {
                Some(name) => is_inventory_name(name.as_str()),
                None => false,
            };
            if entry {
                match item.metadata {
                    Err(e) => {
                        assert(first_unsound(all, done) && all[done].refuses(e));
                        return Err(e);
                    },
                    Ok(metadata) => {
                        let name = match &item.name {
                            Some(name) => owned(name.as_str()),
                            None => String::new(),
                        };
                        match validate_inventory_entry(name.as_str(), &metadata, &item.hive) {
                            Err(e) => {
                                assert(first_unsound(all, done) && all[done].refuses(e));
                                return Err(e);
                            },
                            Ok(()) => {},
                        }
                        let ghost so_far = listed(all.take(done));
                        insert_latest_first(&mut results, metadata);
                        assert(listed(all.take(done + 1)) =~= so_far.push(metadata));
                        assert(so_far.push(metadata).drop_last() =~= so_far);
                    },
                }
            }
            proof {
                assert forall|i: int| 0 <= i < all.take(done + 1).len() implies (
                #[trigger] all.take(done + 1)[i]).is_sound() by {
                    if i < done {
                        assert(all.take(done)[i].is_sound());
                    }
                }
                done = done + 1;
            }
        }
        assert(all.take(done) =~= all);
        Ok(results)
    }
}

/// The order of a list of snapshots loses none of them and adds none.
pub proof fn ordering_keeps_every_snapshot(list: Seq<SnapshotMetadata>)
    ensures
        ordered(list).to_multiset() == list.to_multiset(),
        ordered(list).len() == list.len(),
    decreases list.len(),
{
    list.to_multiset_ensures();
    ordered(list).to_multiset_ensures();
    if list.len() > 0 {
        let rest = ordered(list.drop_last());
        ordering_keeps_every_snapshot(list.drop_last());
        let at = insertion_point(rest, list.last().timestamp);
        lemma_insertion_point(rest, list.last().timestamp);
        rest.to_multiset_ensures();
        rest.insert(at, list.last()).to_multiset_ensures();
        assert(rest.insert(at, list.last()).remove(at) =~= rest);
        assert(rest.insert(at, list.last()).to_multiset() =~= rest.to_multiset().insert(
            list.last(),
        ));
        assert(list.drop_last().push(list.last()) =~= list);
        list.drop_last().to_multiset_ensures();
        assert(list.to_multiset() =~= list.drop_last().to_multiset().insert(list.last()));
    } else {
        assert(ordered(list) =~= list);
    }
}

proof fn lemma_insertion_point(list: Seq<SnapshotMetadata>, time: UtcTime)
    ensures
        0 <= insertion_point(list, time) <= list.len(),
    decreases list.len(),
{
    if list.len() > 0 {
        lemma_insertion_point(list.skip(1), time);
    }
}

/// A snapshot that was taken stands in the inventory, as long as its hive is left alone.
pub proof fn a_taken_snapshot_is_listed(
    request: SnapshotRequest,
    taken: SnapshotModel,
    metadata: SnapshotMetadata,
    hive: HiveObservation,
)
    requires
        is_well_named(request, taken),
        describes_snapshot(request, taken, metadata),
        hive.identity == Result::<FileIdentity, String>::Ok(taken.identity->0),
        hive.content matches Ok(bytes) && bytes@ == taken.hashed,
    ensures
        is_sound_entry(taken.name + ".json"@, metadata, hive),
{
    let head = "snap_"@ + taken.seed->0.stamp.text@ + "_"@ + decimal(
        taken.seed->0.process_id as nat,
    ) + "_"@ + decimal(taken.seed->0.sequence as nat) + "_"@ + with_char_replaced(
        with_char_replaced(request.sid@, '\\', '_'),
        ':',
        '_',
    );
    assert(taken.name =~= head + ".hiv"@);
    assert(taken.name.skip(head.len() as int) =~= ".hiv"@);
}

/// A directory of snapshots is listed exactly where every entry in it belongs to its hive:
/// the name, the identity and the digest that it tells are those of the hive that was found.
/// What is listed is the latest first.
pub proof fn snapshots_are_listed_only_where_all_are_sound(
    items: Seq<InventoryItem>,
    r: Result<Vec<SnapshotMetadata>, SnapshotError>,
)
    requires
        listing_outcome(items, r),
    ensures
        r is Ok ==> forall|i: int|
            0 <= i < items.len() && ((#[trigger] items[i]).name matches Some(name) && has_suffix(
                name@,
                ".json"@,
            )) ==> (items[i].metadata matches Ok(m) && items[i].name->0@ == m.snapshot_file_name@
                + ".json"@ && (items[i].hive.content matches Ok(bytes) && sha256_text(bytes@)
                == m.sha256@) && (items[i].hive.identity matches Ok(identity)
                && identity.volume_serial == m.file_volume_serial && identity.file_index
                == m.file_index)),
        r matches Ok(list) ==> forall|i: int, j: int|
            0 <= i < j < list@.len() ==> !is_before(
                (#[trigger] list@[i]).timestamp,
                (#[trigger] list@[j]).timestamp,
            ),
        r is Err ==> exists|i: int| 0 <= i < items.len() && !(#[trigger] items[i]).is_sound(),
{
    match r {
        Ok(list) => {
            assert forall|i: int| 0 <= i < items.len() implies (#[trigger] items[i]).is_sound() by {}
        },
        Err(e) => {
            let at = choose|at: int| #[trigger] first_unsound(items, at) && items[at].refuses(e);
            assert(!items[at].is_sound());
        },
    }
}

proof fn lemma_each_entry_is_listed(items: Seq<InventoryItem>, i: int)
    requires
        0 <= i < items.len(),
        items[i].is_entry(),
    ensures
        listed(items).contains(items[i].metadata->Ok_0),
    decreases items.len(),
{
    let before = listed(items.drop_last());
    if i < items.len() - 1 {
        lemma_each_entry_is_listed(items.drop_last(), i);
        let wanted = items[i].metadata->Ok_0;
        let k = choose|k: int| 0 <= k < before.len() && before[k] == wanted;
        assert(listed(items)[k] == wanted);
    } else {
        assert(listed(items)[before.len() as int] == items[i].metadata->Ok_0);
    }
}

/// Every entry of a directory that could be listed is on the list.
pub proof fn each_snapshot_is_listed(
    items: Seq<InventoryItem>,
    r: Result<Vec<SnapshotMetadata>, SnapshotError>,
    i: int,
)
    requires
        listing_outcome(items, r),
        0 <= i < items.len(),
        items[i].name matches Some(name) && has_suffix(name@, ".json"@),
    ensures
        r matches Ok(list) ==> list@.contains(items[i].metadata->Ok_0),
{
    if let Ok(list) = r {
        lemma_each_entry_is_listed(items, i);
        ordering_keeps_every_snapshot(listed(items));
        let wanted = items[i].metadata->Ok_0;
        listed(items).to_multiset_ensures();
        ordered(listed(items)).to_multiset_ensures();
        assert(listed(items).to_multiset().contains(wanted));
    }
}

} // verus!
