//! Restoring registry snapshots.
use crate::hashing::{sha256_hex, sha256_text};
use crate::paths::last_backslash;
use crate::registry::{RegistryError, ERROR_SUCCESS};
use crate::secure_fs::FileIdentity;
use crate::security::{SecurityError, SE_BACKUP_NAME, SE_RESTORE_NAME};
use crate::snapshot::{
    describes_snapshot, SnapshotError, SnapshotMetadata, SnapshotModel, SnapshotRequest,
};
use crate::storage::StorageError;
use crate::text::{
    cat2, cat4, cat5, chars_of, copy_range, dec, eq_ignore_ascii_case, owned, skip_chars,
    starts_with, str_eq,
};
use crate::text::{ascii_lower, decimal, has_prefix};
use vstd::prelude::*;

verus! {

#[derive(Debug)]
pub enum RollbackError {
    ArtifactUnavailable,
    TargetMismatch { expected: String, actual: String },
    IdentityMismatch,
    DigestMismatch,
    RegistryError(u32),
    SecurityError(SecurityError),
    OperationAndPrivilegeRestoreFailed { operation_error: String, restore_error: String },
    BaseRegError(RegistryError),
    SnapshotError(SnapshotError),
    Aggregate(String),
}

impl RollbackError {
    /// The text that describes the error.
    pub open spec fn text(self) -> Seq<char> {
        match self {
            RollbackError::ArtifactUnavailable =>
                "snapshot has no protected transactional artifact; inventory JSON cannot be restored"@,
            RollbackError::TargetMismatch { expected, actual } =>
                "snapshot target mismatch: transaction expected "@ + expected@
                + ", metadata names "@ + actual@,
            RollbackError::IdentityMismatch =>
                "snapshot handle identity no longer matches its captured identity"@,
            RollbackError::DigestMismatch =>
                "snapshot SHA-256 no longer matches its captured digest"@,
            RollbackError::RegistryError(code) =>
                "Registry restore failed with Win32 error code: "@ + decimal(code as nat),
            RollbackError::SecurityError(error) => "Security privilege error: "@ + error.text(),
            RollbackError::OperationAndPrivilegeRestoreFailed { operation_error, restore_error } =>
                "registry restore operation failed ("@ + operation_error@
                + ") and privilege restoration also failed ("@ + restore_error@ + ")"@,
            RollbackError::BaseRegError(error) => "Base registry error: "@ + error.text(),
            RollbackError::SnapshotError(error) => "Snapshot validation error: "@ + error.text(),
            RollbackError::Aggregate(reasons) => "one or more rollback steps failed: "@ + reasons@,
        }
    }

    pub fn message(&self) -> (r: String)
        ensures
            r@ == self.text(),
    {
        match self {
            RollbackError::ArtifactUnavailable => owned(
                "snapshot has no protected transactional artifact; inventory JSON cannot be restored",
            ),
            RollbackError::TargetMismatch { expected, actual } => cat4(
                "snapshot target mismatch: transaction expected ",
                expected.as_str(),
                ", metadata names ",
                actual.as_str(),
            ),
            RollbackError::IdentityMismatch => owned(
                "snapshot handle identity no longer matches its captured identity",
            ),
            RollbackError::DigestMismatch => owned(
                "snapshot SHA-256 no longer matches its captured digest",
            ),
            RollbackError::RegistryError(code) => {
                let digits = dec(*code as u64);
                cat2("Registry restore failed with Win32 error code: ", digits.as_str())
            },
            RollbackError::SecurityError(error) => {
                let reason = error.message();
                cat2("Security privilege error: ", reason.as_str())
            },
            RollbackError::OperationAndPrivilegeRestoreFailed { operation_error, restore_error } =>
            cat5(
                "registry restore operation failed (",
                operation_error.as_str(),
                ") and privilege restoration also failed (",
                restore_error.as_str(),
                ")",
            ),
            RollbackError::BaseRegError(error) => {
                let reason = error.message();
                cat2("Base registry error: ", reason.as_str())
            },
            RollbackError::SnapshotError(error) => {
                let reason = error.message();
                cat2("Snapshot validation error: ", reason.as_str())
            },
            RollbackError::Aggregate(reasons) => cat2(
                "one or more rollback steps failed: ",
                reasons.as_str(),
            ),
        }
    }
}

/// What was found of the file that a snapshot holds open.
pub struct ArtifactObservation {
    /// The identity that was captured when the snapshot was taken.
    pub captured: FileIdentity,
    /// The identity now, or why it could not be read.
    pub current: Result<FileIdentity, StorageError>,
    /// What the file holds now, or why it could not be read.
    pub content: Result<Vec<u8>, SnapshotError>,
}

/// Whether a snapshot may be restored: it is the one that is meant, its file is
/// held, and neither identity nor content has changed.
pub open spec fn is_restorable(
    m: SnapshotMetadata,
    expected: Seq<char>,
    artifact: Option<ArtifactObservation>,
) -> bool {
    &&& ascii_lower(m.registry_key_path@) == ascii_lower(expected)
    &&& artifact is Some
    &&& artifact->0.current == Result::<FileIdentity, StorageError>::Ok(artifact->0.captured)
    &&& artifact->0.captured.volume_serial == m.file_volume_serial
    &&& artifact->0.captured.file_index == m.file_index
    &&& artifact->0.content is Ok
    &&& sha256_text(artifact->0.content->Ok_0@) == m.sha256@
}

/// Why a snapshot may not be restored, by the first check that it fails.
pub open spec fn restore_refusal(
    m: SnapshotMetadata,
    expected: Seq<char>,
    artifact: Option<ArtifactObservation>,
    e: RollbackError,
) -> bool {
    if ascii_lower(m.registry_key_path@) != ascii_lower(expected) {
        e matches RollbackError::TargetMismatch { expected: x, actual } && x@ == expected && actual@
            == m.registry_key_path@
    } else if artifact is None {
        e is ArtifactUnavailable
    } else {
        let found = artifact->0;
        if found.current is Err {
            e == RollbackError::SnapshotError(SnapshotError::StorageError(found.current->Err_0))
        } else if found.current->Ok_0 != found.captured || found.captured.volume_serial
            != m.file_volume_serial || found.captured.file_index != m.file_index {
            e is IdentityMismatch
        } else if found.content is Err {
            e == RollbackError::SnapshotError(found.content->Err_0)
        } else {
            e is DigestMismatch
        }
    }
}

/// Checks a snapshot before it is restored.
pub fn restore_registry_snapshot(
    metadata: &SnapshotMetadata,
    expected_registry_key_path: &str,
    artifact: Option<ArtifactObservation>,
) -> (r: Result<(), RollbackError>)
    ensures
        match r {
            Ok(_) => is_restorable(*metadata, expected_registry_key_path@, artifact),
            Err(e) => !is_restorable(*metadata, expected_registry_key_path@, artifact)
                && restore_refusal(*metadata, expected_registry_key_path@, artifact, e),
        },
{
    if !eq_ignore_ascii_case(metadata.registry_key_path.as_str(), expected_registry_key_path) {
        return Err(
            RollbackError::TargetMismatch {
                expected: owned(expected_registry_key_path),
                actual: owned(metadata.registry_key_path.as_str()),
            },
        );
    }
    let found = match artifact {
        Some(found) => found,
        None => {
            return Err(RollbackError::ArtifactUnavailable);
        },
    };
    let current = match found.current {
        Ok(current) => current,
        Err(e) => {
            return Err(RollbackError::SnapshotError(SnapshotError::StorageError(e)));
        },
    };
    if current != found.captured || current.volume_serial != metadata.file_volume_serial
        || current.file_index != metadata.file_index {
        return Err(RollbackError::IdentityMismatch);
    }
    match found.content {
        Ok(bytes) => {
            let digest = sha256_hex(bytes.as_slice());
            if !str_eq(digest.as_str(), metadata.sha256.as_str()) {
                return Err(RollbackError::DigestMismatch);
            }
        },
        Err(e) => {
            return Err(RollbackError::SnapshotError(e));
        },
    }
    Ok(())
}

/// The parent key and the name of the key to restore, below `HKLM`.
pub open spec fn restore_target(path: Seq<char>) -> Option<(Seq<char>, Seq<char>)> {
    let subkey = path.skip(5);
    if has_prefix(path, "HKLM\\"@) && last_backslash(subkey) >= 0 {
        Some(
            (subkey.take(last_backslash(subkey)), subkey.skip(last_backslash(subkey) + 1)),
        )
    } else {
        None
    }
}

/// Splits the path of the key to restore.
pub fn split_restore_target(path: &str) -> (r: Result<(String, String), RollbackError>)
    ensures
        match r {
            Ok((parent, leaf)) => restore_target(path@) == Some((parent@, leaf@)),
            Err(e) => restore_target(path@) is None && e == RollbackError::BaseRegError(
                RegistryError::InvalidPath,
            ),
        },
{
    proof {
        reveal_strlit("HKLM\\");
    }
    if !starts_with(path, "HKLM\\") {
        return Err(RollbackError::BaseRegError(RegistryError::InvalidPath));
    }
    let subkey = skip_chars(path, 5);
    let chars = chars_of(subkey.as_str());
    let total: usize = chars.len();
    proof {
        crate::paths::lemma_last_backslash(chars@);
    }
    match crate::paths::find_last_backslash(&chars) {
        Some(at) => {
            assert(chars@.subrange(0, at as int) =~= chars@.take(at as int));
            assert(chars@.subrange(at + 1, chars@.len() as int) =~= chars@.skip(at + 1));
            Ok((copy_range(&chars, 0, at), copy_range(&chars, at + 1, total)))
        },
        None => Err(RollbackError::BaseRegError(RegistryError::InvalidPath)),
    }
}

/// What a restoration ends with once the privileges were given back.
pub open spec fn privileged_outcome(
    operation: Result<(), RollbackError>,
    restore: Result<(), SecurityError>,
    r: Result<(), RollbackError>,
) -> bool {
    match (operation, restore) {
        (Ok(_), Ok(_)) => r is Ok,
        (Err(e), Ok(_)) => r == Result::<(), RollbackError>::Err(e),
        (Ok(_), Err(e)) => r == Result::<(), RollbackError>::Err(RollbackError::SecurityError(e)),
        (Err(o), Err(e)) => r matches Err(
            RollbackError::OperationAndPrivilegeRestoreFailed { operation_error, restore_error },
        ) && operation_error@ == o.text() && restore_error@ == e.text(),
    }
}

/// The outcome of a restoration once the privileges were given back.
pub fn finish_privileged_restore(
    operation: Result<(), RollbackError>,
    restore: Result<(), SecurityError>,
) -> (r: Result<(), RollbackError>)
    ensures
        privileged_outcome(operation, restore, r),
{
    match operation {
        Ok(()) => match restore {
            Ok(()) => Ok(()),
            Err(e) => Err(RollbackError::SecurityError(e)),
        },
        Err(o) => match restore {
            Ok(()) => Err(o),
            Err(e) => Err(
                RollbackError::OperationAndPrivilegeRestoreFailed {
                    operation_error: o.message(),
                    restore_error: e.message(),
                },
            ),
        },
    }
}

// ---------------------------------------------------------------------------
// The restoration of a key
// ---------------------------------------------------------------------------

/// What the restoration of a key is waiting for.
#[derive(Debug, Clone, Copy, PartialEq, Eq, Structural)]
pub enum RestoreStage {
    RaisePrivileges,
    OpenParent,
    CreateKey,
    RestoreFile,
    RestorePrivileges,
    Finished,
}

#[derive(Debug)]
pub enum RestoreEvent {
    Privileged(Result<(), SecurityError>),
    Registry(Result<(), RegistryError>),
    /// The status of the restoration.
    Restored(u32),
}

#[derive(Debug)]
pub enum RestoreAction {
    RaisePrivileges { privileges: (&'static str, &'static str) },
    /// Open this key below `HKEY_LOCAL_MACHINE`.
    OpenParent { path: String },
    /// Open or create the key of this name below its parent.
    CreateKey { name: String },
    /// Put the hive in this file in the place of the key.
    RestoreFile { path: String },
    RestorePrivileges,
    Finish(Result<(), RollbackError>),
}

/// The restoration of one key.
#[derive(Debug)]
pub struct RestoreRun {
    pub stage: RestoreStage,
    pub parent: String,
    pub leaf: String,
    /// Where the hive of the snapshot is.
    pub hive: String,
    /// What the work under privileges came to.
    pub operation: Result<(), RollbackError>,
}

impl RestoreStage {
    pub open spec fn expects(self, event: RestoreEvent) -> bool {
        match self {
            RestoreStage::RaisePrivileges | RestoreStage::RestorePrivileges => event is Privileged,
            RestoreStage::OpenParent | RestoreStage::CreateKey => event is Registry,
            RestoreStage::RestoreFile => event is Restored,
            RestoreStage::Finished => false,
        }
    }
}

/// Gives the privileges back behind the work.
pub open spec fn gives_back(
    n: RestoreRun,
    action: RestoreAction,
    operation: Result<(), RollbackError>,
) -> bool {
    n.stage is RestorePrivileges && n.operation == operation && action is RestorePrivileges
}

/// What follows an event in the restoration of a key.
pub open spec fn restore_follows(
    m: RestoreRun,
    event: RestoreEvent,
    n: RestoreRun,
    action: RestoreAction,
) -> bool {
    match event {
        RestoreEvent::Privileged(outcome) => if m.stage is RaisePrivileges {
            match outcome {
                Ok(_) => n.stage is OpenParent && (action matches RestoreAction::OpenParent { path }
                    && path@ == m.parent@),
                Err(e) => n.stage is Finished && action == RestoreAction::Finish(
                    Err(RollbackError::SecurityError(e)),
                ),
            }
        } else {
            n.stage is Finished && (action matches RestoreAction::Finish(r) && privileged_outcome(
                m.operation,
                outcome,
                r,
            ))
        },
        RestoreEvent::Registry(Err(e)) => gives_back(
            n,
            action,
            Err(RollbackError::BaseRegError(e)),
        ),
        RestoreEvent::Registry(Ok(_)) => if m.stage is OpenParent {
            n.stage is CreateKey && (action matches RestoreAction::CreateKey { name } && name@
                == m.leaf@)
        } else {
            n.stage is RestoreFile && (action matches RestoreAction::RestoreFile { path } && path@
                == m.hive@)
        },
        RestoreEvent::Restored(status) => gives_back(
            n,
            action,
            if status == ERROR_SUCCESS {
                Ok(())
            } else {
                Err(RollbackError::RegistryError(status))
            },
        ),
    }
}

impl RestoreRun {
    /// Starts the restoration of a key below `HKLM` from the hive in a file: the
    /// privileges come first.
    pub fn restore_registry_file(expected_registry_key_path: &str, hive: &str) -> (r: Result<
        (RestoreRun, RestoreAction),
        RollbackError,
    >)
        ensures
            match r {
                Ok((run, action)) => restore_target(expected_registry_key_path@) == Some(
                    (run.parent@, run.leaf@),
                ) && run.hive@ == hive@ && run.stage is RaisePrivileges && run.operation is Ok && action == (
                RestoreAction::RaisePrivileges { privileges: (SE_RESTORE_NAME, SE_BACKUP_NAME) }),
                Err(e) => restore_target(expected_registry_key_path@) is None && e
                    == RollbackError::BaseRegError(RegistryError::InvalidPath),
            },
    {
        match split_restore_target(expected_registry_key_path) {
            Ok((parent, leaf)) => Ok(
                (
                    RestoreRun {
                        stage: RestoreStage::RaisePrivileges,
                        parent: parent,
                        leaf: leaf,
                        hive: owned(hive),
                        operation: Ok(()),
                    },
                    RestoreAction::RaisePrivileges { privileges: (SE_RESTORE_NAME, SE_BACKUP_NAME) },
                ),
            ),
            Err(e) => Err(e),
        }
    }

    fn give_back(&mut self, operation: Result<(), RollbackError>) -> (r: RestoreAction)
        ensures
            gives_back(*final(self), r, operation),
            final(self).parent == old(self).parent,
            final(self).leaf == old(self).leaf,
            final(self).hive == old(self).hive,
    {
        self.operation = operation;
        self.stage = RestoreStage::RestorePrivileges;
        RestoreAction::RestorePrivileges
    }

    /// Goes on after an event. Privileges that were raised are given back, whatever
    /// became of the work, before the restoration ends.
    pub fn step(&mut self, event: RestoreEvent) -> (r: RestoreAction)
        requires
            old(self).stage.expects(event),
        ensures
            restore_follows(*old(self), event, *final(self), r),
            final(self).parent == old(self).parent,
            final(self).leaf == old(self).leaf,
            final(self).hive == old(self).hive,
            r is Finish ==> old(self).stage is RestorePrivileges || (
            event matches RestoreEvent::Privileged(Err(_))),
    {
        match event {
            RestoreEvent::Privileged(outcome) => match self.stage {
                RestoreStage::RaisePrivileges => match outcome {
                    Ok(()) => {
                        self.stage = RestoreStage::OpenParent;
                        RestoreAction::OpenParent { path: owned(self.parent.as_str()) }
                    },
                    Err(e) => {
                        self.stage = RestoreStage::Finished;
                        RestoreAction::Finish(Err(RollbackError::SecurityError(e)))
                    },
                },
                _ => {
                    let mut operation: Result<(), RollbackError> = Ok(());
                    std::mem::swap(&mut operation, &mut self.operation);
                    self.stage = RestoreStage::Finished;
                    RestoreAction::Finish(finish_privileged_restore(operation, outcome))
                },
            },
            RestoreEvent::Registry(outcome) => match outcome {
                Err(e) => self.give_back(Err(RollbackError::BaseRegError(e))),
                Ok(()) => match self.stage {
                    RestoreStage::OpenParent => {
                        self.stage = RestoreStage::CreateKey;
                        RestoreAction::CreateKey { name: owned(self.leaf.as_str()) }
                    },
                    _ => {
                        self.stage = RestoreStage::RestoreFile;
                        RestoreAction::RestoreFile { path: owned(self.hive.as_str()) }
                    },
                },
            },
            RestoreEvent::Restored(status) => {
                if status == ERROR_SUCCESS {
                    self.give_back(Ok(()))
                } else {
                    self.give_back(Err(RollbackError::RegistryError(status)))
                }
            },
        }
    }
}

/// A snapshot whose hive was left alone is restored to the key that it was taken of, and
/// to no other key.
pub proof fn an_untouched_snapshot_restores_its_key(
    request: SnapshotRequest,
    taken: SnapshotModel,
    metadata: SnapshotMetadata,
    artifact: ArtifactObservation,
    target: Seq<char>,
)
    requires
        describes_snapshot(request, taken, metadata),
        artifact.captured == taken.identity->0,
        artifact.current == Result::<FileIdentity, StorageError>::Ok(taken.identity->0),
        artifact.content matches Ok(bytes) && bytes@ == taken.hashed,
    ensures
        is_restorable(metadata, target, Some(artifact)) <==> ascii_lower(target) == ascii_lower(
            "HKLM\\"@ + request.subkey@,
        ),
{
}

/// A hive that was exchanged or changed is never restored, nor one of another key, nor one
/// that is no longer held: each is refused for its reason.
pub proof fn a_changed_snapshot_is_refused(
    m: SnapshotMetadata,
    target: Seq<char>,
    artifact: Option<ArtifactObservation>,
    e: RollbackError,
)
    ensures
        artifact is None ==> !is_restorable(m, target, artifact),
        ascii_lower(m.registry_key_path@) != ascii_lower(target) ==> !is_restorable(
            m,
            target,
            artifact,
        ) && (restore_refusal(m, target, artifact, e) ==> e is TargetMismatch),
        artifact matches Some(found) ==> {
            &&& found.current != Result::<FileIdentity, StorageError>::Ok(found.captured)
                ==> !is_restorable(m, target, artifact)
            &&& found.captured.volume_serial != m.file_volume_serial || found.captured.file_index
                != m.file_index ==> !is_restorable(m, target, artifact)
            &&& (found.content matches Ok(bytes) && sha256_text(bytes@) != m.sha256@)
                || found.content is Err ==> !is_restorable(m, target, artifact)
            &&& ascii_lower(m.registry_key_path@) == ascii_lower(target) && found.current
                == Result::<FileIdentity, StorageError>::Ok(found.captured)
                && found.captured.volume_serial == m.file_volume_serial
                && found.captured.file_index == m.file_index && found.content is Ok
                && restore_refusal(m, target, artifact, e) ==> e is DigestMismatch
        },
{
}

/// The key to restore is the one that its path names: the path is the root, the parent and
/// the name between backslashes, and the name holds none.
pub proof fn a_restored_key_is_the_one_named(path: Seq<char>)
    ensures
        restore_target(path) matches Some((parent, leaf)) ==> path == "HKLM\\"@ + parent
            + seq!['\\'] + leaf && !leaf.contains('\\'),
{
    reveal_strlit("HKLM\\");
    let subkey = path.skip(5);
    crate::paths::lemma_last_backslash(subkey);
    match restore_target(path) {
        Some((parent, leaf)) => {
            assert(path.take(5) =~= "HKLM\\"@);
            assert(path =~= "HKLM\\"@ + parent + seq!['\\'] + leaf);
            if leaf.contains('\\') {
                let k = choose|k: int| 0 <= k < leaf.len() && leaf[k] == '\\';
                assert(subkey[last_backslash(subkey) + 1 + k] == '\\');
            }
        },
        None => {},
    }
}

/// Privileges that were raised to restore a key are given back, whatever came of the work,
/// and a restoration succeeds only where both did.
pub proof fn a_restoration_gives_its_privileges_back(
    m: RestoreRun,
    event: RestoreEvent,
    n: RestoreRun,
    action: RestoreAction,
)
    requires
        m.stage.expects(event),
        restore_follows(m, event, n, action),
    ensures
        action is Finish ==> m.stage is RestorePrivileges || m.stage is RaisePrivileges && (
        event matches RestoreEvent::Privileged(Err(_))),
        action matches RestoreAction::Finish(Ok(_)) ==> m.stage is RestorePrivileges
            && m.operation is Ok && (event matches RestoreEvent::Privileged(Ok(_))),
        (event matches RestoreEvent::Registry(Err(_))) || event is Restored ==> action is
            RestorePrivileges,
        event matches RestoreEvent::Restored(status) ==> (n.operation is Ok <==> status == 0),
        event matches RestoreEvent::Registry(Err(_)) ==> n.operation is Err,
        action is RestoreFile <==> m.stage is CreateKey && (event matches RestoreEvent::Registry(
            Ok(_),
        )),
{
}

} // verus!
