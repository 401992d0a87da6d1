//! Inspecting the storage at start, and the run that detaches an untrusted root.
use crate::legacy::{
    all_sound, belongs, is_pending, load_outcome, load_pending_from_bootstrap, plan_of, random_id,
    recovery_plan, state_file_name, state_files, states_in, what_is_pending_was_left_unfinished,
    LegacyStorageError, MigrationPhase, MigrationStateRecord, RecoveryPlan, StateEntry, StateModel,
    AUDIT_ACTOR, AUDIT_OPERATION, BOOTSTRAP_DIRECTORY, BOOTSTRAP_LOCK, BOOTSTRAP_LOCK_TIMEOUT_MS,
    LEGACY_PREFIX, NEXT_PREFIX,
};
use crate::secure_fs::FileIdentity;
use crate::security::{SecurityError, SE_BACKUP_NAME, SE_RESTORE_NAME};
use crate::storage::{StorageError, PRODUCT_DIRECTORY};
use crate::text::{cat2, cat4, cat5, hex_text, owned};
use vstd::prelude::*;

verus! {

// ---------------------------------------------------------------------------
// Inspection
// ---------------------------------------------------------------------------

/// A root that cannot be used, and what is known of it.
#[derive(Debug)]
pub struct LegacyStorageRecovery {
    pub reason: String,
    pub detected_identity: FileIdentity,
    pub resume: bool,
}

impl LegacyStorageRecovery {
    pub fn reason(&self) -> (r: &str)
        ensures
            r@ == self.reason@,
    {
        self.reason.as_str()
    }

    /// Whether an interrupted detachment goes on.
    pub fn is_resume(&self) -> (r: bool)
        ensures
            r == self.resume,
    {
        self.resume
    }

    /// Starts the recovery.
    pub fn execute(self) -> (r: (RecoveryRun, RecoveryAction))
        ensures
            r.0.inv(),
            r.0@ == RecoveryModel::fresh(self.detected_identity),
            r.1 == (RecoveryAction::OpenBootstrap { name: BOOTSTRAP_DIRECTORY }),
    {
        RecoveryRun::new(self.detected_identity)
    }
}

/// What the storage is found to be.
#[derive(Debug)]
pub enum ProductionStorageState {
    Ready,
    NeedsConsent(LegacyStorageRecovery),
    NeedsResume(LegacyStorageRecovery),
}

/// What the inspection is waiting for.
#[derive(Debug, Clone, Copy, PartialEq, Eq, Structural)]
pub enum InspectStage {
    OpenBootstrap,
    ValidateBootstrap,
    ReadStates,
    OpenRoot,
    CreateRoot,
    CaptureIdentity,
    Finished,
}

#[derive(Debug)]
pub enum InspectEvent {
    Answered(Result<(), StorageError>),
    Loaded(Result<Vec<StateEntry>, StorageError>),
    Identified(Result<FileIdentity, StorageError>),
}

#[derive(Debug)]
pub enum InspectAction {
    OpenBootstrap { name: &'static str },
    ValidateBootstrap,
    ReadStates,
    /// Opens and validates the root that is there.
    OpenRoot { name: &'static str },
    /// Creates the root that is missing.
    CreateRoot { name: &'static str },
    CaptureIdentity { name: &'static str },
    Finish(Result<ProductionStorageState, LegacyStorageError>),
}

/// An inspection of the storage at start.
#[derive(Debug)]
pub struct InspectRun {
    pub stage: InspectStage,
    /// Why the root was refused.
    pub refusal: String,
}

impl InspectStage {
    pub open spec fn expects(self, event: InspectEvent) -> bool {
        match self {
            InspectStage::OpenBootstrap | InspectStage::ValidateBootstrap | InspectStage::OpenRoot
            | InspectStage::CreateRoot => event is Answered,
            InspectStage::ReadStates => event is Loaded,
            InspectStage::CaptureIdentity => event is Identified,
            InspectStage::Finished => false,
        }
    }
}

/// Whether an action ends the inspection with a result.
pub open spec fn inspection_ends(
    n: InspectRun,
    action: InspectAction,
    r: Result<ProductionStorageState, LegacyStorageError>,
) -> bool {
    n.stage is Finished && action == InspectAction::Finish(r)
}

/// What follows the states that were found.
pub open spec fn found_follows(
    found: Result<Option<MigrationStateRecord>, LegacyStorageError>,
    n: InspectRun,
    action: InspectAction,
) -> bool {
    match found {
        Err(e) => inspection_ends(n, action, Err(e)),
        Ok(None) => n.stage is OpenRoot && action == (InspectAction::OpenRoot {
            name: PRODUCT_DIRECTORY,
        }),
        Ok(Some(record)) => n.stage is Finished && (action matches InspectAction::Finish(
            Ok(ProductionStorageState::NeedsResume(recovery)),
        ) && recovery.resume && recovery.detected_identity == record.source_identity
            && recovery.reason@ == "interrupted legacy storage migration "@ + record.migration_id@
            + " at "@ + record.phase.word()),
    }
}

/// What follows an event in the inspection.
pub open spec fn inspect_follows(
    m: InspectRun,
    event: InspectEvent,
    n: InspectRun,
    action: InspectAction,
) -> bool {
    match event {
        InspectEvent::Loaded(Ok(files)) => exists|found| #[trigger]
            load_outcome(state_files(files@), found) && found_follows(found, n, action),
        InspectEvent::Loaded(Err(e)) => inspection_ends(
            n,
            action,
            Err(LegacyStorageError::Storage(e)),
        ),
        InspectEvent::Identified(Ok(identity)) => n.stage is Finished && (
        action matches InspectAction::Finish(Ok(ProductionStorageState::NeedsConsent(recovery)))
            && !recovery.resume && recovery.detected_identity == identity && recovery.reason@
            == m.refusal@),
        InspectEvent::Identified(Err(e)) => inspection_ends(
            n,
            action,
            Err(LegacyStorageError::Storage(e)),
        ),
        InspectEvent::Answered(Ok(_)) => match m.stage {
            InspectStage::OpenBootstrap => n.stage is ValidateBootstrap
                && action is ValidateBootstrap,
            InspectStage::ValidateBootstrap => n.stage is ReadStates && action is ReadStates,
            _ => inspection_ends(n, action, Ok(ProductionStorageState::Ready)),
        },
        InspectEvent::Answered(Err(e)) => match m.stage {
            InspectStage::OpenBootstrap if e.says_not_found() => n.stage is OpenRoot
                && action == (InspectAction::OpenRoot { name: PRODUCT_DIRECTORY }),
            InspectStage::OpenRoot => if e.says_not_found() {
                n.stage is CreateRoot && action == (InspectAction::CreateRoot {
                    name: PRODUCT_DIRECTORY,
                })
            } else {
                n.stage is CaptureIdentity && action == (InspectAction::CaptureIdentity {
                    name: PRODUCT_DIRECTORY,
                }) && n.refusal@ == e.text()
            },
            _ => inspection_ends(n, action, Err(LegacyStorageError::Storage(e))),
        },
    }
}

/// Starts the inspection of the storage.
pub fn inspect_production_storage() -> (r: (InspectRun, InspectAction))
    ensures
        r.0.stage is OpenBootstrap,
        r.1 == (InspectAction::OpenBootstrap { name: BOOTSTRAP_DIRECTORY }),
{
    (
        InspectRun { stage: InspectStage::OpenBootstrap, refusal: String::new() },
        InspectAction::OpenBootstrap { name: BOOTSTRAP_DIRECTORY },
    )
}

impl InspectRun {
    fn finish(&mut self, result: Result<ProductionStorageState, LegacyStorageError>) -> (r:
        InspectAction)
        ensures
            inspection_ends(*final(self), r, result),
    {
        self.stage = InspectStage::Finished;
        InspectAction::Finish(result)
    }

    fn found(&mut self, found: Result<Option<MigrationStateRecord>, LegacyStorageError>) -> (r:
        InspectAction)
        ensures
            found_follows(found, *final(self), r),
    {
        match found {
            Err(e) => self.finish(Err(e)),
            Ok(None) => {
                self.stage = InspectStage::OpenRoot;
                InspectAction::OpenRoot { name: PRODUCT_DIRECTORY }
            },
            Ok(Some(record)) => {
                let reason = cat4(
                    "interrupted legacy storage migration ",
                    record.migration_id.as_str(),
                    " at ",
                    record.phase.label(),
                );
                self.finish(
                    Ok(
                        ProductionStorageState::NeedsResume(
                            LegacyStorageRecovery {
                                reason: reason,
                                detected_identity: record.source_identity,
                                resume: true,
                            },
                        ),
                    ),
                )
            },
        }
    }

    /// Goes on after an event. Nothing is created but a root that is missing.
    pub fn step(&mut self, event: InspectEvent) -> (r: InspectAction)
        requires
            old(self).stage.expects(event),
        ensures
            inspect_follows(*old(self), event, *final(self), r),
            r is CreateRoot ==> old(self).stage is OpenRoot && (event matches InspectEvent::Answered(
                Err(e),
            ) && e.says_not_found()),
    {
        match event {
            InspectEvent::Loaded(loaded) => match loaded {
                Ok(files) => {
                    let found = load_pending_from_bootstrap(files);
                    assert(load_outcome(state_files(files@), found));
                    self.found(found)
                },
                Err(e) => self.finish(Err(LegacyStorageError::Storage(e))),
            },
            InspectEvent::Identified(identified) => match identified {
                Ok(identity) => {
                    let reason = owned(self.refusal.as_str());
                    self.finish(
                        Ok(
                            ProductionStorageState::NeedsConsent(
                                LegacyStorageRecovery {
                                    reason: reason,
                                    detected_identity: identity,
                                    resume: false,
                                },
                            ),
                        ),
                    )
                },
                Err(e) => self.finish(Err(LegacyStorageError::Storage(e))),
            },
            InspectEvent::Answered(outcome) => match outcome {
                Ok(()) => match self.stage {
                    InspectStage::OpenBootstrap => {
                        self.stage = InspectStage::ValidateBootstrap;
                        InspectAction::ValidateBootstrap
                    },
                    InspectStage::ValidateBootstrap => {
                        self.stage = InspectStage::ReadStates;
                        InspectAction::ReadStates
                    },
                    _ => self.finish(Ok(ProductionStorageState::Ready)),
                },
                Err(e) => match self.stage {
                    InspectStage::OpenBootstrap if e.is_not_found() => {
                        self.stage = InspectStage::OpenRoot;
                        InspectAction::OpenRoot { name: PRODUCT_DIRECTORY }
                    },
                    InspectStage::OpenRoot => {
                        if e.is_not_found() {
                            self.stage = InspectStage::CreateRoot;
                            InspectAction::CreateRoot { name: PRODUCT_DIRECTORY }
                        } else {
                            self.refusal = e.message();
                            self.stage = InspectStage::CaptureIdentity;
                            InspectAction::CaptureIdentity { name: PRODUCT_DIRECTORY }
                        }
                    },
                    _ => self.finish(Err(LegacyStorageError::Storage(e))),
                },
            },
        }
    }
}

// ---------------------------------------------------------------------------
// Writing a state
// ---------------------------------------------------------------------------

/// What the write of a state is waiting for.
#[derive(Debug, Clone, Copy, PartialEq, Eq, Structural)]
pub enum StateWriteStage {
    Open,
    Draw,
    Create,
    Store,
    Publish,
    Sync,
    Finished,
}

/// Why the contents of a state file were not stored.
#[derive(Debug)]
pub enum StoreFailure {
    Encode(String),
    Write(String),
}

#[derive(Debug)]
pub enum StateWriteEvent {
    /// The state that the final file holds already, or why it could not be read.
    Opened(Result<Result<MigrationStateRecord, String>, StorageError>),
    Drawn(Result<Vec<u8>, i32>),
    Created(Result<(), StorageError>),
    /// Encoded, written, flushed and synchronized.
    Stored(Result<(), StoreFailure>),
    Published(Result<(), StorageError>),
    Synced(Result<(), String>),
}

#[derive(Debug)]
pub enum StateWriteAction {
    Open { name: String },
    DrawRandom,
    Create { name: String },
    /// Puts this state into the temporary file, down to the disk.
    Store { state: MigrationStateRecord },
    /// Renames the temporary file, never over another.
    Publish { name: String },
    Sync,
    Finish(Result<(), LegacyStorageError>),
}

/// The write of one durable state.
#[derive(Debug)]
pub struct StateWrite {
    pub state: MigrationStateRecord,
    pub name: String,
    pub stage: StateWriteStage,
}

impl StateWriteStage {
    pub open spec fn expects(self, event: StateWriteEvent) -> bool {
        match self {
            StateWriteStage::Open => event is Opened,
            StateWriteStage::Draw => event is Drawn,
            StateWriteStage::Create => event is Created,
            StateWriteStage::Store => event is Stored,
            StateWriteStage::Publish => event is Published,
            StateWriteStage::Sync => event is Synced,
            StateWriteStage::Finished => false,
        }
    }
}

pub open spec fn write_ends(
    n: StateWrite,
    action: StateWriteAction,
    r: Result<(), LegacyStorageError>,
) -> bool {
    n.stage is Finished && action == StateWriteAction::Finish(r)
}

/// What follows an event in the write of a state.
pub open spec fn write_follows(
    state: StateModel,
    event: StateWriteEvent,
    n: StateWrite,
    action: StateWriteAction,
) -> bool {
    match event {
        StateWriteEvent::Opened(opened) => match opened {
            Ok(Ok(existing)) => if existing@ == state {
                write_ends(n, action, Ok(()))
            } else {
                n.stage is Finished && (action matches StateWriteAction::Finish(
                    Err(LegacyStorageError::InvalidState(text)),
                ) && text@ == "state collision for "@ + state.file_name())
            },
            Ok(Err(reason)) => write_ends(
                n,
                action,
                Err(LegacyStorageError::Serialization(reason)),
            ),
            Err(e) => if e.says_not_found() {
                n.stage is Draw && action is DrawRandom
            } else {
                write_ends(n, action, Err(LegacyStorageError::Storage(e)))
            },
        },
        StateWriteEvent::Drawn(drawn) => match drawn {
            Ok(bytes) => n.stage is Create && (action matches StateWriteAction::Create { name }
                && name@ == "."@ + state.migration_id + "-"@ + hex_text(bytes@) + ".tmp"@),
            Err(status) => write_ends(n, action, Err(LegacyStorageError::Random(status))),
        },
        StateWriteEvent::Created(created) => match created {
            Ok(_) => n.stage is Store && (action matches StateWriteAction::Store { state: stored }
                && stored@ == state),
            Err(e) => write_ends(n, action, Err(LegacyStorageError::Storage(e))),
        },
        StateWriteEvent::Stored(stored) => match stored {
            Ok(_) => n.stage is Publish && (action matches StateWriteAction::Publish { name }
                && name@ == state.file_name()),
            Err(StoreFailure::Encode(reason)) => write_ends(
                n,
                action,
                Err(LegacyStorageError::Serialization(reason)),
            ),
            Err(StoreFailure::Write(reason)) => write_ends(
                n,
                action,
                Err(LegacyStorageError::Io(reason)),
            ),
        },
        StateWriteEvent::Published(published) => match published {
            Ok(_) => n.stage is Sync && action is Sync,
            Err(e) => n.stage is Finished && (action matches StateWriteAction::Finish(
                Err(LegacyStorageError::StatePublication { name, source }),
            ) && name@ == state.file_name() && source == e),
        },
        StateWriteEvent::Synced(synced) => match synced {
            Ok(_) => write_ends(n, action, Ok(())),
            Err(why) => n.stage is Finished && (action matches StateWriteAction::Finish(
                Err(LegacyStorageError::PublishedStateSync { name, reason }),
            ) && name@ == state.file_name() && reason@ == why@),
        },
    }
}

impl StateWrite {
    pub open spec fn inv(self) -> bool {
        self.name@ == self.state@.file_name()
    }

    /// Starts the write of a state.
    pub fn new(state: MigrationStateRecord) -> (r: (StateWrite, StateWriteAction))
        ensures
            r.0.inv(),
            r.0.state == state,
            r.0.stage is Open,
            r.1 matches StateWriteAction::Open { name } && name@ == state@.file_name(),
    {
        let name = state_file_name(&state);
        let wanted = owned(name.as_str());
        (
            StateWrite { state: state, name: name, stage: StateWriteStage::Open },
            StateWriteAction::Open { name: wanted },
        )
    }

    fn finish(&mut self, result: Result<(), LegacyStorageError>) -> (r: StateWriteAction)
        ensures
            final(self).state == old(self).state,
            final(self).name == old(self).name,
            write_ends(*final(self), r, result),
    {
        self.stage = StateWriteStage::Finished;
        StateWriteAction::Finish(result)
    }

    /// Goes on after an event. The final name appears only by publishing what was
    /// stored and synchronized.
    pub fn step(&mut self, event: StateWriteEvent) -> (r: StateWriteAction)
        requires
            old(self).inv(),
            old(self).stage.expects(event),
        ensures
            final(self).inv(),
            final(self).state == old(self).state,
            write_follows(old(self).state@, event, *final(self), r),
            r is Publish ==> old(self).stage is Store,
    {
        match event {
            StateWriteEvent::Opened(opened) => match opened {
                Ok(Ok(existing)) => {
                    if existing.same(&self.state) {
                        self.finish(Ok(()))
                    } else {
                        let text = cat2("state collision for ", self.name.as_str());
                        self.finish(Err(LegacyStorageError::InvalidState(text)))
                    }
                },
                Ok(Err(reason)) => self.finish(Err(LegacyStorageError::Serialization(reason))),
                Err(e) => {
                    if e.is_not_found() {
                        self.stage = StateWriteStage::Draw;
                        StateWriteAction::DrawRandom
                    } else {
                        self.finish(Err(LegacyStorageError::Storage(e)))
                    }
                },
            },
            StateWriteEvent::Drawn(drawn) => match random_id(drawn) {
                Ok(id) => {
                    self.stage = StateWriteStage::Create;
                    StateWriteAction::Create {
                        name: cat5(
                            ".",
                            self.state.migration_id.as_str(),
                            "-",
                            id.as_str(),
                            ".tmp",
                        ),
                    }
                },
                Err(e) => self.finish(Err(e)),
            },
            StateWriteEvent::Created(created) => match created {
                Ok(()) => {
                    self.stage = StateWriteStage::Store;
                    StateWriteAction::Store { state: self.state.copy() }
                },
                Err(e) => self.finish(Err(LegacyStorageError::Storage(e))),
            },
            StateWriteEvent::Stored(stored) => match stored {
                Ok(()) => {
                    self.stage = StateWriteStage::Publish;
                    StateWriteAction::Publish { name: owned(self.name.as_str()) }
                },
                Err(StoreFailure::Encode(reason)) => self.finish(
                    Err(LegacyStorageError::Serialization(reason)),
                ),
                Err(StoreFailure::Write(reason)) => self.finish(
                    Err(LegacyStorageError::Io(reason)),
                ),
            },
            StateWriteEvent::Published(published) => match published {
                Ok(()) => {
                    self.stage = StateWriteStage::Sync;
                    StateWriteAction::Sync
                },
                Err(e) => {
                    let name = owned(self.name.as_str());
                    self.finish(Err(LegacyStorageError::StatePublication { name: name, source: e }))
                },
            },
            StateWriteEvent::Synced(synced) => match synced {
                Ok(()) => self.finish(Ok(())),
                Err(reason) => {
                    let name = owned(self.name.as_str());
                    self.finish(
                        Err(LegacyStorageError::PublishedStateSync { name: name, reason: reason }),
                    )
                },
            },
        }
    }
}

// ---------------------------------------------------------------------------
// Recovery
// ---------------------------------------------------------------------------

/// A detachment of which only the audit entry and the last state are missing.
#[derive(Debug)]
pub struct PendingProductionStorage {
    pub state: MigrationStateRecord,
}

impl PendingProductionStorage {
    pub fn migration_id(&self) -> (r: &str)
        ensures
            r@ == self.state.migration_id@,
    {
        self.state.migration_id.as_str()
    }

    pub fn legacy_name(&self) -> (r: &str)
        ensures
            r@ == self.state.legacy_name@,
    {
        self.state.legacy_name.as_str()
    }

    pub fn audit_operation(&self) -> (r: &'static str)
        ensures
            r@ == "LegacyStorageDetached"@,
    {
        AUDIT_OPERATION
    }

    pub fn audit_actor(&self) -> (r: &'static str)
        ensures
            r@ == "WinProfile-Admin"@,
    {
        AUDIT_ACTOR
    }

    /// What the audit entry says.
    pub fn audit_details(&self) -> (r: String)
        ensures
            r@ == "migration_id="@ + self.state.migration_id@ + "; legacy_object="@
                + self.state.legacy_name@
                + "; contents are untrusted, opaque, not imported, and retain their previous permissions"@,
    {
        cat5(
            "migration_id=",
            self.state.migration_id.as_str(),
            "; legacy_object=",
            self.state.legacy_name.as_str(),
            "; contents are untrusted, opaque, not imported, and retain their previous permissions",
        )
    }

    /// Starts the write of the last state.
    pub fn complete(self) -> (r: (StateWrite, StateWriteAction))
        ensures
            r.0.inv(),
            r.0.state@ == self.state@.at(MigrationPhase::Done),
            r.0.stage is Open,
            r.1 matches StateWriteAction::Open { name } && name@ == self.state@.at(
                MigrationPhase::Done,
            ).file_name(),
    {
        let mut state = self.state;
        state.phase = MigrationPhase::Done;
        StateWrite::new(state)
    }
}

/// What follows the write of the first state.
#[derive(Debug)]
pub enum PreparedStep {
    Proceed,
    /// The state may be durable: the prepared root stays.
    Fail(LegacyStorageError),
    /// The state is surely not durable: the prepared root is removed.
    RemoveNext(LegacyStorageError),
}

/// Whether a state may be durable though its write failed.
pub open spec fn may_be_durable(e: LegacyStorageError) -> bool {
    e is PublishedStateSync || e is StatePublication
}

pub fn persist_prepared_state(persisted: Result<(), LegacyStorageError>) -> (r: PreparedStep)
    ensures
        match persisted {
            Ok(_) => r is Proceed,
            Err(e) => if may_be_durable(e) {
                r == PreparedStep::Fail(e)
            } else {
                r == PreparedStep::RemoveNext(e)
            },
        },
{
    match persisted {
        Ok(()) => PreparedStep::Proceed,
        Err(e) => {
            let keep = match &e {
                LegacyStorageError::PublishedStateSync { .. } => true,
                LegacyStorageError::StatePublication { .. } => true,
                _ => false,
            };
            if keep {
                PreparedStep::Fail(e)
            } else {
                PreparedStep::RemoveNext(e)
            }
        },
    }
}

/// The error of a write behind which the prepared root was removed.
pub open spec fn removal_error(
    operation: LegacyStorageError,
    removal: Result<(), StorageError>,
    e: LegacyStorageError,
) -> bool {
    match removal {
        Ok(_) => e == operation,
        Err(cleanup) => e matches LegacyStorageError::Storage(
            StorageError::CleanupFailed { operation_error, cleanup_error },
        ) && operation_error@ == operation.text() && cleanup_error@ == cleanup.text(),
    }
}

pub fn after_removal(operation: LegacyStorageError, removal: Result<(), StorageError>) -> (r:
    LegacyStorageError)
    ensures
        removal_error(operation, removal, r),
{
    match removal {
        Ok(()) => operation,
        Err(cleanup) => LegacyStorageError::Storage(
            StorageError::CleanupFailed {
                operation_error: operation.message(),
                cleanup_error: cleanup.message(),
            },
        ),
    }
}

/// The outcome of work under privileges, once they were given back.
pub open spec fn privileged_outcome(
    operation: Result<MigrationStateRecord, LegacyStorageError>,
    restore: Result<(), SecurityError>,
    r: Result<MigrationStateRecord, LegacyStorageError>,
) -> bool {
    match (operation, restore) {
        (_, Ok(_)) => r == operation,
        (Ok(_), Err(e)) => r matches Err(LegacyStorageError::PrivilegeRestore(text)) && text@
            == e.text(),
        (Err(o), Err(e)) => r matches Err(
            LegacyStorageError::OperationAndPrivilegeRestore { operation_error, restore_error },
        ) && operation_error@ == o.text() && restore_error@ == e.text(),
    }
}

pub fn finish_privileged_namespace(
    operation: Result<MigrationStateRecord, LegacyStorageError>,
    restore: Result<(), SecurityError>,
) -> (r: Result<MigrationStateRecord, LegacyStorageError>)
    ensures
        privileged_outcome(operation, restore, r),
{
    match restore {
        Ok(()) => operation,
        Err(e) => match operation {
            Ok(_) => Err(LegacyStorageError::PrivilegeRestore(e.message())),
            Err(o) => Err(
                LegacyStorageError::OperationAndPrivilegeRestore {
                    operation_error: o.message(),
                    restore_error: e.message(),
                },
            ),
        },
    }
}

/// What the recovery is waiting for.
#[derive(Debug, Clone, Copy, PartialEq, Eq, Structural)]
pub enum RecoveryStage {
    OpenBootstrap,
    CreateBootstrap,
    ReopenBootstrap,
    ValidateBootstrap,
    LockBootstrap,
    ReadStates,
    RaisePrivileges,
    OpenSource,
    DrawId,
    CreateNext,
    IdentifyNext,
    WritePrepared,
    RemoveNext,
    DetachSource,
    WriteDetached,
    ActivateNext,
    ValidateActive,
    IdentifyActive,
    WriteRootReady,
    /// The root is gone: is it what stands under the legacy name?
    CheckDetached,
    CheckLegacy,
    OpenNext,
    CheckNext,
    VerifyRoot,
    VerifyLegacy,
    RestorePrivileges,
    OpenRoot,
    WriteAuditPending,
    Finished,
}

#[derive(Debug)]
pub enum RecoveryEvent {
    Answered(Result<(), StorageError>),
    Loaded(Result<Vec<StateEntry>, StorageError>),
    Privileged(Result<(), SecurityError>),
    Identified(Result<FileIdentity, StorageError>),
    Drawn(Result<Vec<u8>, i32>),
    Written(Result<(), LegacyStorageError>),
}

#[derive(Debug)]
pub enum RecoveryAction {
    OpenBootstrap { name: &'static str },
    CreateBootstrap { name: &'static str },
    ValidateBootstrap,
    LockBootstrap { name: &'static str, millis: u64 },
    ReadStates,
    RaisePrivileges { privileges: (&'static str, &'static str) },
    /// Opens the root for renaming and keeps the handle.
    OpenSource { name: &'static str },
    DrawRandom,
    CreateNext { name: String },
    IdentifyNext,
    WriteState { record: MigrationStateRecord },
    RemoveNext,
    /// Renames the object whose handle is kept, never over another.
    RenameSource { name: String },
    /// Renames the prepared root to the name of the root, never over another.
    ActivateNext { name: &'static str },
    ValidateActive,
    IdentifyActive,
    IdentifyObject { name: String },
    OpenNext { name: String },
    /// Opens and validates the root, and reads its identity.
    IdentifyRoot { name: &'static str },
    RestorePrivileges,
    OpenRoot { name: &'static str },
    Finish(Result<PendingProductionStorage, LegacyStorageError>),
}

impl RecoveryAction {
    /// Whether the action creates, renames or removes a root.
    pub open spec fn moves(self) -> bool {
        self is CreateNext || self is RemoveNext || self is RenameSource || self is ActivateNext
    }
}

/// A run that detaches an untrusted root and puts a new one in its place.
#[derive(Debug)]
pub struct RecoveryRun {
    pub stage: RecoveryStage,
    /// The object that was consented to.
    pub detected: FileIdentity,
    /// Whether an interrupted detachment goes on.
    pub resuming: bool,
    pub migration_id: String,
    pub state: Option<MigrationStateRecord>,
    /// The last phase that was written.
    pub durable: Option<MigrationPhase>,
    /// Why the work under privileges failed.
    pub error: Option<LegacyStorageError>,
    /// Whether privileges are to be given back.
    pub raised: bool,
}

#[verifier::ext_equal]
pub struct RecoveryModel {
    pub stage: RecoveryStage,
    pub detected: FileIdentity,
    pub resuming: bool,
    pub migration_id: Seq<char>,
    pub state: Option<StateModel>,
    pub durable: Option<MigrationPhase>,
    pub error: Option<LegacyStorageError>,
    pub raised: bool,
}

pub open spec fn opt_state(state: Option<MigrationStateRecord>) -> Option<StateModel> {
    match state {
        Some(record) => Some(record@),
        None => None,
    }
}

impl View for RecoveryRun {
    type V = RecoveryModel;

    open spec fn view(&self) -> RecoveryModel {
        RecoveryModel {
            stage: self.stage,
            detected: self.detected,
            resuming: self.resuming,
            migration_id: self.migration_id@,
            state: opt_state(self.state),
            durable: self.durable,
            error: self.error,
            raised: self.raised,
        }
    }
}

impl RecoveryStage {
    pub open spec fn expects(self, event: RecoveryEvent) -> bool {
        match self {
            RecoveryStage::OpenBootstrap | RecoveryStage::CreateBootstrap
            | RecoveryStage::ReopenBootstrap | RecoveryStage::ValidateBootstrap
            | RecoveryStage::LockBootstrap | RecoveryStage::CreateNext | RecoveryStage::RemoveNext
            | RecoveryStage::DetachSource | RecoveryStage::ActivateNext
            | RecoveryStage::ValidateActive | RecoveryStage::OpenNext
            | RecoveryStage::OpenRoot => event is Answered,
            RecoveryStage::ReadStates => event is Loaded,
            RecoveryStage::RaisePrivileges | RecoveryStage::RestorePrivileges =>
                event is Privileged,
            RecoveryStage::OpenSource | RecoveryStage::IdentifyNext
            | RecoveryStage::IdentifyActive | RecoveryStage::CheckDetached
            | RecoveryStage::CheckLegacy | RecoveryStage::CheckNext | RecoveryStage::VerifyRoot
            | RecoveryStage::VerifyLegacy => event is Identified,
            RecoveryStage::DrawId => event is Drawn,
            RecoveryStage::WritePrepared | RecoveryStage::WriteDetached
            | RecoveryStage::WriteRootReady | RecoveryStage::WriteAuditPending => event is Written,
            RecoveryStage::Finished => false,
        }
    }

    /// Whether the stage stands between raising the privileges and giving them back.
    pub open spec fn is_privileged(self) -> bool {
        match self {
            RecoveryStage::OpenBootstrap | RecoveryStage::CreateBootstrap
            | RecoveryStage::ReopenBootstrap | RecoveryStage::ValidateBootstrap
            | RecoveryStage::LockBootstrap | RecoveryStage::ReadStates
            | RecoveryStage::RaisePrivileges | RecoveryStage::OpenRoot
            | RecoveryStage::WriteAuditPending | RecoveryStage::Finished => false,
            _ => true,
        }
    }
}

impl RecoveryModel {
    /// A recovery that has done nothing.
    pub open spec fn fresh(detected: FileIdentity) -> RecoveryModel {
        RecoveryModel {
            stage: RecoveryStage::OpenBootstrap,
            detected: detected,
            resuming: false,
            migration_id: Seq::empty(),
            state: None,
            durable: None,
            error: None,
            raised: false,
        }
    }

    pub open spec fn at(self, stage: RecoveryStage) -> RecoveryModel {
        RecoveryModel { stage: stage, ..self }
    }

    /// The state that a new detachment starts with.
    pub open spec fn first_state(self, next_identity: FileIdentity) -> StateModel {
        StateModel {
            schema: 1,
            migration_id: self.migration_id,
            phase: MigrationPhase::Prepared,
            source_identity: self.detected,
            next_identity: next_identity,
            legacy_name: LEGACY_PREFIX@ + self.migration_id,
            next_name: NEXT_PREFIX@ + self.migration_id,
        }
    }
}

pub open spec fn recovery_ends(
    n: RecoveryModel,
    action: RecoveryAction,
    r: Result<PendingProductionStorage, LegacyStorageError>,
) -> bool {
    n.stage is Finished && !n.raised && action == RecoveryAction::Finish(r)
}

/// Ends with the detachment of which only the audit is missing.
pub open spec fn recovery_succeeds(m: RecoveryModel, n: RecoveryModel, action: RecoveryAction) -> bool {
    n.stage is Finished && !n.raised && (action matches RecoveryAction::Finish(Ok(pending))
        && pending.state@ == m.state->0)
}

/// Gives the privileges back because of an error.
pub open spec fn backs_out(
    m: RecoveryModel,
    n: RecoveryModel,
    action: RecoveryAction,
    e: LegacyStorageError,
) -> bool {
    n == (RecoveryModel { stage: RecoveryStage::RestorePrivileges, error: Some(e), ..m })
        && action is RestorePrivileges
}

/// Writes a state.
pub open spec fn writes(
    m: RecoveryModel,
    n: RecoveryModel,
    action: RecoveryAction,
    stage: RecoveryStage,
    state: StateModel,
) -> bool {
    n == (RecoveryModel { stage: stage, state: Some(state), ..m }) && (
    action matches RecoveryAction::WriteState { record } && record@ == state)
}

/// Reads the identity of what stands under the legacy name.
pub open spec fn identifies_legacy(
    m: RecoveryModel,
    n: RecoveryModel,
    action: RecoveryAction,
    stage: RecoveryStage,
) -> bool {
    n == m.at(stage) && (action matches RecoveryAction::IdentifyObject { name } && name@
        == m.state->0.legacy_name)
}

/// Renames the root to the legacy name.
pub open spec fn detaches(m: RecoveryModel, n: RecoveryModel, action: RecoveryAction) -> bool {
    n == m.at(RecoveryStage::DetachSource) && (action matches RecoveryAction::RenameSource { name }
        && name@ == m.state->0.legacy_name)
}

/// What follows the states that were found.
pub open spec fn recovery_found(
    m: RecoveryModel,
    found: Result<Option<MigrationStateRecord>, LegacyStorageError>,
    n: RecoveryModel,
    action: RecoveryAction,
) -> bool {
    match found {
        Err(e) => recovery_ends(n, action, Err(e)),
        Ok(None) => n == m.at(RecoveryStage::RaisePrivileges) && action == (RecoveryAction::RaisePrivileges {
            privileges: (SE_BACKUP_NAME, SE_RESTORE_NAME),
        }),
        Ok(Some(record)) => n == (RecoveryModel {
            stage: RecoveryStage::RaisePrivileges,
            resuming: true,
            state: Some(record@),
            durable: Some(record.phase),
            ..m
        }) && action == (RecoveryAction::RaisePrivileges {
            privileges: (SE_BACKUP_NAME, SE_RESTORE_NAME),
        }),
    }
}

/// What follows a storage call that succeeded.
pub open spec fn recovery_done(m: RecoveryModel, n: RecoveryModel, action: RecoveryAction) -> bool {
    match m.stage {
        RecoveryStage::OpenBootstrap | RecoveryStage::ReopenBootstrap => n == m.at(
            RecoveryStage::ValidateBootstrap,
        ) && action is ValidateBootstrap,
        RecoveryStage::CreateBootstrap | RecoveryStage::ValidateBootstrap => n == m.at(
            RecoveryStage::LockBootstrap,
        ) && action == (RecoveryAction::LockBootstrap {
            name: BOOTSTRAP_LOCK,
            millis: BOOTSTRAP_LOCK_TIMEOUT_MS,
        }),
        RecoveryStage::LockBootstrap => n == m.at(RecoveryStage::ReadStates)
            && action is ReadStates,
        RecoveryStage::CreateNext => n == m.at(RecoveryStage::IdentifyNext)
            && action is IdentifyNext,
        RecoveryStage::DetachSource => writes(
            m,
            n,
            action,
            RecoveryStage::WriteDetached,
            m.state->0.at(MigrationPhase::Detached),
        ),
        RecoveryStage::ActivateNext => if m.resuming {
            writes(
                m,
                n,
                action,
                RecoveryStage::WriteRootReady,
                m.state->0.at(MigrationPhase::RootReady),
            )
        } else {
            n == m.at(RecoveryStage::ValidateActive) && action is ValidateActive
        },
        RecoveryStage::ValidateActive => n == m.at(RecoveryStage::IdentifyActive)
            && action is IdentifyActive,
        RecoveryStage::OpenNext => n == m.at(RecoveryStage::CheckNext) && action is IdentifyNext,
        _ => match plan_of(m.state->0.phase) {
            RecoveryPlan::MarkAuditPending => writes(
                m,
                n,
                action,
                RecoveryStage::WriteAuditPending,
                m.state->0.at(MigrationPhase::AuditPending),
            ),
            RecoveryPlan::RetryTerminalAudit => recovery_succeeds(m, n, action),
            _ => n.stage is Finished && !n.raised && (action matches RecoveryAction::Finish(
                Err(LegacyStorageError::InvalidState(text)),
            ) && text@ == "expected root-ready or audit-pending, found "@
                + m.state->0.phase.word()),
        },
    }
}

/// What follows a storage call that failed.
pub open spec fn recovery_failed(
    m: RecoveryModel,
    e: StorageError,
    n: RecoveryModel,
    action: RecoveryAction,
) -> bool {
    match m.stage {
        RecoveryStage::OpenBootstrap if e.says_not_found() => n == m.at(
            RecoveryStage::CreateBootstrap,
        ) && action == (RecoveryAction::CreateBootstrap { name: BOOTSTRAP_DIRECTORY }),
        RecoveryStage::CreateBootstrap if e.says_collision() => n == m.at(
            RecoveryStage::ReopenBootstrap,
        ) && action == (RecoveryAction::OpenBootstrap { name: BOOTSTRAP_DIRECTORY }),
        RecoveryStage::OpenNext if e.says_not_found() => n == m.at(RecoveryStage::VerifyRoot)
            && action == (RecoveryAction::IdentifyRoot { name: PRODUCT_DIRECTORY }),
        _ => if m.stage.is_privileged() {
            backs_out(m, n, action, LegacyStorageError::Storage(e))
        } else {
            recovery_ends(n, action, Err(LegacyStorageError::Storage(e)))
        },
    }
}

/// What follows an identity that was read.
pub open spec fn recovery_identified(
    m: RecoveryModel,
    identity: FileIdentity,
    n: RecoveryModel,
    action: RecoveryAction,
) -> bool {
    let expected = match m.stage {
        RecoveryStage::OpenSource => if m.resuming {
            m.state->0.source_identity
        } else {
            m.detected
        },
        RecoveryStage::CheckDetached | RecoveryStage::CheckLegacy
        | RecoveryStage::VerifyLegacy => m.state->0.source_identity,
        _ => m.state->0.next_identity,
    };
    if m.stage is IdentifyNext {
        writes(m, n, action, RecoveryStage::WritePrepared, m.first_state(identity))
    } else if identity != expected {
        backs_out(m, n, action, LegacyStorageError::IdentityChanged)
    } else {
        match m.stage {
            RecoveryStage::OpenSource => if m.resuming {
                detaches(m, n, action)
            } else {
                n == m.at(RecoveryStage::DrawId) && action is DrawRandom
            },
            RecoveryStage::CheckDetached => writes(
                m,
                n,
                action,
                RecoveryStage::WriteDetached,
                m.state->0.at(MigrationPhase::Detached),
            ),
            RecoveryStage::CheckLegacy => n == m.at(RecoveryStage::OpenNext) && (
            action matches RecoveryAction::OpenNext { name } && name@ == m.state->0.next_name),
            RecoveryStage::CheckNext => n == m.at(RecoveryStage::ActivateNext)
                && action == (RecoveryAction::ActivateNext { name: PRODUCT_DIRECTORY }),
            RecoveryStage::IdentifyActive => writes(
                m,
                n,
                action,
                RecoveryStage::WriteRootReady,
                m.state->0.at(MigrationPhase::RootReady),
            ),
            RecoveryStage::VerifyRoot => identifies_legacy(
                m,
                n,
                action,
                RecoveryStage::VerifyLegacy,
            ),
            _ => if m.state->0.phase is Detached {
                writes(
                    m,
                    n,
                    action,
                    RecoveryStage::WriteRootReady,
                    m.state->0.at(MigrationPhase::RootReady),
                )
            } else {
                n == m.at(RecoveryStage::RestorePrivileges) && action is RestorePrivileges
            },
        }
    }
}

/// What follows a change of the privileges.
pub open spec fn recovery_privileged(
    m: RecoveryModel,
    outcome: Result<(), SecurityError>,
    n: RecoveryModel,
    action: RecoveryAction,
) -> bool {
    if m.stage is RaisePrivileges {
        let up = RecoveryModel { raised: true, ..m };
        match outcome {
            Err(e) => recovery_ends(n, action, Err(LegacyStorageError::Privilege(e))),
            Ok(_) => if !m.resuming {
                n == up.at(RecoveryStage::OpenSource) && action == (RecoveryAction::OpenSource {
                    name: PRODUCT_DIRECTORY,
                })
            } else {
                match plan_of(m.state->0.phase) {
                    RecoveryPlan::DetachAndActivate => n == up.at(RecoveryStage::OpenSource)
                        && action == (RecoveryAction::OpenSource { name: PRODUCT_DIRECTORY }),
                    RecoveryPlan::Activate => identifies_legacy(
                        up,
                        n,
                        action,
                        RecoveryStage::CheckLegacy,
                    ),
                    _ => n == up.at(RecoveryStage::VerifyRoot) && action == (RecoveryAction::IdentifyRoot {
                        name: PRODUCT_DIRECTORY,
                    }),
                }
            },
        }
    } else {
        match (m.error, outcome) {
            (None, Ok(_)) => n == (RecoveryModel {
                stage: RecoveryStage::OpenRoot,
                raised: false,
                ..m
            }) && action == (RecoveryAction::OpenRoot { name: PRODUCT_DIRECTORY }),
            (Some(e), Ok(_)) => recovery_ends(n, action, Err(e)),
            (None, Err(e)) => n.stage is Finished && !n.raised && (
            action matches RecoveryAction::Finish(Err(LegacyStorageError::PrivilegeRestore(text)))
                && text@ == e.text()),
            (Some(o), Err(e)) => n.stage is Finished && !n.raised && (
            action matches RecoveryAction::Finish(
                Err(
                    LegacyStorageError::OperationAndPrivilegeRestore {
                        operation_error,
                        restore_error,
                    },
                ),
            ) && operation_error@ == o.text() && restore_error@ == e.text()),
        }
    }
}

/// What follows the write of a state.
pub open spec fn recovery_written(
    m: RecoveryModel,
    outcome: Result<(), LegacyStorageError>,
    n: RecoveryModel,
    action: RecoveryAction,
) -> bool {
    let kept = RecoveryModel { durable: Some(m.state->0.phase), ..m };
    match outcome {
        Ok(_) => match m.stage {
            RecoveryStage::WritePrepared => detaches(kept, n, action),
            RecoveryStage::WriteDetached => if m.resuming {
                identifies_legacy(kept, n, action, RecoveryStage::CheckLegacy)
            } else {
                n == kept.at(RecoveryStage::ActivateNext) && action == (RecoveryAction::ActivateNext {
                    name: PRODUCT_DIRECTORY,
                })
            },
            RecoveryStage::WriteRootReady => n == kept.at(RecoveryStage::RestorePrivileges)
                && action is RestorePrivileges,
            _ => recovery_succeeds(kept, n, action),
        },
        Err(e) => match m.stage {
            RecoveryStage::WritePrepared if !may_be_durable(e) => n == (RecoveryModel {
                stage: RecoveryStage::RemoveNext,
                error: Some(e),
                ..m
            }) && action is RemoveNext,
            RecoveryStage::WriteAuditPending => recovery_ends(n, action, Err(e)),
            _ => backs_out(m, n, action, e),
        },
    }
}

/// What follows an event in the recovery.
pub open spec fn recovery_follows(
    m: RecoveryModel,
    event: RecoveryEvent,
    n: RecoveryModel,
    action: RecoveryAction,
) -> bool {
    match event {
        RecoveryEvent::Answered(outcome) => if m.stage is RemoveNext {
            exists|e: LegacyStorageError|
                removal_error(m.error->0, outcome, e) && #[trigger] backs_out(m, n, action, e)
        } else {
            match outcome {
                Ok(_) => recovery_done(m, n, action),
                Err(e) => recovery_failed(m, e, n, action),
            }
        },
        RecoveryEvent::Loaded(loaded) => match loaded {
            Ok(files) => exists|found| #[trigger]
                load_outcome(state_files(files@), found) && recovery_found(m, found, n, action),
            Err(e) => recovery_ends(n, action, Err(LegacyStorageError::Storage(e))),
        },
        RecoveryEvent::Privileged(outcome) => recovery_privileged(m, outcome, n, action),
        RecoveryEvent::Identified(identified) => match identified {
            Ok(identity) => recovery_identified(m, identity, n, action),
            Err(e) => if m.stage is OpenSource && m.resuming && e.says_not_found() {
                identifies_legacy(m, n, action, RecoveryStage::CheckDetached)
            } else {
                backs_out(m, n, action, LegacyStorageError::Storage(e))
            },
        },
        RecoveryEvent::Drawn(drawn) => match drawn {
            Ok(bytes) => n == (RecoveryModel {
                stage: RecoveryStage::CreateNext,
                migration_id: hex_text(bytes@),
                ..m
            }) && (action matches RecoveryAction::CreateNext { name } && name@ == NEXT_PREFIX@
                + hex_text(bytes@)),
            Err(status) => backs_out(m, n, action, LegacyStorageError::Random(status)),
        },
        RecoveryEvent::Written(outcome) => recovery_written(m, outcome, n, action),
    }
}

impl RecoveryRun {
    /// Whether the state is there, has a phase, and the phase is durable or not.
    pub open spec fn holds(self, phase: MigrationPhase, durable: Option<MigrationPhase>) -> bool {
        self.state is Some && self.state->0.phase == phase && self.durable == durable
    }

    /// Whether a new detachment is of the object that was consented to.
    pub open spec fn is_consented(self) -> bool {
        !self.resuming && self.state is Some ==> self.state->0.source_identity == self.detected
    }

    /// Whether the state is there and durable.
    pub open spec fn keeps(self) -> bool {
        self.state is Some && self.durable == Some(self.state->0.phase)
    }

    /// What holds between steps: the privileges are up exactly where they are needed,
    /// and the state is at most one phase ahead of what is durable.
    pub open spec fn inv(self) -> bool {
        let stage = self.stage;
        &&& self.raised == stage.is_privileged()
        &&& self.is_consented()
        &&& match stage {
            RecoveryStage::OpenBootstrap | RecoveryStage::CreateBootstrap
            | RecoveryStage::ReopenBootstrap | RecoveryStage::ValidateBootstrap
            | RecoveryStage::LockBootstrap | RecoveryStage::ReadStates => !self.resuming
                && self.state is None && self.durable is None && self.error is None,
            RecoveryStage::RaisePrivileges => self.error is None && if self.resuming {
                self.keeps() && !(self.state->0.phase is Done)
            } else {
                self.state is None && self.durable is None
            },
            RecoveryStage::OpenSource => self.error is None && if self.resuming {
                self.holds(MigrationPhase::Prepared, Some(MigrationPhase::Prepared))
            } else {
                self.state is None && self.durable is None
            },
            RecoveryStage::DrawId | RecoveryStage::CreateNext | RecoveryStage::IdentifyNext =>
                !self.resuming && self.state is None && self.durable is None
                    && self.error is None,
            RecoveryStage::WritePrepared => !self.resuming && self.error is None && self.holds(
                MigrationPhase::Prepared,
                None,
            ),
            RecoveryStage::RemoveNext => self.error is Some,
            RecoveryStage::DetachSource => self.error is None && self.holds(
                MigrationPhase::Prepared,
                Some(MigrationPhase::Prepared),
            ),
            RecoveryStage::CheckDetached => self.resuming && self.error is None && self.holds(
                MigrationPhase::Prepared,
                Some(MigrationPhase::Prepared),
            ),
            RecoveryStage::WriteDetached => self.error is None && self.holds(
                MigrationPhase::Detached,
                Some(MigrationPhase::Prepared),
            ),
            RecoveryStage::ActivateNext => self.error is None && self.holds(
                MigrationPhase::Detached,
                Some(MigrationPhase::Detached),
            ),
            RecoveryStage::ValidateActive | RecoveryStage::IdentifyActive => !self.resuming
                && self.error is None && self.holds(
                MigrationPhase::Detached,
                Some(MigrationPhase::Detached),
            ),
            RecoveryStage::CheckLegacy | RecoveryStage::OpenNext | RecoveryStage::CheckNext =>
                self.resuming && self.error is None && self.holds(
                    MigrationPhase::Detached,
                    Some(MigrationPhase::Detached),
                ),
            RecoveryStage::VerifyRoot | RecoveryStage::VerifyLegacy => self.resuming
                && self.error is None && self.keeps() && !(self.state->0.phase is Prepared)
                && !(self.state->0.phase is Done),
            RecoveryStage::WriteRootReady => self.error is None && self.holds(
                MigrationPhase::RootReady,
                Some(MigrationPhase::Detached),
            ),
            RecoveryStage::RestorePrivileges => self.error is None ==> self.keeps() && (
            self.state->0.phase is RootReady || self.state->0.phase is AuditPending),
            RecoveryStage::OpenRoot => self.error is None && self.keeps() && (
            self.state->0.phase is RootReady || self.state->0.phase is AuditPending),
            RecoveryStage::WriteAuditPending => self.error is None && self.holds(
                MigrationPhase::AuditPending,
                Some(MigrationPhase::RootReady),
            ),
            RecoveryStage::Finished => true,
        }
    }

    /// The run behind a consent to detach an object.
    pub fn new(detected: FileIdentity) -> (r: (RecoveryRun, RecoveryAction))
        ensures
            r.0.inv(),
            r.0@ == RecoveryModel::fresh(detected),
            r.1 == (RecoveryAction::OpenBootstrap { name: BOOTSTRAP_DIRECTORY }),
    {
        let run = RecoveryRun {
            stage: RecoveryStage::OpenBootstrap,
            detected: detected,
            resuming: false,
            migration_id: String::new(),
            state: None,
            durable: None,
            error: None,
            raised: false,
        };
        assert(run@ =~= RecoveryModel::fresh(detected));
        (run, RecoveryAction::OpenBootstrap { name: BOOTSTRAP_DIRECTORY })
    }

    fn finish(&mut self, result: Result<PendingProductionStorage, LegacyStorageError>) -> (r:
        RecoveryAction)
        ensures
            old(self).is_consented() ==> final(self).inv(),
            recovery_ends(final(self)@, r, result),
    {
        self.stage = RecoveryStage::Finished;
        self.raised = false;
        RecoveryAction::Finish(result)
    }

    fn back_out(&mut self, e: LegacyStorageError) -> (r: RecoveryAction)
        requires
            old(self).raised,
        ensures
            backs_out(old(self)@, final(self)@, r, e),
            old(self).is_consented() ==> final(self).inv(),
    {
        self.error = Some(e);
        self.stage = RecoveryStage::RestorePrivileges;
        RecoveryAction::RestorePrivileges
    }

    fn go(&mut self, stage: RecoveryStage)
        ensures
            final(self)@ == old(self)@.at(stage),
            *final(self) == (RecoveryRun { stage: stage, ..*old(self) }),
    {
        self.stage = stage;
    }

    fn write(&mut self, stage: RecoveryStage, phase: MigrationPhase) -> (r: RecoveryAction)
        requires
            old(self).state is Some,
        ensures
            writes(old(self)@, final(self)@, r, stage, old(self)@.state->0.at(phase)),
            final(self).holds(phase, old(self).durable),
            final(self).state->0.source_identity == old(self).state->0.source_identity,
            final(self).stage == stage,
            final(self).raised == old(self).raised,
            final(self).resuming == old(self).resuming,
            final(self).detected == old(self).detected,
            final(self).error == old(self).error,
    {
        let mut record = self.state.take().unwrap();
        record.phase = phase;
        let copy = record.copy();
        self.state = Some(record);
        self.stage = stage;
        RecoveryAction::WriteState { record: copy }
    }

    fn identify_legacy(&mut self, stage: RecoveryStage) -> (r: RecoveryAction)
        requires
            old(self).state is Some,
        ensures
            identifies_legacy(old(self)@, final(self)@, r, stage),
            *final(self) == (RecoveryRun { stage: stage, ..*old(self) }),
    {
        let name = match &self.state {
            Some(record) => owned(record.legacy_name.as_str()),
            None => String::new(),
        };
        self.stage = stage;
        RecoveryAction::IdentifyObject { name: name }
    }

    fn detach(&mut self) -> (r: RecoveryAction)
        requires
            old(self).state is Some,
        ensures
            detaches(old(self)@, final(self)@, r),
            *final(self) == (RecoveryRun { stage: RecoveryStage::DetachSource, ..*old(self) }),
    {
        let name = match &self.state {
            Some(record) => owned(record.legacy_name.as_str()),
            None => String::new(),
        };
        self.stage = RecoveryStage::DetachSource;
        RecoveryAction::RenameSource { name: name }
    }

    fn succeed(&mut self) -> (r: RecoveryAction)
        requires
            old(self).state is Some,
            old(self).state->0.phase is AuditPending,
        ensures
            final(self).inv(),
            recovery_succeeds(old(self)@, final(self)@, r),
            r matches RecoveryAction::Finish(Ok(pending)) && pending.state.phase is AuditPending,
    {
        let record = self.state.take().unwrap();
        self.finish(Ok(PendingProductionStorage { state: record }))
    }

    fn step_done(&mut self) -> (r: RecoveryAction)
        requires
            old(self).inv(),
            old(self).stage.expects(RecoveryEvent::Answered(Ok(()))),
            !(old(self).stage is RemoveNext),
        ensures
            final(self).inv(),
            recovery_done(old(self)@, final(self)@, r),
            r matches RecoveryAction::Finish(Ok(pending)) ==> pending.state.phase is AuditPending,
    {
        match self.stage {
            RecoveryStage::OpenBootstrap | RecoveryStage::ReopenBootstrap => {
                self.go(RecoveryStage::ValidateBootstrap);
                RecoveryAction::ValidateBootstrap
            },
            RecoveryStage::CreateBootstrap | RecoveryStage::ValidateBootstrap => {
                self.go(RecoveryStage::LockBootstrap);
                RecoveryAction::LockBootstrap {
                    name: BOOTSTRAP_LOCK,
                    millis: BOOTSTRAP_LOCK_TIMEOUT_MS,
                }
            },
            RecoveryStage::LockBootstrap => {
                self.go(RecoveryStage::ReadStates);
                RecoveryAction::ReadStates
            },
            RecoveryStage::CreateNext => {
                self.go(RecoveryStage::IdentifyNext);
                RecoveryAction::IdentifyNext
            },
            RecoveryStage::DetachSource => self.write(
                RecoveryStage::WriteDetached,
                MigrationPhase::Detached,
            ),
            RecoveryStage::ActivateNext => {
                if self.resuming {
                    self.write(RecoveryStage::WriteRootReady, MigrationPhase::RootReady)
                } else {
                    self.go(RecoveryStage::ValidateActive);
                    RecoveryAction::ValidateActive
                }
            },
            RecoveryStage::ValidateActive => {
                self.go(RecoveryStage::IdentifyActive);
                RecoveryAction::IdentifyActive
            },
            RecoveryStage::OpenNext => {
                self.go(RecoveryStage::CheckNext);
                RecoveryAction::IdentifyNext
            },
            _ => {
                let phase = self.phase();
                match recovery_plan(phase) {
                    RecoveryPlan::MarkAuditPending => self.write(
                        RecoveryStage::WriteAuditPending,
                        MigrationPhase::AuditPending,
                    ),
                    RecoveryPlan::RetryTerminalAudit => self.succeed(),
                    _ => {
                        let text = cat2(
                            "expected root-ready or audit-pending, found ",
                            phase.label(),
                        );
                        self.finish(Err(LegacyStorageError::InvalidState(text)))
                    },
                }
            },
        }
    }

    fn phase(&self) -> (r: MigrationPhase)
        requires
            self.state is Some,
        ensures
            r == self.state->0.phase,
    {
        match &self.state {
            Some(record) => record.phase,
            None => MigrationPhase::Done,
        }
    }

    fn step_failed(&mut self, e: StorageError) -> (r: RecoveryAction)
        requires
            old(self).inv(),
            old(self).stage.expects(RecoveryEvent::Answered(Err(e))),
            !(old(self).stage is RemoveNext),
        ensures
            final(self).inv(),
            recovery_failed(old(self)@, e, final(self)@, r),
            !(r is WriteState),
    {
        match self.stage {
            RecoveryStage::OpenBootstrap if e.is_not_found() => {
                self.go(RecoveryStage::CreateBootstrap);
                RecoveryAction::CreateBootstrap { name: BOOTSTRAP_DIRECTORY }
            },
            RecoveryStage::CreateBootstrap if e.is_collision() => {
                self.go(RecoveryStage::ReopenBootstrap);
                RecoveryAction::OpenBootstrap { name: BOOTSTRAP_DIRECTORY }
            },
            RecoveryStage::OpenNext if e.is_not_found() => {
                self.go(RecoveryStage::VerifyRoot);
                RecoveryAction::IdentifyRoot { name: PRODUCT_DIRECTORY }
            },
            _ => {
                if self.raised {
                    self.back_out(LegacyStorageError::Storage(e))
                } else {
                    self.finish(Err(LegacyStorageError::Storage(e)))
                }
            },
        }
    }

    fn step_loaded(&mut self, loaded: Result<Vec<StateEntry>, StorageError>) -> (r: RecoveryAction)
        requires
            old(self).inv(),
            old(self).stage is ReadStates,
        ensures
            final(self).inv(),
            recovery_follows(old(self)@, RecoveryEvent::Loaded(loaded), final(self)@, r),
            r is Finish || r is RaisePrivileges,
            !(r matches RecoveryAction::Finish(Ok(_))),
    {
        let files = match loaded {
            Ok(files) => files,
            Err(e) => {
                return self.finish(Err(LegacyStorageError::Storage(e)));
            },
        };
        let found = load_pending_from_bootstrap(files);
        assert(load_outcome(state_files(files@), found));
        match found {
            Err(e) => self.finish(Err(e)),
            Ok(None) => {
                self.go(RecoveryStage::RaisePrivileges);
                RecoveryAction::RaisePrivileges { privileges: (SE_BACKUP_NAME, SE_RESTORE_NAME) }
            },
            Ok(Some(record)) => {
                self.resuming = true;
                self.durable = Some(record.phase);
                self.state = Some(record);
                self.go(RecoveryStage::RaisePrivileges);
                RecoveryAction::RaisePrivileges { privileges: (SE_BACKUP_NAME, SE_RESTORE_NAME) }
            },
        }
    }

    fn step_privileged(&mut self, outcome: Result<(), SecurityError>) -> (r: RecoveryAction)
        requires
            old(self).inv(),
            old(self).stage.expects(RecoveryEvent::Privileged(outcome)),
        ensures
            final(self).inv(),
            recovery_privileged(old(self)@, outcome, final(self)@, r),
            !r.moves() && !(r is WriteState),
            !(r matches RecoveryAction::Finish(Ok(_))),
    {
        match self.stage {
            RecoveryStage::RaisePrivileges => match outcome {
                Err(e) => self.finish(Err(LegacyStorageError::Privilege(e))),
                Ok(()) => {
                    self.raised = true;
                    if !self.resuming {
                        self.go(RecoveryStage::OpenSource);
                        return RecoveryAction::OpenSource { name: PRODUCT_DIRECTORY };
                    }
                    match recovery_plan(self.phase()) {
                        RecoveryPlan::DetachAndActivate => {
                            self.go(RecoveryStage::OpenSource);
                            RecoveryAction::OpenSource { name: PRODUCT_DIRECTORY }
                        },
                        RecoveryPlan::Activate => self.identify_legacy(
                            RecoveryStage::CheckLegacy,
                        ),
                        _ => {
                            self.go(RecoveryStage::VerifyRoot);
                            RecoveryAction::IdentifyRoot { name: PRODUCT_DIRECTORY }
                        },
                    }
                },
            },
            _ => {
                let failed = self.error.is_some();
                if failed {
                    let error = self.error.take().unwrap();
                    match finish_privileged_namespace(Err(error), outcome) {
                        Err(e) => self.finish(Err(e)),
                        Ok(_) => self.finish(Err(LegacyStorageError::IdentityChanged)),
                    }
                } else {
                    let record = self.state.take().unwrap();
                    match finish_privileged_namespace(Ok(record), outcome) {
                        Err(e) => self.finish(Err(e)),
                        Ok(record) => {
                            self.state = Some(record);
                            self.raised = false;
                            self.go(RecoveryStage::OpenRoot);
                            RecoveryAction::OpenRoot { name: PRODUCT_DIRECTORY }
                        },
                    }
                }
            },
        }
    }

    fn expected(&self) -> (r: FileIdentity)
        requires
            self.inv(),
            self.stage.expects(RecoveryEvent::Identified(Ok(self.detected))),
            !(self.stage is IdentifyNext),
        ensures
            r == (match self.stage {
                RecoveryStage::OpenSource => if self.resuming {
                    self.state->0.source_identity
                } else {
                    self.detected
                },
                RecoveryStage::CheckDetached | RecoveryStage::CheckLegacy
                | RecoveryStage::VerifyLegacy => self.state->0.source_identity,
                _ => self.state->0.next_identity,
            }),
    {
        match &self.state {
            None => self.detected,
            Some(record) => match self.stage {
                RecoveryStage::OpenSource | RecoveryStage::CheckDetached
                | RecoveryStage::CheckLegacy | RecoveryStage::VerifyLegacy =>
                    record.source_identity,
                _ => record.next_identity,
            },
        }
    }

    fn first_record(&self, next_identity: FileIdentity) -> (r: MigrationStateRecord)
        ensures
            r@ == self@.first_state(next_identity),
    {
        MigrationStateRecord {
            schema: 1,
            migration_id: owned(self.migration_id.as_str()),
            phase: MigrationPhase::Prepared,
            source_identity: self.detected,
            next_identity: next_identity,
            legacy_name: cat2(LEGACY_PREFIX, self.migration_id.as_str()),
            next_name: cat2(NEXT_PREFIX, self.migration_id.as_str()),
        }
    }

    fn step_identified(&mut self, identity: FileIdentity) -> (r: RecoveryAction)
        requires
            old(self).inv(),
            old(self).stage.expects(RecoveryEvent::Identified(Ok(identity))),
        ensures
            final(self).inv(),
            recovery_identified(old(self)@, identity, final(self)@, r),
            !(r is Finish),
    {
        if self.stage == RecoveryStage::IdentifyNext {
            let record = self.first_record(identity);
            let copy = record.copy();
            self.state = Some(record);
            self.go(RecoveryStage::WritePrepared);
            return RecoveryAction::WriteState { record: copy };
        }
        let expected = self.expected();
        if identity != expected {
            return self.back_out(LegacyStorageError::IdentityChanged);
        }
        match self.stage {
            RecoveryStage::OpenSource => {
                if self.resuming {
                    self.detach()
                } else {
                    self.go(RecoveryStage::DrawId);
                    RecoveryAction::DrawRandom
                }
            },
            RecoveryStage::CheckDetached => self.write(
                RecoveryStage::WriteDetached,
                MigrationPhase::Detached,
            ),
            RecoveryStage::CheckLegacy => {
                let name = match &self.state {
                    Some(record) => owned(record.next_name.as_str()),
                    None => String::new(),
                };
                self.go(RecoveryStage::OpenNext);
                RecoveryAction::OpenNext { name: name }
            },
            RecoveryStage::CheckNext => {
                self.go(RecoveryStage::ActivateNext);
                RecoveryAction::ActivateNext { name: PRODUCT_DIRECTORY }
            },
            RecoveryStage::IdentifyActive => self.write(
                RecoveryStage::WriteRootReady,
                MigrationPhase::RootReady,
            ),
            RecoveryStage::VerifyRoot => self.identify_legacy(RecoveryStage::VerifyLegacy),
            _ => {
                if self.phase() == MigrationPhase::Detached {
                    self.write(RecoveryStage::WriteRootReady, MigrationPhase::RootReady)
                } else {
                    self.go(RecoveryStage::RestorePrivileges);
                    RecoveryAction::RestorePrivileges
                }
            },
        }
    }

    fn step_written(&mut self, outcome: Result<(), LegacyStorageError>) -> (r: RecoveryAction)
        requires
            old(self).inv(),
            old(self).stage.expects(RecoveryEvent::Written(outcome)),
        ensures
            final(self).inv(),
            recovery_written(old(self)@, outcome, final(self)@, r),
            !(r is WriteState),
            r matches RecoveryAction::Finish(Ok(pending)) ==> pending.state.phase is AuditPending,
    {
        match outcome {
            Ok(()) => {
                let phase = self.phase();
                self.durable = Some(phase);
                match self.stage {
                    RecoveryStage::WritePrepared => self.detach(),
                    RecoveryStage::WriteDetached => {
                        if self.resuming {
                            self.identify_legacy(RecoveryStage::CheckLegacy)
                        } else {
                            self.go(RecoveryStage::ActivateNext);
                            RecoveryAction::ActivateNext { name: PRODUCT_DIRECTORY }
                        }
                    },
                    RecoveryStage::WriteRootReady => {
                        self.go(RecoveryStage::RestorePrivileges);
                        RecoveryAction::RestorePrivileges
                    },
                    _ => self.succeed(),
                }
            },
            Err(e) => match self.stage {
                RecoveryStage::WritePrepared => match persist_prepared_state(Err(e)) {
                    PreparedStep::RemoveNext(e) => {
                        self.error = Some(e);
                        self.go(RecoveryStage::RemoveNext);
                        RecoveryAction::RemoveNext
                    },
                    PreparedStep::Fail(e) => self.back_out(e),
                    PreparedStep::Proceed => RecoveryAction::RemoveNext,
                },
                RecoveryStage::WriteAuditPending => self.finish(Err(e)),
                _ => self.back_out(e),
            },
        }
    }

    /// Goes on after an event.
    ///
    /// States are written in the order of the phases, one after the other. Roots are
    /// moved only under privileges, the old one only where it is the object that was
    /// consented to (or, resuming, the one that the state names), and the run never
    /// ends with privileges up.
    pub fn step(&mut self, event: RecoveryEvent) -> (r: RecoveryAction)
        requires
            old(self).inv(),
            old(self).stage.expects(event),
        ensures
            final(self).inv(),
            recovery_follows(old(self)@, event, final(self)@, r),
            r matches RecoveryAction::WriteState { record } ==> match final(self).durable {
                None => record.phase is Prepared,
                Some(last) => record.phase.rank() == last.rank() + 1,
            },
            r.moves() ==> final(self).raised,
            r is RenameSource ==> if final(self).resuming {
                event == RecoveryEvent::Identified(Ok(final(self).state->0.source_identity))
            } else {
                final(self).state->0.source_identity == final(self).detected
            },
            r is Finish ==> !final(self).raised,
            r matches RecoveryAction::Finish(Ok(pending)) ==> pending.state.phase is AuditPending,
    {
        match event {
            RecoveryEvent::Answered(outcome) => {
                if self.stage == RecoveryStage::RemoveNext {
                    let error = self.error.take().unwrap();
                    let e = after_removal(error, outcome);
                    let action = self.back_out(e);
                    assert(backs_out(old(self)@, self@, action, e));
                    return action;
                }
                match outcome {
                    Ok(()) => self.step_done(),
                    Err(e) => self.step_failed(e),
                }
            },
            RecoveryEvent::Loaded(loaded) => self.step_loaded(loaded),
            RecoveryEvent::Privileged(outcome) => self.step_privileged(outcome),
            RecoveryEvent::Identified(identified) => match identified {
                Ok(identity) => self.step_identified(identity),
                Err(e) => {
                    if self.stage == RecoveryStage::OpenSource && self.resuming
                        && e.is_not_found() {
                        self.identify_legacy(RecoveryStage::CheckDetached)
                    } else {
                        self.back_out(LegacyStorageError::Storage(e))
                    }
                },
            },
            RecoveryEvent::Drawn(drawn) => match random_id(drawn) {
                Ok(id) => {
                    let name = cat2(NEXT_PREFIX, id.as_str());
                    self.migration_id = id;
                    self.go(RecoveryStage::CreateNext);
                    RecoveryAction::CreateNext { name: name }
                },
                Err(e) => self.back_out(e),
            },
            RecoveryEvent::Written(outcome) => self.step_written(outcome),
        }
    }
}

/// Storage is ready only once its root was opened and found sound, or was created because it
/// was missing; nothing that is there is ever created over.
pub proof fn storage_is_ready_only_behind_a_sound_root(
    m: InspectRun,
    event: InspectEvent,
    n: InspectRun,
    action: InspectAction,
)
    requires
        m.stage.expects(event),
        inspect_follows(m, event, n, action),
    ensures
        action == InspectAction::Finish(Ok(ProductionStorageState::Ready)) ==> (m.stage is OpenRoot
            || m.stage is CreateRoot) && (event matches InspectEvent::Answered(Ok(_))),
        action is CreateRoot ==> m.stage is OpenRoot && (event matches InspectEvent::Answered(Err(e))
            && e.says_not_found()),
        action is OpenRoot ==> m.stage is ReadStates || (m.stage is OpenBootstrap && (event matches
            InspectEvent::Answered(Err(e)) && e.says_not_found())),
        m.stage is OpenRoot && (event matches InspectEvent::Answered(Err(e)) && !e.says_not_found())
            ==> action is CaptureIdentity && (event matches InspectEvent::Answered(Err(e))
            && n.refusal@ == e.text()),
        action matches InspectAction::Finish(Ok(ProductionStorageState::NeedsConsent(recovery)))
            ==> event == InspectEvent::Identified(Ok(recovery.detected_identity))
            && recovery.reason@ == m.refusal@ && !recovery.resume,
        (event matches InspectEvent::Answered(Err(e)) && !e.says_not_found() && m.stage != (
        InspectStage::OpenRoot)) ==> action is Finish,
{
}

/// A detachment that was left unfinished is resumed: storage is not opened beside it.
pub proof fn an_interrupted_detachment_is_never_passed_over(
    m: InspectRun,
    files: Vec<StateEntry>,
    n: InspectRun,
    action: InspectAction,
    i: int,
)
    requires
        m.stage is ReadStates,
        inspect_follows(m, InspectEvent::Loaded(Ok(files)), n, action),
        0 <= i < state_files(files@).len(),
        state_files(files@)[i].content matches Ok(left) && !(left.phase is Done),
        forall|j: int|
            0 <= j < state_files(files@).len() ==> ((
            #[trigger] state_files(files@)[j]).content matches Ok(other) && (other.migration_id@
                == state_files(files@)[i].content->Ok_0.migration_id@ ==> other.phase.rank()
                <= state_files(files@)[i].content->Ok_0.phase.rank())),
    ensures
        action is Finish,
        action matches InspectAction::Finish(Ok(found)) ==> (found matches
            ProductionStorageState::NeedsResume(recovery) && recovery.resume
            && recovery.detected_identity == state_files(files@)[i].content->Ok_0.source_identity),
{
    let found = choose|found| #[trigger]
        load_outcome(state_files(files@), found) && found_follows(found, n, action);
    what_is_pending_was_left_unfinished(state_files(files@), found);
    let all = states_in(state_files(files@));
    if all_sound(state_files(files@)) {
        assert forall|j: int| #[trigger] belongs(all, all[i].migration_id, j) implies all[
            j
        ].phase.rank() <= all[i].phase.rank() by {
            assert(state_files(files@)[j].content->Ok_0@ == all[j]);
        }
        assert(all[i] == state_files(files@)[i].content->Ok_0@);
        assert(is_pending(all, i));
    }
}

/// The write of a state ends well only where the state was found on disk already, or was
/// published and synchronized; another state under its name is never replaced.
pub proof fn a_state_is_on_disk_where_its_write_ended_well(
    state: StateModel,
    event: StateWriteEvent,
    n: StateWrite,
    action: StateWriteAction,
)
    requires
        write_follows(state, event, n, action),
    ensures
        (action matches StateWriteAction::Finish(Ok(_))) ==> (event matches StateWriteEvent::Synced(Ok(_))) || (
        event matches StateWriteEvent::Opened(Ok(Ok(existing))) && existing@ == state),
        action is DrawRandom ==> (event matches StateWriteEvent::Opened(Err(e))
            && e.says_not_found()),
        action matches StateWriteAction::Store { state: stored } ==> stored@ == state,
        action matches StateWriteAction::Publish { name } ==> name@ == state.file_name() && (event matches StateWriteEvent::Stored(Ok(_))),
        action is Sync ==> (event matches StateWriteEvent::Published(Ok(_))),
        action matches StateWriteAction::Finish(Err(e)) ==> (may_be_durable(e) ==> event is Published
            || event is Synced) && (event is Published || event is Synced ==> may_be_durable(e)),
        (event matches StateWriteEvent::Opened(Ok(Ok(existing))) && existing@ != state)
            ==> action is Finish && !(action matches StateWriteAction::Finish(Ok(_))),
{
}

} // verus!
