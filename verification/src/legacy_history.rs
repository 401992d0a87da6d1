//! What a recovery of the storage did, told from the whole of it.
use crate::legacy::{
    all_sound, is_pending, load_outcome, state_files, states_in, LegacyStorageError, MigrationPhase,
    MigrationStateRecord, StateEntry, StateModel,
};
use crate::legacy_run::{
    recovery_follows, recovery_found, PendingProductionStorage, RecoveryAction, RecoveryEvent,
    RecoveryModel, RecoveryStage,
};
use crate::secure_fs::FileIdentity;
use vstd::prelude::*;

verus! {

/// Whether a recovery behind a consent to detach an object asks for these actions, the
/// last of them not yet answered, where the others are answered by these events, and is
/// then in a given state.
pub open spec fn recovery_reaches(
    detected: FileIdentity,
    events: Seq<RecoveryEvent>,
    actions: Seq<RecoveryAction>,
    m: RecoveryModel,
) -> bool
    decreases events.len(),
{
    if events.len() == 0 {
        &&& actions.len() == 1
        &&& actions[0] is OpenBootstrap
        &&& m == RecoveryModel::fresh(detected)
    } else {
        &&& actions.len() == events.len() + 1
        &&& exists|before: RecoveryModel| #[trigger]
            recovery_follows(before, events.last(), m, actions.last()) && before.stage.expects(
                events.last(),
            ) && recovery_reaches(detected, events.drop_last(), actions.drop_last(), before)
    }
}

/// Whether a state was written.
pub open spec fn writes_at(
    events: Seq<RecoveryEvent>,
    actions: Seq<RecoveryAction>,
    state: StateModel,
    i: int,
) -> bool {
    &&& 0 <= i < events.len()
    &&& i < actions.len()
    &&& actions[i] matches RecoveryAction::WriteState { record } && record@ == state
    &&& events[i] matches RecoveryEvent::Written(Ok(_))
}

/// Whether a file of the bootstrap directory holds a state, under the state's name.
pub open spec fn holds_state(entry: StateEntry, state: StateModel) -> bool {
    &&& entry.name matches Some(name) && name@ == state.file_name()
    &&& entry.content matches Ok(record) && record@ == state && state.schema == 1
}

pub open spec fn has_state(entries: Seq<StateEntry>, state: StateModel) -> bool {
    exists|k: int| 0 <= k < entries.len() && holds_state(#[trigger] entries[k], state)
}

/// Whether a state was read.
pub open spec fn reads_at(events: Seq<RecoveryEvent>, state: StateModel, i: int) -> bool {
    0 <= i < events.len() && (events[i] matches RecoveryEvent::Loaded(Ok(files)) && has_state(
        files@,
        state,
    ))
}

pub open spec fn was_read(events: Seq<RecoveryEvent>, state: StateModel) -> bool {
    exists|i: int| #[trigger] reads_at(events, state, i)
}

/// Whether a state is known to be on disk: it was written, or it was read there.
pub open spec fn is_durable(
    events: Seq<RecoveryEvent>,
    actions: Seq<RecoveryAction>,
    state: StateModel,
) -> bool {
    was_read(events, state) || exists|i: int| #[trigger] writes_at(events, actions, state, i)
}

/// Whether the root was opened for renaming and found to be an object.
pub open spec fn opens_at(
    events: Seq<RecoveryEvent>,
    actions: Seq<RecoveryAction>,
    identity: FileIdentity,
    i: int,
) -> bool {
    &&& 0 <= i < events.len()
    &&& i < actions.len()
    &&& actions[i] is OpenSource
    &&& events[i] == RecoveryEvent::Identified(Ok(identity))
}

pub open spec fn was_opened(
    events: Seq<RecoveryEvent>,
    actions: Seq<RecoveryAction>,
    identity: FileIdentity,
) -> bool {
    exists|i: int| #[trigger] opens_at(events, actions, identity, i)
}

/// Whether what stands under the name of the root, or was about to, is an object.
pub open spec fn checks_at(
    events: Seq<RecoveryEvent>,
    actions: Seq<RecoveryAction>,
    identity: FileIdentity,
    i: int,
) -> bool {
    &&& 0 <= i < events.len()
    &&& i < actions.len()
    &&& actions[i] is IdentifyActive || actions[i] is IdentifyRoot || actions[i] is IdentifyNext
    &&& events[i] == RecoveryEvent::Identified(Ok(identity))
}

pub open spec fn was_checked(
    events: Seq<RecoveryEvent>,
    actions: Seq<RecoveryAction>,
    identity: FileIdentity,
) -> bool {
    exists|i: int| #[trigger] checks_at(events, actions, identity, i)
}

/// Whether the privileges were raised, and whether they were asked to be given back.
pub open spec fn raises_at(
    events: Seq<RecoveryEvent>,
    actions: Seq<RecoveryAction>,
    i: int,
) -> bool {
    &&& 0 <= i < events.len()
    &&& i < actions.len()
    &&& actions[i] is RaisePrivileges
    &&& events[i] matches RecoveryEvent::Privileged(Ok(_))
}

pub open spec fn was_raised(events: Seq<RecoveryEvent>, actions: Seq<RecoveryAction>) -> bool {
    exists|i: int| #[trigger] raises_at(events, actions, i)
}

pub open spec fn gives_back_at(actions: Seq<RecoveryAction>, i: int) -> bool {
    0 <= i < actions.len() && actions[i] is RestorePrivileges
}

pub open spec fn was_given_back(actions: Seq<RecoveryAction>) -> bool {
    exists|i: int| #[trigger] gives_back_at(actions, i)
}

/// The state before that of a phase.
pub open spec fn preceding(state: StateModel) -> StateModel {
    state.at(
        match state.phase {
            MigrationPhase::Done => MigrationPhase::AuditPending,
            MigrationPhase::AuditPending => MigrationPhase::RootReady,
            MigrationPhase::RootReady => MigrationPhase::Detached,
            _ => MigrationPhase::Prepared,
        },
    )
}

/// The stages behind the write of the first state.
spec fn is_late(stage: RecoveryStage) -> bool {
    stage is DetachSource || stage is WriteDetached || stage is ActivateNext || stage is
        ValidateActive || stage is IdentifyActive || stage is WriteRootReady || stage is
        CheckDetached || stage is CheckLegacy || stage is OpenNext || stage is CheckNext || stage
        is VerifyRoot || stage is VerifyLegacy || stage is OpenRoot || stage is WriteAuditPending
}

spec fn is_early(stage: RecoveryStage) -> bool {
    stage is OpenBootstrap || stage is CreateBootstrap || stage is ReopenBootstrap || stage is
        ValidateBootstrap || stage is LockBootstrap || stage is ReadStates
}

spec fn holds(
    detected: FileIdentity,
    events: Seq<RecoveryEvent>,
    actions: Seq<RecoveryAction>,
    m: RecoveryModel,
) -> bool {
    let stage = m.stage;
    let last = actions.last();
    let state = m.state->0;
    &&& actions.len() == events.len() + 1
    &&& !(stage is Finished) ==> m.detected == detected
    &&& is_early(stage) ==> !m.resuming && m.state is None && m.durable is None && m.error is None
        && !was_raised(events, actions)
    &&& stage is RaisePrivileges ==> m.error is None && !was_raised(events, actions) && (m.resuming
        <==> m.state is Some) && (m.resuming ==> m.durable == Some(state.phase)) && (!m.resuming
        ==> m.durable is None)
    &&& stage is OpenSource ==> last is OpenSource && m.error is None && (m.resuming ==> m.state is
        Some && m.durable == Some(state.phase) && state.phase is Prepared) && (!m.resuming
        ==> m.state is None && m.durable is None)
    &&& stage is DrawId || stage is CreateNext || stage is IdentifyNext ==> !m.resuming && m.state
        is None && m.durable is None && was_opened(events, actions, detected) && m.error is None
    &&& stage is IdentifyNext ==> last is IdentifyNext
    &&& stage is WritePrepared ==> !m.resuming && m.state is Some && m.durable is None
        && state.source_identity == detected && was_opened(events, actions, detected) && state.phase
        is Prepared && m.error is None
    &&& stage is WritePrepared || stage is WriteDetached || stage is WriteRootReady || stage is
        WriteAuditPending ==> (last matches RecoveryAction::WriteState { record } && record@
        == state)
    &&& is_late(stage) ==> m.state is Some && m.durable is Some && m.error is None
    &&& !m.resuming && m.state is Some && !(stage is Finished) ==> state.source_identity
        == detected
    &&& m.durable is Some && !(stage is Finished) ==> m.state is Some && is_durable(
        events,
        actions,
        state.at(m.durable->0),
    )
    &&& m.resuming && (stage is RaisePrivileges || stage is OpenSource || stage is DetachSource)
        ==> was_read(events, state)
    &&& stage is DetachSource ==> (last matches RecoveryAction::RenameSource { name } && name@
        == state.legacy_name) && was_opened(events, actions, state.source_identity) && state.phase
        is Prepared && m.durable == Some(MigrationPhase::Prepared)
    &&& stage is CheckDetached ==> m.resuming && state.phase is Prepared && m.durable == Some(
        MigrationPhase::Prepared,
    )
    &&& stage is WriteDetached ==> state.phase is Detached && m.durable == Some(
        MigrationPhase::Prepared,
    )
    &&& stage is ActivateNext || stage is ValidateActive || stage is IdentifyActive || stage is
        CheckLegacy || stage is OpenNext || stage is CheckNext ==> state.phase is Detached
        && m.durable == Some(MigrationPhase::Detached)
    &&& stage is VerifyRoot || stage is VerifyLegacy ==> m.durable == Some(state.phase)
    &&& stage is ActivateNext && m.resuming ==> was_checked(events, actions, state.next_identity)
    &&& stage is IdentifyActive ==> last is IdentifyActive
    &&& stage is CheckNext ==> last is IdentifyNext
    &&& stage is VerifyRoot ==> last is IdentifyRoot
    &&& stage is VerifyLegacy ==> was_checked(events, actions, state.next_identity)
    &&& stage is WriteRootReady ==> state.phase is RootReady && m.durable == Some(
        MigrationPhase::Detached,
    ) && was_checked(events, actions, state.next_identity)
    &&& stage is RestorePrivileges ==> last is RestorePrivileges && (m.error is None ==> m.state is
        Some && m.durable == Some(state.phase) && was_checked(events, actions, state.next_identity))
    &&& stage is RaisePrivileges ==> last is RaisePrivileges
    &&& stage is OpenRoot ==> last is OpenRoot && m.durable == Some(state.phase) && was_checked(
        events,
        actions,
        state.next_identity,
    )
    &&& stage is WriteAuditPending ==> state.phase is AuditPending && m.durable == Some(
        MigrationPhase::RootReady,
    ) && was_checked(events, actions, state.next_identity)
    &&& stage is OpenRoot || stage is WriteAuditPending || stage is RestorePrivileges
        ==> was_given_back(actions)
    &&& stage is Finished ==> (last matches RecoveryAction::Finish(r) && (r matches Ok(pending)
        ==> pending.state.phase is AuditPending && is_durable(events, actions, pending.state@)
        && was_checked(events, actions, pending.state.next_identity))) && (was_raised(
        events,
        actions,
    ) ==> was_given_back(actions))
    &&& last is RenameSource ==> stage is DetachSource
    &&& last is ActivateNext ==> stage is ActivateNext
    &&& last is WriteState ==> stage is WritePrepared || stage is WriteDetached || stage is
        WriteRootReady || stage is WriteAuditPending
    &&& last is Finish ==> stage is Finished
    &&& last is RemoveNext ==> events.len() > 0 && (actions[actions.len() - 2] matches
        RecoveryAction::WriteState { record } && record.phase is Prepared) && (events.last() matches
        RecoveryEvent::Written(Err(e)) && !(e is PublishedStateSync) && !(e is StatePublication))
}

proof fn lemma_one_more(
    events: Seq<RecoveryEvent>,
    actions: Seq<RecoveryAction>,
    event: RecoveryEvent,
    action: RecoveryAction,
)
    requires
        actions.len() == events.len() + 1,
    ensures
        ({
            let e = events.push(event);
            let a = actions.push(action);
            let k = events.len() as int;
            &&& e.last() == event
            &&& a.last() == action
            &&& a[a.len() - 2] == actions.last()
            &&& forall|state: StateModel|
                is_durable(events, actions, state) ==> #[trigger] is_durable(e, a, state)
            &&& forall|state: StateModel| #[trigger]
                writes_at(e, a, state, k) ==> is_durable(e, a, state)
            &&& forall|state: StateModel| #[trigger]
                reads_at(e, state, k) ==> was_read(e, state) && is_durable(e, a, state)
            &&& forall|state: StateModel|
                was_read(events, state) ==> #[trigger] was_read(e, state)
            &&& forall|id: FileIdentity|
                was_opened(events, actions, id) ==> #[trigger] was_opened(e, a, id)
            &&& forall|id: FileIdentity| #[trigger] opens_at(e, a, id, k) ==> was_opened(e, a, id)
            &&& forall|id: FileIdentity|
                was_checked(events, actions, id) ==> #[trigger] was_checked(e, a, id)
            &&& forall|id: FileIdentity| #[trigger] checks_at(e, a, id, k) ==> was_checked(e, a, id)
            &&& was_raised(e, a) <==> was_raised(events, actions) || raises_at(e, a, k)
            &&& was_given_back(a) <==> was_given_back(actions) || action is RestorePrivileges
        }),
{
    let e = events.push(event);
    let a = actions.push(action);
    let k = events.len() as int;
    assert forall|state: StateModel| was_read(events, state) implies #[trigger] was_read(
        e,
        state,
    ) by {
        let i = choose|i: int| #[trigger] reads_at(events, state, i);
        assert(reads_at(e, state, i));
    }
    assert forall|state: StateModel| is_durable(events, actions, state) implies #[trigger] is_durable(
        e,
        a,
        state,
    ) by {
        if exists|i: int| #[trigger] writes_at(events, actions, state, i) {
            let i = choose|i: int| #[trigger] writes_at(events, actions, state, i);
            assert(writes_at(e, a, state, i));
        }
    }
    assert forall|id: FileIdentity| was_opened(events, actions, id) implies #[trigger] was_opened(
        e,
        a,
        id,
    ) by {
        let i = choose|i: int| #[trigger] opens_at(events, actions, id, i);
        assert(opens_at(e, a, id, i));
    }
    assert forall|id: FileIdentity| was_checked(events, actions, id) implies #[trigger] was_checked(
        e,
        a,
        id,
    ) by {
        let i = choose|i: int| #[trigger] checks_at(events, actions, id, i);
        assert(checks_at(e, a, id, i));
    }
    if was_raised(e, a) {
        let i = choose|i: int| #[trigger] raises_at(e, a, i);
        assert(i == k || raises_at(events, actions, i));
    }
    if was_raised(events, actions) {
        let i = choose|i: int| #[trigger] raises_at(events, actions, i);
        assert(raises_at(e, a, i));
    }
    if was_given_back(a) {
        let i = choose|i: int| #[trigger] gives_back_at(a, i);
        assert(i == k + 1 || gives_back_at(actions, i));
    }
    if was_given_back(actions) {
        let i = choose|i: int| #[trigger] gives_back_at(actions, i);
        assert(gives_back_at(a, i));
    }
    assert(gives_back_at(a, k + 1) <==> action is RestorePrivileges);
}

proof fn lemma_files_are_entries(entries: Seq<StateEntry>, i: int)
    requires
        0 <= i < state_files(entries).len(),
    ensures
        exists|k: int|
            0 <= k < entries.len() && (#[trigger] entries[k]).name == Some(
                state_files(entries)[i].name,
            ) && entries[k].content == state_files(entries)[i].content,
    decreases entries.len(),
{
    let front = entries.drop_last();
    if i < state_files(front).len() {
        lemma_files_are_entries(front, i);
        let k = choose|k: int|
            0 <= k < front.len() && (#[trigger] front[k]).name == Some(state_files(front)[i].name)
                && front[k].content == state_files(front)[i].content;
        assert(entries[k] == front[k]);
    } else {
        assert(entries[entries.len() - 1] == entries.last());
    }
}

proof fn lemma_found_is_read(entries: Seq<StateEntry>, record: MigrationStateRecord)
    requires
        load_outcome(
            state_files(entries),
            Ok::<Option<MigrationStateRecord>, LegacyStorageError>(Some(record)),
        ),
    ensures
        has_state(entries, record@),
{
    let files = state_files(entries);
    assert(all_sound(files));
    let all = states_in(files);
    let i = choose|i: int| #[trigger] is_pending(all, i) && record@ == all[i];
    assert(files[i].is_sound());
    lemma_files_are_entries(entries, i);
    let k = choose|k: int|
        0 <= k < entries.len() && (#[trigger] entries[k]).name == Some(files[i].name)
            && entries[k].content == files[i].content;
    assert(holds_state(entries[k], record@));
}

#[verifier::rlimit(60)]
proof fn lemma_step(
    detected: FileIdentity,
    events: Seq<RecoveryEvent>,
    actions: Seq<RecoveryAction>,
    before: RecoveryModel,
    event: RecoveryEvent,
    m: RecoveryModel,
    action: RecoveryAction,
)
    requires
        holds(detected, events, actions, before),
        before.stage.expects(event),
        recovery_follows(before, event, m, action),
    ensures
        holds(detected, events.push(event), actions.push(action), m),
{
    let e = events.push(event);
    let a = actions.push(action);
    let k = events.len() as int;
    lemma_one_more(events, actions, event, action);
    let state = before.state->0;
    assert(state.at(state.phase) =~= state);
    match event {
        RecoveryEvent::Loaded(loaded) => {
            match loaded {
                Ok(files) => {
                    let found = choose|found| #[trigger]
                        load_outcome(state_files(files@), found) && recovery_found(
                            before,
                            found,
                            m,
                            action,
                        );
                    if let Ok(Some(record)) = found {
                        lemma_found_is_read(files@, record);
                        assert(reads_at(e, record@, k));
                        assert(record@.at(record.phase) =~= record@);
                    }
                },
                Err(_) => {},
            }
        },
        RecoveryEvent::Written(outcome) => {
            if outcome is Ok {
                assert(writes_at(e, a, state, k));
            }
        },
        RecoveryEvent::Identified(identified) => {
            match identified {
                Ok(identity) => {
                    assert(before.stage is OpenSource ==> opens_at(e, a, identity, k));
                    assert(before.stage is IdentifyActive || before.stage is CheckNext
                        || before.stage is VerifyRoot ==> checks_at(e, a, identity, k));
                    assert(state.at(MigrationPhase::Detached).at(MigrationPhase::Prepared)
                        =~= state.at(MigrationPhase::Prepared));
                    assert(state.at(MigrationPhase::RootReady).at(MigrationPhase::Detached)
                        =~= state.at(MigrationPhase::Detached));
                },
                Err(_) => {},
            }
        },
        RecoveryEvent::Answered(outcome) => {
            assert(state.at(MigrationPhase::Detached).at(MigrationPhase::Prepared) =~= state.at(
                MigrationPhase::Prepared,
            ));
            assert(state.at(MigrationPhase::RootReady).at(MigrationPhase::Detached) =~= state.at(
                MigrationPhase::Detached,
            ));
            assert(state.at(MigrationPhase::AuditPending).at(MigrationPhase::RootReady)
                =~= state.at(MigrationPhase::RootReady));
        },
        _ => {},
    }
}

proof fn lemma_holds(
    detected: FileIdentity,
    events: Seq<RecoveryEvent>,
    actions: Seq<RecoveryAction>,
    m: RecoveryModel,
)
    requires
        recovery_reaches(detected, events, actions, m),
    ensures
        holds(detected, events, actions, m),
    decreases events.len(),
{
    if events.len() > 0 {
        let before = choose|before: RecoveryModel| #[trigger]
            recovery_follows(before, events.last(), m, actions.last()) && before.stage.expects(
                events.last(),
            ) && recovery_reaches(detected, events.drop_last(), actions.drop_last(), before);
        lemma_holds(detected, events.drop_last(), actions.drop_last(), before);
        lemma_step(
            detected,
            events.drop_last(),
            actions.drop_last(),
            before,
            events.last(),
            m,
            actions.last(),
        );
        assert(events.drop_last().push(events.last()) =~= events);
        assert(actions.drop_last().push(actions.last()) =~= actions);
    }
}

/// A root is renamed only where it was found to be the object of a detachment whose first
/// state is on disk, and only to the name that this state gives. Where the detachment was
/// not begun by an earlier recovery, the object is the one that was consented to.
pub proof fn only_the_root_consented_to_is_detached(
    detected: FileIdentity,
    events: Seq<RecoveryEvent>,
    actions: Seq<RecoveryAction>,
    m: RecoveryModel,
)
    requires
        recovery_reaches(detected, events, actions, m),
        actions.last() is RenameSource,
    ensures
        exists|state: StateModel|
            {
                &&& #[trigger] is_durable(events, actions, state)
                &&& state.phase is Prepared
                &&& actions.last() matches RecoveryAction::RenameSource { name } && name@
                    == state.legacy_name
                &&& was_opened(events, actions, state.source_identity)
                &&& state.source_identity == detected || was_read(events, state)
            },
{
    lemma_holds(detected, events, actions, m);
    let state = m.state->0;
    assert(state.at(MigrationPhase::Prepared) =~= state);
    assert(is_durable(events, actions, state));
}

/// A state is written only where the state before it, of the same detachment, is on disk.
pub proof fn a_detachment_goes_forward_step_by_step(
    detected: FileIdentity,
    events: Seq<RecoveryEvent>,
    actions: Seq<RecoveryAction>,
    m: RecoveryModel,
    record: MigrationStateRecord,
)
    requires
        recovery_reaches(detected, events, actions, m),
        actions.last() == (RecoveryAction::WriteState { record: record }),
    ensures
        record.phase is Prepared ==> record.source_identity == detected && was_opened(
            events,
            actions,
            detected,
        ),
        !(record.phase is Prepared) ==> is_durable(events, actions, preceding(record@)),
        record.phase is RootReady || record.phase is AuditPending ==> was_checked(
            events,
            actions,
            record.next_identity,
        ),
        !(record.phase is Done),
{
    lemma_holds(detected, events, actions, m);
}

/// The new root takes the place of the old one only once the state that says that the old
/// one is detached is on disk.
pub proof fn a_root_is_replaced_only_once_it_is_detached(
    detected: FileIdentity,
    events: Seq<RecoveryEvent>,
    actions: Seq<RecoveryAction>,
    m: RecoveryModel,
)
    requires
        recovery_reaches(detected, events, actions, m),
        actions.last() is ActivateNext,
    ensures
        exists|state: StateModel| #[trigger]
            is_durable(events, actions, state) && state.phase is Detached,
{
    lemma_holds(detected, events, actions, m);
    let state = m.state->0;
    assert(state.at(MigrationPhase::Detached) =~= state);
    assert(is_durable(events, actions, state));
}

/// A prepared root is removed only right behind a write of the first state that failed in a
/// way that leaves no state behind.
pub proof fn a_prepared_root_is_removed_only_where_nothing_names_it(
    detected: FileIdentity,
    events: Seq<RecoveryEvent>,
    actions: Seq<RecoveryAction>,
    m: RecoveryModel,
)
    requires
        recovery_reaches(detected, events, actions, m),
        actions.last() is RemoveNext,
    ensures
        events.len() > 0,
        actions[actions.len() - 2] matches RecoveryAction::WriteState { record } && record.phase is
            Prepared,
        events.last() matches RecoveryEvent::Written(Err(e)) && !(e is PublishedStateSync) && !(e is
            StatePublication),
{
    lemma_holds(detected, events, actions, m);
}

/// A recovery that ends well hands on a detachment whose last state but one is on disk and
/// whose new root was found to be the one that was prepared.
pub proof fn a_recovery_that_ends_well_left_only_the_journal_to_do(
    detected: FileIdentity,
    events: Seq<RecoveryEvent>,
    actions: Seq<RecoveryAction>,
    m: RecoveryModel,
    pending: PendingProductionStorage,
)
    requires
        recovery_reaches(detected, events, actions, m),
        actions.last() == RecoveryAction::Finish(Ok(pending)),
    ensures
        pending.state.phase is AuditPending,
        is_durable(events, actions, pending.state@),
        was_checked(events, actions, pending.state.next_identity),
{
    lemma_holds(detected, events, actions, m);
}

/// However a recovery ends, privileges that it raised were given back.
pub proof fn a_recovery_gives_its_privileges_back(
    detected: FileIdentity,
    events: Seq<RecoveryEvent>,
    actions: Seq<RecoveryAction>,
    m: RecoveryModel,
)
    requires
        recovery_reaches(detected, events, actions, m),
        actions.last() is Finish,
    ensures
        was_raised(events, actions) ==> was_given_back(actions),
{
    lemma_holds(detected, events, actions, m);
}

} // verus!
