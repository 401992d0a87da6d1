//! What the taking of a snapshot did, told from the whole of it.
use crate::hashing::sha256_text;
use crate::paths::path_join;
use crate::snapshot::{
    describes_snapshot, snapshot_follows, SnapshotAction, SnapshotEvent, SnapshotMetadata,
    SnapshotModel, SnapshotRequest, SnapshotStage,
};
use vstd::prelude::*;

verus! {

/// Whether the taking of a snapshot, told of these events one after the other, asks for
/// these actions, each answered by the next event, and is then in a given state. The first
/// event says whether the storage is locked.
pub open spec fn snapshot_reaches(
    request: SnapshotRequest,
    events: Seq<SnapshotEvent>,
    actions: Seq<SnapshotAction>,
    m: SnapshotModel,
) -> bool
    decreases events.len(),
{
    if events.len() == 0 {
        actions.len() == 0 && m.stage is Lock && m.hashed.len() == 0 && m.failure is None
            && m.metadata is None
    } else {
        &&& actions.len() == events.len()
        &&& exists|before: SnapshotModel| #[trigger]
            snapshot_follows(request, before, events.last(), m, actions.last())
                && before.stage.expects(events.last()) && snapshot_reaches(
                request,
                events.drop_last(),
                actions.drop_last(),
                before,
            )
    }
}

/// The bytes that were read of the saved hive.
pub open spec fn hive_bytes(events: Seq<SnapshotEvent>) -> Seq<u8>
    decreases events.len(),
{
    if events.len() == 0 {
        Seq::empty()
    } else {
        let before = hive_bytes(events.drop_last());
        match events.last() {
            SnapshotEvent::Chunk(Ok(bytes)) => before + bytes@,
            _ => before,
        }
    }
}

/// Whether the key was opened and saved to a file.
pub open spec fn saves_at(
    request: SnapshotRequest,
    events: Seq<SnapshotEvent>,
    actions: Seq<SnapshotAction>,
    name: Seq<char>,
    i: int,
) -> bool {
    &&& 0 <= i
    &&& i + 2 < events.len()
    &&& i + 1 < actions.len()
    &&& actions[i] matches SnapshotAction::OpenKey { subkey } && subkey@ == request.subkey@
    &&& events[i + 1] matches SnapshotEvent::Registry(Ok(_))
    &&& actions[i + 1] matches SnapshotAction::Save { path } && path@ == path_join(
        request.directory@,
        name,
    )
    &&& events[i + 2] matches SnapshotEvent::Registry(Ok(_))
}

pub open spec fn was_saved(
    request: SnapshotRequest,
    events: Seq<SnapshotEvent>,
    actions: Seq<SnapshotAction>,
    name: Seq<char>,
) -> bool {
    exists|i: int| #[trigger] saves_at(request, events, actions, name, i)
}

/// Whether metadata was written.
pub open spec fn describes_at(
    events: Seq<SnapshotEvent>,
    actions: Seq<SnapshotAction>,
    metadata: SnapshotMetadata,
    i: int,
) -> bool {
    &&& 0 <= i < actions.len()
    &&& i + 1 < events.len()
    &&& actions[i] matches SnapshotAction::WriteMetadata { metadata: written } && written.says(
        metadata,
    )
    &&& events[i + 1] matches SnapshotEvent::Written(Ok(_))
}

pub open spec fn was_described(
    events: Seq<SnapshotEvent>,
    actions: Seq<SnapshotAction>,
    metadata: SnapshotMetadata,
) -> bool {
    exists|i: int| #[trigger] describes_at(events, actions, metadata, i)
}

/// Whether no file of a name was there before.
pub open spec fn misses_at(
    events: Seq<SnapshotEvent>,
    actions: Seq<SnapshotAction>,
    name: Seq<char>,
    i: int,
) -> bool {
    &&& 0 <= i < actions.len()
    &&& i + 1 < events.len()
    &&& actions[i] matches SnapshotAction::Probe { name: n } && n@ == name
    &&& events[i + 1] matches SnapshotEvent::Storage(Err(e)) && e.says_not_found()
}

pub open spec fn was_free(
    events: Seq<SnapshotEvent>,
    actions: Seq<SnapshotAction>,
    name: Seq<char>,
) -> bool {
    exists|i: int| #[trigger] misses_at(events, actions, name, i)
}

/// Whether a hive was asked to be removed.
pub open spec fn removes_at(actions: Seq<SnapshotAction>, i: int) -> bool {
    0 <= i < actions.len() && (actions[i] is Remove || actions[i] is DeleteHive)
}

pub open spec fn was_removed(actions: Seq<SnapshotAction>) -> bool {
    exists|i: int| #[trigger] removes_at(actions, i)
}

/// Whether the privileges were raised, and whether they were asked to be given back.
pub open spec fn raises_at(events: Seq<SnapshotEvent>, i: int) -> bool {
    0 <= i < events.len() && (events[i] matches SnapshotEvent::Privileged(Ok(_)))
}

pub open spec fn was_raised(events: Seq<SnapshotEvent>) -> bool {
    exists|i: int| #[trigger] raises_at(events, i)
}

pub open spec fn gives_back_at(actions: Seq<SnapshotAction>, i: int) -> bool {
    0 <= i < actions.len() && actions[i] is RestorePrivileges
}

pub open spec fn was_given_back(actions: Seq<SnapshotAction>) -> bool {
    exists|i: int| #[trigger] gives_back_at(actions, i)
}

spec fn is_saved_stage(stage: SnapshotStage) -> bool {
    stage is OpenArtifact || stage is Hash || stage is RemoveSaved || stage is CreateMetadata
        || stage is WriteMetadata || stage is UndoMetadata || stage is UndoHive || stage is
        DiscardMetadata || stage is DiscardHive
}

spec fn is_described_stage(stage: SnapshotStage) -> bool {
    stage is CreateMetadata || stage is WriteMetadata || stage is UndoMetadata || stage is UndoHive
        || stage is DiscardMetadata || stage is DiscardHive
}

/// Whether a hive was saved under any name.
spec fn some_saved(
    request: SnapshotRequest,
    events: Seq<SnapshotEvent>,
    actions: Seq<SnapshotAction>,
) -> bool {
    exists|name: Seq<char>| #[trigger] was_saved(request, events, actions, name)
}

spec fn is_complete(
    request: SnapshotRequest,
    events: Seq<SnapshotEvent>,
    actions: Seq<SnapshotAction>,
    metadata: SnapshotMetadata,
) -> bool {
    &&& was_saved(request, events, actions, metadata.snapshot_file_name@)
    &&& was_free(events, actions, metadata.snapshot_file_name@)
    &&& was_described(events, actions, metadata)
    &&& metadata.sha256@ == sha256_text(hive_bytes(events))
    &&& metadata.registry_key_path@ == "HKLM\\"@ + request.subkey@
    &&& metadata.sid@ == request.sid@
    &&& metadata.profile_path@ == request.profile_path@
    &&& metadata.reason@ == request.reason@
}

spec fn holds(
    request: SnapshotRequest,
    events: Seq<SnapshotEvent>,
    actions: Seq<SnapshotAction>,
    m: SnapshotModel,
) -> bool {
    let stage = m.stage;
    let asked = actions.len() > 0;
    let last = actions.last();
    &&& events.len() == actions.len()
    &&& stage is Lock <==> events.len() == 0
    &&& stage is Lock || stage is Privileges ==> !was_raised(events)
    &&& !(stage is Finished) ==> hive_bytes(events) == m.hashed
    &&& stage is Lock || stage is Privileges || stage is Probe || stage is OpenKey || stage is Save
        || stage is RemovePartial || stage is OpenArtifact ==> m.hashed.len() == 0
    &&& stage is Probe ==> asked && (last matches SnapshotAction::Probe { name } && name@ == m.name)
    &&& stage is OpenKey ==> asked && (last matches SnapshotAction::OpenKey { subkey } && subkey@
        == request.subkey@)
    &&& stage is OpenKey || stage is Save || is_saved_stage(stage) ==> was_free(
        events,
        actions,
        m.name,
    )
    &&& stage is Save ==> actions.len() > 1 && (last matches SnapshotAction::Save { path } && path@
        == path_join(request.directory@, m.name)) && (actions[actions.len() - 2] matches
        SnapshotAction::OpenKey { subkey } && subkey@ == request.subkey@) && (events.last() matches
        SnapshotEvent::Registry(Ok(_)))
    &&& is_saved_stage(stage) ==> was_saved(request, events, actions, m.name)
    &&& stage is Lock || stage is Privileges || stage is Probe || stage is OpenKey || stage is Save
        || stage is RemovePartial ==> !some_saved(request, events, actions)
    &&& stage is RemoveSaved ==> was_removed(actions)
    &&& is_described_stage(stage) ==> m.metadata is Some && describes_snapshot(
        request,
        m,
        m.metadata->0,
    )
    &&& stage is WriteMetadata ==> asked && (last matches SnapshotAction::WriteMetadata { metadata }
        && metadata.says(m.metadata->0))
    &&& stage is Lock || stage is Privileges || stage is Probe || stage is OpenKey || stage is Save
        || stage is RemovePartial || stage is OpenArtifact || stage is Hash || stage is
        CreateMetadata || stage is WriteMetadata ==> m.failure is None
    &&& stage is RemoveSaved || stage is UndoMetadata || stage is UndoHive ==> m.failure is Some
    &&& stage is RestorePrivileges ==> asked && last is RestorePrivileges && (match m.failure {
        None => m.metadata is Some && describes_snapshot(request, m, m.metadata->0) && is_complete(
            request,
            events,
            actions,
            m.metadata->0,
        ),
        Some(_) => some_saved(request, events, actions) ==> was_removed(actions),
    })
    &&& stage is UndoHive || stage is DiscardHive ==> was_removed(actions)
    &&& stage is RestorePrivileges || stage is DiscardMetadata || stage is DiscardHive
        ==> was_given_back(actions)
    &&& stage is Finished ==> asked && (last matches SnapshotAction::Finish(r) && (match r {
        Ok(metadata) => is_complete(request, events, actions, metadata),
        Err(_) => some_saved(request, events, actions) ==> was_removed(actions),
    }) && (was_raised(events) ==> was_given_back(actions)))
}

proof fn lemma_one_more(
    request: SnapshotRequest,
    events: Seq<SnapshotEvent>,
    actions: Seq<SnapshotAction>,
    event: SnapshotEvent,
    action: SnapshotAction,
)
    requires
        events.len() == actions.len(),
    ensures
        ({
            let e = events.push(event);
            let a = actions.push(action);
            let k = actions.len() as int;
            &&& e.last() == event
            &&& a.last() == action
            &&& hive_bytes(e) == (match event {
                SnapshotEvent::Chunk(Ok(bytes)) => hive_bytes(events) + bytes@,
                _ => hive_bytes(events),
            })
            &&& forall|name: Seq<char>| #[trigger]
                was_saved(request, e, a, name) <==> was_saved(request, events, actions, name)
                    || saves_at(request, e, a, name, k - 2)
            &&& forall|metadata: SnapshotMetadata| #[trigger]
                was_described(e, a, metadata) <==> was_described(events, actions, metadata)
                    || describes_at(e, a, metadata, k - 1)
            &&& forall|name: Seq<char>| #[trigger]
                was_free(e, a, name) <==> was_free(events, actions, name) || misses_at(
                    e,
                    a,
                    name,
                    k - 1,
                )
            &&& was_removed(a) <==> was_removed(actions) || action is Remove || action is DeleteHive
            &&& was_raised(e) <==> was_raised(events) || (event matches SnapshotEvent::Privileged(
                Ok(_),
            ))
            &&& was_given_back(a) <==> was_given_back(actions) || action is RestorePrivileges
            &&& some_saved(request, e, a) ==> some_saved(request, events, actions)
                || exists|name: Seq<char>| #[trigger] saves_at(request, e, a, name, k - 2)
        }),
{
    let e = events.push(event);
    let a = actions.push(action);
    let k = actions.len() as int;
    assert(e.drop_last() =~= events);
    assert forall|name: Seq<char>| #[trigger] was_saved(request, e, a, name) <==> was_saved(
        request,
        events,
        actions,
        name,
    ) || saves_at(request, e, a, name, k - 2) by {
        if was_saved(request, e, a, name) {
            let i = choose|i: int| #[trigger] saves_at(request, e, a, name, i);
            assert(i == k - 2 || saves_at(request, events, actions, name, i));
        }
        if was_saved(request, events, actions, name) {
            let i = choose|i: int| #[trigger] saves_at(request, events, actions, name, i);
            assert(saves_at(request, e, a, name, i));
        }
    }
    assert forall|metadata: SnapshotMetadata| #[trigger] was_described(e, a, metadata)
        <==> was_described(events, actions, metadata) || describes_at(e, a, metadata, k - 1) by {
        if was_described(e, a, metadata) {
            let i = choose|i: int| #[trigger] describes_at(e, a, metadata, i);
            assert(i == k - 1 || describes_at(events, actions, metadata, i));
        }
        if was_described(events, actions, metadata) {
            let i = choose|i: int| #[trigger] describes_at(events, actions, metadata, i);
            assert(describes_at(e, a, metadata, i));
        }
    }
    assert forall|name: Seq<char>| #[trigger] was_free(e, a, name) <==> was_free(
        events,
        actions,
        name,
    ) || misses_at(e, a, name, k - 1) by {
        if was_free(e, a, name) {
            let i = choose|i: int| #[trigger] misses_at(e, a, name, i);
            assert(i == k - 1 || misses_at(events, actions, name, i));
        }
        if was_free(events, actions, name) {
            let i = choose|i: int| #[trigger] misses_at(events, actions, name, i);
            assert(misses_at(e, a, name, i));
        }
    }
    if was_removed(actions) {
        let i = choose|i: int| #[trigger] removes_at(actions, i);
        assert(removes_at(a, i));
    }
    if was_removed(a) {
        let i = choose|i: int| #[trigger] removes_at(a, i);
        assert(i == k || removes_at(actions, i));
    }
    if action is Remove || action is DeleteHive {
        assert(removes_at(a, k));
    }
    if was_given_back(actions) {
        let i = choose|i: int| #[trigger] gives_back_at(actions, i);
        assert(gives_back_at(a, i));
    }
    if was_given_back(a) {
        let i = choose|i: int| #[trigger] gives_back_at(a, i);
        assert(i == k || gives_back_at(actions, i));
    }
    if action is RestorePrivileges {
        assert(gives_back_at(a, k));
    }
    if was_raised(events) {
        let i = choose|i: int| #[trigger] raises_at(events, i);
        assert(raises_at(e, i));
    }
    if was_raised(e) {
        let i = choose|i: int| #[trigger] raises_at(e, i);
        assert(i == k || raises_at(events, i));
    }
    if event matches SnapshotEvent::Privileged(Ok(_)) {
        assert(raises_at(e, k));
    }
    if some_saved(request, e, a) {
        let name = choose|name: Seq<char>| #[trigger] was_saved(request, e, a, name);
        assert(was_saved(request, events, actions, name) || saves_at(request, e, a, name, k - 2));
    }
}

#[verifier::rlimit(60)]
proof fn lemma_step_holds(
    request: SnapshotRequest,
    events: Seq<SnapshotEvent>,
    actions: Seq<SnapshotAction>,
    m: SnapshotModel,
    event: SnapshotEvent,
    n: SnapshotModel,
    action: SnapshotAction,
)
    requires
        holds(request, events, actions, m),
        m.stage.expects(event),
        snapshot_follows(request, m, event, n, action),
    ensures
        holds(request, events.push(event), actions.push(action), n),
{
    let e = events.push(event);
    let a = actions.push(action);
    let k = actions.len() as int;
    lemma_one_more(request, events, actions, event, action);
    if m.stage is Probe && n.stage is OpenKey {
        assert(misses_at(e, a, m.name, k - 1));
    }
    if m.stage is Save && n.stage is OpenArtifact {
        assert(saves_at(request, e, a, m.name, k - 2));
    }
    if m.stage is WriteMetadata && n.stage is RestorePrivileges {
        assert(describes_at(e, a, m.metadata->0, k - 1));
    }
}

proof fn lemma_snapshot_holds(
    request: SnapshotRequest,
    events: Seq<SnapshotEvent>,
    actions: Seq<SnapshotAction>,
    m: SnapshotModel,
)
    requires
        snapshot_reaches(request, events, actions, m),
    ensures
        holds(request, events, actions, m),
        actions.len() > 0 && actions.last() is Finish ==> m.stage is Finished,
    decreases events.len(),
{
    if events.len() > 0 {
        let before = choose|before: SnapshotModel| #[trigger]
            snapshot_follows(request, before, events.last(), m, actions.last())
                && before.stage.expects(events.last()) && snapshot_reaches(
                request,
                events.drop_last(),
                actions.drop_last(),
                before,
            );
        let (e, a) = (events.drop_last(), actions.drop_last());
        lemma_snapshot_holds(request, e, a, before);
        lemma_step_holds(request, e, a, before, events.last(), m, actions.last());
        assert(e.push(events.last()) =~= events);
        assert(a.push(actions.last()) =~= actions);
    } else {
        assert(m.hashed =~= Seq::<u8>::empty());
    }
}

/// A snapshot that was taken is the key that was asked for: the key was opened and saved to
/// a file that was not there before, the digest is that of all that was read of the file,
/// and what is known of it was written beside it.
pub proof fn a_taken_snapshot_is_of_the_key_asked_for(
    request: SnapshotRequest,
    events: Seq<SnapshotEvent>,
    actions: Seq<SnapshotAction>,
    m: SnapshotModel,
    metadata: SnapshotMetadata,
)
    requires
        snapshot_reaches(request, events, actions, m),
        actions.len() > 0,
        actions.last() == SnapshotAction::Finish(Ok(metadata)),
    ensures
        was_saved(request, events, actions, metadata.snapshot_file_name@),
        was_free(events, actions, metadata.snapshot_file_name@),
        was_described(events, actions, metadata),
        metadata.sha256@ == sha256_text(hive_bytes(events)),
        metadata.registry_key_path@ == "HKLM\\"@ + request.subkey@,
        metadata.sid@ == request.sid@,
        metadata.profile_path@ == request.profile_path@,
        metadata.reason@ == request.reason@,
{
    lemma_snapshot_holds(request, events, actions, m);
}

/// A snapshot that fails leaves nothing behind: a hive that was saved is asked to be
/// removed, and privileges that were raised are asked to be given back.
pub proof fn a_failed_snapshot_leaves_nothing_behind(
    request: SnapshotRequest,
    events: Seq<SnapshotEvent>,
    actions: Seq<SnapshotAction>,
    m: SnapshotModel,
    name: Seq<char>,
)
    requires
        snapshot_reaches(request, events, actions, m),
        actions.len() > 0,
    ensures
        (actions.last() matches SnapshotAction::Finish(Err(_))) && was_saved(
            request,
            events,
            actions,
            name,
        ) ==> was_removed(actions),
        actions.last() is Finish && was_raised(events) ==> was_given_back(actions),
{
    lemma_snapshot_holds(request, events, actions, m);
}

} // verus!
