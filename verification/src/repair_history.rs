//! What a repair did and did not do, told from a whole run.
use crate::journal::AuditStatus;
use crate::models::RepairPlan;
use crate::registry::RegistryError;
use crate::repair::{canonical_path, snapshot_paths};
use crate::repair_run::{
    admits, repair_follows, RepairAction, RepairEvent, RepairModel, RepairStage,
};
use vstd::prelude::*;

verus! {

/// Whether the repair of a plan, told of these events one after the other, asked for these
/// actions, each answered by the event at its place, and is then in a given state. The
/// last action is not answered yet.
pub open spec fn repair_reaches(
    plan: RepairPlan,
    is_loaded: bool,
    events: Seq<RepairEvent>,
    actions: Seq<RepairAction>,
    m: RepairModel,
) -> bool
    decreases events.len(),
{
    if events.len() == 0 {
        actions.len() == 1 && repair_begins(plan, m, actions[0])
    } else {
        &&& actions.len() == events.len() + 1
        &&& exists|before: RepairModel| #[trigger]
            repair_follows(plan, is_loaded, before, events.last(), m, actions.last())
                && before.stage.expects(events.last()) && repair_reaches(
                plan,
                is_loaded,
                events.drop_last(),
                actions.drop_last(),
                before,
            )
    }
}

/// Whether the repair of a plan begins like this.
pub open spec fn repair_begins(plan: RepairPlan, m: RepairModel, action: RepairAction) -> bool {
    if plan.dry_run {
        admits(plan, RepairModel::fresh(), m, action)
    } else {
        m == RepairModel::fresh() && action is AcquireGuard
    }
}

/// Where a key of the profile list is, below `HKEY_LOCAL_MACHINE`.
pub open spec fn list_path(name: Seq<char>) -> Seq<char> {
    "SOFTWARE\\Microsoft\\Windows NT\\CurrentVersion\\ProfileList"@ + "\\"@ + name
}

/// Whether the key at a path was saved.
pub open spec fn was_saved(
    events: Seq<RepairEvent>,
    actions: Seq<RepairAction>,
    path: Seq<char>,
) -> bool {
    exists|i: int| #[trigger] saves_at(events, actions, path, i)
}

pub open spec fn saves_at(
    events: Seq<RepairEvent>,
    actions: Seq<RepairAction>,
    path: Seq<char>,
    i: int,
) -> bool {
    &&& 0 <= i < events.len()
    &&& i < actions.len()
    &&& actions[i] matches RepairAction::CaptureSnapshot { path: p } && p@ == path
    &&& events[i] matches RepairEvent::Captured(Ok(_))
}

/// Whether a key was looked for below the profile list and was not there.
pub open spec fn was_absent(
    events: Seq<RepairEvent>,
    actions: Seq<RepairAction>,
    name: Seq<char>,
) -> bool {
    exists|i: int| #[trigger] misses_at(events, actions, name, i)
}

pub open spec fn misses_at(
    events: Seq<RepairEvent>,
    actions: Seq<RepairAction>,
    name: Seq<char>,
    i: int,
) -> bool {
    &&& 0 <= i < events.len()
    &&& i < actions.len()
    &&& actions[i] matches RepairAction::CheckKey { name: n } && n@ == name
    &&& events[i] matches RepairEvent::Exists(Ok(present)) && !present
}

/// Whether a key was renamed to this name.
pub open spec fn was_moved(
    events: Seq<RepairEvent>,
    actions: Seq<RepairAction>,
    old_name: Seq<char>,
    new_name: Seq<char>,
) -> bool {
    exists|i: int| #[trigger] moves_at(events, actions, old_name, new_name, i)
}

pub open spec fn moves_at(
    events: Seq<RepairEvent>,
    actions: Seq<RepairAction>,
    old_name: Seq<char>,
    new_name: Seq<char>,
    i: int,
) -> bool {
    &&& 0 <= i < events.len()
    &&& i < actions.len()
    &&& actions[i] matches RepairAction::RenameKey { from, to } && from@ == old_name && to@
        == new_name
    &&& events[i] matches RepairEvent::Registry(Ok(_))
}

/// Whether a key was opened to set its values.
pub open spec fn was_opened(
    events: Seq<RepairEvent>,
    actions: Seq<RepairAction>,
    name: Seq<char>,
) -> bool {
    exists|i: int| #[trigger] opens_at(events, actions, name, i)
}

pub open spec fn opens_at(
    events: Seq<RepairEvent>,
    actions: Seq<RepairAction>,
    name: Seq<char>,
    i: int,
) -> bool {
    &&& 0 <= i < events.len()
    &&& i < actions.len()
    &&& actions[i] matches RepairAction::OpenKey { name: n } && n@ == name
    &&& events[i] matches RepairEvent::Registry(Ok(_))
}

/// Whether a value of the opened key was set to zero.
pub open spec fn was_zeroed(
    events: Seq<RepairEvent>,
    actions: Seq<RepairAction>,
    value_name: Seq<char>,
) -> bool {
    exists|i: int| #[trigger] zeroes_at(events, actions, value_name, i)
}

pub open spec fn zeroes_at(
    events: Seq<RepairEvent>,
    actions: Seq<RepairAction>,
    value_name: Seq<char>,
    i: int,
) -> bool {
    &&& 0 <= i < events.len()
    &&& i < actions.len()
    &&& actions[i] matches RepairAction::SetValue { value_name: v, value } && v@ == value_name
        && value == 0
    &&& events[i] matches RepairEvent::Registry(Ok(_))
}

/// Whether a saved key was tried to restore.
pub open spec fn was_restored(actions: Seq<RepairAction>, path: Seq<char>) -> bool {
    exists|i: int| #[trigger] restores_at(actions, path, i)
}

pub open spec fn restores_at(actions: Seq<RepairAction>, path: Seq<char>, i: int) -> bool {
    &&& 0 <= i < actions.len()
    &&& actions[i] matches RepairAction::RestoreSnapshot { index, path: p } && p@ == "HKLM\\"@ + path
}

/// Whether the profile was found not to be in use.
pub open spec fn was_idle(events: Seq<RepairEvent>) -> bool {
    exists|i: int| #[trigger] idles_at(events, i)
}

pub open spec fn idles_at(events: Seq<RepairEvent>, i: int) -> bool {
    &&& 0 <= i < events.len()
    &&& events[i] matches RepairEvent::Observed(o) && o.hive == Result::<(), RegistryError>::Err(
        RegistryError::Win32Error(2),
    )
}

/// Whether no process held the hive when that was looked at last, behind the look at the
/// registry.
pub open spec fn was_free(events: Seq<RepairEvent>) -> bool {
    exists|i: int, j: int| #[trigger] frees_at(events, i, j)
}

pub open spec fn frees_at(events: Seq<RepairEvent>, i: int, j: int) -> bool {
    &&& idles_at(events, i)
    &&& i < j < events.len()
    &&& events[j] matches RepairEvent::Inspected(Ok(blockers)) && blockers@.len() == 0
}

/// Whether the repair was seen in the registry afterwards.
pub open spec fn was_seen(plan: RepairPlan, events: Seq<RepairEvent>) -> bool {
    exists|i: int| #[trigger] sees_at(plan, events, i)
}

pub open spec fn sees_at(plan: RepairPlan, events: Seq<RepairEvent>, i: int) -> bool {
    &&& 0 <= i < events.len()
    &&& events[i] matches RepairEvent::Verified(o) && {
        &&& o.canonical_exists == Result::<bool, RegistryError>::Ok(true)
        &&& plan.fix_bak ==> o.bak_exists == Result::<bool, RegistryError>::Ok(false)
        &&& plan.reset_state ==> o.state == Result::<u32, RegistryError>::Ok(0) && o.ref_count
            == Result::<u32, RegistryError>::Ok(0)
    }
}

/// Whether nothing was changed.
pub open spec fn changed_nothing(actions: Seq<RepairAction>) -> bool {
    forall|i: int|
        0 <= i < actions.len() ==> !((#[trigger] actions[i]) is RenameKey) && !(actions[i] is
            SetValue) && !(actions[i] is RestoreSnapshot)
}

/// Whether nothing was saved.
pub open spec fn saved_nothing(actions: Seq<RepairAction>) -> bool {
    forall|i: int| 0 <= i < actions.len() ==> !((#[trigger] actions[i]) is CaptureSnapshot)
}

/// Whether what a plan changes is secured: the key that was set aside, and the key of the
/// profile unless it was not there.
pub open spec fn is_covered(
    plan: RepairPlan,
    events: Seq<RepairEvent>,
    actions: Seq<RepairAction>,
) -> bool {
    &&& plan.fix_bak ==> was_saved(events, actions, list_path(plan.canonical_sid@ + ".bak"@))
    &&& plan.fix_bak ==> was_saved(events, actions, list_path(plan.canonical_sid@)) || was_absent(
        events,
        actions,
        plan.canonical_sid@,
    )
    &&& plan.reset_state && !plan.fix_bak ==> was_saved(
        events,
        actions,
        list_path(plan.canonical_sid@),
    )
}

/// Whether what a plan selects was done.
pub open spec fn was_done(
    plan: RepairPlan,
    events: Seq<RepairEvent>,
    actions: Seq<RepairAction>,
) -> bool {
    &&& plan.fix_bak ==> was_moved(
        events,
        actions,
        plan.canonical_sid@ + ".bak"@,
        plan.canonical_sid@,
    )
    &&& plan.reset_state ==> was_opened(events, actions, plan.canonical_sid@) && was_zeroed(
        events,
        actions,
        "State"@,
    ) && was_zeroed(events, actions, "RefCount"@)
}

// ---------------------------------------------------------------------------
// What holds between any two steps
// ---------------------------------------------------------------------------

/// Whether the keys to save are those that a plan changes.
spec fn covers(
    plan: RepairPlan,
    events: Seq<RepairEvent>,
    actions: Seq<RepairAction>,
    required: Seq<Seq<char>>,
) -> bool {
    let canonical = list_path(plan.canonical_sid@);
    &&& plan.fix_bak ==> required.contains(list_path(plan.canonical_sid@ + ".bak"@))
    &&& plan.fix_bak ==> required.contains(canonical) || was_absent(
        events,
        actions,
        plan.canonical_sid@,
    )
    &&& plan.reset_state && !plan.fix_bak ==> required.contains(canonical)
}

/// Whether the keys that are saved are the first of those to save.
spec fn saves_in_order(
    events: Seq<RepairEvent>,
    actions: Seq<RepairAction>,
    m: RepairModel,
) -> bool {
    &&& m.captured <= m.required.len()
    &&& forall|k: int|
        0 <= k < m.captured ==> was_saved(events, actions, #[trigger] m.required[k])
    &&& forall|path: Seq<char>| #[trigger]
        was_saved(events, actions, path) ==> m.required.contains(path)
}

/// Whether all that was saved was tried to restore.
spec fn all_tried(events: Seq<RepairEvent>, actions: Seq<RepairAction>) -> bool {
    forall|path: Seq<char>| #[trigger]
        was_saved(events, actions, path) ==> was_restored(actions, path)
}

spec fn tried_first(actions: Seq<RepairAction>, m: RepairModel) -> bool {
    m.restored <= m.required.len() && forall|k: int|
        0 <= k < m.restored ==> was_restored(actions, #[trigger] m.required[k])
}

spec fn is_early(stage: RepairStage) -> bool {
    stage is Guard || stage is FirstLocks || stage is Observe || stage is SecondLocks || stage is
        AuditDryRun || stage is CheckSnapshotTarget
}

spec fn holds(
    plan: RepairPlan,
    events: Seq<RepairEvent>,
    actions: Seq<RepairAction>,
    m: RepairModel,
) -> bool {
    let stage = m.stage;
    let last = actions.last();
    &&& actions.len() == events.len() + 1
    &&& plan.dry_run ==> changed_nothing(actions) && saved_nothing(actions) && (is_early(stage)
        || stage is Finished)
    &&& is_early(stage) ==> changed_nothing(actions) && saved_nothing(actions) && m.captured == 0
        && !m.bak_moved && m.canonical_backup is None
    &&& stage is Guard ==> m.required.len() == 0
    &&& stage is SecondLocks ==> was_idle(events)
    &&& stage is AuditDryRun ==> plan.dry_run
    &&& stage is CheckSnapshotTarget ==> !plan.dry_run && was_free(events) && plan.fix_bak && (last matches
        RepairAction::CheckKey { name } && name@ == plan.canonical_sid@)
    &&& stage is Snapshot || stage is AuditStarted || stage is OpenList ==> changed_nothing(actions)
        && !m.bak_moved && m.canonical_backup is None
    &&& stage is Snapshot ==> m.captured < m.required.len() && (last matches
        RepairAction::CaptureSnapshot { path } && path@ == m.required[m.captured as int])
    &&& !is_early(stage) && !(stage is Finished) ==> {
        &&& was_free(events)
        &&& covers(plan, events, actions, m.required)
        &&& saves_in_order(events, actions, m)
        &&& !plan.dry_run
    }
    &&& !(stage is Guard) && !(stage is Finished) ==> plan.fix_bak || plan.reset_state
    &&& !is_early(stage) && !(stage is Finished) && !(stage is Snapshot) ==> m.captured
        == m.required.len()
    &&& stage is CheckCanonical || stage is CheckBackup || stage is RenameCanonical || stage is
        RenameBak ==> plan.fix_bak
    &&& stage is RenameCanonical ==> (last matches RepairAction::RenameKey { from, to } && from@
        == plan.canonical_sid@ && to@ == m.backup_name)
    &&& stage is RenameBak ==> (last matches RepairAction::RenameKey { from, to } && from@
        == plan.canonical_sid@ + ".bak"@ && to@ == plan.canonical_sid@)
    &&& m.bak_moved && !(stage is Finished) ==> was_moved(
        events,
        actions,
        plan.canonical_sid@ + ".bak"@,
        plan.canonical_sid@,
    )
    &&& m.canonical_backup is Some && !(stage is Finished) ==> was_moved(
        events,
        actions,
        plan.canonical_sid@,
        m.canonical_backup->0,
    )
    &&& stage is OpenCanonical || stage is SetState || stage is SetRefCount ==> plan.reset_state
    &&& stage is OpenCanonical || stage is SetState || stage is SetRefCount || stage is Verify
        || stage is AuditSuccess ==> (plan.fix_bak ==> m.bak_moved)
    &&& stage is OpenCanonical ==> (last matches RepairAction::OpenKey { name } && name@
        == plan.canonical_sid@)
    &&& stage is SetState || stage is SetRefCount ==> was_opened(
        events,
        actions,
        plan.canonical_sid@,
    )
    &&& stage is SetState ==> (last matches RepairAction::SetValue { value_name, value }
        && value_name@ == "State"@ && value == 0)
    &&& stage is SetRefCount ==> was_zeroed(events, actions, "State"@) && (last matches
        RepairAction::SetValue { value_name, value } && value_name@ == "RefCount"@ && value == 0)
    &&& stage is Verify || stage is AuditSuccess ==> was_done(plan, events, actions)
    &&& stage is AuditSuccess ==> was_seen(plan, events)
    &&& stage is RollBakRename ==> m.bak_moved && (last matches RepairAction::RenameKey {
        from,
        to,
    } && from@ == plan.canonical_sid@ && to@ == plan.canonical_sid@ + ".bak"@)
    &&& stage is RollBakCheck ==> m.bak_moved
    &&& stage is RollCanonicalCheck || stage is RollCanonicalRename ==> m.canonical_backup is Some
    &&& stage is RollCanonicalRename ==> (last matches RepairAction::RenameKey { from, to } && from@
        == m.canonical_backup->0 && to@ == plan.canonical_sid@)
    &&& stage is RollBakCheck || stage is RollBakRename || stage is RollCanonicalCheck || stage is
        RollCanonicalRename ==> m.restored == 0
    &&& stage is RestoreSnapshot ==> m.restored < m.required.len() && tried_first(actions, m)
        && restores_at(actions, m.required[m.restored as int], actions.len() - 1)
    &&& stage is AuditSummary || stage is AuditFailed || stage is AuditRollbackFailed
        ==> m.restored == m.required.len() && tried_first(actions, m)
    &&& stage is Finished ==> (last matches RepairAction::Finish(r) && match r {
        Ok(_) => !plan.dry_run ==> was_done(plan, events, actions) && was_seen(plan, events)
            && was_free(events) && is_covered(plan, events, actions),
        Err(_) => changed_nothing(actions) || all_tried(events, actions) && is_covered(
            plan,
            events,
            actions,
        ) && was_free(events),
    })
}

/// One more event and the action that answers it: what was done is what was done before,
/// and what the event says of the action that it answers.
proof fn lemma_one_more(
    events: Seq<RepairEvent>,
    actions: Seq<RepairAction>,
    event: RepairEvent,
    action: RepairAction,
)
    requires
        actions.len() == events.len() + 1,
    ensures
        ({
            let e = events.push(event);
            let a = actions.push(action);
            let last = actions.last();
            let done = event matches RepairEvent::Registry(Ok(_));
            &&& a.len() == e.len() + 1
            &&& a.last() == action
            &&& forall|path: Seq<char>| #[trigger]
                was_saved(e, a, path) <==> was_saved(events, actions, path) || (last matches
                    RepairAction::CaptureSnapshot { path: p } && p@ == path && (event matches
                    RepairEvent::Captured(Ok(_))))
            &&& forall|name: Seq<char>| #[trigger]
                was_absent(e, a, name) <==> was_absent(events, actions, name) || (last matches
                    RepairAction::CheckKey { name: n } && n@ == name && (event matches
                    RepairEvent::Exists(Ok(present)) && !present))
            &&& forall|old_name: Seq<char>, new_name: Seq<char>| #[trigger]
                was_moved(e, a, old_name, new_name) <==> was_moved(
                    events,
                    actions,
                    old_name,
                    new_name,
                ) || (done && (last matches RepairAction::RenameKey { from, to } && from@ == old_name
                    && to@ == new_name))
            &&& forall|name: Seq<char>| #[trigger]
                was_opened(e, a, name) <==> was_opened(events, actions, name) || (done
                    && (last matches RepairAction::OpenKey { name: n } && n@ == name))
            &&& forall|value_name: Seq<char>| #[trigger]
                was_zeroed(e, a, value_name) <==> was_zeroed(events, actions, value_name) || (done
                    && (last matches RepairAction::SetValue { value_name: v, value } && v@
                    == value_name && value == 0))
            &&& forall|path: Seq<char>| #[trigger]
                was_restored(a, path) <==> was_restored(actions, path) || (action matches
                    RepairAction::RestoreSnapshot { index, path: p } && p@ == "HKLM\\"@ + path)
            &&& was_idle(events) ==> was_idle(e)
            &&& was_free(events) ==> was_free(e)
            &&& idles_at(e, events.len() as int) ==> was_idle(e)
            &&& was_idle(events) && (event matches RepairEvent::Inspected(Ok(blockers))
                && blockers@.len() == 0) ==> was_free(e)
            &&& changed_nothing(a) <==> changed_nothing(actions) && !(action is RenameKey) && !(
            action is SetValue) && !(action is RestoreSnapshot)
            &&& saved_nothing(a) <==> saved_nothing(actions) && !(action is CaptureSnapshot)
            &&& saved_nothing(actions) ==> forall|path: Seq<char>| !#[trigger]
                was_saved(events, actions, path)
        }),
        forall|plan: RepairPlan|
            was_seen(plan, events) || sees_at(plan, events.push(event), events.len() as int)
                ==> #[trigger] was_seen(plan, events.push(event)),
{
    let e = events.push(event);
    let a = actions.push(action);
    let n = events.len() as int;
    assert forall|k: int| 0 <= k < actions.len() implies #[trigger] a[k] == actions[k] by {}
    assert forall|k: int| 0 <= k < events.len() implies #[trigger] e[k] == events[k] by {}
    assert(actions.last() == actions[n]);
    assert(a[n] == actions.last() && e[n] == event && a[n + 1] == action);
    assert forall|path: Seq<char>| #[trigger] was_saved(e, a, path) <==> was_saved(
        events,
        actions,
        path,
    ) || saves_at(e, a, path, n) by {
        assert forall|k: int| 0 <= k < n implies saves_at(e, a, path, k) == #[trigger] saves_at(
            events,
            actions,
            path,
            k,
        ) by {}
        if was_saved(e, a, path) {
            let k = choose|k: int| #[trigger] saves_at(e, a, path, k);
            assert(k == n || saves_at(events, actions, path, k));
        }
        if was_saved(events, actions, path) {
            let k = choose|k: int| #[trigger] saves_at(events, actions, path, k);
            assert(saves_at(e, a, path, k));
        }
    }
    assert forall|name: Seq<char>| #[trigger] was_absent(e, a, name) <==> was_absent(
        events,
        actions,
        name,
    ) || misses_at(e, a, name, n) by {
        if was_absent(e, a, name) {
            let k = choose|k: int| #[trigger] misses_at(e, a, name, k);
            assert(k == n || misses_at(events, actions, name, k));
        }
        if was_absent(events, actions, name) {
            let k = choose|k: int| #[trigger] misses_at(events, actions, name, k);
            assert(misses_at(e, a, name, k));
        }
    }
    assert forall|x: Seq<char>, y: Seq<char>| #[trigger] was_moved(e, a, x, y) <==> was_moved(
        events,
        actions,
        x,
        y,
    ) || moves_at(e, a, x, y, n) by {
        if was_moved(e, a, x, y) {
            let k = choose|k: int| #[trigger] moves_at(e, a, x, y, k);
            assert(k == n || moves_at(events, actions, x, y, k));
        }
        if was_moved(events, actions, x, y) {
            let k = choose|k: int| #[trigger] moves_at(events, actions, x, y, k);
            assert(moves_at(e, a, x, y, k));
        }
    }
    assert forall|name: Seq<char>| #[trigger] was_opened(e, a, name) <==> was_opened(
        events,
        actions,
        name,
    ) || opens_at(e, a, name, n) by {
        if was_opened(e, a, name) {
            let k = choose|k: int| #[trigger] opens_at(e, a, name, k);
            assert(k == n || opens_at(events, actions, name, k));
        }
        if was_opened(events, actions, name) {
            let k = choose|k: int| #[trigger] opens_at(events, actions, name, k);
            assert(opens_at(e, a, name, k));
        }
    }
    assert forall|name: Seq<char>| #[trigger] was_zeroed(e, a, name) <==> was_zeroed(
        events,
        actions,
        name,
    ) || zeroes_at(e, a, name, n) by {
        if was_zeroed(e, a, name) {
            let k = choose|k: int| #[trigger] zeroes_at(e, a, name, k);
            assert(k == n || zeroes_at(events, actions, name, k));
        }
        if was_zeroed(events, actions, name) {
            let k = choose|k: int| #[trigger] zeroes_at(events, actions, name, k);
            assert(zeroes_at(e, a, name, k));
        }
    }
    assert forall|path: Seq<char>| #[trigger] was_restored(a, path) <==> was_restored(actions, path)
        || restores_at(a, path, n + 1) by {
        if was_restored(a, path) {
            let k = choose|k: int| #[trigger] restores_at(a, path, k);
            assert(k == n + 1 || restores_at(actions, path, k));
        }
        if was_restored(actions, path) {
            let k = choose|k: int| #[trigger] restores_at(actions, path, k);
            assert(restores_at(a, path, k));
        }
    }
    if was_idle(events) {
        let k = choose|k: int| #[trigger] idles_at(events, k);
        assert(idles_at(e, k));
        if event matches RepairEvent::Inspected(Ok(blockers)) && blockers@.len() == 0 {
            assert(frees_at(e, k, n));
        }
    }
    if was_free(events) {
        let (k, j) = choose|k: int, j: int| #[trigger] frees_at(events, k, j);
        assert(idles_at(e, k));
        assert(frees_at(e, k, j));
    }
    assert forall|plan: RepairPlan| was_seen(plan, events) || sees_at(
        plan,
        e,
        n,
    ) implies #[trigger] was_seen(plan, e) by {
        if was_seen(plan, events) {
            let k = choose|k: int| #[trigger] sees_at(plan, events, k);
            assert(sees_at(plan, e, k));
        }
    }
    if changed_nothing(a) {
        assert forall|k: int| 0 <= k < actions.len() implies !((#[trigger] actions[k]) is RenameKey)
            && !(actions[k] is SetValue) && !(actions[k] is RestoreSnapshot) by {
            assert(a[k] == actions[k]);
        }
    }
    if saved_nothing(a) {
        assert forall|k: int| 0 <= k < actions.len() implies !((#[trigger] actions[k]) is
            CaptureSnapshot) by {
            assert(a[k] == actions[k]);
        }
    }
    assert(saved_nothing(actions) ==> forall|path: Seq<char>| !#[trigger]
        was_saved(events, actions, path));
}

/// The keys to save are those that a plan changes.
proof fn lemma_covers(
    plan: RepairPlan,
    events: Seq<RepairEvent>,
    actions: Seq<RepairAction>,
    present: bool,
)
    requires
        plan.fix_bak && !present ==> was_absent(events, actions, plan.canonical_sid@),
        plan.fix_bak || present,
    ensures
        covers(plan, events, actions, snapshot_paths(plan, present)),
        plan.fix_bak || plan.reset_state ==> snapshot_paths(plan, present).len() > 0,
{
    let required = snapshot_paths(plan, present);
    let bak = list_path(plan.canonical_sid@ + ".bak"@);
    assert(canonical_path(plan) == list_path(plan.canonical_sid@));
    assert(canonical_path(plan) + ".bak"@ =~= bak);
    if plan.fix_bak {
        assert(required[0] == bak);
        if present {
            assert(required[1] == list_path(plan.canonical_sid@));
        }
    } else if plan.reset_state {
        assert(required[0] == list_path(plan.canonical_sid@));
    }
}

proof fn lemma_checked(
    plan: RepairPlan,
    is_loaded: bool,
    events: Seq<RepairEvent>,
    actions: Seq<RepairAction>,
    m: RepairModel,
    event: RepairEvent,
    n: RepairModel,
    action: RepairAction,
)
    requires
        holds(plan, events, actions, m),
        m.stage.expects(event),
        repair_follows(plan, is_loaded, m, event, n, action),
        event is Guarded || event is Inspected || event is Observed,
    ensures
        holds(plan, events.push(event), actions.push(action), n),
{
    let e = events.push(event);
    let a = actions.push(action);
    lemma_one_more(events, actions, event, action);
    if m.stage is SecondLocks && !plan.fix_bak {
        lemma_covers(plan, e, a, true);
    }
    if event is Observed && n.stage is SecondLocks {
        assert(idles_at(e, events.len() as int));
    }
}

proof fn lemma_audited(
    plan: RepairPlan,
    is_loaded: bool,
    events: Seq<RepairEvent>,
    actions: Seq<RepairAction>,
    m: RepairModel,
    event: RepairEvent,
    n: RepairModel,
    action: RepairAction,
)
    requires
        holds(plan, events, actions, m),
        m.stage.expects(event),
        repair_follows(plan, is_loaded, m, event, n, action),
        event is Audited,
    ensures
        holds(plan, events.push(event), actions.push(action), n),
{
    let e = events.push(event);
    let a = actions.push(action);
    lemma_one_more(events, actions, event, action);
}

proof fn lemma_looked_up(
    plan: RepairPlan,
    is_loaded: bool,
    events: Seq<RepairEvent>,
    actions: Seq<RepairAction>,
    m: RepairModel,
    event: RepairEvent,
    n: RepairModel,
    action: RepairAction,
)
    requires
        holds(plan, events, actions, m),
        m.stage.expects(event),
        repair_follows(plan, is_loaded, m, event, n, action),
        event is Exists || event is ExistsAt,
    ensures
        holds(plan, events.push(event), actions.push(action), n),
{
    let e = events.push(event);
    let a = actions.push(action);
    lemma_one_more(events, actions, event, action);
    if m.stage is CheckSnapshotTarget && event is Exists && (event->Exists_0 is Ok) {
        lemma_covers(plan, e, a, event->Exists_0->Ok_0);
    }
}

proof fn lemma_captured(
    plan: RepairPlan,
    is_loaded: bool,
    events: Seq<RepairEvent>,
    actions: Seq<RepairAction>,
    m: RepairModel,
    event: RepairEvent,
    n: RepairModel,
    action: RepairAction,
)
    requires
        holds(plan, events, actions, m),
        m.stage.expects(event),
        repair_follows(plan, is_loaded, m, event, n, action),
        event is Captured,
    ensures
        holds(plan, events.push(event), actions.push(action), n),
{
    let e = events.push(event);
    let a = actions.push(action);
    lemma_one_more(events, actions, event, action);
}

proof fn lemma_changed(
    plan: RepairPlan,
    is_loaded: bool,
    events: Seq<RepairEvent>,
    actions: Seq<RepairAction>,
    m: RepairModel,
    event: RepairEvent,
    n: RepairModel,
    action: RepairAction,
)
    requires
        holds(plan, events, actions, m),
        m.stage.expects(event),
        repair_follows(plan, is_loaded, m, event, n, action),
        event is Registry,
    ensures
        holds(plan, events.push(event), actions.push(action), n),
{
    let e = events.push(event);
    let a = actions.push(action);
    lemma_one_more(events, actions, event, action);
}

proof fn lemma_verified(
    plan: RepairPlan,
    is_loaded: bool,
    events: Seq<RepairEvent>,
    actions: Seq<RepairAction>,
    m: RepairModel,
    event: RepairEvent,
    n: RepairModel,
    action: RepairAction,
)
    requires
        holds(plan, events, actions, m),
        m.stage.expects(event),
        repair_follows(plan, is_loaded, m, event, n, action),
        event is Verified,
    ensures
        holds(plan, events.push(event), actions.push(action), n),
{
    let e = events.push(event);
    let a = actions.push(action);
    lemma_one_more(events, actions, event, action);
    if n.stage is AuditSuccess {
        assert(sees_at(plan, e, events.len() as int));
    }
}

proof fn lemma_restored(
    plan: RepairPlan,
    is_loaded: bool,
    events: Seq<RepairEvent>,
    actions: Seq<RepairAction>,
    m: RepairModel,
    event: RepairEvent,
    n: RepairModel,
    action: RepairAction,
)
    requires
        holds(plan, events, actions, m),
        m.stage.expects(event),
        repair_follows(plan, is_loaded, m, event, n, action),
        event is Restored,
    ensures
        holds(plan, events.push(event), actions.push(action), n),
{
    let e = events.push(event);
    let a = actions.push(action);
    lemma_one_more(events, actions, event, action);
}

proof fn lemma_step_holds(
    plan: RepairPlan,
    is_loaded: bool,
    events: Seq<RepairEvent>,
    actions: Seq<RepairAction>,
    m: RepairModel,
    event: RepairEvent,
    n: RepairModel,
    action: RepairAction,
)
    requires
        holds(plan, events, actions, m),
        m.stage.expects(event),
        repair_follows(plan, is_loaded, m, event, n, action),
    ensures
        holds(plan, events.push(event), actions.push(action), n),
{
    match event {
        RepairEvent::Guarded(_) | RepairEvent::Inspected(_) | RepairEvent::Observed(_) => {
            lemma_checked(plan, is_loaded, events, actions, m, event, n, action);
        },
        RepairEvent::Audited(_) => {
            lemma_audited(plan, is_loaded, events, actions, m, event, n, action);
        },
        RepairEvent::Exists(_) | RepairEvent::ExistsAt(_, _) => {
            lemma_looked_up(plan, is_loaded, events, actions, m, event, n, action);
        },
        RepairEvent::Captured(_) => {
            lemma_captured(plan, is_loaded, events, actions, m, event, n, action);
        },
        RepairEvent::Registry(_) => {
            lemma_changed(plan, is_loaded, events, actions, m, event, n, action);
        },
        RepairEvent::Verified(_) => {
            lemma_verified(plan, is_loaded, events, actions, m, event, n, action);
        },
        RepairEvent::Restored(_) => {
            lemma_restored(plan, is_loaded, events, actions, m, event, n, action);
        },
    }
}

proof fn lemma_repair_holds(
    plan: RepairPlan,
    is_loaded: bool,
    events: Seq<RepairEvent>,
    actions: Seq<RepairAction>,
    m: RepairModel,
)
    requires
        repair_reaches(plan, is_loaded, events, actions, m),
    ensures
        holds(plan, events, actions, m),
        m.stage is Finished <==> actions.last() is Finish,
    decreases events.len(),
{
    if events.len() > 0 {
        let before = choose|before: RepairModel| #[trigger]
            repair_follows(plan, is_loaded, before, events.last(), m, actions.last())
                && before.stage.expects(events.last()) && repair_reaches(
                plan,
                is_loaded,
                events.drop_last(),
                actions.drop_last(),
                before,
            );
        let (e, a) = (events.drop_last(), actions.drop_last());
        lemma_repair_holds(plan, is_loaded, e, a, before);
        lemma_step_holds(plan, is_loaded, e, a, before, events.last(), m, actions.last());
        assert(e.push(events.last()) =~= events);
        assert(a.push(actions.last()) =~= actions);
    }
}

// ---------------------------------------------------------------------------
// What a run shows
// ---------------------------------------------------------------------------

/// Whether an action changes the profile list.
pub open spec fn is_change(action: RepairAction) -> bool {
    action is RenameKey || action is SetValue || action is RestoreSnapshot
}

/// Nothing is changed unsaved. Before a run changes anything, the keys that its plan
/// changes are saved; a key that it renames, or whose values it sets, was saved under its
/// name, or was not there when the run looked, or is one that the run itself gave that
/// name.
pub proof fn what_a_repair_changes_was_saved(
    plan: RepairPlan,
    is_loaded: bool,
    events: Seq<RepairEvent>,
    actions: Seq<RepairAction>,
    m: RepairModel,
)
    requires
        repair_reaches(plan, is_loaded, events, actions, m),
    ensures
        is_change(actions.last()) ==> {
            &&& plan.fix_bak || plan.reset_state
            &&& plan.fix_bak ==> was_saved(
                events,
                actions,
                list_path(plan.canonical_sid@ + ".bak"@),
            )
            &&& plan.fix_bak ==> was_saved(events, actions, list_path(plan.canonical_sid@))
                || was_absent(events, actions, plan.canonical_sid@)
            &&& plan.reset_state && !plan.fix_bak ==> was_saved(
                events,
                actions,
                list_path(plan.canonical_sid@),
            )
        },
        actions.last() matches RepairAction::RenameKey { from, to } ==> {
            ||| was_saved(events, actions, list_path(from@))
            ||| was_absent(events, actions, from@)
            ||| exists|old_name: Seq<char>| #[trigger] was_moved(events, actions, old_name, from@)
        },
        actions.last() is SetValue ==> exists|name: Seq<char>| #[trigger]
            was_opened(events, actions, name) && {
                ||| was_saved(events, actions, list_path(name))
                ||| exists|old_name: Seq<char>| #[trigger]
                    was_moved(events, actions, old_name, name) && was_saved(
                        events,
                        actions,
                        list_path(old_name),
                    )
            },
        actions.last() matches RepairAction::OpenKey { name } ==> {
            ||| was_saved(events, actions, list_path(name@))
            ||| exists|old_name: Seq<char>| #[trigger]
                was_moved(events, actions, old_name, name@) && was_saved(
                    events,
                    actions,
                    list_path(old_name),
                )
        },
{
    lemma_repair_holds(plan, is_loaded, events, actions, m);
    lemma_actions_and_stages(plan, is_loaded, events, actions, m);
    assert(!is_early(m.stage) && !(m.stage is Finished) && !(m.stage is Snapshot) ==> is_covered(
        plan,
        events,
        actions,
    ));
    if actions.last() is SetValue {
        assert(was_opened(events, actions, plan.canonical_sid@));
    }
}

/// Which action is under way at which stage.
proof fn lemma_actions_and_stages(
    plan: RepairPlan,
    is_loaded: bool,
    events: Seq<RepairEvent>,
    actions: Seq<RepairAction>,
    m: RepairModel,
)
    requires
        repair_reaches(plan, is_loaded, events, actions, m),
    ensures
        actions.last() is RenameKey ==> m.stage is RenameCanonical || m.stage is RenameBak
            || m.stage is RollBakRename || m.stage is RollCanonicalRename,
        actions.last() is SetValue ==> m.stage is SetState || m.stage is SetRefCount,
        actions.last() is OpenKey ==> m.stage is OpenCanonical,
        actions.last() is RestoreSnapshot ==> m.stage is RestoreSnapshot,
        actions.last() is CaptureSnapshot ==> m.stage is Snapshot,
{
}

/// A profile in use is never changed: before a run changes anything, the look for the hive
/// below `HKEY_USERS` found none, and behind it the locks were inspected and no process
/// held the hive. A look that found the hive ends the run, with an error and with nothing
/// changed.
pub proof fn a_repair_never_touches_a_profile_in_use(
    plan: RepairPlan,
    is_loaded: bool,
    events: Seq<RepairEvent>,
    actions: Seq<RepairAction>,
    m: RepairModel,
)
    requires
        repair_reaches(plan, is_loaded, events, actions, m),
    ensures
        is_change(actions.last()) ==> was_free(events) && !is_loaded,
        actions.last() is CaptureSnapshot ==> was_free(events) && !is_loaded,
        forall|i: int|
            0 <= i < events.len() && ((#[trigger] events[i]) matches RepairEvent::Observed(o)
                && o.hive is Ok) ==> i == events.len() - 1 && (actions.last() matches
                RepairAction::Finish(Err(_))) && changed_nothing(actions),
{
    lemma_repair_holds(plan, is_loaded, events, actions, m);
    lemma_actions_and_stages(plan, is_loaded, events, actions, m);
    lemma_not_loaded(plan, is_loaded, events, actions, m);
}

proof fn lemma_not_loaded(
    plan: RepairPlan,
    is_loaded: bool,
    events: Seq<RepairEvent>,
    actions: Seq<RepairAction>,
    m: RepairModel,
)
    requires
        repair_reaches(plan, is_loaded, events, actions, m),
    ensures
        !(m.stage is Guard || m.stage is FirstLocks || m.stage is Observe || m.stage is Finished)
            ==> !is_loaded,
        forall|i: int|
            0 <= i < events.len() && ((#[trigger] events[i]) matches RepairEvent::Observed(o)
                && o.hive is Ok) ==> i == events.len() - 1 && m.stage is Finished && (
            actions.last() matches RepairAction::Finish(Err(_))) && changed_nothing(actions),
    decreases events.len(),
{
    lemma_repair_holds(plan, is_loaded, events, actions, m);
    if events.len() > 0 {
        let before = choose|before: RepairModel| #[trigger]
            repair_follows(plan, is_loaded, before, events.last(), m, actions.last())
                && before.stage.expects(events.last()) && repair_reaches(
                plan,
                is_loaded,
                events.drop_last(),
                actions.drop_last(),
                before,
            );
        lemma_not_loaded(plan, is_loaded, events.drop_last(), actions.drop_last(), before);
        lemma_repair_holds(plan, is_loaded, events.drop_last(), actions.drop_last(), before);
        lemma_one_more(events.drop_last(), actions.drop_last(), events.last(), actions.last());
        assert(actions.drop_last().push(actions.last()) =~= actions);
        assert forall|i: int|
            0 <= i < events.len() && ((#[trigger] events[i]) matches RepairEvent::Observed(o)
                && o.hive is Ok) implies i == events.len() - 1 && m.stage is Finished && (
        actions.last() matches RepairAction::Finish(Err(_))) && changed_nothing(actions) by {
            if i < events.len() - 1 {
                assert(events.drop_last()[i] == events[i]);
            }
        }
    }
}

/// A repair that ends well did what its plan selects: the key that was set aside has the
/// profile's name again, the state and the reference count of the profile's key were set
/// to zero, and all of it was seen in the registry afterwards. A rehearsal that ends well
/// changed nothing and saved nothing.
pub proof fn a_repair_that_ends_well_was_carried_out(
    plan: RepairPlan,
    is_loaded: bool,
    events: Seq<RepairEvent>,
    actions: Seq<RepairAction>,
    m: RepairModel,
)
    requires
        repair_reaches(plan, is_loaded, events, actions, m),
    ensures
        plan.dry_run ==> changed_nothing(actions) && saved_nothing(actions),
        !plan.dry_run && (actions.last() matches RepairAction::Finish(Ok(_))) ==> {
            &&& plan.fix_bak ==> was_moved(
                events,
                actions,
                plan.canonical_sid@ + ".bak"@,
                plan.canonical_sid@,
            )
            &&& plan.reset_state ==> was_opened(events, actions, plan.canonical_sid@)
                && was_zeroed(events, actions, "State"@) && was_zeroed(
                events,
                actions,
                "RefCount"@,
            )
            &&& was_seen(plan, events)
        },
{
    lemma_repair_holds(plan, is_loaded, events, actions, m);
}

/// A repair that fails takes back what it did: where anything was changed, every key that
/// was saved is tried to restore before the run ends.
pub proof fn a_repair_that_fails_is_taken_back(
    plan: RepairPlan,
    is_loaded: bool,
    events: Seq<RepairEvent>,
    actions: Seq<RepairAction>,
    m: RepairModel,
    path: Seq<char>,
)
    requires
        repair_reaches(plan, is_loaded, events, actions, m),
        actions.last() matches RepairAction::Finish(Err(_)),
        was_saved(events, actions, path),
    ensures
        changed_nothing(actions) || was_restored(actions, path),
{
    lemma_repair_holds(plan, is_loaded, events, actions, m);
}

/// Whether an entry of the journal was asked for, and written.
pub open spec fn was_journaled(
    events: Seq<RepairEvent>,
    actions: Seq<RepairAction>,
    operation: Seq<char>,
    status: AuditStatus,
) -> bool {
    exists|i: int| #[trigger] journals_at(events, actions, operation, status, i)
}

pub open spec fn journals_at(
    events: Seq<RepairEvent>,
    actions: Seq<RepairAction>,
    operation: Seq<char>,
    status: AuditStatus,
    i: int,
) -> bool {
    &&& 0 <= i < events.len()
    &&& i < actions.len()
    &&& actions[i] matches RepairAction::Audit { operation: o, status: s, details } && o@
        == operation && s == status
    &&& events[i] matches RepairEvent::Audited(Ok(_))
}

/// Whether an entry of the journal is asked for.
spec fn asks_journal(action: RepairAction, operation: Seq<char>, status: AuditStatus) -> bool {
    action matches RepairAction::Audit { operation: o, status: s, details } && o@ == operation && s
        == status
}

spec fn is_started(stage: RepairStage) -> bool {
    stage is OpenList || stage.is_carried_out() || stage.is_taken_back()
}

proof fn lemma_journal(
    plan: RepairPlan,
    is_loaded: bool,
    events: Seq<RepairEvent>,
    actions: Seq<RepairAction>,
    m: RepairModel,
)
    requires
        repair_reaches(plan, is_loaded, events, actions, m),
    ensures
        m.stage is AuditStarted ==> asks_journal(
            actions.last(),
            "RepairStarted"@,
            AuditStatus::Warning,
        ),
        m.stage is AuditSuccess ==> asks_journal(
            actions.last(),
            "RepairSuccess"@,
            AuditStatus::Success,
        ),
        m.stage is AuditDryRun ==> asks_journal(
            actions.last(),
            "RepairDryRun"@,
            AuditStatus::Success,
        ),
        is_started(m.stage) ==> was_journaled(
            events,
            actions,
            "RepairStarted"@,
            AuditStatus::Warning,
        ),
        actions.last() matches RepairAction::Finish(Ok(_)) ==> if plan.dry_run {
            was_journaled(events, actions, "RepairDryRun"@, AuditStatus::Success)
        } else {
            was_journaled(events, actions, "RepairSuccess"@, AuditStatus::Success)
        },
    decreases events.len(),
{
    if events.len() > 0 {
        let before = choose|before: RepairModel| #[trigger]
            repair_follows(plan, is_loaded, before, events.last(), m, actions.last())
                && before.stage.expects(events.last()) && repair_reaches(
                plan,
                is_loaded,
                events.drop_last(),
                actions.drop_last(),
                before,
            );
        let (e, a) = (events.drop_last(), actions.drop_last());
        lemma_journal(plan, is_loaded, e, a, before);
        lemma_repair_holds(plan, is_loaded, e, a, before);
        let at = e.len() as int;
        assert(a.last() == actions[at]);
        if was_journaled(e, a, "RepairStarted"@, AuditStatus::Warning) {
            let i = choose|i: int| #[trigger]
                journals_at(e, a, "RepairStarted"@, AuditStatus::Warning, i);
            assert(journals_at(events, actions, "RepairStarted"@, AuditStatus::Warning, i));
        }
        if before.stage is AuditStarted && m.stage is OpenList {
            assert(journals_at(events, actions, "RepairStarted"@, AuditStatus::Warning, at));
        }
        if actions.last() matches RepairAction::Finish(Ok(_)) {
            if before.stage is AuditSuccess {
                assert(journals_at(events, actions, "RepairSuccess"@, AuditStatus::Success, at));
            } else {
                assert(before.stage is AuditDryRun);
                assert(journals_at(events, actions, "RepairDryRun"@, AuditStatus::Success, at));
            }
        }
    }
}

/// The journal has the start of a repair before anything is changed, and its success where
/// it ends well; a rehearsal is there under its own name.
pub proof fn a_repair_is_in_the_journal(
    plan: RepairPlan,
    is_loaded: bool,
    events: Seq<RepairEvent>,
    actions: Seq<RepairAction>,
    m: RepairModel,
)
    requires
        repair_reaches(plan, is_loaded, events, actions, m),
    ensures
        is_change(actions.last()) ==> was_journaled(
            events,
            actions,
            "RepairStarted"@,
            AuditStatus::Warning,
        ),
        actions.last() matches RepairAction::Finish(Ok(_)) ==> if plan.dry_run {
            was_journaled(events, actions, "RepairDryRun"@, AuditStatus::Success)
        } else {
            was_journaled(events, actions, "RepairSuccess"@, AuditStatus::Success)
        },
{
    lemma_journal(plan, is_loaded, events, actions, m);
    lemma_actions_and_stages(plan, is_loaded, events, actions, m);
}

} // verus!
