//! What a migration asked for and copied, told from a whole run.
use crate::copying::{
    file_copy_follows, FileCopyAction, FileCopyModel, FileCopyStep, TransactionModel,
};
use crate::migration_progress::{run_reaches, takes};
use crate::migration_run::{
    goes_on, quiet, root_components, run_follows, selected_roots, turns_back,
    FrameModel, RunAction, RunEvent, RunModel, RunStage, RunStep,
};
use crate::journal::AuditStatus;
use crate::models::MigrationPlan;
use crate::registry::RegistryError;
use crate::secure_fs::{entry_models, EntryModel};
use crate::text::split;
use vstd::multiset::Multiset;
use vstd::prelude::*;

verus! {

// ---------------------------------------------------------------------------
// What was asked for
// ---------------------------------------------------------------------------

/// Whether a step asks to open a directory below the source; the first starts at the
/// source itself, any other at the one that was opened before.
pub open spec fn opens_source(steps: Seq<RunStep>, i: int, name: Seq<char>, first: bool) -> bool {
    &&& 0 <= i < steps.len()
    &&& steps[i].action matches RunAction::OpenSourceRoot { component, first: f } && component@
        == name && f == first
}

/// Whether a step starts to copy what was opened, to the same place below the target.
pub open spec fn starts_copy(steps: Seq<RunStep>, i: int, name: Seq<char>) -> bool {
    &&& 0 <= i < steps.len()
    &&& steps[i].action matches RunAction::EnsureTargetRoot { component, first } && component@
        == name && first
}

pub open spec fn was_opened(events: Seq<RunEvent>, i: int) -> bool {
    0 <= i < events.len() && (events[i] matches RunEvent::Opened(Ok(_)))
}

pub open spec fn was_missing(events: Seq<RunEvent>, i: int) -> bool {
    0 <= i < events.len() && (events[i] matches RunEvent::Opened(Err(e)) && e is NotFound)
}

/// Whether a folder of the source was asked for and, unless it is not there, copied.
pub open spec fn takes_folder(events: Seq<RunEvent>, steps: Seq<RunStep>, name: Seq<char>) -> bool {
    exists|i: int| #[trigger]
        opens_source(steps, i, name, true) && (was_missing(events, i + 1) || was_opened(
            events,
            i + 1,
        ) && starts_copy(steps, i + 1, name))
}

/// Whether a folder in a folder of the source was asked for and, unless it is not there,
/// copied.
pub open spec fn takes_inner_folder(
    events: Seq<RunEvent>,
    steps: Seq<RunStep>,
    outer: Seq<char>,
    inner: Seq<char>,
) -> bool {
    exists|i: int| #[trigger]
        opens_source(steps, i, outer, true) && (was_missing(events, i + 1) || was_opened(
            events,
            i + 1,
        ) && opens_source(steps, i + 1, inner, false) && (was_missing(events, i + 2) || was_opened(
            events,
            i + 2,
        ) && starts_copy(steps, i + 2, outer)))
}

// ---------------------------------------------------------------------------
// What was listed and copied
// ---------------------------------------------------------------------------

/// The names of the entries of a kind, from a place on.
pub open spec fn names_from(entries: Seq<EntryModel>, next: int, directories: bool) -> Multiset<
    Seq<u16>,
>
    decreases entries.len() - next,
{
    if next < 0 || next >= entries.len() {
        Multiset::empty()
    } else {
        let rest = names_from(entries, next + 1, directories);
        if entries[next].kind is Directory == directories {
            rest.insert(entries[next].name)
        } else {
            rest
        }
    }
}

/// The names of all entries of a kind that were listed.
pub open spec fn names_listed(events: Seq<RunEvent>, directories: bool) -> Multiset<Seq<u16>>
    decreases events.len(),
{
    if events.len() == 0 {
        Multiset::empty()
    } else {
        let before = names_listed(events.drop_last(), directories);
        match events.last() {
            RunEvent::Listed(Ok(entries)) => before.add(
                names_from(entry_models(entries@), 0, directories),
            ),
            _ => before,
        }
    }
}

/// The names of all files that were opened to be copied.
pub open spec fn files_taken(steps: Seq<RunStep>) -> Multiset<Seq<u16>>
    decreases steps.len(),
{
    if steps.len() == 0 {
        Multiset::empty()
    } else {
        let before = files_taken(steps.drop_last());
        match steps.last().action {
            RunAction::OpenFile { name } => before.insert(name@),
            _ => before,
        }
    }
}

/// The names of all directories that were entered below a folder.
pub open spec fn directories_taken(steps: Seq<RunStep>) -> Multiset<Seq<u16>>
    decreases steps.len(),
{
    if steps.len() == 0 {
        Multiset::empty()
    } else {
        let before = directories_taken(steps.drop_last());
        match steps.last().action {
            RunAction::OpenSourceChild { name } => before.insert(name@),
            _ => before,
        }
    }
}

/// How many folders were started to copy.
pub open spec fn folders_started(steps: Seq<RunStep>) -> nat
    decreases steps.len(),
{
    if steps.len() == 0 {
        0
    } else {
        folders_started(steps.drop_last()) + (match steps.last().action {
            RunAction::EnsureTargetRoot { component, first } => if first {
                1nat
            } else {
                0nat
            },
            _ => 0nat,
        })
    }
}

/// How many directories were listed.
pub open spec fn listings(events: Seq<RunEvent>) -> nat
    decreases events.len(),
{
    if events.len() == 0 {
        0
    } else {
        listings(events.drop_last()) + (match events.last() {
            RunEvent::Listed(Ok(_)) => 1nat,
            _ => 0nat,
        })
    }
}

// ---------------------------------------------------------------------------
// What holds between any two steps
// ---------------------------------------------------------------------------

/// What is still to be taken of the directories in use.
spec fn names_left(frames: Seq<FrameModel>, directories: bool) -> Multiset<Seq<u16>>
    decreases frames.len(),
{
    if frames.len() == 0 {
        Multiset::empty()
    } else {
        names_left(frames.drop_last(), directories).add(
            names_from(frames.last().entries, frames.last().next as int, directories),
        )
    }
}

/// Whether a root was asked for component by component, from a place on, and answered.
spec fn root_taken_at(
    events: Seq<RunEvent>,
    steps: Seq<RunStep>,
    root: Seq<char>,
    i: int,
    last: int,
) -> bool {
    let parts = root_components(root);
    &&& 0 <= i
    &&& 0 <= last < parts.len()
    &&& i + last + 1 < events.len()
    &&& forall|d: int|
        0 <= d <= last ==> opens_source(steps, i + d, #[trigger] parts[d], d == 0)
    &&& forall|d: int| 0 <= d < last ==> was_opened(events, #[trigger] next_answer(i, d))
    &&& was_missing(events, i + last + 1) || last == parts.len() - 1 && was_opened(
        events,
        i + last + 1,
    ) && starts_copy(steps, i + last + 1, parts[0])
}

spec fn next_answer(i: int, d: int) -> int {
    i + d + 1
}

spec fn root_taken(events: Seq<RunEvent>, steps: Seq<RunStep>, root: Seq<char>) -> bool {
    exists|i: int, last: int| #[trigger] root_taken_at(events, steps, root, i, last)
}

/// Whether a root is being asked for, up to a component.
spec fn root_under_way(
    events: Seq<RunEvent>,
    steps: Seq<RunStep>,
    root: Seq<char>,
    component: int,
) -> bool {
    let parts = root_components(root);
    let i = steps.len() - 1 - component;
    &&& 0 <= component < parts.len()
    &&& 0 <= i
    &&& forall|d: int|
        0 <= d <= component ==> opens_source(steps, i + d, #[trigger] parts[d], d == 0)
    &&& forall|d: int| 0 <= d < component ==> was_opened(events, #[trigger] next_answer(i, d))
}

spec fn is_inside(stage: RunStage) -> bool {
    stage is EnsureTargetRoot || stage is List || stage is PollEntry || stage is OpenSourceChild
        || stage is EnsureTargetChild || stage is CopyFile || stage is Leave
}

spec fn is_between(stage: RunStage) -> bool {
    stage is PollRoot || stage is OpenSourceRoot || stage is PollBeforeReceipt
}

spec fn is_behind(stage: RunStage) -> bool {
    stage is PollAfterReceipt || stage is PollBeforeAudit || stage is AuditSuccess
}

spec fn is_before(stage: RunStage) -> bool {
    stage is Guard || stage is Observe || stage is AuditStart || stage is CreateTarget || stage is
        CompareRoots || stage is ProbeDpapi || stage is AuditDpapi
}

/// The counts and names that match in a run that goes on.
spec fn accounts(events: Seq<RunEvent>, steps: Seq<RunStep>, m: RunModel) -> bool {
    let stage = m.stage;
    &&& names_listed(events, false) == files_taken(steps).add(names_left(m.frames, false))
    &&& names_listed(events, true) == directories_taken(steps).add(names_left(m.frames, true))
    &&& files_taken(steps).len() == m.tx.manifest.len() + (if stage is CopyFile {
        1nat
    } else {
        0nat
    })
    &&& listings(events) + (if stage is EnsureTargetRoot || stage is List || stage is
        OpenSourceChild || stage is EnsureTargetChild {
        1nat
    } else {
        0nat
    }) == folders_started(steps) + directories_taken(steps).len()
    &&& is_inside(stage) && !(stage is EnsureTargetRoot) || m.frames.len() == 0
    &&& stage is PollEntry || stage is OpenSourceChild || stage is EnsureTargetChild || stage is
        CopyFile ==> m.frames.len() > 0
    &&& stage is PollEntry ==> m.top().next < m.top().entries.len()
}

spec fn roots_taken(
    events: Seq<RunEvent>,
    steps: Seq<RunStep>,
    roots: Seq<Seq<char>>,
    n: int,
) -> bool {
    forall|k: int|
        0 <= k < roots.len() && k < n ==> root_taken(events, steps, #[trigger] roots[k])
}

spec fn all_accounted(
    plan: MigrationPlan,
    events: Seq<RunEvent>,
    steps: Seq<RunStep>,
    files: nat,
) -> bool {
    &&& roots_taken(events, steps, selected_roots(plan), selected_roots(plan).len() as int)
    &&& names_listed(events, false) == files_taken(steps)
    &&& names_listed(events, true) == directories_taken(steps)
    &&& files_taken(steps).len() == files
    &&& listings(events) == folders_started(steps) + directories_taken(steps).len()
}

spec fn holds(
    plan: MigrationPlan,
    events: Seq<RunEvent>,
    steps: Seq<RunStep>,
    m: RunModel,
) -> bool {
    let stage = m.stage;
    &&& events.len() == steps.len()
    &&& stage is Finished || m.roots == selected_roots(plan)
    &&& is_before(stage) || is_between(stage) || is_inside(stage) ==> accounts(events, steps, m)
    &&& is_before(stage) ==> m.tx.manifest.len() == 0 && m.frames.len() == 0
    &&& is_between(stage) ==> roots_taken(events, steps, m.roots, m.root as int)
    &&& is_inside(stage) ==> roots_taken(
        events,
        steps,
        m.roots,
        m.root as int + 1,
    )
    &&& stage is OpenSourceRoot || is_inside(stage) ==> m.root < m.roots.len()
        || m.roots.len() == 0
    &&& stage is OpenSourceRoot && m.root < m.roots.len() ==> root_under_way(
        events,
        steps,
        m.roots[m.root as int],
        m.component as int,
    )
    &&& stage is PollBeforeReceipt ==> m.root >= m.roots.len()
    &&& stage is PollRoot ==> m.root < m.roots.len() || m.roots.len() == 0
    &&& is_behind(stage) ==> (m.receipt matches Some(r) && all_accounted(
        plan,
        events,
        steps,
        r.copied_files as nat,
    ))
    &&& stage is Finished ==> steps.len() > 0 && (steps.last().action matches RunAction::Finish(r)
        && (r matches Ok(receipt) ==> all_accounted(
        plan,
        events,
        steps,
        receipt.copied_files as nat,
    )))
}

proof fn lemma_opens_source_kept(steps: Seq<RunStep>, step: RunStep)
    ensures
        forall|i: int, name: Seq<char>, first: bool|
            opens_source(steps, i, name, first) ==> #[trigger] opens_source(
                steps.push(step),
                i,
                name,
                first,
            ),
        forall|i: int, name: Seq<char>|
            starts_copy(steps, i, name) ==> #[trigger] starts_copy(steps.push(step), i, name),
{
}

/// One more event and the step that answers it.
proof fn lemma_one_more(
    events: Seq<RunEvent>,
    steps: Seq<RunStep>,
    event: RunEvent,
    step: RunStep,
)
    ensures
        ({
            let e = events.push(event);
            let s = steps.push(step);
            &&& forall|directories: bool| #[trigger]
                names_listed(e, directories) == (match event {
                    RunEvent::Listed(Ok(entries)) => names_listed(events, directories).add(
                        names_from(entry_models(entries@), 0, directories),
                    ),
                    _ => names_listed(events, directories),
                })
            &&& files_taken(s) == (match step.action {
                RunAction::OpenFile { name } => files_taken(steps).insert(name@),
                _ => files_taken(steps),
            })
            &&& directories_taken(s) == (match step.action {
                RunAction::OpenSourceChild { name } => directories_taken(steps).insert(name@),
                _ => directories_taken(steps),
            })
            &&& folders_started(s) == folders_started(steps) + (match step.action {
                RunAction::EnsureTargetRoot { component, first } => if first {
                    1nat
                } else {
                    0nat
                },
                _ => 0nat,
            })
            &&& listings(e) == listings(events) + (match event {
                RunEvent::Listed(Ok(_)) => 1nat,
                _ => 0nat,
            })
            &&& forall|root: Seq<char>|
                root_taken(events, steps, root) ==> #[trigger] root_taken(e, s, root)
            &&& forall|roots: Seq<Seq<char>>, k: int|
                roots_taken(events, steps, roots, k) ==> #[trigger] roots_taken(e, s, roots, k)
        }),
{
    let e = events.push(event);
    let s = steps.push(step);
    assert(e.drop_last() =~= events);
    assert(s.drop_last() =~= steps);
    assert(e.last() == event && s.last() == step);
    lemma_opens_source_kept(steps, step);
    assert forall|root: Seq<char>| root_taken(events, steps, root) implies #[trigger] root_taken(
        e,
        s,
        root,
    ) by {
        let (i, last) = choose|i: int, last: int| #[trigger]
            root_taken_at(events, steps, root, i, last);
        let parts = root_components(root);
        assert forall|d: int| 0 <= d <= last implies opens_source(
            s,
            i + d,
            #[trigger] parts[d],
            d == 0,
        ) by {
            assert(opens_source(steps, i + d, parts[d], d == 0));
        }
        assert forall|d: int| 0 <= d < last implies was_opened(e, #[trigger] next_answer(i, d)) by {
            assert(was_opened(events, next_answer(i, d)));
        }
        assert(root_taken_at(e, s, root, i, last));
    }
    assert forall|roots: Seq<Seq<char>>, k: int|
        roots_taken(events, steps, roots, k) implies #[trigger] roots_taken(e, s, roots, k) by {
        assert forall|j: int| 0 <= j < roots.len() && j < k implies root_taken(
            e,
            s,
            #[trigger] roots[j],
        ) by {
            assert(root_taken(events, steps, roots[j]));
        }
    }
}

/// An entry that is taken is no longer left.
proof fn lemma_entry_taken(frames: Seq<FrameModel>, directories: bool)
    requires
        frames.len() > 0,
        frames.last().next < frames.last().entries.len(),
    ensures
        ({
            let top = frames.last();
            let entry = top.entries[top.next as int];
            let after = frames.drop_last().push(FrameModel { next: top.next + 1, ..top });
            names_left(frames, directories) == if entry.kind is Directory == directories {
                names_left(after, directories).insert(entry.name)
            } else {
                names_left(after, directories)
            }
        }),
{
    let top = frames.last();
    let entry = top.entries[top.next as int];
    let after = frames.drop_last().push(FrameModel { next: top.next + 1, ..top });
    assert(after.drop_last() =~= frames.drop_last());
    assert(names_left(frames, directories) =~= if entry.kind is Directory == directories {
        names_left(after, directories).insert(entry.name)
    } else {
        names_left(after, directories)
    });
}

/// A directory that is listed leaves all its entries.
proof fn lemma_frame_entered(frames: Seq<FrameModel>, frame: FrameModel, directories: bool)
    ensures
        names_left(frames.push(frame), directories) == names_left(frames, directories).add(
            names_from(frame.entries, frame.next as int, directories),
        ),
{
    assert(frames.push(frame).drop_last() =~= frames);
}

/// A directory with nothing left can be left.
proof fn lemma_frame_left(frames: Seq<FrameModel>, directories: bool)
    requires
        frames.len() > 0,
        frames.last().next >= frames.last().entries.len(),
    ensures
        names_left(frames, directories) == names_left(frames.drop_last(), directories),
{
    assert(names_left(frames, directories) =~= names_left(frames.drop_last(), directories));
}

/// Going on with the directory in use keeps the accounts.
proof fn lemma_goes_on(
    events: Seq<RunEvent>,
    steps: Seq<RunStep>,
    m: RunModel,
    n: RunModel,
    step: RunStep,
)
    requires
        goes_on(m, n, step),
        m.frames.len() > 0,
    ensures
        names_left(n.frames, false) == names_left(m.frames, false),
        names_left(n.frames, true) == names_left(m.frames, true),
        n.stage is PollEntry || n.stage is Leave,
        n.stage is PollEntry ==> n.frames.len() > 0 && n.top().next < n.top().entries.len(),
        n.tx == m.tx,
        n.roots == m.roots,
        n.root == m.root,
        step.action is PollCancellation || step.action is Leave,
{
    if !(m.top().next < m.top().entries.len()) {
        lemma_frame_left(m.frames, false);
        lemma_frame_left(m.frames, true);
    }
}

proof fn lemma_prepared(
    plan: MigrationPlan,
    events: Seq<RunEvent>,
    steps: Seq<RunStep>,
    m: RunModel,
    event: RunEvent,
    n: RunModel,
    step: RunStep,
)
    requires
        holds(plan, events, steps, m),
        takes(m, event),
        run_follows(plan, m, event, n, step),
        event is Guarded || event is Observed || event is Compared || event is Probed || event is Audited,
    ensures
        holds(plan, events.push(event), steps.push(step), n),
{
    let e = events.push(event);
    let s = steps.push(step);
    lemma_one_more(events, steps, event, step);
    assert(m.frames.len() == 0 ==> n.frames.len() == 0 || n.stage is Finished || !is_before(m.stage));
}

proof fn lemma_opened(
    plan: MigrationPlan,
    events: Seq<RunEvent>,
    steps: Seq<RunStep>,
    m: RunModel,
    event: RunEvent,
    n: RunModel,
    step: RunStep,
)
    requires
        holds(plan, events, steps, m),
        takes(m, event),
        run_follows(plan, m, event, n, step),
        event is Opened,
    ensures
        holds(plan, events.push(event), steps.push(step), n),
{
    let e = events.push(event);
    let s = steps.push(step);
    lemma_one_more(events, steps, event, step);
    if m.stage is OpenSourceRoot && m.root < m.roots.len() {
        let root = m.roots[m.root as int];
        let parts = root_components(root);
        let c = m.component as int;
        let i = steps.len() - 1 - c;
        lemma_opens_source_kept(steps, step);
        assert forall|d: int| 0 <= d <= c implies opens_source(
            s,
            i + d,
            #[trigger] parts[d],
            d == 0,
        ) by {
            assert(opens_source(steps, i + d, parts[d], d == 0));
        }
        assert forall|d: int| 0 <= d < c implies was_opened(e, #[trigger] next_answer(i, d)) by {
            assert(was_opened(events, next_answer(i, d)));
        }
        assert(next_answer(i, c) == events.len());
        if n.stage is OpenSourceRoot {
            assert(s[i + c + 1] == step);
            assert(opens_source(s, i + c + 1, parts[c + 1], false));
            assert forall|d: int| 0 <= d <= c + 1 implies opens_source(
                s,
                i + d,
                #[trigger] parts[d],
                d == 0,
            ) by {}
            assert(root_under_way(e, s, root, c + 1));
        } else if n.stage is EnsureTargetRoot {
            assert(starts_copy(s, i + c + 1, parts[0]));
            assert(root_taken_at(e, s, root, i, c));
            lemma_one_root_more(e, s, m.roots, m.root as int);
        } else if n.stage is PollRoot || n.stage is PollBeforeReceipt {
            assert(was_missing(e, i + c + 1));
            assert(root_taken_at(e, s, root, i, c));
            lemma_one_root_more(e, s, m.roots, m.root as int);
        }
    }
}

proof fn lemma_polled(
    plan: MigrationPlan,
    events: Seq<RunEvent>,
    steps: Seq<RunStep>,
    m: RunModel,
    event: RunEvent,
    n: RunModel,
    step: RunStep,
)
    requires
        holds(plan, events, steps, m),
        takes(m, event),
        run_follows(plan, m, event, n, step),
        event is Polled,
    ensures
        holds(plan, events.push(event), steps.push(step), n),
{
    let e = events.push(event);
    let s = steps.push(step);
    lemma_one_more(events, steps, event, step);
    if m.stage is PollRoot && n.stage is OpenSourceRoot && m.root < m.roots.len() {
        let root = m.roots[m.root as int];
        let parts = root_components(root);
        crate::text::lemma_split_nonempty(root, '\\');
        assert(opens_source(s, steps.len() as int, parts[0], true));
        assert(root_under_way(e, s, root, 0));
    }
    if m.stage is PollEntry && !(n.stage is Remove || n.stage is AuditRollbackFailed || n.stage is
        AuditRolledBack) {
        lemma_entry_taken(m.frames, false);
        lemma_entry_taken(m.frames, true);
        let (f, d) = (names_left(n.frames, false), names_left(n.frames, true));
        let entry = m.top().entries[m.top().next as int];
        assert(files_taken(steps).add(f.insert(entry.name)) =~= files_taken(steps).insert(
            entry.name,
        ).add(f));
        assert(directories_taken(steps).add(d.insert(entry.name)) =~= directories_taken(
            steps,
        ).insert(entry.name).add(d));
    }
    if m.stage is PollBeforeReceipt && n.stage is PollAfterReceipt {
        assert(files_taken(s).add(Multiset::<Seq<u16>>::empty()) =~= files_taken(s));
        assert(directories_taken(s).add(Multiset::<Seq<u16>>::empty()) =~= directories_taken(s));
        assert(roots_taken(e, s, m.roots, m.root as int));
    }
}

proof fn lemma_listed(
    plan: MigrationPlan,
    events: Seq<RunEvent>,
    steps: Seq<RunStep>,
    m: RunModel,
    event: RunEvent,
    n: RunModel,
    step: RunStep,
)
    requires
        holds(plan, events, steps, m),
        takes(m, event),
        run_follows(plan, m, event, n, step),
        event is Ensured || event is Listed || event is Left,
    ensures
        holds(plan, events.push(event), steps.push(step), n),
{
    let e = events.push(event);
    let s = steps.push(step);
    lemma_one_more(events, steps, event, step);
    if event is Listed && event->Listed_0 is Ok {
        let entries = entry_models(event->Listed_0->Ok_0@);
        let frame = FrameModel { relative: m.path, entries: entries, next: 0 };
        lemma_frame_entered(m.frames, frame, false);
        lemma_frame_entered(m.frames, frame, true);
        lemma_goes_on(e, s, RunModel { frames: m.frames.push(frame), ..m }, n, step);
        assert(files_taken(steps).add(names_left(m.frames, false)).add(
            names_from(entries, 0, false),
        ) =~= files_taken(steps).add(
            names_left(m.frames, false).add(names_from(entries, 0, false)),
        ));
        assert(directories_taken(steps).add(names_left(m.frames, true)).add(
            names_from(entries, 0, true),
        ) =~= directories_taken(steps).add(
            names_left(m.frames, true).add(names_from(entries, 0, true)),
        ));
    }
    if event is Left && m.frames.len() > 0 {
        lemma_goes_on(e, s, m, n, step);
    }
}

proof fn lemma_copied(
    plan: MigrationPlan,
    events: Seq<RunEvent>,
    steps: Seq<RunStep>,
    m: RunModel,
    event: RunEvent,
    n: RunModel,
    step: RunStep,
)
    requires
        holds(plan, events, steps, m),
        takes(m, event),
        run_follows(plan, m, event, n, step),
        event is File,
    ensures
        holds(plan, events.push(event), steps.push(step), n),
{
    let e = events.push(event);
    let s = steps.push(step);
    lemma_one_more(events, steps, event, step);
    let file_event = event->File_0;
    let (f, tx, c) = choose|f: FileCopyModel, tx: TransactionModel, c: FileCopyStep| #[trigger]
        file_copy_follows(m.file->0, m.tx, file_event, f, tx, c) && (match c.action {
            FileCopyAction::Fail(x) => turns_back(RunModel { tx: tx, ..m }, n, step, x),
            FileCopyAction::Done => quiet(step) && goes_on(
                RunModel { tx: tx, file: None, ..m },
                n,
                step,
            ),
            _ => n == (RunModel { file: Some(f), tx: tx, ..m }) && step.progress == c.progress
                && step.action == RunAction::File(c.action),
        });
    if c.action is Done {
        lemma_goes_on(e, s, RunModel { tx: tx, file: None, ..m }, n, step);
    }
}

proof fn lemma_removed(
    plan: MigrationPlan,
    events: Seq<RunEvent>,
    steps: Seq<RunStep>,
    m: RunModel,
    event: RunEvent,
    n: RunModel,
    step: RunStep,
)
    requires
        holds(plan, events, steps, m),
        takes(m, event),
        run_follows(plan, m, event, n, step),
        event is Removed,
    ensures
        holds(plan, events.push(event), steps.push(step), n),
{
    let e = events.push(event);
    let s = steps.push(step);
    lemma_one_more(events, steps, event, step);
}

proof fn lemma_one_root_more(
    events: Seq<RunEvent>,
    steps: Seq<RunStep>,
    roots: Seq<Seq<char>>,
    k: int,
)
    requires
        roots_taken(events, steps, roots, k),
        0 <= k < roots.len(),
        root_taken(events, steps, roots[k]),
    ensures
        roots_taken(events, steps, roots, k + 1),
{
}

proof fn lemma_step_holds(
    plan: MigrationPlan,
    events: Seq<RunEvent>,
    steps: Seq<RunStep>,
    m: RunModel,
    event: RunEvent,
    n: RunModel,
    step: RunStep,
)
    requires
        holds(plan, events, steps, m),
        takes(m, event),
        run_follows(plan, m, event, n, step),
    ensures
        holds(plan, events.push(event), steps.push(step), n),
{
    match event {
        RunEvent::Opened(_) => {
            lemma_opened(plan, events, steps, m, event, n, step);
        },
        RunEvent::Polled(_) => {
            lemma_polled(plan, events, steps, m, event, n, step);
        },
        RunEvent::Ensured(_) | RunEvent::Listed(_) | RunEvent::Left => {
            lemma_listed(plan, events, steps, m, event, n, step);
        },
        RunEvent::File(_) => {
            lemma_copied(plan, events, steps, m, event, n, step);
        },
        RunEvent::Removed(_) => {
            lemma_removed(plan, events, steps, m, event, n, step);
        },
        _ => {
            lemma_prepared(plan, events, steps, m, event, n, step);
        },
    }
}

proof fn lemma_run_holds(
    plan: MigrationPlan,
    events: Seq<RunEvent>,
    steps: Seq<RunStep>,
    m: RunModel,
)
    requires
        run_reaches(plan, events, steps, m),
    ensures
        holds(plan, events, steps, m),
        steps.len() > 0 && steps.last().action is Finish ==> m.stage is Finished,
    decreases events.len(),
{
    if events.len() == 0 {
        let none = Multiset::<Seq<u16>>::empty();
        assert(none.add(none) =~= none);
        assert(m.frames =~= Seq::empty());
    } else {
        let before = choose|before: RunModel| #[trigger]
            run_follows(plan, before, events.last(), m, steps.last()) && takes(
                before,
                events.last(),
            ) && run_reaches(plan, events.drop_last(), steps.drop_last(), before);
        lemma_run_holds(plan, events.drop_last(), steps.drop_last(), before);
        lemma_step_holds(
            plan,
            events.drop_last(),
            steps.drop_last(),
            before,
            events.last(),
            m,
            steps.last(),
        );
        assert(events.drop_last().push(events.last()) =~= events);
        assert(steps.drop_last().push(steps.last()) =~= steps);
        if steps.last().action is Finish {
            match events.last() {
                RunEvent::File(file_event) => {
                    assert(exists|f: FileCopyModel, tx: TransactionModel, c: FileCopyStep| #[trigger]
                        file_copy_follows(before.file->0, before.tx, file_event, f, tx, c));
                },
                _ => {},
            }
        }
    }
}

/// A text without the separator is one piece.
proof fn lemma_one_piece(text: Seq<char>)
    requires
        forall|k: int| 0 <= k < text.len() ==> #[trigger] text[k] != '\\',
    ensures
        split(text, '\\') == seq![text],
    decreases text.len(),
{
    if text.len() > 0 {
        let front = text.drop_last();
        assert forall|k: int| 0 <= k < front.len() implies #[trigger] front[k] != '\\' by {
            assert(front[k] == text[k]);
        }
        lemma_one_piece(front);
        assert(front.push(text.last()) =~= text);
        assert(split(text, '\\') =~= seq![text]);
    } else {
        assert(text =~= Seq::empty());
    }
}

/// Two texts around a separator are two pieces.
proof fn lemma_two_pieces(outer: Seq<char>, inner: Seq<char>)
    requires
        forall|k: int| 0 <= k < outer.len() ==> #[trigger] outer[k] != '\\',
        forall|k: int| 0 <= k < inner.len() ==> #[trigger] inner[k] != '\\',
    ensures
        split(outer + seq!['\\'] + inner, '\\') == seq![outer, inner],
    decreases inner.len(),
{
    let text = outer + seq!['\\'] + inner;
    if inner.len() > 0 {
        let front = inner.drop_last();
        assert forall|k: int| 0 <= k < front.len() implies #[trigger] front[k] != '\\' by {
            assert(front[k] == inner[k]);
        }
        lemma_two_pieces(outer, front);
        assert(text.drop_last() =~= outer + seq!['\\'] + front);
        assert(text.last() == inner.last());
        assert(front.push(inner.last()) =~= inner);
        assert(split(text, '\\') =~= seq![outer, inner]);
    } else {
        lemma_one_piece(outer);
        assert(text.drop_last() =~= outer);
        assert(inner =~= Seq::empty());
        assert(split(text, '\\') =~= seq![outer, inner]);
    }
}

proof fn lemma_folder_taken(
    events: Seq<RunEvent>,
    steps: Seq<RunStep>,
    roots: Seq<Seq<char>>,
    name: Seq<char>,
)
    requires
        roots_taken(events, steps, roots, roots.len() as int),
        roots.contains(name),
        forall|k: int| 0 <= k < name.len() ==> #[trigger] name[k] != '\\',
    ensures
        takes_folder(events, steps, name),
{
    let k = choose|k: int| 0 <= k < roots.len() && roots[k] == name;
    assert(root_taken(events, steps, roots[k]));
    lemma_one_piece(name);
    let (i, last) = choose|i: int, last: int| #[trigger]
        root_taken_at(events, steps, name, i, last);
    let parts = root_components(name);
    assert(opens_source(steps, i + 0, parts[0], true));
}

/// Every folder that a plan selects is asked for before a receipt is given: of the personal
/// folders each of the five, and with the roaming data the directory that holds it. A
/// folder that is there is copied; only one that is not there is passed over.
pub proof fn a_receipt_covers_every_selected_folder(
    plan: MigrationPlan,
    events: Seq<RunEvent>,
    steps: Seq<RunStep>,
    m: RunModel,
)
    requires
        run_reaches(plan, events, steps, m),
        steps.len() > 0,
        steps.last().action matches RunAction::Finish(Ok(_)),
    ensures
        plan.include_personal_folders ==> {
            &&& takes_folder(events, steps, "Documents"@)
            &&& takes_folder(events, steps, "Desktop"@)
            &&& takes_folder(events, steps, "Downloads"@)
            &&& takes_folder(events, steps, "Favorites"@)
            &&& takes_folder(events, steps, "Pictures"@)
        },
        plan.include_roaming_appdata ==> takes_inner_folder(events, steps, "AppData"@, "Roaming"@),
{
    lemma_run_holds(plan, events, steps, m);
    let roots = selected_roots(plan);
    reveal_strlit("Documents");
    reveal_strlit("Desktop");
    reveal_strlit("Downloads");
    reveal_strlit("Favorites");
    reveal_strlit("Pictures");
    reveal_strlit("AppData");
    reveal_strlit("Roaming");
    reveal_strlit("AppData\\Roaming");
    assert("Documents"@ =~= seq!['D', 'o', 'c', 'u', 'm', 'e', 'n', 't', 's']);
    assert("Desktop"@ =~= seq!['D', 'e', 's', 'k', 't', 'o', 'p']);
    assert("Downloads"@ =~= seq!['D', 'o', 'w', 'n', 'l', 'o', 'a', 'd', 's']);
    assert("Favorites"@ =~= seq!['F', 'a', 'v', 'o', 'r', 'i', 't', 'e', 's']);
    assert("Pictures"@ =~= seq!['P', 'i', 'c', 't', 'u', 'r', 'e', 's']);
    assert("AppData"@ =~= seq!['A', 'p', 'p', 'D', 'a', 't', 'a']);
    assert("Roaming"@ =~= seq!['R', 'o', 'a', 'm', 'i', 'n', 'g']);
    if plan.include_personal_folders {
        let from: int = if plan.include_roaming_appdata {
            1
        } else {
            0
        };
        assert(roots[from + 0] == "Documents"@);
        assert(roots[from + 1] == "Desktop"@);
        assert(roots[from + 2] == "Downloads"@);
        assert(roots[from + 3] == "Favorites"@);
        assert(roots[from + 4] == "Pictures"@);
        lemma_folder_taken(events, steps, roots, "Documents"@);
        lemma_folder_taken(events, steps, roots, "Desktop"@);
        lemma_folder_taken(events, steps, roots, "Downloads"@);
        lemma_folder_taken(events, steps, roots, "Favorites"@);
        lemma_folder_taken(events, steps, roots, "Pictures"@);
    }
    if plan.include_roaming_appdata {
        let root = "AppData\\Roaming"@;
        assert(roots[0] == root);
        assert(root =~= "AppData"@ + seq!['\\'] + "Roaming"@);
        lemma_two_pieces("AppData"@, "Roaming"@);
        assert(root_taken(events, steps, roots[0]));
        let (i, last) = choose|i: int, last: int| #[trigger]
            root_taken_at(events, steps, root, i, last);
        let parts = root_components(root);
        assert(opens_source(steps, i + 0, parts[0], true));
        if last == 1 {
            assert(opens_source(steps, i + 1, parts[1], false));
            assert(was_opened(events, next_answer(i, 0)));
        }
    }
}

/// Nothing that is listed below a selected folder is left out of a receipt: the files that
/// were copied are those that were listed, name for name, and the receipt counts them; the
/// directories that were entered are those that were listed, and each of them, and each
/// folder, was listed itself.
pub proof fn a_receipt_counts_every_file(
    plan: MigrationPlan,
    events: Seq<RunEvent>,
    steps: Seq<RunStep>,
    m: RunModel,
)
    requires
        run_reaches(plan, events, steps, m),
        steps.len() > 0,
    ensures
        steps.last().action matches RunAction::Finish(Ok(receipt)) ==> {
            &&& files_taken(steps) == names_listed(events, false)
            &&& directories_taken(steps) == names_listed(events, true)
            &&& receipt.copied_files == names_listed(events, false).len()
            &&& listings(events) == folders_started(steps) + names_listed(events, true).len()
        },
{
    lemma_run_holds(plan, events, steps, m);
}

/// Whether the source was found offline and the target free.
pub open spec fn found_clear_at(events: Seq<RunEvent>, i: int) -> bool {
    &&& 0 <= i < events.len()
    &&& events[i] matches RunEvent::Observed(o) && {
        &&& o.hive == Result::<(), RegistryError>::Err(RegistryError::Win32Error(2))
        &&& o.source_root is Ok
        &&& o.target_parent is Ok
        &&& !o.parent_within_source
        &&& o.target_entry is Ok && o.target_entry->Ok_0 is None
    }
}

/// Whether an entry was written to the journal, of a step and the event that answers it.
pub open spec fn was_journaled(
    events: Seq<RunEvent>,
    steps: Seq<RunStep>,
    operation: Seq<char>,
    status: AuditStatus,
    i: int,
) -> bool {
    &&& 0 <= i < steps.len()
    &&& i + 1 < events.len()
    &&& steps[i].action matches RunAction::Audit { operation: o, status: s, details } && o@
        == operation && s == status
    &&& events[i + 1] matches RunEvent::Audited(Ok(_))
}

pub open spec fn found_clear(events: Seq<RunEvent>) -> bool {
    exists|i: int| #[trigger] found_clear_at(events, i)
}

pub open spec fn journaled(
    events: Seq<RunEvent>,
    steps: Seq<RunStep>,
    operation: Seq<char>,
    status: AuditStatus,
) -> bool {
    exists|i: int| #[trigger] was_journaled(events, steps, operation, status, i)
}

proof fn lemma_start(
    plan: MigrationPlan,
    events: Seq<RunEvent>,
    steps: Seq<RunStep>,
    m: RunModel,
)
    requires
        run_reaches(plan, events, steps, m),
    ensures
        events.len() == steps.len(),
        !(m.stage is Guard || m.stage is Observe || m.stage is Finished) ==> found_clear(events),
        !(m.stage is Guard || m.stage is Observe || m.stage is AuditStart || m.stage is Finished)
            ==> journaled(events, steps, "MigrationStarted"@, AuditStatus::Warning),
        m.stage is AuditStart ==> steps.len() > 0 && (steps.last().action matches
            RunAction::Audit { operation, status, details } && operation@ == "MigrationStarted"@
            && status is Warning),
        m.stage is AuditSuccess ==> steps.len() > 0 && (steps.last().action matches
            RunAction::Audit { operation, status, details } && operation@ == "MigrationSuccess"@
            && status is Success),
        m.stage is Finished ==> steps.len() > 0 && (steps.last().action matches RunAction::Finish(r)
            && (r is Ok ==> found_clear(events) && journaled(
            events,
            steps,
            "MigrationStarted"@,
            AuditStatus::Warning,
        ) && journaled(events, steps, "MigrationSuccess"@, AuditStatus::Success))),
        steps.len() > 0 && steps.last().action is CreateTarget ==> m.stage is CreateTarget,
    decreases events.len(),
{
    if events.len() > 0 {
        let before = choose|before: RunModel| #[trigger]
            run_follows(plan, before, events.last(), m, steps.last()) && takes(
                before,
                events.last(),
            ) && run_reaches(plan, events.drop_last(), steps.drop_last(), before);
        let (e, s) = (events.drop_last(), steps.drop_last());
        lemma_start(plan, e, s, before);
        if found_clear(e) {
            let i = choose|i: int| #[trigger] found_clear_at(e, i);
            assert(found_clear_at(events, i));
        }
        if journaled(e, s, "MigrationStarted"@, AuditStatus::Warning) {
            let i = choose|i: int| #[trigger]
                was_journaled(e, s, "MigrationStarted"@, AuditStatus::Warning, i);
            assert(was_journaled(events, steps, "MigrationStarted"@, AuditStatus::Warning, i));
        }
        let at = events.len() - 2;
        if before.stage is AuditStart && m.stage is CreateTarget {
            assert(was_journaled(events, steps, "MigrationStarted"@, AuditStatus::Warning, at));
        }
        if before.stage is AuditSuccess && m.stage is Finished {
            assert(was_journaled(events, steps, "MigrationSuccess"@, AuditStatus::Success, at));
        }
        if before.stage is Observe && m.stage is AuditStart {
            assert(found_clear_at(events, events.len() - 1));
        }
        match events.last() {
            RunEvent::File(file_event) => {
                assert(exists|f: FileCopyModel, tx: TransactionModel, c: FileCopyStep| #[trigger]
                    file_copy_follows(before.file->0, before.tx, file_event, f, tx, c));
            },
            _ => {},
        }
    }
}

/// Nothing is created for a source in use or at a place that is taken: before the target is
/// to be created, the look for the source's hive found none, nothing stood at the target's
/// place, and the start is in the journal. A migration that ends well has its success there
/// too.
pub proof fn a_migration_starts_on_clear_ground(
    plan: MigrationPlan,
    events: Seq<RunEvent>,
    steps: Seq<RunStep>,
    m: RunModel,
)
    requires
        run_reaches(plan, events, steps, m),
        steps.len() > 0,
    ensures
        steps.last().action is CreateTarget ==> found_clear(events) && journaled(
            events,
            steps,
            "MigrationStarted"@,
            AuditStatus::Warning,
        ),
        steps.last().action matches RunAction::Finish(Ok(_)) ==> found_clear(events) && journaled(
            events,
            steps,
            "MigrationStarted"@,
            AuditStatus::Warning,
        ) && journaled(events, steps, "MigrationSuccess"@, AuditStatus::Success),
{
    lemma_start(plan, events, steps, m);
    lemma_run_holds(plan, events, steps, m);
}

} // verus!
