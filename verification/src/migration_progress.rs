//! What the progress of a migration tells over a whole run.
use crate::copying::{
    file_copy_follows, manifest_size, FileCopyAction, FileCopyEvent, FileCopyModel, FileCopyStep,
    ManifestModel, ProgressModel, TransactionModel,
};
use crate::migration_run::{
    fresh_run, goes_on, quiet, receipt_of, run_follows, turns_back, RunAction, RunEvent, RunModel,
    RunStage, RunStep,
};
use crate::models::MigrationPlan;
use crate::scanner::saturated;
use vstd::prelude::*;

verus! {

/// Whether the run of a plan, told of these events one after the other, answers with
/// these steps and is then in a given state.
pub open spec fn run_reaches(
    plan: MigrationPlan,
    events: Seq<RunEvent>,
    steps: Seq<RunStep>,
    m: RunModel,
) -> bool
    decreases events.len(),
{
    if events.len() == 0 {
        steps.len() == 0 && m == fresh_run(plan)
    } else {
        &&& steps.len() == events.len()
        &&& exists|before: RunModel| #[trigger]
            run_follows(plan, before, events.last(), m, steps.last()) && takes(before, events.last())
                && run_reaches(plan, events.drop_last(), steps.drop_last(), before)
    }
}

/// Whether a run waits for an event.
pub open spec fn takes(m: RunModel, event: RunEvent) -> bool {
    &&& m.stage.expects(event)
    &&& event matches RunEvent::File(f) ==> (m.file matches Some(file) && file.stage.expects(f))
}

/// What steps told of the progress, in order.
pub open spec fn reports(steps: Seq<RunStep>) -> Seq<ProgressModel>
    decreases steps.len(),
{
    if steps.len() == 0 {
        Seq::empty()
    } else {
        let before = reports(steps.drop_last());
        match steps.last().progress {
            Some(progress) => before.push(progress@),
            None => before,
        }
    }
}

/// Whether neither the files nor the bytes of progress ever become fewer.
pub open spec fn never_falls(told: Seq<ProgressModel>) -> bool {
    forall|i: int, j: int|
        0 <= i <= j < told.len() ==> (#[trigger] told[i]).completed_files <= (
        #[trigger] told[j]).completed_files && told[i].copied_bytes <= told[j].copied_bytes
}

/// Whether the target was to be created: the start of the migration is in the journal.
pub open spec fn has_started(steps: Seq<RunStep>) -> bool {
    exists|i: int| 0 <= i < steps.len() && (#[trigger] steps[i]).action is CreateTarget
}

/// Whether only the last of what was told is that the migration turns back.
pub open spec fn turns_back_last(told: Seq<ProgressModel>) -> bool {
    &&& told.len() > 0
    &&& forall|i: int|
        0 <= i < told.len() ==> ((#[trigger] told[i]).phase is RollingBack <==> i == told.len() - 1)
}

pub open spec fn nothing_turned_back(told: Seq<ProgressModel>) -> bool {
    forall|i: int| 0 <= i < told.len() ==> !((#[trigger] told[i]).phase is RollingBack)
}

/// Whether progress began with the enumeration, and nothing was taken back.
pub open spec fn is_under_way(told: Seq<ProgressModel>) -> bool {
    told.len() > 0 && told[0].phase is Enumerating && nothing_turned_back(told)
}

/// Whether the last that was told are the counts of a finished copy.
pub open spec fn counts_told(told: Seq<ProgressModel>, files: nat, bytes: u64) -> bool {
    told.len() > 0 && told.last().phase is Finalizing && told.last().completed_files == files
        && told.last().copied_bytes == bytes
}

/// Whether what was observed is accounted for by the files that are done.
spec fn is_settled(tx: TransactionModel) -> bool {
    tx.observed <= saturated(manifest_size(tx.manifest))
}

/// What holds of the file in hand: what is observed grows from the files that are done by
/// what was copied of this one.
spec fn file_fits(f: FileCopyModel, tx: TransactionModel) -> bool {
    &&& f.copied_bytes == saturated(f.source.len())
    &&& if f.stage is OpenInput || f.stage is CreateOutput {
        f.source.len() == 0 && is_settled(tx)
    } else {
        f.completed_bytes == saturated(manifest_size(tx.manifest)) && tx.observed <= saturated(
            (f.completed_bytes + saturated(f.source.len())) as nat,
        )
    }
}

/// What holds of a run and of what it told, between any two steps.
spec fn told_so_far(m: RunModel, steps: Seq<RunStep>) -> bool {
    let told = reports(steps);
    &&& never_falls(told)
    &&& told.len() > 0 ==> told.last().completed_files <= m.tx.manifest.len()
        && told.last().copied_bytes <= m.tx.copied_bytes()
    &&& match m.stage {
        RunStage::Guard | RunStage::Observe | RunStage::AuditStart => {
            told.len() == 0 && !has_started(steps) && m.tx == TransactionModel::fresh()
        },
        RunStage::CreateTarget | RunStage::CompareRoots | RunStage::ProbeDpapi
        | RunStage::AuditDpapi => {
            told.len() == 0 && has_started(steps) && m.tx.manifest.len() == 0 && m.tx.observed == 0
        },
        RunStage::CopyFile => has_started(steps) && is_under_way(told) && (
        m.file matches Some(f) && file_fits(f, m.tx)),
        RunStage::Remove | RunStage::AuditRollbackFailed | RunStage::AuditRolledBack =>
            has_started(steps) && turns_back_last(told),
        RunStage::PollAfterReceipt => has_started(steps) && is_under_way(told) && is_settled(m.tx)
            && (m.receipt matches Some(r) && receipt_of(m.tx, r)),
        RunStage::PollBeforeAudit | RunStage::AuditSuccess => has_started(steps) && is_under_way(
            told,
        ) && is_settled(m.tx) && (m.receipt matches Some(r) && receipt_of(m.tx, r) && counts_told(
            told,
            r.copied_files as nat,
            r.copied_bytes,
        )),
        RunStage::Finished => steps.len() > 0 && match steps.last().action {
            RunAction::Finish(Ok(r)) => is_under_way(told) && counts_told(
                told,
                r.copied_files as nat,
                r.copied_bytes,
            ),
            RunAction::Finish(Err(_)) => if has_started(steps) {
                turns_back_last(told)
            } else {
                told.len() == 0
            },
            _ => false,
        },
        _ => has_started(steps) && is_under_way(told) && is_settled(m.tx),
    }
}

proof fn lemma_one_more_file(manifest: Seq<ManifestModel>, file: ManifestModel)
    ensures
        manifest_size(manifest.push(file)) == manifest_size(manifest) + file.size,
{
    assert(manifest.push(file).drop_last() =~= manifest);
}

/// One more step: what it told comes behind what was told before.
proof fn lemma_one_more_step(steps: Seq<RunStep>, step: RunStep)
    ensures
        reports(steps.push(step)) == (match step.progress {
            Some(progress) => reports(steps).push(progress@),
            None => reports(steps),
        }),
        has_started(steps.push(step)) == (has_started(steps) || step.action is CreateTarget),
{
    let all = steps.push(step);
    assert(all.drop_last() =~= steps);
    assert(all.last() == step);
    if has_started(steps) {
        let i = choose|i: int| 0 <= i < steps.len() && (#[trigger] steps[i]).action is CreateTarget;
        assert(all[i] == steps[i]);
    }
    if step.action is CreateTarget {
        assert(all[steps.len() as int] == step);
    }
    if has_started(all) {
        let i = choose|i: int| 0 <= i < all.len() && (#[trigger] all[i]).action is CreateTarget;
        if i < steps.len() {
            assert(steps[i] == all[i]);
        }
    }
}

/// What one event does to the file in hand and to the transaction.
proof fn lemma_file_step(
    m: FileCopyModel,
    tx: TransactionModel,
    event: FileCopyEvent,
    n: FileCopyModel,
    ty: TransactionModel,
    step: FileCopyStep,
)
    requires
        file_fits(m, tx),
        m.stage.expects(event),
        file_copy_follows(m, tx, event, n, ty, step),
    ensures
        tx.manifest.len() <= ty.manifest.len(),
        tx.copied_bytes() <= ty.copied_bytes(),
        step.progress matches Some(p) ==> p@.completed_files == ty.manifest.len() && p@.copied_bytes
            == ty.copied_bytes() && !(p@.phase is RollingBack),
        step.action is Done ==> is_settled(ty) && step.progress is None,
        step.action is Fail ==> ty == tx && step.progress is None,
        !(step.action is Done) && !(step.action is Fail) ==> file_fits(n, ty),
{
    match event {
        FileCopyEvent::Length(Ok(length)) => {
            if step.action is Done {
                lemma_one_more_file(tx.manifest, ty.manifest.last());
                assert(ty.manifest == tx.manifest.push(ty.manifest.last()));
            }
        },
        _ => {},
    }
}

#[verifier::rlimit(60)]
proof fn lemma_step_tells(
    plan: MigrationPlan,
    m: RunModel,
    steps: Seq<RunStep>,
    event: RunEvent,
    n: RunModel,
    step: RunStep,
)
    requires
        told_so_far(m, steps),
        takes(m, event),
        run_follows(plan, m, event, n, step),
    ensures
        told_so_far(n, steps.push(step)),
{
    lemma_one_more_step(steps, step);
    let told = reports(steps);
    match event {
        RunEvent::File(file_event) => {
            let (f, tx, s) = choose|f: FileCopyModel, tx: TransactionModel, s: FileCopyStep|
                #[trigger] file_copy_follows(m.file->0, m.tx, file_event, f, tx, s) && (
                match s.action {
                    FileCopyAction::Fail(e) => turns_back(RunModel { tx: tx, ..m }, n, step, e),
                    FileCopyAction::Done => quiet(step) && goes_on(
                        RunModel { tx: tx, file: None, ..m },
                        n,
                        step,
                    ),
                    _ => n == (RunModel { file: Some(f), tx: tx, ..m }) && step.progress
                        == s.progress && step.action == RunAction::File(s.action),
                });
            lemma_file_step(m.file->0, m.tx, file_event, f, tx, s);
        },
        _ => {},
    }
}

proof fn lemma_run_tells(
    plan: MigrationPlan,
    events: Seq<RunEvent>,
    steps: Seq<RunStep>,
    m: RunModel,
)
    requires
        run_reaches(plan, events, steps, m),
    ensures
        told_so_far(m, steps),
    decreases events.len(),
{
    if events.len() == 0 {
        assert(!has_started(steps));
    } else {
        let before = choose|before: RunModel| #[trigger]
            run_follows(plan, before, events.last(), m, steps.last()) && takes(before, events.last())
                && run_reaches(plan, events.drop_last(), steps.drop_last(), before);
        lemma_run_tells(plan, events.drop_last(), steps.drop_last(), before);
        lemma_step_tells(plan, before, steps.drop_last(), events.last(), m, steps.last());
        assert(steps.drop_last().push(steps.last()) =~= steps);
    }
}

/// Progress is honest over a whole run: the counts never fall; a migration that succeeds
/// begins with the enumeration and ends with the counts of its receipt; one that fails
/// behind its start tells once, and last, that it turns back; and one that is refused
/// before its start, by the lock, the plan or the journal, tells nothing.
pub proof fn progress_tells_the_whole_run(
    plan: MigrationPlan,
    events: Seq<RunEvent>,
    steps: Seq<RunStep>,
    m: RunModel,
)
    requires
        run_reaches(plan, events, steps, m),
    ensures
        never_falls(reports(steps)),
        steps.len() > 0 ==> match steps.last().action {
            RunAction::Finish(Ok(receipt)) => {
                &&& reports(steps).len() >= 2
                &&& reports(steps)[0].phase is Enumerating
                &&& counts_told(
                    reports(steps),
                    receipt.copied_files as nat,
                    receipt.copied_bytes,
                )
                &&& nothing_turned_back(reports(steps))
            },
            RunAction::Finish(Err(_)) => if has_started(steps) {
                turns_back_last(reports(steps))
            } else {
                reports(steps).len() == 0
            },
            _ => true,
        },
{
    lemma_run_tells(plan, events, steps, m);
    if steps.len() > 0 && steps.last().action is Finish {
        lemma_the_end_is_last(plan, events, steps, m);
    }
}

/// A run that was told to finish is finished.
proof fn lemma_the_end_is_last(
    plan: MigrationPlan,
    events: Seq<RunEvent>,
    steps: Seq<RunStep>,
    m: RunModel,
)
    requires
        run_reaches(plan, events, steps, m),
        steps.len() > 0,
        steps.last().action is Finish,
    ensures
        m.stage is Finished,
{
    let before = choose|before: RunModel| #[trigger]
        run_follows(plan, before, events.last(), m, steps.last()) && takes(before, events.last())
            && run_reaches(plan, events.drop_last(), steps.drop_last(), before);
    match events.last() {
        RunEvent::File(file_event) => {
            assert(exists|f: FileCopyModel, tx: TransactionModel, s: FileCopyStep|
                #[trigger] file_copy_follows(before.file->0, before.tx, file_event, f, tx, s));
        },
        _ => {},
    }
}

} // verus!
