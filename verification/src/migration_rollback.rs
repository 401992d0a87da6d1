//! What a migration takes back, told from a whole run.
use crate::copying::{
    file_copy_follows, FileCopyAction, FileCopyEvent, FileCopyModel, FileCopyStep, TransactionModel,
};
use crate::migration_progress::{run_reaches, takes};
use crate::migration_run::{
    goes_on, quiet, run_follows, turns_back, RunAction, RunEvent, RunModel, RunStage, RunStep,
};
use crate::models::MigrationPlan;
use vstd::prelude::*;

verus! {

/// Whether an event says that something was created, of the action that it answers.
pub open spec fn is_creation(asked: RunAction, event: RunEvent) -> bool {
    match event {
        RunEvent::Opened(Ok(_)) => asked is CreateTarget,
        RunEvent::Ensured(Ok(created)) => created,
        RunEvent::File(FileCopyEvent::Opened(Ok(_))) => asked matches RunAction::File(
            FileCopyAction::CreateOutput { name },
        ),
        _ => false,
    }
}

/// How many files and directories were created.
pub open spec fn creations(events: Seq<RunEvent>, steps: Seq<RunStep>) -> nat
    decreases events.len(),
{
    if events.len() < 2 || steps.len() < 2 {
        0
    } else {
        creations(events.drop_last(), steps.drop_last()) + (if is_creation(
            steps[steps.len() - 2].action,
            events.last(),
        ) {
            1nat
        } else {
            0nat
        })
    }
}

/// How many of them were asked to be removed.
pub open spec fn removals(steps: Seq<RunStep>) -> nat
    decreases steps.len(),
{
    if steps.len() == 0 {
        0
    } else {
        removals(steps.drop_last()) + (if steps.last().action is Remove {
            1nat
        } else {
            0nat
        })
    }
}

spec fn is_turned(stage: RunStage) -> bool {
    stage is Remove || stage is AuditRollbackFailed || stage is AuditRolledBack
}

spec fn holds(events: Seq<RunEvent>, steps: Seq<RunStep>, m: RunModel) -> bool {
    let stage = m.stage;
    &&& events.len() == steps.len()
    &&& creations(events, steps) == m.tx.created.len() + removals(steps)
    &&& !is_turned(stage) && !(stage is Finished) ==> removals(steps) == 0
    &&& stage is AuditRollbackFailed || stage is AuditRolledBack ==> m.tx.created.len() == 0
    &&& stage is Guard || stage is Observe || stage is AuditStart || stage is CreateTarget
        ==> m.tx.created.len() == 0
    &&& stage is Guard <==> events.len() == 0
    &&& stage is CreateTarget <==> steps.len() > 0 && steps.last().action is CreateTarget
    &&& stage is CopyFile ==> steps.len() > 0 && m.file is Some && (m.file->0.stage is CreateOutput
        <==> (steps.last().action matches RunAction::File(FileCopyAction::CreateOutput { name })))
    &&& stage is Finished ==> steps.len() > 0 && (steps.last().action matches RunAction::Finish(r)
        && match r {
        Ok(_) => removals(steps) == 0,
        Err(_) => m.tx.created.len() == 0,
    })
}

proof fn lemma_one_more(
    events: Seq<RunEvent>,
    steps: Seq<RunStep>,
    event: RunEvent,
    step: RunStep,
)
    requires
        events.len() == steps.len(),
    ensures
        removals(steps.push(step)) == removals(steps) + (if step.action is Remove {
            1nat
        } else {
            0nat
        }),
        creations(events.push(event), steps.push(step)) == creations(events, steps) + (if events.len()
            > 0 && is_creation(steps.last().action, event) {
            1nat
        } else {
            0nat
        }),
        steps.push(step).last() == step,
{
    assert(events.push(event).drop_last() =~= events);
    assert(steps.push(step).drop_last() =~= steps);
}

proof fn lemma_step_holds(
    plan: MigrationPlan,
    events: Seq<RunEvent>,
    steps: Seq<RunStep>,
    m: RunModel,
    event: RunEvent,
    n: RunModel,
    step: RunStep,
)
    requires
        holds(events, steps, m),
        takes(m, event),
        run_follows(plan, m, event, n, step),
    ensures
        holds(events.push(event), steps.push(step), n),
{
    lemma_one_more(events, steps, event, step);
    match event {
        RunEvent::File(file_event) => {
            let (f, tx, c) = choose|f: FileCopyModel, tx: TransactionModel, c: FileCopyStep|
                #[trigger] file_copy_follows(m.file->0, m.tx, file_event, f, tx, c) && (
                match c.action {
                    FileCopyAction::Fail(x) => turns_back(RunModel { tx: tx, ..m }, n, step, x),
                    FileCopyAction::Done => quiet(step) && goes_on(
                        RunModel { tx: tx, file: None, ..m },
                        n,
                        step,
                    ),
                    _ => n == (RunModel { file: Some(f), tx: tx, ..m }) && step.progress
                        == c.progress && step.action == RunAction::File(c.action),
                });
            assert(tx.created.len() == m.tx.created.len() + (if is_creation(
                steps.last().action,
                event,
            ) {
                1nat
            } else {
                0nat
            }));
        },
        _ => {},
    }
}

proof fn lemma_run_holds(
    plan: MigrationPlan,
    events: Seq<RunEvent>,
    steps: Seq<RunStep>,
    m: RunModel,
)
    requires
        run_reaches(plan, events, steps, m),
    ensures
        holds(events, steps, m),
        steps.len() > 0 && steps.last().action is Finish ==> m.stage is Finished,
    decreases events.len(),
{
    if events.len() > 0 {
        let before = choose|before: RunModel| #[trigger]
            run_follows(plan, before, events.last(), m, steps.last()) && takes(
                before,
                events.last(),
            ) && run_reaches(plan, events.drop_last(), steps.drop_last(), before);
        let (e, s) = (events.drop_last(), steps.drop_last());
        lemma_run_holds(plan, e, s, before);
        lemma_step_holds(plan, e, s, before, events.last(), m, steps.last());
        assert(e.push(events.last()) =~= events);
        assert(s.push(steps.last()) =~= steps);
        if steps.last().action is Finish {
            match events.last() {
                RunEvent::File(file_event) => {
                    assert(exists|f: FileCopyModel, tx: TransactionModel, c: FileCopyStep| #[trigger]
                        file_copy_follows(before.file->0, before.tx, file_event, f, tx, c));
                },
                _ => {},
            }
        }
    }
}

/// A migration that fails takes back all that it created, and nothing else: it asks for as
/// many removals as it created files and directories, and what it removes it created. One
/// that ends well removes nothing.
pub proof fn a_failed_migration_removes_what_it_created(
    plan: MigrationPlan,
    events: Seq<RunEvent>,
    steps: Seq<RunStep>,
    m: RunModel,
)
    requires
        run_reaches(plan, events, steps, m),
        steps.len() > 0,
    ensures
        steps.last().action matches RunAction::Finish(Err(_)) ==> removals(steps) == creations(
            events,
            steps,
        ),
        steps.last().action matches RunAction::Finish(Ok(_)) ==> removals(steps) == 0,
        removals(steps) <= creations(events, steps),
{
    lemma_run_holds(plan, events, steps, m);
}

} // verus!
