//! What the copy of a file proves, told from the whole copy.
use crate::copying::{
    file_copy_follows, shown_path, FileCopyAction, FileCopyEvent, FileCopyModel, FileCopyStage,
    FileCopyStep, ManifestModel, TransactionModel,
};
use crate::hashing::sha256_text;
use crate::scanner::saturated;
use vstd::prelude::*;

verus! {

/// The copy of a file whose input is to be opened first.
pub open spec fn copy_of(path: Seq<char>, name: Seq<u16>) -> FileCopyModel {
    FileCopyModel {
        path: path,
        name: name,
        stage: FileCopyStage::OpenInput,
        source: Seq::empty(),
        copy: Seq::empty(),
        pending: Seq::empty(),
        copied_bytes: 0,
        completed_bytes: 0,
        source_sha: Seq::empty(),
    }
}

/// Whether the copy of a file, told of these events one after the other, answers with
/// these steps, and it and the transaction are then in given states.
pub open spec fn copy_reaches(
    path: Seq<char>,
    name: Seq<u16>,
    start: TransactionModel,
    events: Seq<FileCopyEvent>,
    steps: Seq<FileCopyStep>,
    m: FileCopyModel,
    tx: TransactionModel,
) -> bool
    decreases events.len(),
{
    if events.len() == 0 {
        steps.len() == 0 && m == copy_of(path, name) && tx == start
    } else {
        &&& steps.len() == events.len()
        &&& exists|before: FileCopyModel, ty: TransactionModel| #[trigger]
            file_copy_follows(before, ty, events.last(), m, tx, steps.last())
                && before.stage.expects(events.last()) && copy_reaches(
                path,
                name,
                start,
                events.drop_last(),
                steps.drop_last(),
                before,
                ty,
            )
    }
}

/// What the last event answers.
pub open spec fn asked(steps: Seq<FileCopyStep>) -> FileCopyAction {
    steps[steps.len() - 2].action
}

/// The bytes that were read of the source, or back of the copy.
pub open spec fn bytes_read(
    events: Seq<FileCopyEvent>,
    steps: Seq<FileCopyStep>,
    back: bool,
) -> Seq<u8>
    decreases events.len(),
{
    if events.len() == 0 || steps.len() == 0 {
        Seq::empty()
    } else {
        let before = bytes_read(events.drop_last(), steps.drop_last(), back);
        match events.last() {
            FileCopyEvent::Chunk(Ok(bytes)) => if steps.len() >= 2 && (if back {
                asked(steps) is ReadOutput
            } else {
                asked(steps) is ReadInput
            }) {
                before + bytes@
            } else {
                before
            },
            _ => before,
        }
    }
}

/// The bytes that were written to the copy.
pub open spec fn bytes_written(steps: Seq<FileCopyStep>) -> Seq<u8>
    decreases steps.len(),
{
    if steps.len() == 0 {
        Seq::empty()
    } else {
        let before = bytes_written(steps.drop_last());
        match steps.last().action {
            FileCopyAction::WriteOutput { bytes } => before + bytes@,
            _ => before,
        }
    }
}

/// Whether the copy was flushed to the disk.
pub open spec fn was_flushed(events: Seq<FileCopyEvent>, steps: Seq<FileCopyStep>) -> bool {
    exists|i: int| #[trigger] flushes_at(events, steps, i)
}

pub open spec fn flushes_at(events: Seq<FileCopyEvent>, steps: Seq<FileCopyStep>, i: int) -> bool {
    &&& 0 <= i
    &&& i + 1 < events.len()
    &&& i < steps.len()
    &&& steps[i].action is FlushOutput
    &&& events[i + 1] matches FileCopyEvent::Written(Ok(_))
}

spec fn is_late(stage: FileCopyStage) -> bool {
    stage is Rewind || stage is PollBeforeReadBack || stage is ReadBack || stage is Length
}

spec fn holds(
    path: Seq<char>,
    start: TransactionModel,
    events: Seq<FileCopyEvent>,
    steps: Seq<FileCopyStep>,
    m: FileCopyModel,
    tx: TransactionModel,
) -> bool {
    let stage = m.stage;
    let read = bytes_read(events, steps, false);
    let back = bytes_read(events, steps, true);
    &&& events.len() == steps.len()
    &&& !(stage is Finished) ==> {
        &&& m.path == path
        &&& tx.manifest == start.manifest
        &&& tx.created == (if stage is OpenInput || stage is CreateOutput {
            start.created
        } else {
            start.created.push(path)
        })
        &&& read == (if stage is Write {
            m.source + m.pending
        } else {
            m.source
        })
        &&& bytes_written(steps) == read
        &&& back == m.copy
        &&& m.copied_bytes == saturated(m.source.len())
        &&& is_late(stage) ==> m.source_sha == sha256_text(m.source) && was_flushed(events, steps)
        &&& !is_late(stage) ==> m.copy.len() == 0
        &&& stage is Read <==> steps.len() > 0 && steps.last().action is ReadInput
        &&& stage is ReadBack <==> steps.len() > 0 && steps.last().action is ReadOutput
        &&& stage is Flush <==> steps.len() > 0 && steps.last().action is FlushOutput
        &&& stage is OpenInput ==> steps.len() == 0
        &&& !(stage is OpenInput) ==> steps.len() > 0
    }
    &&& steps.len() > 0 && steps.last().action is Done ==> {
        &&& bytes_written(steps) == read
        &&& sha256_text(back) == sha256_text(read)
        &&& was_flushed(events, steps)
        &&& events.last() matches FileCopyEvent::Length(Ok(length)) && length == saturated(
            read.len(),
        )
        &&& tx.manifest == start.manifest.push(
            ManifestModel {
                path: shown_path(path),
                size: saturated(read.len()),
                sha256: sha256_text(read),
            },
        )
        &&& tx.created == start.created.push(path)
    }
    &&& steps.len() > 0 && steps.last().action is Fail ==> tx.manifest == start.manifest
}

proof fn lemma_one_more(
    events: Seq<FileCopyEvent>,
    steps: Seq<FileCopyStep>,
    event: FileCopyEvent,
    step: FileCopyStep,
)
    requires
        events.len() == steps.len(),
    ensures
        ({
            let e = events.push(event);
            let s = steps.push(step);
            &&& forall|back: bool| #[trigger]
                bytes_read(e, s, back) == (match event {
                    FileCopyEvent::Chunk(Ok(bytes)) => if steps.len() > 0 && (if back {
                        steps.last().action is ReadOutput
                    } else {
                        steps.last().action is ReadInput
                    }) {
                        bytes_read(events, steps, back) + bytes@
                    } else {
                        bytes_read(events, steps, back)
                    },
                    _ => bytes_read(events, steps, back),
                })
            &&& bytes_written(s) == (match step.action {
                FileCopyAction::WriteOutput { bytes } => bytes_written(steps) + bytes@,
                _ => bytes_written(steps),
            })
            &&& was_flushed(events, steps) ==> was_flushed(e, s)
            &&& steps.len() > 0 && steps.last().action is FlushOutput && (event matches
                FileCopyEvent::Written(Ok(_))) ==> was_flushed(e, s)
            &&& e.last() == event
            &&& s.last() == step
        }),
{
    let e = events.push(event);
    let s = steps.push(step);
    assert(e.drop_last() =~= events);
    assert(s.drop_last() =~= steps);
    if was_flushed(events, steps) {
        let i = choose|i: int| #[trigger] flushes_at(events, steps, i);
        assert(flushes_at(e, s, i));
    }
    if steps.len() > 0 && steps.last().action is FlushOutput && (event matches
        FileCopyEvent::Written(Ok(_))) {
        assert(flushes_at(e, s, steps.len() - 1));
    }
}

proof fn lemma_step_holds(
    path: Seq<char>,
    start: TransactionModel,
    events: Seq<FileCopyEvent>,
    steps: Seq<FileCopyStep>,
    m: FileCopyModel,
    tx: TransactionModel,
    event: FileCopyEvent,
    n: FileCopyModel,
    ty: TransactionModel,
    step: FileCopyStep,
)
    requires
        holds(path, start, events, steps, m, tx),
        m.stage.expects(event),
        file_copy_follows(m, tx, event, n, ty, step),
    ensures
        holds(path, start, events.push(event), steps.push(step), n, ty),
{
    lemma_one_more(events, steps, event, step);
}

proof fn lemma_copy_holds(
    path: Seq<char>,
    name: Seq<u16>,
    start: TransactionModel,
    events: Seq<FileCopyEvent>,
    steps: Seq<FileCopyStep>,
    m: FileCopyModel,
    tx: TransactionModel,
)
    requires
        copy_reaches(path, name, start, events, steps, m, tx),
    ensures
        holds(path, start, events, steps, m, tx),
    decreases events.len(),
{
    if events.len() > 0 {
        let (before, ty) = choose|before: FileCopyModel, ty: TransactionModel| #[trigger]
            file_copy_follows(before, ty, events.last(), m, tx, steps.last())
                && before.stage.expects(events.last()) && copy_reaches(
                path,
                name,
                start,
                events.drop_last(),
                steps.drop_last(),
                before,
                ty,
            );
        let (e, s) = (events.drop_last(), steps.drop_last());
        lemma_copy_holds(path, name, start, e, s, before, ty);
        lemma_step_holds(path, start, e, s, before, ty, events.last(), m, tx, steps.last());
        assert(e.push(events.last()) =~= events);
        assert(s.push(steps.last()) =~= steps);
    }
}

/// A file counts as copied only where its copy was proved: every byte that was read of the
/// source was written, in order, and flushed; what was read back of the copy has the digest
/// of the source, and the copy its length. Then the manifest has the file, with that length
/// and that digest; a copy that fails adds nothing to it.
pub proof fn a_copied_file_is_verified(
    path: Seq<char>,
    name: Seq<u16>,
    start: TransactionModel,
    events: Seq<FileCopyEvent>,
    steps: Seq<FileCopyStep>,
    m: FileCopyModel,
    tx: TransactionModel,
)
    requires
        copy_reaches(path, name, start, events, steps, m, tx),
        steps.len() > 0,
    ensures
        steps.last().action is Done ==> {
            let source = bytes_read(events, steps, false);
            &&& bytes_written(steps) == source
            &&& was_flushed(events, steps)
            &&& sha256_text(bytes_read(events, steps, true)) == sha256_text(source)
            &&& events.last() matches FileCopyEvent::Length(Ok(length)) && length == saturated(
                source.len(),
            )
            &&& tx.manifest.len() == start.manifest.len() + 1
            &&& tx.manifest.drop_last() == start.manifest
            &&& tx.manifest.last().path == shown_path(path)
            &&& tx.manifest.last().size == saturated(source.len())
            &&& tx.manifest.last().sha256 == sha256_text(source)
            &&& tx.created == start.created.push(path)
        },
        !(steps.last().action is Done) ==> tx.manifest == start.manifest,
{
    lemma_copy_holds(path, name, start, events, steps, m, tx);
    if steps.last().action is Done {
        assert(tx.manifest.drop_last() =~= start.manifest);
    }
}

} // verus!
