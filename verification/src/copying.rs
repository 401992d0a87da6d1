//! The copy transaction, and the copy of one file with its verification.
use crate::hashing::{
    absorb, finish_text, hashed_bytes, new_hasher, sha256_text,
};
use crate::migration::{maps_to, map_secure_error, MigrationError};
use crate::models::opt_text;
use crate::scanner::saturated;
use crate::secure_fs::{copy_units, SecureFsError};
use crate::text::{owned, replace_char, str_eq, with_char_replaced};
use vstd::bytes::{spec_u64_to_le_bytes, u64_to_le_bytes};
use vstd::prelude::*;
use vstd::utf8::encode_utf8;

verus! {

/// How much of a file is copied between two looks at whether to cancel.
pub const COPY_BUFFER_BYTES: usize = 1_048_576;

#[derive(Debug, Clone, Copy, PartialEq, Eq, Structural)]
pub enum MigrationPhase {
    Enumerating,
    Copying,
    Verifying,
    Finalizing,
    RollingBack,
}

/// How far a migration has come.
#[derive(Debug)]
pub struct MigrationProgress {
    pub phase: MigrationPhase,
    pub relative_path: Option<String>,
    pub completed_files: usize,
    pub copied_bytes: u64,
}

#[verifier::ext_equal]
pub struct ProgressModel {
    pub phase: MigrationPhase,
    pub relative_path: Option<Seq<char>>,
    pub completed_files: nat,
    pub copied_bytes: u64,
}

impl View for MigrationProgress {
    type V = ProgressModel;

    open spec fn view(&self) -> ProgressModel {
        ProgressModel {
            phase: self.phase,
            relative_path: opt_text(self.relative_path),
            completed_files: self.completed_files as nat,
            copied_bytes: self.copied_bytes,
        }
    }
}

/// The proof of a finished migration.
#[derive(Debug, Clone)]
pub struct MigrationReceipt {
    pub copied_files: usize,
    pub copied_bytes: u64,
    pub manifest_sha256: String,
}

/// A file that was copied and verified.
#[derive(Debug)]
pub struct ManifestEntry {
    pub path: String,
    pub size: u64,
    pub sha256: String,
}

#[verifier::ext_equal]
pub struct ManifestModel {
    pub path: Seq<char>,
    pub size: u64,
    pub sha256: Seq<char>,
}

impl View for ManifestEntry {
    type V = ManifestModel;

    open spec fn view(&self) -> ManifestModel {
        ManifestModel { path: self.path@, size: self.size, sha256: self.sha256@ }
    }
}

/// What a migration has created and verified so far.
#[derive(Debug)]
pub struct CopyTransaction {
    /// The entries created, in the order of creation.
    pub created_entries: Vec<String>,
    pub manifest: Vec<ManifestEntry>,
    pub observed_copied_bytes: u64,
    pub last_relative_path: Option<String>,
}

#[verifier::ext_equal]
pub struct TransactionModel {
    pub created: Seq<Seq<char>>,
    pub manifest: Seq<ManifestModel>,
    pub observed: u64,
    pub last_path: Option<Seq<char>>,
}

impl View for CopyTransaction {
    type V = TransactionModel;

    open spec fn view(&self) -> TransactionModel {
        TransactionModel {
            created: crate::text::texts(self.created_entries@),
            manifest: manifest_models(self.manifest@),
            observed: self.observed_copied_bytes,
            last_path: opt_text(self.last_relative_path),
        }
    }
}

pub open spec fn manifest_models(v: Seq<ManifestEntry>) -> Seq<ManifestModel> {
    v.map_values(|e: ManifestEntry| e@)
}

/// The sizes of a manifest added up.
pub open spec fn manifest_size(m: Seq<ManifestModel>) -> nat
    decreases m.len(),
{
    if m.len() == 0 {
        0
    } else {
        manifest_size(m.drop_last()) + m.last().size as nat
    }
}

/// How one file is written down for the digest of a manifest.
pub open spec fn manifest_line(e: ManifestModel) -> Seq<u8> {
    encode_utf8(e.path) + seq![0u8] + spec_u64_to_le_bytes(e.size) + encode_utf8(e.sha256)
        + seq![10u8]
}

/// The bytes whose digest identifies a manifest.
pub open spec fn manifest_bytes(m: Seq<ManifestModel>) -> Seq<u8>
    decreases m.len(),
{
    if m.len() == 0 {
        Seq::empty()
    } else {
        manifest_bytes(m.drop_last()) + manifest_line(m.last())
    }
}

impl TransactionModel {
    /// The transaction that has done nothing.
    pub open spec fn fresh() -> TransactionModel {
        TransactionModel {
            created: Seq::empty(),
            manifest: Seq::empty(),
            observed: 0,
            last_path: None,
        }
    }

    /// The bytes copied so far: what was last observed, and no less than the files
    /// that are done.
    pub open spec fn copied_bytes(self) -> u64 {
        let done = saturated(manifest_size(self.manifest));
        if self.observed > done {
            self.observed
        } else {
            done
        }
    }

    pub open spec fn with_created(self, path: Seq<char>) -> TransactionModel {
        TransactionModel { created: self.created.push(path), ..self }
    }

    pub open spec fn with_observed(self, path: Seq<char>, bytes: u64) -> TransactionModel {
        TransactionModel { observed: bytes, last_path: Some(shown_path(path)), ..self }
    }

    pub open spec fn with_file(self, file: ManifestModel) -> TransactionModel {
        TransactionModel { manifest: self.manifest.push(file), ..self }
    }
}

/// A relative path with forward slashes.
pub open spec fn shown_path(path: Seq<char>) -> Seq<char> {
    with_char_replaced(path, '\\', '/')
}

pub fn display_relative_path(path: &str) -> (r: String)
    ensures
        r@ == shown_path(path@),
{
    replace_char(path, '\\', '/')
}

impl CopyTransaction {
    pub fn new() -> (r: CopyTransaction)
        ensures
            r@ == TransactionModel::fresh(),
    {
        let r = CopyTransaction {
            created_entries: Vec::new(),
            manifest: Vec::new(),
            observed_copied_bytes: 0,
            last_relative_path: None,
        };
        assert(r@ =~= TransactionModel::fresh());
        r
    }

    pub fn completed_files(&self) -> (r: usize)
        ensures
            r == self@.manifest.len(),
    {
        self.manifest.len()
    }

    fn manifest_total(&self) -> (r: u64)
        ensures
            r == saturated(manifest_size(self@.manifest)),
    {
        let ghost all = self@.manifest;
        let mut total: u64 = 0;
        let mut i: usize = 0;
        assert(all.take(0) =~= Seq::<ManifestModel>::empty());
        while i < self.manifest.len()
            invariant
                i <= self.manifest@.len(),
                all == manifest_models(self.manifest@),
                total == saturated(manifest_size(all.take(i as int))),
            decreases self.manifest.len() - i,
        {
            assert(all.take(i + 1).drop_last() =~= all.take(i as int));
            assert(all.take(i + 1).last() == self.manifest@[i as int]@);
            total = total.saturating_add(self.manifest[i].size);
            i += 1;
        }
        assert(all.take(i as int) =~= all);
        total
    }

    pub fn copied_bytes(&self) -> (r: u64)
        ensures
            r == self@.copied_bytes(),
    {
        let done = self.manifest_total();
        if self.observed_copied_bytes > done {
            self.observed_copied_bytes
        } else {
            done
        }
    }

    /// The receipt for what the manifest holds.
    pub fn receipt(&self) -> (r: MigrationReceipt)
        ensures
            r.copied_files == self@.manifest.len(),
            r.copied_bytes == saturated(manifest_size(self@.manifest)),
            r.manifest_sha256@ == sha256_text(manifest_bytes(self@.manifest)),
            r.manifest_sha256@.len() == 64,
    {
        let mut hasher = new_hasher();
        let ghost all = self@.manifest;
        let mut i: usize = 0;
        assert(all.take(0) =~= Seq::<ManifestModel>::empty());
        while i < self.manifest.len()
            invariant
                i <= self.manifest@.len(),
                all == manifest_models(self.manifest@),
                hashed_bytes(hasher) == manifest_bytes(all.take(i as int)),
            decreases self.manifest.len() - i,
        {
            let entry = &self.manifest[i];
            let ghost before = hashed_bytes(hasher);
            absorb(&mut hasher, entry.path.as_str().as_bytes());
            let zero: [u8; 1] = [0u8];
            absorb(&mut hasher, &zero);
            let size = u64_to_le_bytes(entry.size);
            absorb(&mut hasher, size.as_slice());
            absorb(&mut hasher, entry.sha256.as_str().as_bytes());
            let newline: [u8; 1] = [10u8];
            absorb(&mut hasher, &newline);
            proof {
                assert(all.take(i + 1).drop_last() =~= all.take(i as int));
                assert(all.take(i + 1).last() == self.manifest@[i as int]@);
                assert(zero@ =~= seq![0u8]);
                assert(newline@ =~= seq![10u8]);
                assert(hashed_bytes(hasher) =~= before + manifest_line(
                    self.manifest@[i as int]@,
                ));
            }
            i += 1;
        }
        assert(all.take(i as int) =~= all);
        MigrationReceipt {
            copied_files: self.manifest.len(),
            copied_bytes: self.manifest_total(),
            manifest_sha256: finish_text(hasher),
        }
    }

    pub fn observe_copy(&mut self, relative_path: &str, copied_bytes: u64)
        ensures
            final(self)@ == old(self)@.with_observed(relative_path@, copied_bytes),
    {
        self.observed_copied_bytes = copied_bytes;
        self.last_relative_path = Some(display_relative_path(relative_path));
        assert(self@ =~= old(self)@.with_observed(relative_path@, copied_bytes));
    }

    /// Records an entry that was created.
    pub fn record_created(&mut self, path: String)
        ensures
            final(self)@ == old(self)@.with_created(path@),
    {
        self.created_entries.push(path);
        assert(self@ =~= old(self)@.with_created(path@));
    }

    fn record_file(&mut self, file: ManifestEntry)
        ensures
            final(self)@ == old(self)@.with_file(file@),
    {
        self.manifest.push(file);
        assert(self@ =~= old(self)@.with_file(file@));
    }

    /// Takes out the entry that was created last, to be removed.
    pub fn take_last_created(&mut self) -> (r: Option<String>)
        ensures
            match r {
                Some(path) => old(self)@.created.len() > 0 && path@ == old(self)@.created.last()
                    && final(self)@ == (TransactionModel {
                    created: old(self)@.created.drop_last(),
                    ..old(self)@
                }),
                None => old(self)@.created.len() == 0 && final(self)@ == old(self)@,
            },
    {
        let last = self.created_entries.pop();
        proof {
            if last is Some {
                assert(self@ =~= (TransactionModel {
                    created: old(self)@.created.drop_last(),
                    ..old(self)@
                }));
            }
        }
        last
    }
}

// ---------------------------------------------------------------------------
// One file
// ---------------------------------------------------------------------------

/// What the copy of a file is waiting for.
#[derive(Debug, Clone, Copy, PartialEq, Eq, Structural)]
pub enum FileCopyStage {
    OpenInput,
    CreateOutput,
    PollBeforeRead,
    Read,
    Write,
    PollBeforeFlush,
    Flush,
    Rewind,
    PollBeforeReadBack,
    ReadBack,
    Length,
    Finished,
}

/// The outcome of what was asked for.
pub enum FileCopyEvent {
    /// The input was opened, or the output created.
    Opened(Result<(), SecureFsError>),
    /// Whether cancellation was requested.
    Polled(bool),
    /// The next bytes of the input or the output; none at the end.
    Chunk(Result<Vec<u8>, String>),
    /// The bytes were written, or the output was flushed or rewound.
    Written(Result<(), String>),
    /// The length of the output.
    Length(Result<u64, String>),
}

/// What is to be done next.
#[derive(Debug)]
pub enum FileCopyAction {
    /// Create the output under this name, in the target directory in use.
    CreateOutput { name: Vec<u16> },
    PollCancellation,
    /// Read no more than this many bytes.
    ReadInput { max: usize },
    WriteOutput { bytes: Vec<u8> },
    /// Flush the output to the disk.
    FlushOutput,
    RewindOutput,
    /// Read back no more than this many bytes.
    ReadOutput { max: usize },
    QueryLength,
    Done,
    Fail(MigrationError),
}

pub struct FileCopyStep {
    pub progress: Option<MigrationProgress>,
    pub action: FileCopyAction,
}

/// The copy of one file.
pub struct FileCopy {
    pub relative_path: String,
    /// The name of the file, in its source and in its target directory.
    pub name: Vec<u16>,
    pub stage: FileCopyStage,
    pub source_hasher: sha2::Sha256,
    pub copy_hasher: sha2::Sha256,
    pub pending: Vec<u8>,
    pub copied_bytes: u64,
    pub completed_bytes: u64,
    pub source_sha: String,
    /// The bytes of the input that were copied.
    pub source_bytes: Ghost<Seq<u8>>,
}

#[verifier::ext_equal]
pub struct FileCopyModel {
    pub path: Seq<char>,
    pub name: Seq<u16>,
    pub stage: FileCopyStage,
    /// The bytes of the input that were copied.
    pub source: Seq<u8>,
    /// The bytes of the output that were read back.
    pub copy: Seq<u8>,
    pub pending: Seq<u8>,
    pub copied_bytes: u64,
    pub completed_bytes: u64,
    pub source_sha: Seq<char>,
}

impl View for FileCopy {
    type V = FileCopyModel;

    open spec fn view(&self) -> FileCopyModel {
        FileCopyModel {
            path: self.relative_path@,
            name: self.name@,
            stage: self.stage,
            source: self.source_bytes@,
            copy: hashed_bytes(self.copy_hasher),
            pending: self.pending@,
            copied_bytes: self.copied_bytes,
            completed_bytes: self.completed_bytes,
            source_sha: self.source_sha@,
        }
    }
}

impl FileCopyStage {
    /// Whether an event answers what a stage is waiting for.
    pub open spec fn expects(self, event: FileCopyEvent) -> bool {
        match self {
            FileCopyStage::OpenInput | FileCopyStage::CreateOutput => event is Opened,
            FileCopyStage::PollBeforeRead | FileCopyStage::PollBeforeFlush
            | FileCopyStage::PollBeforeReadBack => event is Polled,
            FileCopyStage::Read | FileCopyStage::ReadBack => event is Chunk,
            FileCopyStage::Write | FileCopyStage::Flush | FileCopyStage::Rewind => event is Written,
            FileCopyStage::Length => event is Length,
            FileCopyStage::Finished => false,
        }
    }
}

impl FileCopyModel {
    pub open spec fn at(self, stage: FileCopyStage) -> FileCopyModel {
        FileCopyModel { stage: stage, ..self }
    }
}

pub open spec fn no_progress(step: FileCopyStep) -> bool {
    step.progress is None
}

pub open spec fn fails_with_io(step: FileCopyStep, reason: Seq<char>) -> bool {
    no_progress(step) && (step.action matches FileCopyAction::Fail(MigrationError::IoError(text))
        && text@ == reason)
}

/// What follows an event in the copy of a file: from the state before, with the
/// transaction, to the state after.
pub open spec fn file_copy_follows(
    m: FileCopyModel,
    tx: TransactionModel,
    event: FileCopyEvent,
    n: FileCopyModel,
    ty: TransactionModel,
    step: FileCopyStep,
) -> bool {
    match event {
        FileCopyEvent::Opened(outcome) => match outcome {
            Err(error) => n == m.at(FileCopyStage::Finished) && ty == tx && no_progress(step) && (
            step.action matches FileCopyAction::Fail(e) && maps_to(error, e)),
            Ok(_) => if m.stage is OpenInput {
                n == m.at(FileCopyStage::CreateOutput) && ty == tx && no_progress(step)
                    && (step.action matches FileCopyAction::CreateOutput { name } && name@ == m.name)
            } else {
                n == (FileCopyModel {
                    stage: FileCopyStage::PollBeforeRead,
                    completed_bytes: tx.copied_bytes(),
                    ..m
                }) && ty == tx.with_created(m.path) && no_progress(step)
                    && step.action is PollCancellation
            },
        },
        FileCopyEvent::Polled(cancelled) => {
            &&& ty == tx
            &&& no_progress(step)
            &&& if cancelled {
                n == m.at(FileCopyStage::Finished) && (step.action matches FileCopyAction::Fail(e)
                    && e is Cancelled)
            } else if m.stage is PollBeforeRead {
                n == m.at(FileCopyStage::Read) && step.action == (FileCopyAction::ReadInput {
                    max: COPY_BUFFER_BYTES,
                })
            } else if m.stage is PollBeforeFlush {
                n == m.at(FileCopyStage::Flush) && step.action is FlushOutput
            } else {
                n == m.at(FileCopyStage::ReadBack) && step.action == (FileCopyAction::ReadOutput {
                    max: COPY_BUFFER_BYTES,
                })
            }
        },
        FileCopyEvent::Chunk(Err(reason)) => n == m.at(FileCopyStage::Finished) && ty == tx
            && fails_with_io(step, reason@),
        FileCopyEvent::Chunk(Ok(bytes)) => {
            &&& ty == tx
            &&& no_progress(step)
            &&& if m.stage is Read {
                if bytes@.len() == 0 {
                    n == m.at(FileCopyStage::PollBeforeFlush) && step.action is PollCancellation
                } else {
                    n == (FileCopyModel { stage: FileCopyStage::Write, pending: bytes@, ..m })
                        && (step.action matches FileCopyAction::WriteOutput { bytes: written }
                        && written@ == bytes@)
                }
            } else if bytes@.len() == 0 {
                n == m.at(FileCopyStage::Length) && step.action is QueryLength
            } else {
                n == (FileCopyModel {
                    stage: FileCopyStage::PollBeforeReadBack,
                    copy: m.copy + bytes@,
                    ..m
                }) && step.action is PollCancellation
            }
        },
        FileCopyEvent::Written(Err(reason)) => n == m.at(FileCopyStage::Finished) && ty == tx
            && fails_with_io(step, reason@),
        FileCopyEvent::Written(Ok(_)) => if m.stage is Write {
            let source = m.source + m.pending;
            let observed = saturated((m.completed_bytes + saturated(source.len())) as nat);
            &&& n == (FileCopyModel {
                stage: FileCopyStage::PollBeforeRead,
                source: source,
                copied_bytes: saturated(source.len()),
                ..m
            })
            &&& ty == tx.with_observed(m.path, observed)
            &&& step.action is PollCancellation
            &&& step.progress matches Some(p) && p@ == (ProgressModel {
                phase: MigrationPhase::Copying,
                relative_path: Some(shown_path(m.path)),
                completed_files: tx.manifest.len(),
                copied_bytes: observed,
            })
        } else if m.stage is Flush {
            n == (FileCopyModel {
                stage: FileCopyStage::Rewind,
                source_sha: sha256_text(m.source),
                ..m
            }) && ty == tx && no_progress(step) && step.action is RewindOutput
        } else {
            &&& n == m.at(FileCopyStage::PollBeforeReadBack)
            &&& ty == tx
            &&& step.action is PollCancellation
            &&& step.progress matches Some(p) && p@ == (ProgressModel {
                phase: MigrationPhase::Verifying,
                relative_path: Some(shown_path(m.path)),
                completed_files: tx.manifest.len(),
                copied_bytes: tx.copied_bytes(),
            })
        },
        FileCopyEvent::Length(Err(reason)) => n == m.at(FileCopyStage::Finished) && ty == tx
            && fails_with_io(step, reason@),
        FileCopyEvent::Length(Ok(length)) => {
            &&& n.stage is Finished
            &&& no_progress(step)
            &&& if m.source_sha == sha256_text(m.copy) && length == m.copied_bytes {
                ty == tx.with_file(
                    ManifestModel {
                        path: shown_path(m.path),
                        size: m.copied_bytes,
                        sha256: m.source_sha,
                    },
                ) && step.action is Done
            } else {
                ty == tx && (step.action matches FileCopyAction::Fail(
                    MigrationError::VerificationFailed(path),
                ) && path@ == m.path)
            }
        },
    }
}

fn plain(action: FileCopyAction) -> (r: FileCopyStep)
    ensures
        r.progress is None,
        r.action == action,
{
    FileCopyStep { progress: None, action: action }
}

impl FileCopy {
    /// What holds between steps: the size of what was copied is kept while it fits,
    /// the hash has taken in what was copied, and the digest is that of the source
    /// once the output is flushed.
    pub open spec fn inv(self) -> bool {
        &&& self.copied_bytes == saturated(self.source_bytes@.len())
        &&& (if self.stage is Rewind || self.stage is PollBeforeReadBack || self.stage is ReadBack
            || self.stage is Length {
            self.source_sha@ == sha256_text(self.source_bytes@)
        } else {
            self.stage is Finished || hashed_bytes(self.source_hasher) == self.source_bytes@
        })
    }

    /// The copy of a file whose input is to be opened first.
    pub fn new(relative_path: String, name: Vec<u16>) -> (r: FileCopy)
        ensures
            r.inv(),
            r@ == (FileCopyModel {
                path: relative_path@,
                name: name@,
                stage: FileCopyStage::OpenInput,
                source: Seq::empty(),
                copy: Seq::empty(),
                pending: Seq::empty(),
                copied_bytes: 0,
                completed_bytes: 0,
                source_sha: Seq::empty(),
            }),
    {
        FileCopy {
            relative_path: relative_path,
            name: name,
            stage: FileCopyStage::OpenInput,
            source_hasher: new_hasher(),
            copy_hasher: new_hasher(),
            pending: Vec::new(),
            copied_bytes: 0,
            completed_bytes: 0,
            source_sha: String::new(),
            source_bytes: Ghost(Seq::empty()),
        }
    }

    fn fail_io(&mut self, reason: String) -> (r: FileCopyStep)
        ensures
            final(self)@ == old(self)@.at(FileCopyStage::Finished),
            fails_with_io(r, reason@),
    {
        self.stage = FileCopyStage::Finished;
        plain(FileCopyAction::Fail(MigrationError::IoError(reason)))
    }

    /// Takes the outcome of the last action and decides the next. A file is done only
    /// where what was read back has the digest of what was read from the source, and it
    /// is that digest which goes into the manifest.
    pub fn step(&mut self, event: FileCopyEvent, tx: &mut CopyTransaction) -> (r: FileCopyStep)
        requires
            old(self).inv(),
            old(self)@.stage.expects(event),
        ensures
            final(self).inv(),
            file_copy_follows(old(self)@, old(tx)@, event, final(self)@, final(tx)@, r),
            r.action is Done || r.action is Fail <==> final(self)@.stage is Finished,
            final(self)@.path == old(self)@.path,
            r.action is Done ==> sha256_text(old(self)@.source) == sha256_text(old(self)@.copy)
                && final(tx)@.manifest.len() > 0 && final(tx)@.manifest.last().sha256
                == sha256_text(old(self)@.source),
    {
        match event {
            FileCopyEvent::Opened(Err(error)) => {
                self.stage = FileCopyStage::Finished;
                plain(FileCopyAction::Fail(map_secure_error(error)))
            },
            FileCopyEvent::Opened(Ok(())) => match self.stage {
                FileCopyStage::OpenInput => {
                    self.stage = FileCopyStage::CreateOutput;
                    plain(FileCopyAction::CreateOutput { name: copy_units(&self.name) })
                },
                _ => {
                    self.completed_bytes = tx.copied_bytes();
                    tx.record_created(owned(self.relative_path.as_str()));
                    self.stage = FileCopyStage::PollBeforeRead;
                    plain(FileCopyAction::PollCancellation)
                },
            },
            FileCopyEvent::Polled(cancelled) => {
                if cancelled {
                    self.stage = FileCopyStage::Finished;
                    return plain(FileCopyAction::Fail(MigrationError::Cancelled));
                }
                match self.stage {
                    FileCopyStage::PollBeforeRead => {
                        self.stage = FileCopyStage::Read;
                        plain(FileCopyAction::ReadInput { max: COPY_BUFFER_BYTES })
                    },
                    FileCopyStage::PollBeforeFlush => {
                        self.stage = FileCopyStage::Flush;
                        plain(FileCopyAction::FlushOutput)
                    },
                    _ => {
                        self.stage = FileCopyStage::ReadBack;
                        plain(FileCopyAction::ReadOutput { max: COPY_BUFFER_BYTES })
                    },
                }
            },
            FileCopyEvent::Chunk(Err(reason)) => self.fail_io(reason),
            FileCopyEvent::Chunk(Ok(bytes)) => match self.stage {
                FileCopyStage::Read => {
                    if bytes.len() == 0 {
                        self.stage = FileCopyStage::PollBeforeFlush;
                        plain(FileCopyAction::PollCancellation)
                    } else {
                        let written = bytes.clone();
                        assert(written@ =~= bytes@);
                        self.pending = bytes;
                        self.stage = FileCopyStage::Write;
                        plain(FileCopyAction::WriteOutput { bytes: written })
                    }
                },
                _ => {
                    if bytes.len() == 0 {
                        self.stage = FileCopyStage::Length;
                        plain(FileCopyAction::QueryLength)
                    } else {
                        absorb(&mut self.copy_hasher, bytes.as_slice());
                        self.stage = FileCopyStage::PollBeforeReadBack;
                        plain(FileCopyAction::PollCancellation)
                    }
                },
            },
            FileCopyEvent::Written(Err(reason)) => self.fail_io(reason),
            FileCopyEvent::Written(Ok(())) => match self.stage {
                FileCopyStage::Write => {
                    absorb(&mut self.source_hasher, self.pending.as_slice());
                    proof {
                        self.source_bytes@ = self.source_bytes@ + self.pending@;
                    }
                    self.copied_bytes = self.copied_bytes.saturating_add(self.pending.len() as u64);
                    let observed: u64 = self.completed_bytes.saturating_add(self.copied_bytes);
                    let progress = MigrationProgress {
                        phase: MigrationPhase::Copying,
                        relative_path: Some(display_relative_path(self.relative_path.as_str())),
                        completed_files: tx.completed_files(),
                        copied_bytes: observed,
                    };
                    tx.observe_copy(self.relative_path.as_str(), observed);
                    self.stage = FileCopyStage::PollBeforeRead;
                    FileCopyStep {
                        progress: Some(progress),
                        action: FileCopyAction::PollCancellation,
                    }
                },
                FileCopyStage::Flush => {
                    let mut hasher = new_hasher();
                    std::mem::swap(&mut hasher, &mut self.source_hasher);
                    self.source_sha = finish_text(hasher);
                    self.stage = FileCopyStage::Rewind;
                    plain(FileCopyAction::RewindOutput)
                },
                _ => {
                    let progress = MigrationProgress {
                        phase: MigrationPhase::Verifying,
                        relative_path: Some(display_relative_path(self.relative_path.as_str())),
                        completed_files: tx.completed_files(),
                        copied_bytes: tx.copied_bytes(),
                    };
                    self.stage = FileCopyStage::PollBeforeReadBack;
                    FileCopyStep {
                        progress: Some(progress),
                        action: FileCopyAction::PollCancellation,
                    }
                },
            },
            FileCopyEvent::Length(Err(reason)) => self.fail_io(reason),
            FileCopyEvent::Length(Ok(length)) => {
                let mut hasher = new_hasher();
                std::mem::swap(&mut hasher, &mut self.copy_hasher);
                let copy_sha = finish_text(hasher);
                self.stage = FileCopyStage::Finished;
                if !str_eq(self.source_sha.as_str(), copy_sha.as_str()) || self.copied_bytes
                    != length {
                    return plain(
                        FileCopyAction::Fail(
                            MigrationError::VerificationFailed(owned(self.relative_path.as_str())),
                        ),
                    );
                }
                tx.record_file(
                    ManifestEntry {
                        path: display_relative_path(self.relative_path.as_str()),
                        size: self.copied_bytes,
                        sha256: owned(self.source_sha.as_str()),
                    },
                );
                plain(FileCopyAction::Done)
            },
        }
    }
}

/// A manifest of two parts tells the first part and then the second, and weighs what both do.
pub proof fn a_manifest_tells_its_parts_in_order(a: Seq<ManifestModel>, b: Seq<ManifestModel>)
    ensures
        manifest_bytes(a + b) == manifest_bytes(a) + manifest_bytes(b),
        manifest_size(a + b) == manifest_size(a) + manifest_size(b),
        manifest_bytes(Seq::<ManifestModel>::empty()).len() == 0,
        manifest_size(Seq::<ManifestModel>::empty()) == 0,
        b.len() == 1 ==> manifest_size(b) == b[0].size && manifest_bytes(b) == encode_utf8(b[0].path)
            + seq![0u8] + spec_u64_to_le_bytes(b[0].size) + encode_utf8(b[0].sha256) + seq![10u8],
    decreases b.len(),
{
    if b.len() == 0 {
        assert(a + b =~= a);
        assert(manifest_bytes(a) + manifest_bytes(b) =~= manifest_bytes(a));
    } else {
        let front = b.drop_last();
        a_manifest_tells_its_parts_in_order(a, front);
        assert((a + b).drop_last() =~= a + front);
        assert(manifest_bytes(a + b) =~= manifest_bytes(a) + manifest_bytes(b));
        if b.len() == 1 {
            assert(front =~= Seq::empty());
            assert(manifest_bytes(b) =~= manifest_line(b[0]));
        }
    }
}

} // verus!
