//! The audit journal: entries, the bounded memory of them and the rotation of the log.
use crate::clock::UtcTime;
use crate::text::{cat2, cat3, cat4, cat5, dec, decimal, digit_char, owned};
use std::collections::VecDeque;
use vstd::prelude::*;

verus! {

/// How large the log grows before it is rotated.
pub const DEFAULT_MAX_LOG_BYTES: u64 = 10_485_760;

/// How many rotated logs are kept.
pub const DEFAULT_MAX_ARCHIVES: usize = 5;

/// The name of the log in the storage root.
pub const AUDIT_LOG_FILE: &'static str = "audit_log.jsonl";

/// How an audited operation went.
#[derive(Debug, Clone, Copy, PartialEq, Eq, Structural)]
pub enum AuditStatus {
    Success,
    Warning,
    Failed,
    RolledBack,
}

/// An audited operation.
#[derive(Debug, Clone, PartialEq, Eq)]
pub struct AuditEntry {
    pub timestamp: UtcTime,
    pub operation: String,
    pub actor: String,
    pub target: String,
    pub status: AuditStatus,
    pub details: String,
}

#[verifier::ext_equal]
pub struct EntryModel {
    pub timestamp: UtcTime,
    pub operation: Seq<char>,
    pub actor: Seq<char>,
    pub target: Seq<char>,
    pub status: AuditStatus,
    pub details: Seq<char>,
}

impl View for AuditEntry {
    type V = EntryModel;

    open spec fn view(&self) -> EntryModel {
        EntryModel {
            timestamp: self.timestamp,
            operation: self.operation@,
            actor: self.actor@,
            target: self.target@,
            status: self.status,
            details: self.details@,
        }
    }
}

impl AuditEntry {
    pub fn copy(&self) -> (r: AuditEntry)
        ensures
            r@ == self@,
    {
        AuditEntry {
            timestamp: self.timestamp,
            operation: owned(self.operation.as_str()),
            actor: owned(self.actor.as_str()),
            target: owned(self.target.as_str()),
            status: self.status,
            details: owned(self.details.as_str()),
        }
    }
}

/// Who is named as the actor of what the operator does.
pub const ADMIN_ACTOR: &'static str = "WinProfile-Admin";

/// The entry of something that the operator did.
pub open spec fn admin_model(
    operation: Seq<char>,
    target: Seq<char>,
    status: AuditStatus,
    details: Seq<char>,
    timestamp: UtcTime,
) -> EntryModel {
    EntryModel {
        timestamp: timestamp,
        operation: operation,
        actor: ADMIN_ACTOR@,
        target: target,
        status: status,
        details: details,
    }
}

pub fn admin_entry(
    operation: &str,
    target: &str,
    status: AuditStatus,
    details: String,
    timestamp: UtcTime,
) -> (r: AuditEntry)
    ensures
        r@ == admin_model(operation@, target@, status, details@, timestamp),
{
    AuditEntry {
        timestamp: timestamp,
        operation: owned(operation),
        actor: owned(ADMIN_ACTOR),
        target: owned(target),
        status: status,
        details: details,
    }
}

pub open spec fn entries(list: Seq<AuditEntry>) -> Seq<EntryModel> {
    list.map_values(|entry: AuditEntry| entry@)
}

#[derive(Debug)]
pub enum AuditError {
    Io(String),
    InvalidLimits,
    /// A line of the log, counted from one, is no entry.
    InvalidHistory { line: usize, reason: String },
    /// A line alone is longer than the log may be.
    LineTooLong { bytes: u64, limit: u64 },
    /// What was read back of an export is not what was exported.
    ExportDiffers,
}

impl AuditError {
    /// The text that describes the error.
    pub open spec fn text(self) -> Seq<char> {
        match self {
            AuditError::Io(reason) => "audit log IO error: "@ + reason@,
            AuditError::InvalidLimits =>
                "audit log limits must allow at least one byte and one archive"@,
            AuditError::InvalidHistory { line, reason } => "audit log line "@ + decimal(
                line as nat,
            ) + " is invalid: "@ + reason@,
            AuditError::LineTooLong { bytes, limit } => "audit log line of "@ + decimal(
                bytes as nat,
            ) + " bytes exceeds the limit of "@ + decimal(limit as nat) + " bytes"@,
            AuditError::ExportDiffers => "exported audit log differs from the log"@,
        }
    }

    pub fn message(&self) -> (r: String)
        ensures
            r@ == self.text(),
    {
        match self {
            AuditError::Io(reason) => cat2("audit log IO error: ", reason.as_str()),
            AuditError::InvalidLimits => owned(
                "audit log limits must allow at least one byte and one archive",
            ),
            AuditError::InvalidHistory { line, reason } => {
                let number = dec(*line as u64);
                cat4("audit log line ", number.as_str(), " is invalid: ", reason.as_str())
            },
            AuditError::LineTooLong { bytes, limit } => {
                let length = dec(*bytes);
                let most = dec(*limit);
                cat5(
                    "audit log line of ",
                    length.as_str(),
                    " bytes exceeds the limit of ",
                    most.as_str(),
                    " bytes",
                )
            },
            AuditError::ExportDiffers => owned("exported audit log differs from the log"),
        }
    }
}

// ---------------------------------------------------------------------------
// Memory
// ---------------------------------------------------------------------------

/// The most recent of a list of entries.
pub open spec fn most_recent(all: Seq<EntryModel>, count: nat) -> Seq<EntryModel> {
    if all.len() <= count {
        all
    } else {
        all.skip(all.len() - count)
    }
}

/// What is remembered behind one more entry.
pub open spec fn with_entry(memory: Seq<EntryModel>, max: nat, entry: EntryModel) -> Seq<EntryModel> {
    if memory.len() >= max && memory.len() > 0 {
        memory.skip(1).push(entry)
    } else {
        memory.push(entry)
    }
}

/// Whether the first line that is no entry stands at a place.
pub open spec fn first_invalid(lines: Seq<Result<AuditEntry, String>>, at: int) -> bool {
    0 <= at < lines.len() && lines[at] is Err && all_valid(lines.take(at))
}

pub open spec fn all_valid(lines: Seq<Result<AuditEntry, String>>) -> bool {
    forall|i: int| 0 <= i < lines.len() ==> (#[trigger] lines[i]) is Ok
}

pub open spec fn valid_entries(lines: Seq<Result<AuditEntry, String>>) -> Seq<EntryModel> {
    lines.map_values(|line: Result<AuditEntry, String>| line->Ok_0@)
}

/// One thing to do to rotate the log; what is not there is passed over.
#[derive(Debug, PartialEq, Eq)]
pub enum RotationStep {
    Remove { name: String },
    Rename { from: String, to: String },
}

/// The journal of audited operations.
#[derive(Debug)]
pub struct AuditLogger {
    pub log_file_path: String,
    pub memory: VecDeque<AuditEntry>,
    pub max_memory_entries: usize,
    pub max_log_bytes: u64,
    pub max_archives: usize,
}

/// Whether a journal can be kept within these limits.
pub open spec fn are_limits(max_log_bytes: u64, max_archives: usize) -> bool {
    max_log_bytes > 0 && max_archives > 0
}

/// The outcome of opening a journal.
pub open spec fn opening_outcome(
    log_file_path: Seq<char>,
    max_memory: usize,
    max_log_bytes: u64,
    max_archives: usize,
    history: Result<Vec<Result<AuditEntry, String>>, String>,
    r: Result<AuditLogger, AuditError>,
) -> bool {
    if !are_limits(max_log_bytes, max_archives) {
        r == Result::<AuditLogger, AuditError>::Err(AuditError::InvalidLimits)
    } else {
        match history {
            Err(reason) => r == Result::<AuditLogger, AuditError>::Err(AuditError::Io(reason)),
            Ok(lines) => if all_valid(lines@) {
                r matches Ok(logger) && logger.inv() && logger.log_file_path@ == log_file_path
                    && logger.max_memory_entries == max_memory && logger.max_log_bytes
                    == max_log_bytes && logger.max_archives == max_archives && logger@
                    == most_recent(valid_entries(lines@), max_memory as nat)
            } else {
                exists|at: int| #[trigger]
                    first_invalid(lines@, at) && (r matches Err(
                        AuditError::InvalidHistory { line, reason },
                    ) && line == at + 1 && reason@ == lines@[at]->Err_0@)
            },
        }
    }
}

impl View for AuditLogger {
    type V = Seq<EntryModel>;

    /// The entries that are remembered, the oldest first.
    open spec fn view(&self) -> Seq<EntryModel> {
        entries(self.memory@)
    }
}

impl AuditLogger {
    /// What holds of every journal: its limits can be kept, and it remembers no more
    /// than it may (one entry, where it may remember none).
    pub open spec fn inv(self) -> bool {
        &&& are_limits(self.max_log_bytes, self.max_archives)
        &&& self.memory@.len() <= self.max_memory_entries || self.memory@.len() <= 1
    }

    /// Opens a journal, given what was read of its log line by line.
    pub fn with_limits(
        log_file_path: &str,
        max_memory: usize,
        max_log_bytes: u64,
        max_archives: usize,
        history: Result<Vec<Result<AuditEntry, String>>, String>,
    ) -> (r: Result<AuditLogger, AuditError>)
        ensures
            opening_outcome(
                log_file_path@,
                max_memory,
                max_log_bytes,
                max_archives,
                history,
                r,
            ),
    {
        if max_log_bytes == 0 || max_archives == 0 {
            return Err(AuditError::InvalidLimits);
        }
        let lines = match history {
            Ok(lines) => lines,
            Err(reason) => {
                return Err(AuditError::Io(reason));
            },
        };
        let total: usize = lines.len();
        let first: usize = if total <= max_memory {
            0
        } else {
            total - max_memory
        };
        let mut memory: VecDeque<AuditEntry> = VecDeque::new();
        let mut i: usize = 0;
        while i < total
            invariant
                i <= total,
                total == lines@.len(),
                first <= total,
                total - first <= max_memory,
                history == Result::<Vec<Result<AuditEntry, String>>, String>::Ok(lines),
                are_limits(max_log_bytes, max_archives),
                forall|k: int| 0 <= k < i ==> (#[trigger] lines@[k]) is Ok,
                memory@.len() == (if i <= first {
                    0
                } else {
                    i - first
                }),
                forall|k: int|
                    0 <= k < memory@.len() ==> (#[trigger] memory@[k])@ == lines@[first
                        + k]->Ok_0@,
            decreases total - i,
        {
            match &lines[i] {
                Ok(entry) => {
                    if i >= first {
                        memory.push_back(entry.copy());
                    }
                },
                Err(reason) => {
                    assert(first_invalid(lines@, i as int));
                    assert(!all_valid(lines@));
                    return Err(AuditError::InvalidHistory { line: i + 1, reason: owned(reason.as_str()) });
                },
            }
            i += 1;
        }
        assert(all_valid(lines@));
        assert(entries(memory@) =~= most_recent(valid_entries(lines@), max_memory as nat));
        Ok(
            AuditLogger {
                log_file_path: owned(log_file_path),
                memory: memory,
                max_memory_entries: max_memory,
                max_log_bytes: max_log_bytes,
                max_archives: max_archives,
            },
        )
    }

    /// Opens a journal within the default limits.
    pub fn new(
        log_file_path: &str,
        max_memory: usize,
        history: Result<Vec<Result<AuditEntry, String>>, String>,
    ) -> (r: Result<AuditLogger, AuditError>)
        ensures
            opening_outcome(
                log_file_path@,
                max_memory,
                DEFAULT_MAX_LOG_BYTES,
                DEFAULT_MAX_ARCHIVES,
                history,
                r,
            ),
    {
        Self::with_limits(
            log_file_path,
            max_memory,
            DEFAULT_MAX_LOG_BYTES,
            DEFAULT_MAX_ARCHIVES,
            history,
        )
    }

    pub fn log_file_path(&self) -> (r: &str)
        ensures
            r@ == self.log_file_path@,
    {
        self.log_file_path.as_str()
    }

    /// Remembers an entry, whether or not it could be written, and passes on the
    /// outcome of the write.
    pub fn log(&mut self, entry: AuditEntry, written: Result<(), AuditError>) -> (r: Result<
        (),
        AuditError,
    >)
        requires
            old(self).inv(),
        ensures
            final(self).inv(),
            final(self)@ == with_entry(old(self)@, old(self).max_memory_entries as nat, entry@),
            final(self).log_file_path == old(self).log_file_path,
            final(self).max_memory_entries == old(self).max_memory_entries,
            final(self).max_log_bytes == old(self).max_log_bytes,
            final(self).max_archives == old(self).max_archives,
            r == written,
    {
        if self.memory.len() >= self.max_memory_entries {
            let _dropped = self.memory.pop_front();
        }
        self.memory.push_back(entry);
        assert(self@ =~= with_entry(old(self)@, old(self).max_memory_entries as nat, entry@));
        written
    }

    /// The entries that are remembered, the latest first.
    pub fn get_entries(&self) -> (r: Vec<AuditEntry>)
        ensures
            entries(r@) == self@.reverse(),
    {
        let mut out: Vec<AuditEntry> = Vec::new();
        let total: usize = self.memory.len();
        let mut i: usize = 0;
        while i < total
            invariant
                i <= total,
                total == self.memory@.len(),
                out@.len() == i,
                forall|k: int|
                    0 <= k < i ==> (#[trigger] out@[k])@ == self.memory@[total - 1 - k]@,
            decreases total - i,
        {
            out.push(self.memory[total - 1 - i].copy());
            i += 1;
        }
        assert(entries(out@) =~= self@.reverse());
        out
    }

    /// Forgets what is remembered; the log stays as it is.
    pub fn clear_memory(&mut self)
        requires
            old(self).inv(),
        ensures
            final(self).inv(),
            final(self)@ == Seq::<EntryModel>::empty(),
            final(self).log_file_path == old(self).log_file_path,
            final(self).max_memory_entries == old(self).max_memory_entries,
            final(self).max_log_bytes == old(self).max_log_bytes,
            final(self).max_archives == old(self).max_archives,
    {
        self.memory.clear();
        assert(self@ =~= Seq::<EntryModel>::empty());
    }

    /// The name of a rotated log.
    fn archive(&self, number: usize) -> (r: String)
        ensures
            r@ == archive_name(self.log_file_path@, number as nat),
    {
        let digits = dec(number as u64);
        cat3(self.log_file_path.as_str(), ".", digits.as_str())
    }

    /// What to do before a line is written, so that the log stays within its limit:
    /// the oldest archive goes, every other becomes the next older one, and the log
    /// itself becomes the first. A line that alone is past the limit is refused.
    pub fn rotation(&self, log_bytes: u64, line_bytes: u64) -> (r: Result<
        Vec<RotationStep>,
        AuditError,
    >)
        requires
            self.inv(),
        ensures
            match r {
                Ok(list) => line_bytes <= self.max_log_bytes && steps(list@) == (if must_rotate(
                    log_bytes,
                    line_bytes,
                    self.max_log_bytes,
                ) {
                    rotation_steps(self.log_file_path@, self.max_archives as nat)
                } else {
                    Seq::empty()
                }),
                Err(e) => line_bytes > self.max_log_bytes && e == (AuditError::LineTooLong {
                    bytes: line_bytes,
                    limit: self.max_log_bytes,
                }),
            },
    {
        if line_bytes > self.max_log_bytes {
            return Err(AuditError::LineTooLong { bytes: line_bytes, limit: self.max_log_bytes });
        }
        let mut out: Vec<RotationStep> = Vec::new();
        if log_bytes == 0 || (log_bytes <= self.max_log_bytes && line_bytes <= self.max_log_bytes
            - log_bytes) {
            assert(steps(out@) =~= Seq::<StepModel>::empty());
            return Ok(out);
        }
        let last: usize = self.max_archives;
        out.push(RotationStep::Remove { name: self.archive(last) });
        let mut i: usize = 1;
        while i < last
            invariant
                1 <= i <= last,
                last == self.max_archives,
                out@.len() == i,
                out@[0]@ == (StepModel::Remove {
                    name: archive_name(self.log_file_path@, last as nat),
                }),
                forall|k: int|
                    1 <= k < i ==> (#[trigger] out@[k])@ == (StepModel::Rename {
                        from: archive_name(self.log_file_path@, (last - k) as nat),
                        to: archive_name(self.log_file_path@, (last - k + 1) as nat),
                    }),
            decreases last - i,
        {
            out.push(
                RotationStep::Rename { from: self.archive(last - i), to: self.archive(last - i + 1) },
            );
            i += 1;
        }
        out.push(
            RotationStep::Rename {
                from: owned(self.log_file_path.as_str()),
                to: self.archive(1),
            },
        );
        assert(steps(out@) =~= rotation_steps(self.log_file_path@, self.max_archives as nat));
        Ok(out)
    }

    /// Accepts an export of the log where what was read back of it is what was exported.
    pub fn export_copy(content: &[u8], read_back: &[u8]) -> (r: Result<(), AuditError>)
        ensures
            match r {
                Ok(_) => read_back@ == content@,
                Err(e) => read_back@ != content@ && e is ExportDiffers,
            },
    {
        if content.len() != read_back.len() {
            return Err(AuditError::ExportDiffers);
        }
        let mut i: usize = 0;
        while i < content.len()
            invariant
                i <= content@.len(),
                content@.len() == read_back@.len(),
                forall|k: int| 0 <= k < i ==> content@[k] == read_back@[k],
            decreases content.len() - i,
        {
            if content[i] != read_back[i] {
                return Err(AuditError::ExportDiffers);
            }
            i += 1;
        }
        assert(read_back@ =~= content@);
        Ok(())
    }
}

// ---------------------------------------------------------------------------
// Rotation
// ---------------------------------------------------------------------------

#[verifier::ext_equal]
pub enum StepModel {
    Remove { name: Seq<char> },
    Rename { from: Seq<char>, to: Seq<char> },
}

impl View for RotationStep {
    type V = StepModel;

    open spec fn view(&self) -> StepModel {
        match self {
            RotationStep::Remove { name } => StepModel::Remove { name: name@ },
            RotationStep::Rename { from, to } => StepModel::Rename { from: from@, to: to@ },
        }
    }
}

pub open spec fn steps(list: Seq<RotationStep>) -> Seq<StepModel> {
    list.map_values(|step: RotationStep| step@)
}

/// The name of a rotated log.
pub open spec fn archive_name(path: Seq<char>, number: nat) -> Seq<char> {
    path + "."@ + decimal(number)
}

/// Whether a line would take a log that holds something past its limit.
pub open spec fn must_rotate(log_bytes: u64, line_bytes: u64, max_log_bytes: u64) -> bool {
    log_bytes > 0 && log_bytes + line_bytes > max_log_bytes
}

/// The steps that rotate a log.
pub open spec fn rotation_steps(path: Seq<char>, archives: nat) -> Seq<StepModel> {
    Seq::new(
        archives + 1,
        |i: int|
            if i == 0 {
                StepModel::Remove { name: archive_name(path, archives) }
            } else if i < archives {
                StepModel::Rename {
                    from: archive_name(path, (archives - i) as nat),
                    to: archive_name(path, (archives - i + 1) as nat),
                }
            } else {
                StepModel::Rename { from: path, to: archive_name(path, 1) }
            },
    )
}

/// How many bytes the log holds behind a line; a line that is refused changes nothing.
pub open spec fn bytes_after(log_bytes: u64, line_bytes: u64, max_log_bytes: u64) -> int {
    if line_bytes > max_log_bytes {
        log_bytes as int
    } else if must_rotate(log_bytes, line_bytes, max_log_bytes) {
        line_bytes as int
    } else {
        log_bytes + line_bytes
    }
}

/// A log within its limit stays within it, whatever line comes next; and a log that was
/// found larger is within it behind the first line that is written.
pub proof fn log_stays_bounded(log_bytes: u64, line_bytes: u64, max_log_bytes: u64)
    ensures
        log_bytes <= max_log_bytes ==> bytes_after(log_bytes, line_bytes, max_log_bytes)
            <= max_log_bytes,
        line_bytes <= max_log_bytes ==> bytes_after(log_bytes, line_bytes, max_log_bytes)
            <= max_log_bytes,
{
}

/// Different numbers have different digits.
proof fn lemma_decimal_differs(a: nat, b: nat)
    requires
        a != b,
    ensures
        decimal(a) != decimal(b),
    decreases a + b,
{
    let (x, y) = (decimal(a), decimal(b));
    if x == y {
        if a < 10 && b < 10 {
            assert(x.last() == digit_char(a) && digit_char(a) as int == 48 + a);
            assert(y.last() == digit_char(b) && digit_char(b) as int == 48 + b);
        } else if a >= 10 && b >= 10 {
            assert(x.last() == digit_char(a % 10) && digit_char(a % 10) as int == 48 + a % 10);
            assert(y.last() == digit_char(b % 10) && digit_char(b % 10) as int == 48 + b % 10);
            assert(x.drop_last() =~= decimal(a / 10));
            assert(y.drop_last() =~= decimal(b / 10));
            if a / 10 != b / 10 {
                lemma_decimal_differs(a / 10, b / 10);
            }
        } else {
            lemma_decimal_is_something(a / 10);
            lemma_decimal_is_something(b / 10);
        }
    }
}

proof fn lemma_decimal_is_something(n: nat)
    ensures
        decimal(n).len() > 0,
    decreases n,
{
    if n >= 10 {
        lemma_decimal_is_something(n / 10);
    }
}

/// No two archives share a name, and none has that of the log.
proof fn lemma_archive_names_differ(path: Seq<char>, a: nat, b: nat)
    ensures
        a != b ==> archive_name(path, a) != archive_name(path, b),
        archive_name(path, a) != path,
{
    reveal_strlit(".");
    let head = path + "."@;
    if a != b && archive_name(path, a) == archive_name(path, b) {
        lemma_decimal_differs(a, b);
        assert(archive_name(path, a).skip(head.len() as int) =~= decimal(a));
        assert(archive_name(path, b).skip(head.len() as int) =~= decimal(b));
    }
    assert(archive_name(path, a).len() > path.len());
}

/// What files hold behind a step: a rename of a file that is not there does nothing.
pub open spec fn after_step(
    files: Map<Seq<char>, Seq<u8>>,
    step: StepModel,
) -> Map<Seq<char>, Seq<u8>> {
    match step {
        StepModel::Remove { name } => files.remove(name),
        StepModel::Rename { from, to } => if files.dom().contains(from) {
            files.remove(from).insert(to, files[from])
        } else {
            files
        },
    }
}

/// What files hold behind steps.
pub open spec fn after_steps(
    files: Map<Seq<char>, Seq<u8>>,
    steps: Seq<StepModel>,
) -> Map<Seq<char>, Seq<u8>>
    decreases steps.len(),
{
    if steps.len() == 0 {
        files
    } else {
        after_step(after_steps(files, steps.drop_last()), steps.last())
    }
}

/// Whether a name holds the same in two places.
pub open spec fn holds_as(
    files: Map<Seq<char>, Seq<u8>>,
    name: Seq<char>,
    before: Map<Seq<char>, Seq<u8>>,
    old_name: Seq<char>,
) -> bool {
    &&& files.dom().contains(name) == before.dom().contains(old_name)
    &&& files.dom().contains(name) ==> files[name] == before[old_name]
}

/// What holds behind the first steps of a rotation: the archives from some number on
/// are the ones that came before them, and there is room for the next.
proof fn lemma_rotation_makes_room(
    files: Map<Seq<char>, Seq<u8>>,
    path: Seq<char>,
    archives: nat,
    done: nat,
)
    requires
        1 <= done <= archives,
    ensures
        ({
            let now = after_steps(files, rotation_steps(path, archives).take(done as int));
            &&& !now.dom().contains(archive_name(path, (archives - done + 1) as nat))
            &&& holds_as(now, path, files, path)
            &&& forall|k: nat|
                1 <= k <= archives - done ==> #[trigger] holds_as(
                    now,
                    archive_name(path, k),
                    files,
                    archive_name(path, k),
                )
            &&& forall|k: nat|
                archives - done + 1 < k <= archives ==> holds_as(
                    now,
                    #[trigger] archive_name(path, k),
                    files,
                    archive_name(path, (k - 1) as nat),
                )
        }),
    decreases done,
{
    let all = rotation_steps(path, archives);
    let taken = all.take(done as int);
    let now = after_steps(files, taken);
    assert(taken.drop_last() =~= all.take(done - 1));
    let earlier = after_steps(files, taken.drop_last());
    if done == 1 {
        assert(all.take(0) =~= Seq::<StepModel>::empty());
        assert(earlier == files);
        assert(now == files.remove(archive_name(path, archives)));
        lemma_archive_names_differ(path, archives, archives);
        assert forall|k: nat| 1 <= k <= archives - done implies #[trigger] holds_as(
            now,
            archive_name(path, k),
            files,
            archive_name(path, k),
        ) by {
            lemma_archive_names_differ(path, k, archives);
        }
    } else {
        lemma_rotation_makes_room(files, path, archives, (done - 1) as nat);
        let from = archive_name(path, (archives - done + 1) as nat);
        let to = archive_name(path, (archives - done + 2) as nat);
        assert(taken.last() == (StepModel::Rename { from: from, to: to }));
        lemma_archive_names_differ(path, (archives - done + 1) as nat, (archives - done + 2) as nat);
        lemma_archive_names_differ(path, (archives - done + 2) as nat, (archives - done + 1) as nat);
        assert(holds_as(earlier, from, files, from));
        assert forall|k: nat| 1 <= k <= archives - done implies #[trigger] holds_as(
            now,
            archive_name(path, k),
            files,
            archive_name(path, k),
        ) by {
            lemma_archive_names_differ(path, k, (archives - done + 1) as nat);
            lemma_archive_names_differ(path, k, (archives - done + 2) as nat);
            assert(holds_as(earlier, archive_name(path, k), files, archive_name(path, k)));
        }
        assert forall|k: nat| archives - done + 1 < k <= archives implies holds_as(
            now,
            #[trigger] archive_name(path, k),
            files,
            archive_name(path, (k - 1) as nat),
        ) by {
            lemma_archive_names_differ(path, k, (archives - done + 1) as nat);
            if k != archives - done + 2 {
                lemma_archive_names_differ(path, k, (archives - done + 2) as nat);
            }
        }
    }
}

/// A rotation moves the log to the first archive and every archive to the next one; only
/// the last archive is given up, and nothing else is overwritten.
pub proof fn a_rotation_gives_up_only_the_last_archive(
    files: Map<Seq<char>, Seq<u8>>,
    path: Seq<char>,
    archives: nat,
    k: nat,
)
    requires
        archives > 0,
    ensures
        !after_steps(files, rotation_steps(path, archives)).dom().contains(path),
        holds_as(
            after_steps(files, rotation_steps(path, archives)),
            archive_name(path, 1),
            files,
            path,
        ),
        1 <= k < archives ==> holds_as(
            after_steps(files, rotation_steps(path, archives)),
            archive_name(path, k + 1),
            files,
            archive_name(path, k),
        ),
        !after_steps(files, rotation_steps(path, archives).drop_last()).dom().contains(
            archive_name(path, 1),
        ),
{
    let all = rotation_steps(path, archives);
    assert(all.drop_last() =~= all.take(archives as int));
    lemma_rotation_makes_room(files, path, archives, archives);
    assert(all.last() == (StepModel::Rename { from: path, to: archive_name(path, 1) }));
    lemma_archive_names_differ(path, 1, k + 1);
    lemma_archive_names_differ(path, k + 1, 1);
    if 1 <= k < archives {
        let earlier = after_steps(files, all.drop_last());
        assert(holds_as(earlier, archive_name(path, k + 1), files, archive_name(path, k)));
    }
}

/// What is remembered are the most recent of all entries, as many as may be.
pub proof fn memory_holds_the_most_recent(all: Seq<EntryModel>, max: nat, entry: EntryModel)
    requires
        max > 0,
    ensures
        with_entry(most_recent(all, max), max, entry) == most_recent(all.push(entry), max),
{
    assert(with_entry(most_recent(all, max), max, entry) =~= most_recent(all.push(entry), max));
}

/// A journal that is not told otherwise is kept within ten mebibytes and five archives.
pub proof fn a_journal_is_bounded(
    path: Seq<char>,
    max_memory: usize,
    history: Result<Vec<Result<AuditEntry, String>>, String>,
    logger: AuditLogger,
)
    requires
        opening_outcome(
            path,
            max_memory,
            DEFAULT_MAX_LOG_BYTES,
            DEFAULT_MAX_ARCHIVES,
            history,
            Ok(logger),
        ),
    ensures
        logger.max_log_bytes == 10 * 1024 * 1024,
        logger.max_archives == 5,
{
}

/// A journal opens exactly where its limits can be kept and every line of its log is an
/// entry: no line is passed over. It then remembers the latest entries, in order, as many
/// as it may.
pub proof fn a_journal_opens_with_its_latest_entries(
    path: Seq<char>,
    max_memory: usize,
    max_log_bytes: u64,
    max_archives: usize,
    lines: Vec<Result<AuditEntry, String>>,
    r: Result<AuditLogger, AuditError>,
)
    requires
        opening_outcome(path, max_memory, max_log_bytes, max_archives, Ok(lines), r),
    ensures
        r is Ok <==> max_log_bytes > 0 && max_archives > 0 && forall|i: int|
            0 <= i < lines@.len() ==> (#[trigger] lines@[i]) is Ok,
        r matches Err(AuditError::InvalidHistory { line, reason }) ==> 1 <= line <= lines@.len()
            && lines@[line - 1] is Err,
        r matches Ok(logger) ==> {
            &&& logger@.len() == (if lines@.len() <= max_memory {
                lines@.len()
            } else {
                max_memory as nat
            })
            &&& forall|k: int|
                0 <= k < logger@.len() ==> (#[trigger] logger@[k]) == lines@[lines@.len()
                    - logger@.len() + k]->Ok_0@
            &&& logger.max_log_bytes == max_log_bytes
            &&& logger.max_archives == max_archives
            &&& logger.max_memory_entries == max_memory
            &&& logger.log_file_path@ == path
        },
{
    if r is Ok {
        assert(all_valid(lines@));
    }
}

/// An entry that is logged is remembered last, unchanged, and nothing but the oldest entry
/// is forgotten for it.
pub proof fn a_logged_entry_is_remembered(memory: Seq<EntryModel>, max: nat, entry: EntryModel)
    ensures
        with_entry(memory, max, entry).len() > 0,
        with_entry(memory, max, entry).last() == entry,
        memory.len() < max ==> with_entry(memory, max, entry).len() == memory.len() + 1,
        memory.len() >= max && memory.len() > 0 ==> with_entry(memory, max, entry).len()
            == memory.len(),
        forall|k: int|
            0 <= k < with_entry(memory, max, entry).len() - 1 ==> (#[trigger] with_entry(
                memory,
                max,
                entry,
            )[k]) == memory[memory.len() - with_entry(memory, max, entry).len() + 1 + k],
{
}

/// An entry of the operator says what was done, to what, when and how it ended, and that
/// the operator did it.
pub proof fn an_entry_says_what_was_done(
    operation: Seq<char>,
    target: Seq<char>,
    status: AuditStatus,
    details: Seq<char>,
    timestamp: UtcTime,
)
    ensures
        admin_model(operation, target, status, details, timestamp).operation == operation,
        admin_model(operation, target, status, details, timestamp).target == target,
        admin_model(operation, target, status, details, timestamp).status == status,
        admin_model(operation, target, status, details, timestamp).details == details,
        admin_model(operation, target, status, details, timestamp).timestamp == timestamp,
        admin_model(operation, target, status, details, timestamp).actor == "WinProfile-Admin"@,
{
}

/// A line that is written fits: the log is rotated exactly where it holds something and
/// would grow past its limit, and a rotation starts the log anew.
pub proof fn a_log_is_rotated_only_where_it_must_be(log_bytes: u64, line_bytes: u64, limit: u64)
    ensures
        must_rotate(log_bytes, line_bytes, limit) <==> log_bytes > 0 && log_bytes + line_bytes
            > limit,
        line_bytes <= limit ==> bytes_after(log_bytes, line_bytes, limit) >= line_bytes,
{
}

} // verus!
