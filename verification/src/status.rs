//! What the operator is told about an operation.
use crate::clock::{format_utc, utc_text, UtcTime, AUDIT_VIEW_PATTERN};
use crate::i18n::{arg_views, shown, shown_with, t, t_args, I18nError, I18nManager};
use crate::models::{opt_text, DiagnosticReport};
use crate::operation::OperatorStatusOperation;
use crate::text::{cat3, dec, decimal, join, joined, owned, texts};
use vstd::prelude::*;

verus! {

/// The text of an instant; nothing for one outside the calendar.
pub open spec fn shown_time(at: UtcTime) -> Seq<char> {
    match utc_text(at.seconds as int, at.nanos as int, AUDIT_VIEW_PATTERN@) {
        Some(text) => text,
        None => Seq::empty(),
    }
}

pub fn time_text(at: UtcTime) -> (r: String)
    ensures
        r@ == shown_time(at),
{
    match format_utc(at, AUDIT_VIEW_PATTERN) {
        Some(text) => text,
        None => String::new(),
    }
}

impl OperatorStatusOperation {
    /// The key of the name of the part.
    pub open spec fn key(self) -> Seq<char> {
        match self {
            OperatorStatusOperation::Application => "status.operation.application"@,
            OperatorStatusOperation::Scan => "status.operation.scan"@,
            OperatorStatusOperation::Repair => "status.operation.repair"@,
            OperatorStatusOperation::Migration => "status.operation.migration"@,
            OperatorStatusOperation::TrustedInstaller => "status.operation.trusted_installer"@,
            OperatorStatusOperation::Export => "status.operation.export"@,
            OperatorStatusOperation::Audit => "status.operation.audit"@,
        }
    }

    pub fn localization_key(self) -> (r: &'static str)
        ensures
            r@ == self.key(),
    {
        match self {
            OperatorStatusOperation::Application => "status.operation.application",
            OperatorStatusOperation::Scan => "status.operation.scan",
            OperatorStatusOperation::Repair => "status.operation.repair",
            OperatorStatusOperation::Migration => "status.operation.migration",
            OperatorStatusOperation::TrustedInstaller => "status.operation.trusted_installer",
            OperatorStatusOperation::Export => "status.operation.export",
            OperatorStatusOperation::Audit => "status.operation.audit",
        }
    }
}

/// How an operation stands.
#[derive(Debug, Clone, Copy, PartialEq, Eq, Structural)]
pub enum OperatorStatusOutcome {
    Ready,
    Running,
    Success,
    Warning,
    Failed,
    Cancelled,
}

impl OperatorStatusOutcome {
    /// The key of the word for the outcome.
    pub open spec fn key(self) -> Seq<char> {
        match self {
            OperatorStatusOutcome::Ready => "status.outcome.ready"@,
            OperatorStatusOutcome::Running => "status.outcome.running"@,
            OperatorStatusOutcome::Success => "status.outcome.success"@,
            OperatorStatusOutcome::Warning => "status.outcome.warning"@,
            OperatorStatusOutcome::Failed => "status.outcome.failed"@,
            OperatorStatusOutcome::Cancelled => "status.outcome.cancelled"@,
        }
    }

    pub fn localization_key(self) -> (r: &'static str)
        ensures
            r@ == self.key(),
    {
        match self {
            OperatorStatusOutcome::Ready => "status.outcome.ready",
            OperatorStatusOutcome::Running => "status.outcome.running",
            OperatorStatusOutcome::Success => "status.outcome.success",
            OperatorStatusOutcome::Warning => "status.outcome.warning",
            OperatorStatusOutcome::Failed => "status.outcome.failed",
            OperatorStatusOutcome::Cancelled => "status.outcome.cancelled",
        }
    }
}

/// What the summary is made of.
#[derive(Debug, Clone, PartialEq, Eq)]
pub enum OperatorStatusPayload {
    Localized { key: &'static str, arguments: Vec<(String, String)> },
    ScanSummary { total: usize, warnings: usize, corrupted: usize },
}

#[verifier::ext_equal]
pub enum PayloadModel {
    Localized { key: Seq<char>, arguments: Seq<(Seq<char>, Seq<char>)> },
    ScanSummary { total: nat, warnings: nat, corrupted: nat },
}

pub open spec fn pairs(arguments: Seq<(String, String)>) -> Seq<(Seq<char>, Seq<char>)> {
    arguments.map_values(|a: (String, String)| (a.0@, a.1@))
}

impl View for OperatorStatusPayload {
    type V = PayloadModel;

    open spec fn view(&self) -> PayloadModel {
        match self {
            OperatorStatusPayload::Localized { key, arguments } => PayloadModel::Localized {
                key: key@,
                arguments: pairs(arguments@),
            },
            OperatorStatusPayload::ScanSummary { total, warnings, corrupted } =>
                PayloadModel::ScanSummary {
                    total: *total as nat,
                    warnings: *warnings as nat,
                    corrupted: *corrupted as nat,
                },
        }
    }
}

/// What the operator is told. It is kept untranslated, so that it can be shown again
/// in another locale.
#[derive(Debug, Clone, PartialEq, Eq)]
pub struct OperatorStatus {
    pub operation: OperatorStatusOperation,
    pub outcome: OperatorStatusOutcome,
    pub target: String,
    pub timestamp: UtcTime,
    pub payload: OperatorStatusPayload,
    pub raw_details: Option<String>,
    pub recovery_hint_key: Option<&'static str>,
}

#[verifier::ext_equal]
pub struct StatusModel {
    pub operation: OperatorStatusOperation,
    pub outcome: OperatorStatusOutcome,
    pub target: Seq<char>,
    pub timestamp: UtcTime,
    pub payload: PayloadModel,
    pub raw_details: Option<Seq<char>>,
    pub recovery_hint_key: Option<Seq<char>>,
}

pub open spec fn opt_key(key: Option<&'static str>) -> Option<Seq<char>> {
    match key {
        Some(k) => Some(k@),
        None => None,
    }
}

impl View for OperatorStatus {
    type V = StatusModel;

    open spec fn view(&self) -> StatusModel {
        StatusModel {
            operation: self.operation,
            outcome: self.outcome,
            target: self.target@,
            timestamp: self.timestamp,
            payload: self.payload@,
            raw_details: opt_text(self.raw_details),
            recovery_hint_key: opt_key(self.recovery_hint_key),
        }
    }
}

/// The keys of the lines of the details.
pub open spec fn line(name: Seq<char>, separator: Seq<char>, value: Seq<char>) -> Seq<char> {
    name + separator + value
}

impl StatusModel {
    /// A status with a translated summary.
    pub open spec fn saying(
        operation: OperatorStatusOperation,
        outcome: OperatorStatusOutcome,
        target: Seq<char>,
        timestamp: UtcTime,
        key: Seq<char>,
    ) -> StatusModel {
        StatusModel {
            operation: operation,
            outcome: outcome,
            target: target,
            timestamp: timestamp,
            payload: PayloadModel::Localized { key: key, arguments: Seq::empty() },
            raw_details: None,
            recovery_hint_key: None,
        }
    }

    /// The status of a failure that can be tried again; its reason is kept as it is.
    pub open spec fn failed(
        operation: OperatorStatusOperation,
        target: Seq<char>,
        timestamp: UtcTime,
        reason: Seq<char>,
        hint: Option<Seq<char>>,
    ) -> StatusModel {
        StatusModel {
            raw_details: Some(reason),
            recovery_hint_key: hint,
            ..StatusModel::saying(
                operation,
                OperatorStatusOutcome::Failed,
                target,
                timestamp,
                "status.operator.failed"@,
            )
        }
    }

    /// The same with arguments for the summary.
    pub open spec fn with(self, arguments: Seq<(Seq<char>, Seq<char>)>) -> StatusModel {
        StatusModel {
            payload: match self.payload {
                PayloadModel::Localized { key, .. } => PayloadModel::Localized {
                    key: key,
                    arguments: arguments,
                },
                other => other,
            },
            ..self
        }
    }

    /// The summary.
    pub open spec fn summary(self, bundles: Result<I18nManager, I18nError>) -> Seq<char> {
        match self.payload {
            PayloadModel::Localized { key, arguments } => shown_with(bundles, key, arguments),
            PayloadModel::ScanSummary { total, warnings, corrupted } => shown_with(
                bundles,
                if self.outcome is Warning {
                    "status.scan.warning"@
                } else {
                    "status.scan.success"@
                },
                seq![
                    ("total"@, decimal(total)),
                    ("warnings"@, decimal(warnings)),
                    ("corrupted"@, decimal(corrupted)),
                ],
            ),
        }
    }

    /// The lines of the details.
    pub open spec fn detail_lines(self, bundles: Result<I18nManager, I18nError>) -> Seq<Seq<char>> {
        let lines = seq![
            line(shown(bundles, "status.details.operation"@), ": "@, shown(
                bundles,
                self.operation.key(),
            )),
            line(shown(bundles, "status.details.outcome"@), ": "@, shown(
                bundles,
                self.outcome.key(),
            )),
            line(shown(bundles, "status.details.target"@), ": "@, self.target),
            line(shown(bundles, "status.details.timestamp"@), ": "@, shown_time(self.timestamp)),
            line(shown(bundles, "status.details.summary"@), ": "@, self.summary(bundles)),
        ];
        let lines = match self.raw_details {
            Some(raw) => lines.push(
                line(shown(bundles, "status.details.technical"@), ":\n"@, raw),
            ),
            None => lines,
        };
        match self.recovery_hint_key {
            Some(key) => lines.push(
                line(shown(bundles, "status.details.recovery"@), ": "@, shown(bundles, key)),
            ),
            None => lines,
        }
    }

    /// The details.
    pub open spec fn details(self, bundles: Result<I18nManager, I18nError>) -> Seq<char> {
        joined(self.detail_lines(bundles), "\n"@)
    }
}

/// The status of a scan: a warning where a profile needs a look.
pub open spec fn scan_status(report: DiagnosticReport) -> StatusModel {
    let has_issues = report.warning_count > 0 || report.corrupted_count > 0;
    StatusModel {
        operation: OperatorStatusOperation::Scan,
        outcome: if has_issues {
            OperatorStatusOutcome::Warning
        } else {
            OperatorStatusOutcome::Success
        },
        target: "System"@,
        timestamp: report.timestamp,
        payload: PayloadModel::ScanSummary {
            total: report.total_count as nat,
            warnings: report.warning_count as nat,
            corrupted: report.corrupted_count as nat,
        },
        raw_details: None,
        recovery_hint_key: if has_issues {
            Some("status.recovery.review_issues"@)
        } else {
            None
        },
    }
}

impl OperatorStatus {
    pub fn localized(
        operation: OperatorStatusOperation,
        outcome: OperatorStatusOutcome,
        target: &str,
        timestamp: UtcTime,
        key: &'static str,
        arguments: Vec<(String, String)>,
    ) -> (r: OperatorStatus)
        ensures
            r@ == StatusModel::saying(operation, outcome, target@, timestamp, key@).with(
                pairs(arguments@),
            ),
    {
        OperatorStatus {
            operation: operation,
            outcome: outcome,
            target: owned(target),
            timestamp: timestamp,
            payload: OperatorStatusPayload::Localized { key: key, arguments: arguments },
            raw_details: None,
            recovery_hint_key: None,
        }
    }

    pub fn failure(
        operation: OperatorStatusOperation,
        target: &str,
        timestamp: UtcTime,
        raw_details: &str,
        recovery_hint_key: Option<&'static str>,
    ) -> (r: OperatorStatus)
        ensures
            r@ == StatusModel::failed(
                operation,
                target@,
                timestamp,
                raw_details@,
                opt_key(recovery_hint_key),
            ),
    {
        let arguments: Vec<(String, String)> = Vec::new();
        assert(pairs(arguments@) =~= Seq::<(Seq<char>, Seq<char>)>::empty());
        OperatorStatus {
            operation: operation,
            outcome: OperatorStatusOutcome::Failed,
            target: owned(target),
            timestamp: timestamp,
            payload: OperatorStatusPayload::Localized {
                key: "status.operator.failed",
                arguments: arguments,
            },
            raw_details: Some(owned(raw_details)),
            recovery_hint_key: recovery_hint_key,
        }
    }

    pub fn scan_completed(report: &DiagnosticReport) -> (r: OperatorStatus)
        ensures
            r@ == scan_status(*report),
    {
        let has_issues = report.warning_count > 0 || report.corrupted_count > 0;
        OperatorStatus {
            operation: OperatorStatusOperation::Scan,
            outcome: if has_issues {
                OperatorStatusOutcome::Warning
            } else {
                OperatorStatusOutcome::Success
            },
            target: owned("System"),
            timestamp: report.timestamp,
            payload: OperatorStatusPayload::ScanSummary {
                total: report.total_count,
                warnings: report.warning_count,
                corrupted: report.corrupted_count,
            },
            raw_details: None,
            recovery_hint_key: if has_issues {
                Some("status.recovery.review_issues")
            } else {
                None
            },
        }
    }

    pub fn render_summary(&self, bundles: &Result<I18nManager, I18nError>) -> (r: String)
        ensures
            r@ == self@.summary(*bundles),
    {
        match &self.payload {
            OperatorStatusPayload::Localized { key, arguments } => {
                let mut borrowed: Vec<(&str, &str)> = Vec::new();
                let mut i: usize = 0;
                while i < arguments.len()
                    invariant
                        i <= arguments@.len(),
                        borrowed@.len() == i,
                        forall|k: int|
                            0 <= k < i ==> (#[trigger] borrowed@[k]).0@ == arguments@[k].0@
                                && borrowed@[k].1@ == arguments@[k].1@,
                    decreases arguments.len() - i,
                {
                    borrowed.push((arguments[i].0.as_str(), arguments[i].1.as_str()));
                    i += 1;
                }
                assert(arg_views(borrowed@) =~= pairs(arguments@));
                t_args(bundles, key, borrowed.as_slice())
            },
            OperatorStatusPayload::ScanSummary { total, warnings, corrupted } => {
                let total = dec(*total as u64);
                let warnings = dec(*warnings as u64);
                let corrupted = dec(*corrupted as u64);
                let key = if self.outcome == OperatorStatusOutcome::Warning {
                    "status.scan.warning"
                } else {
                    "status.scan.success"
                };
                let arguments = [
                    ("total", total.as_str()),
                    ("warnings", warnings.as_str()),
                    ("corrupted", corrupted.as_str()),
                ];
                assert(arg_views(arguments@) =~= seq![
                    ("total"@, total@),
                    ("warnings"@, warnings@),
                    ("corrupted"@, corrupted@),
                ]);
                t_args(bundles, key, &arguments)
            },
        }
    }

    pub fn render_details(&self, bundles: &Result<I18nManager, I18nError>) -> (r: String)
        ensures
            r@ == self@.details(*bundles),
    {
        let mut lines: Vec<String> = Vec::new();
        let operation = t(bundles, self.operation.localization_key());
        let outcome = t(bundles, self.outcome.localization_key());
        let time = time_text(self.timestamp);
        let summary = self.render_summary(bundles);
        push_line(&mut lines, bundles, "status.details.operation", ": ", operation.as_str());
        push_line(&mut lines, bundles, "status.details.outcome", ": ", outcome.as_str());
        push_line(&mut lines, bundles, "status.details.target", ": ", self.target.as_str());
        push_line(&mut lines, bundles, "status.details.timestamp", ": ", time.as_str());
        push_line(&mut lines, bundles, "status.details.summary", ": ", summary.as_str());
        match &self.raw_details {
            Some(raw) => {
                push_line(&mut lines, bundles, "status.details.technical", ":\n", raw.as_str());
            },
            None => {},
        }
        match self.recovery_hint_key {
            Some(key) => {
                let hint = t(bundles, key);
                push_line(&mut lines, bundles, "status.details.recovery", ": ", hint.as_str());
            },
            None => {},
        }
        assert(texts(lines@) =~= self@.detail_lines(*bundles));
        join(&lines, "\n")
    }

    pub fn copy(&self) -> (r: OperatorStatus)
        ensures
            r@ == self@,
    {
        let payload = match &self.payload {
            OperatorStatusPayload::Localized { key, arguments } => {
                OperatorStatusPayload::Localized { key: key, arguments: copy_pairs(arguments) }
            },
            OperatorStatusPayload::ScanSummary { total, warnings, corrupted } => {
                OperatorStatusPayload::ScanSummary {
                    total: *total,
                    warnings: *warnings,
                    corrupted: *corrupted,
                }
            },
        };
        OperatorStatus {
            operation: self.operation,
            outcome: self.outcome,
            target: owned(self.target.as_str()),
            timestamp: self.timestamp,
            payload: payload,
            raw_details: match &self.raw_details {
                Some(raw) => Some(owned(raw.as_str())),
                None => None,
            },
            recovery_hint_key: self.recovery_hint_key,
        }
    }
}

fn push_line(
    lines: &mut Vec<String>,
    bundles: &Result<I18nManager, I18nError>,
    key: &str,
    separator: &str,
    value: &str,
)
    ensures
        texts(final(lines)@) == texts(old(lines)@).push(
            line(shown(*bundles, key@), separator@, value@),
        ),
{
    let name = t(bundles, key);
    lines.push(cat3(name.as_str(), separator, value));
    assert(texts(lines@) =~= texts(old(lines)@).push(
        line(shown(*bundles, key@), separator@, value@),
    ));
}

fn copy_pairs(arguments: &Vec<(String, String)>) -> (r: Vec<(String, String)>)
    ensures
        pairs(r@) == pairs(arguments@),
{
    let mut out: Vec<(String, String)> = Vec::new();
    let mut i: usize = 0;
    while i < arguments.len()
        invariant
            i <= arguments@.len(),
            out@.len() == i,
            forall|k: int|
                0 <= k < i ==> (#[trigger] out@[k]).0@ == arguments@[k].0@ && out@[k].1@
                    == arguments@[k].1@,
        decreases arguments.len() - i,
    {
        out.push((owned(arguments[i].0.as_str()), owned(arguments[i].1.as_str())));
        i += 1;
    }
    assert(pairs(out@) =~= pairs(arguments@));
    out
}

/// Whether a text holds another.
pub open spec fn holds(text: Seq<char>, part: Seq<char>) -> bool {
    exists|before: Seq<char>, after: Seq<char>| text == #[trigger] (before + part + after)
}

/// Whatever the locale, the details show the technical reason as it is.
pub proof fn reason_is_shown_as_it_is(
    status: StatusModel,
    reason: Seq<char>,
    bundles: Result<I18nManager, I18nError>,
)
    requires
        status.raw_details == Some(reason),
    ensures
        holds(status.details(bundles), reason),
{
    let all = status.detail_lines(bundles);
    let head = all.take(5);
    let name = shown(bundles, "status.details.technical"@);
    let upto = all.take(6);
    assert(upto.drop_last() =~= head);
    assert(upto.last() == name + ":\n"@ + reason);
    let before = joined(head, "\n"@) + "\n"@ + name + ":\n"@;
    assert(joined(upto, "\n"@) =~= before + reason);
    if status.recovery_hint_key is Some {
        assert(all.drop_last() =~= upto);
        let after = "\n"@ + all.last();
        assert(status.details(bundles) =~= before + reason + after);
    } else {
        assert(all =~= upto);
        assert(status.details(bundles) =~= before + reason + Seq::empty());
    }
}

/// Parts of the application and outcomes are told apart by the keys of their names.
pub proof fn statuses_are_told_apart(
    a: OperatorStatusOperation,
    b: OperatorStatusOperation,
    x: OperatorStatusOutcome,
    y: OperatorStatusOutcome,
)
    ensures
        a.key() == b.key() <==> a == b,
        x.key() == y.key() <==> x == y,
        x is Success <==> x.key() == "status.outcome.success"@,
        x is Failed <==> x.key() == "status.outcome.failed"@,
        x is Warning <==> x.key() == "status.outcome.warning"@,
        x is Cancelled <==> x.key() == "status.outcome.cancelled"@,
        x is Running <==> x.key() == "status.outcome.running"@,
        x is Ready <==> x.key() == "status.outcome.ready"@,
{
    reveal_strlit("status.operation.application");
    reveal_strlit("status.operation.scan");
    reveal_strlit("status.operation.repair");
    reveal_strlit("status.operation.migration");
    reveal_strlit("status.operation.trusted_installer");
    reveal_strlit("status.operation.export");
    reveal_strlit("status.operation.audit");
    reveal_strlit("status.outcome.ready");
    reveal_strlit("status.outcome.running");
    reveal_strlit("status.outcome.success");
    reveal_strlit("status.outcome.warning");
    reveal_strlit("status.outcome.failed");
    reveal_strlit("status.outcome.cancelled");
    assert("status.operation.application"@[17] == 'a' && "status.operation.application"@[18] == 'p');
    assert("status.operation.scan"@[17] == 's' && "status.operation.scan"@[18] == 'c');
    assert("status.operation.repair"@[17] == 'r' && "status.operation.repair"@[18] == 'e');
    assert("status.operation.migration"@[17] == 'm' && "status.operation.migration"@[18] == 'i');
    assert("status.operation.trusted_installer"@[17] == 't' && "status.operation.trusted_installer"@[18] == 'r');
    assert("status.operation.export"@[17] == 'e' && "status.operation.export"@[18] == 'x');
    assert("status.operation.audit"@[17] == 'a' && "status.operation.audit"@[18] == 'u');
    assert("status.outcome.ready"@[15] == 'r' && "status.outcome.ready"@[16] == 'e');
    assert("status.outcome.running"@[15] == 'r' && "status.outcome.running"@[16] == 'u');
    assert("status.outcome.success"@[15] == 's' && "status.outcome.success"@[16] == 'u');
    assert("status.outcome.warning"@[15] == 'w' && "status.outcome.warning"@[16] == 'a');
    assert("status.outcome.failed"@[15] == 'f' && "status.outcome.failed"@[16] == 'a');
    assert("status.outcome.cancelled"@[15] == 'c' && "status.outcome.cancelled"@[16] == 'a');
}

/// A scan is told as a warning exactly where a profile needs a look, with the counts of its
/// report and a hint to look; otherwise as a success without one.
pub proof fn a_scan_is_told_as_it_went(report: DiagnosticReport)
    ensures
        scan_status(report).operation is Scan,
        scan_status(report).outcome is Warning <==> report.warning_count > 0
            || report.corrupted_count > 0,
        scan_status(report).outcome is Success <==> report.warning_count == 0
            && report.corrupted_count == 0,
        scan_status(report).recovery_hint_key is Some <==> scan_status(report).outcome is Warning,
        scan_status(report).timestamp == report.timestamp,
        scan_status(report).payload matches PayloadModel::ScanSummary {
            total,
            warnings,
            corrupted,
        } && total == report.total_count && warnings == report.warning_count && corrupted
            == report.corrupted_count,
{
}

/// A failure is told as one, with its reason as it is.
pub proof fn a_failure_is_told_as_one(
    operation: OperatorStatusOperation,
    target: Seq<char>,
    timestamp: UtcTime,
    reason: Seq<char>,
    hint: Option<Seq<char>>,
)
    ensures
        StatusModel::failed(operation, target, timestamp, reason, hint).outcome is Failed,
        StatusModel::failed(operation, target, timestamp, reason, hint).operation == operation,
        StatusModel::failed(operation, target, timestamp, reason, hint).target == target,
        StatusModel::failed(operation, target, timestamp, reason, hint).timestamp == timestamp,
        StatusModel::failed(operation, target, timestamp, reason, hint).raw_details == Some(reason),
        StatusModel::failed(operation, target, timestamp, reason, hint).recovery_hint_key == hint,
{
}

proof fn lemma_joined_holds(parts: Seq<Seq<char>>, separator: Seq<char>, i: int)
    requires
        0 <= i < parts.len(),
    ensures
        holds(joined(parts, separator), parts[i]),
    decreases parts.len(),
{
    let none = Seq::<char>::empty();
    let all = joined(parts, separator);
    if i == parts.len() - 1 {
        if parts.len() == 1 {
            assert(all =~= none + parts[i] + none);
        } else {
            let before = joined(parts.drop_last(), separator) + separator;
            assert(all =~= before + parts[i] + none);
        }
    } else {
        lemma_joined_holds(parts.drop_last(), separator, i);
        assert(parts.drop_last()[i] == parts[i]);
        let front = joined(parts.drop_last(), separator);
        let (before, after) = choose|before: Seq<char>, after: Seq<char>|
            front == #[trigger] (before + parts[i] + after);
        assert(all =~= before + parts[i] + (after + separator + parts.last()));
    }
}

proof fn lemma_held_in_held(text: Seq<char>, name: Seq<char>, separator: Seq<char>, value: Seq<char>)
    requires
        holds(text, line(name, separator, value)),
    ensures
        holds(text, name),
        holds(text, value),
{
    let whole = line(name, separator, value);
    let (before, after) = choose|before: Seq<char>, after: Seq<char>|
        text == #[trigger] (before + whole + after);
    assert(text =~= before + name + (separator + value + after));
    assert(text =~= (before + name + separator) + value + after);
}

/// The details of a status tell all of it: the part of the application, how it stands, what
/// it is about, when, the summary, the technical reason and the hint, as far as there are.
pub proof fn details_tell_the_whole_status(
    status: StatusModel,
    bundles: Result<I18nManager, I18nError>,
)
    ensures
        holds(status.details(bundles), shown(bundles, status.operation.key())),
        holds(status.details(bundles), shown(bundles, status.outcome.key())),
        holds(status.details(bundles), status.target),
        holds(status.details(bundles), shown_time(status.timestamp)),
        holds(status.details(bundles), status.summary(bundles)),
        status.raw_details matches Some(reason) ==> holds(status.details(bundles), reason),
        status.recovery_hint_key matches Some(key) ==> holds(
            status.details(bundles),
            shown(bundles, key),
        ),
{
    let all = status.detail_lines(bundles);
    let text = status.details(bundles);
    lemma_joined_holds(all, "\n"@, 0);
    lemma_joined_holds(all, "\n"@, 1);
    lemma_joined_holds(all, "\n"@, 2);
    lemma_joined_holds(all, "\n"@, 3);
    lemma_joined_holds(all, "\n"@, 4);
    lemma_held_in_held(
        text,
        shown(bundles, "status.details.operation"@),
        ": "@,
        shown(bundles, status.operation.key()),
    );
    lemma_held_in_held(
        text,
        shown(bundles, "status.details.outcome"@),
        ": "@,
        shown(bundles, status.outcome.key()),
    );
    lemma_held_in_held(text, shown(bundles, "status.details.target"@), ": "@, status.target);
    lemma_held_in_held(
        text,
        shown(bundles, "status.details.timestamp"@),
        ": "@,
        shown_time(status.timestamp),
    );
    lemma_held_in_held(
        text,
        shown(bundles, "status.details.summary"@),
        ": "@,
        status.summary(bundles),
    );
    match status.raw_details {
        Some(reason) => {
            lemma_joined_holds(all, "\n"@, 5);
            lemma_held_in_held(text, shown(bundles, "status.details.technical"@), ":\n"@, reason);
        },
        None => {},
    }
    match status.recovery_hint_key {
        Some(key) => {
            lemma_joined_holds(all, "\n"@, all.len() - 1);
            lemma_held_in_held(
                text,
                shown(bundles, "status.details.recovery"@),
                ": "@,
                shown(bundles, key),
            );
        },
        None => {},
    }
}

} // verus!
