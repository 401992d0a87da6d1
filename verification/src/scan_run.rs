//! A scan and its entry in the journal.
use crate::clock::UtcTime;
use crate::journal::{admin_entry, admin_model, AuditEntry, AuditStatus};
use crate::models::DiagnosticReport;
use crate::text::{cat2, cat3, cat6, dec, decimal, owned};
use vstd::prelude::*;

verus! {

pub const SCAN_OPERATION: &'static str = "ProfileScan";

pub const SCAN_TARGET: &'static str = "System";

/// The audit entry of a scan.
pub fn scan_entry(status: AuditStatus, details: String, timestamp: UtcTime) -> (r: AuditEntry)
    ensures
        r@ == admin_model(SCAN_OPERATION@, SCAN_TARGET@, status, details@, timestamp),
{
    admin_entry(SCAN_OPERATION, SCAN_TARGET, status, details, timestamp)
}

/// Whether a profile of a report needs a look.
pub open spec fn needs_a_look(report: DiagnosticReport) -> bool {
    report.warning_count > 0 || report.corrupted_count > 0
}

/// How a scan is recorded.
pub fn scan_audit_status(report: &DiagnosticReport) -> (r: AuditStatus)
    ensures
        r == (if needs_a_look(*report) {
            AuditStatus::Warning
        } else {
            AuditStatus::Success
        }),
{
    if report.warning_count > 0 || report.corrupted_count > 0 {
        AuditStatus::Warning
    } else {
        AuditStatus::Success
    }
}

/// What is recorded of a report.
pub open spec fn scan_record(report: DiagnosticReport) -> Seq<char> {
    "Discovered "@ + decimal(report.total_count as nat) + " profiles ("@ + decimal(
        report.healthy_count as nat,
    ) + " healthy, "@ + decimal(report.warning_count as nat) + " warnings, "@ + decimal(
        report.corrupted_count as nat,
    ) + " corrupted, "@ + decimal(report.temporary_count as nat) + " temporary transversal)"@
}

pub fn scan_details(report: &DiagnosticReport) -> (r: String)
    ensures
        r@ == scan_record(*report),
{
    let total = dec(report.total_count as u64);
    let healthy = dec(report.healthy_count as u64);
    let warnings = dec(report.warning_count as u64);
    let corrupted = dec(report.corrupted_count as u64);
    let temporary = dec(report.temporary_count as u64);
    let head = cat6(
        "Discovered ",
        total.as_str(),
        " profiles (",
        healthy.as_str(),
        " healthy, ",
        warnings.as_str(),
    );
    cat6(
        head.as_str(),
        " warnings, ",
        corrupted.as_str(),
        " corrupted, ",
        temporary.as_str(),
        " temporary transversal)",
    )
}

/// What a scan is waiting for.
#[derive(Debug)]
pub enum ScanStage {
    Scan,
    /// The entry of a report is being written.
    AuditReport(DiagnosticReport),
    /// The entry of a failure is being written.
    AuditFailure(String),
    Finished,
}

#[derive(Debug)]
pub enum ScanEvent {
    Scanned(Result<DiagnosticReport, String>),
    Audited(Result<(), String>),
}

#[derive(Debug)]
pub enum ScanAction {
    Scan,
    Audit { status: AuditStatus, details: String },
    Finish(Result<DiagnosticReport, String>),
}

/// A scan that is recorded in the journal, whether it succeeds or fails.
#[derive(Debug)]
pub struct ScanRun {
    pub stage: ScanStage,
}

impl ScanStage {
    pub open spec fn expects(self, event: ScanEvent) -> bool {
        match self {
            ScanStage::Scan => event is Scanned,
            ScanStage::AuditReport(_) => event is Audited,
            ScanStage::AuditFailure(_) => event is Audited,
            ScanStage::Finished => false,
        }
    }
}

/// Whether a failure is being recorded.
pub open spec fn records_failure(stage: ScanStage, action: ScanAction, reason: Seq<char>) -> bool {
    &&& stage matches ScanStage::AuditFailure(kept)
    &&& kept@ == reason
    &&& action matches ScanAction::Audit { status, details }
    &&& status is Failed
    &&& details@ == reason
}

/// Whether the scan has ended in an error.
pub open spec fn scan_fails(stage: ScanStage, action: ScanAction, reason: Seq<char>) -> bool {
    &&& stage is Finished
    &&& action matches ScanAction::Finish(Err(e))
    &&& e@ == reason
}

/// What follows an event in a scan. A report counts only once it is in the journal, and
/// a failure is told whether or not its own entry could be written.
pub open spec fn scan_follows(
    before: ScanStage,
    event: ScanEvent,
    after: ScanStage,
    action: ScanAction,
) -> bool {
    match event {
        ScanEvent::Scanned(scanned) => match scanned {
            Ok(report) => {
                &&& after == ScanStage::AuditReport(report)
                &&& action matches ScanAction::Audit { status, details }
                &&& status == (if needs_a_look(report) {
                    AuditStatus::Warning
                } else {
                    AuditStatus::Success
                })
                &&& details@ == scan_record(report)
            },
            Err(reason) => records_failure(after, action, reason@),
        },
        ScanEvent::Audited(audited) => match before {
            ScanStage::AuditReport(report) => match audited {
                Ok(_) => after is Finished && action == ScanAction::Finish(Ok(report)),
                Err(reason) => records_failure(
                    after,
                    action,
                    "scan completed but audit logging failed: "@ + reason@,
                ),
            },
            ScanStage::AuditFailure(reason) => match audited {
                Ok(_) => scan_fails(after, action, reason@),
                Err(audit_error) => scan_fails(
                    after,
                    action,
                    reason@ + "; audit logging also failed: "@ + audit_error@,
                ),
            },
            _ => false,
        },
    }
}

impl ScanRun {
    pub fn start() -> (r: (ScanRun, ScanAction))
        ensures
            r.0.stage is Scan,
            r.1 is Scan,
    {
        (ScanRun { stage: ScanStage::Scan }, ScanAction::Scan)
    }

    fn record_failure(&mut self, reason: String) -> (r: ScanAction)
        ensures
            records_failure(final(self).stage, r, reason@),
    {
        let details = owned(reason.as_str());
        self.stage = ScanStage::AuditFailure(reason);
        ScanAction::Audit { status: AuditStatus::Failed, details: details }
    }

    /// Goes on after an event.
    pub fn step(&mut self, event: ScanEvent) -> (r: ScanAction)
        requires
            old(self).stage.expects(event),
        ensures
            scan_follows(old(self).stage, event, final(self).stage, r),
    {
        let mut stage = ScanStage::Finished;
        std::mem::swap(&mut self.stage, &mut stage);
        match event {
            ScanEvent::Scanned(scanned) => match scanned {
                Ok(report) => {
                    let status = scan_audit_status(&report);
                    let details = scan_details(&report);
                    self.stage = ScanStage::AuditReport(report);
                    ScanAction::Audit { status: status, details: details }
                },
                Err(reason) => self.record_failure(reason),
            },
            ScanEvent::Audited(audited) => match stage {
                ScanStage::AuditReport(report) => match audited {
                    Ok(()) => ScanAction::Finish(Ok(report)),
                    Err(reason) => {
                        let text = cat2(
                            "scan completed but audit logging failed: ",
                            reason.as_str(),
                        );
                        self.record_failure(text)
                    },
                },
                ScanStage::AuditFailure(reason) => match audited {
                    Ok(()) => ScanAction::Finish(Err(reason)),
                    Err(audit_error) => ScanAction::Finish(
                        Err(
                            cat3(
                                reason.as_str(),
                                "; audit logging also failed: ",
                                audit_error.as_str(),
                            ),
                        ),
                    ),
                },
                _ => ScanAction::Scan,
            },
        }
    }
}

/// A scan is handed on only once it is in the journal, and as it was scanned; a scan or a
/// journal that failed is told as a failure. The journal calls a scan a success only where
/// no profile gave cause for a look.
pub proof fn a_scan_is_handed_on_behind_the_journal(
    before: ScanStage,
    event: ScanEvent,
    after: ScanStage,
    action: ScanAction,
)
    requires
        before.expects(event),
        scan_follows(before, event, after, action),
    ensures
        action matches ScanAction::Finish(Ok(report)) ==> before == ScanStage::AuditReport(report)
            && (event matches ScanEvent::Audited(Ok(_))),
        event matches ScanEvent::Scanned(Ok(report)) ==> after == ScanStage::AuditReport(report) && (
        action matches ScanAction::Audit { status, .. } && !(status is Failed) && (
        status is Success <==> report.warning_count == 0 && report.corrupted_count == 0)),
        event matches ScanEvent::Scanned(Err(reason)) ==> (action matches ScanAction::Audit {
            status,
            details,
        } && status is Failed && details@ == reason@),
        before is AuditFailure ==> (action matches ScanAction::Finish(Err(_))),
        before is AuditReport && (event matches ScanEvent::Audited(Err(_))) ==> (
        action matches ScanAction::Audit { status, .. } && status is Failed),
{
}

} // verus!
