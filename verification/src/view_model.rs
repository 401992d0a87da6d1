//! Profiles and audit entries as they are shown.
use crate::i18n::{shown, t, I18nError, I18nManager};
use crate::journal::{AuditEntry, AuditStatus};
use crate::models::{
    anomaly_models, describe_anomalies, AnomalyModel, ProfileAnomaly, ProfileHealth, ProfileModel, UserProfile,
};
use crate::status::{shown_time, time_text};
use crate::text::{
    ascii_upper, cat2, clone_texts, hex_number, hex_padded, join, joined, owned, texts,
    to_ascii_upper,
};
use vstd::prelude::*;

verus! {

/// The repairs that a profile's anomalies call for.
#[derive(Debug, Clone, Copy, PartialEq, Eq, Structural)]
pub struct RepairSuggestions {
    pub fix_bak: bool,
    pub reset_state: bool,
}

/// Whether an anomaly of some kind is among others.
pub open spec fn has_bak_suffix(anomalies: Seq<AnomalyModel>) -> bool {
    exists|i: int| 0 <= i < anomalies.len() && (#[trigger] anomalies[i]) is BakSuffix
}

pub open spec fn has_dirty_state(anomalies: Seq<AnomalyModel>) -> bool {
    exists|i: int| 0 <= i < anomalies.len() && (#[trigger] anomalies[i]) is DirtyStateMask
}

pub open spec fn has_failed_inspection(anomalies: Seq<AnomalyModel>) -> bool {
    exists|i: int| 0 <= i < anomalies.len() && (#[trigger] anomalies[i]) is LockInspectionFailure
}

/// The repairs to suggest: each only for the anomaly that it repairs.
pub fn repair_suggestions(profile: &UserProfile) -> (r: RepairSuggestions)
    ensures
        r.fix_bak == has_bak_suffix(profile@.anomalies),
        r.reset_state == has_dirty_state(profile@.anomalies),
{
    let ghost all = profile@.anomalies;
    let mut fix_bak = false;
    let mut reset_state = false;
    let mut i: usize = 0;
    while i < profile.anomalies.len()
        invariant
            i <= profile.anomalies@.len(),
            all == anomaly_models(profile.anomalies@),
            fix_bak == exists|k: int| 0 <= k < i && (#[trigger] all[k]) is BakSuffix,
            reset_state == exists|k: int| 0 <= k < i && (#[trigger] all[k]) is DirtyStateMask,
        decreases profile.anomalies.len() - i,
    {
        assert(all[i as int] == profile.anomalies@[i as int]@);
        match profile.anomalies[i] {
            ProfileAnomaly::BakSuffix => {
                fix_bak = true;
            },
            ProfileAnomaly::DirtyStateMask(_) => {
                reset_state = true;
            },
            _ => {},
        }
        i += 1;
    }
    RepairSuggestions { fix_bak: fix_bak, reset_state: reset_state }
}

/// The processes that lock a hive, over all anomalies.
pub open spec fn lockers(anomalies: Seq<AnomalyModel>) -> Seq<Seq<char>>
    decreases anomalies.len(),
{
    if anomalies.len() == 0 {
        Seq::empty()
    } else {
        let before = lockers(anomalies.drop_last());
        match anomalies.last() {
            AnomalyModel::LockedNtUserDat(processes) => before + processes,
            _ => before,
        }
    }
}

pub fn locking_processes(profile: &UserProfile) -> (r: Vec<String>)
    ensures
        texts(r@) == lockers(profile@.anomalies),
{
    let ghost all = profile@.anomalies;
    let mut out: Vec<String> = Vec::new();
    let mut i: usize = 0;
    assert(all.take(0) =~= Seq::<AnomalyModel>::empty());
    assert(texts(out@) =~= lockers(all.take(0)));
    while i < profile.anomalies.len()
        invariant
            i <= profile.anomalies@.len(),
            all == anomaly_models(profile.anomalies@),
            texts(out@) == lockers(all.take(i as int)),
        decreases profile.anomalies.len() - i,
    {
        assert(all.take(i + 1).drop_last() =~= all.take(i as int));
        assert(all.take(i + 1).last() == profile.anomalies@[i as int]@);
        match &profile.anomalies[i] {
            ProfileAnomaly::LockedNtUserDat(processes) => {
                let ghost before = texts(out@);
                let mut more = clone_texts(processes);
                let ghost added = more@;
                let ghost had = out@;
                out.append(&mut more);
                assert(out@ =~= had + added);
                assert(texts(out@) =~= before + texts(processes@));
            },
            _ => {},
        }
        i += 1;
    }
    assert(all.take(all.len() as int) =~= all);
    out
}

/// Why the locks could not be inspected, by the first anomaly that says so.
pub open spec fn inspection_failure(anomalies: Seq<AnomalyModel>) -> Option<Seq<char>>
    decreases anomalies.len(),
{
    if anomalies.len() == 0 {
        None
    } else {
        match anomalies[0] {
            AnomalyModel::LockInspectionFailure(details) => Some(details),
            _ => inspection_failure(anomalies.skip(1)),
        }
    }
}

pub fn lock_inspection_failure(profile: &UserProfile) -> (r: Option<&str>)
    ensures
        match r {
            Some(text) => inspection_failure(profile@.anomalies) == Some(text@),
            None => inspection_failure(profile@.anomalies) is None,
        },
        r is Some <==> has_failed_inspection(profile@.anomalies),
{
    let ghost all = profile@.anomalies;
    let mut i: usize = 0;
    assert(all.skip(0) =~= all);
    while i < profile.anomalies.len()
        invariant
            i <= profile.anomalies@.len(),
            all == anomaly_models(profile.anomalies@),
            inspection_failure(all) == inspection_failure(all.skip(i as int)),
            forall|k: int| 0 <= k < i ==> !((#[trigger] all[k]) is LockInspectionFailure),
        decreases profile.anomalies.len() - i,
    {
        assert(all.skip(i as int)[0] == profile.anomalies@[i as int]@);
        assert(all.skip(i as int).skip(1) =~= all.skip(i + 1));
        assert(all[i as int] == profile.anomalies@[i as int]@);
        match &profile.anomalies[i] {
            ProfileAnomaly::LockInspectionFailure(details) => {
                return Some(details.as_str());
            },
            _ => {},
        }
        i += 1;
    }
    None
}

// ---------------------------------------------------------------------------
// Issues
// ---------------------------------------------------------------------------

/// An anomaly as it is listed: a code, a description, and the technical details as
/// they were found.
#[derive(Debug, Clone, PartialEq, Eq)]
pub struct ProfileIssue {
    pub code: &'static str,
    pub description: String,
    pub technical_details: String,
}

#[verifier::ext_equal]
pub struct IssueModel {
    pub code: Seq<char>,
    pub description: Seq<char>,
    pub technical_details: Seq<char>,
}

impl View for ProfileIssue {
    type V = IssueModel;

    open spec fn view(&self) -> IssueModel {
        IssueModel {
            code: self.code@,
            description: self.description@,
            technical_details: self.technical_details@,
        }
    }
}

pub open spec fn issue_models(issues: Seq<ProfileIssue>) -> Seq<IssueModel> {
    issues.map_values(|issue: ProfileIssue| issue@)
}

/// How a state mask is written.
pub open spec fn mask_text(mask: u32) -> Seq<char> {
    "0x"@ + ascii_upper(hex_padded(mask as nat, 4))
}

pub fn state_text(mask: u32) -> (r: String)
    ensures
        r@ == mask_text(mask),
{
    let digits = hex_number(mask as u64, 4);
    let upper = to_ascii_upper(digits.as_str());
    cat2("0x", upper.as_str())
}

impl AnomalyModel {
    /// The code by which the anomaly is listed.
    pub open spec fn code(self) -> Seq<char> {
        match self {
            AnomalyModel::BakSuffix => "BAK_SUFFIX"@,
            AnomalyModel::TempSession => "TEMP_SESSION"@,
            AnomalyModel::OrphanSid => "ORPHAN_SID"@,
            AnomalyModel::PathCollision(_) => "PATH_COLLISION"@,
            AnomalyModel::DirtyStateMask(_) => "DIRTY_STATE_MASK"@,
            AnomalyModel::LockedNtUserDat(_) => "LOCKED_NTUSER_DAT"@,
            AnomalyModel::MissingDirectory(_) => "MISSING_DIRECTORY"@,
            AnomalyModel::RegistryReadFailure(_) => "REGISTRY_READ_FAILURE"@,
            AnomalyModel::SidResolutionFailure(_) => "SID_RESOLUTION_FAILURE"@,
            AnomalyModel::FilesystemScanFailure(_) => "FILESYSTEM_SCAN_FAILURE"@,
            AnomalyModel::LockInspectionFailure(_) => "LOCK_INSPECTION_FAILURE"@,
        }
    }

    /// What was found, as it was found.
    pub open spec fn raw(self) -> Seq<char> {
        match self {
            AnomalyModel::BakSuffix | AnomalyModel::TempSession | AnomalyModel::OrphanSid =>
                Seq::empty(),
            AnomalyModel::PathCollision(text) | AnomalyModel::MissingDirectory(text)
            | AnomalyModel::RegistryReadFailure(text) | AnomalyModel::SidResolutionFailure(text)
            | AnomalyModel::FilesystemScanFailure(text)
            | AnomalyModel::LockInspectionFailure(text) => text,
            AnomalyModel::DirtyStateMask(mask) => mask_text(mask),
            AnomalyModel::LockedNtUserDat(processes) => joined(processes, "; "@),
        }
    }
}

/// The issue that an anomaly is listed as.
pub open spec fn issue_of(anomaly: AnomalyModel, bundles: Result<I18nManager, I18nError>) -> IssueModel {
    IssueModel {
        code: anomaly.code(),
        description: shown(bundles, anomaly.description_key()),
        technical_details: anomaly.raw(),
    }
}

fn issue(anomaly: &ProfileAnomaly, bundles: &Result<I18nManager, I18nError>) -> (r: ProfileIssue)
    ensures
        r@ == issue_of(anomaly@, *bundles),
{
    let code: &'static str = match anomaly {
        ProfileAnomaly::BakSuffix => "BAK_SUFFIX",
        ProfileAnomaly::TempSession => "TEMP_SESSION",
        ProfileAnomaly::OrphanSid => "ORPHAN_SID",
        ProfileAnomaly::PathCollision(_) => "PATH_COLLISION",
        ProfileAnomaly::DirtyStateMask(_) => "DIRTY_STATE_MASK",
        ProfileAnomaly::LockedNtUserDat(_) => "LOCKED_NTUSER_DAT",
        ProfileAnomaly::MissingDirectory(_) => "MISSING_DIRECTORY",
        ProfileAnomaly::RegistryReadFailure(_) => "REGISTRY_READ_FAILURE",
        ProfileAnomaly::SidResolutionFailure(_) => "SID_RESOLUTION_FAILURE",
        ProfileAnomaly::FilesystemScanFailure(_) => "FILESYSTEM_SCAN_FAILURE",
        ProfileAnomaly::LockInspectionFailure(_) => "LOCK_INSPECTION_FAILURE",
    };
    let raw = match anomaly {
        ProfileAnomaly::BakSuffix => String::new(),
        ProfileAnomaly::TempSession => String::new(),
        ProfileAnomaly::OrphanSid => String::new(),
        ProfileAnomaly::PathCollision(text) => owned(text.as_str()),
        ProfileAnomaly::DirtyStateMask(mask) => state_text(*mask),
        ProfileAnomaly::LockedNtUserDat(processes) => join(processes, "; "),
        ProfileAnomaly::MissingDirectory(text) => owned(text.as_str()),
        ProfileAnomaly::RegistryReadFailure(text) => owned(text.as_str()),
        ProfileAnomaly::SidResolutionFailure(text) => owned(text.as_str()),
        ProfileAnomaly::FilesystemScanFailure(text) => owned(text.as_str()),
        ProfileAnomaly::LockInspectionFailure(text) => owned(text.as_str()),
    };
    ProfileIssue {
        code: code,
        description: anomaly.localized_description(bundles),
        technical_details: raw,
    }
}

/// The issues of a profile, one for each anomaly.
pub open spec fn issues_of(
    anomalies: Seq<AnomalyModel>,
    bundles: Result<I18nManager, I18nError>,
) -> Seq<IssueModel> {
    anomalies.map_values(|anomaly: AnomalyModel| issue_of(anomaly, bundles))
}

pub fn profile_issues(profile: &UserProfile, bundles: &Result<I18nManager, I18nError>) -> (r: Vec<
    ProfileIssue,
>)
    ensures
        issue_models(r@) == issues_of(profile@.anomalies, *bundles),
{
    let mut out: Vec<ProfileIssue> = Vec::new();
    let mut i: usize = 0;
    while i < profile.anomalies.len()
        invariant
            i <= profile.anomalies@.len(),
            out@.len() == i,
            forall|k: int|
                0 <= k < i ==> (#[trigger] out@[k])@ == issue_of(
                    profile.anomalies@[k]@,
                    *bundles,
                ),
        decreases profile.anomalies.len() - i,
    {
        out.push(issue(&profile.anomalies[i], bundles));
        i += 1;
    }
    assert(issue_models(out@) =~= issues_of(profile@.anomalies, *bundles));
    out
}

pub fn copy_issues(issues: &Vec<ProfileIssue>) -> (r: Vec<ProfileIssue>)
    ensures
        issue_models(r@) == issue_models(issues@),
{
    let mut out: Vec<ProfileIssue> = Vec::new();
    let mut i: usize = 0;
    while i < issues.len()
        invariant
            i <= issues@.len(),
            out@.len() == i,
            forall|k: int| 0 <= k < i ==> (#[trigger] out@[k])@ == issues@[k]@,
        decreases issues.len() - i,
    {
        out.push(
            ProfileIssue {
                code: issues[i].code,
                description: owned(issues[i].description.as_str()),
                technical_details: owned(issues[i].technical_details.as_str()),
            },
        );
        i += 1;
    }
    assert(issue_models(out@) =~= issue_models(issues@));
    out
}

// ---------------------------------------------------------------------------
// Rows
// ---------------------------------------------------------------------------

/// A row of the inventory.
#[derive(Debug, Clone, PartialEq, Eq)]
pub struct ProfileEntry {
    pub sid: String,
    pub canonical_sid: String,
    pub username: String,
    pub domain: String,
    pub profile_path: String,
    pub status_text: String,
    pub health_type: i32,
    pub loaded: bool,
    pub is_bak: bool,
    pub suggest_fix_bak: bool,
    pub suggest_reset_state: bool,
    pub locking_processes: Vec<String>,
    pub has_locking_processes: bool,
    pub lock_inspection_failure: String,
    pub repair_blocked_by_lock_inspection: bool,
    pub state_raw: String,
    pub anomalies: String,
    pub issues: Vec<ProfileIssue>,
}

#[verifier::ext_equal]
pub struct RowModel {
    pub sid: Seq<char>,
    pub canonical_sid: Seq<char>,
    pub username: Seq<char>,
    pub domain: Seq<char>,
    pub profile_path: Seq<char>,
    pub status_text: Seq<char>,
    pub health_type: i32,
    pub loaded: bool,
    pub is_bak: bool,
    pub suggest_fix_bak: bool,
    pub suggest_reset_state: bool,
    pub locking_processes: Seq<Seq<char>>,
    pub has_locking_processes: bool,
    pub lock_inspection_failure: Seq<char>,
    pub repair_blocked_by_lock_inspection: bool,
    pub state_raw: Seq<char>,
    pub anomalies: Seq<char>,
    pub issues: Seq<IssueModel>,
}

impl View for ProfileEntry {
    type V = RowModel;

    open spec fn view(&self) -> RowModel {
        RowModel {
            sid: self.sid@,
            canonical_sid: self.canonical_sid@,
            username: self.username@,
            domain: self.domain@,
            profile_path: self.profile_path@,
            status_text: self.status_text@,
            health_type: self.health_type,
            loaded: self.loaded,
            is_bak: self.is_bak,
            suggest_fix_bak: self.suggest_fix_bak,
            suggest_reset_state: self.suggest_reset_state,
            locking_processes: texts(self.locking_processes@),
            has_locking_processes: self.has_locking_processes,
            lock_inspection_failure: self.lock_inspection_failure@,
            repair_blocked_by_lock_inspection: self.repair_blocked_by_lock_inspection,
            state_raw: self.state_raw@,
            anomalies: self.anomalies@,
            issues: issue_models(self.issues@),
        }
    }
}

pub open spec fn row_models(rows: Seq<ProfileEntry>) -> Seq<RowModel> {
    rows.map_values(|row: ProfileEntry| row@)
}

/// The number that stands for a health.
pub open spec fn health_number(health: ProfileHealth) -> i32 {
    match health {
        ProfileHealth::Healthy => 0,
        ProfileHealth::Warning => 1,
        ProfileHealth::Corrupted => 2,
    }
}

/// The descriptions of anomalies in the locale in use.
pub open spec fn descriptions(
    anomalies: Seq<AnomalyModel>,
    bundles: Result<I18nManager, I18nError>,
) -> Seq<Seq<char>> {
    anomalies.map_values(|anomaly: AnomalyModel| shown(bundles, anomaly.description_key()))
}

/// The row of a profile.
pub open spec fn row_of(profile: ProfileModel, bundles: Result<I18nManager, I18nError>) -> RowModel {
    let list = joined(descriptions(profile.anomalies, bundles), "; "@);
    RowModel {
        sid: profile.sid,
        canonical_sid: profile.canonical_sid,
        username: profile.username,
        domain: profile.domain,
        profile_path: profile.profile_path,
        status_text: if profile.anomalies.len() == 0 {
            shown(bundles, "profile.status.healthy"@)
        } else {
            list
        },
        health_type: health_number(profile.health),
        loaded: profile.loaded,
        is_bak: profile.is_bak,
        suggest_fix_bak: has_bak_suffix(profile.anomalies),
        suggest_reset_state: has_dirty_state(profile.anomalies),
        locking_processes: lockers(profile.anomalies),
        has_locking_processes: lockers(profile.anomalies).len() > 0,
        lock_inspection_failure: match inspection_failure(profile.anomalies) {
            Some(details) => details,
            None => Seq::empty(),
        },
        repair_blocked_by_lock_inspection: lockers(profile.anomalies).len() > 0
            || has_failed_inspection(profile.anomalies),
        state_raw: mask_text(profile.state_mask),
        anomalies: list,
        issues: issues_of(profile.anomalies, bundles),
    }
}

/// The row of a profile.
pub fn user_profile_to_slint(profile: &UserProfile, bundles: &Result<I18nManager, I18nError>) -> (r:
    ProfileEntry)
    ensures
        r@ == row_of(profile@, *bundles),
{
    let described = describe_anomalies(&profile.anomalies, bundles);
    assert(texts(described@) =~= descriptions(profile@.anomalies, *bundles));
    let list = join(&described, "; ");
    let status = if profile.anomalies.len() == 0 {
        t(bundles, "profile.status.healthy")
    } else {
        owned(list.as_str())
    };
    let suggestions = repair_suggestions(profile);
    let locking = locking_processes(profile);
    let has_locking = locking.len() > 0;
    let found = lock_inspection_failure(profile);
    let failed = found.is_some();
    let failure = match found {
        Some(text) => owned(text),
        None => String::new(),
    };
    let health: i32 = match profile.health {
        ProfileHealth::Healthy => 0,
        ProfileHealth::Warning => 1,
        ProfileHealth::Corrupted => 2,
    };
    let entry = ProfileEntry {
        sid: owned(profile.sid.as_str()),
        canonical_sid: owned(profile.canonical_sid.as_str()),
        username: owned(profile.username.as_str()),
        domain: owned(profile.domain.as_str()),
        profile_path: owned(profile.profile_path.as_str()),
        status_text: status,
        health_type: health,
        loaded: profile.loaded,
        is_bak: profile.is_bak,
        suggest_fix_bak: suggestions.fix_bak,
        suggest_reset_state: suggestions.reset_state,
        locking_processes: locking,
        has_locking_processes: has_locking,
        lock_inspection_failure: failure,
        repair_blocked_by_lock_inspection: has_locking || failed,
        state_raw: state_text(profile.state_mask),
        anomalies: list,
        issues: profile_issues(profile, bundles),
    };
    assert(entry@ =~= row_of(profile@, *bundles));
    entry
}

/// A row of the audit view.
#[derive(Debug, Clone, PartialEq, Eq)]
pub struct AuditLogEntry {
    pub timestamp: String,
    pub operation: String,
    pub target: String,
    pub status: String,
    pub status_type: i32,
    pub details: String,
}

#[verifier::ext_equal]
pub struct AuditRowModel {
    pub timestamp: Seq<char>,
    pub operation: Seq<char>,
    pub target: Seq<char>,
    pub status: Seq<char>,
    pub status_type: i32,
    pub details: Seq<char>,
}

impl View for AuditLogEntry {
    type V = AuditRowModel;

    open spec fn view(&self) -> AuditRowModel {
        AuditRowModel {
            timestamp: self.timestamp@,
            operation: self.operation@,
            target: self.target@,
            status: self.status@,
            status_type: self.status_type,
            details: self.details@,
        }
    }
}

impl AuditStatus {
    /// The key of the word for the status.
    pub open spec fn key(self) -> Seq<char> {
        match self {
            AuditStatus::Success => "audit.status.success"@,
            AuditStatus::Warning => "audit.status.warning"@,
            AuditStatus::Failed => "audit.status.failed"@,
            AuditStatus::RolledBack => "audit.status.rolled_back"@,
        }
    }

    /// The number that stands for the status.
    pub open spec fn number(self) -> i32 {
        match self {
            AuditStatus::Success => 0,
            AuditStatus::Warning => 1,
            AuditStatus::Failed => 2,
            AuditStatus::RolledBack => 3,
        }
    }
}

/// The row of an audit entry.
pub open spec fn audit_row_of(
    entry: AuditEntry,
    bundles: Result<I18nManager, I18nError>,
) -> AuditRowModel {
    AuditRowModel {
        timestamp: shown_time(entry.timestamp),
        operation: entry.operation@,
        target: entry.target@,
        status: shown(bundles, entry.status.key()),
        status_type: entry.status.number(),
        details: entry.details@,
    }
}

pub fn audit_entry_to_slint(entry: &AuditEntry, bundles: &Result<I18nManager, I18nError>) -> (r:
    AuditLogEntry)
    ensures
        r@ == audit_row_of(*entry, *bundles),
{
    let (key, number): (&'static str, i32) = match entry.status {
        AuditStatus::Success => ("audit.status.success", 0),
        AuditStatus::Warning => ("audit.status.warning", 1),
        AuditStatus::Failed => ("audit.status.failed", 2),
        AuditStatus::RolledBack => ("audit.status.rolled_back", 3),
    };
    AuditLogEntry {
        timestamp: time_text(entry.timestamp),
        operation: owned(entry.operation.as_str()),
        target: owned(entry.target.as_str()),
        status: t(bundles, key),
        status_type: number,
        details: owned(entry.details.as_str()),
    }
}

/// A row never suggests a repair that no anomaly of the profile calls for, and where
/// the hive is locked or its locks could not be inspected it blocks repair.
pub proof fn suggestions_are_exact(profile: ProfileModel, bundles: Result<I18nManager, I18nError>)
    ensures
        row_of(profile, bundles).suggest_fix_bak <==> has_bak_suffix(profile.anomalies),
        row_of(profile, bundles).suggest_reset_state <==> has_dirty_state(profile.anomalies),
        lockers(profile.anomalies).len() > 0 || has_failed_inspection(profile.anomalies)
            ==> row_of(profile, bundles).repair_blocked_by_lock_inspection,
{
}

/// Entries that ended differently are told apart: each status has a number and a word of
/// its own, and the row of an entry says how that entry ended and nothing else.
pub proof fn an_entry_is_shown_as_it_ended(
    entry: AuditEntry,
    other: AuditEntry,
    bundles: Result<I18nManager, I18nError>,
)
    ensures
        audit_row_of(entry, bundles).status_type == audit_row_of(other, bundles).status_type
            <==> entry.status == other.status,
        entry.status.key() == other.status.key() <==> entry.status == other.status,
        audit_row_of(entry, bundles).status_type == 0 <==> entry.status is Success,
        audit_row_of(entry, bundles).status_type == 1 <==> entry.status is Warning,
        audit_row_of(entry, bundles).status_type == 2 <==> entry.status is Failed,
        audit_row_of(entry, bundles).status_type == 3 <==> entry.status is RolledBack,
        entry.status is Success ==> audit_row_of(entry, bundles).status == shown(
            bundles,
            "audit.status.success"@,
        ),
        entry.status is Warning ==> audit_row_of(entry, bundles).status == shown(
            bundles,
            "audit.status.warning"@,
        ),
        entry.status is Failed ==> audit_row_of(entry, bundles).status == shown(
            bundles,
            "audit.status.failed"@,
        ),
        entry.status is RolledBack ==> audit_row_of(entry, bundles).status == shown(
            bundles,
            "audit.status.rolled_back"@,
        ),
        audit_row_of(entry, bundles).operation == entry.operation@,
        audit_row_of(entry, bundles).target == entry.target@,
        audit_row_of(entry, bundles).details == entry.details@,
        entry.timestamp == other.timestamp ==> audit_row_of(entry, bundles).timestamp
            == audit_row_of(other, bundles).timestamp,
{
    reveal_strlit("audit.status.success");
    reveal_strlit("audit.status.warning");
    reveal_strlit("audit.status.failed");
    reveal_strlit("audit.status.rolled_back");
    assert("audit.status.success"@[13] == 's');
    assert("audit.status.warning"@[13] == 'w');
    assert("audit.status.failed"@[13] == 'f');
    assert("audit.status.rolled_back"@[13] == 'r');
}

/// Whether two anomalies are of one kind.
pub open spec fn same_kind(a: AnomalyModel, b: AnomalyModel) -> bool {
    ||| a is BakSuffix && b is BakSuffix
    ||| a is TempSession && b is TempSession
    ||| a is OrphanSid && b is OrphanSid
    ||| a is PathCollision && b is PathCollision
    ||| a is DirtyStateMask && b is DirtyStateMask
    ||| a is LockedNtUserDat && b is LockedNtUserDat
    ||| a is MissingDirectory && b is MissingDirectory
    ||| a is RegistryReadFailure && b is RegistryReadFailure
    ||| a is SidResolutionFailure && b is SidResolutionFailure
    ||| a is FilesystemScanFailure && b is FilesystemScanFailure
    ||| a is LockInspectionFailure && b is LockInspectionFailure
}

/// Anomalies of different kinds are told apart, by their codes and by the keys of their
/// descriptions.
pub proof fn anomalies_are_told_apart(a: AnomalyModel, b: AnomalyModel)
    ensures
        a.code() == b.code() <==> same_kind(a, b),
        a.description_key() == b.description_key() <==> same_kind(a, b),
{
    reveal_strlit("BAK_SUFFIX");
    reveal_strlit("TEMP_SESSION");
    reveal_strlit("ORPHAN_SID");
    reveal_strlit("PATH_COLLISION");
    reveal_strlit("DIRTY_STATE_MASK");
    reveal_strlit("LOCKED_NTUSER_DAT");
    reveal_strlit("MISSING_DIRECTORY");
    reveal_strlit("REGISTRY_READ_FAILURE");
    reveal_strlit("SID_RESOLUTION_FAILURE");
    reveal_strlit("FILESYSTEM_SCAN_FAILURE");
    reveal_strlit("LOCK_INSPECTION_FAILURE");
    reveal_strlit("profile.status.bak_suffix");
    reveal_strlit("profile.status.temp_session");
    reveal_strlit("profile.status.orphan_sid");
    reveal_strlit("profile.status.path_collision");
    reveal_strlit("profile.status.dirty_state");
    reveal_strlit("profile.status.hive_locked");
    reveal_strlit("profile.status.missing_directory");
    reveal_strlit("profile.status.registry_read_failure");
    reveal_strlit("profile.status.sid_resolution_failure");
    reveal_strlit("profile.status.filesystem_scan_failure");
    reveal_strlit("profile.status.lock_inspection_failure");
    assert("BAK_SUFFIX"@[0] == 'B' && "BAK_SUFFIX"@.len() == 10);
    assert("TEMP_SESSION"@[0] == 'T' && "TEMP_SESSION"@.len() == 12);
    assert("ORPHAN_SID"@[0] == 'O' && "ORPHAN_SID"@.len() == 10);
    assert("PATH_COLLISION"@[0] == 'P' && "PATH_COLLISION"@.len() == 14);
    assert("DIRTY_STATE_MASK"@[0] == 'D' && "DIRTY_STATE_MASK"@.len() == 16);
    assert("LOCKED_NTUSER_DAT"@[0] == 'L' && "LOCKED_NTUSER_DAT"@.len() == 17);
    assert("MISSING_DIRECTORY"@[0] == 'M' && "MISSING_DIRECTORY"@.len() == 17);
    assert("REGISTRY_READ_FAILURE"@[0] == 'R' && "REGISTRY_READ_FAILURE"@.len() == 21);
    assert("SID_RESOLUTION_FAILURE"@[0] == 'S' && "SID_RESOLUTION_FAILURE"@.len() == 22);
    assert("FILESYSTEM_SCAN_FAILURE"@[0] == 'F' && "FILESYSTEM_SCAN_FAILURE"@.len() == 23);
    assert("LOCK_INSPECTION_FAILURE"@[0] == 'L' && "LOCK_INSPECTION_FAILURE"@.len() == 23);
    assert("profile.status.bak_suffix"@[15] == 'b');
    assert("profile.status.temp_session"@[15] == 't');
    assert("profile.status.orphan_sid"@[15] == 'o');
    assert("profile.status.path_collision"@[15] == 'p');
    assert("profile.status.dirty_state"@[15] == 'd');
    assert("profile.status.hive_locked"@[15] == 'h');
    assert("profile.status.missing_directory"@[15] == 'm');
    assert("profile.status.registry_read_failure"@[15] == 'r');
    assert("profile.status.sid_resolution_failure"@[15] == 's');
    assert("profile.status.filesystem_scan_failure"@[15] == 'f');
    assert("profile.status.lock_inspection_failure"@[15] == 'l');
}

proof fn lemma_lockers_of_each(anomalies: Seq<AnomalyModel>)
    ensures
        lockers(anomalies).len() > 0 <==> exists|i: int|
            0 <= i < anomalies.len() && ((#[trigger] anomalies[i]) matches
                AnomalyModel::LockedNtUserDat(names) && names.len() > 0),
        forall|i: int, k: int|
            0 <= i < anomalies.len() && (anomalies[i] matches AnomalyModel::LockedNtUserDat(names)
                && 0 <= k < names.len()) ==> lockers(anomalies).contains(
                #[trigger] anomalies[i]->LockedNtUserDat_0[k],
            ),
    decreases anomalies.len(),
{
    if anomalies.len() > 0 {
        let front = anomalies.drop_last();
        lemma_lockers_of_each(front);
        let before = lockers(front);
        let all = lockers(anomalies);
        assert forall|i: int, k: int|
            0 <= i < anomalies.len() && (anomalies[i] matches AnomalyModel::LockedNtUserDat(names)
                && 0 <= k < names.len()) implies all.contains(
            #[trigger] anomalies[i]->LockedNtUserDat_0[k],
        ) by {
            let name = anomalies[i]->LockedNtUserDat_0[k];
            if i < front.len() {
                assert(front[i] == anomalies[i]);
                assert(before.contains(front[i]->LockedNtUserDat_0[k]));
                let at = choose|at: int| 0 <= at < before.len() && before[at] == name;
                assert(all[at] == name);
            } else {
                assert(all[before.len() + k] == name);
            }
        }
        if all.len() > 0 {
            if before.len() > 0 {
                let i = choose|i: int|
                    0 <= i < front.len() && ((#[trigger] front[i]) matches
                        AnomalyModel::LockedNtUserDat(names) && names.len() > 0);
                assert(anomalies[i] == front[i]);
            } else {
                assert(anomalies[anomalies.len() - 1] is LockedNtUserDat);
            }
        }
        assert forall|i: int|
            0 <= i < anomalies.len() && ((#[trigger] anomalies[i]) matches
                AnomalyModel::LockedNtUserDat(names) && names.len() > 0) implies all.len() > 0 by {
            if i < front.len() {
                assert(front[i] == anomalies[i]);
            }
        }
    }
}

/// The row of a profile tells the profile: who it is of, whether it is in use, how serious
/// its state is. A repair is suggested exactly where the anomaly that it repairs was found,
/// and is blocked exactly where a process holds the hive or that could not be found out;
/// every process that holds it is named, and every anomaly is listed.
pub proof fn a_row_tells_the_profile(profile: ProfileModel, bundles: Result<I18nManager, I18nError>)
    ensures
        row_of(profile, bundles).sid == profile.sid,
        row_of(profile, bundles).canonical_sid == profile.canonical_sid,
        row_of(profile, bundles).username == profile.username,
        row_of(profile, bundles).domain == profile.domain,
        row_of(profile, bundles).profile_path == profile.profile_path,
        row_of(profile, bundles).loaded == profile.loaded,
        row_of(profile, bundles).is_bak == profile.is_bak,
        row_of(profile, bundles).health_type == 0 <==> profile.health is Healthy,
        row_of(profile, bundles).health_type == 1 <==> profile.health is Warning,
        row_of(profile, bundles).health_type == 2 <==> profile.health is Corrupted,
        row_of(profile, bundles).suggest_fix_bak <==> exists|i: int|
            0 <= i < profile.anomalies.len() && (#[trigger] profile.anomalies[i]) is BakSuffix,
        row_of(profile, bundles).suggest_reset_state <==> exists|i: int|
            0 <= i < profile.anomalies.len() && (#[trigger] profile.anomalies[i]) is DirtyStateMask,
        row_of(profile, bundles).repair_blocked_by_lock_inspection <==> exists|i: int|
            0 <= i < profile.anomalies.len() && match #[trigger] profile.anomalies[i] {
                AnomalyModel::LockedNtUserDat(names) => names.len() > 0,
                AnomalyModel::LockInspectionFailure(_) => true,
                _ => false,
            },
        row_of(profile, bundles).has_locking_processes <==> row_of(
            profile,
            bundles,
        ).locking_processes.len() > 0,
        forall|i: int, k: int|
            0 <= i < profile.anomalies.len() && (profile.anomalies[i] matches
                AnomalyModel::LockedNtUserDat(names) && 0 <= k < names.len()) ==> row_of(
                profile,
                bundles,
            ).locking_processes.contains(
                #[trigger] profile.anomalies[i]->LockedNtUserDat_0[k],
            ),
        row_of(profile, bundles).issues.len() == profile.anomalies.len(),
        forall|i: int, j: int|
            0 <= i < profile.anomalies.len() && 0 <= j < profile.anomalies.len() ==> (
            (#[trigger] row_of(profile, bundles).issues[i]).code == (#[trigger] row_of(
                profile,
                bundles,
            ).issues[j]).code <==> same_kind(profile.anomalies[i], profile.anomalies[j])),
        profile.anomalies.len() == 0 ==> row_of(profile, bundles).status_text == shown(
            bundles,
            "profile.status.healthy"@,
        ),
{
    lemma_lockers_of_each(profile.anomalies);
    let row = row_of(profile, bundles);
    assert forall|i: int, j: int|
        0 <= i < profile.anomalies.len() && 0 <= j < profile.anomalies.len() implies (
    (#[trigger] row.issues[i]).code == (#[trigger] row.issues[j]).code <==> same_kind(
        profile.anomalies[i],
        profile.anomalies[j],
    )) by {
        anomalies_are_told_apart(profile.anomalies[i], profile.anomalies[j]);
    }
    if row.repair_blocked_by_lock_inspection {
        if lockers(profile.anomalies).len() > 0 {
            let i = choose|i: int|
                0 <= i < profile.anomalies.len() && ((#[trigger] profile.anomalies[i]) matches
                    AnomalyModel::LockedNtUserDat(names) && names.len() > 0);
            assert(profile.anomalies[i] is LockedNtUserDat);
        }
    }
}

/// That the locks could not be looked at is told exactly where the scan found so, with the
/// first reason that it gave.
pub proof fn a_failed_look_at_the_locks_is_told(anomalies: Seq<AnomalyModel>)
    ensures
        inspection_failure(anomalies) is Some <==> exists|i: int|
            0 <= i < anomalies.len() && (#[trigger] anomalies[i]) is LockInspectionFailure,
        inspection_failure(anomalies) matches Some(details) ==> exists|i: int|
            0 <= i < anomalies.len() && #[trigger] anomalies[i]
                == AnomalyModel::LockInspectionFailure(details) && forall|j: int|
                0 <= j < i ==> !((#[trigger] anomalies[j]) is LockInspectionFailure),
    decreases anomalies.len(),
{
    if anomalies.len() > 0 {
        let rest = anomalies.skip(1);
        a_failed_look_at_the_locks_is_told(rest);
        if anomalies[0] is LockInspectionFailure {
            assert(forall|j: int| 0 <= j < 0 ==> !((#[trigger] anomalies[j]) is
                LockInspectionFailure));
        } else {
            if let Some(details) = inspection_failure(rest) {
                let i = choose|i: int|
                    0 <= i < rest.len() && #[trigger] rest[i] == AnomalyModel::LockInspectionFailure(
                        details,
                    ) && forall|j: int|
                        0 <= j < i ==> !((#[trigger] rest[j]) is LockInspectionFailure);
                assert(anomalies[i + 1] == rest[i]);
                assert forall|j: int| 0 <= j < i + 1 implies !((
                #[trigger] anomalies[j]) is LockInspectionFailure) by {
                    if j > 0 {
                        assert(rest[j - 1] == anomalies[j]);
                    }
                }
            }
            if exists|i: int|
                0 <= i < anomalies.len() && (#[trigger] anomalies[i]) is LockInspectionFailure {
                let i = choose|i: int|
                    0 <= i < anomalies.len() && (#[trigger] anomalies[i]) is LockInspectionFailure;
                assert(rest[i - 1] == anomalies[i]);
            }
        }
    }
}

} // verus!
