//! Profiles, their anomalies and the plans that act on them.
use crate::clock::UtcTime;
use crate::i18n::{shown, t, I18nError, I18nManager};
use crate::text::texts;
use vstd::prelude::*;

verus! {

/// Something about a profile that is out of order.
#[derive(Debug, Clone, PartialEq, Eq)]
pub enum ProfileAnomaly {
    BakSuffix,
    TempSession,
    OrphanSid,
    PathCollision(String),
    DirtyStateMask(u32),
    LockedNtUserDat(Vec<String>),
    MissingDirectory(String),
    RegistryReadFailure(String),
    SidResolutionFailure(String),
    FilesystemScanFailure(String),
    LockInspectionFailure(String),
}

/// What an anomaly says, over texts.
pub enum AnomalyModel {
    BakSuffix,
    TempSession,
    OrphanSid,
    PathCollision(Seq<char>),
    DirtyStateMask(u32),
    LockedNtUserDat(Seq<Seq<char>>),
    MissingDirectory(Seq<char>),
    RegistryReadFailure(Seq<char>),
    SidResolutionFailure(Seq<char>),
    FilesystemScanFailure(Seq<char>),
    LockInspectionFailure(Seq<char>),
}

impl View for ProfileAnomaly {
    type V = AnomalyModel;

    open spec fn view(&self) -> AnomalyModel {
        match *self {
            ProfileAnomaly::BakSuffix => AnomalyModel::BakSuffix,
            ProfileAnomaly::TempSession => AnomalyModel::TempSession,
            ProfileAnomaly::OrphanSid => AnomalyModel::OrphanSid,
            ProfileAnomaly::PathCollision(s) => AnomalyModel::PathCollision(s@),
            ProfileAnomaly::DirtyStateMask(m) => AnomalyModel::DirtyStateMask(m),
            ProfileAnomaly::LockedNtUserDat(v) => AnomalyModel::LockedNtUserDat(texts(v@)),
            ProfileAnomaly::MissingDirectory(s) => AnomalyModel::MissingDirectory(s@),
            ProfileAnomaly::RegistryReadFailure(s) => AnomalyModel::RegistryReadFailure(s@),
            ProfileAnomaly::SidResolutionFailure(s) => AnomalyModel::SidResolutionFailure(s@),
            ProfileAnomaly::FilesystemScanFailure(s) => AnomalyModel::FilesystemScanFailure(s@),
            ProfileAnomaly::LockInspectionFailure(s) => AnomalyModel::LockInspectionFailure(s@),
        }
    }
}

/// What a list of anomalies says.
pub open spec fn anomaly_models(v: Seq<ProfileAnomaly>) -> Seq<AnomalyModel> {
    v.map_values(|a: ProfileAnomaly| a@)
}

impl AnomalyModel {
    /// The key of the text that describes the anomaly.
    pub open spec fn description_key(self) -> Seq<char> {
        match self {
            AnomalyModel::BakSuffix => "profile.status.bak_suffix"@,
            AnomalyModel::TempSession => "profile.status.temp_session"@,
            AnomalyModel::OrphanSid => "profile.status.orphan_sid"@,
            AnomalyModel::PathCollision(_) => "profile.status.path_collision"@,
            AnomalyModel::DirtyStateMask(_) => "profile.status.dirty_state"@,
            AnomalyModel::LockedNtUserDat(_) => "profile.status.hive_locked"@,
            AnomalyModel::MissingDirectory(_) => "profile.status.missing_directory"@,
            AnomalyModel::RegistryReadFailure(_) => "profile.status.registry_read_failure"@,
            AnomalyModel::SidResolutionFailure(_) => "profile.status.sid_resolution_failure"@,
            AnomalyModel::FilesystemScanFailure(_) => "profile.status.filesystem_scan_failure"@,
            AnomalyModel::LockInspectionFailure(_) => "profile.status.lock_inspection_failure"@,
        }
    }

    /// Whether the anomaly marks the profile as corrupted.
    pub open spec fn is_corrupting(self) -> bool {
        self is BakSuffix || self is TempSession || self is PathCollision
    }
}

impl ProfileAnomaly {
    /// The key of the text that describes the anomaly.
    pub fn localization_key(&self) -> (r: &'static str)
        ensures
            r@ == self@.description_key(),
    {
        match self {
            ProfileAnomaly::BakSuffix => "profile.status.bak_suffix",
            ProfileAnomaly::TempSession => "profile.status.temp_session",
            ProfileAnomaly::OrphanSid => "profile.status.orphan_sid",
            ProfileAnomaly::PathCollision(_) => "profile.status.path_collision",
            ProfileAnomaly::DirtyStateMask(_) => "profile.status.dirty_state",
            ProfileAnomaly::LockedNtUserDat(_) => "profile.status.hive_locked",
            ProfileAnomaly::MissingDirectory(_) => "profile.status.missing_directory",
            ProfileAnomaly::RegistryReadFailure(_) => "profile.status.registry_read_failure",
            ProfileAnomaly::SidResolutionFailure(_) => "profile.status.sid_resolution_failure",
            ProfileAnomaly::FilesystemScanFailure(_) => "profile.status.filesystem_scan_failure",
            ProfileAnomaly::LockInspectionFailure(_) => "profile.status.lock_inspection_failure",
        }
    }

    /// The description in the locale in use.
    pub fn localized_description(&self, bundles: &Result<I18nManager, I18nError>) -> (r: String)
        ensures
            r@ == shown(*bundles, self@.description_key()),
    {
        t(bundles, self.localization_key())
    }
}

/// The descriptions of anomalies, one for one.
pub fn describe_anomalies(
    anomalies: &Vec<ProfileAnomaly>,
    bundles: &Result<I18nManager, I18nError>,
) -> (r: Vec<String>)
    ensures
        r@.len() == anomalies@.len(),
        forall|i: int|
            0 <= i < r@.len() ==> (#[trigger] r@[i])@ == shown(
                *bundles,
                anomalies@[i]@.description_key(),
            ),
{
    let mut out: Vec<String> = Vec::new();
    let mut i: usize = 0;
    while i < anomalies.len()
        invariant
            i <= anomalies@.len(),
            out@.len() == i,
            forall|k: int|
                0 <= k < i ==> (#[trigger] out@[k])@ == shown(
                    *bundles,
                    anomalies@[k]@.description_key(),
                ),
        decreases anomalies.len() - i,
    {
        out.push(anomalies[i].localized_description(bundles));
        i += 1;
    }
    out
}

/// How serious the state of a profile is.
#[derive(Debug, Clone, Copy, PartialEq, Eq, Structural)]
pub enum ProfileHealth {
    Healthy,
    Warning,
    Corrupted,
}

/// A profile as found in the registry and on disk.
#[derive(Debug, Clone)]
pub struct UserProfile {
    pub sid: String,
    pub canonical_sid: String,
    pub username: String,
    pub domain: String,
    pub profile_path: String,
    pub loaded: bool,
    pub is_bak: bool,
    pub state_mask: u32,
    pub ref_count: u32,
    pub guid: Option<String>,
    pub ntuser_exists: bool,
    pub usrclass_exists: bool,
    pub disk_size_bytes: u64,
    pub anomalies: Vec<ProfileAnomaly>,
    pub health: ProfileHealth,
}

/// What a profile says, over texts.
#[verifier::ext_equal]
pub struct ProfileModel {
    pub sid: Seq<char>,
    pub canonical_sid: Seq<char>,
    pub username: Seq<char>,
    pub domain: Seq<char>,
    pub profile_path: Seq<char>,
    pub loaded: bool,
    pub is_bak: bool,
    pub state_mask: u32,
    pub ref_count: u32,
    pub guid: Option<Seq<char>>,
    pub ntuser_exists: bool,
    pub usrclass_exists: bool,
    pub disk_size_bytes: u64,
    pub anomalies: Seq<AnomalyModel>,
    pub health: ProfileHealth,
}

/// The text of an optional string.
pub open spec fn opt_text(s: Option<String>) -> Option<Seq<char>> {
    match s {
        Some(v) => Some(v@),
        None => None,
    }
}

impl View for UserProfile {
    type V = ProfileModel;

    open spec fn view(&self) -> ProfileModel {
        ProfileModel {
            sid: self.sid@,
            canonical_sid: self.canonical_sid@,
            username: self.username@,
            domain: self.domain@,
            profile_path: self.profile_path@,
            loaded: self.loaded,
            is_bak: self.is_bak,
            state_mask: self.state_mask,
            ref_count: self.ref_count,
            guid: opt_text(self.guid),
            ntuser_exists: self.ntuser_exists,
            usrclass_exists: self.usrclass_exists,
            disk_size_bytes: self.disk_size_bytes,
            anomalies: anomaly_models(self.anomalies@),
            health: self.health,
        }
    }
}

/// What a list of profiles says.
pub open spec fn profile_models(v: Seq<UserProfile>) -> Seq<ProfileModel> {
    v.map_values(|p: UserProfile| p@)
}

/// The health that a profile's anomalies give it.
pub open spec fn health_of(is_bak: bool, anomalies: Seq<AnomalyModel>) -> ProfileHealth {
    if is_bak || exists|i: int| 0 <= i < anomalies.len() && (#[trigger] anomalies[i]).is_corrupting() {
        ProfileHealth::Corrupted
    } else if anomalies.len() > 0 {
        ProfileHealth::Warning
    } else {
        ProfileHealth::Healthy
    }
}

impl ProfileModel {
    /// The profile with its health set to what its anomalies give.
    pub open spec fn assessed(self) -> ProfileModel {
        ProfileModel { health: health_of(self.is_bak, self.anomalies), ..self }
    }

    /// The profile with one more anomaly.
    pub open spec fn with_anomaly(self, a: AnomalyModel) -> ProfileModel {
        ProfileModel { anomalies: self.anomalies.push(a), ..self }
    }
}

impl UserProfile {
    /// Sets the health to what the anomalies give and leaves the rest.
    pub fn compute_health(&mut self)
        ensures
            final(self)@ == old(self)@.assessed(),
    {
        let mut corrupted = self.is_bak;
        let mut i: usize = 0;
        while i < self.anomalies.len()
            invariant
                i <= self.anomalies@.len(),
                *self == *old(self),
                corrupted == (self.is_bak || exists|k: int|
                    0 <= k < i && (#[trigger] anomaly_models(
                        self.anomalies@,
                    )[k]).is_corrupting()),
            decreases self.anomalies.len() - i,
        {
            let ghost before = corrupted;
            let hit = match self.anomalies[i] {
                ProfileAnomaly::BakSuffix => true,
                ProfileAnomaly::TempSession => true,
                ProfileAnomaly::PathCollision(_) => true,
                _ => false,
            };
            assert(anomaly_models(self.anomalies@)[i as int].is_corrupting() == hit);
            corrupted = corrupted || hit;
            i += 1;
        }
        if corrupted {
            self.health = ProfileHealth::Corrupted;
        } else if self.anomalies.len() > 0 {
            self.health = ProfileHealth::Warning;
        } else {
            self.health = ProfileHealth::Healthy;
        }
    }

    /// Records that another profile has the same path.
    pub fn mark_collision(&mut self)
        ensures
            final(self)@ == old(self)@.with_anomaly(
                AnomalyModel::PathCollision(old(self)@.profile_path),
            ).assessed(),
    {
        let path = self.profile_path.clone();
        self.anomalies.push(ProfileAnomaly::PathCollision(path));
        assert(self@ =~= old(self)@.with_anomaly(
            AnomalyModel::PathCollision(old(self)@.profile_path),
        ));
        self.compute_health();
    }
}

/// The outcome of a scan.
#[derive(Debug, Clone)]
pub struct DiagnosticReport {
    pub timestamp: UtcTime,
    pub total_count: usize,
    pub healthy_count: usize,
    pub warning_count: usize,
    pub corrupted_count: usize,
    pub temporary_count: usize,
    pub profiles: Vec<UserProfile>,
}

impl DiagnosticReport {
    /// Whether the three health counts add up to the total.
    pub open spec fn counts_partition(self) -> bool {
        self.healthy_count + self.warning_count + self.corrupted_count == self.total_count
    }

    pub fn has_consistent_health_counts(&self) -> (r: bool)
        ensures
            r == self.counts_partition(),
    {
        match self.healthy_count.checked_add(self.warning_count) {
            Some(part) => match part.checked_add(self.corrupted_count) {
                Some(total) => total == self.total_count,
                None => false,
            },
            None => false,
        }
    }
}

/// What to repair, and whether to do it or only to rehearse it.
#[derive(Debug, Clone)]
pub struct RepairPlan {
    pub sid: String,
    pub canonical_sid: String,
    pub profile_path: String,
    pub fix_bak: bool,
    pub reset_state: bool,
    pub unlock_hive: bool,
    pub dry_run: bool,
}

/// What to copy, and from where to where.
#[derive(Debug, Clone)]
pub struct MigrationPlan {
    pub source_sid: String,
    pub source_path: String,
    pub target_path: String,
    pub include_roaming_appdata: bool,
    pub include_personal_folders: bool,
}

} // verus!
