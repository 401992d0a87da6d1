//! From what was read of the profile list to profiles with their anomalies.
use crate::clock::UtcTime;
use crate::constants::{
    BAK_EXTENSION, LOCAL_SERVICE_SID, LOCAL_SYSTEM_SID, NETWORK_SERVICE_SID, STATE_TEMP_PROFILE,
    VAL_GUID, VAL_PROFILE_IMAGE_PATH, VAL_REF_COUNT, VAL_STATE,
};
use crate::models::{
    anomaly_models, health_of, opt_text, profile_models, AnomalyModel, DiagnosticReport,
    ProfileAnomaly, ProfileHealth, ProfileModel, UserProfile,
};
use crate::registry::RegistryError;
use crate::restart_manager::LockingProcessInfo;
use crate::text::{
    ascii_lower, decimal, has_suffix, is_blank, texts, without_suffix, without_trailing_slashes,
};
use crate::text::{
    cat2, cat3, cat4, dec, ends_with, is_blank_str, owned, str_eq, strip_suffix_or_self,
    to_ascii_lower, trim_trailing_slashes,
};
use vstd::prelude::*;

verus! {

#[derive(Debug)]
pub enum ScannerError {
    RegistryError(RegistryError),
    ProfileKeyUnreadable { key: String, source: RegistryError },
}

impl ScannerError {
    /// The text that describes the error.
    pub open spec fn text(self) -> Seq<char> {
        match self {
            ScannerError::RegistryError(source) => "Failed to access Windows Registry: "@
                + source.text(),
            ScannerError::ProfileKeyUnreadable { key, source } => "Profile key '"@ + key@
                + "' cannot be read: "@ + source.text(),
        }
    }

    pub fn message(&self) -> (r: String)
        ensures
            r@ == self.text(),
    {
        match self {
            ScannerError::RegistryError(source) => {
                let reason = source.message();
                cat2("Failed to access Windows Registry: ", reason.as_str())
            },
            ScannerError::ProfileKeyUnreadable { key, source } => {
                let reason = source.message();
                cat4("Profile key '", key.as_str(), "' cannot be read: ", reason.as_str())
            },
        }
    }
}

/// What was read below one profile key and at the places it names.
pub struct ProfileReadings {
    pub image_path: Result<String, RegistryError>,
    pub state: Result<u32, RegistryError>,
    pub ref_count: Result<u32, RegistryError>,
    pub guid: Result<String, RegistryError>,
    /// Domain and user name of the SID, or why it was not resolved.
    pub account: Result<(String, String), String>,
    /// Whether the user's hive could be opened below `HKEY_USERS`.
    pub hive: Result<(), RegistryError>,
    pub dir_exists: bool,
    pub ntuser_exists: bool,
    pub usrclass_exists: bool,
    /// The processes that lock `NTUSER.DAT`, or why they are not known.
    pub locks: Result<Vec<LockingProcessInfo>, String>,
    /// The size of the profile directory, or why it is not known.
    pub size: Result<u64, String>,
}

/// A subkey of the profile list.
pub struct ProfileObservation {
    pub key_name: String,
    pub readings: Result<ProfileReadings, RegistryError>,
}

// ---------------------------------------------------------------------------
// Single values
// ---------------------------------------------------------------------------

pub open spec fn read_failure(name: Seq<char>, reason: Seq<char>) -> AnomalyModel {
    AnomalyModel::RegistryReadFailure(name + ": "@ + reason)
}

/// The value that must be there: empty where it is missing or blank.
pub open spec fn required_value(read: Result<String, RegistryError>) -> Seq<char> {
    match read {
        Ok(value) => if is_blank(value@) {
            Seq::empty()
        } else {
            value@
        },
        Err(_) => Seq::empty(),
    }
}

pub open spec fn required_anomalies(
    read: Result<String, RegistryError>,
    name: Seq<char>,
) -> Seq<AnomalyModel> {
    match read {
        Ok(value) => if is_blank(value@) {
            seq![read_failure(name, "empty value"@)]
        } else {
            Seq::empty()
        },
        Err(error) => seq![read_failure(name, error.text())],
    }
}

/// The anomalies of a value that may be missing.
pub open spec fn optional_anomalies<T>(
    read: Result<T, RegistryError>,
    name: Seq<char>,
) -> Seq<AnomalyModel> {
    match read {
        Ok(_) => Seq::empty(),
        Err(error) => if error is ValueNotFound {
            Seq::empty()
        } else {
            seq![read_failure(name, error.text())]
        },
    }
}

fn push_read_failure(name: &str, reason: &str, anomalies: &mut Vec<ProfileAnomaly>)
    ensures
        anomaly_models(final(anomalies)@) == anomaly_models(old(anomalies)@).push(
            read_failure(name@, reason@),
        ),
{
    let text = cat3(name, ": ", reason);
    anomalies.push(ProfileAnomaly::RegistryReadFailure(text));
    assert(anomaly_models(anomalies@) =~= anomaly_models(old(anomalies)@).push(
        read_failure(name@, reason@),
    ));
}

pub fn required_string(
    read: Result<String, RegistryError>,
    value_name: &str,
    anomalies: &mut Vec<ProfileAnomaly>,
) -> (r: String)
    ensures
        r@ == required_value(read),
        anomaly_models(final(anomalies)@) == anomaly_models(old(anomalies)@) + required_anomalies(
            read,
            value_name@,
        ),
{
    match read {
        Ok(value) => {
            if is_blank_str(value.as_str()) {
                push_read_failure(value_name, "empty value", anomalies);
                String::new()
            } else {
                value
            }
        },
        Err(error) => {
            let reason = error.message();
            push_read_failure(value_name, reason.as_str(), anomalies);
            String::new()
        },
    }
}

pub fn optional_string(
    read: Result<String, RegistryError>,
    value_name: &str,
    anomalies: &mut Vec<ProfileAnomaly>,
) -> (r: Option<String>)
    ensures
        opt_text(r) == (match read {
            Ok(value) => Some(value@),
            Err(_) => None,
        }),
        anomaly_models(final(anomalies)@) == anomaly_models(old(anomalies)@) + optional_anomalies(
            read,
            value_name@,
        ),
{
    match read {
        Ok(value) => Some(value),
        Err(RegistryError::ValueNotFound(_)) => None,
        Err(error) => {
            let reason = error.message();
            push_read_failure(value_name, reason.as_str(), anomalies);
            None
        },
    }
}

/// A number that counts as zero where it was not read.
pub open spec fn number_or_zero(read: Result<u32, RegistryError>) -> u32 {
    match read {
        Ok(value) => value,
        Err(_) => 0,
    }
}

pub fn optional_u32(
    read: Result<u32, RegistryError>,
    value_name: &str,
    anomalies: &mut Vec<ProfileAnomaly>,
) -> (r: u32)
    ensures
        r == number_or_zero(read),
        anomaly_models(final(anomalies)@) == anomaly_models(old(anomalies)@) + optional_anomalies(
            read,
            value_name@,
        ),
{
    match read {
        Ok(value) => value,
        Err(RegistryError::ValueNotFound(_)) => 0,
        Err(error) => {
            let reason = error.message();
            push_read_failure(value_name, reason.as_str(), anomalies);
            0
        },
    }
}

// ---------------------------------------------------------------------------
// Locks
// ---------------------------------------------------------------------------

/// How a locking process is named in an anomaly.
pub open spec fn locker_name(process: LockingProcessInfo) -> Seq<char> {
    process.app_name@ + " (PID: "@ + decimal(process.process_id as nat) + ")"@
}

pub open spec fn lock_anomalies(locks: Result<Vec<LockingProcessInfo>, String>) -> Seq<
    AnomalyModel,
> {
    match locks {
        Ok(processes) => if processes@.len() == 0 {
            Seq::empty()
        } else {
            seq![
                AnomalyModel::LockedNtUserDat(
                    processes@.map_values(|p: LockingProcessInfo| locker_name(p)),
                ),
            ]
        },
        Err(reason) => seq![AnomalyModel::LockInspectionFailure(reason@)],
    }
}

pub fn inspect_locks(
    locks: Result<Vec<LockingProcessInfo>, String>,
    anomalies: &mut Vec<ProfileAnomaly>,
)
    ensures
        anomaly_models(final(anomalies)@) == anomaly_models(old(anomalies)@) + lock_anomalies(locks),
{
    match locks {
        Ok(processes) => {
            if processes.len() > 0 {
                let mut names: Vec<String> = Vec::new();
                let mut i: usize = 0;
                while i < processes.len()
                    invariant
                        i <= processes@.len(),
                        names@.len() == i,
                        forall|k: int|
                            0 <= k < i ==> (#[trigger] names@[k])@ == locker_name(processes@[k]),
                    decreases processes.len() - i,
                {
                    let pid = dec(processes[i].process_id as u64);
                    names.push(cat4(processes[i].app_name.as_str(), " (PID: ", pid.as_str(), ")"));
                    i += 1;
                }
                assert(texts(names@) =~= processes@.map_values(
                    |p: LockingProcessInfo| locker_name(p),
                ));
                anomalies.push(ProfileAnomaly::LockedNtUserDat(names));
            }
        },
        Err(reason) => {
            anomalies.push(ProfileAnomaly::LockInspectionFailure(reason));
        },
    }
    assert(anomaly_models(anomalies@) =~= anomaly_models(old(anomalies)@) + lock_anomalies(locks));
}

// ---------------------------------------------------------------------------
// One profile
// ---------------------------------------------------------------------------

pub open spec fn is_system_sid(sid: Seq<char>) -> bool {
    sid == LOCAL_SYSTEM_SID@ || sid == LOCAL_SERVICE_SID@ || sid == NETWORK_SERVICE_SID@
}

pub open spec fn has_temp_bit(state_mask: u32) -> bool {
    state_mask & STATE_TEMP_PROFILE != 0
}

pub open spec fn account_anomalies(account: Result<(String, String), String>) -> Seq<AnomalyModel> {
    match account {
        Ok(_) => Seq::empty(),
        Err(reason) => seq![AnomalyModel::SidResolutionFailure(reason@)],
    }
}

pub open spec fn hive_anomalies(hive: Result<(), RegistryError>, sid: Seq<char>) -> Seq<
    AnomalyModel,
> {
    match hive {
        Ok(_) => Seq::empty(),
        Err(error) => if error.is_missing_key() {
            Seq::empty()
        } else {
            seq![AnomalyModel::RegistryReadFailure("HKEY_USERS\\"@ + sid + ": "@ + error.text())]
        },
    }
}

/// A temporary session, or any other state bit.
pub open spec fn state_anomalies(state_mask: u32) -> Seq<AnomalyModel> {
    if has_temp_bit(state_mask) {
        seq![AnomalyModel::TempSession]
    } else if state_mask != 0 {
        seq![AnomalyModel::DirtyStateMask(state_mask)]
    } else {
        Seq::empty()
    }
}

pub open spec fn size_anomalies(r: ProfileReadings) -> Seq<AnomalyModel> {
    match r.size {
        Err(reason) => if r.dir_exists {
            seq![AnomalyModel::FilesystemScanFailure(reason@)]
        } else {
            Seq::empty()
        },
        Ok(_) => Seq::empty(),
    }
}

/// Every anomaly of a profile but a path collision, in the order of inspection.
#[verifier::opaque]
pub open spec fn observed_anomalies(key_name: Seq<char>, r: ProfileReadings) -> Seq<AnomalyModel> {
    let sid = without_suffix(key_name, BAK_EXTENSION@);
    let path = required_value(r.image_path);
    required_anomalies(r.image_path, VAL_PROFILE_IMAGE_PATH@) + optional_anomalies(
        r.state,
        VAL_STATE@,
    ) + optional_anomalies(r.ref_count, VAL_REF_COUNT@) + optional_anomalies(r.guid, VAL_GUID@)
        + account_anomalies(r.account) + hive_anomalies(r.hive, sid) + (if has_suffix(
        key_name,
        BAK_EXTENSION@,
    ) {
        seq![AnomalyModel::BakSuffix]
    } else {
        Seq::<AnomalyModel>::empty()
    }) + state_anomalies(number_or_zero(r.state)) + (if r.dir_exists {
        Seq::<AnomalyModel>::empty()
    } else {
        seq![AnomalyModel::MissingDirectory(path)]
    }) + (if r.dir_exists && r.ntuser_exists && r.hive is Err {
        lock_anomalies(r.locks)
    } else {
        Seq::<AnomalyModel>::empty()
    }) + size_anomalies(r)
}

/// The profile that a key and its readings describe.
pub open spec fn observed_profile(key_name: Seq<char>, r: ProfileReadings) -> ProfileModel {
    let sid = without_suffix(key_name, BAK_EXTENSION@);
    ProfileModel {
        sid: key_name,
        canonical_sid: sid,
        username: match r.account {
            Ok(account) => account.1@,
            Err(_) => sid,
        },
        domain: match r.account {
            Ok(account) => account.0@,
            Err(_) => Seq::empty(),
        },
        profile_path: required_value(r.image_path),
        loaded: r.hive is Ok,
        is_bak: has_suffix(key_name, BAK_EXTENSION@),
        state_mask: number_or_zero(r.state),
        ref_count: number_or_zero(r.ref_count),
        guid: match r.guid {
            Ok(guid) => Some(guid@),
            Err(_) => None,
        },
        ntuser_exists: r.ntuser_exists,
        usrclass_exists: r.usrclass_exists,
        disk_size_bytes: match r.size {
            Ok(size) => if r.dir_exists {
                size
            } else {
                0
            },
            Err(_) => 0,
        },
        anomalies: observed_anomalies(key_name, r),
        health: health_of(has_suffix(key_name, BAK_EXTENSION@), observed_anomalies(key_name, r)),
    }
}

/// Puts together the profile that a key and its readings describe.
#[verifier::rlimit(40)]
pub fn assess_profile(key_name: String, readings: ProfileReadings) -> (r: UserProfile)
    ensures
        r@ == observed_profile(key_name@, readings),
{
    let ghost name = key_name@;
    let ghost given = readings;
    let ghost none = Seq::<AnomalyModel>::empty();
    let is_bak = ends_with(key_name.as_str(), BAK_EXTENSION);
    let canonical_sid = strip_suffix_or_self(key_name.as_str(), BAK_EXTENSION);
    let mut anomalies: Vec<ProfileAnomaly> = Vec::new();
    let profile_path = required_string(
        readings.image_path,
        VAL_PROFILE_IMAGE_PATH,
        &mut anomalies,
    );
    let state_mask = optional_u32(readings.state, VAL_STATE, &mut anomalies);
    let ref_count = optional_u32(readings.ref_count, VAL_REF_COUNT, &mut anomalies);
    let guid = optional_string(readings.guid, VAL_GUID, &mut anomalies);
    let ghost read = anomaly_models(anomalies@);
    let (domain, username) = match readings.account {
        Ok(account) => account,
        Err(reason) => {
            anomalies.push(ProfileAnomaly::SidResolutionFailure(reason));
            (String::new(), canonical_sid.clone())
        },
    };
    assert(anomaly_models(anomalies@) =~= read + account_anomalies(given.account));
    let ghost resolved = anomaly_models(anomalies@);
    let loaded = match readings.hive {
        Ok(_) => true,
        Err(error) => {
            if !error.missing_key() {
                let reason = error.message();
                anomalies.push(
                    ProfileAnomaly::RegistryReadFailure(
                        cat4("HKEY_USERS\\", canonical_sid.as_str(), ": ", reason.as_str()),
                    ),
                );
            }
            false
        },
    };
    assert(anomaly_models(anomalies@) =~= resolved + hive_anomalies(
        given.hive,
        canonical_sid@,
    ));
    let ghost opened = anomaly_models(anomalies@);
    if is_bak {
        anomalies.push(ProfileAnomaly::BakSuffix);
    }
    if state_mask & STATE_TEMP_PROFILE != 0 {
        anomalies.push(ProfileAnomaly::TempSession);
    }
    if state_mask != 0 && state_mask & STATE_TEMP_PROFILE == 0 {
        anomalies.push(ProfileAnomaly::DirtyStateMask(state_mask));
    }
    let ghost bak = if is_bak {
        seq![AnomalyModel::BakSuffix]
    } else {
        none
    };
    proof {
        assert(0u32 & STATE_TEMP_PROFILE == 0) by (bit_vector);
        assert(anomaly_models(anomalies@) =~= opened + bak + state_anomalies(state_mask));
    }
    let ghost stated = anomaly_models(anomalies@);
    if !readings.dir_exists {
        anomalies.push(ProfileAnomaly::MissingDirectory(profile_path.clone()));
    }
    let ghost dir = if given.dir_exists {
        none
    } else {
        seq![AnomalyModel::MissingDirectory(profile_path@)]
    };
    assert(anomaly_models(anomalies@) =~= stated + dir);
    let ghost placed = anomaly_models(anomalies@);
    if readings.dir_exists && readings.ntuser_exists && !loaded {
        inspect_locks(readings.locks, &mut anomalies);
    }
    let ghost locks = if given.dir_exists && given.ntuser_exists && given.hive is Err {
        lock_anomalies(given.locks)
    } else {
        none
    };
    assert(anomaly_models(anomalies@) =~= placed + locks);
    let ghost locked = anomaly_models(anomalies@);
    let disk_size_bytes: u64 = if readings.dir_exists {
        match readings.size {
            Ok(size) => size,
            Err(reason) => {
                anomalies.push(ProfileAnomaly::FilesystemScanFailure(reason));
                0
            },
        }
    } else {
        0
    };
    assert(anomaly_models(anomalies@) =~= locked + size_anomalies(given));
    proof {
        reveal(observed_anomalies);
        assert(anomaly_models(anomalies@) =~= observed_anomalies(name, given));
    }
    let mut profile = UserProfile {
        sid: key_name,
        canonical_sid: canonical_sid,
        username: username,
        domain: domain,
        profile_path: profile_path,
        loaded: loaded,
        is_bak: is_bak,
        state_mask: state_mask,
        ref_count: ref_count,
        guid: guid,
        ntuser_exists: readings.ntuser_exists,
        usrclass_exists: readings.usrclass_exists,
        disk_size_bytes: disk_size_bytes,
        anomalies: anomalies,
        health: ProfileHealth::Healthy,
    };
    profile.compute_health();
    assert(profile@ =~= observed_profile(name, given));
    profile
}

// ---------------------------------------------------------------------------
// Path collisions
// ---------------------------------------------------------------------------

/// The form in which profile paths are compared.
pub open spec fn path_key(path: Seq<char>) -> Seq<char> {
    ascii_lower(without_trailing_slashes(path))
}

/// Whether another profile has the same path.
pub open spec fn collides(profiles: Seq<ProfileModel>, i: int) -> bool {
    !is_blank(profiles[i].profile_path) && exists|j: int|
        0 <= j < profiles.len() && j != i && !is_blank((#[trigger] profiles[j]).profile_path)
            && path_key(profiles[j].profile_path) == path_key(profiles[i].profile_path)
}

/// The profiles with each collision recorded.
pub open spec fn with_collisions(profiles: Seq<ProfileModel>) -> Seq<ProfileModel> {
    Seq::new(
        profiles.len(),
        |i: int|
            if collides(profiles, i) {
                profiles[i].with_anomaly(
                    AnomalyModel::PathCollision(profiles[i].profile_path),
                ).assessed()
            } else {
                profiles[i]
            },
    )
}

fn collides_with_another(keys: &Vec<Option<String>>, i: usize) -> (r: bool)
    requires
        i < keys@.len(),
    ensures
        r == (keys@[i as int] is Some && exists|j: int|
            0 <= j < keys@.len() && j != i && (#[trigger] keys@[j]) is Some && keys@[j]->0@
                == keys@[i as int]->0@),
{
    match &keys[i] {
        None => false,
        Some(mine) => {
            let mut j: usize = 0;
            while j < keys.len()
                invariant
                    j <= keys@.len(),
                    i < keys@.len(),
                    keys@[i as int] is Some,
                    keys@[i as int]->0@ == mine@,
                    forall|k: int|
                        0 <= k < j && k != i && (#[trigger] keys@[k]) is Some ==> keys@[k]->0@
                            != mine@,
                decreases keys.len() - j,
            {
                if j != i {
                    match &keys[j] {
                        Some(other) => {
                            if str_eq(other.as_str(), mine.as_str()) {
                                assert(keys@[j as int] is Some);
                                return true;
                            }
                        },
                        None => {},
                    }
                }
                j += 1;
            }
            false
        },
    }
}

/// Records a path collision in every profile that shares its path with another.
pub fn mark_path_collisions(profiles: &mut Vec<UserProfile>)
    ensures
        profile_models(final(profiles)@) == with_collisions(profile_models(old(profiles)@)),
{
    let ghost before = profile_models(profiles@);
    let ghost start = profiles@;
    let mut keys: Vec<Option<String>> = Vec::new();
    let mut i: usize = 0;
    while i < profiles.len()
        invariant
            i <= profiles@.len(),
            profiles@ == start,
            before == profile_models(start),
            keys@.len() == i,
            forall|k: int|
                0 <= k < i ==> (match #[trigger] keys@[k] {
                    Some(key) => !is_blank(before[k].profile_path) && key@ == path_key(
                        before[k].profile_path,
                    ),
                    None => is_blank(before[k].profile_path),
                }),
        decreases profiles.len() - i,
    {
        let path = profiles[i].profile_path.as_str();
        if is_blank_str(path) {
            keys.push(None);
        } else {
            let bare = trim_trailing_slashes(path);
            keys.push(Some(to_ascii_lower(bare.as_str())));
        }
        i += 1;
    }
    let mut i: usize = 0;
    while i < profiles.len()
        invariant
            i <= profiles@.len(),
            profiles@.len() == start.len(),
            keys@.len() == start.len(),
            before == profile_models(start),
            forall|k: int|
                0 <= k < keys@.len() ==> (match #[trigger] keys@[k] {
                    Some(key) => !is_blank(before[k].profile_path) && key@ == path_key(
                        before[k].profile_path,
                    ),
                    None => is_blank(before[k].profile_path),
                }),
            forall|k: int|
                0 <= k < i ==> (#[trigger] profiles@[k])@ == with_collisions(before)[k],
            forall|k: int| i <= k < start.len() ==> (#[trigger] profiles@[k]) == start[k],
        decreases profiles.len() - i,
    {
        let hit = collides_with_another(&keys, i);
        proof {
            if hit {
                let j = choose|j: int|
                    0 <= j < keys@.len() && j != i && (#[trigger] keys@[j]) is Some && keys@[j]->0@
                        == keys@[i as int]->0@;
                assert(!is_blank(before[j].profile_path));
                assert(collides(before, i as int));
            } else if collides(before, i as int) {
                let j = choose|j: int|
                    0 <= j < before.len() && j != i && !is_blank(
                        (#[trigger] before[j]).profile_path,
                    ) && path_key(before[j].profile_path) == path_key(
                        before[i as int].profile_path,
                    );
                assert(keys@[j] is Some);
                assert(false);
            }
            assert(start[i as int]@ == before[i as int]);
        }
        if hit {
            profiles[i].mark_collision();
        }
        i += 1;
    }
    assert(profile_models(profiles@) =~= with_collisions(before));
}

// ---------------------------------------------------------------------------
// The whole list
// ---------------------------------------------------------------------------

/// Whether an observation is of a profile that can be shown, that is, not of a
/// system account.
pub open spec fn is_shown(o: ProfileObservation) -> bool {
    !is_system_sid(without_suffix(o.key_name@, BAK_EXTENSION@))
}

/// Whether an observation stops the scan.
pub open spec fn is_unreadable(o: ProfileObservation) -> bool {
    is_shown(o) && o.readings is Err
}

/// The profiles that observations describe, in their order.
pub open spec fn observed_profiles(list: Seq<ProfileObservation>) -> Seq<ProfileModel>
    decreases list.len(),
{
    if list.len() == 0 {
        Seq::empty()
    } else {
        let front = observed_profiles(list.drop_last());
        let last = list.last();
        if is_shown(last) && last.readings is Ok {
            front.push(observed_profile(last.key_name@, last.readings->Ok_0))
        } else {
            front
        }
    }
}

/// What a scan of the profile list gives.
pub open spec fn scan_outcome(
    list: Result<Vec<ProfileObservation>, RegistryError>,
    r: Result<Vec<UserProfile>, ScannerError>,
) -> bool {
    match list {
        Err(error) => r == Result::<Vec<UserProfile>, ScannerError>::Err(
            ScannerError::RegistryError(error),
        ),
        Ok(list) => match r {
            Err(error) => exists|i: int|
                0 <= i < list@.len() && #[trigger] is_unreadable(list@[i]) && (forall|j: int|
                    0 <= j < i ==> !#[trigger] is_unreadable(list@[j])) && (error matches
                    ScannerError::ProfileKeyUnreadable { key, source } && key@
                    == list@[i].key_name@ && source == list@[i].readings->Err_0),
            Ok(profiles) => (forall|j: int|
                0 <= j < list@.len() ==> !#[trigger] is_unreadable(list@[j])) && profile_models(
                profiles@,
            ) == with_collisions(observed_profiles(list@)),
        },
    }
}

/// How many profiles have a given health.
pub open spec fn count_health(profiles: Seq<ProfileModel>, health: ProfileHealth) -> nat
    decreases profiles.len(),
{
    if profiles.len() == 0 {
        0
    } else {
        count_health(profiles.drop_last(), health) + (if profiles.last().health == health {
            1nat
        } else {
            0nat
        })
    }
}

pub open spec fn is_temporary(profile: ProfileModel) -> bool {
    exists|i: int| 0 <= i < profile.anomalies.len() && #[trigger] profile.anomalies[i] is TempSession
}

/// How many profiles are in a temporary session.
pub open spec fn count_temporary(profiles: Seq<ProfileModel>) -> nat
    decreases profiles.len(),
{
    if profiles.len() == 0 {
        0
    } else {
        count_temporary(profiles.drop_last()) + (if is_temporary(profiles.last()) {
            1nat
        } else {
            0nat
        })
    }
}

/// Every profile has exactly one health, so the three counts add up.
pub proof fn health_counts_partition(profiles: Seq<ProfileModel>)
    ensures
        count_health(profiles, ProfileHealth::Healthy) + count_health(
            profiles,
            ProfileHealth::Warning,
        ) + count_health(profiles, ProfileHealth::Corrupted) == profiles.len(),
        count_temporary(profiles) <= profiles.len(),
    decreases profiles.len(),
{
    if profiles.len() > 0 {
        health_counts_partition(profiles.drop_last());
    }
}

fn has_temp_session(anomalies: &Vec<ProfileAnomaly>) -> (r: bool)
    ensures
        r == exists|i: int|
            0 <= i < anomalies@.len() && #[trigger] anomaly_models(anomalies@)[i] is TempSession,
{
    let mut i: usize = 0;
    while i < anomalies.len()
        invariant
            i <= anomalies@.len(),
            forall|k: int|
                0 <= k < i ==> !(#[trigger] anomaly_models(anomalies@)[k] is TempSession),
        decreases anomalies.len() - i,
    {
        let hit = match anomalies[i] {
            ProfileAnomaly::TempSession => true,
            _ => false,
        };
        assert(anomaly_models(anomalies@)[i as int] is TempSession == hit);
        if hit {
            return true;
        }
        i += 1;
    }
    false
}

/// Counts the profiles of a scan.
pub fn build_diagnostic_report(profiles: Vec<UserProfile>, timestamp: UtcTime) -> (r:
    DiagnosticReport)
    ensures
        r.timestamp == timestamp,
        r.profiles == profiles,
        r.total_count == profiles@.len(),
        r.healthy_count == count_health(profile_models(profiles@), ProfileHealth::Healthy),
        r.warning_count == count_health(profile_models(profiles@), ProfileHealth::Warning),
        r.corrupted_count == count_health(profile_models(profiles@), ProfileHealth::Corrupted),
        r.temporary_count == count_temporary(profile_models(profiles@)),
        r.counts_partition(),
{
    let ghost all = profile_models(profiles@);
    let mut healthy: usize = 0;
    let mut warning: usize = 0;
    let mut corrupted: usize = 0;
    let mut temporary: usize = 0;
    let mut i: usize = 0;
    assert(all.take(0) =~= Seq::<ProfileModel>::empty());
    while i < profiles.len()
        invariant
            i <= profiles@.len(),
            all == profile_models(profiles@),
            healthy == count_health(all.take(i as int), ProfileHealth::Healthy),
            warning == count_health(all.take(i as int), ProfileHealth::Warning),
            corrupted == count_health(all.take(i as int), ProfileHealth::Corrupted),
            temporary == count_temporary(all.take(i as int)),
            healthy + warning + corrupted == i,
            temporary <= i,
        decreases profiles.len() - i,
    {
        assert(all.take(i + 1).drop_last() =~= all.take(i as int));
        assert(all.take(i + 1).last() == profiles@[i as int]@);
        match profiles[i].health {
            ProfileHealth::Healthy => {
                healthy += 1;
            },
            ProfileHealth::Warning => {
                warning += 1;
            },
            ProfileHealth::Corrupted => {
                corrupted += 1;
            },
        }
        if has_temp_session(&profiles[i].anomalies) {
            temporary += 1;
        }
        i += 1;
    }
    assert(all.take(i as int) =~= all);
    DiagnosticReport {
        timestamp: timestamp,
        total_count: profiles.len(),
        healthy_count: healthy,
        warning_count: warning,
        corrupted_count: corrupted,
        temporary_count: temporary,
        profiles: profiles,
    }
}

/// The profile of one key; `None` where it is of a system account.
fn scan_key(observation: ProfileObservation) -> (r: Result<Option<UserProfile>, ScannerError>)
    ensures
        match r {
            Ok(Some(profile)) => is_shown(observation) && observation.readings is Ok && profile@
                == observed_profile(observation.key_name@, observation.readings->Ok_0),
            Ok(None) => !is_shown(observation),
            Err(error) => is_unreadable(observation) && (error matches
                ScannerError::ProfileKeyUnreadable { key, source } && key@
                == observation.key_name@ && source == observation.readings->Err_0),
        },
{
    let sid = strip_suffix_or_self(observation.key_name.as_str(), BAK_EXTENSION);
    if str_eq(sid.as_str(), LOCAL_SYSTEM_SID) || str_eq(sid.as_str(), LOCAL_SERVICE_SID) || str_eq(
        sid.as_str(),
        NETWORK_SERVICE_SID,
    ) {
        return Ok(None);
    }
    match observation.readings {
        Ok(readings) => Ok(Some(assess_profile(observation.key_name, readings))),
        Err(source) => Err(
            ScannerError::ProfileKeyUnreadable { key: observation.key_name, source: source },
        ),
    }
}

/// Turns what was read of the profile list into profiles.
pub struct ProfileScanner;

impl ProfileScanner {
    /// The report of a scan: the profiles and their counts.
    pub fn scan_all(
        list: Result<Vec<ProfileObservation>, RegistryError>,
        timestamp: UtcTime,
    ) -> (r: Result<DiagnosticReport, ScannerError>)
        ensures
            exists|profiles: Result<Vec<UserProfile>, ScannerError>| #[trigger]
                scan_outcome(list, profiles) && (match profiles {
                    Err(error) => r == Result::<DiagnosticReport, ScannerError>::Err(error),
                    Ok(found) => r matches Ok(report) && report.profiles == found
                        && report.timestamp == timestamp && report.total_count == found@.len()
                        && report.healthy_count == count_health(
                        profile_models(found@),
                        ProfileHealth::Healthy,
                    ) && report.warning_count == count_health(
                        profile_models(found@),
                        ProfileHealth::Warning,
                    ) && report.corrupted_count == count_health(
                        profile_models(found@),
                        ProfileHealth::Corrupted,
                    ) && report.temporary_count == count_temporary(profile_models(found@))
                        && report.counts_partition(),
                }),
    {
        let scanned = ProfileScanner::scan_all_profiles(list);
        let ghost seen = scanned;
        assert(scan_outcome(list, seen));
        match scanned {
            Ok(profiles) => Ok(build_diagnostic_report(profiles, timestamp)),
            Err(error) => Err(error),
        }
    }

    /// The profiles of a scan. A key that cannot be opened stops it; system
    /// accounts are passed over.
    pub fn scan_all_profiles(list: Result<Vec<ProfileObservation>, RegistryError>) -> (r: Result<
        Vec<UserProfile>,
        ScannerError,
    >)
        ensures
            scan_outcome(list, r),
    {
        let observations = match list {
            Ok(observations) => observations,
            Err(error) => {
                return Err(ScannerError::RegistryError(error));
            },
        };
        let ghost all = observations@;
        let mut profiles: Vec<UserProfile> = Vec::new();
        assert(all.take(0) =~= Seq::<ProfileObservation>::empty());
        for observation in it: observations
            invariant
                it.seq() == all,
                list is Ok,
                list->Ok_0@ == all,
                forall|j: int| 0 <= j < it.index() ==> !#[trigger] is_unreadable(all[j]),
                profile_models(profiles@) =~= observed_profiles(all.take(it.index() as int)),
        {
            let ghost at = it.index() as int;
            let ghost given = observation;
            assert(all[at] == given);
            assert(all.take(at + 1).drop_last() =~= all.take(at));
            assert(all.take(at + 1).last() == given);
            match scan_key(observation) {
                Ok(Some(profile)) => {
                    profiles.push(profile);
                },
                Ok(None) => {},
                Err(error) => {
                    assert(is_unreadable(all[at]));
                    return Err(error);
                },
            }
        }
        assert(all.take(all.len() as int) =~= all);
        mark_path_collisions(&mut profiles);
        Ok(profiles)
    }
}

// ---------------------------------------------------------------------------
// Directory sizes
// ---------------------------------------------------------------------------

/// A directory as it was walked, without following reparse points.
pub struct ScannedDirectory {
    pub path: String,
    pub is_reparse: bool,
    /// What the directory holds, or why it was not listed.
    pub entries: Result<Vec<ScannedEntry>, String>,
}

pub enum ScannedEntry {
    /// The entry, or its metadata, could not be read.
    Failed(String),
    /// A reparse point, which is passed over.
    Reparse,
    File(u64),
    Directory(ScannedDirectory),
    /// Neither a file nor a directory, with its path.
    Other(String),
}

/// The number of bytes below a directory, or the first failure met.
pub open spec fn tree_bytes(dir: ScannedDirectory) -> Result<nat, Seq<char>>
    decreases dir,
{
    if dir.is_reparse {
        Err("reparse point refused: "@ + dir.path@)
    } else {
        match dir.entries {
            Err(reason) => Err(reason@),
            Ok(entries) => entries_bytes(entries, entries@.len()),
        }
    }
}

/// The number of bytes below the first `n` entries, or the first failure met.
pub open spec fn entries_bytes(entries: Vec<ScannedEntry>, n: nat) -> Result<nat, Seq<char>>
    decreases entries, n,
{
    if n == 0 || n > entries@.len() {
        Ok(0)
    } else {
        match entries_bytes(entries, (n - 1) as nat) {
            Err(reason) => Err(reason),
            Ok(front) => match entries@[n - 1] {
                ScannedEntry::Failed(reason) => Err(reason@),
                ScannedEntry::Reparse => Ok(front),
                ScannedEntry::File(size) => Ok(front + size as nat),
                ScannedEntry::Directory(child) => match tree_bytes(child) {
                    Ok(size) => Ok(front + size),
                    Err(reason) => Err(reason),
                },
                ScannedEntry::Other(path) => Err("unsupported filesystem entry: "@ + path@),
            },
        }
    }
}

/// A number of bytes, held at the largest that fits.
pub open spec fn saturated(bytes: nat) -> u64 {
    if bytes > u64::MAX {
        u64::MAX
    } else {
        bytes as u64
    }
}

/// The size of a directory tree; it stays at the largest number where it would
/// overflow.
pub fn directory_size(dir: &ScannedDirectory) -> (r: Result<u64, String>)
    ensures
        match tree_bytes(*dir) {
            Ok(bytes) => r matches Ok(size) && size == saturated(bytes),
            Err(reason) => r matches Err(text) && text@ == reason,
        },
    decreases dir,
{
    if dir.is_reparse {
        return Err(cat2("reparse point refused: ", dir.path.as_str()));
    }
    match &dir.entries {
        Err(reason) => Err(owned(reason.as_str())),
        Ok(entries) => entries_size(entries, entries.len()),
    }
}

fn entries_size(entries: &Vec<ScannedEntry>, n: usize) -> (r: Result<u64, String>)
    requires
        n <= entries@.len(),
    ensures
        match entries_bytes(*entries, n as nat) {
            Ok(bytes) => r matches Ok(size) && size == saturated(bytes),
            Err(reason) => r matches Err(text) && text@ == reason,
        },
    decreases entries, n,
{
    if n == 0 {
        return Ok(0);
    }
    let front = match entries_size(entries, n - 1) {
        Ok(front) => front,
        Err(reason) => {
            return Err(reason);
        },
    };
    match &entries[n - 1] {
        ScannedEntry::Failed(reason) => Err(owned(reason.as_str())),
        ScannedEntry::Reparse => Ok(front),
        ScannedEntry::File(size) => Ok(front.saturating_add(*size)),
        ScannedEntry::Directory(child) => match directory_size(child) {
            Ok(size) => Ok(front.saturating_add(size)),
            Err(reason) => Err(reason),
        },
        ScannedEntry::Other(path) => Err(cat2("unsupported filesystem entry: ", path.as_str())),
    }
}

/// What an entry weighs: a file its bytes, a directory what its own size is, a link nothing.
pub open spec fn weight(entry: ScannedEntry) -> nat {
    match entry {
        ScannedEntry::File(size) => size as nat,
        ScannedEntry::Directory(child) => tree_bytes(child)->Ok_0,
        _ => 0,
    }
}

/// The sum of the weights of the first entries.
pub open spec fn weight_of(entries: Seq<ScannedEntry>) -> nat
    decreases entries.len(),
{
    if entries.len() == 0 {
        0
    } else {
        weight_of(entries.drop_last()) + weight(entries.last())
    }
}

proof fn lemma_entries_weigh(entries: Vec<ScannedEntry>, n: nat)
    requires
        n <= entries@.len(),
        entries_bytes(entries, n) is Ok,
    ensures
        entries_bytes(entries, n)->Ok_0 == weight_of(entries@.take(n as int)),
        forall|i: int|
            0 <= i < n ==> !(#[trigger] entries@[i] is Failed) && !(entries@[i] is Other) && (
            entries@[i] matches ScannedEntry::Directory(child) ==> tree_bytes(child) is Ok),
    decreases n,
{
    if n > 0 {
        lemma_entries_weigh(entries, (n - 1) as nat);
        let part = entries@.take(n as int);
        assert(part.drop_last() =~= entries@.take(n - 1));
        assert(part.last() == entries@[n - 1]);
    }
}

/// A size is told only where all of a directory was read and no part of it is a link that
/// would be followed; it is then the sum of what the directory holds.
pub proof fn a_size_is_the_sum_of_what_was_read(dir: ScannedDirectory)
    requires
        tree_bytes(dir) is Ok,
    ensures
        !dir.is_reparse,
        dir.entries matches Ok(entries) && tree_bytes(dir)->Ok_0 == weight_of(entries@) && forall|
            i: int,
        |
            0 <= i < entries@.len() ==> !(#[trigger] entries@[i] is Failed) && !(entries@[i] is
                Other) && (entries@[i] matches ScannedEntry::Directory(child) ==> tree_bytes(child)
                is Ok),
{
    let entries = dir.entries->Ok_0;
    lemma_entries_weigh(entries, entries@.len());
    assert(entries@.take(entries@.len() as int) =~= entries@);
}

} // verus!
