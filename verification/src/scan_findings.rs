//! What a scan finds, told from what was read.
use crate::models::{profile_models, AnomalyModel, ProfileModel, UserProfile};
use crate::registry::RegistryError;
use crate::scanner::{
    account_anomalies, collides, hive_anomalies, is_shown, is_unreadable, lock_anomalies,
    observed_anomalies, observed_profile, observed_profiles, optional_anomalies,
    required_anomalies, scan_outcome, size_anomalies, state_anomalies, with_collisions,
    ProfileObservation, ProfileReadings, ScannerError,
};
use crate::text::{ascii_lower, has_suffix, is_blank, without_suffix, without_trailing_slashes};
use vstd::prelude::*;

verus! {

/// Whether a key of the profile list is that of a user: not of one of the accounts under
/// which Windows itself runs, set aside or not.
pub open spec fn is_user_key(key: Seq<char>) -> bool {
    &&& key != "S-1-5-18"@ && key != "S-1-5-18"@ + ".bak"@
    &&& key != "S-1-5-19"@ && key != "S-1-5-19"@ + ".bak"@
    &&& key != "S-1-5-20"@ && key != "S-1-5-20"@ + ".bak"@
}

/// How many of the first keys of a list are those of users.
pub open spec fn users_before(list: Seq<ProfileObservation>, i: int) -> nat
    decreases i,
{
    if i <= 0 {
        0
    } else {
        users_before(list, i - 1) + (if is_user_key(list[i - 1].key_name@) {
            1nat
        } else {
            0nat
        })
    }
}

spec fn mask_read(state: Result<u32, RegistryError>) -> u32 {
    match state {
        Ok(mask) => mask,
        Err(_) => 0,
    }
}

proof fn lemma_set_aside(key: Seq<char>, sid: Seq<char>)
    requires
        !has_suffix(sid, ".bak"@),
    ensures
        without_suffix(key, ".bak"@) == sid <==> key == sid || key == sid + ".bak"@,
{
    reveal_strlit(".bak");
    if key == sid + ".bak"@ {
        assert(key.skip(key.len() - 4) =~= ".bak"@);
        assert(key.take(key.len() - 4) =~= sid);
    }
    if has_suffix(key, ".bak"@) {
        assert(key =~= key.take(key.len() - 4) + key.skip(key.len() - 4));
    }
}

proof fn lemma_users_are_shown(o: ProfileObservation)
    ensures
        is_shown(o) <==> is_user_key(o.key_name@),
{
    reveal_strlit(".bak");
    reveal_strlit("S-1-5-18");
    reveal_strlit("S-1-5-19");
    reveal_strlit("S-1-5-20");
    assert("S-1-5-18"@.skip(4)[0] != ".bak"@[0]);
    assert("S-1-5-19"@.skip(4)[0] != ".bak"@[0]);
    assert("S-1-5-20"@.skip(4)[0] != ".bak"@[0]);
    lemma_set_aside(o.key_name@, "S-1-5-18"@);
    lemma_set_aside(o.key_name@, "S-1-5-19"@);
    lemma_set_aside(o.key_name@, "S-1-5-20"@);
}

/// The users among fewer keys are those among the keys in front.
proof fn lemma_users_in_front(list: Seq<ProfileObservation>, i: int)
    requires
        0 <= i < list.len(),
    ensures
        users_before(list.drop_last(), i) == users_before(list, i),
    decreases i,
{
    if i > 0 {
        lemma_users_in_front(list, i - 1);
    }
}

proof fn lemma_place(list: Seq<ProfileObservation>, i: int)
    requires
        forall|j: int| 0 <= j < list.len() ==> !#[trigger] is_unreadable(list[j]),
        0 <= i <= list.len(),
    ensures
        observed_profiles(list).len() == users_before(list, list.len() as int),
        i < list.len() && is_user_key(list[i].key_name@) ==> {
            &&& list[i].readings is Ok
            &&& users_before(list, i) < observed_profiles(list).len()
            &&& observed_profiles(list)[users_before(list, i) as int] == observed_profile(
                list[i].key_name@,
                list[i].readings->Ok_0,
            )
        },
    decreases list.len(),
{
    if list.len() > 0 {
        let front = list.drop_last();
        let last = list.last();
        assert forall|j: int| 0 <= j < front.len() implies !#[trigger] is_unreadable(front[j]) by {
            assert(front[j] == list[j]);
        }
        lemma_users_are_shown(last);
        assert(!is_unreadable(list[list.len() - 1]));
        lemma_users_in_front(list, list.len() - 1);
        if i < front.len() {
            lemma_place(front, i);
            lemma_users_in_front(list, i);
            assert(front[i] == list[i]);
        } else {
            lemma_place(front, front.len() as int);
        }
    }
}

proof fn lemma_one_for_one(list: Vec<ProfileObservation>, profiles: Vec<UserProfile>)
    requires
        scan_outcome(Ok(list), Ok(profiles)),
    ensures
        profiles@.len() == observed_profiles(list@).len(),
        forall|j: int| 0 <= j < list@.len() ==> !#[trigger] is_unreadable(list@[j]),
        forall|b: int|
            0 <= b < profiles@.len() ==> (#[trigger] profiles@[b])@ == with_collisions(
                observed_profiles(list@),
            )[b],
        forall|b: int|
            0 <= b < profiles@.len() ==> (#[trigger] profiles@[b])@.profile_path
                == observed_profiles(list@)[b].profile_path,
{
    let shown = with_collisions(observed_profiles(list@));
    assert(profile_models(profiles@) == shown);
    assert(profile_models(profiles@).len() == profiles@.len());
    assert forall|b: int| 0 <= b < profiles@.len() implies (#[trigger] profiles@[b])@
        == shown[b] by {
        assert(profile_models(profiles@)[b] == profiles@[b]@);
    }
}

/// What a scan reports of a key: whose it is and what was read there. A profile is
/// reported as loaded exactly where its hive could be opened, and as set aside exactly
/// where its key says so.
pub proof fn a_scan_reports_what_was_read(
    list: Vec<ProfileObservation>,
    profiles: Vec<UserProfile>,
    i: int,
)
    requires
        scan_outcome(Ok(list), Ok(profiles)),
        0 <= i < list@.len(),
        is_user_key(list@[i].key_name@),
    ensures
        profiles@.len() == users_before(list@, list@.len() as int),
        users_before(list@, i) < profiles@.len(),
        list@[i].readings is Ok,
        ({
            let p = profiles@[users_before(list@, i) as int]@;
            let key = list@[i].key_name@;
            let r = list@[i].readings->Ok_0;
            &&& p.loaded <==> r.hive is Ok
            &&& p.sid == key
            &&& p.is_bak <==> has_suffix(key, ".bak"@)
            &&& p.is_bak ==> p.canonical_sid + ".bak"@ == key
            &&& !p.is_bak ==> p.canonical_sid == key
            &&& r.image_path is Ok && !is_blank(r.image_path->Ok_0@) ==> p.profile_path
                == r.image_path->Ok_0@
            &&& r.image_path is Err ==> p.profile_path.len() == 0
            &&& r.account matches Ok(account) ==> p.domain == account.0@ && p.username
                == account.1@
            &&& r.account is Err ==> p.username == p.canonical_sid
            &&& r.state matches Ok(mask) ==> p.state_mask == mask
            &&& r.ref_count matches Ok(count) ==> p.ref_count == count
            &&& r.guid matches Ok(guid) ==> p.guid == Some(guid@)
            &&& r.guid is Err ==> p.guid is None
            &&& p.ntuser_exists == r.ntuser_exists
            &&& p.usrclass_exists == r.usrclass_exists
            &&& r.dir_exists && r.size is Ok ==> p.disk_size_bytes == r.size->Ok_0
            &&& !r.dir_exists || r.size is Err ==> p.disk_size_bytes == 0
        }),
{
    reveal_strlit(".bak");
    lemma_one_for_one(list, profiles);
    lemma_place(list@, i);
    let found = observed_profiles(list@);
    let at = users_before(list@, i) as int;
    assert(with_collisions(found)[at] == profiles@[at]@);
    let key = list@[i].key_name@;
    if has_suffix(key, ".bak"@) {
        assert(key =~= key.take(key.len() - 4) + key.skip(key.len() - 4));
    }
}

proof fn lemma_in_either<T>(a: Seq<T>, b: Seq<T>)
    ensures
        forall|x: T| #[trigger] (a + b).contains(x) <==> a.contains(x) || b.contains(x),
{
    assert forall|x: T| #[trigger] (a + b).contains(x) <==> a.contains(x) || b.contains(x) by {
        if a.contains(x) {
            let k = choose|k: int| 0 <= k < a.len() && a[k] == x;
            assert((a + b)[k] == x);
        }
        if b.contains(x) {
            let k = choose|k: int| 0 <= k < b.len() && b[k] == x;
            assert((a + b)[a.len() + k] == x);
        }
        if (a + b).contains(x) {
            let k = choose|k: int| 0 <= k < (a + b).len() && (a + b)[k] == x;
            if k < a.len() {
                assert(a[k] == x);
            } else {
                assert(b[k - a.len()] == x);
            }
        }
    }
}

/// An anomaly was observed exactly where one of the inspections found it.
proof fn lemma_found_by_an_inspection(key: Seq<char>, r: ProfileReadings, a: AnomalyModel)
    ensures
        observed_anomalies(key, r).contains(a) <==> {
            ||| required_anomalies(r.image_path, "ProfileImagePath"@).contains(a)
            ||| optional_anomalies(r.state, "State"@).contains(a)
            ||| optional_anomalies(r.ref_count, "RefCount"@).contains(a)
            ||| optional_anomalies(r.guid, "Guid"@).contains(a)
            ||| account_anomalies(r.account).contains(a)
            ||| hive_anomalies(r.hive, without_suffix(key, ".bak"@)).contains(a)
            ||| has_suffix(key, ".bak"@) && a is BakSuffix
            ||| state_anomalies(mask_read(r.state)).contains(a)
            ||| !r.dir_exists && a == AnomalyModel::MissingDirectory(
                observed_profile(key, r).profile_path,
            )
            ||| r.dir_exists && r.ntuser_exists && r.hive is Err && lock_anomalies(
                r.locks,
            ).contains(a)
            ||| size_anomalies(r).contains(a)
        },
{
    reveal(observed_anomalies);
    let none = Seq::<AnomalyModel>::empty();
    let s1 = required_anomalies(r.image_path, "ProfileImagePath"@);
    let s2 = optional_anomalies(r.state, "State"@);
    let s3 = optional_anomalies(r.ref_count, "RefCount"@);
    let s4 = optional_anomalies(r.guid, "Guid"@);
    let s5 = account_anomalies(r.account);
    let s6 = hive_anomalies(r.hive, without_suffix(key, ".bak"@));
    let s7 = if has_suffix(key, ".bak"@) {
        seq![AnomalyModel::BakSuffix]
    } else {
        none
    };
    let s8 = state_anomalies(mask_read(r.state));
    let gone = AnomalyModel::MissingDirectory(observed_profile(key, r).profile_path);
    let s9 = if r.dir_exists {
        none
    } else {
        seq![gone]
    };
    let s10 = if r.dir_exists && r.ntuser_exists && r.hive is Err {
        lock_anomalies(r.locks)
    } else {
        none
    };
    let s11 = size_anomalies(r);
    assert(observed_anomalies(key, r) == s1 + s2 + s3 + s4 + s5 + s6 + s7 + s8 + s9 + s10 + s11);
    lemma_in_either(s1, s2);
    lemma_in_either(s1 + s2, s3);
    lemma_in_either(s1 + s2 + s3, s4);
    lemma_in_either(s1 + s2 + s3 + s4, s5);
    lemma_in_either(s1 + s2 + s3 + s4 + s5, s6);
    lemma_in_either(s1 + s2 + s3 + s4 + s5 + s6, s7);
    lemma_in_either(s1 + s2 + s3 + s4 + s5 + s6 + s7, s8);
    lemma_in_either(s1 + s2 + s3 + s4 + s5 + s6 + s7 + s8, s9);
    lemma_in_either(s1 + s2 + s3 + s4 + s5 + s6 + s7 + s8 + s9, s10);
    lemma_in_either(s1 + s2 + s3 + s4 + s5 + s6 + s7 + s8 + s9 + s10, s11);
    if has_suffix(key, ".bak"@) {
        assert(s7[0] is BakSuffix);
    }
    if !r.dir_exists {
        assert(s9[0] == gone);
    }
}

/// What a scan finds of each profile, no more and no less: a key that was set aside, a
/// temporary session, any other state, a directory that is gone, processes that hold the
/// hive of a profile that is not in use, an account that is not known, a tree that could
/// not be walked, and a path that another profile has too.
pub proof fn a_scan_finds_every_anomaly(
    list: Vec<ProfileObservation>,
    profiles: Vec<UserProfile>,
    i: int,
)
    requires
        scan_outcome(Ok(list), Ok(profiles)),
        0 <= i < list@.len(),
        is_user_key(list@[i].key_name@),
    ensures
        ({
            let at = users_before(list@, i) as int;
            let p = profiles@[at]@;
            let key = list@[i].key_name@;
            let r = list@[i].readings->Ok_0;
            &&& p.anomalies.contains(AnomalyModel::BakSuffix) <==> has_suffix(key, ".bak"@)
            &&& p.anomalies.contains(AnomalyModel::TempSession) <==> r.state is Ok
                && r.state->Ok_0 & 0x80 != 0
            &&& forall|mask: u32|
                #[trigger] p.anomalies.contains(AnomalyModel::DirtyStateMask(mask)) <==> r.state
                    == Result::<u32, RegistryError>::Ok(mask) && mask != 0 && mask & 0x80 == 0
            &&& forall|path: Seq<char>|
                #[trigger] p.anomalies.contains(AnomalyModel::MissingDirectory(path))
                    <==> !r.dir_exists && path == p.profile_path
            &&& forall|reason: Seq<char>|
                #[trigger] p.anomalies.contains(AnomalyModel::SidResolutionFailure(reason)) <==> (
                r.account is Err && r.account->Err_0@ == reason)
            &&& forall|reason: Seq<char>|
                #[trigger] p.anomalies.contains(AnomalyModel::FilesystemScanFailure(reason)) <==> (
                r.dir_exists && r.size is Err && r.size->Err_0@ == reason)
            &&& forall|reason: Seq<char>|
                #[trigger] p.anomalies.contains(AnomalyModel::LockInspectionFailure(reason)) <==> (
                r.dir_exists && r.ntuser_exists && r.hive is Err && r.locks is Err
                    && r.locks->Err_0@ == reason)
            &&& r.dir_exists && r.ntuser_exists && r.hive is Err && r.locks is Ok
                && r.locks->Ok_0@.len() > 0 ==> exists|names: Seq<Seq<char>>|
                #[trigger] p.anomalies.contains(AnomalyModel::LockedNtUserDat(names))
                    && names.len() == r.locks->Ok_0@.len()
            &&& forall|names: Seq<Seq<char>>|
                #[trigger] p.anomalies.contains(AnomalyModel::LockedNtUserDat(names)) ==> {
                    &&& r.dir_exists && r.ntuser_exists && r.hive is Err && r.locks is Ok
                    &&& names.len() == r.locks->Ok_0@.len() && names.len() > 0
                    &&& forall|k: int|
                        0 <= k < names.len() ==> has_front(
                            #[trigger] names[k],
                            r.locks->Ok_0@[k].app_name@,
                        )
                }
            &&& !p.anomalies.contains(AnomalyModel::OrphanSid)
        }),
{
    a_scan_reports_what_was_read(list, profiles, i);
    lemma_one_for_one(list, profiles);
    lemma_place(list@, i);
    let found = observed_profiles(list@);
    let at = users_before(list@, i) as int;
    let p = profiles@[at]@;
    let key = list@[i].key_name@;
    let r = list@[i].readings->Ok_0;
    assert(with_collisions(found)[at] == p);
    lemma_state_is_told(r.state);
    lemma_locks_are_told(r.locks);
    lemma_single_findings(r, without_suffix(key, ".bak"@));
    assert forall|a: AnomalyModel| !(a is PathCollision) implies (#[trigger] p.anomalies.contains(a)
        <==> observed_anomalies(key, r).contains(a)) by {
        lemma_in_either(found[at].anomalies, seq![AnomalyModel::PathCollision(found[at].profile_path)]);
        assert(found[at].anomalies.push(AnomalyModel::PathCollision(found[at].profile_path))
            =~= found[at].anomalies + seq![
            AnomalyModel::PathCollision(found[at].profile_path),
        ]);
        if seq![AnomalyModel::PathCollision(found[at].profile_path)].contains(a) {
            assert(a is PathCollision);
        }
    }
    assert forall|a: AnomalyModel| #[trigger] observed_anomalies(key, r).contains(a) <==> {
        ||| required_anomalies(r.image_path, "ProfileImagePath"@).contains(a)
        ||| optional_anomalies(r.state, "State"@).contains(a)
        ||| optional_anomalies(r.ref_count, "RefCount"@).contains(a)
        ||| optional_anomalies(r.guid, "Guid"@).contains(a)
        ||| account_anomalies(r.account).contains(a)
        ||| hive_anomalies(r.hive, without_suffix(key, ".bak"@)).contains(a)
        ||| has_suffix(key, ".bak"@) && a is BakSuffix
        ||| state_anomalies(mask_read(r.state)).contains(a)
        ||| !r.dir_exists && a == AnomalyModel::MissingDirectory(
            observed_profile(key, r).profile_path,
        )
        ||| r.dir_exists && r.ntuser_exists && r.hive is Err && lock_anomalies(r.locks).contains(a)
        ||| size_anomalies(r).contains(a)
    } by {
        lemma_found_by_an_inspection(key, r, a);
    }
    if r.dir_exists && r.ntuser_exists && r.hive is Err && r.locks is Ok && r.locks->Ok_0@.len()
        > 0 {
        let a = lock_anomalies(r.locks)[0];
        assert(lock_anomalies(r.locks).contains(a));
        assert(p.anomalies.contains(AnomalyModel::LockedNtUserDat(a->LockedNtUserDat_0)));
    }
}

/// Whether a text starts with another.
pub open spec fn has_front(text: Seq<char>, front: Seq<char>) -> bool {
    front.len() <= text.len() && text.take(front.len() as int) == front
}

proof fn lemma_state_is_told(state: Result<u32, RegistryError>)
    ensures
        forall|a: AnomalyModel| #[trigger]
            state_anomalies(mask_read(state)).contains(a) <==> state is Ok && (match a {
                AnomalyModel::TempSession => state->Ok_0 & 0x80 != 0,
                AnomalyModel::DirtyStateMask(mask) => mask == state->Ok_0 && mask != 0 && mask
                    & 0x80 == 0,
                _ => false,
            }),
{
    let mask: u32 = mask_read(state);
    assert(0u32 & 0x80 == 0) by (bit_vector);
    let found = state_anomalies(mask);
    assert forall|a: AnomalyModel| #[trigger] found.contains(a) <==> state is Ok && (match a {
        AnomalyModel::TempSession => state->Ok_0 & 0x80 != 0,
        AnomalyModel::DirtyStateMask(m) => m == state->Ok_0 && m != 0 && m & 0x80 == 0,
        _ => false,
    }) by {
        if found.len() > 0 {
            assert(found.contains(found[0]));
        }
    }
}

proof fn lemma_locks_are_told(locks: Result<Vec<crate::restart_manager::LockingProcessInfo>, String>)
    ensures
        forall|a: AnomalyModel| #[trigger]
            lock_anomalies(locks).contains(a) ==> match a {
                AnomalyModel::LockInspectionFailure(reason) => locks is Err && locks->Err_0@
                    == reason,
                AnomalyModel::LockedNtUserDat(names) => {
                    &&& locks is Ok && names.len() == locks->Ok_0@.len() && names.len() > 0
                    &&& forall|k: int|
                        0 <= k < names.len() ==> has_front(
                            #[trigger] names[k],
                            locks->Ok_0@[k].app_name@,
                        )
                },
                _ => false,
            },
        locks is Err ==> lock_anomalies(locks).contains(
            AnomalyModel::LockInspectionFailure(locks->Err_0@),
        ),
        locks is Ok && locks->Ok_0@.len() > 0 ==> lock_anomalies(locks).len() == 1
            && lock_anomalies(locks)[0] is LockedNtUserDat,
{
    let found = lock_anomalies(locks);
    if found.len() > 0 {
        assert(found.contains(found[0]));
    }
    if locks is Ok && locks->Ok_0@.len() > 0 {
        let names = found[0]->LockedNtUserDat_0;
        assert forall|k: int| 0 <= k < names.len() implies has_front(
            #[trigger] names[k],
            locks->Ok_0@[k].app_name@,
        ) by {
            let app = locks->Ok_0@[k].app_name@;
            assert(names[k].take(app.len() as int) =~= app);
        }
    }
}

proof fn lemma_single_findings(r: ProfileReadings, sid: Seq<char>)
    ensures
        forall|a: AnomalyModel| #[trigger]
            required_anomalies(r.image_path, "ProfileImagePath"@).contains(a)
                ==> a is RegistryReadFailure,
        forall|a: AnomalyModel| #[trigger]
            optional_anomalies(r.state, "State"@).contains(a) ==> a is RegistryReadFailure,
        forall|a: AnomalyModel| #[trigger]
            optional_anomalies(r.ref_count, "RefCount"@).contains(a) ==> a is RegistryReadFailure,
        forall|a: AnomalyModel| #[trigger]
            optional_anomalies(r.guid, "Guid"@).contains(a) ==> a is RegistryReadFailure,
        forall|a: AnomalyModel| #[trigger]
            hive_anomalies(r.hive, sid).contains(a) ==> a is RegistryReadFailure,
        forall|a: AnomalyModel| #[trigger]
            account_anomalies(r.account).contains(a) <==> (a matches
                AnomalyModel::SidResolutionFailure(reason) && r.account is Err
                && r.account->Err_0@ == reason),
        forall|a: AnomalyModel| #[trigger]
            size_anomalies(r).contains(a) <==> (a matches AnomalyModel::FilesystemScanFailure(
                reason,
            ) && r.dir_exists && r.size is Err && r.size->Err_0@ == reason),
{
    let account = account_anomalies(r.account);
    if account.len() > 0 {
        assert(account.contains(account[0]));
    }
    let size = size_anomalies(r);
    if size.len() > 0 {
        assert(size.contains(size[0]));
    }
}

/// What a failed reading of a value is reported as.
pub open spec fn failed_reading(value: Seq<char>, reason: Seq<char>) -> AnomalyModel {
    AnomalyModel::RegistryReadFailure(value + ": "@ + reason)
}

/// No failed reading is hidden: a value that is there and could not be read is reported,
/// and so are a path that is missing or blank and a hive that could not be looked for.
/// Nothing is reported where nothing failed.
pub proof fn a_scan_hides_no_failed_reading(
    list: Vec<ProfileObservation>,
    profiles: Vec<UserProfile>,
    i: int,
)
    requires
        scan_outcome(Ok(list), Ok(profiles)),
        0 <= i < list@.len(),
        is_user_key(list@[i].key_name@),
    ensures
        ({
            let p = profiles@[users_before(list@, i) as int]@;
            let r = list@[i].readings->Ok_0;
            &&& r.image_path matches Err(e) ==> p.anomalies.contains(
                failed_reading("ProfileImagePath"@, e.text()),
            )
            &&& r.image_path matches Ok(path) ==> is_blank(path@) ==> p.anomalies.contains(
                failed_reading("ProfileImagePath"@, "empty value"@),
            )
            &&& r.state matches Err(e) ==> !(e is ValueNotFound) ==> p.anomalies.contains(
                failed_reading("State"@, e.text()),
            )
            &&& r.ref_count matches Err(e) ==> !(e is ValueNotFound) ==> p.anomalies.contains(
                failed_reading("RefCount"@, e.text()),
            )
            &&& r.guid matches Err(e) ==> !(e is ValueNotFound) ==> p.anomalies.contains(
                failed_reading("Guid"@, e.text()),
            )
            &&& r.hive matches Err(e) ==> e != RegistryError::Win32Error(2)
                ==> p.anomalies.contains(
                failed_reading("HKEY_USERS\\"@ + p.canonical_sid, e.text()),
            )
            &&& r.image_path is Ok && !is_blank(r.image_path->Ok_0@) && (r.state is Ok
                || r.state->Err_0 is ValueNotFound) && (r.ref_count is Ok || r.ref_count->Err_0 is
                ValueNotFound) && (r.guid is Ok || r.guid->Err_0 is ValueNotFound) && (r.hive is Ok
                || r.hive->Err_0 == RegistryError::Win32Error(2)) ==> forall|text: Seq<char>|
                !#[trigger] p.anomalies.contains(AnomalyModel::RegistryReadFailure(text))
        }),
{
    a_scan_reports_what_was_read(list, profiles, i);
    lemma_one_for_one(list, profiles);
    lemma_place(list@, i);
    let found = observed_profiles(list@);
    let at = users_before(list@, i) as int;
    let p = profiles@[at]@;
    let key = list@[i].key_name@;
    let r = list@[i].readings->Ok_0;
    let sid = without_suffix(key, ".bak"@);
    assert(with_collisions(found)[at] == p);
    lemma_single_findings(r, sid);
    lemma_state_is_told(r.state);
    lemma_locks_are_told(r.locks);
    let more = found[at].anomalies.push(AnomalyModel::PathCollision(found[at].profile_path));
    assert forall|a: AnomalyModel| #[trigger] observed_anomalies(key, r).contains(
        a,
    ) implies p.anomalies.contains(a) by {
        let k = choose|k: int|
            0 <= k < found[at].anomalies.len() && found[at].anomalies[k] == a;
        assert(p.anomalies[k] == a);
    }
    let image = required_anomalies(r.image_path, "ProfileImagePath"@);
    if image.len() > 0 {
        assert(image.contains(image[0]));
        lemma_found_by_an_inspection(key, r, image[0]);
    }
    let state = optional_anomalies(r.state, "State"@);
    if state.len() > 0 {
        assert(state.contains(state[0]));
        lemma_found_by_an_inspection(key, r, state[0]);
    }
    let count = optional_anomalies(r.ref_count, "RefCount"@);
    if count.len() > 0 {
        assert(count.contains(count[0]));
        lemma_found_by_an_inspection(key, r, count[0]);
    }
    let guid = optional_anomalies(r.guid, "Guid"@);
    if guid.len() > 0 {
        assert(guid.contains(guid[0]));
        lemma_found_by_an_inspection(key, r, guid[0]);
    }
    let hive = hive_anomalies(r.hive, sid);
    if hive.len() > 0 {
        assert(hive.contains(hive[0]));
        lemma_found_by_an_inspection(key, r, hive[0]);
    }
    if image.len() == 0 && state.len() == 0 && count.len() == 0 && guid.len() == 0 && hive.len()
        == 0 {
        assert forall|text: Seq<char>| !#[trigger] p.anomalies.contains(
            AnomalyModel::RegistryReadFailure(text),
        ) by {
            let a = AnomalyModel::RegistryReadFailure(text);
            lemma_found_by_an_inspection(key, r, a);
            if p.anomalies.contains(a) {
                let k = choose|k: int| 0 <= k < p.anomalies.len() && p.anomalies[k] == a;
                if k < found[at].anomalies.len() {
                    assert(found[at].anomalies[k] == a);
                }
            }
        }
    }
}

/// Two profiles that have one path, spelled alike up to the case of letters and
/// separators at its end, are both reported for it, and no others are. What is found
/// decides how serious the state of a profile is.
pub proof fn a_scan_weighs_what_it_finds(
    list: Vec<ProfileObservation>,
    profiles: Vec<UserProfile>,
    a: int,
)
    requires
        scan_outcome(Ok(list), Ok(profiles)),
        0 <= a < profiles@.len(),
    ensures
        ({
            let p = profiles@[a]@;
            &&& p.anomalies.contains(AnomalyModel::PathCollision(p.profile_path)) <==> !is_blank(
                p.profile_path,
            ) && exists|b: int|
                0 <= b < profiles@.len() && b != a && !is_blank(
                    (#[trigger] profiles@[b])@.profile_path,
                ) && ascii_lower(without_trailing_slashes(profiles@[b]@.profile_path))
                    == ascii_lower(without_trailing_slashes(p.profile_path))
            &&& p.health is Healthy <==> p.anomalies.len() == 0
            &&& p.health is Corrupted <==> p.anomalies.contains(AnomalyModel::BakSuffix)
                || p.anomalies.contains(AnomalyModel::TempSession) || p.anomalies.contains(
                AnomalyModel::PathCollision(p.profile_path),
            )
        }),
{
    let found = observed_profiles(list@);
    let p = profiles@[a]@;
    lemma_one_for_one(list, profiles);
    assert(with_collisions(found)[a] == p);
    let (key, r) = lemma_described(list@, a);
    let here = found[a].anomalies;
    let hit = AnomalyModel::PathCollision(p.profile_path);
    assert(!here.contains(hit)) by {
        lemma_single_findings(r, without_suffix(key, ".bak"@));
        lemma_state_is_told(r.state);
        lemma_locks_are_told(r.locks);
        lemma_found_by_an_inspection(key, r, hit);
    }
    if collides(found, a) {
        assert(p.anomalies.last() == hit);
        assert(p.anomalies[p.anomalies.len() - 1] == hit);
        let b = choose|b: int|
            0 <= b < found.len() && b != a && !is_blank((#[trigger] found[b]).profile_path)
                && crate::scanner::path_key(found[b].profile_path) == crate::scanner::path_key(
                found[a].profile_path,
            );
        assert(!is_blank(profiles@[b]@.profile_path));
    } else {
        assert(p.anomalies == here);
        assert forall|b: int|
            0 <= b < profiles@.len() && b != a && !is_blank(p.profile_path) && !is_blank(
                (#[trigger] profiles@[b])@.profile_path,
            ) implies ascii_lower(without_trailing_slashes(profiles@[b]@.profile_path))
            != ascii_lower(without_trailing_slashes(p.profile_path)) by {
            assert(found[b].profile_path == profiles@[b]@.profile_path);
        }
    }
    lemma_weighed(p, found[a], key, r);
}

/// Each profile that was found is that of a key and its readings.
proof fn lemma_described(list: Seq<ProfileObservation>, a: int) -> (of: (Seq<char>, ProfileReadings))
    requires
        0 <= a < observed_profiles(list).len(),
    ensures
        observed_profiles(list)[a] == observed_profile(of.0, of.1),
    decreases list.len(),
{
    let front = observed_profiles(list.drop_last());
    if a < front.len() {
        lemma_described(list.drop_last(), a)
    } else {
        (list.last().key_name@, list.last().readings->Ok_0)
    }
}

proof fn lemma_weighed(p: ProfileModel, found: ProfileModel, key: Seq<char>, r: ProfileReadings)
    requires
        found == observed_profile(key, r),
        p == found || p == found.with_anomaly(
            AnomalyModel::PathCollision(found.profile_path),
        ).assessed(),
    ensures
        p.health is Healthy <==> p.anomalies.len() == 0,
        p.health is Corrupted <==> p.anomalies.contains(AnomalyModel::BakSuffix)
            || p.anomalies.contains(AnomalyModel::TempSession) || p.anomalies.contains(
            AnomalyModel::PathCollision(p.profile_path),
        ),
{
    let here = found.anomalies;
    lemma_found_by_an_inspection(key, r, AnomalyModel::BakSuffix);
    lemma_single_findings(r, without_suffix(key, ".bak"@));
    lemma_state_is_told(r.state);
    lemma_locks_are_told(r.locks);
    if found.is_bak {
        assert(here.contains(AnomalyModel::BakSuffix));
        let k = choose|k: int| 0 <= k < here.len() && here[k] == AnomalyModel::BakSuffix;
        assert(p.anomalies[k] == AnomalyModel::BakSuffix);
    }
    assert forall|k: int| 0 <= k < p.anomalies.len() && (#[trigger] p.anomalies[k]).is_corrupting()
        implies p.anomalies[k] is BakSuffix || p.anomalies[k] is TempSession || p.anomalies[k]
        == AnomalyModel::PathCollision(p.profile_path) by {
        if k < here.len() {
            assert(here[k] == p.anomalies[k]);
            assert(here.contains(here[k]));
            lemma_found_by_an_inspection(key, r, here[k]);
        }
    }
    if p.health is Corrupted && !p.is_bak {
        let k = choose|k: int|
            0 <= k < p.anomalies.len() && (#[trigger] p.anomalies[k]).is_corrupting();
        assert(p.anomalies.contains(p.anomalies[k]));
    }
    if p.anomalies.contains(AnomalyModel::BakSuffix) {
        let k = choose|k: int|
            0 <= k < p.anomalies.len() && p.anomalies[k] == AnomalyModel::BakSuffix;
        assert(p.anomalies[k].is_corrupting());
    }
    if p.anomalies.contains(AnomalyModel::TempSession) {
        let k = choose|k: int|
            0 <= k < p.anomalies.len() && p.anomalies[k] == AnomalyModel::TempSession;
        assert(p.anomalies[k].is_corrupting());
    }
    let hit = AnomalyModel::PathCollision(p.profile_path);
    if p.anomalies.contains(hit) {
        let k = choose|k: int| 0 <= k < p.anomalies.len() && p.anomalies[k] == hit;
        assert(p.anomalies[k].is_corrupting());
    }
}

/// A list that could not be read, or one key of it that could not, fails the scan as a
/// whole: no profile is left out in silence.
pub proof fn a_scan_leaves_no_profile_out(
    list: Vec<ProfileObservation>,
    r: Result<Vec<UserProfile>, ScannerError>,
)
    requires
        scan_outcome(Ok(list), r),
    ensures
        r is Ok <==> forall|i: int|
            0 <= i < list@.len() && is_user_key((#[trigger] list@[i]).key_name@)
                ==> list@[i].readings is Ok,
        r matches Ok(profiles) ==> profiles@.len() == users_before(list@, list@.len() as int),
        r matches Err(e) ==> e is ProfileKeyUnreadable,
{
    assert forall|i: int| 0 <= i < list@.len() implies (is_unreadable(#[trigger] list@[i])
        <==> is_user_key(list@[i].key_name@) && list@[i].readings is Err) by {
        lemma_users_are_shown(list@[i]);
    }
    match r {
        Ok(profiles) => {
            assert forall|j: int| 0 <= j < list@.len() implies !#[trigger] is_unreadable(
                list@[j],
            ) by {
                assert(list@[j] == list@[j]);
            }
            lemma_place(list@, list@.len() as int);
            assert(profile_models(profiles@).len() == profiles@.len());
            assert forall|i: int| 0 <= i < list@.len() && is_user_key(
                (#[trigger] list@[i]).key_name@,
            ) implies list@[i].readings is Ok by {
                assert(!is_unreadable(list@[i]));
            }
        },
        Err(_) => {
            let i = choose|i: int| 0 <= i < list@.len() && #[trigger] is_unreadable(list@[i]);
            assert(list@[i].readings is Err);
        },
    }
}

} // verus!
