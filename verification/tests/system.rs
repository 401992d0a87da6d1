//! What the replies of the system mean: registry, accounts, locks, languages, pipes.
use std::collections::BTreeMap;
use winprofile::broker::{
    admits_request, client_is_connected, create_secure_pipe_server_instance, decode_length, encode_length, malformed_request,
    send_broker_request, verify_pipe_client_identity, BrokerRequest, BrokerResponse, BrokerService,
    ExchangeAction, ExchangeEvent, PipeCall, PipeError, ServiceAction, ServiceEvent,
};
use winprofile::hashing::sha256_hex;
use winprofile::i18n::{I18nError, I18nManager};
use winprofile::models::{DiagnosticReport, ProfileAnomaly, ProfileHealth, UserProfile};
use winprofile::paths::{
    file_name, is_absolute, is_same_path, join_path, parent, split_drive_path,
};
use winprofile::registry::{
    decode_utf16, deletion_outcome, encode_utf16, enum_subkeys, from_wide_null, query_value_string,
    open_key, query_value_u32, status_outcome, string_value_units, to_wide_null, SubkeyReply,
    RegistryError,
};
use winprofile::repair::RepairError;
use winprofile::restart_manager::{
    decode_utf16_lossy, ListRequest, LockingProcessInfo, ProcessRecord, RestartManagerError, RestartManagerSession,
};
use winprofile::security::{
    is_reparse_point, lookup_account_by_sid_string, reset_tree_security_safe, sid_to_string,
    AccountReply, PrivilegeGuard, PrivilegeReply, SecurityError, TreeResetStep,
};
use winprofile::text::{comes_before, hex_number, join, replace_all, split_chars, trim};
use winprofile::ui_languages::{
    language_buffer_units, parse_language_multisz, user_preferred_ui_languages, LanguageReply,
    LocaleError,
};

fn multi_sz(value: &str) -> Vec<u16> {
    value.encode_utf16().collect()
}

#[test]
fn units_are_decoded_as_the_standard_library_decodes_them() {
    let samples: Vec<Vec<u16>> = vec![
        vec![],
        encode_utf16("plain \u{e9}\u{ffff}"),
        encode_utf16("\u{10000}\u{1f600}\u{10ffff}"),
        vec![0x41, 0xd800],
        vec![0xd800, 0x41],
        vec![0xdc00, 0xd800, 0xdc00],
        vec![0xd800, 0xd800, 0xdfff, 0xdbff],
        vec![0xd7ff, 0xe000, 0xfffd],
    ];
    for units in &samples {
        assert_eq!(decode_utf16(units), String::from_utf16(units).ok(), "{units:x?}");
        assert_eq!(decode_utf16_lossy(units), String::from_utf16_lossy(units), "{units:x?}");
    }
}

// ---------------------------------------------------------------------------
// Languages
// ---------------------------------------------------------------------------

#[test]
fn two_pass_query_preserves_preference_order() {
    let payload = multi_sz("fr-CA\0en-US\0\0");
    let size = Ok(payload.len() as u32);
    assert_eq!(language_buffer_units(size.clone()).expect("size"), 13);
    let filled = Ok(LanguageReply {
        language_count: 2,
        buffer_units: payload.len() as u32,
        buffer: payload,
    });

    assert_eq!(
        user_preferred_ui_languages(size, filled).expect("valid preferred languages"),
        vec!["fr-CA", "en-US"]
    );
}

#[test]
fn malformed_multisz_and_api_failure_are_explicit() {
    assert!(matches!(
        parse_language_multisz(&multi_sz("fr-CA\0"), 1),
        Err(LocaleError::InvalidBuffer(_))
    ));
    assert!(matches!(
        parse_language_multisz(&vec![0, 0], 1),
        Err(LocaleError::InvalidBuffer(_))
    ));

    assert_eq!(language_buffer_units(Err(5)), Err(LocaleError::Windows(5)));
    assert_eq!(user_preferred_ui_languages(Err(5), Err(0)), Err(LocaleError::Windows(5)));
}

#[test]
fn language_buffers_are_held_to_their_lengths() {
    assert!(matches!(language_buffer_units(Ok(65_537)), Err(LocaleError::InvalidBuffer(_))));
    assert!(matches!(language_buffer_units(Ok(1)), Err(LocaleError::InvalidBuffer(_))));
    assert_eq!(user_preferred_ui_languages(Ok(13), Err(7)), Err(LocaleError::Windows(7)));
    let long = Ok(LanguageReply { language_count: 1, buffer_units: 9, buffer: vec![0; 4] });
    assert!(matches!(
        user_preferred_ui_languages(Ok(4), long),
        Err(LocaleError::InvalidBuffer(_))
    ));
    assert_eq!(
        parse_language_multisz(&vec![0xd800, 0, 0], 1),
        Err(LocaleError::InvalidUtf16)
    );
    assert_eq!(
        LocaleError::Windows(5).message(),
        "GetUserPreferredUILanguages failed with Windows error 5"
    );
}

// ---------------------------------------------------------------------------
// Registry
// ---------------------------------------------------------------------------

#[test]
fn registry_replies_are_told_apart_by_status_and_type() {
    assert!(matches!(query_value_u32("State", 0, 4, 0x204), Ok(0x204)));
    assert!(matches!(query_value_u32("State", 0, 1, 7), Err(RegistryError::Win32Error(0))));
    assert!(matches!(
        query_value_u32("State", 2, 0, 0),
        Err(RegistryError::ValueNotFound(name)) if name == "State"
    ));
    assert!(matches!(query_value_u32("State", 5, 4, 0), Err(RegistryError::Win32Error(5))));
    assert!(matches!(string_value_units("Guid", 0, 1, 7), Ok(4)));
    assert!(matches!(string_value_units("Guid", 0, 2, 8), Ok(4)));
    assert!(string_value_units("Guid", 0, 4, 4).is_err());
    assert!(string_value_units("Guid", 2, 0, 0).is_err());
    assert_eq!(query_value_string(0, &multi_sz("C:\\Users\0junk")).expect("text"), r"C:\Users");
    assert!(query_value_string(5, &[]).is_err());
    assert!(open_key(0, true).is_ok());
    assert!(matches!(open_key(0, false), Err(RegistryError::Win32Error(0))));
    assert!(matches!(open_key(2, false), Err(error) if error.missing_key()));
    assert!(status_outcome(0).is_ok());
    assert!(status_outcome(5).is_err());
    assert!(deletion_outcome(2).is_ok());
    assert!(deletion_outcome(5).is_err());
}

#[test]
fn subkeys_are_listed_up_to_the_end_or_the_first_failure() {
    let reply = |status: u32, name: &str| SubkeyReply { status, name: multi_sz(name) };
    assert_eq!(
        enum_subkeys(&vec![reply(0, "S-1-5-18\0"), reply(0, "S-1-5-21\0x"), reply(259, "")])
            .expect("names"),
        vec!["S-1-5-18".to_string(), "S-1-5-21".to_string()]
    );
    assert!(matches!(
        enum_subkeys(&vec![reply(0, "S-1-5-18\0"), reply(5, "")]),
        Err(RegistryError::Win32Error(5))
    ));
    let broken = SubkeyReply { status: 0, name: vec![0xd800, 0] };
    assert!(matches!(enum_subkeys(&vec![broken]), Err(RegistryError::InvalidUtf16)));
}

#[test]
fn utf16_is_decoded_up_to_the_first_zero_and_encoded_back() {
    assert_eq!(from_wide_null(&multi_sz("a\u{1f600}\0b")).expect("text"), "a\u{1f600}");
    assert!(matches!(from_wide_null(&[0xdc00, 0]), Err(RegistryError::InvalidUtf16)));
    let text = "Grüße \u{1f600}";
    assert_eq!(encode_utf16(text), multi_sz(text));
    assert_eq!(from_wide_null(&encode_utf16(text)).expect("text"), text);
    assert_eq!(to_wide_null("ab"), [97, 98, 0]);
    assert_eq!(from_wide_null(&to_wide_null(text)).expect("text"), text);
    assert_eq!(RegistryError::InvalidUtf16.message(), "Invalid UTF-16 registry data");
    assert_eq!(
        RegistryError::IoError("gone".to_string()).message(),
        "IO error: gone"
    );
}

// ---------------------------------------------------------------------------
// Accounts and privileges
// ---------------------------------------------------------------------------

fn account(converted: bool, size_code: u32, lookup: Result<(Vec<u16>, Vec<u16>), u32>) -> AccountReply {
    AccountReply { converted, size_code, lookup }
}

#[test]
fn accounts_are_resolved_or_the_failing_call_is_told() {
    let found = account(true, 122, Ok((multi_sz("anna"), multi_sz("CONTOSO"))));
    assert_eq!(
        lookup_account_by_sid_string("S-1-5-21-1", found).expect("account"),
        ("CONTOSO".to_string(), "anna".to_string())
    );
    assert_eq!(
        lookup_account_by_sid_string("x", account(false, 0, Err(0))).expect_err("text").message(),
        "Failed to resolve SID: x"
    );
    assert_eq!(
        lookup_account_by_sid_string("x", account(true, 1332, Err(0))).expect_err("size").message(),
        "Failed to resolve SID: LookupAccountSidW error: 1332"
    );
    assert_eq!(
        lookup_account_by_sid_string("x", account(true, 122, Err(5))).expect_err("call").message(),
        "Failed to resolve SID: LookupAccountSidW failed: 5"
    );
    assert!(matches!(
        sid_to_string(None),
        Err(SecurityError::SidResolutionError(reason)) if reason == "PSID is null"
    ));
    assert!(matches!(sid_to_string(Some(Err(87))), Err(SecurityError::Win32Error(87))));
    assert_eq!(sid_to_string(Some(Ok(multi_sz("S-1-5-18\0")))).expect("sid"), "S-1-5-18");
    assert!(sid_to_string(Some(Ok(vec![0xd800]))).is_err());
}

#[test]
fn unknown_privileges_fail_and_unassigned_ones_do_not() {
    let reply = |name: &str, known: bool, previous_length: u32| PrivilegeReply {
        name: name.to_string(),
        known,
        previous_length,
    };
    assert!(matches!(PrivilegeGuard::new(Err(5), &Vec::new()), Err(SecurityError::Win32Error(5))));
    assert!(matches!(
        PrivilegeGuard::new(Ok(()), &vec![reply("SeBackupPrivilege", true, 16), reply("SeX", false, 0)]),
        Err(SecurityError::PrivilegeNotAssigned(name)) if name == "SeX"
    ));
    let guard = PrivilegeGuard::new(Ok(()), &vec![reply("SeBackupPrivilege", true, 16)]);
    assert!(guard.expect("guard").has_previous);
    assert!(!PrivilegeGuard::new(Ok(()), &Vec::new()).expect("guard").has_previous);
}

#[test]
fn a_tree_is_reset_only_behind_a_real_root() {
    assert!(is_reparse_point(0x410));
    assert!(!is_reparse_point(0xffff_ffff));
    assert!(!is_reparse_point(0x10));
    assert!(matches!(
        reset_tree_security_safe("p", "s", true, true, None, None),
        Err(SecurityError::ReparsePointEncountered(path)) if path == "p"
    ));
    assert!(matches!(
        reset_tree_security_safe("p", "s", false, false, None, None),
        Err(SecurityError::SidResolutionError(sid)) if sid == "s"
    ));
    assert!(matches!(
        reset_tree_security_safe("p", "s", false, true, None, None),
        Ok(TreeResetStep::SetOwner)
    ));
    assert!(matches!(
        reset_tree_security_safe("p", "s", false, true, Some(5), None),
        Err(SecurityError::Win32Error(5))
    ));
    assert!(matches!(
        reset_tree_security_safe("p", "s", false, true, Some(0), None),
        Ok(TreeResetStep::ResetTree)
    ));
    assert!(matches!(
        reset_tree_security_safe("p", "s", false, true, Some(0), Some(0)),
        Ok(TreeResetStep::Done)
    ));
    assert!(reset_tree_security_safe("p", "s", false, true, Some(0), Some(5)).is_err());
}

// ---------------------------------------------------------------------------
// Locking processes
// ---------------------------------------------------------------------------

#[test]
fn locking_processes_are_listed_from_their_records() {
    let session = RestartManagerSession::new(0, 9).expect("session");
    assert_eq!(session.session_handle, 9);
    assert!(matches!(RestartManagerSession::new(5, 0), Err(RestartManagerError::Win32Error(5))));
    assert!(session.register_file(0).is_ok());
    assert!(session.register_file(5).is_err());
    assert!(session.shutdown_locking_processes(351).is_err());
    assert!(matches!(RestartManagerSession::list_request(234, 3), Ok(ListRequest::Query(3))));
    assert!(matches!(RestartManagerSession::list_request(0, 0), Ok(ListRequest::Empty)));
    assert!(RestartManagerSession::list_request(5, 3).is_err());
    let records = vec![ProcessRecord {
        process_id: 42,
        app_name: vec![b'E' as u16, 0xd800, 0, 7],
        service_short_name: vec![0, 1],
        app_type: 3,
        restartable: 1,
    }];
    let list = RestartManagerSession::get_locking_processes(0, &records).expect("list");
    assert_eq!(list[0].app_name, "E\u{fffd}");
    assert_eq!(list[0].service_short_name, "");
    assert!(list[0].restartable);
    assert!(RestartManagerSession::get_locking_processes(5, &records).is_err());
    assert_eq!(RestartManagerSession::shutdown_flags(true), 1);
    assert_eq!(
        RestartManagerError::InvalidPath("x".to_string()).message(),
        "Failed to register resource path: x"
    );
}

// ---------------------------------------------------------------------------
// The broker
// ---------------------------------------------------------------------------

#[test]
fn lengths_survive_the_pipe() {
    for length in [0, 1, 255, 256, 0x0102_0304, u32::MAX] {
        assert_eq!(encode_length(length), length.to_le_bytes());
        assert_eq!(decode_length(&encode_length(length)), length);
    }
    assert!(create_secure_pipe_server_instance(Ok(()), Ok(())).is_ok());
    assert!(matches!(
        create_secure_pipe_server_instance(Err(87), Ok(())),
        Err(PipeError::Win32Error(87))
    ));
    assert!(create_secure_pipe_server_instance(Ok(()), Err(5)).is_err());
    assert!(client_is_connected(false, 535));
    assert!(!client_is_connected(false, 5));
    assert!(admits_request(true, 4, 1_048_576));
    assert!(!admits_request(true, 4, 1_048_577));
    assert!(!admits_request(true, 3, 1));
    assert!(verify_pipe_client_identity(true).is_ok());
    assert!(matches!(verify_pipe_client_identity(false), Err(PipeError::UnauthorizedClient)));
    assert_eq!(
        malformed_request("eof"),
        BrokerResponse::Error { code: 400, message: "Malformed request: eof".to_string() }
    );
}

const DONE: PipeCall = PipeCall { done: true, code: 0 };

#[test]
fn an_exchange_writes_a_framed_request_and_reads_a_framed_reply() {
    let (mut exchange, first) = send_broker_request(BrokerRequest::Ping);
    assert!(matches!(
        first,
        ExchangeAction::Wait { name: r"\\.\pipe\WinProfileBrokerSecure", millis: 2000 }
    ));
    assert!(matches!(
        exchange.step(ExchangeEvent::Waited(DONE)),
        ExchangeAction::Open { name: r"\\.\pipe\WinProfileBrokerSecure" }
    ));
    assert!(matches!(
        exchange.step(ExchangeEvent::Opened(true)),
        ExchangeAction::Encode { request: BrokerRequest::Ping }
    ));
    assert!(matches!(
        exchange.step(ExchangeEvent::Encoded(Ok(b"\"Ping\"".to_vec()))),
        ExchangeAction::Write { bytes } if bytes == [6, 0, 0, 0]
    ));
    assert!(matches!(
        exchange.step(ExchangeEvent::Wrote(DONE)),
        ExchangeAction::Write { bytes } if bytes == b"\"Ping\""
    ));
    assert!(matches!(
        exchange.step(ExchangeEvent::Wrote(DONE)),
        ExchangeAction::Read { count: 4 }
    ));
    assert!(matches!(
        exchange.step(ExchangeEvent::Read(DONE, vec![6, 0, 0, 0])),
        ExchangeAction::Read { count: 6 }
    ));
    assert!(matches!(
        exchange.step(ExchangeEvent::Read(DONE, b"\"Pong\"".to_vec())),
        ExchangeAction::Decode { bytes } if bytes == b"\"Pong\""
    ));
    assert!(matches!(
        exchange.step(ExchangeEvent::Decoded(Ok(BrokerResponse::Pong))),
        ExchangeAction::Finish(Ok(BrokerResponse::Pong))
    ));
}

#[test]
fn an_exchange_ends_at_its_first_failure() {
    let failed = PipeCall { done: false, code: 231 };
    let (mut exchange, _) = send_broker_request(BrokerRequest::Ping);
    assert!(matches!(
        exchange.step(ExchangeEvent::Waited(failed)),
        ExchangeAction::Finish(Err(PipeError::BrokerUnavailable))
    ));
    let (mut exchange, _) = send_broker_request(BrokerRequest::Ping);
    exchange.step(ExchangeEvent::Waited(PipeCall { done: false, code: 121 }));
    assert!(matches!(
        exchange.step(ExchangeEvent::Opened(false)),
        ExchangeAction::Finish(Err(PipeError::BrokerUnavailable))
    ));
    let (mut exchange, _) = send_broker_request(BrokerRequest::Ping);
    exchange.step(ExchangeEvent::Waited(DONE));
    exchange.step(ExchangeEvent::Opened(true));
    exchange.step(ExchangeEvent::Encoded(Ok(Vec::new())));
    exchange.step(ExchangeEvent::Wrote(DONE));
    exchange.step(ExchangeEvent::Wrote(DONE));
    assert!(matches!(
        exchange.step(ExchangeEvent::Read(DONE, vec![1, 2])),
        ExchangeAction::Finish(Err(PipeError::Win32Error(0)))
    ));
    assert_eq!(
        PipeError::JsonError("eof".to_string()).message(),
        "Serialization / Deserialization error: eof"
    );
}

fn english() -> Result<I18nManager, I18nError> {
    let entries = BTreeMap::from([("profile.status.bak_suffix", "Set aside")]);
    let text = serde_json::to_string(&entries).expect("catalog");
    I18nManager::global(&text, &text)
}

fn serve(request: BrokerRequest, events: Vec<ServiceEvent>) -> (Vec<ServiceAction>, BrokerResponse) {
    let (mut service, mut action) = BrokerService::handle_broker_request(request);
    let mut seen = Vec::new();
    let mut events = events.into_iter();
    loop {
        match action {
            ServiceAction::Reply(reply) => return (seen, reply),
            other => {
                seen.push(other);
                action = service.step(events.next().expect("an event"), &english());
            },
        }
    }
}

fn failure(reply: BrokerResponse) -> u32 {
    match reply {
        BrokerResponse::Error { code, .. } => code,
        other => panic!("unexpected {other:?}"),
    }
}

#[test]
fn requests_are_served_and_failures_have_their_codes() {
    assert_eq!(serve(BrokerRequest::Ping, Vec::new()).1, BrokerResponse::Pong);

    let sid = "S-1-5-21-7.bak.bak".to_string();
    let repair = BrokerRequest::RepairBakProfile { sid: sid.clone() };
    let (seen, reply) = serve(repair.clone(), vec![ServiceEvent::Repaired(Ok(()))]);
    assert!(matches!(
        &seen[0],
        ServiceAction::Repair { plan }
            if plan.canonical_sid == "S-1-5-21-7" && plan.fix_bak && plan.unlock_hive
    ));
    assert_eq!(
        reply,
        BrokerResponse::Success {
            message: "Profile S-1-5-21-7.bak.bak successfully repaired.".to_string()
        }
    );
    let refused = vec![ServiceEvent::Repaired(Err(RepairError::AutomaticUnlockUnsupported))];
    assert_eq!(failure(serve(repair, refused).1), 2);
    let reset = BrokerRequest::ResetProfileState { sid };
    let refused = vec![ServiceEvent::Repaired(Err(RepairError::NoActionSelected))];
    assert_eq!(failure(serve(reset, refused).1), 3);

    let acl = BrokerRequest::ResetAclTree { path: "p".to_string(), owner_sid: "s".to_string() };
    let (seen, reply) = serve(acl, Vec::new());
    assert!(seen.is_empty());
    assert_eq!(
        reply,
        BrokerResponse::Error {
            code: 4,
            message: "Automatic ACL reset is not supported".to_string()
        }
    );

    let launch = BrokerRequest::LaunchTrustedInstallerProcess {
        command_line: "cmd.exe".to_string(),
        target_session_id: 2,
    };
    let (seen, reply) = serve(
        launch.clone(),
        vec![
            ServiceEvent::TokenDuplicated(Ok(())),
            ServiceEvent::Launched(Ok(99)),
            ServiceEvent::Audited,
        ],
    );
    assert!(matches!(
        &seen[2],
        ServiceAction::Audit { details, .. } if details == "Spawned PID 99 in interactive session 2"
    ));
    assert_eq!(reply, BrokerResponse::ProcessLaunched { pid: 99 });
    let refused = vec![ServiceEvent::TokenDuplicated(Err("no".to_string()))];
    assert_eq!(failure(serve(launch.clone(), refused).1), 7);
    let refused = vec![
        ServiceEvent::TokenDuplicated(Ok(())),
        ServiceEvent::Launched(Err("no".to_string())),
    ];
    assert_eq!(failure(serve(launch, refused).1), 6);
}

#[test]
fn lockers_are_listed_and_never_stopped() {
    let process = || LockingProcessInfo {
        process_id: 42,
        app_name: "Editor.exe".to_string(),
        service_short_name: "svc".to_string(),
        app_type: 0,
        restartable: false,
    };
    let request = |force| BrokerRequest::UnlockHiveProcesses { hive_path: "h".to_string(), force };
    let (seen, reply) = serve(
        request(true),
        vec![
            ServiceEvent::SessionOpened(Ok(())),
            ServiceEvent::LocksListed(Ok(vec![process()])),
        ],
    );
    assert!(matches!(
        &seen[..],
        [ServiceAction::OpenSession, ServiceAction::ListLocks { path }] if path == "h"
    ));
    assert!(matches!(
        reply,
        BrokerResponse::LockingProcesses(list)
            if list[0].pid == 42 && list[0].service_name == "svc"
    ));
    let (seen, reply) = serve(
        request(false),
        vec![
            ServiceEvent::SessionOpened(Ok(())),
            ServiceEvent::LocksListed(Err(RestartManagerError::Win32Error(5))),
        ],
    );
    assert_eq!(seen.len(), 2);
    assert_eq!(reply, BrokerResponse::LockingProcesses(Vec::new()));
    let refused = vec![ServiceEvent::SessionOpened(Err(RestartManagerError::Win32Error(5)))];
    assert_eq!(failure(serve(request(true), refused).1), 5);
}

#[test]
fn scanned_profiles_are_sent_with_their_anomalies_described() {
    let profile = UserProfile {
        sid: "S-1-5-21-7.bak".to_string(),
        canonical_sid: "S-1-5-21-7".to_string(),
        username: "anna".to_string(),
        domain: "CONTOSO".to_string(),
        profile_path: r"C:\Users\anna".to_string(),
        loaded: false,
        is_bak: true,
        state_mask: 0x204,
        ref_count: 1,
        guid: None,
        ntuser_exists: true,
        usrclass_exists: false,
        disk_size_bytes: 7,
        anomalies: vec![ProfileAnomaly::BakSuffix],
        health: ProfileHealth::Corrupted,
    };
    let report = DiagnosticReport {
        timestamp: winprofile::clock::UtcTime { seconds: 0, nanos: 0 },
        total_count: 1,
        healthy_count: 0,
        warning_count: 0,
        corrupted_count: 1,
        temporary_count: 0,
        profiles: vec![profile],
    };
    let scanned = vec![ServiceEvent::Scanned(Ok(report))];
    match serve(BrokerRequest::InspectProfiles, scanned).1 {
        BrokerResponse::Profiles(list) => {
            assert_eq!(list[0].username, "anna");
            assert_eq!(list[0].state_mask, 0x204);
            assert_eq!(list[0].anomalies, ["Set aside"]);
        },
        other => panic!("unexpected {other:?}"),
    }
}

// ---------------------------------------------------------------------------
// Texts, paths and digests
// ---------------------------------------------------------------------------

#[test]
fn digests_are_those_of_sha_256() {
    assert_eq!(
        sha256_hex(b""),
        "e3b0c44298fc1c149afbf4c8996fb92427ae41e4649b934ca495991b7852b855"
    );
    assert_eq!(
        sha256_hex(b"abc"),
        "ba7816bf8f01cfea414140de5dae2223b00361a396177a9cb410ff61f20015ad"
    );
}

#[test]
fn paths_are_taken_apart_as_the_system_does() {
    assert!(is_absolute(r"C:\a"));
    assert!(is_absolute(r"\\server\share\a"));
    assert!(!is_absolute("C:a"));
    assert!(!is_absolute(r"\a"));
    assert_eq!(join_path(r"C:\a", "b"), r"C:\a\b");
    assert_eq!(join_path(r"C:\", "b"), r"C:\b");
    assert_eq!(join_path("C:", "b"), "C:b");
    assert_eq!(parent(r"C:\a\b").as_deref(), Some(r"C:\a"));
    assert_eq!(file_name(r"C:\a\b").as_deref(), Some("b"));
    assert_eq!(
        split_drive_path(r"C:\a\b"),
        Some((r"C:\a".to_string(), "b".to_string()))
    );
}

#[test]
fn a_prefix_is_taken_as_a_whole() {
    assert!(is_absolute(r"\\?\C:\a"));
    assert!(is_absolute(r"\\?\C:"));
    assert!(is_absolute(r"\\?\name"));
    assert!(is_absolute(r"\\?\UNC\server\share"));
    assert!(is_absolute(r"\\.\COM42"));
    assert!(is_absolute(r"\\server\share"));
    assert!(!is_absolute(r"\\server"));
    assert!(is_absolute("//server/share"));

    assert_eq!(file_name(r"\\server\share"), None);
    assert_eq!(file_name(r"\\server\share\a").as_deref(), Some("a"));
    assert_eq!(file_name(r"\\?\C:"), None);
    assert_eq!(file_name(r"\\?\C:\"), None);
    assert_eq!(file_name(r"\\?\C:\a\b").as_deref(), Some("b"));
    assert_eq!(file_name(r"\\?\C:\a/b").as_deref(), Some("a/b"));
    assert_eq!(file_name(r"\\.\COM42"), None);
    assert_eq!(file_name(r"\\?\UNC\server\share\a").as_deref(), Some("a"));
    assert_eq!(file_name(r"C:\a\.."), None);
    assert_eq!(file_name(r"C:\a\.").as_deref(), Some("a"));

    assert_eq!(parent(r"\\server\share\a").as_deref(), Some(r"\\server\share\"));
    assert_eq!(parent(r"\\server\share"), None);
    assert_eq!(parent(r"\\?\C:\a").as_deref(), Some(r"\\?\C:\"));
    assert_eq!(parent(r"\\?\C:\"), None);
    assert_eq!(parent(r"\\?\UNC\server\share\a\b").as_deref(), Some(r"\\?\UNC\server\share\a"));
    assert_eq!(parent("a").as_deref(), Some(""));
}

#[test]
fn a_joined_path_keeps_or_replaces_the_prefix() {
    assert_eq!(join_path(r"C:\a", r"D:\b"), r"D:\b");
    assert_eq!(join_path(r"C:\a", r"C:b"), r"C:b");
    assert_eq!(join_path(r"C:\a", r"\b"), r"C:\b");
    assert_eq!(join_path(r"C:\a", r"..\b"), r"C:\a\..\b");
    assert_eq!(join_path(r"\\server\share", "a"), r"\\server\share\a");
    assert_eq!(join_path(r"\\server\share\a", r"\b"), r"\\server\share\b");
    assert_eq!(join_path(r"\\?\C:\a", "b"), r"\\?\C:\a\b");
    assert_eq!(join_path(r"\\?\C:\a", r".\b/c"), r"\\?\C:\a\b\c");
    assert_eq!(join_path(r"\\?\C:\a\b", r"..\c"), r"\\?\C:\a\c");
    assert_eq!(join_path(r"\\?\C:\a", r"\b"), r"\\?\C:\b");
    assert_eq!(join_path(r"\\?\C:\a", r"\\?\D:\b"), r"\\?\D:\b");
    assert_eq!(join_path("", "b"), "b");
}

#[test]
fn paths_are_the_same_where_their_components_are() {
    assert!(is_same_path(r"C:\a\b", r"c:/a//b/"));
    assert!(is_same_path(r"C:\a\.\b", r"C:\a\b"));
    assert!(!is_same_path(r"C:\a\b", r"C:\A\b"));
    assert!(!is_same_path(r"C:\a", "C:a"));
    assert!(!is_same_path(r"C:\a\..\b", r"C:\b"));
    assert!(is_same_path(r"a\b", "a/b"));
    assert!(!is_same_path(r".\a", "a"));
    assert!(is_same_path(r"\\server\share", "//server/share/"));
    assert!(!is_same_path(r"\\server\share\a", r"\\server\other\a"));
    assert!(!is_same_path(r"\\?\C:\a\.\b", r"\\?\C:\a\b"));
    assert!(is_same_path("", ""));
    assert!(!is_same_path(r"\\?\C:\a", r"C:\a"));
    assert!(is_same_path(r"\\?\C:\a", r"\\?\c:\a"));
    assert!(!is_same_path(r"\\?\UNC\server\share\a", r"\\server\share\a"));
    assert!(!is_same_path(r"\\?\C:\a/b", r"\\?\C:\a\b"));
}

#[test]
fn texts_are_handled_character_by_character() {
    assert_eq!(trim("\u{2003} a b \n"), "a b");
    assert_eq!(replace_all("a{x}b{x}", "{x}", "-"), "a-b-");
    assert_eq!(split_chars("a.b..c", '.'), ["a", "b", "", "c"]);
    assert_eq!(join(&vec!["a".to_string(), "b".to_string()], "; "), "a; b");
    assert_eq!(hex_number(0x1f, 4), "001f");
    assert!(comes_before("a", "b"));
    assert!(!comes_before("b", "a"));
    assert!(comes_before("a", "aa"));
}
