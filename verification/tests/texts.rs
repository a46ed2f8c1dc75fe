use pf_webos::backend::gamestream::GameStream;
use pf_webos::backend::punktfunk::Punktfunk;
use pf_webos::backend::{
    backend_for, backend_or_punktfunk, protocol_caps, protocol_query_port, HostBackend,
};
use pf_webos::discovery::{
    after_announce, browse_step, first_label, split_list, BrowseEvent, BrowseStep, ServiceRecord,
};
use pf_webos::errors::{
    connect_message, friendly, gamestream_end_message, pair_message, reject_message, ClientError,
    Failure, RejectReason,
};
use pf_webos::geometry::{hit_test, Rect};
use pf_webos::library::{
    art_url, base_url, classify, fetch_step_failed, library_url, HttpFailure, LibraryError,
    PinVerify,
};
use pf_webos::model::protocol::Protocol;
use pf_webos::seqs::remove_text;
use pf_webos::store::{find_host, remove_host, upsert_known_host, KnownHost};
use pf_webos::text::{decimal_string, is_space, parse_number, push_hex_fixed, trimmed};

fn known(name: &str, host: &str) -> KnownHost {
    KnownHost {
        name: name.to_string(),
        host: host.to_string(),
        port: 9777,
        protocol: Protocol::Punktfunk,
        fingerprint: None,
        mgmt_port: None,
        mac: Vec::new(),
        wol_auto: true,
        pinned: vec!["x".to_string()],
    }
}

#[test]
fn numbers_are_written_and_read() {
    assert_eq!(decimal_string(0), "0");
    assert_eq!(decimal_string(u64::MAX), "18446744073709551615");
    assert_eq!(parse_number("+65535", 65535), Some(65535));
    assert_eq!(parse_number("65536", 65535), None);
    assert_eq!(parse_number("", 9), None);
    assert_eq!(parse_number("+", 9), None);
    assert_eq!(parse_number("1 ", 9), None);
    for n in [0, 7, 10, 99, 12345] {
        assert_eq!(parse_number(&decimal_string(n), u64::MAX), Some(n));
    }
    let mut hex = String::new();
    push_hex_fixed(&mut hex, 0x8003_0023, 8);
    assert_eq!(hex, "80030023");
    assert_eq!(trimmed(" \u{a0}a b\t"), "a b");
    assert_eq!(trimmed("\u{200b}a\u{3000}"), "\u{200b}a");
    let listed = (0..=0x0010_ffff_u32).filter_map(char::from_u32).filter(|c| is_space(*c));
    let known = (0..=0x0010_ffff_u32).filter_map(char::from_u32).filter(|c| c.is_whitespace());
    assert!(listed.eq(known));
}

#[test]
fn texts_are_removed_from_a_list() {
    let mut v = vec!["a".to_string(), "b".to_string(), "a".to_string()];
    remove_text(&mut v, "a");
    assert_eq!(v, vec!["b".to_string()]);
}

#[test]
fn saved_hosts_are_found_by_address() {
    let mut hosts = vec![known("A", "h1"), known("B", "h2")];
    let mut new = known("A2", "h1");
    new.wol_auto = false;
    new.pinned = Vec::new();
    new.fingerprint = Some([1; 32]);
    upsert_known_host(&mut hosts, new);
    assert_eq!(hosts.len(), 2);
    let i = find_host(&hosts, "h1", 9777).unwrap();
    assert_eq!(hosts[i].name, "A2");
    assert_eq!(hosts[i].fingerprint, Some([1; 32]));
    assert!(hosts[i].wol_auto);
    assert_eq!(hosts[i].pinned, vec!["x".to_string()]);
    assert_eq!(hosts[1].name, "B");
    upsert_known_host(&mut hosts, known("C", "h3"));
    assert_eq!(find_host(&hosts, "h3", 9777), Some(2));
    remove_host(&mut hosts, "h1", 9777);
    assert_eq!(find_host(&hosts, "h1", 9777), None);
    assert_eq!(hosts.len(), 2);
    assert_eq!(find_host(&hosts, "h2", 1), None);
}

#[test]
fn pins_are_switched_within_their_limit() {
    let mut h = known("A", "h");
    assert!(h.is_pinned("x"));
    assert!(h.can_toggle_pin("x", 1));
    assert!(!h.can_toggle_pin("y", 1));
    h.toggle_pin("x");
    h.toggle_pin("y");
    assert_eq!(h.pinned, vec!["y".to_string()]);
}

#[test]
fn each_refusal_has_its_sentence() {
    let all = [
        RejectReason::Denied,
        RejectReason::ApprovalTimeout,
        RejectReason::Superseded,
        RejectReason::IdentityRequired,
        RejectReason::PairingNotArmed,
        RejectReason::PairingBoundToOtherDevice,
        RejectReason::PairingRateLimited,
        RejectReason::WireVersionMismatch,
        RejectReason::Busy,
        RejectReason::SetupFailed,
    ];
    let texts: Vec<String> = all.iter().map(|r| reject_message(*r)).collect();
    for (i, t) in texts.iter().enumerate() {
        assert!(texts[..i].iter().all(|u| u != t));
        assert_eq!(&connect_message(&ClientError::Rejected(all[i])), t);
    }
    assert_eq!(texts[8], "The host is busy with another session.");
}

#[test]
fn each_failure_has_its_sentence_too() {
    assert_eq!(
        connect_message(&ClientError::Timeout),
        "The host didn't answer. Is it running and reachable?"
    );
    assert_eq!(
        connect_message(&ClientError::Io("refused".to_string())),
        "Couldn't reach the host (refused) — check that this TV and the host are on the same network."
    );
    assert_eq!(connect_message(&ClientError::Closed), "The host closed the connection.");
    assert_eq!(
        pair_message(&ClientError::Crypto("x".to_string())),
        "Wrong PIN — check the PIN on the host's Pairing page and try again."
    );
    assert_eq!(friendly(&Failure::Other("as it is".to_string())), "as it is");
    assert_eq!(
        friendly(&Failure::Client(ClientError::Closed)),
        "The host closed the connection."
    );
}

#[test]
fn stream_ends_are_explained() {
    assert_eq!(
        gamestream_end_message(0x12),
        "The host ended the session unexpectedly (code 0x00000012) — the host's own log has the cause."
    );
    assert!(gamestream_end_message(-2146528510).contains("protected content"));
    assert!(gamestream_end_message(-2146528253).contains("video encoder failed"));
}

#[test]
fn library_addresses_are_put_together() {
    assert_eq!(base_url("10.0.0.2", 9800), "https://10.0.0.2:9800");
    assert_eq!(base_url("fe80::1", 9800), "https://[fe80::1]:9800");
    assert_eq!(library_url("h", 1), "https://h:1/api/v1/library");
    assert_eq!(art_url("h", 1, "/api/v1/library/art/x"), "https://h:1/api/v1/library/art/x");
}

#[test]
fn library_failures_are_told_apart() {
    assert!(matches!(classify(HttpFailure::Status(401)), LibraryError::NotPaired));
    assert!(matches!(classify(HttpFailure::Status(403)), LibraryError::NotPaired));
    assert!(matches!(classify(HttpFailure::Status(500)), LibraryError::Http(500)));
    assert!(matches!(classify(HttpFailure::PinRejected), LibraryError::PinMismatch));
    assert!(matches!(
        classify(HttpFailure::Other("x".to_string())),
        LibraryError::Unreachable(why) if why == "x"
    ));
    match fetch_step_failed("bad JSON", "eof") {
        LibraryError::Unreachable(why) => assert_eq!(why, "bad JSON: eof"),
        other => panic!("expected unreachable, got {other:?}"),
    }
    assert!(PinVerify { pin: None }.accepts([0; 32]));
    assert!(PinVerify { pin: Some([1; 32]) }.accepts([1; 32]));
    assert!(!PinVerify { pin: Some([1; 32]) }.accepts([2; 32]));
}

fn record(addresses: Vec<&str>) -> ServiceRecord {
    ServiceRecord {
        fullname: "den-pc._punktfunk._udp.local.".to_string(),
        addresses: addresses.into_iter().map(str::to_string).collect(),
        port: 9777,
        mgmt: Some("9800".to_string()),
        mac: Some(" aa:bb , ,cc:dd".to_string()),
    }
}

#[test]
fn announcements_are_read() {
    assert_eq!(first_label("den-pc._x"), "den-pc");
    assert_eq!(split_list(" a,, b "), vec!["a".to_string(), "b".to_string()]);
    let h = Punktfunk.parse_discovery(&record(vec!["10.0.0.2", "10.0.0.3"])).unwrap();
    assert_eq!((h.name.as_str(), h.addr.as_str(), h.port), ("den-pc", "10.0.0.2", 9777));
    assert_eq!(h.mgmt_port, Some(9800));
    assert_eq!(h.mac, vec!["aa:bb".to_string(), "cc:dd".to_string()]);
    let g = GameStream.parse_discovery(&record(vec!["10.0.0.2"])).unwrap();
    assert_eq!(g.mgmt_port, Some(9777));
    assert!(g.mac.is_empty());
    assert!(Punktfunk.parse_discovery(&record(vec![])).is_none());
}

#[test]
fn browsing_announces_hosts_until_nobody_listens() {
    let event = BrowseEvent::Resolved(record(vec!["10.0.0.2"]));
    assert!(matches!(browse_step(&Punktfunk, &event), BrowseStep::Announce(h) if h.name == "den-pc"));
    assert!(matches!(
        browse_step(&Punktfunk, &BrowseEvent::Resolved(record(vec![]))),
        BrowseStep::Listen
    ));
    assert!(matches!(browse_step(&GameStream, &BrowseEvent::Other), BrowseStep::Listen));
    assert!(matches!(after_announce(true), BrowseStep::Listen));
    assert!(matches!(after_announce(false), BrowseStep::Stop));
}

#[test]
fn protocols_offer_different_things() {
    assert!(protocol_caps(Protocol::Punktfunk).speed_test);
    assert!(!protocol_caps(Protocol::GameStream).speed_test);
    assert!(protocol_caps(Protocol::GameStream).quit_app);
    assert_eq!(protocol_query_port(Protocol::GameStream), 47989);
    assert_ne!(Punktfunk.discovery_service(), GameStream.discovery_service());
    assert!(backend_for(Protocol::Punktfunk).is_some());
    assert!(backend_for(Protocol::GameStream).is_none());
    assert_eq!(backend_or_punktfunk(Protocol::GameStream).protocol(), Protocol::Punktfunk);
}

#[test]
fn points_hit_the_first_rectangle() {
    let a = Rect { x: 0, y: 0, w: 10, h: 10 };
    let b = Rect { x: 5, y: 5, w: 10, h: 10 };
    assert_eq!(hit_test(&vec![a, b], 6, 6), Some(0));
    assert_eq!(hit_test(&vec![a, b], 10, 10), Some(1));
    assert_eq!(hit_test(&vec![a, b], 15, 15), None);
}
