use metainfo_gateway::client::{
    classify_engine_event, Client, ClientConfig, EngineEvent, PortRange, ResolveMagnetError,
    ResolveStep, TorrentInfo,
};
use metainfo_gateway::info_hash::InfoHash;
use metainfo_gateway::reply::{torrent_file_response, HttpReply};
use metainfo_gateway::server::{engine_event_reply, handle_torrent_request, HandlerStep, InfoHashParam};

const SAMPLE: &str = "443c7602b4fde83d1154d6d9da48808418b181b6";

fn started_client() -> Client {
    let mut c = Client::new(ClientConfig {
        session_output_dir: String::from("/tmp/session"),
        listen_port_range: Some(PortRange { start: 4240, end: 4260 }),
    });
    c.mark_session_started();
    c
}

fn header<'a>(r: &'a HttpReply, name: &str) -> &'a str {
    &r.headers
        .iter()
        .find(|(k, _)| k == name)
        .expect("header missing")
        .1
}

#[test]
fn new_client_keeps_settings_and_has_no_session() {
    let c = Client::new(ClientConfig {
        session_output_dir: String::from("/var/lib/engine"),
        listen_port_range: None,
    });
    assert!(!c.session_started);
    assert_eq!(c.output_dir, "/var/lib/engine");
    assert_eq!(c.listen_port_range, None);
}

#[test]
fn begin_resolve_without_session_fails_fast() {
    let c = Client::new(ClientConfig {
        session_output_dir: String::from("/tmp/session"),
        listen_port_range: None,
    });
    let h = InfoHash::from_str(SAMPLE).unwrap();
    match c.begin_resolve(&h) {
        ResolveStep::Fail(e) => assert_eq!(e, ResolveMagnetError::NoSession),
        ResolveStep::Submit(_) => panic!("submitted without a session"),
    }
}

#[test]
fn begin_resolve_with_session_submits_magnet() {
    let c = started_client();
    let h = InfoHash::from_str(SAMPLE).unwrap();
    match c.begin_resolve(&h) {
        ResolveStep::Submit(m) => assert_eq!(
            m,
            "magnet:?xt=urn:btih:443c7602b4fde83d1154d6d9da48808418b181b6"
        ),
        ResolveStep::Fail(_) => panic!("failed despite a session"),
    }
}

#[test]
fn classify_already_managed_is_success() {
    let info = TorrentInfo { name: Some(b"a".to_vec()) };
    let (out, content) = classify_engine_event(EngineEvent::AlreadyManaged(info, vec![1, 2, 3]))
        .unwrap();
    assert_eq!(out.name, Some(b"a".to_vec()));
    assert_eq!(content, vec![1, 2, 3]);
}

#[test]
fn classify_list_only_is_success() {
    let info = TorrentInfo { name: None };
    let (out, content) = classify_engine_event(EngineEvent::ListOnly(info, vec![9])).unwrap();
    assert_eq!(out.name, None);
    assert_eq!(content, vec![9]);
}

#[test]
fn classify_added_for_download_is_policy_violation() {
    assert_eq!(
        classify_engine_event(EngineEvent::AddedForDownload).unwrap_err(),
        ResolveMagnetError::AddedForDownloading
    );
}

#[test]
fn classify_submit_failure_is_not_added() {
    assert_eq!(
        classify_engine_event(EngineEvent::SubmitFailed).unwrap_err(),
        ResolveMagnetError::NotAdded
    );
}

#[test]
fn invalid_hash_is_400_without_engine_call() {
    let c = started_client();
    let param = InfoHashParam(String::from("not-a-hash"));
    match handle_torrent_request(&c, &param) {
        HandlerStep::Respond(r) => {
            assert_eq!(r.status, 400);
            assert_eq!(r.body, b"Invalid info hash".to_vec());
            assert!(r.headers.is_empty());
        }
        HandlerStep::AskEngine(_, _) => panic!("engine asked for a malformed hash"),
    }
}

#[test]
fn valid_hash_without_session_is_500() {
    let c = Client::new(ClientConfig {
        session_output_dir: String::from("/tmp/session"),
        listen_port_range: None,
    });
    let param = InfoHashParam(String::from(SAMPLE));
    match handle_torrent_request(&c, &param) {
        HandlerStep::Respond(r) => {
            assert_eq!(r.status, 500);
            assert_eq!(r.body, b"BitTorrent client error".to_vec());
        }
        HandlerStep::AskEngine(_, _) => panic!("engine asked without a session"),
    }
}

#[test]
fn valid_hash_with_session_asks_engine() {
    let c = started_client();
    let param = InfoHashParam(String::from(SAMPLE_UPPER_MIXED));
    match handle_torrent_request(&c, &param) {
        HandlerStep::AskEngine(h, magnet) => {
            assert_eq!(h.to_hex_string(), SAMPLE);
            assert_eq!(magnet, format!("magnet:?xt=urn:btih:{SAMPLE}"));
        }
        HandlerStep::Respond(_) => panic!("no engine step for a valid hash"),
    }
}

const SAMPLE_UPPER_MIXED: &str = "443C7602B4FDE83D1154d6d9da48808418b181b6";

#[test]
fn list_only_with_declared_name_is_full_torrent_response() {
    let h = InfoHash::from_str(SAMPLE).unwrap();
    let content = vec![0x64, 0x38, 0x3a, 0x65]; // arbitrary binary payload
    let info = TorrentInfo { name: Some(b"ubuntu-24.04.iso".to_vec()) };
    let r = engine_event_reply(&h, EngineEvent::ListOnly(info, content.clone()));
    assert_eq!(r.status, 200);
    assert_eq!(r.body, content);
    assert_eq!(header(&r, "content-type"), "application/x-bittorrent");
    assert_eq!(
        header(&r, "content-disposition"),
        "attachment; filename=ubuntu-24.04.iso.torrent"
    );
    assert_eq!(header(&r, "x-torrust-torrent-infohash"), SAMPLE);
}

#[test]
fn already_managed_is_also_200() {
    let h = InfoHash::from_str(SAMPLE).unwrap();
    let info = TorrentInfo { name: Some(b"cached".to_vec()) };
    let r = engine_event_reply(&h, EngineEvent::AlreadyManaged(info, vec![7, 7]));
    assert_eq!(r.status, 200);
    assert_eq!(r.body, vec![7, 7]);
    assert_eq!(header(&r, "content-type"), "application/x-bittorrent");
    assert!(header(&r, "content-disposition").ends_with(".torrent"));
}

#[test]
fn missing_name_falls_back_to_hex() {
    let h = InfoHash::from_str(SAMPLE).unwrap();
    let r = engine_event_reply(&h, EngineEvent::ListOnly(TorrentInfo { name: None }, vec![1]));
    assert_eq!(
        header(&r, "content-disposition"),
        format!("attachment; filename={SAMPLE}.torrent")
    );
}

#[test]
fn invalid_utf8_name_falls_back_to_hex() {
    let h = InfoHash::from_str(SAMPLE).unwrap();
    let info = TorrentInfo { name: Some(vec![0xff, 0xfe, 0x41]) };
    let r = engine_event_reply(&h, EngineEvent::ListOnly(info, vec![1]));
    assert_eq!(
        header(&r, "content-disposition"),
        format!("attachment; filename={SAMPLE}.torrent")
    );
}

#[test]
fn header_breaking_name_falls_back_to_hex() {
    let h = InfoHash::from_str(SAMPLE).unwrap();
    let info = TorrentInfo { name: Some(b"evil\r\nx-injected: 1".to_vec()) };
    let r = engine_event_reply(&h, EngineEvent::ListOnly(info, vec![1]));
    assert_eq!(
        header(&r, "content-disposition"),
        format!("attachment; filename={SAMPLE}.torrent")
    );
}

#[test]
fn non_ascii_utf8_name_is_kept() {
    let h = InfoHash::from_str(SAMPLE).unwrap();
    let info = TorrentInfo { name: Some("café".as_bytes().to_vec()) };
    let r = engine_event_reply(&h, EngineEvent::ListOnly(info, vec![1]));
    assert_eq!(header(&r, "content-disposition"), "attachment; filename=café.torrent");
}

#[test]
fn added_for_download_is_500_without_content() {
    let h = InfoHash::from_str(SAMPLE).unwrap();
    let r = engine_event_reply(&h, EngineEvent::AddedForDownload);
    assert_eq!(r.status, 500);
    assert_eq!(r.body, b"BitTorrent client error".to_vec());
    assert!(r.headers.is_empty());
}

#[test]
fn submit_failure_is_500() {
    let h = InfoHash::from_str(SAMPLE).unwrap();
    let r = engine_event_reply(&h, EngineEvent::SubmitFailed);
    assert_eq!(r.status, 500);
    assert_eq!(r.body, b"BitTorrent client error".to_vec());
}

#[test]
fn torrent_file_response_builds_exact_headers() {
    let r = torrent_file_response(vec![5, 6], "name.torrent", SAMPLE);
    assert_eq!(r.status, 200);
    assert_eq!(r.body, vec![5, 6]);
    assert_eq!(
        r.headers,
        vec![
            (String::from("content-type"), String::from("application/x-bittorrent")),
            (String::from("content-disposition"), String::from("attachment; filename=name.torrent")),
            (String::from("x-torrust-torrent-infohash"), String::from(SAMPLE)),
        ]
    );
}
