//! Responses, the decisions of a call, and the value types, on concrete values.
use transmission_rpc::json::{json_number, string_json};
use transmission_rpc::json_rpc::{JsonRpcError, JsonRpcId, JsonRpcResponse, JsonRpcResult};
use transmission_rpc::session::{
    accept_json_rpc, header_text, CallAttempts, RpcSemver, SessionState, TransError, MAX_RETRIES,
};
use transmission_rpc::types::request::{
    GroupGetArgs, Method, PortTestArgs, RpcRequest, TorrentAction, TorrentAddArgs, TorrentGetArgs,
    TorrentGetField, TrackerReplaceArgs, TrackerReplacePair,
};
use transmission_rpc::types::response::{
    BlocklistUpdate, FreeSpace, Nothing, PortTest, RpcResponse, Torrent, TorrentAddedOrDuplicate,
    TorrentRenamePath, Torrents,
};
use transmission_rpc::types::{
    AltSpeedDay, Encryption, Id, IpProtocol, MinutesAfterMidnight, Priority, RatioLimit, Tag,
    TrackerList, Url,
};

fn json_rpc_answer<T: transmission_rpc::types::response::RpcResponseArgument>(
    version: &str,
    result: JsonRpcResult<T>,
    id: Option<JsonRpcId>,
) -> JsonRpcResponse<T> {
    JsonRpcResponse { jsonrpc: version.to_string(), result, id }
}

fn version(major: u64, minor: u64, patch: u64, pre: &str, build: &str) -> RpcSemver {
    RpcSemver { major, minor, patch, pre: pre.to_string(), build: build.to_string() }
}

// ---------------------------------------------------------------------------------------------
// Responses

#[test]
fn response_is_ok_only_for_success() {
    let ok = RpcResponse { arguments: Nothing {}, result: "success".to_string(), tag: None };
    assert!(ok.is_ok());
    let failed = RpcResponse {
        arguments: Nothing {},
        result: "download directory path is not absolute".to_string(),
        tag: Some(Tag(3)),
    };
    assert!(!failed.is_ok());
    let close = RpcResponse { arguments: Nothing {}, result: "Success".to_string(), tag: None };
    assert!(!close.is_ok());
}

#[test]
fn response_from_json_rpc_result() {
    let answer = json_rpc_answer(
        "2.0",
        JsonRpcResult::Result(BlocklistUpdate { blocklist_size: Some(2041) }),
        Some(JsonRpcId::Number(12345)),
    );
    let resp = RpcResponse::from_json_rpc(answer);
    assert!(resp.is_ok());
    assert_eq!(resp.result, "success");
    assert_eq!(resp.arguments.blocklist_size, Some(2041));
    assert_eq!(resp.tag, Some(Tag(12345)));
}

#[test]
fn response_from_json_rpc_error() {
    let answer: JsonRpcResponse<FreeSpace> = json_rpc_answer(
        "2.0",
        JsonRpcResult::Error(JsonRpcError { code: -32600, message: "Invalid Request".to_string() }),
        None,
    );
    let resp = RpcResponse::from_json_rpc(answer);
    assert!(!resp.is_ok());
    assert_eq!(resp.result, "Invalid Request (code: -32600)");
    assert_eq!(resp.arguments, FreeSpace::default());
    assert_eq!(resp.tag, None);
}

#[test]
fn response_from_json_rpc_by_into() {
    let answer = json_rpc_answer(
        "2.0",
        JsonRpcResult::Result(FreeSpace {
            path: "/downloads".to_string(),
            size_bytes: 4321,
            total_size: Some(257698037760),
        }),
        Some(JsonRpcId::Number(12345)),
    );
    let resp: RpcResponse<FreeSpace> = answer.into();
    assert!(resp.is_ok());
    assert_eq!(resp.arguments.path, "/downloads".to_string());
    assert_eq!(resp.arguments.size_bytes, 4321);
    assert_eq!(resp.arguments.total_size, Some(257698037760));
    assert_eq!(resp.tag, Some(Tag(12345)));
}

#[test]
fn response_error_named_success_is_not_ok() {
    let answer: JsonRpcResponse<Nothing> = json_rpc_answer(
        "2.0",
        JsonRpcResult::Error(JsonRpcError { code: 7, message: "success".to_string() }),
        Some(JsonRpcId::String("abc".to_string())),
    );
    let resp = RpcResponse::from_json_rpc(answer);
    assert_eq!(resp.result, "success (code: 7)");
    assert!(!resp.is_ok());
    assert_eq!(resp.tag, Some(Tag(0)));
}

#[test]
fn accept_json_rpc_checks_the_version() {
    let answer = json_rpc_answer(
        "3.0",
        JsonRpcResult::Result(PortTest { port_is_open: true, ip_protocol: Some(IpProtocol::Ipv6) }),
        Some(JsonRpcId::Number(1)),
    );
    match accept_json_rpc(answer, Some(Tag(1))) {
        Err(e) => {
            assert_eq!(e, TransError::UnhandledJsonRpcVersion("3.0".to_string()));
            assert_eq!(e.to_string(), "Unhandled JSON-RPC version: 3.0");
        },
        Ok(_) => panic!("a JSON-RPC 3.0 answer was taken"),
    }

    let answer = json_rpc_answer(
        "2.0",
        JsonRpcResult::Result(PortTest { port_is_open: true, ip_protocol: Some(IpProtocol::Ipv6) }),
        Some(JsonRpcId::Number(1)),
    );
    let resp = accept_json_rpc(answer, Some(Tag(1))).expect("a JSON-RPC 2.0 answer");
    assert!(resp.is_ok());
    assert!(resp.arguments.port_is_open);
    assert_eq!(resp.arguments.ip_protocol, Some(IpProtocol::Ipv6));
    assert_eq!(resp.tag, Some(Tag(1)));
}

#[test]
fn untagged_call_is_answered_without_tag() {
    let answer = json_rpc_answer("2.0", JsonRpcResult::Result(Nothing {}), Some(JsonRpcId::Number(0)));
    let resp = accept_json_rpc(answer, None).expect("a JSON-RPC 2.0 answer");
    assert!(resp.is_ok());
    assert_eq!(resp.tag, None);

    let answer = json_rpc_answer("2.0", JsonRpcResult::Result(Nothing {}), Some(JsonRpcId::Number(0)));
    let resp = accept_json_rpc(answer, Some(Tag(0))).expect("a JSON-RPC 2.0 answer");
    assert_eq!(resp.tag, Some(Tag(0)));

    let answer: JsonRpcResponse<Nothing> = json_rpc_answer(
        "2.0",
        JsonRpcResult::Error(JsonRpcError { code: -32600, message: "Invalid Request".to_string() }),
        None,
    );
    let resp = accept_json_rpc(answer, Some(Tag(9))).expect("a JSON-RPC 2.0 answer");
    assert_eq!(resp.result, "Invalid Request (code: -32600)");
    assert_eq!(resp.tag, None);
}

#[test]
fn blocklist_update_v411_conversion() {
    let answer = json_rpc_answer(
        "2.0",
        JsonRpcResult::Result(BlocklistUpdate { blocklist_size: Some(2041) }),
        Some(JsonRpcId::Number(12345)),
    );
    let resp: RpcResponse<BlocklistUpdate> = answer.into();
    assert!(resp.is_ok());
    assert_eq!(resp.arguments.blocklist_size, Some(2041));
}

#[test]
fn port_test_v411_conversion() {
    let answer = json_rpc_answer(
        "2.0",
        JsonRpcResult::Result(PortTest { port_is_open: true, ip_protocol: Some(IpProtocol::Ipv6) }),
        Some(JsonRpcId::Number(12345)),
    );
    let resp: RpcResponse<PortTest> = answer.into();
    assert!(resp.is_ok());
    assert_eq!(resp.arguments.port_is_open, true);
    assert_eq!(resp.arguments.ip_protocol, Some(IpProtocol::Ipv6));
}

#[test]
fn refusal_teaches_session_id_only() {
    let mut s = SessionState::new();
    assert_eq!(s.session_header(), None);
    assert_eq!(s.learn_session_id(Some(b"abc".to_vec())), Ok(()));
    assert_eq!(s.session_header(), Some("abc".to_string()));
    assert_eq!(s.semver, None);
    assert_eq!(s.learn_session_id(None), Err(TransError::NoSessionIdReceived));
    assert_eq!(s.learn_session_id(Some(vec![0x0a])), Err(TransError::InvalidHeaderValue));
    assert_eq!(s.session_id, Some("abc".to_string()));

    // A client that learns the session id alone keeps sending the older protocol.
    let mut request = RpcRequest::session_stats(None);
    let mut attempts = CallAttempts::new();
    assert_eq!(attempts.begin(&s, &mut request), Ok(()));
    assert_eq!(request.jsonrpc, None);
}

#[test]
fn a_run_of_refusals_keeps_the_older_protocol() {
    let given = RpcRequest::session_stats(Some(Tag(3)));
    let text = given.to_json();

    // Taken in by the session id alone: the version header is never read.
    let mut s = SessionState::new();
    let mut request = RpcRequest::session_stats(Some(Tag(3)));
    let mut attempts = CallAttempts::new();
    for id in ["a", "b", "c", "d"] {
        assert_eq!(attempts.begin(&s, &mut request), Ok(()));
        assert_eq!(request.to_json(), text);
        assert_eq!(s.learn_session_id(Some(id.as_bytes().to_vec())), Ok(()));
        assert_eq!(s.session_header(), Some(id.to_string()));
    }
    assert_eq!(attempts.begin(&s, &mut request), Ok(()));
    assert_eq!(request.to_json(), text);
    assert_eq!(attempts.begin(&s, &mut request), Err(TransError::MaxRetriesReached));

    // Taken in whole, with versions below 6.0.0.
    let mut s = SessionState::new();
    let mut request = RpcRequest::session_stats(Some(Tag(3)));
    let mut attempts = CallAttempts::new();
    for (version, id) in [("5.3.0", "x"), ("6.0.0-rc1", "y")] {
        assert_eq!(attempts.begin(&s, &mut request), Ok(()));
        assert_eq!(request.to_json(), text);
        assert_eq!(s.on_conflict(Some(version.as_bytes().to_vec()), Some(id.as_bytes().to_vec())), Ok(()));
        assert_eq!(s.session_header(), Some(id.to_string()));
    }
    assert_eq!(attempts.begin(&s, &mut request), Ok(()));
    assert_eq!(request.to_json(), text);
}

#[test]
fn torrent_get_args_from_pair() {
    let args = TorrentGetArgs::from((vec![], vec![]));
    assert!(args.fields.is_none());
    assert_eq!(args.ids, Some(vec![]));
    let args = TorrentGetArgs::from((vec![TorrentGetField::Id, TorrentGetField::Name], vec![Id::Id(2)]));
    assert_eq!(args.fields, Some(vec![TorrentGetField::Id, TorrentGetField::Name]));
    assert_eq!(args.ids, Some(vec![Id::Id(2)]));
}

#[test]
fn response_defaults() {
    assert_eq!(BlocklistUpdate::default().blocklist_size, None);
    let free = FreeSpace::default();
    assert_eq!(free.path, "");
    assert_eq!(free.size_bytes, 0);
    assert_eq!(free.total_size, None);
    assert_eq!(PortTest::default(), PortTest { port_is_open: false, ip_protocol: None });
    assert_eq!(TorrentRenamePath::default(), TorrentRenamePath { path: None, name: None, id: None });
    assert!(Torrents::<Torrent>::default().torrents.is_empty());
    assert!(matches!(TorrentAddedOrDuplicate::default(), TorrentAddedOrDuplicate::Error));
}

#[test]
fn torrent_added_or_duplicate_from_entries() {
    let t = Torrent { id: Some(2), hash_string: Some("bbdaece7".to_string()), name: Some("toto.torrent".to_string()) };
    match TorrentAddedOrDuplicate::from_entries(Some(t.clone()), None) {
        TorrentAddedOrDuplicate::TorrentAdded(x) => assert_eq!(x, t),
        other => panic!("unexpected {other:?}"),
    }
    match TorrentAddedOrDuplicate::from_entries(None, Some(t.clone())) {
        TorrentAddedOrDuplicate::TorrentDuplicate(x) => assert_eq!(x, t),
        other => panic!("unexpected {other:?}"),
    }
    assert!(matches!(
        TorrentAddedOrDuplicate::from_entries(Some(t.clone()), Some(t)),
        TorrentAddedOrDuplicate::Error
    ));
    assert!(matches!(TorrentAddedOrDuplicate::from_entries(None, None), TorrentAddedOrDuplicate::Error));
}

// ---------------------------------------------------------------------------------------------
// The decisions of a call

#[test]
fn header_text_reads_visible_ascii_only() {
    assert_eq!(header_text(b"abc 123\tx~"), Some("abc 123\tx~".to_string()));
    assert_eq!(header_text(b""), Some(String::new()));
    assert_eq!(header_text(b"ab\ncd"), None);
    assert_eq!(header_text(&[0x61, 0x7f]), None);
    assert_eq!(header_text(&[0xc3, 0xa9]), None);
}

#[test]
fn semver_parse_gives_the_parts() {
    let v = RpcSemver::parse("6.1.0-dev+ae226418eb").expect("a version");
    assert_eq!(v, version(6, 1, 0, "dev", "ae226418eb"));
    let v = RpcSemver::parse("5.3.0").expect("a version");
    assert_eq!(v, version(5, 3, 0, "", ""));
    assert!(matches!(RpcSemver::parse("6.0"), Err(TransError::InvalidRpcVersion(_))));
    assert!(matches!(RpcSemver::parse("1.0.01"), Err(TransError::InvalidRpcVersion(_))));
}

#[test]
fn semver_json_rpc_from_six() {
    assert!(version(6, 0, 0, "", "").speaks_json_rpc());
    assert!(version(6, 0, 0, "", "build5").speaks_json_rpc());
    assert!(!version(6, 0, 0, "beta", "").speaks_json_rpc());
    assert!(version(6, 0, 1, "alpha", "").speaks_json_rpc());
    assert!(version(7, 0, 0, "rc1", "").speaks_json_rpc());
    assert!(!version(5, 99, 99, "", "").speaks_json_rpc());
}

#[test]
fn conflict_learns_version_and_session_id() {
    let mut s = SessionState::new();
    let r = s.on_conflict(Some(b"6.0.0".to_vec()), Some(b"XYZ123".to_vec()));
    assert_eq!(r, Ok(()));
    assert_eq!(s.semver, Some(version(6, 0, 0, "", "")));
    assert_eq!(s.session_id, Some("XYZ123".to_string()));

    let r = s.on_conflict(None, Some(b"second".to_vec()));
    assert_eq!(r, Ok(()));
    assert_eq!(s.semver, None);
    assert_eq!(s.session_id, Some("second".to_string()));
}

#[test]
fn conflict_without_session_id_keeps_the_version() {
    let mut s = SessionState::new();
    let r = s.on_conflict(Some(b"5.3.0".to_vec()), None);
    assert_eq!(r, Err(TransError::NoSessionIdReceived));
    assert_eq!(s.semver, Some(version(5, 3, 0, "", "")));
    assert_eq!(s.session_id, None);
    assert_eq!(r.unwrap_err().to_string(), "No session id received!");
}

#[test]
fn conflict_with_bad_headers() {
    let mut s = SessionState::new();
    s.session_id = Some("old".to_string());
    let r = s.on_conflict(Some(b"6.0".to_vec()), Some(b"new".to_vec()));
    assert!(matches!(r, Err(TransError::InvalidRpcVersion(_))));
    assert_eq!(s.semver, None);
    assert_eq!(s.session_id, Some("old".to_string()));

    let r = s.on_conflict(Some(vec![0x36, 0x0a]), Some(b"new".to_vec()));
    assert_eq!(r, Err(TransError::InvalidHeaderValue));
    assert_eq!(s.session_id, Some("old".to_string()));

    let r = s.on_conflict(Some(b"6.0.0".to_vec()), Some(vec![0x01]));
    assert_eq!(r, Err(TransError::InvalidHeaderValue));
    assert_eq!(s.semver, Some(version(6, 0, 0, "", "")));
    assert_eq!(s.session_id, Some("old".to_string()));
}

#[test]
fn a_call_sends_at_most_max_retries_times() {
    let session = SessionState::new();
    let mut request = RpcRequest::session_stats(None);
    let mut attempts = CallAttempts::new();
    for _ in 0..MAX_RETRIES {
        assert_eq!(attempts.begin(&session, &mut request), Ok(()));
    }
    assert_eq!(attempts.begin(&session, &mut request), Err(TransError::MaxRetriesReached));
    assert_eq!(attempts.begin(&session, &mut request), Err(TransError::MaxRetriesReached));
    assert_eq!(MAX_RETRIES, 5);
    assert_eq!(TransError::MaxRetriesReached.to_string(), "Max retries reached!");
}

#[test]
fn a_call_speaks_json_rpc_from_version_six() {
    let mut session = SessionState::new();
    let mut request = RpcRequest::session_stats(Some(Tag(4)));
    let mut attempts = CallAttempts::new();

    assert_eq!(attempts.begin(&session, &mut request), Ok(()));
    assert_eq!(request.jsonrpc, None);

    session.semver = Some(version(6, 0, 0, "", ""));
    assert_eq!(attempts.begin(&session, &mut request), Ok(()));
    assert_eq!(request.jsonrpc, Some("2.0".to_string()));
    assert_eq!(request.to_json(), "{\"jsonrpc\":\"2.0\",\"method\":\"session_stats\",\"id\":4}");

    session.semver = Some(version(5, 4, 0, "", ""));
    assert_eq!(attempts.begin(&session, &mut request), Ok(()));
    assert_eq!(request.jsonrpc, None);
    assert_eq!(request.to_json(), "{\"method\":\"session-stats\",\"tag\":4}");
}

// ---------------------------------------------------------------------------------------------
// Value types

#[test]
fn alt_speed_days() {
    let weekdays = AltSpeedDay::monday() | AltSpeedDay::tuesday() | AltSpeedDay::wednesday()
        | AltSpeedDay::thursday() | AltSpeedDay::friday();
    assert_eq!(weekdays, AltSpeedDay::weekday());
    assert_eq!(weekdays.bits(), 62);
    assert_eq!(AltSpeedDay::saturday() | AltSpeedDay::sunday(), AltSpeedDay::weekend());
    assert_eq!(AltSpeedDay::weekend().bits(), 65);
    assert_eq!(AltSpeedDay::weekday() | AltSpeedDay::weekend(), AltSpeedDay::all());
    assert_eq!(AltSpeedDay::all().bits(), 127);
    assert!(AltSpeedDay::weekend().contains(AltSpeedDay::sunday()));
    assert!(!AltSpeedDay::weekend().contains(AltSpeedDay::monday()));
    assert_eq!(AltSpeedDay::from_bits_truncate(0xff), AltSpeedDay::all());
    assert_eq!(AltSpeedDay::from_bits_retain(0xff).bits(), 0xff);
    assert_eq!(AltSpeedDay::weekday().intersection(AltSpeedDay::weekend()), AltSpeedDay::empty());
    assert_eq!(AltSpeedDay::weekday().union(AltSpeedDay::weekend()).to_json(), "127");
}

#[test]
fn minutes_after_midnight_wrap_into_the_day() {
    assert_eq!(MinutesAfterMidnight(123).minute(), 123);
    assert_eq!(MinutesAfterMidnight(60 * 24 + 111).minute(), 111);
    assert_eq!(MinutesAfterMidnight(60 * 24).minute(), 0);
    assert_eq!(MinutesAfterMidnight(u16::MAX).to_json(), "735");
}

#[test]
fn urls_are_normalized_by_the_parser() {
    let u = Url::parse("https://example.com:1001").expect("a valid url");
    assert_eq!(u.as_str(), "https://example.com:1001/");
    assert_eq!(u.to_json(), "\"https://example.com:1001/\"");
    assert!(Url::parse("not a url").is_err());
    let list: TrackerList = vec![
        vec![Url::parse("http://a.example.com/announce").expect("a valid url")],
        vec![],
    ].into();
    assert_eq!(list.to_text(), "http://a.example.com/announce\n\n");
}

#[test]
fn encryption_names() {
    assert_eq!(Encryption::Tolerated.to_json(false), "\"tolerated\"");
    assert_eq!(Encryption::Tolerated.to_json(true), "\"allowed\"");
    assert_eq!(Encryption::Required.to_json(true), "\"required\"");
    assert_eq!(Encryption::from_name("allowed"), Some(Encryption::Tolerated));
    assert_eq!(Encryption::from_name("tolerated"), Some(Encryption::Tolerated));
    assert_eq!(Encryption::from_name("none"), None);
    assert_eq!(Encryption::Preferred.to_string(), "preferred");
}

#[test]
fn ids_and_priorities_as_json() {
    assert_eq!(Id::Id(-3).to_json(), "-3");
    assert_eq!(Id::Hash("ab\"c".to_string()).to_json(), "\"ab\\\"c\"");
    assert_eq!(Priority::Low.to_json(), "-1");
    assert_eq!(Priority::from_value(1), Some(Priority::High));
    assert_eq!(Priority::from_value(2), None);
    assert_eq!(Tag::from(&42i64), Tag(42));
    assert_eq!(Tag(-7).to_string(), "-7");
}

#[test]
fn json_numbers_are_recognized() {
    for good in ["0", "-0", "2.25", "2.0", "-0.5e+10", "1E5", "12e-3", "100"] {
        assert!(json_number(good), "{good}");
        assert_eq!(RatioLimit::from_json_number(good.to_string()).map(|r| r.as_str().to_string()), Some(good.to_string()));
    }
    for bad in ["", "-", "01", "1.", ".5", "1e", "1e+", "+1", "null", "NaN", "2.0,\"x\":1", "1.2.3", "0x10", " 1"] {
        assert!(!json_number(bad), "{bad}");
        assert!(RatioLimit::from_json_number(bad.to_string()).is_none());
    }
}

#[test]
fn json_strings_are_escaped() {
    assert_eq!(string_json("a\"b\\c\nd\u{1}é"), "\"a\\\"b\\\\c\\nd\\u0001é\"");
    assert_eq!(string_json("\u{8}\u{c}\r\t"), "\"\\b\\f\\r\\t\"");
}

#[test]
fn torrent_actions_name_their_methods() {
    for action in [
        TorrentAction::Start,
        TorrentAction::StartNow,
        TorrentAction::Stop,
        TorrentAction::Verify,
        TorrentAction::Reannounce,
    ] {
        assert_eq!(action.to_str(), Method::from(action).name());
        assert_eq!(action.to_string(), action.to_str());
    }
    assert_eq!(TorrentAction::StartNow.to_str(), "torrent-start-now");
}

#[test]
fn method_names_are_snake_case_in_json_rpc() {
    for m in [
        Method::BlocklistUpdate, Method::FreeSpace, Method::GroupGet, Method::GroupSet,
        Method::PortTest, Method::QueueMoveBottom, Method::QueueMoveDown, Method::QueueMoveTop,
        Method::QueueMoveUp, Method::SessionClose, Method::SessionGet, Method::SessionSet,
        Method::SessionStats, Method::TorrentAdd, Method::TorrentGet, Method::TorrentReannounce,
        Method::TorrentRemove, Method::TorrentRenamePath, Method::TorrentSet,
        Method::TorrentSetLocation, Method::TorrentStart, Method::TorrentStartNow,
        Method::TorrentStop, Method::TorrentVerify,
    ] {
        assert_eq!(m.compat_name(), m.name().replace('-', "_"));
        assert_eq!(m.to_string(), format!("\"{}\"", m.name()));
    }
    assert_eq!(Method::SessionGet.to_string(), "\"session-get\"");
}

#[test]
fn torrent_get_without_fields_asks_for_all_once() {
    let all = TorrentGetField::all();
    assert_eq!(all.len(), 80);
    for (i, f) in all.iter().enumerate() {
        assert!(!all[i + 1..].contains(f));
    }
    assert_eq!(all[0], TorrentGetField::ActivityDate);
    let request = RpcRequest::torrent_get(None, Some(vec![Id::Id(1)]), None);
    let text = request.to_json();
    assert!(text.starts_with("{\"method\":\"torrent-get\",\"arguments\":{\"fields\":[\"activityDate\",\"addedDate\","));
    assert!(text.ends_with("],\"ids\":[1]}}"));
}

#[test]
fn torrent_get_args_from_fields_and_ids() {
    let args = TorrentGetArgs::from_fields_and_ids(vec![], vec![Id::Id(4)]);
    assert!(args.fields.is_none());
    assert_eq!(args.ids, Some(vec![Id::Id(4)]));
    assert_eq!(args.to_json(false), "{\"ids\":[4]}");
    let args = TorrentGetArgs::from_fields_and_ids(vec![TorrentGetField::Name], vec![]);
    assert_eq!(args.to_json(true), "{\"fields\":[\"name\"],\"ids\":[]}");
    let all = TorrentGetArgs::default();
    assert_eq!(all.fields, Some(TorrentGetField::all()));
    assert!(all.ids.is_none());
}

#[test]
fn tracker_replace_pair_from_text() {
    let pair = TrackerReplacePair::try_new(7, "http://a.example.com:80/x").expect("a valid url");
    assert_eq!(pair.id, 7);
    assert_eq!(pair.new_announce.as_str(), "http://a.example.com/x");
    assert!(TrackerReplacePair::try_new(7, "::").is_err());
    let pair = TrackerReplacePair::from((3, Url::parse("udp://t.example.org:6969").expect("a valid url")));
    assert_eq!(TrackerReplaceArgs::new(vec![pair]).to_json(), "[3,\"udp://t.example.org:6969\"]");
}

#[test]
fn group_get_with_no_names_asks_for_every_group() {
    assert_eq!(GroupGetArgs::from_names(vec![]).groups, None);
    assert_eq!(
        GroupGetArgs::from_names(vec!["slow".to_string()]).groups,
        Some(vec!["slow".to_string()])
    );
    assert_eq!(GroupGetArgs::from_option(Some(vec![])).groups, Some(vec![]));
}

#[test]
fn port_test_args_setter() {
    let args = PortTestArgs::new();
    assert_eq!(args.ip_protocol, None);
    let args = args.ip_protocol(IpProtocol::Ipv4);
    assert_eq!(args.ip_protocol, Some(IpProtocol::Ipv4));
    assert_eq!(args.to_json(false), "{}");
    assert_eq!(args.to_json(true), "{\"ip_protocol\":\"ipv4\"}");
}

#[test]
fn torrent_add_args_setters_touch_one_field() {
    let args = TorrentAddArgs::default()
        .download_dir("/downloads")
        .filename("/path/to/my.torrent");
    assert_eq!(args, TorrentAddArgs {
        download_dir: Some("/downloads".to_string()),
        filename: Some("/path/to/my.torrent".into()),
        ..Default::default()
    });
    assert!(args.is_valid());
    assert!(!TorrentAddArgs::new().paused(true).is_valid());
    assert!(TorrentAddArgs::new().metainfo("ZGF0YQ==").is_valid());
    let args = TorrentAddArgs::new().labels(&["linux", "testing"]);
    assert_eq!(args.labels, Some(vec!["linux".to_string(), "testing".to_string()]));
    assert_eq!(args.filename, None);
}
