//! Requests of the methods that take a list of ids or no arguments, and the names of methods.
use transmission_rpc::json::string_json;
use transmission_rpc::json_rpc::JSON_RPC_VERSION_2_0;
use transmission_rpc::types::request::{
    FreeSpaceArgs, GroupGetArgs, Method, PortTestArgs, RpcRequest, TorrentAction,
};
use transmission_rpc::types::{Id, IpProtocol};

type Result<T> = std::result::Result<T, Box<dyn std::error::Error>>;

/// Checks that the request made of `args`, sent in the protocol that `jsonrpc` names (the
/// older one when it is `None`), is the JSON text with `expected_args` as its arguments.
fn verify<T: Into<RpcRequest>>(args: T, jsonrpc: Option<&str>, expected_args: &str) -> Result<()> {
    let mut request: RpcRequest = args.into();
    request.jsonrpc = jsonrpc.map(str::to_string);

    let ser_request = request.to_json();
    println!("===== ser_request:\n{ser_request}\n");

    let expected = match jsonrpc {
        None => {
            let method = request.method.name();
            format!("{{\"method\":\"{method}\",\"arguments\":{{{expected_args}}}}}")
        },
        Some(version) => {
            let method = request.method.compat_name();
            format!(
                "{{\"jsonrpc\":\"{version}\",\"method\":\"{method}\",\"params\":{{{expected_args}}},\"id\":0}}"
            )
        },
    };

    assert_eq!(ser_request, expected);
    Ok(())
}

fn serialize_method_legacy(method: Method) -> Result<String> {
    Ok(string_json(method.name()))
}

fn serialize_method_semver_600(method: Method) -> Result<String> {
    Ok(string_json(method.compat_name()))
}

#[test]
fn request_free_space_legacy() -> Result<()> {
    let args = FreeSpaceArgs { path: "/downloads".into() };
    verify(args, None, "\"path\":\"/downloads\"")
}

#[test]
fn request_free_space_semver_600() -> Result<()> {
    let args = FreeSpaceArgs { path: "/foo/bar".into() };
    verify(args, Some(JSON_RPC_VERSION_2_0), "\"path\":\"/foo/bar\"")
}

#[test]
fn request_port_test_legacy() -> Result<()> {
    let args = PortTestArgs { ip_protocol: Some(IpProtocol::Ipv4) };
    verify(args, None, "")
}

#[test]
fn request_port_test_semver_600() -> Result<()> {
    let args = PortTestArgs { ip_protocol: Some(IpProtocol::Ipv6) };
    verify(args, Some(JSON_RPC_VERSION_2_0), "\"ip_protocol\":\"ipv6\"")
}

#[test]
fn request_queue_move_top_legacy() -> Result<()> {
    let req = RpcRequest::queue_move_top(vec![Id::Id(123)], None);
    verify(req, None, "\"ids\":[123]")
}

#[test]
fn request_queue_move_top_semver_600() -> Result<()> {
    let req = RpcRequest::queue_move_top(vec![Id::Id(654)], None);
    verify(req, Some(JSON_RPC_VERSION_2_0), "\"ids\":[654]")
}

#[test]
fn request_queue_move_up_legacy() -> Result<()> {
    let req = RpcRequest::queue_move_up(vec![Id::Id(123)], None);
    verify(req, None, "\"ids\":[123]")
}

#[test]
fn request_queue_move_up_semver_600() -> Result<()> {
    let req = RpcRequest::queue_move_up(vec![Id::Id(654)], None);
    verify(req, Some(JSON_RPC_VERSION_2_0), "\"ids\":[654]")
}

#[test]
fn request_queue_move_down_legacy() -> Result<()> {
    let req = RpcRequest::queue_move_down(vec![Id::Id(123)], None);
    verify(req, None, "\"ids\":[123]")
}

#[test]
fn request_queue_move_down_semver_600() -> Result<()> {
    let req = RpcRequest::queue_move_down(vec![Id::Id(654)], None);
    verify(req, Some(JSON_RPC_VERSION_2_0), "\"ids\":[654]")
}

#[test]
fn request_queue_move_bottom_legacy() -> Result<()> {
    let req = RpcRequest::queue_move_bottom(vec![Id::Id(123)], None);
    verify(req, None, "\"ids\":[123]")
}

#[test]
fn request_queue_move_bottom_semver_600() -> Result<()> {
    let req = RpcRequest::queue_move_bottom(vec![Id::Id(654)], None);
    verify(req, Some(JSON_RPC_VERSION_2_0), "\"ids\":[654]")
}

#[test]
fn request_torrent_remove_legacy() -> Result<()> {
    let req = RpcRequest::torrent_remove(vec![Id::Id(2)], true, None);
    verify(req, None,
        "\"ids\":[2],\
        \"delete-local-data\":true")
}

#[test]
fn request_torrent_remove_semver_600() -> Result<()> {
    let req = RpcRequest::torrent_remove(vec![Id::Id(13)], false, None);
    verify(req, Some(JSON_RPC_VERSION_2_0), 
        "\"ids\":[13],\
        \"delete_local_data\":false")
}

#[test]
fn request_torrent_action_start_legacy() -> Result<()> {
    let req = RpcRequest::torrent_action(TorrentAction::Start, vec![Id::Id(6)], None);
    verify(req, None, "\"ids\":[6]")
}

#[test]
fn request_torrent_action_start_semver_600() -> Result<()> {
    let req = RpcRequest::torrent_action(TorrentAction::Start, vec![Id::Id(111)], None);
    verify(req, Some(JSON_RPC_VERSION_2_0), "\"ids\":[111]")
}

#[test]
fn request_torrent_action_stop_legacy() -> Result<()> {
    let req = RpcRequest::torrent_action(TorrentAction::Stop, vec![Id::Id(7)], None);
    verify(req, None, "\"ids\":[7]")
}

#[test]
fn request_torrent_action_stop_semver_600() -> Result<()> {
    let req = RpcRequest::torrent_action(TorrentAction::Stop, vec![Id::Id(222)], None);
    verify(req, Some(JSON_RPC_VERSION_2_0), "\"ids\":[222]")
}

#[test]
fn request_torrent_action_start_now_legacy() -> Result<()> {
    let req = RpcRequest::torrent_action(TorrentAction::StartNow, vec![Id::Id(8)], None);
    verify(req, None, "\"ids\":[8]")
}

#[test]
fn request_torrent_action_start_now_semver_600() -> Result<()> {
    let req = RpcRequest::torrent_action(TorrentAction::StartNow, vec![Id::Id(333)], None);
    verify(req, Some(JSON_RPC_VERSION_2_0), "\"ids\":[333]")
}

#[test]
fn request_torrent_action_verify_legacy() -> Result<()> {
    let req = RpcRequest::torrent_action(TorrentAction::Verify, vec![Id::Id(9)], None);
    verify(req, None, "\"ids\":[9]")
}

#[test]
fn request_torrent_action_verify_semver_600() -> Result<()> {
    let req = RpcRequest::torrent_action(TorrentAction::Verify, vec![Id::Id(444)], None);
    verify(req, Some(JSON_RPC_VERSION_2_0), "\"ids\":[444]")
}

#[test]
fn request_torrent_action_reannounce_legacy() -> Result<()> {
    let req = RpcRequest::torrent_action(TorrentAction::Reannounce, vec![Id::Id(10)], None);
    verify(req, None, "\"ids\":[10]")
}

#[test]
fn request_torrent_action_reannounce_semver_600() -> Result<()> {
    let req = RpcRequest::torrent_action(TorrentAction::Reannounce, vec![Id::Id(555)], None);
    verify(req, Some(JSON_RPC_VERSION_2_0), "\"ids\":[555]")
}

#[test]
fn request_torrent_set_location_legacy() -> Result<()> {
    let req = RpcRequest::torrent_set_location(
        vec![Id::Id(105)],
        "/complete".into(),
        false,
        None);
    verify(req, None,
        "\"ids\":[105],\
        \"location\":\"/complete\",\
        \"move\":false")
}

#[test]
fn request_torrent_set_location_semver_600() -> Result<()> {
    let req = RpcRequest::torrent_set_location(
        vec![Id::Id(205)],
        "/iso".into(),
        true,
        None);
    verify(req, Some(JSON_RPC_VERSION_2_0),
        "\"ids\":[205],\
        \"location\":\"/iso\",\
        \"move\":true")
}

#[test]
fn request_torrent_rename_path_legacy() -> Result<()> {
    let req = RpcRequest::torrent_rename_path(
        vec![Id::Id(313)],
        "/downloads/debian-13.3.0-amd64-netinst.iso".into(),
        "foo.bar.iso".into(),
        None);
    verify(req, None,
        "\"ids\":[313],\
        \"path\":\"/downloads/debian-13.3.0-amd64-netinst.iso\",\
        \"name\":\"foo.bar.iso\"")
}

#[test]
fn request_torrent_rename_path_semver_600() -> Result<()> {
    let req = RpcRequest::torrent_rename_path(
        vec![Id::Id(315)],
        "/downloads/cachyos-desktop-linux.iso".into(),
        "cachyos-desktop-linux-260101.iso".into(),
        None);
    verify(req, Some(JSON_RPC_VERSION_2_0),
        "\"ids\":[315],\
        \"path\":\"/downloads/cachyos-desktop-linux.iso\",\
        \"name\":\"cachyos-desktop-linux-260101.iso\"")
}

#[test]
fn request_group_get_legacy() -> Result<()> {
    let args = GroupGetArgs { groups: None };
    verify(args, None, "")?;

    let args = GroupGetArgs { groups: Some(vec!["slow".into(), "fast".into()]) };
    verify(args, None, "\"groups\":[\"slow\",\"fast\"]")
}

#[test]
fn request_group_get_semver_600() -> Result<()> {
    let args = GroupGetArgs { groups: None };
    verify(args, Some(JSON_RPC_VERSION_2_0), "")?;

    let args = GroupGetArgs { groups: Some(vec!["foo".into(), "bar".into()]) };
    verify(args, Some(JSON_RPC_VERSION_2_0), "\"groups\":[\"foo\",\"bar\"]")
}

#[test]
fn request_method_legacy_blocklist_update() -> Result<()> {
    assert_eq!(serialize_method_legacy(Method::BlocklistUpdate)?, "\"blocklist-update\"");
    Ok(())
}

#[test]
fn request_method_semver_600_blocklist_update() -> Result<()> {
    assert_eq!(serialize_method_semver_600(Method::BlocklistUpdate)?, "\"blocklist_update\"");
    Ok(())
}

#[test]
fn request_method_legacy_free_space() -> Result<()> {
    assert_eq!(serialize_method_legacy(Method::FreeSpace)?, "\"free-space\"");
    Ok(())
}

#[test]
fn request_method_semver_600_free_space() -> Result<()> {
    assert_eq!(serialize_method_semver_600(Method::FreeSpace)?, "\"free_space\"");
    Ok(())
}

#[test]
fn request_method_legacy_group_get() -> Result<()> {
    assert_eq!(serialize_method_legacy(Method::GroupGet)?, "\"group-get\"");
    Ok(())
}

#[test]
fn request_method_semver_600_group_get() -> Result<()> {
    assert_eq!(serialize_method_semver_600(Method::GroupGet)?, "\"group_get\"");
    Ok(())
}

#[test]
fn request_method_legacy_group_set() -> Result<()> {
    assert_eq!(serialize_method_legacy(Method::GroupSet)?, "\"group-set\"");
    Ok(())
}

#[test]
fn request_method_semver_600_group_set() -> Result<()> {
    assert_eq!(serialize_method_semver_600(Method::GroupSet)?, "\"group_set\"");
    Ok(())
}

#[test]
fn request_method_legacy_port_test() -> Result<()> {
    assert_eq!(serialize_method_legacy(Method::PortTest)?, "\"port-test\"");
    Ok(())
}

#[test]
fn request_method_semver_600_port_test() -> Result<()> {
    assert_eq!(serialize_method_semver_600(Method::PortTest)?, "\"port_test\"");
    Ok(())
}

#[test]
fn request_method_legacy_queue_move_bottom() -> Result<()> {
    assert_eq!(serialize_method_legacy(Method::QueueMoveBottom)?, "\"queue-move-bottom\"");
    Ok(())
}

#[test]
fn request_method_semver_600_queue_move_bottom() -> Result<()> {
    assert_eq!(serialize_method_semver_600(Method::QueueMoveBottom)?, "\"queue_move_bottom\"");
    Ok(())
}

#[test]
fn request_method_legacy_queue_move_down() -> Result<()> {
    assert_eq!(serialize_method_legacy(Method::QueueMoveDown)?, "\"queue-move-down\"");
    Ok(())
}

#[test]
fn request_method_semver_600_queue_move_down() -> Result<()> {
    assert_eq!(serialize_method_semver_600(Method::QueueMoveDown)?, "\"queue_move_down\"");
    Ok(())
}

#[test]
fn request_method_legacy_queue_move_top() -> Result<()> {
    assert_eq!(serialize_method_legacy(Method::QueueMoveTop)?, "\"queue-move-top\"");
    Ok(())
}

#[test]
fn request_method_semver_600_queue_move_top() -> Result<()> {
    assert_eq!(serialize_method_semver_600(Method::QueueMoveTop)?, "\"queue_move_top\"");
    Ok(())
}

#[test]
fn request_method_legacy_queue_move_up() -> Result<()> {
    assert_eq!(serialize_method_legacy(Method::QueueMoveUp)?, "\"queue-move-up\"");
    Ok(())
}

#[test]
fn request_method_semver_600_queue_move_up() -> Result<()> {
    assert_eq!(serialize_method_semver_600(Method::QueueMoveUp)?, "\"queue_move_up\"");
    Ok(())
}

#[test]
fn request_method_legacy_session_close() -> Result<()> {
    assert_eq!(serialize_method_legacy(Method::SessionClose)?, "\"session-close\"");
    Ok(())
}

#[test]
fn request_method_semver_600_session_close() -> Result<()> {
    assert_eq!(serialize_method_semver_600(Method::SessionClose)?, "\"session_close\"");
    Ok(())
}

#[test]
fn request_method_legacy_session_get() -> Result<()> {
    assert_eq!(serialize_method_legacy(Method::SessionGet)?, "\"session-get\"");
    Ok(())
}

#[test]
fn request_method_semver_600_session_get() -> Result<()> {
    assert_eq!(serialize_method_semver_600(Method::SessionGet)?, "\"session_get\"");
    Ok(())
}

#[test]
fn request_method_legacy_session_set() -> Result<()> {
    assert_eq!(serialize_method_legacy(Method::SessionSet)?, "\"session-set\"");
    Ok(())
}

#[test]
fn request_method_semver_600_session_set() -> Result<()> {
    assert_eq!(serialize_method_semver_600(Method::SessionSet)?, "\"session_set\"");
    Ok(())
}

#[test]
fn request_method_legacy_session_stats() -> Result<()> {
    assert_eq!(serialize_method_legacy(Method::SessionStats)?, "\"session-stats\"");
    Ok(())
}

#[test]
fn request_method_semver_600_session_stats() -> Result<()> {
    assert_eq!(serialize_method_semver_600(Method::SessionStats)?, "\"session_stats\"");
    Ok(())
}

#[test]
fn request_method_legacy_torrent_add() -> Result<()> {
    assert_eq!(serialize_method_legacy(Method::TorrentAdd)?, "\"torrent-add\"");
    Ok(())
}

#[test]
fn request_method_semver_600_torrent_add() -> Result<()> {
    assert_eq!(serialize_method_semver_600(Method::TorrentAdd)?, "\"torrent_add\"");
    Ok(())
}

#[test]
fn request_method_legacy_torrent_get() -> Result<()> {
    assert_eq!(serialize_method_legacy(Method::TorrentGet)?, "\"torrent-get\"");
    Ok(())
}

#[test]
fn request_method_semver_600_torrent_get() -> Result<()> {
    assert_eq!(serialize_method_semver_600(Method::TorrentGet)?, "\"torrent_get\"");
    Ok(())
}

#[test]
fn request_method_legacy_torrent_reannounce() -> Result<()> {
    assert_eq!(serialize_method_legacy(Method::TorrentReannounce)?, "\"torrent-reannounce\"");
    Ok(())
}

#[test]
fn request_method_semver_600_torrent_reannounce() -> Result<()> {
    assert_eq!(serialize_method_semver_600(Method::TorrentReannounce)?,
        "\"torrent_reannounce\"");
    Ok(())
}

#[test]
fn request_method_legacy_torrent_remove() -> Result<()> {
    assert_eq!(serialize_method_legacy(Method::TorrentRemove)?, "\"torrent-remove\"");
    Ok(())
}

#[test]
fn request_method_semver_600_torrent_remove() -> Result<()> {
    assert_eq!(serialize_method_semver_600(Method::TorrentRemove)?, "\"torrent_remove\"");
    Ok(())
}

#[test]
fn request_method_legacy_torrent_rename_path() -> Result<()> {
    assert_eq!(serialize_method_legacy(Method::TorrentRenamePath)?, "\"torrent-rename-path\"");
    Ok(())
}

#[test]
fn request_method_semver_600_torrent_rename_path() -> Result<()> {
    assert_eq!(serialize_method_semver_600(Method::TorrentRenamePath)?,
        "\"torrent_rename_path\"");
    Ok(())
}

#[test]
fn request_method_legacy_torrent_set() -> Result<()> {
    assert_eq!(serialize_method_legacy(Method::TorrentSet)?, "\"torrent-set\"");
    Ok(())
}

#[test]
fn request_method_semver_600_torrent_set() -> Result<()> {
    assert_eq!(serialize_method_semver_600(Method::TorrentSet)?, "\"torrent_set\"");
    Ok(())
}

#[test]
fn request_method_legacy_torrent_set_location() -> Result<()> {
    assert_eq!(serialize_method_legacy(Method::TorrentSetLocation)?,
        "\"torrent-set-location\"");
    Ok(())
}

#[test]
fn request_method_semver_600_torrent_set_location() -> Result<()> {
    assert_eq!(serialize_method_semver_600(Method::TorrentSetLocation)?,
        "\"torrent_set_location\"");
    Ok(())
}

#[test]
fn request_method_legacy_torrent_start() -> Result<()> {
    assert_eq!(serialize_method_legacy(Method::TorrentStart)?, "\"torrent-start\"");
    Ok(())
}

#[test]
fn request_method_semver_600_torrent_start() -> Result<()> {
    assert_eq!(serialize_method_semver_600(Method::TorrentStart)?, "\"torrent_start\"");
    Ok(())
}

#[test]
fn request_method_legacy_torrent_start_now() -> Result<()> {
    assert_eq!(serialize_method_legacy(Method::TorrentStartNow)?, "\"torrent-start-now\"");
    Ok(())
}

#[test]
fn request_method_semver_600_torrent_start_now() -> Result<()> {
    assert_eq!(serialize_method_semver_600(Method::TorrentStartNow)?, "\"torrent_start_now\"");
    Ok(())
}

#[test]
fn request_method_legacy_torrent_stop() -> Result<()> {
    assert_eq!(serialize_method_legacy(Method::TorrentStop)?, "\"torrent-stop\"");
    Ok(())
}

#[test]
fn request_method_semver_600_torrent_stop() -> Result<()> {
    assert_eq!(serialize_method_semver_600(Method::TorrentStop)?, "\"torrent_stop\"");
    Ok(())
}

#[test]
fn request_method_legacy_torrent_verify() -> Result<()> {
    assert_eq!(serialize_method_legacy(Method::TorrentVerify)?, "\"torrent-verify\"");
    Ok(())
}

#[test]
fn request_method_semver_600_torrent_verify() -> Result<()> {
    assert_eq!(serialize_method_semver_600(Method::TorrentVerify)?, "\"torrent_verify\"");
    Ok(())
}
