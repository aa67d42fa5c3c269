//! Requests in JSON-RPC and in the older protocol, with and without a tag.
use transmission_rpc::json_rpc::{JsonRpcId, JsonRpcRequest, JSON_RPC_VERSION_2_0};
use transmission_rpc::types::request::{Args, Method, RpcRequest, SessionGetArgs, SessionGetField};
use transmission_rpc::types::Tag;

type Result<T> = std::result::Result<T, Box<dyn std::error::Error>>;

#[test]
fn json_rpc_request_serialize() -> Result<()> {
    let params = Args::SessionGet(SessionGetArgs::from(vec![SessionGetField::Version]));
    let id: Option<JsonRpcId> = Some(912313.into());

    let request = JsonRpcRequest {
        jsonrpc: JSON_RPC_VERSION_2_0,
        method: Method::SessionGet,
        params: Some(&params),
        id: id,
    };

    let ser_request = request.to_json();
    println!("----- request:\n\n{ser_request}\n");

    assert_eq!(ser_request,
        "{\
           \"jsonrpc\":\"2.0\",\
           \"method\":\"session_get\",\
           \"params\":{\
             \"fields\":[\
               \"version\"\
             ]\
           },\
           \"id\":912313\
        }");

    Ok(())
}

#[test]
fn json_rpc_rpc_request_json_rpc_serialize() -> Result<()> {
    let args = SessionGetArgs::from(vec![SessionGetField::Version]);
    let mut request = RpcRequest::session_get(Some(args), None);
    request.jsonrpc = Some(JSON_RPC_VERSION_2_0.to_string());

    let ser_request = request.to_json();
    println!("----- request:\n\n{ser_request}\n");

    assert_eq!(ser_request,
        "{\
           \"jsonrpc\":\"2.0\",\
           \"method\":\"session_get\",\
           \"params\":{\
             \"fields\":[\
               \"version\"\
             ]\
           },\
           \"id\":0\
        }");

    Ok(())
}

#[test]
fn json_rpc_rpc_request_legacy_tagged_serialize() -> Result<()> {
    let args = SessionGetArgs::from(vec![SessionGetField::Version]);
    let request = RpcRequest::session_get(Some(args), Some(Tag(-1234)));

    let ser_request = request.to_json();
    println!("----- request:\n\n{ser_request}\n");

    assert_eq!(ser_request,
        "{\
           \"method\":\"session-get\",\
           \"arguments\":{\
             \"fields\":[\
               \"version\"\
             ]\
           },\
           \"tag\":-1234\
        }");

    Ok(())
}

#[test]
fn json_rpc_rpc_request_legacy_no_tag_serialize() -> Result<()> {
    let args = SessionGetArgs::from(vec![SessionGetField::Version]);
    let request = RpcRequest::session_get(Some(args), None);

    let ser_request = request.to_json();
    println!("----- request:\n\n{ser_request}\n");

    assert_eq!(ser_request,
        "{\
           \"method\":\"session-get\",\
           \"arguments\":{\
             \"fields\":[\
               \"version\"\
             ]\
           }\
        }");

    Ok(())
}

#[test]
fn json_rpc_request_with_tag_uses_tag_as_id() {
    let args = SessionGetArgs::from(vec![SessionGetField::Version]);
    let mut request = RpcRequest::session_get(Some(args), None).with_tag(Tag(77));
    request.jsonrpc = Some(JSON_RPC_VERSION_2_0.to_string());
    assert_eq!(
        request.to_json(),
        "{\"jsonrpc\":\"2.0\",\"method\":\"session_get\",\"params\":{\"fields\":[\"version\"]},\"id\":77}"
    );
}

#[test]
fn json_rpc_request_without_arguments_has_no_params() {
    let mut request = RpcRequest::session_stats(None);
    request.jsonrpc = Some(JSON_RPC_VERSION_2_0.to_string());
    assert_eq!(request.to_json(), "{\"jsonrpc\":\"2.0\",\"method\":\"session_stats\",\"id\":0}");
    request.jsonrpc = None;
    request.set_tag(Tag(5));
    assert_eq!(request.to_json(), "{\"method\":\"session-stats\",\"tag\":5}");
}

#[test]
fn json_rpc_id_and_tag_round_trip() {
    let id = JsonRpcId::from(Tag(-9));
    assert_eq!(id, JsonRpcId::Number(-9));
    assert_eq!(Tag::from(id), Tag(-9));
    assert_eq!(Tag::from(JsonRpcId::String("abc".to_string())), Tag(0));
    assert_eq!(JsonRpcId::default(), JsonRpcId::Number(0));
    assert_eq!(JsonRpcId::from(7i64), JsonRpcId::Number(7));
    assert_eq!(JsonRpcId::from("x".to_string()), JsonRpcId::String("x".to_string()));
    assert_eq!(JsonRpcId::String("a\"b".to_string()).to_json(), "\"a\\\"b\"");
    assert_eq!(JsonRpcId::String("a\"b".to_string()).to_string(), "a\"b");
    assert_eq!(JsonRpcId::Number(-12).to_string(), "-12");
}
