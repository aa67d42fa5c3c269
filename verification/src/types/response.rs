//! What the rpc server answers: the response envelope and the arguments of each method.
use vstd::prelude::*;
use vstd::std_specs::convert::FromSpecImpl;
use crate::json::int_text;
use crate::json_rpc::{id_tag, JsonRpcError, JsonRpcId, JsonRpcResponse, JsonRpcResult};
use crate::types::{IpProtocol, Tag};
use vstd::string::StringExecFns;

verus! {

/// The `result` text of a successful response.
pub const SUCCESS: &'static str = "success";

/// The `result` text of a response whose JSON-RPC error is `err`: its message, then its
/// code in brackets.
pub open spec fn error_result_text(err: JsonRpcError) -> Seq<char> {
    err.message@ + " (code: "@ + int_text(err.code as int) + ")"@
}

/// The tag of a response whose JSON-RPC id is `id`.
pub open spec fn response_tag(id: Option<JsonRpcId>) -> Option<Tag> {
    match id {
        Some(i) => Some(id_tag(i)),
        None => None,
    }
}

/// Rpc response data returned by the server.
///
/// Bound by [`Default`] so that a JSON-RPC error can still be answered with arguments, as
/// the older protocol does.
pub trait RpcResponseArgument: Default {}

/// A response of the rpc server.
#[derive(Debug)]
pub struct RpcResponse<T: RpcResponseArgument> {
    /// The arguments of the response, as the method of the request defines them.
    pub arguments: T,
    /// `success` on success, and an error text on failure.
    pub result: String,
    /// The tag of the request that this response answers, if it had one.
    pub tag: Option<Tag>,
}

/// Whether `r` is the response of the older form for the JSON-RPC response `value`: a
/// result becomes the arguments with `success`, an error becomes default arguments with the
/// error's message and code, and the id becomes the tag.
pub open spec fn response_answers<T: RpcResponseArgument>(
    value: JsonRpcResponse<T>,
    r: RpcResponse<T>,
) -> bool {
    &&& r.tag == response_tag(value.id)
    &&& response_body_answers(value, r)
}

/// Whether the arguments and the result of `r` are those of the older form for the JSON-RPC
/// response `value`: a result becomes the arguments with `success`, an error becomes default
/// arguments with the error's message and code.
pub open spec fn response_body_answers<T: RpcResponseArgument>(
    value: JsonRpcResponse<T>,
    r: RpcResponse<T>,
) -> bool {
    match value.result {
        JsonRpcResult::Result(data) => r.arguments == data && r.result@ == SUCCESS@,
        JsonRpcResult::Error(err) => {
            &&& call_ensures(T::default, (), r.arguments)
            &&& r.result@ == error_result_text(err)
        },
    }
}

impl<T: RpcResponseArgument> RpcResponse<T> {
    /// Whether the server reports success.
    pub fn is_ok(&self) -> (b: bool)
        ensures
            b == (self.result@ == SUCCESS@),
    {
        self.result == SUCCESS.to_string()
    }

    /// The response in the older form for a JSON-RPC response: a result becomes the
    /// arguments with `success`, an error becomes default arguments with the error's message
    /// and code, and the id becomes the tag.
    pub fn from_json_rpc(value: JsonRpcResponse<T>) -> (r: RpcResponse<T>)
        ensures
            response_answers(value, r),
    {
        let tag = match &value.id {
            Some(id) => Some(id.to_tag()),
            None => None,
        };
        match value.result {
            JsonRpcResult::Result(data) => RpcResponse {
                arguments: data,
                result: SUCCESS.to_string(),
                tag,
            },
            JsonRpcResult::Error(err) => {
                let mut result = err.message.clone();
                result.append(" (code: ");
                let code = crate::json::i64_json(err.code as i64);
                result.append(code.as_str());
                result.append(")");
                RpcResponse { arguments: T::default(), result, tag }
            },
        }
    }
}

impl<T: RpcResponseArgument> From<JsonRpcResponse<T>> for RpcResponse<T> {
    /// The response in the older form for a JSON-RPC response (see `from_json_rpc`).
    fn from(value: JsonRpcResponse<T>) -> (r: RpcResponse<T>)
        ensures
            response_answers(value, r),
    {
        RpcResponse::from_json_rpc(value)
    }
}

impl<T: RpcResponseArgument> FromSpecImpl<JsonRpcResponse<T>> for RpcResponse<T> {
    /// A JSON-RPC error gives default arguments, which no spec function can name, so the
    /// conversion is described by `response_answers` alone.
    open spec fn obeys_from_spec() -> bool {
        false
    }

    open spec fn from_spec(v: JsonRpcResponse<T>) -> RpcResponse<T> {
        arbitrary()
    }
}

/// The result of a blocklist update: the number of rules in the blocklist.
#[derive(Debug, Clone, Copy, PartialEq, Eq)]
pub struct BlocklistUpdate {
    pub blocklist_size: Option<i32>,
}

impl Default for BlocklistUpdate {
    fn default() -> (r: BlocklistUpdate)
        ensures
            r.blocklist_size is None,
    {
        BlocklistUpdate { blocklist_size: None }
    }
}

impl RpcResponseArgument for BlocklistUpdate {}

/// The result of a free-space query.
#[derive(Debug, Clone, PartialEq)]
pub struct FreeSpace {
    /// The directory that was queried.
    pub path: String,
    /// The free space of the directory, in bytes.
    pub size_bytes: i64,
    /// The total capacity of the directory, in bytes (Transmission 4.0.0 and later).
    pub total_size: Option<i64>,
}

impl Default for FreeSpace {
    fn default() -> (r: FreeSpace)
        ensures
            r.path@ == Seq::<char>::empty(),
            r.size_bytes == 0,
            r.total_size is None,
    {
        FreeSpace { path: String::new(), size_bytes: 0, total_size: None }
    }
}

impl RpcResponseArgument for FreeSpace {}

/// The result of a port test.
#[derive(Debug, Clone, PartialEq, Eq)]
pub struct PortTest {
    /// Whether the peer port is open.
    pub port_is_open: bool,
    /// The IP version the test was made on, where the server says it.
    pub ip_protocol: Option<IpProtocol>,
}

impl Default for PortTest {
    fn default() -> (r: PortTest)
        ensures
            !r.port_is_open,
            r.ip_protocol is None,
    {
        PortTest { port_is_open: false, ip_protocol: None }
    }
}

impl RpcResponseArgument for PortTest {}

/// A torrent, as the server describes it in its answers.
#[derive(Debug, Clone, PartialEq)]
pub struct Torrent {
    pub id: Option<i64>,
    pub hash_string: Option<String>,
    pub name: Option<String>,
}

impl Default for Torrent {
    fn default() -> (r: Torrent)
        ensures
            r.id is None,
            r.hash_string is None,
            r.name is None,
    {
        Torrent { id: None, hash_string: None, name: None }
    }
}

/// The torrents of a torrent-get answer.
#[derive(Debug)]
pub struct Torrents<T> {
    pub torrents: Vec<T>,
}

impl<T> Default for Torrents<T> {
    fn default() -> (r: Torrents<T>)
        ensures
            r.torrents@ == Seq::<T>::empty(),
    {
        Torrents { torrents: Vec::new() }
    }
}

impl RpcResponseArgument for Torrents<Torrent> {}

/// The arguments of an answer that has none.
#[derive(Debug, Clone, Copy, PartialEq, Eq)]
pub struct Nothing {}

impl Default for Nothing {
    fn default() -> (r: Nothing) {
        Nothing {}
    }
}

impl RpcResponseArgument for Nothing {}

/// The key under which a torrent-add answer holds the torrent it added.
pub const TORRENT_ADDED_KEY: &'static str = "torrent-added";

/// The key under which a torrent-add answer holds the torrent it already had.
pub const TORRENT_DUPLICATE_KEY: &'static str = "torrent-duplicate";

/// The answer to a torrent-add request.
#[derive(Debug, Clone)]
pub enum TorrentAddedOrDuplicate {
    /// The torrent was there already.
    TorrentDuplicate(Torrent),
    /// The torrent was added.
    TorrentAdded(Torrent),
    /// The answer holds neither, or both.
    Error,
}

impl TorrentAddedOrDuplicate {
    /// The answer for the torrents found under the added and the duplicate keys: the one
    /// that is there when exactly one is, and `Error` otherwise.
    pub fn from_entries(added: Option<Torrent>, duplicate: Option<Torrent>) -> (r:
        TorrentAddedOrDuplicate)
        ensures
            r == match (added, duplicate) {
                (Some(t), None) => TorrentAddedOrDuplicate::TorrentAdded(t),
                (None, Some(t)) => TorrentAddedOrDuplicate::TorrentDuplicate(t),
                _ => TorrentAddedOrDuplicate::Error,
            },
    {
        match (added, duplicate) {
            (Some(t), None) => TorrentAddedOrDuplicate::TorrentAdded(t),
            (None, Some(t)) => TorrentAddedOrDuplicate::TorrentDuplicate(t),
            _ => TorrentAddedOrDuplicate::Error,
        }
    }
}

impl Default for TorrentAddedOrDuplicate {
    fn default() -> (r: TorrentAddedOrDuplicate)
        ensures
            r is Error,
    {
        TorrentAddedOrDuplicate::Error
    }
}

impl RpcResponseArgument for TorrentAddedOrDuplicate {}

/// The result of a torrent-rename-path request.
#[derive(Debug, Clone, PartialEq)]
pub struct TorrentRenamePath {
    pub path: Option<String>,
    pub name: Option<String>,
    pub id: Option<i64>,
}

impl Default for TorrentRenamePath {
    fn default() -> (r: TorrentRenamePath)
        ensures
            r.path is None,
            r.name is None,
            r.id is None,
    {
        TorrentRenamePath { path: None, name: None, id: None }
    }
}

impl RpcResponseArgument for TorrentRenamePath {}

/// One bandwidth group, as a group-get answer describes it.
#[derive(Debug, Clone, PartialEq, Eq)]
pub struct GroupGet {
    pub honors_session_limits: bool,
    pub name: String,
    pub speed_limit_down_enabled: bool,
    pub speed_limit_down: u64,
    pub speed_limit_up_enabled: bool,
    pub speed_limit_up: u64,
}

impl RpcResponseArgument for Vec<GroupGet> {}

/// A response taken from JSON-RPC reports success exactly when the JSON-RPC answer is a
/// result: an error never reads as success, whatever its message.
pub proof fn lemma_is_ok_iff_result<T: RpcResponseArgument>(
    value: JsonRpcResponse<T>,
    r: RpcResponse<T>,
)
    requires
        response_body_answers(value, r),
    ensures
        (r.result@ == SUCCESS@) <==> (value.result is Result),
{
    reveal_strlit("success");
    reveal_strlit(")");
    if let JsonRpcResult::Error(err) = value.result {
        let t = error_result_text(err);
        assert(t.last() == ')');
        assert(SUCCESS@.last() == 's');
    }
}

} // verus!
