//! JSON-RPC 2.0 requests, responses and ids, as Transmission 4.1.0 and later speak them.
use vstd::prelude::*;
use vstd::std_specs::convert::FromSpecImpl;
use crate::json::{
    i64_json, int_text, member_text, object_text, opt_view, push_opt, string_json, string_text,
    JsonObject,
};
use crate::types::request::{opt_args_json, opt_args_text, Args, Method};
use crate::types::response::RpcResponseArgument;
use crate::types::Tag;

verus! {

/// The JSON-RPC version that requests are sent with.
pub const JSON_RPC_VERSION_2_0: &'static str = "2.0";

/// The id of a JSON-RPC request: a number or a string.
#[derive(Debug, Clone, PartialEq)]
pub enum JsonRpcId {
    Number(i64),
    String(String),
}

/// The JSON value of an id.
pub open spec fn json_rpc_id_text(id: JsonRpcId) -> Seq<char> {
    match id {
        JsonRpcId::Number(n) => int_text(n as int),
        JsonRpcId::String(s) => string_text(s@),
    }
}

/// The tag that a response with the id `id` carries: the id's number, and 0 for a string id.
pub open spec fn id_tag(id: JsonRpcId) -> Tag {
    match id {
        JsonRpcId::Number(n) => Tag(n),
        JsonRpcId::String(_) => Tag(0),
    }
}

impl JsonRpcId {
    /// The id that requests without a tag are sent with: the number 0.
    pub fn default_id() -> (id: JsonRpcId)
        ensures
            id == JsonRpcId::Number(0),
    {
        JsonRpcId::Number(0)
    }

    /// The id for the tag `tag`: its number.
    pub fn from_tag(tag: Tag) -> (id: JsonRpcId)
        ensures
            id == JsonRpcId::Number(tag.0),
    {
        JsonRpcId::Number(tag.0)
    }

    /// The tag for this id: its number, and 0 for a string id.
    pub fn to_tag(&self) -> (t: Tag)
        ensures
            t == id_tag(*self),
    {
        match self {
            JsonRpcId::Number(n) => Tag(*n),
            JsonRpcId::String(_) => Tag(0),
        }
    }

    /// The displayed id: the number, or the string as it is.
    pub fn to_string(&self) -> (s: String)
        ensures
            s@ == match *self {
                JsonRpcId::Number(n) => int_text(n as int),
                JsonRpcId::String(t) => t@,
            },
    {
        match self {
            JsonRpcId::Number(n) => i64_json(*n),
            JsonRpcId::String(t) => t.clone(),
        }
    }

    /// The JSON value of this id.
    pub fn to_json(&self) -> (s: String)
        ensures
            s@ == json_rpc_id_text(*self),
    {
        match self {
            JsonRpcId::Number(n) => i64_json(*n),
            JsonRpcId::String(t) => string_json(t.as_str()),
        }
    }
}

impl Default for JsonRpcId {
    fn default() -> (id: JsonRpcId)
        ensures
            id == JsonRpcId::Number(0),
    {
        JsonRpcId::Number(0)
    }
}

impl From<Tag> for JsonRpcId {
    fn from(value: Tag) -> (id: JsonRpcId)
        ensures
            id == JsonRpcId::Number(value.0),
    {
        JsonRpcId::Number(value.0)
    }
}

impl FromSpecImpl<Tag> for JsonRpcId {
    open spec fn obeys_from_spec() -> bool {
        true
    }

    open spec fn from_spec(v: Tag) -> JsonRpcId {
        JsonRpcId::Number(v.0)
    }
}

impl From<JsonRpcId> for Tag {
    fn from(value: JsonRpcId) -> (t: Tag)
        ensures
            t == id_tag(value),
    {
        value.to_tag()
    }
}

impl FromSpecImpl<JsonRpcId> for Tag {
    open spec fn obeys_from_spec() -> bool {
        true
    }

    open spec fn from_spec(v: JsonRpcId) -> Tag {
        id_tag(v)
    }
}

impl From<i32> for JsonRpcId {
    fn from(value: i32) -> (id: JsonRpcId)
        ensures
            id == JsonRpcId::Number(value as i64),
    {
        JsonRpcId::Number(value as i64)
    }
}

impl FromSpecImpl<i32> for JsonRpcId {
    open spec fn obeys_from_spec() -> bool {
        true
    }

    open spec fn from_spec(v: i32) -> JsonRpcId {
        JsonRpcId::Number(v as i64)
    }
}

impl From<i64> for JsonRpcId {
    fn from(value: i64) -> (id: JsonRpcId)
        ensures
            id == JsonRpcId::Number(value),
    {
        JsonRpcId::Number(value)
    }
}

impl FromSpecImpl<i64> for JsonRpcId {
    open spec fn obeys_from_spec() -> bool {
        true
    }

    open spec fn from_spec(v: i64) -> JsonRpcId {
        JsonRpcId::Number(v)
    }
}

impl From<String> for JsonRpcId {
    fn from(value: String) -> (id: JsonRpcId)
        ensures
            id == JsonRpcId::String(value),
    {
        JsonRpcId::String(value)
    }
}

impl FromSpecImpl<String> for JsonRpcId {
    open spec fn obeys_from_spec() -> bool {
        true
    }

    open spec fn from_spec(v: String) -> JsonRpcId {
        JsonRpcId::String(v)
    }
}

/// The JSON text of an optional id.
pub open spec fn opt_id_text(o: Option<JsonRpcId>) -> Option<Seq<char>> {
    match o {
        Some(id) => Some(json_rpc_id_text(id)),
        None => None,
    }
}

/// A JSON-RPC request: the protocol version, the method by its JSON-RPC name, the
/// parameters with their JSON-RPC keys, and the id.
#[derive(Debug)]
pub struct JsonRpcRequest<'a> {
    pub jsonrpc: &'a str,
    pub method: Method,
    pub params: Option<&'a Args>,
    pub id: Option<JsonRpcId>,
}

impl<'a> JsonRpcRequest<'a> {
    /// The JSON text of a JSON-RPC request: "jsonrpc", "method", then "params" and "id"
    /// when they are present.
    pub open spec fn spec_text(
        jsonrpc: Seq<char>,
        method: Method,
        params: Option<Args>,
        id: Option<JsonRpcId>,
    ) -> Seq<char> {
        let ms = seq![
            member_text("jsonrpc"@, string_text(jsonrpc)),
            member_text("method"@, string_text(method.spec_compat_name())),
        ];
        let ms = push_opt(ms, "params"@, opt_args_text(params, true));
        object_text(push_opt(ms, "id"@, opt_id_text(id)))
    }

    /// The JSON text of this request.
    pub open spec fn spec_json(self) -> Seq<char> {
        Self::spec_text(
            self.jsonrpc@,
            self.method,
            match self.params {
                Some(a) => Some(*a),
                None => None,
            },
            self.id,
        )
    }

    /// The JSON text of this request.
    pub fn to_json(&self) -> (s: String)
        ensures
            s@ == self.spec_json(),
    {
        let mut o = JsonObject::new();
        let v = string_json(self.jsonrpc);
        o.field("jsonrpc", v.as_str());
        let m = string_json(self.method.compat_name());
        o.field("method", m.as_str());
        assert(o.members() =~= seq![
            member_text("jsonrpc"@, string_text(self.jsonrpc@)),
            member_text("method"@, string_text(self.method.spec_compat_name())),
        ]);
        let p = match self.params {
            Some(a) => Some(a.to_json(true)),
            None => None,
        };
        o.opt_field("params", p);
        let i = match &self.id {
            Some(id) => Some(id.to_json()),
            None => None,
        };
        o.opt_field("id", i);
        o.finish()
    }
}

/// A JSON-RPC response: the protocol version, a result or an error, and the id of the
/// request it answers.
#[derive(Debug)]
pub struct JsonRpcResponse<T: RpcResponseArgument> {
    pub jsonrpc: String,
    pub result: JsonRpcResult<T>,
    pub id: Option<JsonRpcId>,
}

/// Either the result of a JSON-RPC call or its error.
#[derive(Debug, Clone, PartialEq)]
pub enum JsonRpcResult<T: RpcResponseArgument> {
    Result(T),
    Error(JsonRpcError),
}

/// The error of a JSON-RPC call: a code that tells its kind, and a short message.
#[derive(Debug, Clone, PartialEq)]
pub struct JsonRpcError {
    pub code: i32,
    pub message: String,
}

/// A tag sent as a JSON-RPC id comes back as the same tag: the id made for a tag is read
/// back as that tag.
pub proof fn lemma_tag_id_round_trip(t: Tag)
    ensures
        id_tag(<JsonRpcId as vstd::std_specs::convert::FromSpec<Tag>>::from_spec(t)) == t,
{
}

/// An id that the server answers as a string is read as the tag 0.
pub proof fn lemma_string_id_is_tag_zero(s: String)
    ensures
        id_tag(JsonRpcId::String(s)) == Tag(0),
{
}

} // verus!
