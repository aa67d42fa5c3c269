//! Requests to the rpc server and the JSON text they are sent as.
use vstd::prelude::*;
use vstd::std_specs::convert::FromSpecImpl;
use vstd::string::StringExecFns;
use crate::json::{
    array_text, int_text, member_text, object_text, opt_i64_json, opt_i64_text, opt_string_json,
    opt_string_text, opt_strings_json, opt_strings_text, opt_view, push_opt, string_json,
    string_text, bool_json, bool_text, join, lemma_join_push, JsonObject, pick, key, has_member,
    lemma_object_holds_member, lemma_occurs_within, lemma_push_keeps, lemma_push_opt_keeps, occurs_at,
    occurs_in, strings_text,
};
use crate::json_rpc::{json_rpc_id_text, JsonRpcId, JsonRpcRequest};
use crate::types::{
    ids_json, ids_text, opt_ids_json, opt_ids_text, opt_ip_protocol_json, opt_ip_protocol_text, Id,
    IpProtocol, Tag,
};

pub use self::group_set::GroupSetArgs;
pub use self::session_get::{SessionGetArgs, SessionGetField};
pub use self::session_set::SessionSetArgs;
pub use self::torrent_add::TorrentAddArgs;
pub use self::torrent_get::{TorrentGetArgs, TorrentGetField};
pub use self::torrent_set::{TorrentSetArgs, TrackerReplaceArgs, TrackerReplacePair};

pub mod group_set;
pub mod session_get;
pub mod session_set;
pub mod torrent_add;
pub mod torrent_get;
pub mod torrent_set;

verus! {

/// An rpc method of the Transmission server.
#[derive(Debug, Copy, Clone, PartialEq, Eq, Hash)]
pub enum Method {
    BlocklistUpdate,
    FreeSpace,
    GroupGet,
    GroupSet,
    PortTest,
    QueueMoveBottom,
    QueueMoveDown,
    QueueMoveTop,
    QueueMoveUp,
    SessionClose,
    SessionGet,
    SessionSet,
    SessionStats,
    TorrentAdd,
    TorrentGet,
    TorrentReannounce,
    TorrentRemove,
    TorrentRenamePath,
    TorrentSet,
    TorrentSetLocation,
    TorrentStart,
    TorrentStartNow,
    TorrentStop,
    TorrentVerify,
}

impl Method {
    /// The name of this value in the older rpc protocol.
    pub open spec fn spec_name(self) -> Seq<char> {
        match self {
            Method::BlocklistUpdate => "blocklist-update"@,
            Method::FreeSpace => "free-space"@,
            Method::GroupGet => "group-get"@,
            Method::GroupSet => "group-set"@,
            Method::PortTest => "port-test"@,
            Method::QueueMoveBottom => "queue-move-bottom"@,
            Method::QueueMoveDown => "queue-move-down"@,
            Method::QueueMoveTop => "queue-move-top"@,
            Method::QueueMoveUp => "queue-move-up"@,
            Method::SessionClose => "session-close"@,
            Method::SessionGet => "session-get"@,
            Method::SessionSet => "session-set"@,
            Method::SessionStats => "session-stats"@,
            Method::TorrentAdd => "torrent-add"@,
            Method::TorrentGet => "torrent-get"@,
            Method::TorrentReannounce => "torrent-reannounce"@,
            Method::TorrentRemove => "torrent-remove"@,
            Method::TorrentRenamePath => "torrent-rename-path"@,
            Method::TorrentSet => "torrent-set"@,
            Method::TorrentSetLocation => "torrent-set-location"@,
            Method::TorrentStart => "torrent-start"@,
            Method::TorrentStartNow => "torrent-start-now"@,
            Method::TorrentStop => "torrent-stop"@,
            Method::TorrentVerify => "torrent-verify"@,
        }
    }

    /// The name of this value in the JSON-RPC protocol.
    pub open spec fn spec_compat_name(self) -> Seq<char> {
        match self {
            Method::BlocklistUpdate => "blocklist_update"@,
            Method::FreeSpace => "free_space"@,
            Method::GroupGet => "group_get"@,
            Method::GroupSet => "group_set"@,
            Method::PortTest => "port_test"@,
            Method::QueueMoveBottom => "queue_move_bottom"@,
            Method::QueueMoveDown => "queue_move_down"@,
            Method::QueueMoveTop => "queue_move_top"@,
            Method::QueueMoveUp => "queue_move_up"@,
            Method::SessionClose => "session_close"@,
            Method::SessionGet => "session_get"@,
            Method::SessionSet => "session_set"@,
            Method::SessionStats => "session_stats"@,
            Method::TorrentAdd => "torrent_add"@,
            Method::TorrentGet => "torrent_get"@,
            Method::TorrentReannounce => "torrent_reannounce"@,
            Method::TorrentRemove => "torrent_remove"@,
            Method::TorrentRenamePath => "torrent_rename_path"@,
            Method::TorrentSet => "torrent_set"@,
            Method::TorrentSetLocation => "torrent_set_location"@,
            Method::TorrentStart => "torrent_start"@,
            Method::TorrentStartNow => "torrent_start_now"@,
            Method::TorrentStop => "torrent_stop"@,
            Method::TorrentVerify => "torrent_verify"@,
        }
    }

    /// The name of this value in the older or the JSON-RPC protocol.
    pub open spec fn spec_key(self, compat: bool) -> Seq<char> {
        if compat {
            self.spec_compat_name()
        } else {
            self.spec_name()
        }
    }

    /// The name of this value in the older rpc protocol.
    pub fn name(&self) -> (s: &'static str)
        ensures
            s@ == self.spec_name(),
    {
        match self {
            Method::BlocklistUpdate => "blocklist-update",
            Method::FreeSpace => "free-space",
            Method::GroupGet => "group-get",
            Method::GroupSet => "group-set",
            Method::PortTest => "port-test",
            Method::QueueMoveBottom => "queue-move-bottom",
            Method::QueueMoveDown => "queue-move-down",
            Method::QueueMoveTop => "queue-move-top",
            Method::QueueMoveUp => "queue-move-up",
            Method::SessionClose => "session-close",
            Method::SessionGet => "session-get",
            Method::SessionSet => "session-set",
            Method::SessionStats => "session-stats",
            Method::TorrentAdd => "torrent-add",
            Method::TorrentGet => "torrent-get",
            Method::TorrentReannounce => "torrent-reannounce",
            Method::TorrentRemove => "torrent-remove",
            Method::TorrentRenamePath => "torrent-rename-path",
            Method::TorrentSet => "torrent-set",
            Method::TorrentSetLocation => "torrent-set-location",
            Method::TorrentStart => "torrent-start",
            Method::TorrentStartNow => "torrent-start-now",
            Method::TorrentStop => "torrent-stop",
            Method::TorrentVerify => "torrent-verify",
        }
    }

    /// The name of this value in the JSON-RPC protocol.
    pub fn compat_name(&self) -> (s: &'static str)
        ensures
            s@ == self.spec_compat_name(),
    {
        match self {
            Method::BlocklistUpdate => "blocklist_update",
            Method::FreeSpace => "free_space",
            Method::GroupGet => "group_get",
            Method::GroupSet => "group_set",
            Method::PortTest => "port_test",
            Method::QueueMoveBottom => "queue_move_bottom",
            Method::QueueMoveDown => "queue_move_down",
            Method::QueueMoveTop => "queue_move_top",
            Method::QueueMoveUp => "queue_move_up",
            Method::SessionClose => "session_close",
            Method::SessionGet => "session_get",
            Method::SessionSet => "session_set",
            Method::SessionStats => "session_stats",
            Method::TorrentAdd => "torrent_add",
            Method::TorrentGet => "torrent_get",
            Method::TorrentReannounce => "torrent_reannounce",
            Method::TorrentRemove => "torrent_remove",
            Method::TorrentRenamePath => "torrent_rename_path",
            Method::TorrentSet => "torrent_set",
            Method::TorrentSetLocation => "torrent_set_location",
            Method::TorrentStart => "torrent_start",
            Method::TorrentStartNow => "torrent_start_now",
            Method::TorrentStop => "torrent_stop",
            Method::TorrentVerify => "torrent_verify",
        }
    }

    /// The name of this value in the older or the JSON-RPC protocol.
    pub fn key(&self, compat: bool) -> (s: &'static str)
        ensures
            s@ == self.spec_key(compat),
    {
        if compat {
            self.compat_name()
        } else {
            self.name()
        }
    }

    /// The displayed method: the JSON string of its name in the older protocol.
    pub fn to_string(&self) -> (s: String)
        ensures
            s@ == string_text(self.spec_name()),
    {
        string_json(self.name())
    }
}

impl From<TorrentAction> for Method {
    fn from(action: TorrentAction) -> (m: Method)
        ensures
            m == action.spec_method(),
    {
        match action {
            TorrentAction::Start => Method::TorrentStart,
            TorrentAction::StartNow => Method::TorrentStartNow,
            TorrentAction::Stop => Method::TorrentStop,
            TorrentAction::Verify => Method::TorrentVerify,
            TorrentAction::Reannounce => Method::TorrentReannounce,
        }
    }
}

impl FromSpecImpl<TorrentAction> for Method {
    open spec fn obeys_from_spec() -> bool {
        true
    }

    open spec fn from_spec(v: TorrentAction) -> Method {
        v.spec_method()
    }
}

/// The kind of a torrent action request.
#[derive(Clone, Copy, Debug, PartialEq, Eq, Hash)]
pub enum TorrentAction {
    Start,
    StartNow,
    Stop,
    Verify,
    Reannounce,
}

impl TorrentAction {
    /// The rpc method that performs this action.
    pub open spec fn spec_method(self) -> Method {
        match self {
            TorrentAction::Start => Method::TorrentStart,
            TorrentAction::StartNow => Method::TorrentStartNow,
            TorrentAction::Stop => Method::TorrentStop,
            TorrentAction::Verify => Method::TorrentVerify,
            TorrentAction::Reannounce => Method::TorrentReannounce,
        }
    }

    /// The displayed name of this action: the older protocol's name of its method, such as
    /// "torrent-start".
    pub open spec fn spec_str(self) -> Seq<char> {
        match self {
            TorrentAction::Start => "torrent-start"@,
            TorrentAction::StartNow => "torrent-start-now"@,
            TorrentAction::Stop => "torrent-stop"@,
            TorrentAction::Verify => "torrent-verify"@,
            TorrentAction::Reannounce => "torrent-reannounce"@,
        }
    }

    /// The displayed name of this action.
    pub fn to_str(&self) -> (s: String)
        ensures
            s@ == self.spec_str(),
    {
        String::from_str(
            match self {
                TorrentAction::Start => "torrent-start",
                TorrentAction::StartNow => "torrent-start-now",
                TorrentAction::Stop => "torrent-stop",
                TorrentAction::Verify => "torrent-verify",
                TorrentAction::Reannounce => "torrent-reannounce",
            },
        )
    }

    /// The displayed name of this action.
    pub fn to_string(&self) -> (s: String)
        ensures
            s@ == self.spec_str(),
    {
        self.to_str()
    }
}

/// A marker for the kinds of fields that a request can ask for.
pub trait ArgumentFields {
}

impl ArgumentFields for TorrentGetField {
}

/// Arguments of a free-space request.
#[derive(Debug, Clone)]
pub struct FreeSpaceArgs {
    pub path: String,
}

impl FreeSpaceArgs {
    /// The members of the JSON object of these arguments.
    pub open spec fn spec_members(self, compat: bool) -> Seq<Seq<char>> {
        seq![member_text("path"@, string_text(self.path@))]
    }

    /// The JSON object of these arguments.
    pub open spec fn spec_json(self, compat: bool) -> Seq<char> {
        object_text(self.spec_members(compat))
    }

    /// The JSON object of these arguments.
    pub fn to_json(&self, compat: bool) -> (s: String)
        ensures
            s@ == self.spec_json(compat),
    {
        let mut o = JsonObject::new();
        let v = string_json(self.path.as_str());
        o.field("path", v.as_str());
        assert(o.members() =~= self.spec_members(compat));
        o.finish()
    }
}

/// Arguments of a group-get request: the names of the bandwidth groups to get, or all
/// groups.
#[derive(Debug, Clone)]
pub struct GroupGetArgs {
    pub groups: Option<Vec<String>>,
}

impl GroupGetArgs {
    /// The members of the JSON object of these arguments.
    pub open spec fn spec_members(self, compat: bool) -> Seq<Seq<char>> {
        push_opt(seq![], "groups"@, opt_strings_text(self.groups))
    }

    /// The JSON object of these arguments.
    pub open spec fn spec_json(self, compat: bool) -> Seq<char> {
        object_text(self.spec_members(compat))
    }

    /// The JSON object of these arguments.
    pub fn to_json(&self, compat: bool) -> (s: String)
        ensures
            s@ == self.spec_json(compat),
    {
        let mut o = JsonObject::new();
        o.opt_field("groups", opt_strings_json(&self.groups));
        o.finish()
    }

    /// The groups of `names`; an empty list asks for every group.
    pub fn from_names(names: Vec<String>) -> (a: GroupGetArgs)
        ensures
            names.len() == 0 ==> a.groups is None,
            names.len() != 0 ==> a.groups == Some(names),
    {
        if names.len() == 0 {
            GroupGetArgs { groups: None }
        } else {
            GroupGetArgs { groups: Some(names) }
        }
    }

    /// The groups of `names`, kept as given.
    pub fn from_option(names: Option<Vec<String>>) -> (a: GroupGetArgs)
        ensures
            a.groups == names,
    {
        GroupGetArgs { groups: names }
    }
}

/// Arguments of a port-test request.
#[derive(Debug, Default, Copy, Clone, PartialEq, Eq, Hash)]
pub struct PortTestArgs {
    /// The IP version to test; the older protocol has no such argument.
    pub ip_protocol: Option<IpProtocol>,
}

impl PortTestArgs {
    /// Port-test arguments without an IP version.
    pub fn new() -> (a: PortTestArgs)
        ensures
            a.ip_protocol is None,
    {
        PortTestArgs { ip_protocol: None }
    }

    /// These arguments with the IP version set to `proto`.
    pub fn ip_protocol(self, proto: IpProtocol) -> (a: PortTestArgs)
        ensures
            a.ip_protocol == Some(proto),
    {
        PortTestArgs { ip_protocol: Some(proto) }
    }

    /// The members of the JSON object of these arguments.
    pub open spec fn spec_members(self, compat: bool) -> Seq<Seq<char>> {
        if compat {
            push_opt(seq![], "ip_protocol"@, opt_ip_protocol_text(self.ip_protocol))
        } else {
            seq![]
        }
    }

    /// The JSON object of these arguments.
    pub open spec fn spec_json(self, compat: bool) -> Seq<char> {
        object_text(self.spec_members(compat))
    }

    /// The JSON object of these arguments.
    pub fn to_json(&self, compat: bool) -> (s: String)
        ensures
            s@ == self.spec_json(compat),
    {
        let mut o = JsonObject::new();
        if compat {
            o.opt_field("ip_protocol", opt_ip_protocol_json(self.ip_protocol));
        }
        o.finish()
    }
}

/// Arguments of the four queue-move requests.
#[derive(Debug, Clone)]
pub struct QueueMoveArgs {
    pub ids: Vec<Id>,
}

/// Arguments of the torrent action requests.
#[derive(Debug, Clone)]
pub struct TorrentActionArgs {
    pub ids: Vec<Id>,
}

impl QueueMoveArgs {
    /// The members of the JSON object of these arguments.
    pub open spec fn spec_members(self, compat: bool) -> Seq<Seq<char>> {
        seq![member_text("ids"@, ids_text(self.ids@))]
    }

    /// The JSON object of these arguments.
    pub open spec fn spec_json(self, compat: bool) -> Seq<char> {
        object_text(self.spec_members(compat))
    }

    /// The JSON object of these arguments.
    pub fn to_json(&self, compat: bool) -> (s: String)
        ensures
            s@ == self.spec_json(compat),
    {
        let mut o = JsonObject::new();
        let v = ids_json(&self.ids);
        o.field("ids", v.as_str());
        assert(o.members() =~= self.spec_members(compat));
        o.finish()
    }
}

impl TorrentActionArgs {
    /// The members of the JSON object of these arguments.
    pub open spec fn spec_members(self, compat: bool) -> Seq<Seq<char>> {
        seq![member_text("ids"@, ids_text(self.ids@))]
    }

    /// The JSON object of these arguments.
    pub open spec fn spec_json(self, compat: bool) -> Seq<char> {
        object_text(self.spec_members(compat))
    }

    /// The JSON object of these arguments.
    pub fn to_json(&self, compat: bool) -> (s: String)
        ensures
            s@ == self.spec_json(compat),
    {
        let mut o = JsonObject::new();
        let v = ids_json(&self.ids);
        o.field("ids", v.as_str());
        assert(o.members() =~= self.spec_members(compat));
        o.finish()
    }
}

/// Arguments of a torrent-remove request.
#[derive(Debug, Clone)]
pub struct TorrentRemoveArgs {
    pub ids: Vec<Id>,
    pub delete_local_data: bool,
}

impl TorrentRemoveArgs {
    /// The members of the JSON object of these arguments.
    pub open spec fn spec_members(self, compat: bool) -> Seq<Seq<char>> {
        seq![
            member_text("ids"@, ids_text(self.ids@)),
            member_text(key(compat, "delete-local-data", "delete_local_data"), bool_text(self.delete_local_data)),
        ]
    }

    /// The JSON object of these arguments.
    pub open spec fn spec_json(self, compat: bool) -> Seq<char> {
        object_text(self.spec_members(compat))
    }

    /// The JSON object of these arguments.
    pub fn to_json(&self, compat: bool) -> (s: String)
        ensures
            s@ == self.spec_json(compat),
    {
        let mut o = JsonObject::new();
        let v = ids_json(&self.ids);
        o.field("ids", v.as_str());
        let v = bool_json(self.delete_local_data);
        o.field(pick(compat, "delete-local-data", "delete_local_data"), v.as_str());
        assert(o.members() =~= self.spec_members(compat));
        o.finish()
    }
}

/// Arguments of a torrent-set-location request.
#[derive(Debug, Clone)]
pub struct TorrentSetLocationArgs {
    pub ids: Vec<Id>,
    pub location: String,
    /// Whether the content is moved to the new location, rather than searched for there.
    pub move_from: bool,
}

impl TorrentSetLocationArgs {
    /// The members of the JSON object of these arguments.
    pub open spec fn spec_members(self, compat: bool) -> Seq<Seq<char>> {
        seq![
            member_text("ids"@, ids_text(self.ids@)),
            member_text("location"@, string_text(self.location@)),
            member_text("move"@, bool_text(self.move_from)),
        ]
    }

    /// The JSON object of these arguments.
    pub open spec fn spec_json(self, compat: bool) -> Seq<char> {
        object_text(self.spec_members(compat))
    }

    /// The JSON object of these arguments.
    pub fn to_json(&self, compat: bool) -> (s: String)
        ensures
            s@ == self.spec_json(compat),
    {
        let mut o = JsonObject::new();
        let v = ids_json(&self.ids);
        o.field("ids", v.as_str());
        let v = string_json(self.location.as_str());
        o.field("location", v.as_str());
        let v = bool_json(self.move_from);
        o.field("move", v.as_str());
        assert(o.members() =~= self.spec_members(compat));
        o.finish()
    }
}

/// Arguments of a torrent-rename-path request.
#[derive(Debug, Clone)]
pub struct TorrentRenamePathArgs {
    pub ids: Vec<Id>,
    pub path: String,
    pub name: String,
}

impl TorrentRenamePathArgs {
    /// The members of the JSON object of these arguments.
    pub open spec fn spec_members(self, compat: bool) -> Seq<Seq<char>> {
        seq![
            member_text("ids"@, ids_text(self.ids@)),
            member_text("path"@, string_text(self.path@)),
            member_text("name"@, string_text(self.name@)),
        ]
    }

    /// The JSON object of these arguments.
    pub open spec fn spec_json(self, compat: bool) -> Seq<char> {
        object_text(self.spec_members(compat))
    }

    /// The JSON object of these arguments.
    pub fn to_json(&self, compat: bool) -> (s: String)
        ensures
            s@ == self.spec_json(compat),
    {
        let mut o = JsonObject::new();
        let v = ids_json(&self.ids);
        o.field("ids", v.as_str());
        let v = string_json(self.path.as_str());
        o.field("path", v.as_str());
        let v = string_json(self.name.as_str());
        o.field("name", v.as_str());
        assert(o.members() =~= self.spec_members(compat));
        o.finish()
    }
}

/// The arguments of a request, by method.
#[derive(Debug, Clone)]
pub enum Args {
    FreeSpace(FreeSpaceArgs),
    GroupGet(GroupGetArgs),
    GroupSet(GroupSetArgs),
    PortTest(PortTestArgs),
    SessionGet(SessionGetArgs),
    SessionSet(SessionSetArgs),
    QueueMove(QueueMoveArgs),
    TorrentGet(TorrentGetArgs),
    TorrentAction(TorrentActionArgs),
    TorrentRemove(TorrentRemoveArgs),
    TorrentAdd(TorrentAddArgs),
    TorrentSet(TorrentSetArgs),
    TorrentSetLocation(TorrentSetLocationArgs),
    TorrentRenamePath(TorrentRenamePathArgs),
}

impl Args {
    /// The JSON object of these arguments, with the keys of the older protocol or of
    /// JSON-RPC.
    pub open spec fn spec_json(self, compat: bool) -> Seq<char> {
        match self {
            Args::FreeSpace(a) => a.spec_json(compat),
            Args::GroupGet(a) => a.spec_json(compat),
            Args::GroupSet(a) => a.spec_json(compat),
            Args::PortTest(a) => a.spec_json(compat),
            Args::SessionGet(a) => a.spec_json(compat),
            Args::SessionSet(a) => a.spec_json(compat),
            Args::QueueMove(a) => a.spec_json(compat),
            Args::TorrentGet(a) => a.spec_json(compat),
            Args::TorrentAction(a) => a.spec_json(compat),
            Args::TorrentRemove(a) => a.spec_json(compat),
            Args::TorrentAdd(a) => a.spec_json(compat),
            Args::TorrentSet(a) => a.spec_json(compat),
            Args::TorrentSetLocation(a) => a.spec_json(compat),
            Args::TorrentRenamePath(a) => a.spec_json(compat),
        }
    }

    /// The JSON object of these arguments.
    pub fn to_json(&self, compat: bool) -> (s: String)
        ensures
            s@ == self.spec_json(compat),
    {
        match self {
            Args::FreeSpace(a) => a.to_json(compat),
            Args::GroupGet(a) => a.to_json(compat),
            Args::GroupSet(a) => a.to_json(compat),
            Args::PortTest(a) => a.to_json(compat),
            Args::SessionGet(a) => a.to_json(compat),
            Args::SessionSet(a) => a.to_json(compat),
            Args::QueueMove(a) => a.to_json(compat),
            Args::TorrentGet(a) => a.to_json(compat),
            Args::TorrentAction(a) => a.to_json(compat),
            Args::TorrentRemove(a) => a.to_json(compat),
            Args::TorrentAdd(a) => a.to_json(compat),
            Args::TorrentSet(a) => a.to_json(compat),
            Args::TorrentSetLocation(a) => a.to_json(compat),
            Args::TorrentRenamePath(a) => a.to_json(compat),
        }
    }

    /// The method that these arguments belong to, where there is one; queue moves and
    /// torrent actions have several.
    pub open spec fn spec_method(self) -> Option<Method> {
        match self {
            Args::FreeSpace(_) => Some(Method::FreeSpace),
            Args::GroupGet(_) => Some(Method::GroupGet),
            Args::GroupSet(_) => Some(Method::GroupSet),
            Args::PortTest(_) => Some(Method::PortTest),
            Args::SessionGet(_) => Some(Method::SessionGet),
            Args::SessionSet(_) => Some(Method::SessionSet),
            Args::QueueMove(_) => None,
            Args::TorrentGet(_) => Some(Method::TorrentGet),
            Args::TorrentAction(_) => None,
            Args::TorrentRemove(_) => Some(Method::TorrentRemove),
            Args::TorrentAdd(_) => Some(Method::TorrentAdd),
            Args::TorrentSet(_) => Some(Method::TorrentSet),
            Args::TorrentSetLocation(_) => Some(Method::TorrentSetLocation),
            Args::TorrentRenamePath(_) => Some(Method::TorrentRenamePath),
        }
    }

    /// The method that these arguments belong to, where there is one.
    pub fn method(&self) -> (m: Option<Method>)
        ensures
            m == self.spec_method(),
    {
        match self {
            Args::FreeSpace(_) => Some(Method::FreeSpace),
            Args::GroupGet(_) => Some(Method::GroupGet),
            Args::GroupSet(_) => Some(Method::GroupSet),
            Args::PortTest(_) => Some(Method::PortTest),
            Args::SessionGet(_) => Some(Method::SessionGet),
            Args::SessionSet(_) => Some(Method::SessionSet),
            Args::QueueMove(_) => None,
            Args::TorrentGet(_) => Some(Method::TorrentGet),
            Args::TorrentAction(_) => None,
            Args::TorrentRemove(_) => Some(Method::TorrentRemove),
            Args::TorrentAdd(_) => Some(Method::TorrentAdd),
            Args::TorrentSet(_) => Some(Method::TorrentSet),
            Args::TorrentSetLocation(_) => Some(Method::TorrentSetLocation),
            Args::TorrentRenamePath(_) => Some(Method::TorrentRenamePath),
        }
    }
}

/// The JSON text of optional arguments.
pub open spec fn opt_args_text(o: Option<Args>, compat: bool) -> Option<Seq<char>> {
    match o {
        Some(a) => Some(a.spec_json(compat)),
        None => None,
    }
}

/// The JSON text of optional arguments.
pub fn opt_args_json(o: &Option<Args>, compat: bool) -> (r: Option<String>)
    ensures
        opt_view(r) == opt_args_text(*o, compat),
{
    match o {
        Some(a) => Some(a.to_json(compat)),
        None => None,
    }
}

/// A request to the rpc server.
#[derive(Debug)]
pub struct RpcRequest {
    pub method: Method,
    pub arguments: Option<Args>,
    /// A number that the server repeats in its response. It also serves as the JSON-RPC id,
    /// which is 0 when there is no tag.
    pub tag: Option<Tag>,
    /// The JSON-RPC version to send the request with, or none for the older protocol.
    pub jsonrpc: Option<String>,
}

/// The JSON-RPC id of a request with the tag `tag`: the tag's number, or 0.
pub open spec fn request_id(tag: Option<Tag>) -> JsonRpcId {
    match tag {
        Some(t) => JsonRpcId::Number(t.0),
        None => JsonRpcId::Number(0),
    }
}

impl RpcRequest {
    /// The members of the request in the older protocol: the method, the arguments if any,
    /// the tag if any.
    pub open spec fn spec_legacy_members(self) -> Seq<Seq<char>> {
        let ms = seq![member_text("method"@, string_text(self.method.spec_name()))];
        let ms = push_opt(ms, "arguments"@, opt_args_text(self.arguments, false));
        push_opt(
            ms,
            "tag"@,
            match self.tag {
                Some(t) => Some(int_text(t.0 as int)),
                None => None,
            },
        )
    }

    /// The JSON text this request is sent as: a JSON-RPC request when `jsonrpc` is set,
    /// and an object of the older protocol otherwise.
    pub open spec fn spec_json(self) -> Seq<char> {
        match self.jsonrpc {
            Some(v) => JsonRpcRequest::spec_text(
                v@,
                self.method,
                self.arguments,
                Some(request_id(self.tag)),
            ),
            None => object_text(self.spec_legacy_members()),
        }
    }

    /// The JSON text this request is sent as.
    pub fn to_json(&self) -> (s: String)
        ensures
            s@ == self.spec_json(),
    {
        match &self.jsonrpc {
            Some(v) => {
                let id = match self.tag {
                    Some(t) => JsonRpcId::from_tag(t),
                    None => JsonRpcId::default_id(),
                };
                let request = JsonRpcRequest {
                    jsonrpc: v.as_str(),
                    method: self.method,
                    params: self.arguments.as_ref(),
                    id: Some(id),
                };
                request.to_json()
            },
            None => {
                let mut o = JsonObject::new();
                let m = string_json(self.method.name());
                o.field("method", m.as_str());
                o.opt_field("arguments", opt_args_json(&self.arguments, false));
                let t = match self.tag {
                    Some(t) => Some(t.0),
                    None => None,
                };
                o.opt_field("tag", opt_i64_json(t));
                o.finish()
            },
        }
    }

    /// This request with its tag set to `tag`.
    pub fn with_tag(self, tag: Tag) -> (r: RpcRequest)
        ensures
            r == (RpcRequest { tag: Some(tag), ..self }),
    {
        RpcRequest { tag: Some(tag), ..self }
    }

    /// Sets the tag of this request to `tag`.
    pub fn set_tag(&mut self, tag: Tag)
        ensures
            *final(self) == (RpcRequest { tag: Some(tag), ..*old(self) }),
    {
        self.tag = Some(tag);
    }

    /// A request of `method` with `arguments` and `tag`, for the older protocol.
    pub open spec fn spec_new(method: Method, arguments: Option<Args>, tag: Option<Tag>) -> RpcRequest {
        RpcRequest { method, arguments, tag, jsonrpc: None }
    }

    /// A session-set request.
    pub fn session_set(args: SessionSetArgs, tag: Option<Tag>) -> (r: RpcRequest)
        ensures
            r == Self::spec_new(Method::SessionSet, Some(Args::SessionSet(args)), tag),
    {
        RpcRequest { method: Method::SessionSet, arguments: Some(Args::SessionSet(args)), tag, jsonrpc: None }
    }

    /// A session-get request, for the given fields or for every field.
    pub fn session_get(args: Option<SessionGetArgs>, tag: Option<Tag>) -> (r: RpcRequest)
        ensures
            r == Self::spec_new(
                Method::SessionGet,
                match args {
                    Some(a) => Some(Args::SessionGet(a)),
                    None => None,
                },
                tag,
            ),
    {
        let arguments = match args {
            Some(a) => Some(Args::SessionGet(a)),
            None => None,
        };
        RpcRequest { method: Method::SessionGet, arguments, tag, jsonrpc: None }
    }

    /// A session-stats request.
    pub fn session_stats(tag: Option<Tag>) -> (r: RpcRequest)
        ensures
            r == Self::spec_new(Method::SessionStats, None, tag),
    {
        RpcRequest { method: Method::SessionStats, arguments: None, tag, jsonrpc: None }
    }

    /// A session-close request.
    pub fn session_close(tag: Option<Tag>) -> (r: RpcRequest)
        ensures
            r == Self::spec_new(Method::SessionClose, None, tag),
    {
        RpcRequest { method: Method::SessionClose, arguments: None, tag, jsonrpc: None }
    }

    /// A blocklist-update request.
    pub fn blocklist_update(tag: Option<Tag>) -> (r: RpcRequest)
        ensures
            r == Self::spec_new(Method::BlocklistUpdate, None, tag),
    {
        RpcRequest { method: Method::BlocklistUpdate, arguments: None, tag, jsonrpc: None }
    }

    /// A free-space request for the directory `path`.
    pub fn free_space(path: String, tag: Option<Tag>) -> (r: RpcRequest)
        ensures
            r == Self::spec_new(Method::FreeSpace, Some(Args::FreeSpace(FreeSpaceArgs { path })), tag),
    {
        RpcRequest {
            method: Method::FreeSpace,
            arguments: Some(Args::FreeSpace(FreeSpaceArgs { path })),
            tag,
            jsonrpc: None,
        }
    }

    /// A port-test request.
    pub fn port_test(args: PortTestArgs, tag: Option<Tag>) -> (r: RpcRequest)
        ensures
            r == Self::spec_new(Method::PortTest, Some(Args::PortTest(args)), tag),
    {
        RpcRequest { method: Method::PortTest, arguments: Some(Args::PortTest(args)), tag, jsonrpc: None }
    }

    /// A request that moves the torrents `ids` to the top of the queue.
    pub fn queue_move_top(ids: Vec<Id>, tag: Option<Tag>) -> (r: RpcRequest)
        ensures
            r == Self::spec_new(Method::QueueMoveTop, Some(Args::QueueMove(QueueMoveArgs { ids })), tag),
    {
        RpcRequest {
            method: Method::QueueMoveTop,
            arguments: Some(Args::QueueMove(QueueMoveArgs { ids })),
            tag,
            jsonrpc: None,
        }
    }

    /// A request that moves the torrents `ids` up the queue.
    pub fn queue_move_up(ids: Vec<Id>, tag: Option<Tag>) -> (r: RpcRequest)
        ensures
            r == Self::spec_new(Method::QueueMoveUp, Some(Args::QueueMove(QueueMoveArgs { ids })), tag),
    {
        RpcRequest {
            method: Method::QueueMoveUp,
            arguments: Some(Args::QueueMove(QueueMoveArgs { ids })),
            tag,
            jsonrpc: None,
        }
    }

    /// A request that moves the torrents `ids` down the queue.
    pub fn queue_move_down(ids: Vec<Id>, tag: Option<Tag>) -> (r: RpcRequest)
        ensures
            r == Self::spec_new(Method::QueueMoveDown, Some(Args::QueueMove(QueueMoveArgs { ids })), tag),
    {
        RpcRequest {
            method: Method::QueueMoveDown,
            arguments: Some(Args::QueueMove(QueueMoveArgs { ids })),
            tag,
            jsonrpc: None,
        }
    }

    /// A request that moves the torrents `ids` to the bottom of the queue.
    pub fn queue_move_bottom(ids: Vec<Id>, tag: Option<Tag>) -> (r: RpcRequest)
        ensures
            r == Self::spec_new(Method::QueueMoveBottom, Some(Args::QueueMove(QueueMoveArgs { ids })), tag),
    {
        RpcRequest {
            method: Method::QueueMoveBottom,
            arguments: Some(Args::QueueMove(QueueMoveArgs { ids })),
            tag,
            jsonrpc: None,
        }
    }

    /// A torrent-get request for `fields` (every field when none are given) of the torrents
    /// `ids` (every torrent when none are given).
    pub fn torrent_get(
        fields: Option<Vec<TorrentGetField>>,
        ids: Option<Vec<Id>>,
        tag: Option<Tag>,
    ) -> (r: RpcRequest)
        ensures
            r.method == Method::TorrentGet,
            r.tag == tag,
            r.jsonrpc is None,
            (match r.arguments {
                Some(Args::TorrentGet(a)) => {
                    &&& a.ids == ids
                    &&& a.fields is Some
                    &&& a.fields->0@ == match fields {
                        Some(g) => g@,
                        None => TorrentGetField::spec_all(),
                    }
                },
                _ => false,
            }),
    {
        let fields = match fields {
            Some(f) => f,
            None => TorrentGetField::all(),
        };
        RpcRequest {
            method: Method::TorrentGet,
            arguments: Some(Args::TorrentGet(TorrentGetArgs { fields: Some(fields), ids })),
            tag,
            jsonrpc: None,
        }
    }

    /// A torrent-set request that applies `args` to the torrents `ids` (every torrent when
    /// none are given); the ids replace those of `args`.
    pub fn torrent_set(args: TorrentSetArgs, ids: Option<Vec<Id>>, tag: Option<Tag>) -> (r: RpcRequest)
        ensures
            r == Self::spec_new(
                Method::TorrentSet,
                Some(Args::TorrentSet(TorrentSetArgs { ids, ..args })),
                tag,
            ),
    {
        RpcRequest {
            method: Method::TorrentSet,
            arguments: Some(Args::TorrentSet(TorrentSetArgs { ids, ..args })),
            tag,
            jsonrpc: None,
        }
    }

    /// A torrent-remove request, which deletes the downloaded data too when
    /// `delete_local_data` is set.
    pub fn torrent_remove(ids: Vec<Id>, delete_local_data: bool, tag: Option<Tag>) -> (r: RpcRequest)
        ensures
            r == Self::spec_new(
                Method::TorrentRemove,
                Some(Args::TorrentRemove(TorrentRemoveArgs { ids, delete_local_data })),
                tag,
            ),
    {
        RpcRequest {
            method: Method::TorrentRemove,
            arguments: Some(Args::TorrentRemove(TorrentRemoveArgs { ids, delete_local_data })),
            tag,
            jsonrpc: None,
        }
    }

    /// A torrent-add request.
    pub fn torrent_add(add: TorrentAddArgs, tag: Option<Tag>) -> (r: RpcRequest)
        ensures
            r == Self::spec_new(Method::TorrentAdd, Some(Args::TorrentAdd(add)), tag),
    {
        RpcRequest { method: Method::TorrentAdd, arguments: Some(Args::TorrentAdd(add)), tag, jsonrpc: None }
    }

    /// A request that performs `action` on the torrents `ids`.
    pub fn torrent_action(action: TorrentAction, ids: Vec<Id>, tag: Option<Tag>) -> (r: RpcRequest)
        ensures
            r == Self::spec_new(
                action.spec_method(),
                Some(Args::TorrentAction(TorrentActionArgs { ids })),
                tag,
            ),
    {
        RpcRequest {
            method: Method::from(action),
            arguments: Some(Args::TorrentAction(TorrentActionArgs { ids })),
            tag,
            jsonrpc: None,
        }
    }

    /// A request that sets the location of the torrents `ids`, moving their content there
    /// when `move_from` is set.
    pub fn torrent_set_location(
        ids: Vec<Id>,
        location: String,
        move_from: bool,
        tag: Option<Tag>,
    ) -> (r: RpcRequest)
        ensures
            r == Self::spec_new(
                Method::TorrentSetLocation,
                Some(Args::TorrentSetLocation(TorrentSetLocationArgs { ids, location, move_from })),
                tag,
            ),
    {
        RpcRequest {
            method: Method::TorrentSetLocation,
            arguments: Some(
                Args::TorrentSetLocation(TorrentSetLocationArgs { ids, location, move_from }),
            ),
            tag,
            jsonrpc: None,
        }
    }

    /// A request that renames `path` of the torrents `ids` to `name`.
    pub fn torrent_rename_path(ids: Vec<Id>, path: String, name: String, tag: Option<Tag>) -> (r: RpcRequest)
        ensures
            r == Self::spec_new(
                Method::TorrentRenamePath,
                Some(Args::TorrentRenamePath(TorrentRenamePathArgs { ids, path, name })),
                tag,
            ),
    {
        RpcRequest {
            method: Method::TorrentRenamePath,
            arguments: Some(Args::TorrentRenamePath(TorrentRenamePathArgs { ids, path, name })),
            tag,
            jsonrpc: None,
        }
    }

    /// A group-get request for the groups `groups`, or for every group.
    pub fn group_get(groups: Option<Vec<String>>, tag: Option<Tag>) -> (r: RpcRequest)
        ensures
            r == Self::spec_new(Method::GroupGet, Some(Args::GroupGet(GroupGetArgs { groups })), tag),
    {
        RpcRequest {
            method: Method::GroupGet,
            arguments: Some(Args::GroupGet(GroupGetArgs::from_option(groups))),
            tag,
            jsonrpc: None,
        }
    }

    /// A group-set request.
    pub fn group_set(args: GroupSetArgs, tag: Option<Tag>) -> (r: RpcRequest)
        ensures
            r == Self::spec_new(Method::GroupSet, Some(Args::GroupSet(args)), tag),
    {
        RpcRequest { method: Method::GroupSet, arguments: Some(Args::GroupSet(args)), tag, jsonrpc: None }
    }
}

impl From<FreeSpaceArgs> for RpcRequest {
    /// The request of the method that `args` belong to, without a tag.
    fn from(args: FreeSpaceArgs) -> (r: RpcRequest)
        ensures
            r == RpcRequest::spec_new(Method::FreeSpace, Some(Args::FreeSpace(args)), None),
    {
        RpcRequest { method: Method::FreeSpace, arguments: Some(Args::FreeSpace(args)), tag: None, jsonrpc: None }
    }
}

impl FromSpecImpl<FreeSpaceArgs> for RpcRequest {
    open spec fn obeys_from_spec() -> bool {
        true
    }

    open spec fn from_spec(v: FreeSpaceArgs) -> RpcRequest {
        RpcRequest::spec_new(Method::FreeSpace, Some(Args::FreeSpace(v)), None)
    }
}

impl From<GroupGetArgs> for RpcRequest {
    /// The request of the method that `args` belong to, without a tag.
    fn from(args: GroupGetArgs) -> (r: RpcRequest)
        ensures
            r == RpcRequest::spec_new(Method::GroupGet, Some(Args::GroupGet(args)), None),
    {
        RpcRequest { method: Method::GroupGet, arguments: Some(Args::GroupGet(args)), tag: None, jsonrpc: None }
    }
}

impl FromSpecImpl<GroupGetArgs> for RpcRequest {
    open spec fn obeys_from_spec() -> bool {
        true
    }

    open spec fn from_spec(v: GroupGetArgs) -> RpcRequest {
        RpcRequest::spec_new(Method::GroupGet, Some(Args::GroupGet(v)), None)
    }
}

impl From<GroupSetArgs> for RpcRequest {
    /// The request of the method that `args` belong to, without a tag.
    fn from(args: GroupSetArgs) -> (r: RpcRequest)
        ensures
            r == RpcRequest::spec_new(Method::GroupSet, Some(Args::GroupSet(args)), None),
    {
        RpcRequest { method: Method::GroupSet, arguments: Some(Args::GroupSet(args)), tag: None, jsonrpc: None }
    }
}

impl FromSpecImpl<GroupSetArgs> for RpcRequest {
    open spec fn obeys_from_spec() -> bool {
        true
    }

    open spec fn from_spec(v: GroupSetArgs) -> RpcRequest {
        RpcRequest::spec_new(Method::GroupSet, Some(Args::GroupSet(v)), None)
    }
}

impl From<PortTestArgs> for RpcRequest {
    /// The request of the method that `args` belong to, without a tag.
    fn from(args: PortTestArgs) -> (r: RpcRequest)
        ensures
            r == RpcRequest::spec_new(Method::PortTest, Some(Args::PortTest(args)), None),
    {
        RpcRequest { method: Method::PortTest, arguments: Some(Args::PortTest(args)), tag: None, jsonrpc: None }
    }
}

impl FromSpecImpl<PortTestArgs> for RpcRequest {
    open spec fn obeys_from_spec() -> bool {
        true
    }

    open spec fn from_spec(v: PortTestArgs) -> RpcRequest {
        RpcRequest::spec_new(Method::PortTest, Some(Args::PortTest(v)), None)
    }
}

impl From<SessionGetArgs> for RpcRequest {
    /// The request of the method that `args` belong to, without a tag.
    fn from(args: SessionGetArgs) -> (r: RpcRequest)
        ensures
            r == RpcRequest::spec_new(Method::SessionGet, Some(Args::SessionGet(args)), None),
    {
        RpcRequest { method: Method::SessionGet, arguments: Some(Args::SessionGet(args)), tag: None, jsonrpc: None }
    }
}

impl FromSpecImpl<SessionGetArgs> for RpcRequest {
    open spec fn obeys_from_spec() -> bool {
        true
    }

    open spec fn from_spec(v: SessionGetArgs) -> RpcRequest {
        RpcRequest::spec_new(Method::SessionGet, Some(Args::SessionGet(v)), None)
    }
}

impl From<Vec<SessionGetField>> for RpcRequest {
    /// A session-get request for `fields`, without a tag.
    fn from(fields: Vec<SessionGetField>) -> (r: RpcRequest)
        ensures
            r == RpcRequest::spec_new(
                Method::SessionGet,
                Some(Args::SessionGet(SessionGetArgs { fields })),
                None,
            ),
    {
        RpcRequest {
            method: Method::SessionGet,
            arguments: Some(Args::SessionGet(SessionGetArgs { fields })),
            tag: None,
            jsonrpc: None,
        }
    }
}

impl FromSpecImpl<Vec<SessionGetField>> for RpcRequest {
    open spec fn obeys_from_spec() -> bool {
        true
    }

    open spec fn from_spec(v: Vec<SessionGetField>) -> RpcRequest {
        RpcRequest::spec_new(Method::SessionGet, Some(Args::SessionGet(SessionGetArgs { fields: v })), None)
    }
}

impl From<SessionSetArgs> for RpcRequest {
    /// The request of the method that `args` belong to, without a tag.
    fn from(args: SessionSetArgs) -> (r: RpcRequest)
        ensures
            r == RpcRequest::spec_new(Method::SessionSet, Some(Args::SessionSet(args)), None),
    {
        RpcRequest { method: Method::SessionSet, arguments: Some(Args::SessionSet(args)), tag: None, jsonrpc: None }
    }
}

impl FromSpecImpl<SessionSetArgs> for RpcRequest {
    open spec fn obeys_from_spec() -> bool {
        true
    }

    open spec fn from_spec(v: SessionSetArgs) -> RpcRequest {
        RpcRequest::spec_new(Method::SessionSet, Some(Args::SessionSet(v)), None)
    }
}

impl From<TorrentGetArgs> for RpcRequest {
    /// The request of the method that `args` belong to, without a tag.
    fn from(args: TorrentGetArgs) -> (r: RpcRequest)
        ensures
            r == RpcRequest::spec_new(Method::TorrentGet, Some(Args::TorrentGet(args)), None),
    {
        RpcRequest { method: Method::TorrentGet, arguments: Some(Args::TorrentGet(args)), tag: None, jsonrpc: None }
    }
}

impl FromSpecImpl<TorrentGetArgs> for RpcRequest {
    open spec fn obeys_from_spec() -> bool {
        true
    }

    open spec fn from_spec(v: TorrentGetArgs) -> RpcRequest {
        RpcRequest::spec_new(Method::TorrentGet, Some(Args::TorrentGet(v)), None)
    }
}

impl From<TorrentRemoveArgs> for RpcRequest {
    /// The request of the method that `args` belong to, without a tag.
    fn from(args: TorrentRemoveArgs) -> (r: RpcRequest)
        ensures
            r == RpcRequest::spec_new(Method::TorrentRemove, Some(Args::TorrentRemove(args)), None),
    {
        RpcRequest { method: Method::TorrentRemove, arguments: Some(Args::TorrentRemove(args)), tag: None, jsonrpc: None }
    }
}

impl FromSpecImpl<TorrentRemoveArgs> for RpcRequest {
    open spec fn obeys_from_spec() -> bool {
        true
    }

    open spec fn from_spec(v: TorrentRemoveArgs) -> RpcRequest {
        RpcRequest::spec_new(Method::TorrentRemove, Some(Args::TorrentRemove(v)), None)
    }
}

impl From<TorrentAddArgs> for RpcRequest {
    /// The request of the method that `args` belong to, without a tag.
    fn from(args: TorrentAddArgs) -> (r: RpcRequest)
        ensures
            r == RpcRequest::spec_new(Method::TorrentAdd, Some(Args::TorrentAdd(args)), None),
    {
        RpcRequest { method: Method::TorrentAdd, arguments: Some(Args::TorrentAdd(args)), tag: None, jsonrpc: None }
    }
}

impl FromSpecImpl<TorrentAddArgs> for RpcRequest {
    open spec fn obeys_from_spec() -> bool {
        true
    }

    open spec fn from_spec(v: TorrentAddArgs) -> RpcRequest {
        RpcRequest::spec_new(Method::TorrentAdd, Some(Args::TorrentAdd(v)), None)
    }
}

impl From<TorrentSetArgs> for RpcRequest {
    /// The request of the method that `args` belong to, without a tag.
    fn from(args: TorrentSetArgs) -> (r: RpcRequest)
        ensures
            r == RpcRequest::spec_new(Method::TorrentSet, Some(Args::TorrentSet(args)), None),
    {
        RpcRequest { method: Method::TorrentSet, arguments: Some(Args::TorrentSet(args)), tag: None, jsonrpc: None }
    }
}

impl FromSpecImpl<TorrentSetArgs> for RpcRequest {
    open spec fn obeys_from_spec() -> bool {
        true
    }

    open spec fn from_spec(v: TorrentSetArgs) -> RpcRequest {
        RpcRequest::spec_new(Method::TorrentSet, Some(Args::TorrentSet(v)), None)
    }
}

impl From<TorrentSetLocationArgs> for RpcRequest {
    /// The request of the method that `args` belong to, without a tag.
    fn from(args: TorrentSetLocationArgs) -> (r: RpcRequest)
        ensures
            r == RpcRequest::spec_new(Method::TorrentSetLocation, Some(Args::TorrentSetLocation(args)), None),
    {
        RpcRequest { method: Method::TorrentSetLocation, arguments: Some(Args::TorrentSetLocation(args)), tag: None, jsonrpc: None }
    }
}

impl FromSpecImpl<TorrentSetLocationArgs> for RpcRequest {
    open spec fn obeys_from_spec() -> bool {
        true
    }

    open spec fn from_spec(v: TorrentSetLocationArgs) -> RpcRequest {
        RpcRequest::spec_new(Method::TorrentSetLocation, Some(Args::TorrentSetLocation(v)), None)
    }
}

impl From<TorrentRenamePathArgs> for RpcRequest {
    /// The request of the method that `args` belong to, without a tag.
    fn from(args: TorrentRenamePathArgs) -> (r: RpcRequest)
        ensures
            r == RpcRequest::spec_new(Method::TorrentRenamePath, Some(Args::TorrentRenamePath(args)), None),
    {
        RpcRequest { method: Method::TorrentRenamePath, arguments: Some(Args::TorrentRenamePath(args)), tag: None, jsonrpc: None }
    }
}

impl FromSpecImpl<TorrentRenamePathArgs> for RpcRequest {
    open spec fn obeys_from_spec() -> bool {
        true
    }

    open spec fn from_spec(v: TorrentRenamePathArgs) -> RpcRequest {
        RpcRequest::spec_new(Method::TorrentRenamePath, Some(Args::TorrentRenamePath(v)), None)
    }
}

/// The arguments of the smaller requests are members of their JSON objects under the keys
/// the server knows, with their values written as JSON, in either protocol (`compat`):
/// the path of a free-space query; the ids of queue moves and torrent actions; the ids and
/// whether to delete the data of a removal ("delete-local-data", or "delete_local_data" in
/// JSON-RPC); the ids, location and move flag of a set-location; the ids, path and new name
/// of a rename; the groups of a group-get when given; the IP version of a port test in
/// JSON-RPC.
pub proof fn lemma_argument_members(
    free: FreeSpaceArgs,
    queue: QueueMoveArgs,
    action: TorrentActionArgs,
    remove: TorrentRemoveArgs,
    location: TorrentSetLocationArgs,
    rename: TorrentRenamePathArgs,
    groups: GroupGetArgs,
    port: PortTestArgs,
    compat: bool,
)
    ensures
        has_member(free.spec_json(compat), "path"@, string_text(free.path@)),
        has_member(queue.spec_json(compat), "ids"@, ids_text(queue.ids@)),
        has_member(action.spec_json(compat), "ids"@, ids_text(action.ids@)),
        has_member(remove.spec_json(compat), "ids"@, ids_text(remove.ids@)),
        !compat ==> has_member(remove.spec_json(compat), "delete-local-data"@, bool_text(remove.delete_local_data)),
        compat ==> has_member(remove.spec_json(compat), "delete_local_data"@, bool_text(remove.delete_local_data)),
        has_member(location.spec_json(compat), "ids"@, ids_text(location.ids@)),
        has_member(location.spec_json(compat), "location"@, string_text(location.location@)),
        has_member(location.spec_json(compat), "move"@, bool_text(location.move_from)),
        has_member(rename.spec_json(compat), "ids"@, ids_text(rename.ids@)),
        has_member(rename.spec_json(compat), "path"@, string_text(rename.path@)),
        has_member(rename.spec_json(compat), "name"@, string_text(rename.name@)),
        groups.groups matches Some(g) ==> has_member(groups.spec_json(compat), "groups"@, strings_text(g@)),
        compat && port.ip_protocol is Some ==> has_member(
            port.spec_json(compat),
            "ip_protocol"@,
            string_text(port.ip_protocol->0.spec_name()),
        ),
{
    let ms = free.spec_members(compat);
    assert(ms[0] == member_text("path"@, string_text(free.path@)));
    lemma_object_holds_member(ms, ms[0]);
    let ms = queue.spec_members(compat);
    assert(ms[0] == member_text("ids"@, ids_text(queue.ids@)));
    lemma_object_holds_member(ms, ms[0]);
    let ms = action.spec_members(compat);
    assert(ms[0] == member_text("ids"@, ids_text(action.ids@)));
    lemma_object_holds_member(ms, ms[0]);
    let ms = remove.spec_members(compat);
    assert(ms.contains(ms[0]) && ms.contains(ms[1]));
    lemma_object_holds_member(ms, ms[0]);
    lemma_object_holds_member(ms, ms[1]);
    let ms = location.spec_members(compat);
    assert(ms.contains(ms[0]) && ms.contains(ms[1]) && ms.contains(ms[2]));
    lemma_object_holds_member(ms, ms[0]);
    lemma_object_holds_member(ms, ms[1]);
    lemma_object_holds_member(ms, ms[2]);
    let ms = rename.spec_members(compat);
    assert(ms.contains(ms[0]) && ms.contains(ms[1]) && ms.contains(ms[2]));
    lemma_object_holds_member(ms, ms[0]);
    lemma_object_holds_member(ms, ms[1]);
    lemma_object_holds_member(ms, ms[2]);
    if let Some(g) = groups.groups {
        let ms = groups.spec_members(compat);
        assert(ms[0] == member_text("groups"@, strings_text(g@)));
        lemma_object_holds_member(ms, ms[0]);
    }
    if compat && port.ip_protocol is Some {
        let ms = port.spec_members(compat);
        assert(ms[0] == member_text("ip_protocol"@, string_text(port.ip_protocol->0.spec_name())));
        lemma_object_holds_member(ms, ms[0]);
    }
}

/// The text of a request holds the JSON object of its arguments: under "arguments" in the
/// older protocol, under "params" in JSON-RPC.
pub proof fn lemma_request_holds_arguments(r: RpcRequest)
    ensures
        r.arguments matches Some(a) ==> occurs_in(r.spec_json(), a.spec_json(r.jsonrpc is Some)),
{
    broadcast use lemma_push_opt_keeps, lemma_push_keeps;

    if let Some(a) = r.arguments {
        let compat = r.jsonrpc is Some;
        let t = a.spec_json(compat);
        let (k, ms) = match r.jsonrpc {
            Some(v) => {
                let ms = seq![
                    member_text("jsonrpc"@, string_text(v@)),
                    member_text("method"@, string_text(r.method.spec_compat_name())),
                ];
                ("params"@, push_opt(ms, "params"@, opt_args_text(r.arguments, true)))
            },
            None => {
                let ms = seq![member_text("method"@, string_text(r.method.spec_name()))];
                ("arguments"@, push_opt(ms, "arguments"@, opt_args_text(r.arguments, false)))
            },
        };
        let m = member_text(k, t);
        assert(ms.contains(m));
        let all = match r.jsonrpc {
            Some(v) => push_opt(ms, "id"@, Some(json_rpc_id_text(request_id(r.tag)))),
            None => push_opt(
                ms,
                "tag"@,
                match r.tag {
                    Some(g) => Some(int_text(g.0 as int)),
                    None => None,
                },
            ),
        };
        assert(all.contains(m));
        assert(r.spec_json() == object_text(all));
        lemma_object_holds_member(all, m);
        let off: int = string_text(k).len() as int + 1;
        assert(m.subrange(off, off + t.len()) =~= t);
        assert(occurs_at(m, t, off));
        lemma_occurs_within(m, r.spec_json(), t);
    }
}

/// A torrent-set request made for the torrents `ids` names them: in either protocol its
/// text holds the member "ids" with the JSON array of `ids`, so the settings reach those
/// torrents and no others.
pub proof fn lemma_torrent_set_request_names_ids(
    args: TorrentSetArgs,
    ids: Vec<Id>,
    tag: Option<Tag>,
    jsonrpc: Option<String>,
)
    ensures
        has_member(
            (RpcRequest {
                method: Method::TorrentSet,
                arguments: Some(Args::TorrentSet(TorrentSetArgs { ids: Some(ids), ..args })),
                tag,
                jsonrpc,
            }).spec_json(),
            "ids"@,
            ids_text(ids@),
        ),
{
    let a = TorrentSetArgs { ids: Some(ids), ..args };
    let r = RpcRequest { method: Method::TorrentSet, arguments: Some(Args::TorrentSet(a)), tag, jsonrpc };
    lemma_request_holds_arguments(r);
    self::torrent_set::lemma_torrent_set_members(a);
    let compat = jsonrpc is Some;
    assert(Args::TorrentSet(a).spec_json(compat) == a.spec_json(compat));
    lemma_occurs_within(a.spec_json(compat), r.spec_json(), member_text("ids"@, ids_text(ids@)));
}

/// The names under which a request asks the Transmission server for each method: the
/// older protocol's names of its rpc specification, and their snake-case JSON-RPC names.
pub proof fn lemma_method_names(m: Method)
    ensures
        m == Method::BlocklistUpdate ==> m.spec_name() == "blocklist-update"@ && m.spec_compat_name() == "blocklist_update"@,
        m == Method::FreeSpace ==> m.spec_name() == "free-space"@ && m.spec_compat_name() == "free_space"@,
        m == Method::GroupGet ==> m.spec_name() == "group-get"@ && m.spec_compat_name() == "group_get"@,
        m == Method::GroupSet ==> m.spec_name() == "group-set"@ && m.spec_compat_name() == "group_set"@,
        m == Method::PortTest ==> m.spec_name() == "port-test"@ && m.spec_compat_name() == "port_test"@,
        m == Method::QueueMoveBottom ==> m.spec_name() == "queue-move-bottom"@ && m.spec_compat_name() == "queue_move_bottom"@,
        m == Method::QueueMoveDown ==> m.spec_name() == "queue-move-down"@ && m.spec_compat_name() == "queue_move_down"@,
        m == Method::QueueMoveTop ==> m.spec_name() == "queue-move-top"@ && m.spec_compat_name() == "queue_move_top"@,
        m == Method::QueueMoveUp ==> m.spec_name() == "queue-move-up"@ && m.spec_compat_name() == "queue_move_up"@,
        m == Method::SessionClose ==> m.spec_name() == "session-close"@ && m.spec_compat_name() == "session_close"@,
        m == Method::SessionGet ==> m.spec_name() == "session-get"@ && m.spec_compat_name() == "session_get"@,
        m == Method::SessionSet ==> m.spec_name() == "session-set"@ && m.spec_compat_name() == "session_set"@,
        m == Method::SessionStats ==> m.spec_name() == "session-stats"@ && m.spec_compat_name() == "session_stats"@,
        m == Method::TorrentAdd ==> m.spec_name() == "torrent-add"@ && m.spec_compat_name() == "torrent_add"@,
        m == Method::TorrentGet ==> m.spec_name() == "torrent-get"@ && m.spec_compat_name() == "torrent_get"@,
        m == Method::TorrentReannounce ==> m.spec_name() == "torrent-reannounce"@ && m.spec_compat_name() == "torrent_reannounce"@,
        m == Method::TorrentRemove ==> m.spec_name() == "torrent-remove"@ && m.spec_compat_name() == "torrent_remove"@,
        m == Method::TorrentRenamePath ==> m.spec_name() == "torrent-rename-path"@ && m.spec_compat_name() == "torrent_rename_path"@,
        m == Method::TorrentSet ==> m.spec_name() == "torrent-set"@ && m.spec_compat_name() == "torrent_set"@,
        m == Method::TorrentSetLocation ==> m.spec_name() == "torrent-set-location"@ && m.spec_compat_name() == "torrent_set_location"@,
        m == Method::TorrentStart ==> m.spec_name() == "torrent-start"@ && m.spec_compat_name() == "torrent_start"@,
        m == Method::TorrentStartNow ==> m.spec_name() == "torrent-start-now"@ && m.spec_compat_name() == "torrent_start_now"@,
        m == Method::TorrentStop ==> m.spec_name() == "torrent-stop"@ && m.spec_compat_name() == "torrent_stop"@,
        m == Method::TorrentVerify ==> m.spec_name() == "torrent-verify"@ && m.spec_compat_name() == "torrent_verify"@,
{
}

/// The displayed name of a torrent action is the name of its method in the older protocol.
pub proof fn lemma_action_str_is_method_name(a: TorrentAction)
    ensures
        a.spec_str() == a.spec_method().spec_name(),
{
}

/// A name of the older protocol with every hyphen turned into an underscore.
pub open spec fn snake_case(name: Seq<char>) -> Seq<char> {
    name.map_values(|c: char| if c == '-' { '_' } else { c })
}

/// The JSON-RPC name of every method is its older name with the hyphens turned into
/// underscores.
#[verifier::rlimit(50)]
pub proof fn lemma_compat_name_is_snake_case(m: Method)
    ensures
        m.spec_compat_name() == snake_case(m.spec_name()),
{
    match m {
        Method::BlocklistUpdate => {
            reveal_strlit("blocklist-update");
            reveal_strlit("blocklist_update");
            assert(m.spec_compat_name() =~= snake_case(m.spec_name()));
        },
        Method::FreeSpace => {
            reveal_strlit("free-space");
            reveal_strlit("free_space");
            assert(m.spec_compat_name() =~= snake_case(m.spec_name()));
        },
        Method::GroupGet => {
            reveal_strlit("group-get");
            reveal_strlit("group_get");
            assert(m.spec_compat_name() =~= snake_case(m.spec_name()));
        },
        Method::GroupSet => {
            reveal_strlit("group-set");
            reveal_strlit("group_set");
            assert(m.spec_compat_name() =~= snake_case(m.spec_name()));
        },
        Method::PortTest => {
            reveal_strlit("port-test");
            reveal_strlit("port_test");
            assert(m.spec_compat_name() =~= snake_case(m.spec_name()));
        },
        Method::QueueMoveBottom => {
            reveal_strlit("queue-move-bottom");
            reveal_strlit("queue_move_bottom");
            assert(m.spec_compat_name() =~= snake_case(m.spec_name()));
        },
        Method::QueueMoveDown => {
            reveal_strlit("queue-move-down");
            reveal_strlit("queue_move_down");
            assert(m.spec_compat_name() =~= snake_case(m.spec_name()));
        },
        Method::QueueMoveTop => {
            reveal_strlit("queue-move-top");
            reveal_strlit("queue_move_top");
            assert(m.spec_compat_name() =~= snake_case(m.spec_name()));
        },
        Method::QueueMoveUp => {
            reveal_strlit("queue-move-up");
            reveal_strlit("queue_move_up");
            assert(m.spec_compat_name() =~= snake_case(m.spec_name()));
        },
        Method::SessionClose => {
            reveal_strlit("session-close");
            reveal_strlit("session_close");
            assert(m.spec_compat_name() =~= snake_case(m.spec_name()));
        },
        Method::SessionGet => {
            reveal_strlit("session-get");
            reveal_strlit("session_get");
            assert(m.spec_compat_name() =~= snake_case(m.spec_name()));
        },
        Method::SessionSet => {
            reveal_strlit("session-set");
            reveal_strlit("session_set");
            assert(m.spec_compat_name() =~= snake_case(m.spec_name()));
        },
        Method::SessionStats => {
            reveal_strlit("session-stats");
            reveal_strlit("session_stats");
            assert(m.spec_compat_name() =~= snake_case(m.spec_name()));
        },
        Method::TorrentAdd => {
            reveal_strlit("torrent-add");
            reveal_strlit("torrent_add");
            assert(m.spec_compat_name() =~= snake_case(m.spec_name()));
        },
        Method::TorrentGet => {
            reveal_strlit("torrent-get");
            reveal_strlit("torrent_get");
            assert(m.spec_compat_name() =~= snake_case(m.spec_name()));
        },
        Method::TorrentReannounce => {
            reveal_strlit("torrent-reannounce");
            reveal_strlit("torrent_reannounce");
            assert(m.spec_compat_name() =~= snake_case(m.spec_name()));
        },
        Method::TorrentRemove => {
            reveal_strlit("torrent-remove");
            reveal_strlit("torrent_remove");
            assert(m.spec_compat_name() =~= snake_case(m.spec_name()));
        },
        Method::TorrentRenamePath => {
            reveal_strlit("torrent-rename-path");
            reveal_strlit("torrent_rename_path");
            assert(m.spec_compat_name() =~= snake_case(m.spec_name()));
        },
        Method::TorrentSet => {
            reveal_strlit("torrent-set");
            reveal_strlit("torrent_set");
            assert(m.spec_compat_name() =~= snake_case(m.spec_name()));
        },
        Method::TorrentSetLocation => {
            reveal_strlit("torrent-set-location");
            reveal_strlit("torrent_set_location");
            assert(m.spec_compat_name() =~= snake_case(m.spec_name()));
        },
        Method::TorrentStart => {
            reveal_strlit("torrent-start");
            reveal_strlit("torrent_start");
            assert(m.spec_compat_name() =~= snake_case(m.spec_name()));
        },
        Method::TorrentStartNow => {
            reveal_strlit("torrent-start-now");
            reveal_strlit("torrent_start_now");
            assert(m.spec_compat_name() =~= snake_case(m.spec_name()));
        },
        Method::TorrentStop => {
            reveal_strlit("torrent-stop");
            reveal_strlit("torrent_stop");
            assert(m.spec_compat_name() =~= snake_case(m.spec_name()));
        },
        Method::TorrentVerify => {
            reveal_strlit("torrent-verify");
            reveal_strlit("torrent_verify");
            assert(m.spec_compat_name() =~= snake_case(m.spec_name()));
        },
    }
}

/// A request sent in JSON-RPC always carries an id, as the last member of its object: its
/// tag, or 0 when it has none, so that the server always answers it.
pub proof fn lemma_json_rpc_request_has_id(r: RpcRequest)
    requires
        r.jsonrpc is Some,
    ensures
        (member_text(
            "id"@,
            int_text(
                match r.tag {
                    Some(t) => t.0 as int,
                    None => 0,
                },
            ),
        ) + seq!['}']).is_suffix_of(r.spec_json()),
{
    let v = r.jsonrpc->0;
    let ms = seq![
        member_text("jsonrpc"@, string_text(v@)),
        member_text("method"@, string_text(r.method.spec_compat_name())),
    ];
    let ms = push_opt(ms, "params"@, opt_args_text(r.arguments, true));
    let n: int = match r.tag {
        Some(t) => t.0 as int,
        None => 0,
    };
    let last = member_text("id"@, int_text(n));
    lemma_join_push(ms, last);
    assert(ms.len() > 0);
    let prefix = seq!['{'] + join(ms) + seq![','];
    assert(r.spec_json() =~= prefix + (last + seq!['}']));
    assert((last + seq!['}']) =~= r.spec_json().subrange(prefix.len() as int, r.spec_json().len() as int));
}

} // verus!
