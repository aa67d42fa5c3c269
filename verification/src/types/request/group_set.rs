//! Arguments of group-set requests.
use vstd::prelude::*;
use crate::json::{
    bool_text, key, member_text, object_text, opt_bool_json, opt_bool_text, opt_u64_json,
    opt_u64_text, pick, push_opt, string_json, string_text, JsonObject,
};

use crate::json::{has_member, int_text, lemma_object_holds_member, lemma_push_keeps, lemma_push_opt_keeps};

verus! {

/// Arguments of a group-set request: the name of a bandwidth group and the settings to
/// change for it. Each setter returns the arguments with only its own field changed.
#[derive(Debug, Clone, PartialEq)]
pub struct GroupSetArgs {
    /// Whether the session's upload limits are honored.
    pub honors_session_limits: Option<bool>,
    pub name: String,
    /// Whether the group limits the download speed.
    pub speed_limit_down_enabled: Option<bool>,
    /// The maximum download speed (kB/s).
    pub speed_limit_down: Option<u64>,
    /// Whether the group limits the upload speed.
    pub speed_limit_up_enabled: Option<bool>,
    /// The maximum upload speed (kB/s).
    pub speed_limit_up: Option<u64>,
}

impl GroupSetArgs {
    /// The members of the JSON object of these arguments, in the order of the fields, the
    /// absent ones left out.
    pub open spec fn spec_members(self, compat: bool) -> Seq<Seq<char>> {
        let ms = push_opt(
            seq![],
            key(compat, "honorsSessionLimits", "honors_session_limits"),
            opt_bool_text(self.honors_session_limits),
        );
        let ms = ms.push(member_text("name"@, string_text(self.name@)));
        let ms = push_opt(
            ms,
            key(compat, "speed-limit-down-enabled", "speed_limit_down_enabled"),
            opt_bool_text(self.speed_limit_down_enabled),
        );
        let ms = push_opt(
            ms,
            key(compat, "speed-limit-down", "speed_limit_down"),
            opt_u64_text(self.speed_limit_down),
        );
        let ms = push_opt(
            ms,
            key(compat, "speed-limit-up-enabled", "speed_limit_up_enabled"),
            opt_bool_text(self.speed_limit_up_enabled),
        );
        push_opt(
            ms,
            key(compat, "speed-limit-up", "speed_limit_up"),
            opt_u64_text(self.speed_limit_up),
        )
    }

    /// The JSON object of these arguments.
    pub open spec fn spec_json(self, compat: bool) -> Seq<char> {
        object_text(self.spec_members(compat))
    }

    /// The JSON object of these arguments.
    pub fn to_json(&self, compat: bool) -> (s: String)
        ensures
            s@ == self.spec_json(compat),
    {
        let mut o = JsonObject::new();
        o.opt_field(
            pick(compat, "honorsSessionLimits", "honors_session_limits"),
            opt_bool_json(self.honors_session_limits),
        );
        let n = string_json(self.name.as_str());
        o.field("name", n.as_str());
        o.opt_field(
            pick(compat, "speed-limit-down-enabled", "speed_limit_down_enabled"),
            opt_bool_json(self.speed_limit_down_enabled),
        );
        o.opt_field(
            pick(compat, "speed-limit-down", "speed_limit_down"),
            opt_u64_json(self.speed_limit_down),
        );
        o.opt_field(
            pick(compat, "speed-limit-up-enabled", "speed_limit_up_enabled"),
            opt_bool_json(self.speed_limit_up_enabled),
        );
        o.opt_field(
            pick(compat, "speed-limit-up", "speed_limit_up"),
            opt_u64_json(self.speed_limit_up),
        );
        o.finish()
    }

    /// Arguments for the group `name` that change nothing.
    pub fn new(name: String) -> (a: GroupSetArgs)
        ensures
            a == (GroupSetArgs {
                honors_session_limits: None,
                name,
                speed_limit_down_enabled: None,
                speed_limit_down: None,
                speed_limit_up_enabled: None,
                speed_limit_up: None,
            }),
    {
        GroupSetArgs {
            honors_session_limits: None,
            name,
            speed_limit_down_enabled: None,
            speed_limit_down: None,
            speed_limit_up_enabled: None,
            speed_limit_up: None,
        }
    }

    /// These arguments with `honors_session_limits` set to `honors_session_limits`.
    pub fn honors_session_limits(self, honors_session_limits: bool) -> (a: GroupSetArgs)
        ensures
            a == (GroupSetArgs { honors_session_limits: Some(honors_session_limits), ..self }),
    {
        GroupSetArgs { honors_session_limits: Some(honors_session_limits), ..self }
    }

    /// These arguments with `speed_limit_down_enabled` set to `speed_limit_down_enabled`.
    pub fn speed_limit_down_enabled(self, speed_limit_down_enabled: bool) -> (a: GroupSetArgs)
        ensures
            a == (GroupSetArgs { speed_limit_down_enabled: Some(speed_limit_down_enabled), ..self }),
    {
        GroupSetArgs { speed_limit_down_enabled: Some(speed_limit_down_enabled), ..self }
    }

    /// These arguments with `speed_limit_down` set to `speed_limit_down`.
    pub fn speed_limit_down(self, speed_limit_down: u64) -> (a: GroupSetArgs)
        ensures
            a == (GroupSetArgs { speed_limit_down: Some(speed_limit_down), ..self }),
    {
        GroupSetArgs { speed_limit_down: Some(speed_limit_down), ..self }
    }

    /// These arguments with `speed_limit_up_enabled` set to `speed_limit_up_enabled`.
    pub fn speed_limit_up_enabled(self, speed_limit_up_enabled: bool) -> (a: GroupSetArgs)
        ensures
            a == (GroupSetArgs { speed_limit_up_enabled: Some(speed_limit_up_enabled), ..self }),
    {
        GroupSetArgs { speed_limit_up_enabled: Some(speed_limit_up_enabled), ..self }
    }

    /// These arguments with `speed_limit_up` set to `speed_limit_up`.
    pub fn speed_limit_up(self, speed_limit_up: u64) -> (a: GroupSetArgs)
        ensures
            a == (GroupSetArgs { speed_limit_up: Some(speed_limit_up), ..self }),
    {
        GroupSetArgs { speed_limit_up: Some(speed_limit_up), ..self }
    }
}

/// Every argument given to a group-set request is a member of its JSON object, under its
/// key: in the older protocol the kebab-case name (and `honorsSessionLimits`), in JSON-RPC
/// the snake-case name, with the value written as JSON; the group's name is always there.
#[verifier::rlimit(100)]
#[verifier::spinoff_prover]
pub proof fn lemma_group_set_members(a: GroupSetArgs)
    ensures
        has_member(a.spec_json(false), "name"@, string_text(a.name@)),
        has_member(a.spec_json(true), "name"@, string_text(a.name@)),
        a.honors_session_limits matches Some(v) ==> has_member(a.spec_json(false), "honorsSessionLimits"@, bool_text(v)),
        a.honors_session_limits matches Some(v) ==> has_member(a.spec_json(true), "honors_session_limits"@, bool_text(v)),
        a.speed_limit_down_enabled matches Some(v) ==> has_member(a.spec_json(false), "speed-limit-down-enabled"@, bool_text(v)),
        a.speed_limit_down_enabled matches Some(v) ==> has_member(a.spec_json(true), "speed_limit_down_enabled"@, bool_text(v)),
        a.speed_limit_down matches Some(v) ==> has_member(a.spec_json(false), "speed-limit-down"@, int_text(v as int)),
        a.speed_limit_down matches Some(v) ==> has_member(a.spec_json(true), "speed_limit_down"@, int_text(v as int)),
        a.speed_limit_up_enabled matches Some(v) ==> has_member(a.spec_json(false), "speed-limit-up-enabled"@, bool_text(v)),
        a.speed_limit_up_enabled matches Some(v) ==> has_member(a.spec_json(true), "speed_limit_up_enabled"@, bool_text(v)),
        a.speed_limit_up matches Some(v) ==> has_member(a.spec_json(false), "speed-limit-up"@, int_text(v as int)),
        a.speed_limit_up matches Some(v) ==> has_member(a.spec_json(true), "speed_limit_up"@, int_text(v as int)),
{
    assert(a.spec_members(false).contains(member_text("name"@, string_text(a.name@)))) by {
        broadcast use lemma_push_opt_keeps, lemma_push_keeps;
    }
    lemma_object_holds_member(a.spec_members(false), member_text("name"@, string_text(a.name@)));
    assert(a.spec_members(true).contains(member_text("name"@, string_text(a.name@)))) by {
        broadcast use lemma_push_opt_keeps, lemma_push_keeps;
    }
    lemma_object_holds_member(a.spec_members(true), member_text("name"@, string_text(a.name@)));

    if let Some(v) = a.honors_session_limits {
        assert(a.spec_members(false).contains(member_text("honorsSessionLimits"@, bool_text(v)))) by {
            broadcast use lemma_push_opt_keeps, lemma_push_keeps;
        }
        lemma_object_holds_member(a.spec_members(false), member_text("honorsSessionLimits"@, bool_text(v)));
    }
    if let Some(v) = a.honors_session_limits {
        assert(a.spec_members(true).contains(member_text("honors_session_limits"@, bool_text(v)))) by {
            broadcast use lemma_push_opt_keeps, lemma_push_keeps;
        }
        lemma_object_holds_member(a.spec_members(true), member_text("honors_session_limits"@, bool_text(v)));
    }
    if let Some(v) = a.speed_limit_down_enabled {
        assert(a.spec_members(false).contains(member_text("speed-limit-down-enabled"@, bool_text(v)))) by {
            broadcast use lemma_push_opt_keeps, lemma_push_keeps;
        }
        lemma_object_holds_member(a.spec_members(false), member_text("speed-limit-down-enabled"@, bool_text(v)));
    }
    if let Some(v) = a.speed_limit_down_enabled {
        assert(a.spec_members(true).contains(member_text("speed_limit_down_enabled"@, bool_text(v)))) by {
            broadcast use lemma_push_opt_keeps, lemma_push_keeps;
        }
        lemma_object_holds_member(a.spec_members(true), member_text("speed_limit_down_enabled"@, bool_text(v)));
    }
    if let Some(v) = a.speed_limit_down {
        assert(a.spec_members(false).contains(member_text("speed-limit-down"@, int_text(v as int)))) by {
            broadcast use lemma_push_opt_keeps, lemma_push_keeps;
        }
        lemma_object_holds_member(a.spec_members(false), member_text("speed-limit-down"@, int_text(v as int)));
    }
    if let Some(v) = a.speed_limit_down {
        assert(a.spec_members(true).contains(member_text("speed_limit_down"@, int_text(v as int)))) by {
            broadcast use lemma_push_opt_keeps, lemma_push_keeps;
        }
        lemma_object_holds_member(a.spec_members(true), member_text("speed_limit_down"@, int_text(v as int)));
    }
    if let Some(v) = a.speed_limit_up_enabled {
        assert(a.spec_members(false).contains(member_text("speed-limit-up-enabled"@, bool_text(v)))) by {
            broadcast use lemma_push_opt_keeps, lemma_push_keeps;
        }
        lemma_object_holds_member(a.spec_members(false), member_text("speed-limit-up-enabled"@, bool_text(v)));
    }
    if let Some(v) = a.speed_limit_up_enabled {
        assert(a.spec_members(true).contains(member_text("speed_limit_up_enabled"@, bool_text(v)))) by {
            broadcast use lemma_push_opt_keeps, lemma_push_keeps;
        }
        lemma_object_holds_member(a.spec_members(true), member_text("speed_limit_up_enabled"@, bool_text(v)));
    }
    if let Some(v) = a.speed_limit_up {
        assert(a.spec_members(false).contains(member_text("speed-limit-up"@, int_text(v as int)))) by {
            broadcast use lemma_push_opt_keeps, lemma_push_keeps;
        }
        lemma_object_holds_member(a.spec_members(false), member_text("speed-limit-up"@, int_text(v as int)));
    }
    if let Some(v) = a.speed_limit_up {
        assert(a.spec_members(true).contains(member_text("speed_limit_up"@, int_text(v as int)))) by {
            broadcast use lemma_push_opt_keeps, lemma_push_keeps;
        }
        lemma_object_holds_member(a.spec_members(true), member_text("speed_limit_up"@, int_text(v as int)));
    }
}

} // verus!
