//! Value types shared by requests and responses, and the JSON text they are sent as.
use vstd::prelude::*;
use vstd::std_specs::convert::FromSpecImpl;
use vstd::std_specs::ops::BitOrSpecImpl;
use crate::json::{
    array_text, i64_json, int_text, is_json_number, json_number, opt_view, push_char, string_json,
    string_text, u64_json, JsonArray,
};
use vstd::string::StringExecFns;

pub mod request;
pub mod response;

pub use self::request::{
    ArgumentFields, GroupSetArgs, SessionGetField, SessionSetArgs, TorrentAction, TorrentAddArgs,
    TorrentGetField, TorrentRenamePathArgs, TorrentSetArgs,
};
pub use self::response::{
    BlocklistUpdate, FreeSpace, GroupGet, Nothing, PortTest, RpcResponse, RpcResponseArgument,
    Torrent, TorrentAddedOrDuplicate, TorrentRenamePath, Torrents,
};

verus! {

/// The credentials used for the HTTP basic authentication of the rpc server.
#[derive(Debug, Clone)]
pub struct BasicAuth {
    pub user: String,
    pub password: String,
}

/// Identifies a torrent by its numeric id or by its hash string.
#[derive(Debug, Clone, PartialEq, Eq, PartialOrd, Ord, Hash)]
pub enum Id {
    Id(i64),
    Hash(String),
}

/// The JSON value of an [`Id`]: a number for `Id::Id`, a string for `Id::Hash`.
pub open spec fn id_text(id: Id) -> Seq<char> {
    match id {
        Id::Id(n) => int_text(n as int),
        Id::Hash(h) => string_text(h@),
    }
}

/// The JSON array of a list of ids.
pub open spec fn ids_text(ids: Seq<Id>) -> Seq<char> {
    array_text(ids.map_values(|id: Id| id_text(id)))
}

impl Id {
    /// The JSON value of this id.
    pub fn to_json(&self) -> (s: String)
        ensures
            s@ == id_text(*self),
    {
        match self {
            Id::Id(n) => i64_json(*n),
            Id::Hash(h) => string_json(h.as_str()),
        }
    }
}

/// The JSON array of `ids`.
pub fn ids_json(ids: &Vec<Id>) -> (s: String)
    ensures
        s@ == ids_text(ids@),
{
    let mut a = JsonArray::new();
    let mut i: usize = 0;
    while i < ids.len()
        invariant
            i <= ids.len(),
            a.wf(),
            a.items() == ids@.take(i as int).map_values(|id: Id| id_text(id)),
        decreases ids.len() - i,
    {
        let t = ids[i].to_json();
        a.push(t.as_str());
        assert(ids@.take(i + 1).map_values(|id: Id| id_text(id)) =~= ids@.take(
            i as int,
        ).map_values(|id: Id| id_text(id)).push(id_text(ids@[i as int])));
        i = i + 1;
    }
    assert(ids@.take(ids.len() as int) =~= ids@);
    a.finish()
}

/// A torrent's or a file's bandwidth priority.
#[derive(Debug, Clone, Copy, PartialEq, Eq, Hash, PartialOrd, Ord)]
pub enum Priority {
    Low,
    Normal,
    High,
}

impl Priority {
    /// The number the rpc server uses for this priority: -1, 0 or 1.
    pub open spec fn spec_value(self) -> int {
        match self {
            Priority::Low => -1,
            Priority::Normal => 0,
            Priority::High => 1,
        }
    }

    /// The number the rpc server uses for this priority.
    pub fn value(&self) -> (v: i8)
        ensures
            v == self.spec_value(),
    {
        match self {
            Priority::Low => -1,
            Priority::Normal => 0,
            Priority::High => 1,
        }
    }

    /// The priority with the number `v`, if there is one.
    pub fn from_value(v: i8) -> (p: Option<Priority>)
        ensures
            p matches Some(q) ==> q.spec_value() == v,
            p is None <==> !(-1 <= v <= 1),
    {
        if v == -1 {
            Some(Priority::Low)
        } else if v == 0 {
            Some(Priority::Normal)
        } else if v == 1 {
            Some(Priority::High)
        } else {
            None
        }
    }

    /// The JSON number of this priority.
    pub fn to_json(&self) -> (s: String)
        ensures
            s@ == int_text(self.spec_value()),
    {
        i64_json(self.value() as i64)
    }
}

/// Which seeding inactivity limit applies to a torrent.
#[derive(Debug, Copy, Clone, PartialEq, Eq, Hash, PartialOrd, Ord)]
pub enum IdleMode {
    Global,
    Single,
    Unlimited,
}

impl IdleMode {
    /// The number the rpc server uses for this mode: 0, 1 or 2.
    pub open spec fn spec_value(self) -> int {
        match self {
            IdleMode::Global => 0,
            IdleMode::Single => 1,
            IdleMode::Unlimited => 2,
        }
    }

    /// The number the rpc server uses for this mode.
    pub fn value(&self) -> (v: i8)
        ensures
            v == self.spec_value(),
    {
        match self {
            IdleMode::Global => 0,
            IdleMode::Single => 1,
            IdleMode::Unlimited => 2,
        }
    }

    /// The mode with the number `v`, if there is one.
    pub fn from_value(v: i8) -> (m: Option<IdleMode>)
        ensures
            m matches Some(q) ==> q.spec_value() == v,
            m is None <==> !(0 <= v <= 2),
    {
        if v == 0 {
            Some(IdleMode::Global)
        } else if v == 1 {
            Some(IdleMode::Single)
        } else if v == 2 {
            Some(IdleMode::Unlimited)
        } else {
            None
        }
    }

    /// The JSON number of this mode.
    pub fn to_json(&self) -> (s: String)
        ensures
            s@ == int_text(self.spec_value()),
    {
        i64_json(self.value() as i64)
    }
}

/// Which seeding ratio limit applies to a torrent.
#[derive(Debug, Copy, Clone, PartialEq, Eq, Hash, PartialOrd, Ord)]
pub enum RatioMode {
    Global,
    Single,
    Unlimited,
}

impl RatioMode {
    /// The number the rpc server uses for this mode: 0, 1 or 2.
    pub open spec fn spec_value(self) -> int {
        match self {
            RatioMode::Global => 0,
            RatioMode::Single => 1,
            RatioMode::Unlimited => 2,
        }
    }

    /// The number the rpc server uses for this mode.
    pub fn value(&self) -> (v: i8)
        ensures
            v == self.spec_value(),
    {
        match self {
            RatioMode::Global => 0,
            RatioMode::Single => 1,
            RatioMode::Unlimited => 2,
        }
    }

    /// The mode with the number `v`, if there is one.
    pub fn from_value(v: i8) -> (m: Option<RatioMode>)
        ensures
            m matches Some(q) ==> q.spec_value() == v,
            m is None <==> !(0 <= v <= 2),
    {
        if v == 0 {
            Some(RatioMode::Global)
        } else if v == 1 {
            Some(RatioMode::Single)
        } else if v == 2 {
            Some(RatioMode::Unlimited)
        } else {
            None
        }
    }

    /// The JSON number of this mode.
    pub fn to_json(&self) -> (s: String)
        ensures
            s@ == int_text(self.spec_value()),
    {
        i64_json(self.value() as i64)
    }
}


/// How the rpc server handles the encryption of peer connections.
#[derive(Debug, Copy, Clone, PartialEq, Eq, Hash)]
pub enum Encryption {
    /// Encrypt all peer connections.
    Required,
    /// Prefer encrypted peer connections.
    Preferred,
    /// Prefer unencrypted peer connections; called "allowed" since Transmission 4.1.0.
    Tolerated,
}

impl Encryption {
    /// The name of this preference: "required", "preferred" or "tolerated".
    pub open spec fn spec_name(self) -> Seq<char> {
        match self {
            Encryption::Required => "required"@,
            Encryption::Preferred => "preferred"@,
            Encryption::Tolerated => "tolerated"@,
        }
    }

    /// The name used by JSON-RPC servers: "tolerated" became "allowed".
    pub open spec fn spec_compat_name(self) -> Seq<char> {
        match self {
            Encryption::Required => "required"@,
            Encryption::Preferred => "preferred"@,
            Encryption::Tolerated => "allowed"@,
        }
    }

    /// The name of this preference.
    pub fn name(&self) -> (s: &'static str)
        ensures
            s@ == self.spec_name(),
    {
        match self {
            Encryption::Required => "required",
            Encryption::Preferred => "preferred",
            Encryption::Tolerated => "tolerated",
        }
    }

    /// The name used by JSON-RPC servers.
    pub fn compat_name(&self) -> (s: &'static str)
        ensures
            s@ == self.spec_compat_name(),
    {
        match self {
            Encryption::Required => "required",
            Encryption::Preferred => "preferred",
            Encryption::Tolerated => "allowed",
        }
    }

    /// The displayed name of this preference.
    pub fn to_string(&self) -> (s: String)
        ensures
            s@ == self.spec_name(),
    {
        String::from_str(self.name())
    }

    /// The preference a server names `name`; "allowed" is read as `Tolerated`.
    pub fn from_name(name: &str) -> (e: Option<Encryption>)
        ensures
            e matches Some(v) ==> v.spec_name() == name@ || v.spec_compat_name() == name@,
            e is None ==> (forall|v: Encryption|
                v.spec_name() != name@ && v.spec_compat_name() != name@),
    {
        if str_eq(name, "required") {
            Some(Encryption::Required)
        } else if str_eq(name, "preferred") {
            Some(Encryption::Preferred)
        } else if str_eq(name, "tolerated") || str_eq(name, "allowed") {
            Some(Encryption::Tolerated)
        } else {
            None
        }
    }

    /// The JSON string of this preference, in the older or the JSON-RPC vocabulary.
    pub open spec fn spec_json(self, compat: bool) -> Seq<char> {
        if compat {
            string_text(self.spec_compat_name())
        } else {
            string_text(self.spec_name())
        }
    }

    /// The JSON string of this preference.
    pub fn to_json(&self, compat: bool) -> (s: String)
        ensures
            s@ == self.spec_json(compat),
    {
        if compat {
            string_json(self.compat_name())
        } else {
            string_json(self.name())
        }
    }
}

/// Whether two strings hold the same characters.
pub fn str_eq(a: &str, b: &str) -> (r: bool)
    ensures
        r == (a@ == b@),
{
    let n = a.unicode_len();
    if n != b.unicode_len() {
        return false;
    }
    let mut i: usize = 0;
    while i < n
        invariant
            n == a@.len(),
            n == b@.len(),
            i <= n,
            forall|j: int| 0 <= j < i ==> a@[j] == b@[j],
        decreases n - i,
    {
        if a.get_char(i) != b.get_char(i) {
            return false;
        }
        i = i + 1;
    }
    assert(a@ =~= b@);
    true
}

/// A transport protocol for peer connections.
#[derive(Debug, Copy, Clone, PartialEq, Eq, Hash)]
pub enum Transport {
    /// Transmission control protocol.
    TCP,
    /// Micro transport protocol (uTP).
    UTP,
}

impl Transport {
    /// The name of this protocol: "tcp" or "utp".
    pub open spec fn spec_name(self) -> Seq<char> {
        match self {
            Transport::TCP => "tcp"@,
            Transport::UTP => "utp"@,
        }
    }

    /// The name of this protocol.
    pub fn name(&self) -> (s: &'static str)
        ensures
            s@ == self.spec_name(),
    {
        match self {
            Transport::TCP => "tcp",
            Transport::UTP => "utp",
        }
    }

    /// The displayed name of this protocol.
    pub fn to_string(&self) -> (s: String)
        ensures
            s@ == self.spec_name(),
    {
        String::from_str(self.name())
    }

    /// The protocol named `name`, if there is one.
    pub fn from_name(name: &str) -> (t: Option<Transport>)
        ensures
            t matches Some(v) ==> v.spec_name() == name@,
            t is None ==> (forall|v: Transport| v.spec_name() != name@),
    {
        if str_eq(name, "tcp") {
            Some(Transport::TCP)
        } else if str_eq(name, "utp") {
            Some(Transport::UTP)
        } else {
            None
        }
    }
}

/// The JSON array of the names of `ts`.
pub open spec fn transports_text(ts: Seq<Transport>) -> Seq<char> {
    array_text(ts.map_values(|t: Transport| string_text(t.spec_name())))
}

/// The JSON array of the names of `ts`.
pub fn transports_json(ts: &Vec<Transport>) -> (s: String)
    ensures
        s@ == transports_text(ts@),
{
    let mut a = JsonArray::new();
    let mut i: usize = 0;
    while i < ts.len()
        invariant
            i <= ts.len(),
            a.wf(),
            a.items() == ts@.take(i as int).map_values(|t: Transport| string_text(t.spec_name())),
        decreases ts.len() - i,
    {
        let t = string_json(ts[i].name());
        a.push(t.as_str());
        assert(ts@.take(i + 1).map_values(|t: Transport| string_text(t.spec_name())) =~= ts@.take(
            i as int,
        ).map_values(|t: Transport| string_text(t.spec_name())).push(
            string_text(ts@[i as int].spec_name()),
        ));
        i = i + 1;
    }
    assert(ts@.take(ts.len() as int) =~= ts@);
    a.finish()
}

/// The IP version of a port test.
#[derive(Debug, Copy, Clone, PartialEq, Eq, Hash)]
pub enum IpProtocol {
    Ipv4,
    Ipv6,
}

impl IpProtocol {
    /// The name of this IP version: "ipv4" or "ipv6".
    pub open spec fn spec_name(self) -> Seq<char> {
        match self {
            IpProtocol::Ipv4 => "ipv4"@,
            IpProtocol::Ipv6 => "ipv6"@,
        }
    }

    /// The name of this IP version.
    pub fn name(&self) -> (s: &'static str)
        ensures
            s@ == self.spec_name(),
    {
        match self {
            IpProtocol::Ipv4 => "ipv4",
            IpProtocol::Ipv6 => "ipv6",
        }
    }

    /// The IP version named `name`, if there is one.
    pub fn from_name(name: &str) -> (p: Option<IpProtocol>)
        ensures
            p matches Some(v) ==> v.spec_name() == name@,
            p is None ==> (forall|v: IpProtocol| v.spec_name() != name@),
    {
        if str_eq(name, "ipv4") {
            Some(IpProtocol::Ipv4)
        } else if str_eq(name, "ipv6") {
            Some(IpProtocol::Ipv6)
        } else {
            None
        }
    }
}

/// A number used by clients to match responses with their requests.
#[derive(Debug, Clone, Copy, PartialEq, Eq, Hash, PartialOrd, Ord)]
pub struct Tag(pub i64);

impl Tag {
    /// The displayed number of this tag.
    pub fn to_string(&self) -> (s: String)
        ensures
            s@ == int_text(self.0 as int),
    {
        i64_json(self.0)
    }
}

impl From<i64> for Tag {
    fn from(value: i64) -> (t: Tag)
        ensures
            t == Tag(value),
    {
        Tag(value)
    }
}

impl FromSpecImpl<i64> for Tag {
    open spec fn obeys_from_spec() -> bool {
        true
    }

    open spec fn from_spec(v: i64) -> Tag {
        Tag(v)
    }
}

impl<'a> From<&'a i64> for Tag {
    fn from(value: &'a i64) -> (t: Tag)
        ensures
            t == Tag(*value),
    {
        Tag(*value)
    }
}

impl<'a> FromSpecImpl<&'a i64> for Tag {
    open spec fn obeys_from_spec() -> bool {
        true
    }

    open spec fn from_spec(v: &'a i64) -> Tag {
        Tag(*v)
    }
}


/// One or more days of the week, as a bit set, on which the alternative speed limits
/// ("turtle mode") are switched on: bit 0 is Sunday, bit 6 is Saturday.
#[derive(Debug, Clone, Copy, PartialEq, Eq, Hash, PartialOrd, Ord)]
pub struct AltSpeedDay {
    bits: u8,
}

impl AltSpeedDay {
    /// Sunday.
    pub fn sunday() -> (d: AltSpeedDay)
        ensures
            d.spec_bits() == 1,
    {
        AltSpeedDay { bits: 1 }
    }

    /// Monday.
    pub fn monday() -> (d: AltSpeedDay)
        ensures
            d.spec_bits() == 2,
    {
        AltSpeedDay { bits: 2 }
    }

    /// Tuesday.
    pub fn tuesday() -> (d: AltSpeedDay)
        ensures
            d.spec_bits() == 4,
    {
        AltSpeedDay { bits: 4 }
    }

    /// Wednesday.
    pub fn wednesday() -> (d: AltSpeedDay)
        ensures
            d.spec_bits() == 8,
    {
        AltSpeedDay { bits: 8 }
    }

    /// Thursday.
    pub fn thursday() -> (d: AltSpeedDay)
        ensures
            d.spec_bits() == 16,
    {
        AltSpeedDay { bits: 16 }
    }

    /// Friday.
    pub fn friday() -> (d: AltSpeedDay)
        ensures
            d.spec_bits() == 32,
    {
        AltSpeedDay { bits: 32 }
    }

    /// Saturday.
    pub fn saturday() -> (d: AltSpeedDay)
        ensures
            d.spec_bits() == 64,
    {
        AltSpeedDay { bits: 64 }
    }

    /// Monday to Friday.
    pub fn weekday() -> (d: AltSpeedDay)
        ensures
            d.spec_bits() == 62,
    {
        AltSpeedDay { bits: 62 }
    }

    /// Saturday and Sunday.
    pub fn weekend() -> (d: AltSpeedDay)
        ensures
            d.spec_bits() == 65,
    {
        AltSpeedDay { bits: 65 }
    }

    /// The bits of this set.
    pub closed spec fn spec_bits(self) -> u8 {
        self.bits
    }

    /// The bits of this set.
    pub fn bits(&self) -> (b: u8)
        ensures
            b == self.spec_bits(),
    {
        self.bits
    }

    /// The set with exactly the bits `bits`, kept as they are even where no day is named.
    pub fn from_bits_retain(bits: u8) -> (d: AltSpeedDay)
        ensures
            d.spec_bits() == bits,
    {
        AltSpeedDay { bits }
    }

    /// The set with the bits of `bits` that name a day.
    pub fn from_bits_truncate(bits: u8) -> (d: AltSpeedDay)
        ensures
            d.spec_bits() == bits & 127,
    {
        AltSpeedDay { bits: bits & 127 }
    }

    /// The empty set.
    pub fn empty() -> (d: AltSpeedDay)
        ensures
            d.spec_bits() == 0,
    {
        AltSpeedDay { bits: 0 }
    }

    /// Every day of the week.
    pub fn all() -> (d: AltSpeedDay)
        ensures
            d.spec_bits() == 127,
    {
        AltSpeedDay { bits: 127 }
    }

    /// Whether every day of `other` is in this set.
    pub fn contains(&self, other: AltSpeedDay) -> (r: bool)
        ensures
            r == (self.spec_bits() & other.spec_bits() == other.spec_bits()),
    {
        self.bits & other.bits == other.bits
    }

    /// The days in this set or in `other`.
    pub fn union(self, other: AltSpeedDay) -> (d: AltSpeedDay)
        ensures
            d.spec_bits() == self.spec_bits() | other.spec_bits(),
    {
        AltSpeedDay { bits: self.bits | other.bits }
    }

    /// The days in both this set and `other`.
    pub fn intersection(self, other: AltSpeedDay) -> (d: AltSpeedDay)
        ensures
            d.spec_bits() == self.spec_bits() & other.spec_bits(),
    {
        AltSpeedDay { bits: self.bits & other.bits }
    }

    /// The JSON number of this set: its bits.
    pub fn to_json(&self) -> (s: String)
        ensures
            s@ == int_text(self.spec_bits() as int),
    {
        u64_json(self.bits as u64)
    }
}

impl std::ops::BitOr for AltSpeedDay {
    type Output = AltSpeedDay;

    fn bitor(self, rhs: AltSpeedDay) -> (d: AltSpeedDay)
        ensures
            d.spec_bits() == self.spec_bits() | rhs.spec_bits(),
    {
        AltSpeedDay { bits: self.bits | rhs.bits }
    }
}

impl BitOrSpecImpl for AltSpeedDay {
    open spec fn obeys_bitor_spec() -> bool {
        true
    }

    open spec fn bitor_req(self, rhs: AltSpeedDay) -> bool {
        true
    }

    closed spec fn bitor_spec(self, rhs: AltSpeedDay) -> AltSpeedDay {
        AltSpeedDay { bits: self.bits | rhs.bits }
    }
}

/// The number of minutes in a day.
pub const MINUTES_PER_DAY: u16 = 1440;

/// A time of day, as a number of minutes after midnight. Values of a day or more are
/// wrapped into the day when the time is sent.
#[derive(Debug, Clone, Copy, PartialEq, Eq, Hash, PartialOrd, Ord)]
pub struct MinutesAfterMidnight(pub u16);

impl MinutesAfterMidnight {
    /// The minute of the day that this value stands for.
    pub open spec fn spec_minute(self) -> int {
        self.0 as int % MINUTES_PER_DAY as int
    }

    /// The minute of the day that this value stands for, in `0..1440`.
    pub fn minute(&self) -> (m: u16)
        ensures
            m == self.spec_minute(),
            m < MINUTES_PER_DAY,
    {
        self.0 % MINUTES_PER_DAY
    }

    /// The JSON number of this time: the minute of the day.
    pub fn to_json(&self) -> (s: String)
        ensures
            s@ == int_text(self.spec_minute()),
    {
        u64_json(self.minute() as u64)
    }
}


/// The error of `url::Url::parse`, carried through without being read.
#[verifier::external_type_specification]
#[verifier::external_body]
pub struct ExUrlParseError(url::ParseError);

/// What `url::Url::parse` makes of `input`: the serialization of the parsed URL, or
/// nothing when the input is not a valid absolute URL.
pub uninterp spec fn url_serialization(input: Seq<char>) -> Option<Seq<char>>;

/// Trusted: `url::Url::parse` followed by `url::Url::as_str`. The contract claims that the
/// call succeeds exactly when `url_serialization` has a value for the input and that the
/// text returned is that value; it says nothing more of how URLs are normalized.
#[verifier::external_body]
fn parse_url_text(input: &str) -> (res: Result<String, url::ParseError>)
    ensures
        res is Ok <==> url_serialization(input@) is Some,
        res matches Ok(s) ==> url_serialization(input@) == Some(s@),
{
    match url::Url::parse(input) {
        Ok(u) => Ok(String::from(u.as_str())),
        Err(e) => Err(e),
    }
}

/// A URL that could not be parsed, with the parser's reason.
#[derive(Debug)]
pub struct UrlParseError {
    pub reason: url::ParseError,
}

/// An absolute URL, such as a tracker's announce URL, held in its serialized form.
#[derive(Debug, PartialEq, Eq, Hash)]
pub struct Url {
    serialization: String,
}

impl Url {
    /// The serialization of this URL.
    pub closed spec fn spec_text(self) -> Seq<char> {
        self.serialization@
    }

    /// Parses an absolute URL.
    pub fn parse(input: &str) -> (r: Result<Url, UrlParseError>)
        ensures
            r is Ok <==> url_serialization(input@) is Some,
            r matches Ok(u) ==> url_serialization(input@) == Some(u.spec_text()),
    {
        Url::from_parse(parse_url_text(input))
    }

    /// The URL for the result of a parse: the serialization the parser gave, or its error.
    pub fn from_parse(parsed: Result<String, url::ParseError>) -> (r: Result<Url, UrlParseError>)
        ensures
            match parsed {
                Ok(s) => r matches Ok(u) && u.spec_text() == s@,
                Err(e) => r matches Err(err) && err.reason == e,
            },
    {
        match parsed {
            Ok(s) => Ok(Url { serialization: s }),
            Err(e) => Err(UrlParseError { reason: e }),
        }
    }

    /// The serialization of this URL.
    pub fn as_str(&self) -> (s: &str)
        ensures
            s@ == self.spec_text(),
    {
        self.serialization.as_str()
    }

    /// The JSON string of this URL.
    pub fn to_json(&self) -> (s: String)
        ensures
            s@ == string_text(self.spec_text()),
    {
        string_json(self.serialization.as_str())
    }
}

impl Clone for Url {
    fn clone(&self) -> (u: Url)
        ensures
            u == *self,
    {
        Url { serialization: self.serialization.clone() }
    }
}

/// The JSON array of the URLs in `urls`.
pub open spec fn urls_text(urls: Seq<Url>) -> Seq<char> {
    array_text(urls.map_values(|u: Url| string_text(u.spec_text())))
}

/// The JSON array of the URLs in `urls`.
pub fn urls_json(urls: &Vec<Url>) -> (s: String)
    ensures
        s@ == urls_text(urls@),
{
    let mut a = JsonArray::new();
    let mut i: usize = 0;
    while i < urls.len()
        invariant
            i <= urls.len(),
            a.wf(),
            a.items() == urls@.take(i as int).map_values(|u: Url| string_text(u.spec_text())),
        decreases urls.len() - i,
    {
        let t = urls[i].to_json();
        a.push(t.as_str());
        assert(urls@.take(i + 1).map_values(|u: Url| string_text(u.spec_text())) =~= urls@.take(
            i as int,
        ).map_values(|u: Url| string_text(u.spec_text())).push(
            string_text(urls@[i as int].spec_text()),
        ));
        i = i + 1;
    }
    assert(urls@.take(urls.len() as int) =~= urls@);
    a.finish()
}

/// The announce URLs of one tier, each followed by a line break.
pub open spec fn tier_text(urls: Seq<Url>) -> Seq<char>
    decreases urls.len(),
{
    if urls.len() == 0 {
        Seq::empty()
    } else {
        tier_text(urls.drop_last()) + urls.last().spec_text() + seq!['\n']
    }
}

/// Tiers of announce URLs, one URL per line and a blank line between tiers.
pub open spec fn tiers_text(tiers: Seq<Seq<Url>>) -> Seq<char>
    decreases tiers.len(),
{
    if tiers.len() == 0 {
        Seq::empty()
    } else if tiers.len() == 1 {
        tier_text(tiers[0])
    } else {
        tiers_text(tiers.drop_last()) + seq!['\n'] + tier_text(tiers.last())
    }
}

/// Announce URLs grouped in tiers.
#[derive(Debug, Clone, PartialEq)]
pub struct TrackerList(pub Vec<Vec<Url>>);

impl TrackerList {
    /// The tiers of this list.
    pub open spec fn spec_tiers(self) -> Seq<Seq<Url>> {
        self.0@.map_values(|t: Vec<Url>| t@)
    }

    /// The text of this list: one URL per line and a blank line between tiers.
    pub fn to_text(&self) -> (s: String)
        ensures
            s@ == tiers_text(self.spec_tiers()),
    {
        let mut s = String::new();
        let mut i: usize = 0;
        while i < self.0.len()
            invariant
                i <= self.0.len(),
                s@ == tiers_text(self.spec_tiers().take(i as int)),
            decreases self.0.len() - i,
        {
            let ghost before = s@;
            if i > 0 {
                push_char(&mut s, '\n');
            }
            let tier = &self.0[i];
            let ghost mid = s@;
            let mut j: usize = 0;
            while j < tier.len()
                invariant
                    j <= tier.len(),
                    s@ == mid + tier_text(tier@.take(j as int)),
                decreases tier.len() - j,
            {
                s.append(tier[j].as_str());
                push_char(&mut s, '\n');
                assert(tier@.take(j + 1).drop_last() =~= tier@.take(j as int));
                j = j + 1;
            }
            assert(tier@.take(tier.len() as int) =~= tier@);
            let ghost tiers = self.spec_tiers();
            assert(tiers.take(i + 1).drop_last() =~= tiers.take(i as int));
            assert(tiers.take(i + 1).last() == tier@);
            if i == 0 {
                assert(tiers.take(1) =~= seq![tier@]);
            }
            i = i + 1;
        }
        assert(self.spec_tiers().take(self.0.len() as int) =~= self.spec_tiers());
        s
    }

    /// The JSON string of this list.
    pub fn to_json(&self) -> (s: String)
        ensures
            s@ == string_text(tiers_text(self.spec_tiers())),
    {
        let t = self.to_text();
        string_json(t.as_str())
    }
}

impl From<Vec<Vec<Url>>> for TrackerList {
    fn from(tiers: Vec<Vec<Url>>) -> (l: TrackerList)
        ensures
            l == TrackerList(tiers),
    {
        TrackerList(tiers)
    }
}

impl FromSpecImpl<Vec<Vec<Url>>> for TrackerList {
    open spec fn obeys_from_spec() -> bool {
        true
    }

    open spec fn from_spec(v: Vec<Vec<Url>>) -> TrackerList {
        TrackerList(v)
    }
}

/// The id of a tracker of a torrent.
pub type TrackerId = u32;

/// A seeding ratio, held as the JSON number that it is sent as, such as `2.25`.
#[derive(Debug, PartialEq)]
pub struct RatioLimit {
    text: String,
}

impl RatioLimit {
    #[verifier::type_invariant]
    spec fn is_number(self) -> bool {
        is_json_number(self.text@)
    }

    /// The JSON number text of this ratio.
    pub closed spec fn spec_text(self) -> Seq<char> {
        self.text@
    }

    /// The ratio written as the JSON number `text`, or nothing when `text` is no JSON number.
    pub fn from_json_number(text: String) -> (r: Option<RatioLimit>)
        ensures
            r is Some <==> is_json_number(text@),
            r matches Some(v) ==> v.spec_text() == text@,
    {
        if json_number(text.as_str()) {
            Some(RatioLimit { text })
        } else {
            None
        }
    }

    /// The JSON number text of this ratio.
    pub fn as_str(&self) -> (s: &str)
        ensures
            s@ == self.spec_text(),
            is_json_number(s@),
    {
        proof {
            use_type_invariant(self);
        }
        self.text.as_str()
    }
}

impl Clone for RatioLimit {
    fn clone(&self) -> (r: RatioLimit)
        ensures
            r == *self,
    {
        proof {
            use_type_invariant(self);
        }
        RatioLimit { text: self.text.clone() }
    }
}


/// The JSON text of an optional `Priority`.
pub open spec fn opt_priority_text(o: Option<Priority>) -> Option<Seq<char>> {
    match o {
        Some(v) => Some(int_text(v.spec_value())),
        None => None,
    }
}

/// The JSON text of an optional `Priority`.
pub fn opt_priority_json(o: Option<Priority>) -> (r: Option<String>)
    ensures
        opt_view(r) == opt_priority_text(o),
{
    match o {
        Some(v) => Some(v.to_json()),
        None => None,
    }
}

/// The JSON text of an optional `IdleMode`.
pub open spec fn opt_idle_mode_text(o: Option<IdleMode>) -> Option<Seq<char>> {
    match o {
        Some(v) => Some(int_text(v.spec_value())),
        None => None,
    }
}

/// The JSON text of an optional `IdleMode`.
pub fn opt_idle_mode_json(o: Option<IdleMode>) -> (r: Option<String>)
    ensures
        opt_view(r) == opt_idle_mode_text(o),
{
    match o {
        Some(v) => Some(v.to_json()),
        None => None,
    }
}

/// The JSON text of an optional `RatioMode`.
pub open spec fn opt_ratio_mode_text(o: Option<RatioMode>) -> Option<Seq<char>> {
    match o {
        Some(v) => Some(int_text(v.spec_value())),
        None => None,
    }
}

/// The JSON text of an optional `RatioMode`.
pub fn opt_ratio_mode_json(o: Option<RatioMode>) -> (r: Option<String>)
    ensures
        opt_view(r) == opt_ratio_mode_text(o),
{
    match o {
        Some(v) => Some(v.to_json()),
        None => None,
    }
}

/// The JSON text of an optional `MinutesAfterMidnight`.
pub open spec fn opt_minutes_text(o: Option<MinutesAfterMidnight>) -> Option<Seq<char>> {
    match o {
        Some(v) => Some(int_text(v.spec_minute())),
        None => None,
    }
}

/// The JSON text of an optional `MinutesAfterMidnight`.
pub fn opt_minutes_json(o: Option<MinutesAfterMidnight>) -> (r: Option<String>)
    ensures
        opt_view(r) == opt_minutes_text(o),
{
    match o {
        Some(v) => Some(v.to_json()),
        None => None,
    }
}

/// The JSON text of an optional `AltSpeedDay`.
pub open spec fn opt_alt_speed_day_text(o: Option<AltSpeedDay>) -> Option<Seq<char>> {
    match o {
        Some(v) => Some(int_text(v.spec_bits() as int)),
        None => None,
    }
}

/// The JSON text of an optional `AltSpeedDay`.
pub fn opt_alt_speed_day_json(o: Option<AltSpeedDay>) -> (r: Option<String>)
    ensures
        opt_view(r) == opt_alt_speed_day_text(o),
{
    match o {
        Some(v) => Some(v.to_json()),
        None => None,
    }
}

/// The JSON text of an optional `IpProtocol`.
pub open spec fn opt_ip_protocol_text(o: Option<IpProtocol>) -> Option<Seq<char>> {
    match o {
        Some(v) => Some(string_text(v.spec_name())),
        None => None,
    }
}

/// The JSON text of an optional `IpProtocol`.
pub fn opt_ip_protocol_json(o: Option<IpProtocol>) -> (r: Option<String>)
    ensures
        opt_view(r) == opt_ip_protocol_text(o),
{
    match o {
        Some(v) => Some(string_json(v.name())),
        None => None,
    }
}

/// The JSON text of an optional `Vec<Id>`.
pub open spec fn opt_ids_text(o: Option<Vec<Id>>) -> Option<Seq<char>> {
    match o {
        Some(v) => Some(ids_text(v@)),
        None => None,
    }
}

/// The JSON text of an optional `Vec<Id>`.
pub fn opt_ids_json(o: &Option<Vec<Id>>) -> (r: Option<String>)
    ensures
        opt_view(r) == opt_ids_text(*o),
{
    match o {
        Some(v) => Some(ids_json(v)),
        None => None,
    }
}

/// The JSON text of an optional `Vec<Transport>`.
pub open spec fn opt_transports_text(o: Option<Vec<Transport>>) -> Option<Seq<char>> {
    match o {
        Some(v) => Some(transports_text(v@)),
        None => None,
    }
}

/// The JSON text of an optional `Vec<Transport>`.
pub fn opt_transports_json(o: &Option<Vec<Transport>>) -> (r: Option<String>)
    ensures
        opt_view(r) == opt_transports_text(*o),
{
    match o {
        Some(v) => Some(transports_json(v)),
        None => None,
    }
}

/// The JSON text of an optional `Vec<Url>`.
pub open spec fn opt_urls_text(o: Option<Vec<Url>>) -> Option<Seq<char>> {
    match o {
        Some(v) => Some(urls_text(v@)),
        None => None,
    }
}

/// The JSON text of an optional `Vec<Url>`.
pub fn opt_urls_json(o: &Option<Vec<Url>>) -> (r: Option<String>)
    ensures
        opt_view(r) == opt_urls_text(*o),
{
    match o {
        Some(v) => Some(urls_json(v)),
        None => None,
    }
}

/// The JSON text of an optional `TrackerList`.
pub open spec fn opt_tracker_list_text(o: Option<TrackerList>) -> Option<Seq<char>> {
    match o {
        Some(v) => Some(string_text(tiers_text(v.spec_tiers()))),
        None => None,
    }
}

/// The JSON text of an optional `TrackerList`.
pub fn opt_tracker_list_json(o: &Option<TrackerList>) -> (r: Option<String>)
    ensures
        opt_view(r) == opt_tracker_list_text(*o),
{
    match o {
        Some(v) => Some(v.to_json()),
        None => None,
    }
}

/// The JSON text of an optional `RatioLimit`.
pub open spec fn opt_ratio_text(o: Option<RatioLimit>) -> Option<Seq<char>> {
    match o {
        Some(v) => Some(v.spec_text()),
        None => None,
    }
}

/// The JSON text of an optional `RatioLimit`.
pub fn opt_ratio_json(o: &Option<RatioLimit>) -> (r: Option<String>)
    ensures
        opt_view(r) == opt_ratio_text(*o),
{
    match o {
        Some(v) => Some(String::from_str(v.as_str())),
        None => None,
    }
}

/// The JSON text of an optional encryption preference, in the older or the JSON-RPC
/// vocabulary.
pub open spec fn opt_encryption_text(o: Option<Encryption>, compat: bool) -> Option<Seq<char>> {
    match o {
        Some(v) => Some(v.spec_json(compat)),
        None => None,
    }
}

/// The JSON text of an optional encryption preference.
pub fn opt_encryption_json(o: Option<Encryption>, compat: bool) -> (r: Option<String>)
    ensures
        opt_view(r) == opt_encryption_text(o, compat),
{
    match o {
        Some(v) => Some(v.to_json(compat)),
        None => None,
    }
}

/// The JSON array of numbers for a list of tracker ids.
pub open spec fn tracker_ids_text(v: Seq<TrackerId>) -> Seq<char> {
    array_text(v.map_values(|n: TrackerId| int_text(n as int)))
}

/// The JSON text of an optional list of tracker ids.
pub open spec fn opt_tracker_ids_text(o: Option<Vec<TrackerId>>) -> Option<Seq<char>> {
    match o {
        Some(v) => Some(tracker_ids_text(v@)),
        None => None,
    }
}

/// The JSON text of an optional list of tracker ids.
pub fn opt_tracker_ids_json(o: &Option<Vec<TrackerId>>) -> (r: Option<String>)
    ensures
        opt_view(r) == opt_tracker_ids_text(*o),
{
    match o {
        Some(v) => {
            let mut a = JsonArray::new();
            let mut i: usize = 0;
            while i < v.len()
                invariant
                    i <= v.len(),
                    a.wf(),
                    a.items() == v@.take(i as int).map_values(|n: TrackerId| int_text(n as int)),
                decreases v.len() - i,
            {
                let t = u64_json(v[i] as u64);
                a.push(t.as_str());
                assert(v@.take(i + 1).map_values(|n: TrackerId| int_text(n as int)) =~= v@.take(
                    i as int,
                ).map_values(|n: TrackerId| int_text(n as int)).push(int_text(v@[i as int] as int)));
                i = i + 1;
            }
            assert(v@.take(v.len() as int) =~= v@);
            Some(a.finish())
        },
        None => None,
    }
}

} // verus!
