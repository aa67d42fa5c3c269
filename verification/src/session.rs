//! The decisions of one rpc call: how often a request may be sent, which protocol it is
//! sent in, what a refused request (HTTP 409) teaches the client, and how a JSON-RPC answer
//! is taken. Sending and receiving are left to the caller, which hands the headers and the
//! answers back.
use vstd::prelude::*;
use crate::json::push_char;
use crate::json_rpc::{JsonRpcId, JsonRpcResponse, JSON_RPC_VERSION_2_0};
use crate::types::request::RpcRequest;
use crate::types::response::{response_body_answers, response_tag, RpcResponse, RpcResponseArgument};
use crate::types::Tag;

verus! {

/// How many times one call sends its request at most.
pub const MAX_RETRIES: usize = 5;

/// Why a call failed in the client itself.
#[derive(Debug, Clone, PartialEq)]
pub enum TransError {
    /// The server refused the request as often as a call may send it.
    MaxRetriesReached,
    /// A refusal came without a session id.
    NoSessionIdReceived,
    /// A JSON-RPC answer named another protocol version than 2.0.
    UnhandledJsonRpcVersion(String),
    /// A header held something else than visible ASCII characters.
    InvalidHeaderValue,
    /// The rpc version header was no semantic version; the text says why.
    InvalidRpcVersion(String),
}

impl TransError {
    /// The message of this error.
    pub fn to_string(&self) -> (s: String)
        ensures
            s@ == match *self {
                TransError::MaxRetriesReached => "Max retries reached!"@,
                TransError::NoSessionIdReceived => "No session id received!"@,
                TransError::UnhandledJsonRpcVersion(v) => "Unhandled JSON-RPC version: "@ + v@,
                TransError::InvalidHeaderValue => "failed to convert header to a str"@,
                TransError::InvalidRpcVersion(m) => m@,
            },
    {
        match self {
            TransError::MaxRetriesReached => "Max retries reached!".to_string(),
            TransError::NoSessionIdReceived => "No session id received!".to_string(),
            TransError::UnhandledJsonRpcVersion(v) => {
                let mut s = "Unhandled JSON-RPC version: ".to_string();
                s.append(v.as_str());
                s
            },
            TransError::InvalidHeaderValue => "failed to convert header to a str".to_string(),
            TransError::InvalidRpcVersion(m) => m.clone(),
        }
    }
}

/// Whether a header byte is a visible ASCII character or a tab.
pub open spec fn is_visible_ascii(b: u8) -> bool {
    (32 <= b && b < 127) || b == 9
}

/// Whether every byte of a header is a visible ASCII character or a tab.
pub open spec fn all_visible_ascii(bytes: Seq<u8>) -> bool {
    forall|i: int| 0 <= i < bytes.len() ==> is_visible_ascii(#[trigger] bytes[i])
}

/// The text of a header of ASCII bytes: one character per byte.
pub open spec fn header_chars(bytes: Seq<u8>) -> Seq<char> {
    bytes.map_values(|b: u8| b as char)
}

/// The text of a header, when it holds visible ASCII characters only (as the `http` crate
/// reads a header as text).
pub fn header_text(bytes: &[u8]) -> (r: Option<String>)
    ensures
        r is Some <==> all_visible_ascii(bytes@),
        r matches Some(s) ==> s@ == header_chars(bytes@),
{
    let mut out = String::new();
    let mut i: usize = 0;
    while i < bytes.len()
        invariant
            i <= bytes@.len(),
            forall|j: int| 0 <= j < i ==> is_visible_ascii(#[trigger] bytes@[j]),
            out@ == header_chars(bytes@.take(i as int)),
        decreases bytes@.len() - i,
    {
        let b = bytes[i];
        if !((32 <= b && b < 127) || b == 9) {
            return None;
        }
        push_char(&mut out, b as char);
        assert(header_chars(bytes@.take(i + 1)) =~= header_chars(bytes@.take(i as int)).push(
            b as char,
        ));
        i = i + 1;
    }
    assert(bytes@.take(i as int) =~= bytes@);
    Some(out)
}

/// The parts of a semantic version: major, minor and patch numbers, pre-release and build
/// metadata (empty where the version has none).
pub type SemverParts = (u64, u64, u64, Seq<char>, Seq<char>);

/// What `semver::Version::parse` makes of a text: the parts of the version, or the message
/// of its error.
pub uninterp spec fn semver_parse(text: Seq<char>) -> Result<(u64, u64, u64, Seq<char>, Seq<char>), Seq<char>>;

/// Parses a semantic version.
///
/// Trusted: `semver::Version::parse`; the contract only ties the result, read as its parts
/// or as the message of the error, to the name `semver_parse` of the text.
#[verifier::external_body]
fn parse_version_parts(text: &str) -> (r: Result<(u64, u64, u64, String, String), String>)
    ensures
        semver_parse(text@) == match r {
            Ok((major, minor, patch, pre, build)) => Ok((major, minor, patch, pre@, build@)),
            Err(m) => Err(m@),
        },
{
    match semver::Version::parse(text) {
        Ok(v) => Ok((v.major, v.minor, v.patch, v.pre.as_str().to_string(), v.build.as_str().to_string())),
        Err(e) => Err(e.to_string()),
    }
}

/// The rpc version of a server, a semantic version.
#[derive(Debug, Clone, PartialEq, Eq)]
pub struct RpcSemver {
    pub major: u64,
    pub minor: u64,
    pub patch: u64,
    pub pre: String,
    pub build: String,
}

impl View for RpcSemver {
    type V = SemverParts;

    open spec fn view(&self) -> SemverParts {
        (self.major, self.minor, self.patch, self.pre@, self.build@)
    }
}

/// Whether a version with these parts is 6.0.0 or later, as semantic versions are ordered:
/// by the numbers, then a version without pre-release above one with it; build metadata
/// never puts a version below one without it.
pub open spec fn speaks_json_rpc(v: SemverParts) -> bool {
    ||| v.0 > 6
    ||| v.0 == 6 && (v.1 > 0 || v.2 > 0 || v.3.len() == 0)
}

impl RpcSemver {
    /// The version for the result of a parse: the parts as they came, or the error with the
    /// parser's message.
    pub fn from_parse(parsed: Result<(u64, u64, u64, String, String), String>) -> (r: Result<
        RpcSemver,
        TransError,
    >)
        ensures
            match parsed {
                Ok((major, minor, patch, pre, build)) => r matches Ok(v) && v@ == (
                    major,
                    minor,
                    patch,
                    pre@,
                    build@,
                ),
                Err(m) => r == Err::<RpcSemver, TransError>(TransError::InvalidRpcVersion(m)),
            },
    {
        match parsed {
            Ok((major, minor, patch, pre, build)) => Ok(RpcSemver { major, minor, patch, pre, build }),
            Err(m) => Err(TransError::InvalidRpcVersion(m)),
        }
    }

    /// Parses the rpc version of a server.
    pub fn parse(text: &str) -> (r: Result<RpcSemver, TransError>)
        ensures
            match semver_parse(text@) {
                Ok(parts) => r matches Ok(v) && v@ == parts,
                Err(m) => r matches Err(TransError::InvalidRpcVersion(e)) && e@ == m,
            },
    {
        RpcSemver::from_parse(parse_version_parts(text))
    }

    /// Whether a server of this version is sent JSON-RPC requests: whether the version is
    /// 6.0.0 or later.
    pub fn speaks_json_rpc(&self) -> (b: bool)
        ensures
            b == speaks_json_rpc(self@),
    {
        self.major > 6 || (self.major == 6 && (self.minor > 0 || self.patch > 0
            || self.pre.unicode_len() == 0))
    }
}

/// What the client knows of the server between requests: the session id to send, and the
/// rpc version the server reported.
#[derive(Debug, Clone)]
pub struct SessionState {
    pub session_id: Option<String>,
    pub semver: Option<RpcSemver>,
}

/// The parts of the version a session knows, if any.
pub open spec fn semver_view(v: Option<RpcSemver>) -> Option<SemverParts> {
    match v {
        Some(s) => Some(s@),
        None => None,
    }
}

/// How a refusal's session-id header `h` sets the session id from `before` to `after`, with
/// the result `r`: a readable id is taken; a missing or unreadable one fails and keeps the id.
pub open spec fn session_id_outcome(
    h: Option<Vec<u8>>,
    r: Result<(), TransError>,
    before: Option<String>,
    after: Option<String>,
) -> bool {
    match h {
        None => r == Err::<(), TransError>(TransError::NoSessionIdReceived) && after == before,
        Some(b) => if all_visible_ascii(b@) {
            &&& r is Ok
            &&& after matches Some(s)
            &&& s@ == header_chars(b@)
        } else {
            r == Err::<(), TransError>(TransError::InvalidHeaderValue) && after == before
        },
    }
}

impl SessionState {
    /// A client that knows neither a session id nor a version yet.
    pub fn new() -> (s: SessionState)
        ensures
            s.session_id is None,
            s.semver is None,
    {
        SessionState { session_id: None, semver: None }
    }

    /// Takes in a refusal (HTTP 409) by its session-id header alone, as a client that always
    /// speaks the older protocol does: the session id is read as `session_id_outcome` says,
    /// and the version is left as it is.
    pub fn learn_session_id(&mut self, session_header: Option<Vec<u8>>) -> (r: Result<(), TransError>)
        ensures
            final(self).semver == old(self).semver,
            session_id_outcome(session_header, r, old(self).session_id, final(self).session_id),
            r is Ok ==> {
                &&& session_header is Some
                &&& learn_step(*old(self), session_header->0@, *final(self))
            },
    {
        match session_header {
            None => Err(TransError::NoSessionIdReceived),
            Some(h) => match header_text(h.as_slice()) {
                Some(id) => {
                    self.session_id = Some(id);
                    Ok(())
                },
                None => Err(TransError::InvalidHeaderValue),
            },
        }
    }

    /// The session-id header that the next send carries: the session id last received, if
    /// any.
    pub fn session_header(&self) -> (h: Option<String>)
        ensures
            h == self.session_id,
    {
        self.session_id.clone()
    }

    /// Takes in a refusal (HTTP 409) with its rpc-version header and its session-id header.
    /// The version is read first: an unreadable version header fails the call and teaches
    /// nothing; otherwise the version is learnt (and forgotten when the header is absent),
    /// and then the session id is read as `session_id_outcome` says.
    pub fn on_conflict(&mut self, version_header: Option<Vec<u8>>, session_header: Option<Vec<u8>>)
        -> (r: Result<(), TransError>)
        ensures
            match version_header {
                None => {
                    &&& final(self).semver is None
                    &&& session_id_outcome(session_header, r, old(self).session_id, final(self).session_id)
                },
                Some(h) => if !all_visible_ascii(h@) {
                    r == Err::<(), TransError>(TransError::InvalidHeaderValue) && *final(self) == *old(self)
                } else {
                    match semver_parse(header_chars(h@)) {
                        Ok(parts) => {
                            &&& semver_view(final(self).semver) == Some(parts)
                            &&& session_id_outcome(session_header, r, old(self).session_id, final(self).session_id)
                        },
                        Err(m) => {
                            &&& r matches Err(TransError::InvalidRpcVersion(e))
                            &&& e@ == m
                            &&& *final(self) == *old(self)
                        },
                    }
                },
            },
        r is Ok ==> {
                &&& session_header is Some
                &&& conflict_step(
                    *old(self),
                    bytes_view(version_header),
                    session_header->0@,
                    *final(self),
                )
            },
    {
        let semver = match version_header {
            None => None,
            Some(h) => {
                let text = match header_text(h.as_slice()) {
                    Some(t) => t,
                    None => return Err(TransError::InvalidHeaderValue),
                };
                match RpcSemver::parse(text.as_str()) {
                    Ok(v) => Some(v),
                    Err(e) => return Err(e),
                }
            },
        };
        self.semver = semver;
        match session_header {
            None => Err(TransError::NoSessionIdReceived),
            Some(h) => match header_text(h.as_slice()) {
                Some(id) => {
                    self.session_id = Some(id);
                    Ok(())
                },
                None => Err(TransError::InvalidHeaderValue),
            },
        }
    }
}

/// Whether `after` is `before` sent in the protocol that `json_rpc` chooses: JSON-RPC 2.0
/// when it holds, and the older protocol otherwise.
pub open spec fn sent_as(before: RpcRequest, after: RpcRequest, json_rpc: bool) -> bool {
    &&& after.method == before.method
    &&& after.arguments == before.arguments
    &&& after.tag == before.tag
    &&& if json_rpc {
        after.jsonrpc matches Some(v) && v@ == JSON_RPC_VERSION_2_0@
    } else {
        after.jsonrpc is None
    }
}

/// Counts the sends of one call.
pub struct CallAttempts {
    remaining: usize,
}

impl CallAttempts {
    #[verifier::type_invariant]
    spec fn at_most_max(self) -> bool {
        self.remaining <= MAX_RETRIES
    }

    /// How many times the request has been sent in this call.
    pub closed spec fn sent(self) -> nat {
        (MAX_RETRIES - self.remaining) as nat
    }

    /// A call that has not sent its request yet.
    pub fn new() -> (a: CallAttempts)
        ensures
            a.sent() == 0,
    {
        CallAttempts { remaining: MAX_RETRIES }
    }

    /// Prepares the next send of `request`: fails once the request has been sent
    /// `MAX_RETRIES` times; otherwise counts the send and, when the server's version is
    /// known, sends the request in JSON-RPC exactly when the version is 6.0.0 or later.
    pub fn begin(&mut self, session: &SessionState, request: &mut RpcRequest) -> (r: Result<(), TransError>)
        ensures
            final(self).sent() <= MAX_RETRIES,
            old(self).sent() >= MAX_RETRIES ==> {
                &&& r == Err::<(), TransError>(TransError::MaxRetriesReached)
                &&& final(self).sent() == old(self).sent()
                &&& *final(request) == *old(request)
            },
            old(self).sent() < MAX_RETRIES ==> {
                &&& r is Ok
                &&& final(self).sent() == old(self).sent() + 1
                &&& match session.semver {
                    Some(v) => sent_as(*old(request), *final(request), speaks_json_rpc(v@)),
                    None => *final(request) == *old(request),
                }
            },
            r is Ok ==> begin_step(
                *session,
                old(self).sent(),
                final(self).sent(),
                *old(request),
                *final(request),
            ),
    {
        proof {
            use_type_invariant(&*self);
        }
        if self.remaining == 0 {
            return Err(TransError::MaxRetriesReached);
        }
        self.remaining = self.remaining - 1;
        match &session.semver {
            Some(v) => {
                if v.speaks_json_rpc() {
                    request.jsonrpc = Some(JSON_RPC_VERSION_2_0.to_string());
                } else {
                    request.jsonrpc = None;
                }
            },
            None => {},
        }
        Ok(())
    }
}

/// The tag of the answer to a request sent with the tag `sent`: an untagged request is
/// answered without a tag, even though its JSON-RPC id (0) comes back; a tagged one is
/// answered with the tag its id comes back as.
pub open spec fn answer_tag(sent: Option<Tag>, id: Option<JsonRpcId>) -> Option<Tag> {
    match sent {
        None => None,
        Some(_) => response_tag(id),
    }
}

/// Takes a JSON-RPC answer to a request sent with the tag `sent`: one that names another
/// protocol version than 2.0 fails the call; any other becomes the response of the older
/// form, which carries a tag only when the request did.
pub fn accept_json_rpc<T: RpcResponseArgument>(resp: JsonRpcResponse<T>, sent: Option<Tag>) -> (r:
    Result<RpcResponse<T>, TransError>)
    ensures
        resp.jsonrpc@ != JSON_RPC_VERSION_2_0@ ==> {
            &&& r matches Err(TransError::UnhandledJsonRpcVersion(v))
            &&& v@ == resp.jsonrpc@
        },
        resp.jsonrpc@ == JSON_RPC_VERSION_2_0@ ==> {
            &&& r matches Ok(x)
            &&& response_body_answers(resp, x)
            &&& x.tag == answer_tag(sent, resp.id)
        },
{
    if resp.jsonrpc != JSON_RPC_VERSION_2_0.to_string() {
        return Err(TransError::UnhandledJsonRpcVersion(resp.jsonrpc));
    }
    let mut x = RpcResponse::from_json_rpc(resp);
    if sent.is_none() {
        x.tag = None;
    }
    Ok(x)
}

/// Whether the session id `id` is the text of the session-id header `h`.
pub open spec fn carries_id_of(id: Option<String>, h: Seq<u8>) -> bool {
    &&& id matches Some(s)
    &&& s@ == header_chars(h)
}

/// The bytes of an optional header.
pub open spec fn bytes_view(h: Option<Vec<u8>>) -> Option<Seq<u8>> {
    match h {
        Some(b) => Some(b@),
        None => None,
    }
}

/// What one successful `begin` does with the session `session`: it counts the send, and the
/// request becomes the body that is sent, in the protocol the session's version chooses.
pub open spec fn begin_step(
    session: SessionState,
    sent_before: nat,
    sent_after: nat,
    before: RpcRequest,
    after: RpcRequest,
) -> bool {
    &&& sent_before < MAX_RETRIES
    &&& sent_after == sent_before + 1
    &&& match session.semver {
        Some(v) => sent_as(before, after, speaks_json_rpc(v@)),
        None => after == before,
    }
}

/// What a refusal with the readable session-id header `h` does when it is taken in by its
/// session id alone: the id becomes the header's text, the version stays.
pub open spec fn learn_step(before: SessionState, h: Seq<u8>, after: SessionState) -> bool {
    &&& all_visible_ascii(h)
    &&& after.semver == before.semver
    &&& after.session_id matches Some(s)
    &&& s@ == header_chars(h)
}

/// What a refusal with the version header `version` and the readable session-id header `h`
/// does when it is taken in whole: the version becomes the one the header names (none when
/// there is no header), and the id becomes the header's text.
pub open spec fn conflict_step(
    before: SessionState,
    version: Option<Seq<u8>>,
    h: Seq<u8>,
    after: SessionState,
) -> bool {
    &&& match version {
        None => after.semver is None,
        Some(v) => {
            &&& all_visible_ascii(v)
            &&& semver_parse(header_chars(v)) is Ok
            &&& semver_view(after.semver) == Some(semver_parse(header_chars(v))->Ok_0)
        },
    }
    &&& all_visible_ascii(h)
    &&& after.session_id matches Some(s)
    &&& s@ == header_chars(h)
}

/// The `i`-th send of a run: `begin` turned `requests[i]` into the body `requests[i + 1]`
/// with the session `sessions[i]`, counting from `sent[i]` to `sent[i + 1]`.
pub open spec fn send_at(
    sessions: Seq<SessionState>,
    sent: Seq<nat>,
    requests: Seq<RpcRequest>,
    i: int,
) -> bool {
    begin_step(sessions[i], sent[i], sent[i + 1], requests[i], requests[i + 1])
}

/// The `i`-th refusal of a run, taken in by its session id alone.
pub open spec fn learn_at(sessions: Seq<SessionState>, headers: Seq<Seq<u8>>, i: int) -> bool {
    learn_step(sessions[i], headers[i], sessions[i + 1])
}

/// The `i`-th refusal of a run, taken in whole.
pub open spec fn conflict_at(
    sessions: Seq<SessionState>,
    versions: Seq<Option<Seq<u8>>>,
    headers: Seq<Seq<u8>>,
    i: int,
) -> bool {
    conflict_step(sessions[i], versions[i], headers[i], sessions[i + 1])
}

/// Whether the sequences describe the sends of one call: `k` sends, each made by `begin`
/// from a fresh count, where `sessions[i]` is the session of send `i`, `requests[0]` the
/// request given to the call and `requests[i + 1]` the body of send `i`.
pub open spec fn sends_of_call(
    sessions: Seq<SessionState>,
    sent: Seq<nat>,
    requests: Seq<RpcRequest>,
) -> bool {
    &&& sessions.len() >= 1
    &&& sent.len() == sessions.len() + 1
    &&& requests.len() == sessions.len() + 1
    &&& sent[0] == 0
    &&& forall|i: int| 0 <= i < sessions.len() ==> #[trigger] send_at(sessions, sent, requests, i)
}

/// A call is sent `k` times, no more than `MAX_RETRIES`, and the count after send `i` is
/// `i + 1`.
proof fn lemma_send_count(sessions: Seq<SessionState>, sent: Seq<nat>, requests: Seq<RpcRequest>)
    requires
        sends_of_call(sessions, sent, requests),
    ensures
        forall|i: int| 0 <= i < sent.len() ==> #[trigger] sent[i] == i,
        sessions.len() <= MAX_RETRIES,
{
    let k = sessions.len() as int;
    assert forall|i: int| 0 <= i < sent.len() implies #[trigger] sent[i] == i by {
        lemma_count_up_to(sessions, sent, requests, i);
    }
    assert(send_at(sessions, sent, requests, k - 1));
}

proof fn lemma_count_up_to(sessions: Seq<SessionState>, sent: Seq<nat>, requests: Seq<RpcRequest>, n: int)
    requires
        sends_of_call(sessions, sent, requests),
        0 <= n < sent.len(),
    ensures
        sent[n] == n,
    decreases n,
{
    if n > 0 {
        lemma_count_up_to(sessions, sent, requests, n - 1);
        assert(send_at(sessions, sent, requests, n - 1));
    }
}

/// A call whose refusals are taken in by their session id alone, as the client that always
/// speaks the older protocol does (`learn_session_id`), over any run of refusals followed by
/// an answer: the request is sent no more than `MAX_RETRIES` times; the first send carries
/// the session id the client had, and each later send carries the id of the refusal before
/// it; the version never changes; and while no version of 6.0.0 or later is known (so always,
/// for a client that starts without one), every body is the request as given, in the older
/// protocol when it was given so.
pub proof fn lemma_call_learning_session_ids(
    sessions: Seq<SessionState>,
    sent: Seq<nat>,
    requests: Seq<RpcRequest>,
    headers: Seq<Seq<u8>>,
)
    requires
        sends_of_call(sessions, sent, requests),
        headers.len() == sessions.len() - 1,
        forall|i: int| 0 <= i < headers.len() ==> #[trigger] learn_at(sessions, headers, i),
    ensures
        sessions.len() <= MAX_RETRIES,
        forall|i: int| 0 <= i < sent.len() ==> #[trigger] sent[i] == i,
        forall|i: int|
            1 <= i < sessions.len() ==> carries_id_of((#[trigger] sessions[i]).session_id, headers[i - 1]),
        forall|i: int| 0 <= i < sessions.len() ==> (#[trigger] sessions[i]).semver == sessions[0].semver,
        (match sessions[0].semver {
            Some(v) => !speaks_json_rpc(v@),
            None => true,
        }) && requests[0].jsonrpc is None ==> forall|i: int|
            0 <= i < requests.len() ==> #[trigger] requests[i] == requests[0],
{
    lemma_send_count(sessions, sent, requests);
    assert forall|i: int| 0 <= i < sessions.len() implies (#[trigger] sessions[i]).semver
        == sessions[0].semver by {
        lemma_version_kept(sessions, headers, i);
    }
    assert forall|i: int|
        1 <= i < sessions.len() implies carries_id_of((#[trigger] sessions[i]).session_id, headers[i - 1]) by {
        assert(learn_at(sessions, headers, i - 1));
    }
    if (match sessions[0].semver {
        Some(v) => !speaks_json_rpc(v@),
        None => true,
    }) && requests[0].jsonrpc is None {
        assert forall|i: int| 0 <= i < requests.len() implies #[trigger] requests[i] == requests[0] by {
            lemma_body_kept(sessions, sent, requests, i);
        }
    }
}

proof fn lemma_version_kept(sessions: Seq<SessionState>, headers: Seq<Seq<u8>>, n: int)
    requires
        headers.len() == sessions.len() - 1,
        forall|i: int| 0 <= i < headers.len() ==> #[trigger] learn_at(sessions, headers, i),
        0 <= n < sessions.len(),
    ensures
        sessions[n].semver == sessions[0].semver,
    decreases n,
{
    if n > 0 {
        lemma_version_kept(sessions, headers, n - 1);
        assert(learn_at(sessions, headers, n - 1));
    }
}

/// While every session of the call knows no version of 6.0.0 or later, each body is the
/// request as given, which was in the older protocol.
proof fn lemma_body_kept(sessions: Seq<SessionState>, sent: Seq<nat>, requests: Seq<RpcRequest>, n: int)
    requires
        sends_of_call(sessions, sent, requests),
        forall|i: int|
            0 <= i < sessions.len() ==> match (#[trigger] sessions[i]).semver {
                Some(v) => !speaks_json_rpc(v@),
                None => true,
            },
        requests[0].jsonrpc is None,
        0 <= n < requests.len(),
    ensures
        requests[n] == requests[0],
    decreases n,
{
    if n > 0 {
        lemma_body_kept(sessions, sent, requests, n - 1);
        assert(send_at(sessions, sent, requests, n - 1));
        let _ = sessions[n - 1];
    }
}

/// A call whose refusals are taken in whole (`on_conflict`), over any run of refusals
/// followed by an answer: the request is sent no more than `MAX_RETRIES` times; each send
/// after a refusal carries that refusal's session id and runs with the version it named (none
/// when it named none); and when the client knew no version of 6.0.0 or later and no refusal
/// names one, every body is the request as given, in the older protocol when it was given so.
pub proof fn lemma_call_taking_refusals(
    sessions: Seq<SessionState>,
    sent: Seq<nat>,
    requests: Seq<RpcRequest>,
    versions: Seq<Option<Seq<u8>>>,
    headers: Seq<Seq<u8>>,
)
    requires
        sends_of_call(sessions, sent, requests),
        headers.len() == sessions.len() - 1,
        versions.len() == sessions.len() - 1,
        forall|i: int| 0 <= i < headers.len() ==> #[trigger] conflict_at(sessions, versions, headers, i),
    ensures
        sessions.len() <= MAX_RETRIES,
        forall|i: int| 0 <= i < sent.len() ==> #[trigger] sent[i] == i,
        forall|i: int|
            1 <= i < sessions.len() ==> carries_id_of((#[trigger] sessions[i]).session_id, headers[i - 1]),
        forall|i: int|
            1 <= i < sessions.len() ==> semver_view((#[trigger] sessions[i]).semver) == match versions[i - 1] {
                Some(v) => Some(semver_parse(header_chars(v))->Ok_0),
                None => None,
            },
        (match sessions[0].semver {
            Some(v) => !speaks_json_rpc(v@),
            None => true,
        }) && requests[0].jsonrpc is None && (forall|i: int|
            0 <= i < versions.len() ==> match #[trigger] versions[i] {
                Some(v) => !speaks_json_rpc(semver_parse(header_chars(v))->Ok_0),
                None => true,
            }) ==> forall|i: int| 0 <= i < requests.len() ==> #[trigger] requests[i] == requests[0],
{
    lemma_send_count(sessions, sent, requests);
    assert forall|i: int|
        1 <= i < sessions.len() implies carries_id_of((#[trigger] sessions[i]).session_id, headers[i - 1]) by {
        assert(conflict_at(sessions, versions, headers, i - 1));
    }
    assert forall|i: int|
        1 <= i < sessions.len() implies semver_view((#[trigger] sessions[i]).semver) == match versions[i - 1] {
            Some(v) => Some(semver_parse(header_chars(v))->Ok_0),
            None => None,
        } by {
        assert(conflict_at(sessions, versions, headers, i - 1));
    }
    if (match sessions[0].semver {
        Some(v) => !speaks_json_rpc(v@),
        None => true,
    }) && requests[0].jsonrpc is None && (forall|i: int|
        0 <= i < versions.len() ==> match #[trigger] versions[i] {
            Some(v) => !speaks_json_rpc(semver_parse(header_chars(v))->Ok_0),
            None => true,
        }) {
        assert forall|i: int| 0 <= i < sessions.len() implies match (#[trigger] sessions[i]).semver {
            Some(v) => !speaks_json_rpc(v@),
            None => true,
        } by {
            if i > 0 {
                assert(conflict_at(sessions, versions, headers, i - 1));
                let _ = versions[i - 1];
            }
        }
        assert forall|i: int| 0 <= i < requests.len() implies #[trigger] requests[i] == requests[0] by {
            lemma_body_kept(sessions, sent, requests, i);
        }
    }
}

/// Whether the numbers `v` (major, minor, patch) are at least `w`, compared in that order.
pub open spec fn numbers_at_least(v: (u64, u64, u64), w: (u64, u64, u64)) -> bool {
    ||| v.0 > w.0
    ||| v.0 == w.0 && v.1 > w.1
    ||| v.0 == w.0 && v.1 == w.1 && v.2 >= w.2
}

/// A server is sent JSON-RPC exactly when its version is 6.0.0 or later in the precedence
/// of semantic versions: a release (no pre-release) when its numbers are at least 6.0.0, a
/// pre-release when its numbers are above 6.0.0 (6.0.0-rc1 comes before 6.0.0), whatever its
/// build metadata. So a later version never loses JSON-RPC.
pub proof fn lemma_json_rpc_from_six(v: SemverParts, w: SemverParts)
    ensures
        v.3.len() == 0 ==> (speaks_json_rpc(v) <==> numbers_at_least((v.0, v.1, v.2), (6, 0, 0))),
        v.3.len() > 0 ==> (speaks_json_rpc(v) <==> (numbers_at_least((v.0, v.1, v.2), (6, 0, 0))
            && (v.0, v.1, v.2) != (6u64, 0u64, 0u64))),
        speaks_json_rpc(v) == speaks_json_rpc((v.0, v.1, v.2, v.3, w.4)),
        speaks_json_rpc(v) && numbers_at_least((w.0, w.1, w.2), (v.0, v.1, v.2)) && (w.0, w.1, w.2)
            != (v.0, v.1, v.2) ==> speaks_json_rpc(w),
        speaks_json_rpc(v) && (w.0, w.1, w.2) == (v.0, v.1, v.2) && w.3.len() == 0 ==> speaks_json_rpc(w),
{
}

} // verus!
