//! Arguments of torrent-set requests.
use vstd::prelude::*;
use vstd::std_specs::convert::FromSpecImpl;
use crate::json::{
    array_text, int_text, key, object_text, opt_bool_json, opt_bool_text, opt_string_json,
    opt_string_text, opt_strings_json, opt_strings_text, opt_u16_json, opt_u16_text,
    opt_u64_json, opt_u64_text, opt_usize_json, opt_usize_text, opt_usizes_json,
    opt_usizes_text, opt_view, pick, push_opt, string_text, u64_json, JsonArray, JsonObject,
};
use crate::types::request::torrent_add::copy_strs;
use crate::types::{
    opt_idle_mode_json, opt_idle_mode_text, opt_ids_json, opt_ids_text, opt_priority_json,
    opt_priority_text, opt_ratio_json, opt_ratio_mode_json, opt_ratio_mode_text, opt_ratio_text,
    opt_tracker_ids_json, opt_tracker_ids_text, opt_tracker_list_json, opt_tracker_list_text,
    opt_urls_json, opt_urls_text, Id, IdleMode, Priority, RatioLimit, RatioMode, TrackerId,
    TrackerList, Url, UrlParseError,
};

use crate::json::{bool_text, has_member, lemma_object_holds_member, lemma_push_keeps, lemma_push_opt_keeps, member_text, strings_text, usizes_text};
use crate::types::{ids_text, tiers_text, tracker_ids_text, urls_text};

verus! {

/// A tracker id with the new announce URL of that tracker.
#[derive(Debug, Clone, PartialEq)]
pub struct TrackerReplacePair {
    pub id: u32,
    pub new_announce: Url,
}

impl TrackerReplacePair {
    /// The pair of `id` and the URL parsed from `new_announce`, or the parse error.
    pub fn try_new(id: u32, new_announce: &str) -> (r: Result<TrackerReplacePair, UrlParseError>)
        ensures
            r is Ok <==> crate::types::url_serialization(new_announce@) is Some,
            r matches Ok(p) ==> p.id == id && crate::types::url_serialization(new_announce@)
                == Some(p.new_announce.spec_text()),
    {
        match Url::parse(new_announce) {
            Ok(u) => Ok(TrackerReplacePair { id, new_announce: u }),
            Err(e) => Err(e),
        }
    }

    /// The pair of `id` and `new_announce`.
    pub fn new(id: u32, new_announce: Url) -> (p: TrackerReplacePair)
        ensures
            p == (TrackerReplacePair { id, new_announce }),
    {
        TrackerReplacePair { id, new_announce }
    }
}

impl From<(u32, Url)> for TrackerReplacePair {
    /// The pair of the id and the URL of `value`.
    fn from(value: (u32, Url)) -> (p: TrackerReplacePair)
        ensures
            p == (TrackerReplacePair { id: value.0, new_announce: value.1 }),
    {
        TrackerReplacePair { id: value.0, new_announce: value.1 }
    }
}

impl FromSpecImpl<(u32, Url)> for TrackerReplacePair {
    open spec fn obeys_from_spec() -> bool {
        true
    }

    open spec fn from_spec(v: (u32, Url)) -> TrackerReplacePair {
        TrackerReplacePair { id: v.0, new_announce: v.1 }
    }
}

/// The JSON elements of tracker-replace pairs: each id followed by its URL.
pub open spec fn replace_items(pairs: Seq<TrackerReplacePair>) -> Seq<Seq<char>>
    decreases pairs.len(),
{
    if pairs.len() == 0 {
        Seq::empty()
    } else {
        replace_items(pairs.drop_last()).push(int_text(pairs.last().id as int)).push(
            string_text(pairs.last().new_announce.spec_text()),
        )
    }
}

/// Tracker-replace arguments, sent as one flat JSON array `[id, url, id, url, ...]`.
#[derive(Debug, Clone, PartialEq)]
pub struct TrackerReplaceArgs(pub Vec<TrackerReplacePair>);

impl TrackerReplaceArgs {
    /// The arguments of the pairs `pairs`.
    pub fn new(pairs: Vec<TrackerReplacePair>) -> (a: TrackerReplaceArgs)
        ensures
            a == TrackerReplaceArgs(pairs),
    {
        TrackerReplaceArgs(pairs)
    }

    /// The arguments of the `(id, url)` pairs `pairs`, in order.
    pub fn from_pairs(pairs: Vec<(u32, Url)>) -> (a: TrackerReplaceArgs)
        ensures
            a.0@ == pairs@.map_values(
                |p: (u32, Url)| TrackerReplacePair { id: p.0, new_announce: p.1 },
            ),
    {
        let mut v: Vec<TrackerReplacePair> = Vec::new();
        let mut i: usize = 0;
        while i < pairs.len()
            invariant
                i <= pairs.len(),
                v@ == pairs@.take(i as int).map_values(
                    |p: (u32, Url)| TrackerReplacePair { id: p.0, new_announce: p.1 },
                ),
            decreases pairs.len() - i,
        {
            let (id, url) = &pairs[i];
            v.push(TrackerReplacePair { id: *id, new_announce: url.clone() });
            assert(v@ =~= pairs@.take(i + 1).map_values(
                |p: (u32, Url)| TrackerReplacePair { id: p.0, new_announce: p.1 },
            ));
            i = i + 1;
        }
        assert(pairs@.take(pairs.len() as int) =~= pairs@);
        TrackerReplaceArgs(v)
    }

    /// The JSON array of these arguments.
    pub open spec fn spec_json(self) -> Seq<char> {
        array_text(replace_items(self.0@))
    }

    /// The JSON array of these arguments.
    pub fn to_json(&self) -> (s: String)
        ensures
            s@ == self.spec_json(),
    {
        let mut a = JsonArray::new();
        let mut i: usize = 0;
        while i < self.0.len()
            invariant
                i <= self.0.len(),
                a.wf(),
                a.items() == replace_items(self.0@.take(i as int)),
            decreases self.0.len() - i,
        {
            let pair = &self.0[i];
            let t = u64_json(pair.id as u64);
            a.push(t.as_str());
            let u = pair.new_announce.to_json();
            a.push(u.as_str());
            assert(self.0@.take(i + 1).drop_last() =~= self.0@.take(i as int));
            i = i + 1;
        }
        assert(self.0@.take(self.0.len() as int) =~= self.0@);
        a.finish()
    }
}

/// The JSON text of optional tracker-replace arguments.
pub open spec fn opt_tracker_replace_text(o: Option<TrackerReplaceArgs>) -> Option<Seq<char>> {
    match o {
        Some(v) => Some(v.spec_json()),
        None => None,
    }
}

/// The JSON text of optional tracker-replace arguments.
pub fn opt_tracker_replace_json(o: &Option<TrackerReplaceArgs>) -> (r: Option<String>)
    ensures
        opt_view(r) == opt_tracker_replace_text(*o),
{
    match o {
        Some(v) => Some(v.to_json()),
        None => None,
    }
}

/// Arguments of a torrent-set request: the settings to change for some torrents. Each
/// setter returns the arguments with only its own field changed.
#[derive(Debug, Clone, PartialEq)]
pub struct TorrentSetArgs {
    /// The torrents' bandwidth priority.
    pub bandwidth_priority: Option<Priority>,
    /// The maximum download speed (kB/s).
    pub download_limit: Option<usize>,
    /// Whether `download_limit` is honored.
    pub download_limited: Option<bool>,
    /// Indices of the files not to download.
    pub files_unwanted: Option<Vec<usize>>,
    /// Indices of the files to download.
    pub files_wanted: Option<Vec<usize>>,
    /// The name of the torrents' bandwidth group.
    pub group: Option<String>,
    /// Whether the session's upload limits are honored.
    pub honors_session_limits: Option<bool>,
    /// The torrents to change; a torrent-set request overwrites it with its own ids.
    pub ids: Option<Vec<Id>>,
    /// Labels of the torrents.
    pub labels: Option<Vec<String>>,
    /// The new location of the torrents' content.
    pub location: Option<String>,
    /// The maximum number of peers.
    pub peer_limit: Option<u16>,
    /// Indices of the high-priority files.
    pub priority_high: Option<Vec<usize>>,
    /// Indices of the low-priority files.
    pub priority_low: Option<Vec<usize>>,
    /// Indices of the normal-priority files.
    pub priority_normal: Option<Vec<usize>>,
    /// The position of the torrent in the queue.
    pub queue_position: Option<usize>,
    /// The torrents' number of minutes of seeding inactivity.
    pub seed_idle_limit: Option<u16>,
    /// Which seeding inactivity limit applies.
    pub seed_idle_mode: Option<IdleMode>,
    /// The torrents' seeding ratio.
    pub seed_ratio_limit: Option<RatioLimit>,
    /// Which seeding ratio limit applies.
    pub seed_ratio_mode: Option<RatioMode>,
    /// Whether to download the pieces in order (JSON-RPC only).
    pub sequential_download: Option<bool>,
    /// The piece to start from when downloading in order (JSON-RPC only).
    pub sequential_download_from_piece: Option<u64>,
    /// Announce URLs to add.
    pub tracker_add: Option<Vec<Url>>,
    /// The announce URLs, one per line, with a blank line between tiers.
    pub tracker_list: Option<TrackerList>,
    /// Ids of trackers to remove.
    pub tracker_remove: Option<Vec<TrackerId>>,
    /// Pairs of a tracker id and its new announce URL.
    pub tracker_replace: Option<TrackerReplaceArgs>,
    /// The maximum upload speed (kB/s).
    pub upload_limit: Option<usize>,
    /// Whether `upload_limit` is honored.
    pub upload_limited: Option<bool>,
}

impl TorrentSetArgs {
    /// The members of the JSON object of these arguments, in the order of the fields, the
    /// absent ones left out, with the keys of the older protocol or of JSON-RPC. Some fields
    /// exist only in JSON-RPC.
    pub open spec fn spec_members(self, compat: bool) -> Seq<Seq<char>> {
        let ms = Seq::<Seq<char>>::empty();
        let ms = push_opt(ms, key(compat, "bandwidthPriority", "bandwidth_priority"), opt_priority_text(self.bandwidth_priority));
        let ms = push_opt(ms, key(compat, "downloadLimit", "download_limit"), opt_usize_text(self.download_limit));
        let ms = push_opt(ms, key(compat, "downloadLimited", "download_limited"), opt_bool_text(self.download_limited));
        let ms = push_opt(ms, key(compat, "files-unwanted", "files_unwanted"), opt_usizes_text(self.files_unwanted));
        let ms = push_opt(ms, key(compat, "files-wanted", "files_wanted"), opt_usizes_text(self.files_wanted));
        let ms = push_opt(ms, "group"@, opt_string_text(self.group));
        let ms = push_opt(ms, key(compat, "honorsSessionLimits", "honors_session_limits"), opt_bool_text(self.honors_session_limits));
        let ms = push_opt(ms, "ids"@, opt_ids_text(self.ids));
        let ms = push_opt(ms, "labels"@, opt_strings_text(self.labels));
        let ms = push_opt(ms, "location"@, opt_string_text(self.location));
        let ms = push_opt(ms, key(compat, "peer-limit", "peer_limit"), opt_u16_text(self.peer_limit));
        let ms = push_opt(ms, key(compat, "priority-high", "priority_high"), opt_usizes_text(self.priority_high));
        let ms = push_opt(ms, key(compat, "priority-low", "priority_low"), opt_usizes_text(self.priority_low));
        let ms = push_opt(ms, key(compat, "priority-normal", "priority_normal"), opt_usizes_text(self.priority_normal));
        let ms = push_opt(ms, key(compat, "queuePosition", "queue_position"), opt_usize_text(self.queue_position));
        let ms = push_opt(ms, key(compat, "seedIdleLimit", "seed_idle_limit"), opt_u16_text(self.seed_idle_limit));
        let ms = push_opt(ms, key(compat, "seedIdleMode", "seed_idle_mode"), opt_idle_mode_text(self.seed_idle_mode));
        let ms = push_opt(ms, key(compat, "seedRatioLimit", "seed_ratio_limit"), opt_ratio_text(self.seed_ratio_limit));
        let ms = push_opt(ms, key(compat, "seedRatioMode", "seed_ratio_mode"), opt_ratio_mode_text(self.seed_ratio_mode));
        let ms = if compat {
            push_opt(ms, "sequential_download"@, opt_bool_text(self.sequential_download))
        } else {
            ms
        };
        let ms = if compat {
            push_opt(ms, "sequential_download_from_piece"@, opt_u64_text(self.sequential_download_from_piece))
        } else {
            ms
        };
        let ms = push_opt(ms, key(compat, "trackerAdd", "tracker_add"), opt_urls_text(self.tracker_add));
        let ms = push_opt(ms, key(compat, "trackerList", "tracker_list"), opt_tracker_list_text(self.tracker_list));
        let ms = push_opt(ms, key(compat, "trackerRemove", "tracker_remove"), opt_tracker_ids_text(self.tracker_remove));
        let ms = push_opt(ms, key(compat, "trackerReplace", "tracker_replace"), opt_tracker_replace_text(self.tracker_replace));
        let ms = push_opt(ms, key(compat, "uploadLimit", "upload_limit"), opt_usize_text(self.upload_limit));
        let ms = push_opt(ms, key(compat, "uploadLimited", "upload_limited"), opt_bool_text(self.upload_limited));
        ms
    }

    /// The JSON object of these arguments.
    pub open spec fn spec_json(self, compat: bool) -> Seq<char> {
        object_text(self.spec_members(compat))
    }

    /// The JSON object of these arguments.
    pub fn to_json(&self, compat: bool) -> (s: String)
        ensures
            s@ == self.spec_json(compat),
    {
        let mut o = JsonObject::new();
        o.opt_field(pick(compat, "bandwidthPriority", "bandwidth_priority"), opt_priority_json(self.bandwidth_priority));
        o.opt_field(pick(compat, "downloadLimit", "download_limit"), opt_usize_json(self.download_limit));
        o.opt_field(pick(compat, "downloadLimited", "download_limited"), opt_bool_json(self.download_limited));
        o.opt_field(pick(compat, "files-unwanted", "files_unwanted"), opt_usizes_json(&self.files_unwanted));
        o.opt_field(pick(compat, "files-wanted", "files_wanted"), opt_usizes_json(&self.files_wanted));
        o.opt_field("group", opt_string_json(&self.group));
        o.opt_field(pick(compat, "honorsSessionLimits", "honors_session_limits"), opt_bool_json(self.honors_session_limits));
        o.opt_field("ids", opt_ids_json(&self.ids));
        o.opt_field("labels", opt_strings_json(&self.labels));
        o.opt_field("location", opt_string_json(&self.location));
        o.opt_field(pick(compat, "peer-limit", "peer_limit"), opt_u16_json(self.peer_limit));
        o.opt_field(pick(compat, "priority-high", "priority_high"), opt_usizes_json(&self.priority_high));
        o.opt_field(pick(compat, "priority-low", "priority_low"), opt_usizes_json(&self.priority_low));
        o.opt_field(pick(compat, "priority-normal", "priority_normal"), opt_usizes_json(&self.priority_normal));
        o.opt_field(pick(compat, "queuePosition", "queue_position"), opt_usize_json(self.queue_position));
        o.opt_field(pick(compat, "seedIdleLimit", "seed_idle_limit"), opt_u16_json(self.seed_idle_limit));
        o.opt_field(pick(compat, "seedIdleMode", "seed_idle_mode"), opt_idle_mode_json(self.seed_idle_mode));
        o.opt_field(pick(compat, "seedRatioLimit", "seed_ratio_limit"), opt_ratio_json(&self.seed_ratio_limit));
        o.opt_field(pick(compat, "seedRatioMode", "seed_ratio_mode"), opt_ratio_mode_json(self.seed_ratio_mode));
        if compat {
            o.opt_field("sequential_download", opt_bool_json(self.sequential_download));
        }
        if compat {
            o.opt_field("sequential_download_from_piece", opt_u64_json(self.sequential_download_from_piece));
        }
        o.opt_field(pick(compat, "trackerAdd", "tracker_add"), opt_urls_json(&self.tracker_add));
        o.opt_field(pick(compat, "trackerList", "tracker_list"), opt_tracker_list_json(&self.tracker_list));
        o.opt_field(pick(compat, "trackerRemove", "tracker_remove"), opt_tracker_ids_json(&self.tracker_remove));
        o.opt_field(pick(compat, "trackerReplace", "tracker_replace"), opt_tracker_replace_json(&self.tracker_replace));
        o.opt_field(pick(compat, "uploadLimit", "upload_limit"), opt_usize_json(self.upload_limit));
        o.opt_field(pick(compat, "uploadLimited", "upload_limited"), opt_bool_json(self.upload_limited));
        o.finish()
    }

    /// Arguments with every field absent.
    pub open spec fn spec_empty() -> TorrentSetArgs {
        TorrentSetArgs {
            bandwidth_priority: None,
            download_limit: None,
            download_limited: None,
            files_unwanted: None,
            files_wanted: None,
            group: None,
            honors_session_limits: None,
            ids: None,
            labels: None,
            location: None,
            peer_limit: None,
            priority_high: None,
            priority_low: None,
            priority_normal: None,
            queue_position: None,
            seed_idle_limit: None,
            seed_idle_mode: None,
            seed_ratio_limit: None,
            seed_ratio_mode: None,
            sequential_download: None,
            sequential_download_from_piece: None,
            tracker_add: None,
            tracker_list: None,
            tracker_remove: None,
            tracker_replace: None,
            upload_limit: None,
            upload_limited: None,
        }
    }

    /// Arguments with every field absent.
    pub fn new() -> (a: TorrentSetArgs)
        ensures
            a == Self::spec_empty(),
    {
        TorrentSetArgs {
            bandwidth_priority: None,
            download_limit: None,
            download_limited: None,
            files_unwanted: None,
            files_wanted: None,
            group: None,
            honors_session_limits: None,
            ids: None,
            labels: None,
            location: None,
            peer_limit: None,
            priority_high: None,
            priority_low: None,
            priority_normal: None,
            queue_position: None,
            seed_idle_limit: None,
            seed_idle_mode: None,
            seed_ratio_limit: None,
            seed_ratio_mode: None,
            sequential_download: None,
            sequential_download_from_piece: None,
            tracker_add: None,
            tracker_list: None,
            tracker_remove: None,
            tracker_replace: None,
            upload_limit: None,
            upload_limited: None,
        }
    }

    /// These arguments with `labels` set to copies of `labels`.
    pub fn labels(self, labels: &[&str]) -> (a: TorrentSetArgs)
        ensures
            a.labels matches Some(v) && v@.map_values(|s: String| s@) == labels@.map_values(
                |s: &str| s@,
            ),
            a == (TorrentSetArgs { labels: a.labels, ..self }),
    {
        TorrentSetArgs { labels: Some(copy_strs(labels)), ..self }
    }

    /// These arguments with `bandwidth_priority` set to `bandwidth_priority`.
    pub fn bandwidth_priority(self, bandwidth_priority: Priority) -> (a: TorrentSetArgs)
        ensures
            a == (TorrentSetArgs { bandwidth_priority: Some(bandwidth_priority), ..self }),
    {
        TorrentSetArgs { bandwidth_priority: Some(bandwidth_priority), ..self }
    }

    /// These arguments with `download_limit` set to `download_limit`.
    pub fn download_limit(self, download_limit: usize) -> (a: TorrentSetArgs)
        ensures
            a == (TorrentSetArgs { download_limit: Some(download_limit), ..self }),
    {
        TorrentSetArgs { download_limit: Some(download_limit), ..self }
    }

    /// These arguments with `download_limited` set to `download_limited`.
    pub fn download_limited(self, download_limited: bool) -> (a: TorrentSetArgs)
        ensures
            a == (TorrentSetArgs { download_limited: Some(download_limited), ..self }),
    {
        TorrentSetArgs { download_limited: Some(download_limited), ..self }
    }

    /// These arguments with `files_wanted` set to `files_wanted`.
    pub fn files_wanted(self, files_wanted: Vec<usize>) -> (a: TorrentSetArgs)
        ensures
            a == (TorrentSetArgs { files_wanted: Some(files_wanted), ..self }),
    {
        TorrentSetArgs { files_wanted: Some(files_wanted), ..self }
    }

    /// These arguments with `files_unwanted` set to `files_unwanted`.
    pub fn files_unwanted(self, files_unwanted: Vec<usize>) -> (a: TorrentSetArgs)
        ensures
            a == (TorrentSetArgs { files_unwanted: Some(files_unwanted), ..self }),
    {
        TorrentSetArgs { files_unwanted: Some(files_unwanted), ..self }
    }

    /// These arguments with `group` set to `group`.
    pub fn group(self, group: String) -> (a: TorrentSetArgs)
        ensures
            a == (TorrentSetArgs { group: Some(group), ..self }),
    {
        TorrentSetArgs { group: Some(group), ..self }
    }

    /// These arguments with `honors_session_limits` set to `honors_session_limits`.
    pub fn honors_session_limits(self, honors_session_limits: bool) -> (a: TorrentSetArgs)
        ensures
            a == (TorrentSetArgs { honors_session_limits: Some(honors_session_limits), ..self }),
    {
        TorrentSetArgs { honors_session_limits: Some(honors_session_limits), ..self }
    }

    /// These arguments with `location` set to `location`.
    pub fn location(self, location: String) -> (a: TorrentSetArgs)
        ensures
            a == (TorrentSetArgs { location: Some(location), ..self }),
    {
        TorrentSetArgs { location: Some(location), ..self }
    }

    /// These arguments with `peer_limit` set to `peer_limit`.
    pub fn peer_limit(self, peer_limit: u16) -> (a: TorrentSetArgs)
        ensures
            a == (TorrentSetArgs { peer_limit: Some(peer_limit), ..self }),
    {
        TorrentSetArgs { peer_limit: Some(peer_limit), ..self }
    }

    /// These arguments with `priority_high` set to `priority_high`.
    pub fn priority_high(self, priority_high: Vec<usize>) -> (a: TorrentSetArgs)
        ensures
            a == (TorrentSetArgs { priority_high: Some(priority_high), ..self }),
    {
        TorrentSetArgs { priority_high: Some(priority_high), ..self }
    }

    /// These arguments with `priority_low` set to `priority_low`.
    pub fn priority_low(self, priority_low: Vec<usize>) -> (a: TorrentSetArgs)
        ensures
            a == (TorrentSetArgs { priority_low: Some(priority_low), ..self }),
    {
        TorrentSetArgs { priority_low: Some(priority_low), ..self }
    }

    /// These arguments with `priority_normal` set to `priority_normal`.
    pub fn priority_normal(self, priority_normal: Vec<usize>) -> (a: TorrentSetArgs)
        ensures
            a == (TorrentSetArgs { priority_normal: Some(priority_normal), ..self }),
    {
        TorrentSetArgs { priority_normal: Some(priority_normal), ..self }
    }

    /// These arguments with `queue_position` set to `queue_position`.
    pub fn queue_position(self, queue_position: usize) -> (a: TorrentSetArgs)
        ensures
            a == (TorrentSetArgs { queue_position: Some(queue_position), ..self }),
    {
        TorrentSetArgs { queue_position: Some(queue_position), ..self }
    }

    /// These arguments with `seed_idle_limit` set to `seed_idle_limit`.
    pub fn seed_idle_limit(self, seed_idle_limit: u16) -> (a: TorrentSetArgs)
        ensures
            a == (TorrentSetArgs { seed_idle_limit: Some(seed_idle_limit), ..self }),
    {
        TorrentSetArgs { seed_idle_limit: Some(seed_idle_limit), ..self }
    }

    /// These arguments with `seed_idle_mode` set to `seed_idle_mode`.
    pub fn seed_idle_mode(self, seed_idle_mode: IdleMode) -> (a: TorrentSetArgs)
        ensures
            a == (TorrentSetArgs { seed_idle_mode: Some(seed_idle_mode), ..self }),
    {
        TorrentSetArgs { seed_idle_mode: Some(seed_idle_mode), ..self }
    }

    /// These arguments with `seed_ratio_limit` set to `seed_ratio_limit`.
    pub fn seed_ratio_limit(self, seed_ratio_limit: RatioLimit) -> (a: TorrentSetArgs)
        ensures
            a == (TorrentSetArgs { seed_ratio_limit: Some(seed_ratio_limit), ..self }),
    {
        TorrentSetArgs { seed_ratio_limit: Some(seed_ratio_limit), ..self }
    }

    /// These arguments with `seed_ratio_mode` set to `seed_ratio_mode`.
    pub fn seed_ratio_mode(self, seed_ratio_mode: RatioMode) -> (a: TorrentSetArgs)
        ensures
            a == (TorrentSetArgs { seed_ratio_mode: Some(seed_ratio_mode), ..self }),
    {
        TorrentSetArgs { seed_ratio_mode: Some(seed_ratio_mode), ..self }
    }

    /// These arguments with `sequential_download` set to `sequential_download`.
    pub fn sequential_download(self, sequential_download: bool) -> (a: TorrentSetArgs)
        ensures
            a == (TorrentSetArgs { sequential_download: Some(sequential_download), ..self }),
    {
        TorrentSetArgs { sequential_download: Some(sequential_download), ..self }
    }

    /// These arguments with `tracker_add` set to `tracker_add`.
    pub fn tracker_add(self, tracker_add: Vec<Url>) -> (a: TorrentSetArgs)
        ensures
            a == (TorrentSetArgs { tracker_add: Some(tracker_add), ..self }),
    {
        TorrentSetArgs { tracker_add: Some(tracker_add), ..self }
    }

    /// These arguments with `tracker_list` set to `tracker_list`.
    pub fn tracker_list(self, tracker_list: TrackerList) -> (a: TorrentSetArgs)
        ensures
            a == (TorrentSetArgs { tracker_list: Some(tracker_list), ..self }),
    {
        TorrentSetArgs { tracker_list: Some(tracker_list), ..self }
    }

    /// These arguments with `tracker_remove` set to `tracker_remove`.
    pub fn tracker_remove(self, tracker_remove: Vec<TrackerId>) -> (a: TorrentSetArgs)
        ensures
            a == (TorrentSetArgs { tracker_remove: Some(tracker_remove), ..self }),
    {
        TorrentSetArgs { tracker_remove: Some(tracker_remove), ..self }
    }

    /// These arguments with `tracker_replace` set to `tracker_replace`.
    pub fn tracker_replace(self, tracker_replace: TrackerReplaceArgs) -> (a: TorrentSetArgs)
        ensures
            a == (TorrentSetArgs { tracker_replace: Some(tracker_replace), ..self }),
    {
        TorrentSetArgs { tracker_replace: Some(tracker_replace), ..self }
    }

    /// These arguments with `upload_limit` set to `upload_limit`.
    pub fn upload_limit(self, upload_limit: usize) -> (a: TorrentSetArgs)
        ensures
            a == (TorrentSetArgs { upload_limit: Some(upload_limit), ..self }),
    {
        TorrentSetArgs { upload_limit: Some(upload_limit), ..self }
    }

    /// These arguments with `upload_limited` set to `upload_limited`.
    pub fn upload_limited(self, upload_limited: bool) -> (a: TorrentSetArgs)
        ensures
            a == (TorrentSetArgs { upload_limited: Some(upload_limited), ..self }),
    {
        TorrentSetArgs { upload_limited: Some(upload_limited), ..self }
    }

    /// These arguments with `sequential_download_from_piece` set to `piece`.
    pub fn sequential_download_from_piece(self, piece: u64) -> (a: TorrentSetArgs)
        ensures
            a == (TorrentSetArgs { sequential_download_from_piece: Some(piece), ..self }),
    {
        TorrentSetArgs { sequential_download_from_piece: Some(piece), ..self }
    }
}

impl Default for TorrentSetArgs {
    fn default() -> (a: TorrentSetArgs)
        ensures
            a == TorrentSetArgs::spec_empty(),
    {
        TorrentSetArgs::new()
    }
}

/// Every argument given to a torrent-set request, the ids among them, is a member of its
/// JSON object, under its key: in the older protocol the name the server knows
/// (camelCase or kebab-case), in JSON-RPC the snake-case name, with the value written as
/// JSON. The sequential-download arguments exist only in JSON-RPC.
pub proof fn lemma_torrent_set_members(a: TorrentSetArgs)
    ensures
        a.bandwidth_priority matches Some(v) ==> has_member(a.spec_json(false), "bandwidthPriority"@, int_text(v.spec_value())),
        a.bandwidth_priority matches Some(v) ==> has_member(a.spec_json(true), "bandwidth_priority"@, int_text(v.spec_value())),
        a.download_limit matches Some(v) ==> has_member(a.spec_json(false), "downloadLimit"@, int_text(v as int)),
        a.download_limit matches Some(v) ==> has_member(a.spec_json(true), "download_limit"@, int_text(v as int)),
        a.download_limited matches Some(v) ==> has_member(a.spec_json(false), "downloadLimited"@, bool_text(v)),
        a.download_limited matches Some(v) ==> has_member(a.spec_json(true), "download_limited"@, bool_text(v)),
        a.files_unwanted matches Some(v) ==> has_member(a.spec_json(false), "files-unwanted"@, usizes_text(v@)),
        a.files_unwanted matches Some(v) ==> has_member(a.spec_json(true), "files_unwanted"@, usizes_text(v@)),
        a.files_wanted matches Some(v) ==> has_member(a.spec_json(false), "files-wanted"@, usizes_text(v@)),
        a.files_wanted matches Some(v) ==> has_member(a.spec_json(true), "files_wanted"@, usizes_text(v@)),
        a.group matches Some(v) ==> has_member(a.spec_json(false), "group"@, string_text(v@)),
        a.group matches Some(v) ==> has_member(a.spec_json(true), "group"@, string_text(v@)),
        a.honors_session_limits matches Some(v) ==> has_member(a.spec_json(false), "honorsSessionLimits"@, bool_text(v)),
        a.honors_session_limits matches Some(v) ==> has_member(a.spec_json(true), "honors_session_limits"@, bool_text(v)),
        a.ids matches Some(v) ==> has_member(a.spec_json(false), "ids"@, ids_text(v@)),
        a.ids matches Some(v) ==> has_member(a.spec_json(true), "ids"@, ids_text(v@)),
        a.labels matches Some(v) ==> has_member(a.spec_json(false), "labels"@, strings_text(v@)),
        a.labels matches Some(v) ==> has_member(a.spec_json(true), "labels"@, strings_text(v@)),
        a.location matches Some(v) ==> has_member(a.spec_json(false), "location"@, string_text(v@)),
        a.location matches Some(v) ==> has_member(a.spec_json(true), "location"@, string_text(v@)),
        a.peer_limit matches Some(v) ==> has_member(a.spec_json(false), "peer-limit"@, int_text(v as int)),
        a.peer_limit matches Some(v) ==> has_member(a.spec_json(true), "peer_limit"@, int_text(v as int)),
        a.priority_high matches Some(v) ==> has_member(a.spec_json(false), "priority-high"@, usizes_text(v@)),
        a.priority_high matches Some(v) ==> has_member(a.spec_json(true), "priority_high"@, usizes_text(v@)),
        a.priority_low matches Some(v) ==> has_member(a.spec_json(false), "priority-low"@, usizes_text(v@)),
        a.priority_low matches Some(v) ==> has_member(a.spec_json(true), "priority_low"@, usizes_text(v@)),
        a.priority_normal matches Some(v) ==> has_member(a.spec_json(false), "priority-normal"@, usizes_text(v@)),
        a.priority_normal matches Some(v) ==> has_member(a.spec_json(true), "priority_normal"@, usizes_text(v@)),
        a.queue_position matches Some(v) ==> has_member(a.spec_json(false), "queuePosition"@, int_text(v as int)),
        a.queue_position matches Some(v) ==> has_member(a.spec_json(true), "queue_position"@, int_text(v as int)),
        a.seed_idle_limit matches Some(v) ==> has_member(a.spec_json(false), "seedIdleLimit"@, int_text(v as int)),
        a.seed_idle_limit matches Some(v) ==> has_member(a.spec_json(true), "seed_idle_limit"@, int_text(v as int)),
        a.seed_idle_mode matches Some(v) ==> has_member(a.spec_json(false), "seedIdleMode"@, int_text(v.spec_value())),
        a.seed_idle_mode matches Some(v) ==> has_member(a.spec_json(true), "seed_idle_mode"@, int_text(v.spec_value())),
        a.seed_ratio_limit matches Some(v) ==> has_member(a.spec_json(false), "seedRatioLimit"@, v.spec_text()),
        a.seed_ratio_limit matches Some(v) ==> has_member(a.spec_json(true), "seed_ratio_limit"@, v.spec_text()),
        a.seed_ratio_mode matches Some(v) ==> has_member(a.spec_json(false), "seedRatioMode"@, int_text(v.spec_value())),
        a.seed_ratio_mode matches Some(v) ==> has_member(a.spec_json(true), "seed_ratio_mode"@, int_text(v.spec_value())),
        a.sequential_download matches Some(v) ==> has_member(a.spec_json(true), "sequential_download"@, bool_text(v)),
        a.sequential_download_from_piece matches Some(v) ==> has_member(a.spec_json(true), "sequential_download_from_piece"@, int_text(v as int)),
        a.tracker_add matches Some(v) ==> has_member(a.spec_json(false), "trackerAdd"@, urls_text(v@)),
        a.tracker_add matches Some(v) ==> has_member(a.spec_json(true), "tracker_add"@, urls_text(v@)),
        a.tracker_list matches Some(v) ==> has_member(a.spec_json(false), "trackerList"@, string_text(tiers_text(v.spec_tiers()))),
        a.tracker_list matches Some(v) ==> has_member(a.spec_json(true), "tracker_list"@, string_text(tiers_text(v.spec_tiers()))),
        a.tracker_remove matches Some(v) ==> has_member(a.spec_json(false), "trackerRemove"@, tracker_ids_text(v@)),
        a.tracker_remove matches Some(v) ==> has_member(a.spec_json(true), "tracker_remove"@, tracker_ids_text(v@)),
        a.tracker_replace matches Some(v) ==> has_member(a.spec_json(false), "trackerReplace"@, v.spec_json()),
        a.tracker_replace matches Some(v) ==> has_member(a.spec_json(true), "tracker_replace"@, v.spec_json()),
        a.upload_limit matches Some(v) ==> has_member(a.spec_json(false), "uploadLimit"@, int_text(v as int)),
        a.upload_limit matches Some(v) ==> has_member(a.spec_json(true), "upload_limit"@, int_text(v as int)),
        a.upload_limited matches Some(v) ==> has_member(a.spec_json(false), "uploadLimited"@, bool_text(v)),
        a.upload_limited matches Some(v) ==> has_member(a.spec_json(true), "upload_limited"@, bool_text(v)),
{
    lemma_torrent_set_members_bandwidth_priority(a);
    lemma_torrent_set_members_download_limit(a);
    lemma_torrent_set_members_download_limited(a);
    lemma_torrent_set_members_files_unwanted(a);
    lemma_torrent_set_members_files_wanted(a);
    lemma_torrent_set_members_group(a);
    lemma_torrent_set_members_honors_session_limits(a);
    lemma_torrent_set_members_ids(a);
    lemma_torrent_set_members_labels(a);
    lemma_torrent_set_members_location(a);
    lemma_torrent_set_members_peer_limit(a);
    lemma_torrent_set_members_priority_high(a);
    lemma_torrent_set_members_priority_low(a);
    lemma_torrent_set_members_priority_normal(a);
    lemma_torrent_set_members_queue_position(a);
    lemma_torrent_set_members_seed_idle_limit(a);
    lemma_torrent_set_members_seed_idle_mode(a);
    lemma_torrent_set_members_seed_ratio_limit(a);
    lemma_torrent_set_members_seed_ratio_mode(a);
    lemma_torrent_set_members_sequential_download(a);
    lemma_torrent_set_members_sequential_download_from_piece(a);
    lemma_torrent_set_members_tracker_add(a);
    lemma_torrent_set_members_tracker_list(a);
    lemma_torrent_set_members_tracker_remove(a);
    lemma_torrent_set_members_tracker_replace(a);
    lemma_torrent_set_members_upload_limit(a);
    lemma_torrent_set_members_upload_limited(a);
}

proof fn lemma_torrent_set_members_bandwidth_priority(a: TorrentSetArgs)
    ensures
        a.bandwidth_priority matches Some(v) ==> has_member(a.spec_json(false), "bandwidthPriority"@, int_text(v.spec_value())),
        a.bandwidth_priority matches Some(v) ==> has_member(a.spec_json(true), "bandwidth_priority"@, int_text(v.spec_value())),
{
    if let Some(v) = a.bandwidth_priority {
        assert(a.spec_members(false).contains(member_text("bandwidthPriority"@, int_text(v.spec_value())))) by {
            broadcast use lemma_push_opt_keeps, lemma_push_keeps;
        }
        lemma_object_holds_member(a.spec_members(false), member_text("bandwidthPriority"@, int_text(v.spec_value())));
        assert(a.spec_members(true).contains(member_text("bandwidth_priority"@, int_text(v.spec_value())))) by {
            broadcast use lemma_push_opt_keeps, lemma_push_keeps;
        }
        lemma_object_holds_member(a.spec_members(true), member_text("bandwidth_priority"@, int_text(v.spec_value())));
    }
}

proof fn lemma_torrent_set_members_download_limit(a: TorrentSetArgs)
    ensures
        a.download_limit matches Some(v) ==> has_member(a.spec_json(false), "downloadLimit"@, int_text(v as int)),
        a.download_limit matches Some(v) ==> has_member(a.spec_json(true), "download_limit"@, int_text(v as int)),
{
    if let Some(v) = a.download_limit {
        assert(a.spec_members(false).contains(member_text("downloadLimit"@, int_text(v as int)))) by {
            broadcast use lemma_push_opt_keeps, lemma_push_keeps;
        }
        lemma_object_holds_member(a.spec_members(false), member_text("downloadLimit"@, int_text(v as int)));
        assert(a.spec_members(true).contains(member_text("download_limit"@, int_text(v as int)))) by {
            broadcast use lemma_push_opt_keeps, lemma_push_keeps;
        }
        lemma_object_holds_member(a.spec_members(true), member_text("download_limit"@, int_text(v as int)));
    }
}

proof fn lemma_torrent_set_members_download_limited(a: TorrentSetArgs)
    ensures
        a.download_limited matches Some(v) ==> has_member(a.spec_json(false), "downloadLimited"@, bool_text(v)),
        a.download_limited matches Some(v) ==> has_member(a.spec_json(true), "download_limited"@, bool_text(v)),
{
    if let Some(v) = a.download_limited {
        assert(a.spec_members(false).contains(member_text("downloadLimited"@, bool_text(v)))) by {
            broadcast use lemma_push_opt_keeps, lemma_push_keeps;
        }
        lemma_object_holds_member(a.spec_members(false), member_text("downloadLimited"@, bool_text(v)));
        assert(a.spec_members(true).contains(member_text("download_limited"@, bool_text(v)))) by {
            broadcast use lemma_push_opt_keeps, lemma_push_keeps;
        }
        lemma_object_holds_member(a.spec_members(true), member_text("download_limited"@, bool_text(v)));
    }
}

proof fn lemma_torrent_set_members_files_unwanted(a: TorrentSetArgs)
    ensures
        a.files_unwanted matches Some(v) ==> has_member(a.spec_json(false), "files-unwanted"@, usizes_text(v@)),
        a.files_unwanted matches Some(v) ==> has_member(a.spec_json(true), "files_unwanted"@, usizes_text(v@)),
{
    if let Some(v) = a.files_unwanted {
        assert(a.spec_members(false).contains(member_text("files-unwanted"@, usizes_text(v@)))) by {
            broadcast use lemma_push_opt_keeps, lemma_push_keeps;
        }
        lemma_object_holds_member(a.spec_members(false), member_text("files-unwanted"@, usizes_text(v@)));
        assert(a.spec_members(true).contains(member_text("files_unwanted"@, usizes_text(v@)))) by {
            broadcast use lemma_push_opt_keeps, lemma_push_keeps;
        }
        lemma_object_holds_member(a.spec_members(true), member_text("files_unwanted"@, usizes_text(v@)));
    }
}

proof fn lemma_torrent_set_members_files_wanted(a: TorrentSetArgs)
    ensures
        a.files_wanted matches Some(v) ==> has_member(a.spec_json(false), "files-wanted"@, usizes_text(v@)),
        a.files_wanted matches Some(v) ==> has_member(a.spec_json(true), "files_wanted"@, usizes_text(v@)),
{
    if let Some(v) = a.files_wanted {
        assert(a.spec_members(false).contains(member_text("files-wanted"@, usizes_text(v@)))) by {
            broadcast use lemma_push_opt_keeps, lemma_push_keeps;
        }
        lemma_object_holds_member(a.spec_members(false), member_text("files-wanted"@, usizes_text(v@)));
        assert(a.spec_members(true).contains(member_text("files_wanted"@, usizes_text(v@)))) by {
            broadcast use lemma_push_opt_keeps, lemma_push_keeps;
        }
        lemma_object_holds_member(a.spec_members(true), member_text("files_wanted"@, usizes_text(v@)));
    }
}

proof fn lemma_torrent_set_members_group(a: TorrentSetArgs)
    ensures
        a.group matches Some(v) ==> has_member(a.spec_json(false), "group"@, string_text(v@)),
        a.group matches Some(v) ==> has_member(a.spec_json(true), "group"@, string_text(v@)),
{
    if let Some(v) = a.group {
        assert(a.spec_members(false).contains(member_text("group"@, string_text(v@)))) by {
            broadcast use lemma_push_opt_keeps, lemma_push_keeps;
        }
        lemma_object_holds_member(a.spec_members(false), member_text("group"@, string_text(v@)));
        assert(a.spec_members(true).contains(member_text("group"@, string_text(v@)))) by {
            broadcast use lemma_push_opt_keeps, lemma_push_keeps;
        }
        lemma_object_holds_member(a.spec_members(true), member_text("group"@, string_text(v@)));
    }
}

proof fn lemma_torrent_set_members_honors_session_limits(a: TorrentSetArgs)
    ensures
        a.honors_session_limits matches Some(v) ==> has_member(a.spec_json(false), "honorsSessionLimits"@, bool_text(v)),
        a.honors_session_limits matches Some(v) ==> has_member(a.spec_json(true), "honors_session_limits"@, bool_text(v)),
{
    if let Some(v) = a.honors_session_limits {
        assert(a.spec_members(false).contains(member_text("honorsSessionLimits"@, bool_text(v)))) by {
            broadcast use lemma_push_opt_keeps, lemma_push_keeps;
        }
        lemma_object_holds_member(a.spec_members(false), member_text("honorsSessionLimits"@, bool_text(v)));
        assert(a.spec_members(true).contains(member_text("honors_session_limits"@, bool_text(v)))) by {
            broadcast use lemma_push_opt_keeps, lemma_push_keeps;
        }
        lemma_object_holds_member(a.spec_members(true), member_text("honors_session_limits"@, bool_text(v)));
    }
}

proof fn lemma_torrent_set_members_ids(a: TorrentSetArgs)
    ensures
        a.ids matches Some(v) ==> has_member(a.spec_json(false), "ids"@, ids_text(v@)),
        a.ids matches Some(v) ==> has_member(a.spec_json(true), "ids"@, ids_text(v@)),
{
    if let Some(v) = a.ids {
        assert(a.spec_members(false).contains(member_text("ids"@, ids_text(v@)))) by {
            broadcast use lemma_push_opt_keeps, lemma_push_keeps;
        }
        lemma_object_holds_member(a.spec_members(false), member_text("ids"@, ids_text(v@)));
        assert(a.spec_members(true).contains(member_text("ids"@, ids_text(v@)))) by {
            broadcast use lemma_push_opt_keeps, lemma_push_keeps;
        }
        lemma_object_holds_member(a.spec_members(true), member_text("ids"@, ids_text(v@)));
    }
}

proof fn lemma_torrent_set_members_labels(a: TorrentSetArgs)
    ensures
        a.labels matches Some(v) ==> has_member(a.spec_json(false), "labels"@, strings_text(v@)),
        a.labels matches Some(v) ==> has_member(a.spec_json(true), "labels"@, strings_text(v@)),
{
    if let Some(v) = a.labels {
        assert(a.spec_members(false).contains(member_text("labels"@, strings_text(v@)))) by {
            broadcast use lemma_push_opt_keeps, lemma_push_keeps;
        }
        lemma_object_holds_member(a.spec_members(false), member_text("labels"@, strings_text(v@)));
        assert(a.spec_members(true).contains(member_text("labels"@, strings_text(v@)))) by {
            broadcast use lemma_push_opt_keeps, lemma_push_keeps;
        }
        lemma_object_holds_member(a.spec_members(true), member_text("labels"@, strings_text(v@)));
    }
}

proof fn lemma_torrent_set_members_location(a: TorrentSetArgs)
    ensures
        a.location matches Some(v) ==> has_member(a.spec_json(false), "location"@, string_text(v@)),
        a.location matches Some(v) ==> has_member(a.spec_json(true), "location"@, string_text(v@)),
{
    if let Some(v) = a.location {
        assert(a.spec_members(false).contains(member_text("location"@, string_text(v@)))) by {
            broadcast use lemma_push_opt_keeps, lemma_push_keeps;
        }
        lemma_object_holds_member(a.spec_members(false), member_text("location"@, string_text(v@)));
        assert(a.spec_members(true).contains(member_text("location"@, string_text(v@)))) by {
            broadcast use lemma_push_opt_keeps, lemma_push_keeps;
        }
        lemma_object_holds_member(a.spec_members(true), member_text("location"@, string_text(v@)));
    }
}

proof fn lemma_torrent_set_members_peer_limit(a: TorrentSetArgs)
    ensures
        a.peer_limit matches Some(v) ==> has_member(a.spec_json(false), "peer-limit"@, int_text(v as int)),
        a.peer_limit matches Some(v) ==> has_member(a.spec_json(true), "peer_limit"@, int_text(v as int)),
{
    if let Some(v) = a.peer_limit {
        assert(a.spec_members(false).contains(member_text("peer-limit"@, int_text(v as int)))) by {
            broadcast use lemma_push_opt_keeps, lemma_push_keeps;
        }
        lemma_object_holds_member(a.spec_members(false), member_text("peer-limit"@, int_text(v as int)));
        assert(a.spec_members(true).contains(member_text("peer_limit"@, int_text(v as int)))) by {
            broadcast use lemma_push_opt_keeps, lemma_push_keeps;
        }
        lemma_object_holds_member(a.spec_members(true), member_text("peer_limit"@, int_text(v as int)));
    }
}

proof fn lemma_torrent_set_members_priority_high(a: TorrentSetArgs)
    ensures
        a.priority_high matches Some(v) ==> has_member(a.spec_json(false), "priority-high"@, usizes_text(v@)),
        a.priority_high matches Some(v) ==> has_member(a.spec_json(true), "priority_high"@, usizes_text(v@)),
{
    if let Some(v) = a.priority_high {
        assert(a.spec_members(false).contains(member_text("priority-high"@, usizes_text(v@)))) by {
            broadcast use lemma_push_opt_keeps, lemma_push_keeps;
        }
        lemma_object_holds_member(a.spec_members(false), member_text("priority-high"@, usizes_text(v@)));
        assert(a.spec_members(true).contains(member_text("priority_high"@, usizes_text(v@)))) by {
            broadcast use lemma_push_opt_keeps, lemma_push_keeps;
        }
        lemma_object_holds_member(a.spec_members(true), member_text("priority_high"@, usizes_text(v@)));
    }
}

proof fn lemma_torrent_set_members_priority_low(a: TorrentSetArgs)
    ensures
        a.priority_low matches Some(v) ==> has_member(a.spec_json(false), "priority-low"@, usizes_text(v@)),
        a.priority_low matches Some(v) ==> has_member(a.spec_json(true), "priority_low"@, usizes_text(v@)),
{
    if let Some(v) = a.priority_low {
        assert(a.spec_members(false).contains(member_text("priority-low"@, usizes_text(v@)))) by {
            broadcast use lemma_push_opt_keeps, lemma_push_keeps;
        }
        lemma_object_holds_member(a.spec_members(false), member_text("priority-low"@, usizes_text(v@)));
        assert(a.spec_members(true).contains(member_text("priority_low"@, usizes_text(v@)))) by {
            broadcast use lemma_push_opt_keeps, lemma_push_keeps;
        }
        lemma_object_holds_member(a.spec_members(true), member_text("priority_low"@, usizes_text(v@)));
    }
}

proof fn lemma_torrent_set_members_priority_normal(a: TorrentSetArgs)
    ensures
        a.priority_normal matches Some(v) ==> has_member(a.spec_json(false), "priority-normal"@, usizes_text(v@)),
        a.priority_normal matches Some(v) ==> has_member(a.spec_json(true), "priority_normal"@, usizes_text(v@)),
{
    if let Some(v) = a.priority_normal {
        assert(a.spec_members(false).contains(member_text("priority-normal"@, usizes_text(v@)))) by {
            broadcast use lemma_push_opt_keeps, lemma_push_keeps;
        }
        lemma_object_holds_member(a.spec_members(false), member_text("priority-normal"@, usizes_text(v@)));
        assert(a.spec_members(true).contains(member_text("priority_normal"@, usizes_text(v@)))) by {
            broadcast use lemma_push_opt_keeps, lemma_push_keeps;
        }
        lemma_object_holds_member(a.spec_members(true), member_text("priority_normal"@, usizes_text(v@)));
    }
}

proof fn lemma_torrent_set_members_queue_position(a: TorrentSetArgs)
    ensures
        a.queue_position matches Some(v) ==> has_member(a.spec_json(false), "queuePosition"@, int_text(v as int)),
        a.queue_position matches Some(v) ==> has_member(a.spec_json(true), "queue_position"@, int_text(v as int)),
{
    if let Some(v) = a.queue_position {
        assert(a.spec_members(false).contains(member_text("queuePosition"@, int_text(v as int)))) by {
            broadcast use lemma_push_opt_keeps, lemma_push_keeps;
        }
        lemma_object_holds_member(a.spec_members(false), member_text("queuePosition"@, int_text(v as int)));
        assert(a.spec_members(true).contains(member_text("queue_position"@, int_text(v as int)))) by {
            broadcast use lemma_push_opt_keeps, lemma_push_keeps;
        }
        lemma_object_holds_member(a.spec_members(true), member_text("queue_position"@, int_text(v as int)));
    }
}

proof fn lemma_torrent_set_members_seed_idle_limit(a: TorrentSetArgs)
    ensures
        a.seed_idle_limit matches Some(v) ==> has_member(a.spec_json(false), "seedIdleLimit"@, int_text(v as int)),
        a.seed_idle_limit matches Some(v) ==> has_member(a.spec_json(true), "seed_idle_limit"@, int_text(v as int)),
{
    if let Some(v) = a.seed_idle_limit {
        assert(a.spec_members(false).contains(member_text("seedIdleLimit"@, int_text(v as int)))) by {
            broadcast use lemma_push_opt_keeps, lemma_push_keeps;
        }
        lemma_object_holds_member(a.spec_members(false), member_text("seedIdleLimit"@, int_text(v as int)));
        assert(a.spec_members(true).contains(member_text("seed_idle_limit"@, int_text(v as int)))) by {
            broadcast use lemma_push_opt_keeps, lemma_push_keeps;
        }
        lemma_object_holds_member(a.spec_members(true), member_text("seed_idle_limit"@, int_text(v as int)));
    }
}

proof fn lemma_torrent_set_members_seed_idle_mode(a: TorrentSetArgs)
    ensures
        a.seed_idle_mode matches Some(v) ==> has_member(a.spec_json(false), "seedIdleMode"@, int_text(v.spec_value())),
        a.seed_idle_mode matches Some(v) ==> has_member(a.spec_json(true), "seed_idle_mode"@, int_text(v.spec_value())),
{
    if let Some(v) = a.seed_idle_mode {
        assert(a.spec_members(false).contains(member_text("seedIdleMode"@, int_text(v.spec_value())))) by {
            broadcast use lemma_push_opt_keeps, lemma_push_keeps;
        }
        lemma_object_holds_member(a.spec_members(false), member_text("seedIdleMode"@, int_text(v.spec_value())));
        assert(a.spec_members(true).contains(member_text("seed_idle_mode"@, int_text(v.spec_value())))) by {
            broadcast use lemma_push_opt_keeps, lemma_push_keeps;
        }
        lemma_object_holds_member(a.spec_members(true), member_text("seed_idle_mode"@, int_text(v.spec_value())));
    }
}

proof fn lemma_torrent_set_members_seed_ratio_limit(a: TorrentSetArgs)
    ensures
        a.seed_ratio_limit matches Some(v) ==> has_member(a.spec_json(false), "seedRatioLimit"@, v.spec_text()),
        a.seed_ratio_limit matches Some(v) ==> has_member(a.spec_json(true), "seed_ratio_limit"@, v.spec_text()),
{
    if let Some(v) = a.seed_ratio_limit {
        assert(a.spec_members(false).contains(member_text("seedRatioLimit"@, v.spec_text()))) by {
            broadcast use lemma_push_opt_keeps, lemma_push_keeps;
        }
        lemma_object_holds_member(a.spec_members(false), member_text("seedRatioLimit"@, v.spec_text()));
        assert(a.spec_members(true).contains(member_text("seed_ratio_limit"@, v.spec_text()))) by {
            broadcast use lemma_push_opt_keeps, lemma_push_keeps;
        }
        lemma_object_holds_member(a.spec_members(true), member_text("seed_ratio_limit"@, v.spec_text()));
    }
}

proof fn lemma_torrent_set_members_seed_ratio_mode(a: TorrentSetArgs)
    ensures
        a.seed_ratio_mode matches Some(v) ==> has_member(a.spec_json(false), "seedRatioMode"@, int_text(v.spec_value())),
        a.seed_ratio_mode matches Some(v) ==> has_member(a.spec_json(true), "seed_ratio_mode"@, int_text(v.spec_value())),
{
    if let Some(v) = a.seed_ratio_mode {
        assert(a.spec_members(false).contains(member_text("seedRatioMode"@, int_text(v.spec_value())))) by {
            broadcast use lemma_push_opt_keeps, lemma_push_keeps;
        }
        lemma_object_holds_member(a.spec_members(false), member_text("seedRatioMode"@, int_text(v.spec_value())));
        assert(a.spec_members(true).contains(member_text("seed_ratio_mode"@, int_text(v.spec_value())))) by {
            broadcast use lemma_push_opt_keeps, lemma_push_keeps;
        }
        lemma_object_holds_member(a.spec_members(true), member_text("seed_ratio_mode"@, int_text(v.spec_value())));
    }
}

proof fn lemma_torrent_set_members_sequential_download(a: TorrentSetArgs)
    ensures
        a.sequential_download matches Some(v) ==> has_member(a.spec_json(true), "sequential_download"@, bool_text(v)),
{
    if let Some(v) = a.sequential_download {
        assert(a.spec_members(true).contains(member_text("sequential_download"@, bool_text(v)))) by {
            broadcast use lemma_push_opt_keeps, lemma_push_keeps;
        }
        lemma_object_holds_member(a.spec_members(true), member_text("sequential_download"@, bool_text(v)));
    }
}

proof fn lemma_torrent_set_members_sequential_download_from_piece(a: TorrentSetArgs)
    ensures
        a.sequential_download_from_piece matches Some(v) ==> has_member(a.spec_json(true), "sequential_download_from_piece"@, int_text(v as int)),
{
    if let Some(v) = a.sequential_download_from_piece {
        assert(a.spec_members(true).contains(member_text("sequential_download_from_piece"@, int_text(v as int)))) by {
            broadcast use lemma_push_opt_keeps, lemma_push_keeps;
        }
        lemma_object_holds_member(a.spec_members(true), member_text("sequential_download_from_piece"@, int_text(v as int)));
    }
}

proof fn lemma_torrent_set_members_tracker_add(a: TorrentSetArgs)
    ensures
        a.tracker_add matches Some(v) ==> has_member(a.spec_json(false), "trackerAdd"@, urls_text(v@)),
        a.tracker_add matches Some(v) ==> has_member(a.spec_json(true), "tracker_add"@, urls_text(v@)),
{
    if let Some(v) = a.tracker_add {
        assert(a.spec_members(false).contains(member_text("trackerAdd"@, urls_text(v@)))) by {
            broadcast use lemma_push_opt_keeps, lemma_push_keeps;
        }
        lemma_object_holds_member(a.spec_members(false), member_text("trackerAdd"@, urls_text(v@)));
        assert(a.spec_members(true).contains(member_text("tracker_add"@, urls_text(v@)))) by {
            broadcast use lemma_push_opt_keeps, lemma_push_keeps;
        }
        lemma_object_holds_member(a.spec_members(true), member_text("tracker_add"@, urls_text(v@)));
    }
}

proof fn lemma_torrent_set_members_tracker_list(a: TorrentSetArgs)
    ensures
        a.tracker_list matches Some(v) ==> has_member(a.spec_json(false), "trackerList"@, string_text(tiers_text(v.spec_tiers()))),
        a.tracker_list matches Some(v) ==> has_member(a.spec_json(true), "tracker_list"@, string_text(tiers_text(v.spec_tiers()))),
{
    if let Some(v) = a.tracker_list {
        assert(a.spec_members(false).contains(member_text("trackerList"@, string_text(tiers_text(v.spec_tiers()))))) by {
            broadcast use lemma_push_opt_keeps, lemma_push_keeps;
        }
        lemma_object_holds_member(a.spec_members(false), member_text("trackerList"@, string_text(tiers_text(v.spec_tiers()))));
        assert(a.spec_members(true).contains(member_text("tracker_list"@, string_text(tiers_text(v.spec_tiers()))))) by {
            broadcast use lemma_push_opt_keeps, lemma_push_keeps;
        }
        lemma_object_holds_member(a.spec_members(true), member_text("tracker_list"@, string_text(tiers_text(v.spec_tiers()))));
    }
}

proof fn lemma_torrent_set_members_tracker_remove(a: TorrentSetArgs)
    ensures
        a.tracker_remove matches Some(v) ==> has_member(a.spec_json(false), "trackerRemove"@, tracker_ids_text(v@)),
        a.tracker_remove matches Some(v) ==> has_member(a.spec_json(true), "tracker_remove"@, tracker_ids_text(v@)),
{
    if let Some(v) = a.tracker_remove {
        assert(a.spec_members(false).contains(member_text("trackerRemove"@, tracker_ids_text(v@)))) by {
            broadcast use lemma_push_opt_keeps, lemma_push_keeps;
        }
        lemma_object_holds_member(a.spec_members(false), member_text("trackerRemove"@, tracker_ids_text(v@)));
        assert(a.spec_members(true).contains(member_text("tracker_remove"@, tracker_ids_text(v@)))) by {
            broadcast use lemma_push_opt_keeps, lemma_push_keeps;
        }
        lemma_object_holds_member(a.spec_members(true), member_text("tracker_remove"@, tracker_ids_text(v@)));
    }
}

proof fn lemma_torrent_set_members_tracker_replace(a: TorrentSetArgs)
    ensures
        a.tracker_replace matches Some(v) ==> has_member(a.spec_json(false), "trackerReplace"@, v.spec_json()),
        a.tracker_replace matches Some(v) ==> has_member(a.spec_json(true), "tracker_replace"@, v.spec_json()),
{
    if let Some(v) = a.tracker_replace {
        assert(a.spec_members(false).contains(member_text("trackerReplace"@, v.spec_json()))) by {
            broadcast use lemma_push_opt_keeps, lemma_push_keeps;
        }
        lemma_object_holds_member(a.spec_members(false), member_text("trackerReplace"@, v.spec_json()));
        assert(a.spec_members(true).contains(member_text("tracker_replace"@, v.spec_json()))) by {
            broadcast use lemma_push_opt_keeps, lemma_push_keeps;
        }
        lemma_object_holds_member(a.spec_members(true), member_text("tracker_replace"@, v.spec_json()));
    }
}

proof fn lemma_torrent_set_members_upload_limit(a: TorrentSetArgs)
    ensures
        a.upload_limit matches Some(v) ==> has_member(a.spec_json(false), "uploadLimit"@, int_text(v as int)),
        a.upload_limit matches Some(v) ==> has_member(a.spec_json(true), "upload_limit"@, int_text(v as int)),
{
    if let Some(v) = a.upload_limit {
        assert(a.spec_members(false).contains(member_text("uploadLimit"@, int_text(v as int)))) by {
            broadcast use lemma_push_opt_keeps, lemma_push_keeps;
        }
        lemma_object_holds_member(a.spec_members(false), member_text("uploadLimit"@, int_text(v as int)));
        assert(a.spec_members(true).contains(member_text("upload_limit"@, int_text(v as int)))) by {
            broadcast use lemma_push_opt_keeps, lemma_push_keeps;
        }
        lemma_object_holds_member(a.spec_members(true), member_text("upload_limit"@, int_text(v as int)));
    }
}

proof fn lemma_torrent_set_members_upload_limited(a: TorrentSetArgs)
    ensures
        a.upload_limited matches Some(v) ==> has_member(a.spec_json(false), "uploadLimited"@, bool_text(v)),
        a.upload_limited matches Some(v) ==> has_member(a.spec_json(true), "upload_limited"@, bool_text(v)),
{
    if let Some(v) = a.upload_limited {
        assert(a.spec_members(false).contains(member_text("uploadLimited"@, bool_text(v)))) by {
            broadcast use lemma_push_opt_keeps, lemma_push_keeps;
        }
        lemma_object_holds_member(a.spec_members(false), member_text("uploadLimited"@, bool_text(v)));
        assert(a.spec_members(true).contains(member_text("upload_limited"@, bool_text(v)))) by {
            broadcast use lemma_push_opt_keeps, lemma_push_keeps;
        }
        lemma_object_holds_member(a.spec_members(true), member_text("upload_limited"@, bool_text(v)));
    }
}

} // verus!
