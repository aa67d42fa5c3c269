//! Arguments of torrent-add requests.
use vstd::prelude::*;
use vstd::string::StringExecFns;
use crate::json::{
    key, object_text, opt_bool_json, opt_bool_text, opt_string_json, opt_string_text,
    opt_strings_json, opt_strings_text, opt_u16_json, opt_u16_text, opt_u64_json, opt_u64_text,
    opt_usizes_json, opt_usizes_text, pick, push_opt, JsonObject,
};
use crate::types::{opt_priority_json, opt_priority_text, Priority};

use crate::json::{bool_text, has_member, int_text, lemma_object_holds_member, lemma_push_keeps, lemma_push_opt_keeps, member_text, string_text, strings_text, usizes_text};

verus! {

/// Arguments of a torrent-add request. Either `filename` or `metainfo` must be given; all
/// other fields are optional. Each setter returns the arguments with only its own field
/// changed.
#[derive(Debug, Clone, PartialEq, Eq, Hash)]
pub struct TorrentAddArgs {
    /// A string of one or more cookies (`NAME=CONTENTS`, separated by `;`), sent along when
    /// `filename` is a URL.
    pub cookies: Option<String>,
    /// The path to download the torrent to.
    pub download_dir: Option<String>,
    /// The path or URL of the `.torrent` file to add. Either this or `metainfo` must be given.
    pub filename: Option<String>,
    /// Labels to set on the added torrent.
    pub labels: Option<Vec<String>>,
    /// The base64-encoded content of a `.torrent` file. Either this or `filename` must be given.
    pub metainfo: Option<String>,
    /// Whether the torrent is added without being started.
    pub paused: Option<bool>,
    /// The maximum number of peers.
    pub peer_limit: Option<u16>,
    /// The torrent's bandwidth priority.
    pub bandwidth_priority: Option<Priority>,
    /// Indices of the files to download.
    pub files_wanted: Option<Vec<usize>>,
    /// Indices of the files not to download.
    pub files_unwanted: Option<Vec<usize>>,
    /// Indices of the files to download with high priority.
    pub priority_high: Option<Vec<usize>>,
    /// Indices of the files to download with low priority.
    pub priority_low: Option<Vec<usize>>,
    /// Indices of the files to download with normal priority.
    pub priority_normal: Option<Vec<usize>>,
    /// Whether to download the pieces in order.
    pub sequential_download: Option<bool>,
    /// The piece to start from when downloading in order.
    pub sequential_download_from_piece: Option<u64>,
}

impl TorrentAddArgs {
    /// The members of the JSON object of these arguments, in the order of the fields, the
    /// absent ones left out, with the keys of the older protocol or of JSON-RPC. Some fields
    /// exist only in JSON-RPC.
    pub open spec fn spec_members(self, compat: bool) -> Seq<Seq<char>> {
        let ms = Seq::<Seq<char>>::empty();
        let ms = push_opt(ms, "cookies"@, opt_string_text(self.cookies));
        let ms = push_opt(ms, key(compat, "download-dir", "download_dir"), opt_string_text(self.download_dir));
        let ms = push_opt(ms, "filename"@, opt_string_text(self.filename));
        let ms = push_opt(ms, "labels"@, opt_strings_text(self.labels));
        let ms = push_opt(ms, "metainfo"@, opt_string_text(self.metainfo));
        let ms = push_opt(ms, "paused"@, opt_bool_text(self.paused));
        let ms = push_opt(ms, key(compat, "peer-limit", "peer_limit"), opt_u16_text(self.peer_limit));
        let ms = push_opt(ms, key(compat, "bandwidthPriority", "bandwidth_priority"), opt_priority_text(self.bandwidth_priority));
        let ms = push_opt(ms, key(compat, "files-wanted", "files_wanted"), opt_usizes_text(self.files_wanted));
        let ms = push_opt(ms, key(compat, "files-unwanted", "files_unwanted"), opt_usizes_text(self.files_unwanted));
        let ms = push_opt(ms, key(compat, "priority-high", "priority_high"), opt_usizes_text(self.priority_high));
        let ms = push_opt(ms, key(compat, "priority-low", "priority_low"), opt_usizes_text(self.priority_low));
        let ms = push_opt(ms, key(compat, "priority-normal", "priority_normal"), opt_usizes_text(self.priority_normal));
        let ms = push_opt(ms, key(compat, "sequential-download", "sequential_download"), opt_bool_text(self.sequential_download));
        let ms = push_opt(ms, key(compat, "sequential-download-from-piece", "sequential_download_from_piece"), opt_u64_text(self.sequential_download_from_piece));
        ms
    }

    /// The JSON object of these arguments.
    pub open spec fn spec_json(self, compat: bool) -> Seq<char> {
        object_text(self.spec_members(compat))
    }

    /// The JSON object of these arguments.
    pub fn to_json(&self, compat: bool) -> (s: String)
        ensures
            s@ == self.spec_json(compat),
    {
        let mut o = JsonObject::new();
        o.opt_field("cookies", opt_string_json(&self.cookies));
        o.opt_field(pick(compat, "download-dir", "download_dir"), opt_string_json(&self.download_dir));
        o.opt_field("filename", opt_string_json(&self.filename));
        o.opt_field("labels", opt_strings_json(&self.labels));
        o.opt_field("metainfo", opt_string_json(&self.metainfo));
        o.opt_field("paused", opt_bool_json(self.paused));
        o.opt_field(pick(compat, "peer-limit", "peer_limit"), opt_u16_json(self.peer_limit));
        o.opt_field(pick(compat, "bandwidthPriority", "bandwidth_priority"), opt_priority_json(self.bandwidth_priority));
        o.opt_field(pick(compat, "files-wanted", "files_wanted"), opt_usizes_json(&self.files_wanted));
        o.opt_field(pick(compat, "files-unwanted", "files_unwanted"), opt_usizes_json(&self.files_unwanted));
        o.opt_field(pick(compat, "priority-high", "priority_high"), opt_usizes_json(&self.priority_high));
        o.opt_field(pick(compat, "priority-low", "priority_low"), opt_usizes_json(&self.priority_low));
        o.opt_field(pick(compat, "priority-normal", "priority_normal"), opt_usizes_json(&self.priority_normal));
        o.opt_field(pick(compat, "sequential-download", "sequential_download"), opt_bool_json(self.sequential_download));
        o.opt_field(pick(compat, "sequential-download-from-piece", "sequential_download_from_piece"), opt_u64_json(self.sequential_download_from_piece));
        o.finish()
    }

    /// Arguments with every field absent.
    pub open spec fn spec_empty() -> TorrentAddArgs {
        TorrentAddArgs {
            cookies: None,
            download_dir: None,
            filename: None,
            labels: None,
            metainfo: None,
            paused: None,
            peer_limit: None,
            bandwidth_priority: None,
            files_wanted: None,
            files_unwanted: None,
            priority_high: None,
            priority_low: None,
            priority_normal: None,
            sequential_download: None,
            sequential_download_from_piece: None,
        }
    }

    /// Arguments with every field absent.
    pub fn new() -> (a: TorrentAddArgs)
        ensures
            a == Self::spec_empty(),
    {
        TorrentAddArgs {
            cookies: None,
            download_dir: None,
            filename: None,
            labels: None,
            metainfo: None,
            paused: None,
            peer_limit: None,
            bandwidth_priority: None,
            files_wanted: None,
            files_unwanted: None,
            priority_high: None,
            priority_low: None,
            priority_normal: None,
            sequential_download: None,
            sequential_download_from_piece: None,
        }
    }

    /// Whether the arguments name the torrent to add: a `filename` or a `metainfo`.
    pub open spec fn spec_is_valid(self) -> bool {
        self.filename is Some || self.metainfo is Some
    }

    /// Whether the arguments name the torrent to add.
    pub fn is_valid(&self) -> (r: bool)
        ensures
            r == self.spec_is_valid(),
    {
        self.filename.is_some() || self.metainfo.is_some()
    }

    /// These arguments with `cookies` set to a copy of `cookies`.
    pub fn cookies(self, cookies: &str) -> (a: TorrentAddArgs)
        ensures
            a.cookies matches Some(v) && v@ == cookies@,
            a == (TorrentAddArgs { cookies: a.cookies, ..self }),
    {
        TorrentAddArgs { cookies: Some(String::from_str(cookies)), ..self }
    }

    /// These arguments with `download_dir` set to a copy of `download_dir`.
    pub fn download_dir(self, download_dir: &str) -> (a: TorrentAddArgs)
        ensures
            a.download_dir matches Some(v) && v@ == download_dir@,
            a == (TorrentAddArgs { download_dir: a.download_dir, ..self }),
    {
        TorrentAddArgs { download_dir: Some(String::from_str(download_dir)), ..self }
    }

    /// These arguments with `filename` set to a copy of `filename`.
    pub fn filename(self, filename: &str) -> (a: TorrentAddArgs)
        ensures
            a.filename matches Some(v) && v@ == filename@,
            a == (TorrentAddArgs { filename: a.filename, ..self }),
    {
        TorrentAddArgs { filename: Some(String::from_str(filename)), ..self }
    }

    /// These arguments with `metainfo` set to a copy of `metainfo`.
    pub fn metainfo(self, metainfo: &str) -> (a: TorrentAddArgs)
        ensures
            a.metainfo matches Some(v) && v@ == metainfo@,
            a == (TorrentAddArgs { metainfo: a.metainfo, ..self }),
    {
        TorrentAddArgs { metainfo: Some(String::from_str(metainfo)), ..self }
    }

    /// These arguments with `labels` set to copies of `labels`.
    pub fn labels(self, labels: &[&str]) -> (a: TorrentAddArgs)
        ensures
            a.labels matches Some(v) && v@.map_values(|s: String| s@) == labels@.map_values(
                |s: &str| s@,
            ),
            a == (TorrentAddArgs { labels: a.labels, ..self }),
    {
        TorrentAddArgs { labels: Some(copy_strs(labels)), ..self }
    }

    /// These arguments with `paused` set to `paused`.
    pub fn paused(self, paused: bool) -> (a: TorrentAddArgs)
        ensures
            a == (TorrentAddArgs { paused: Some(paused), ..self }),
    {
        TorrentAddArgs { paused: Some(paused), ..self }
    }

    /// These arguments with `peer_limit` set to `peer_limit`.
    pub fn peer_limit(self, peer_limit: u16) -> (a: TorrentAddArgs)
        ensures
            a == (TorrentAddArgs { peer_limit: Some(peer_limit), ..self }),
    {
        TorrentAddArgs { peer_limit: Some(peer_limit), ..self }
    }

    /// These arguments with `bandwidth_priority` set to `bandwidth_priority`.
    pub fn bandwidth_priority(self, bandwidth_priority: Priority) -> (a: TorrentAddArgs)
        ensures
            a == (TorrentAddArgs { bandwidth_priority: Some(bandwidth_priority), ..self }),
    {
        TorrentAddArgs { bandwidth_priority: Some(bandwidth_priority), ..self }
    }

    /// These arguments with `files_wanted` set to `files_wanted`.
    pub fn files_wanted(self, files_wanted: Vec<usize>) -> (a: TorrentAddArgs)
        ensures
            a == (TorrentAddArgs { files_wanted: Some(files_wanted), ..self }),
    {
        TorrentAddArgs { files_wanted: Some(files_wanted), ..self }
    }

    /// These arguments with `files_unwanted` set to `files_unwanted`.
    pub fn files_unwanted(self, files_unwanted: Vec<usize>) -> (a: TorrentAddArgs)
        ensures
            a == (TorrentAddArgs { files_unwanted: Some(files_unwanted), ..self }),
    {
        TorrentAddArgs { files_unwanted: Some(files_unwanted), ..self }
    }

    /// These arguments with `priority_high` set to `priority_high`.
    pub fn priority_high(self, priority_high: Vec<usize>) -> (a: TorrentAddArgs)
        ensures
            a == (TorrentAddArgs { priority_high: Some(priority_high), ..self }),
    {
        TorrentAddArgs { priority_high: Some(priority_high), ..self }
    }

    /// These arguments with `priority_low` set to `priority_low`.
    pub fn priority_low(self, priority_low: Vec<usize>) -> (a: TorrentAddArgs)
        ensures
            a == (TorrentAddArgs { priority_low: Some(priority_low), ..self }),
    {
        TorrentAddArgs { priority_low: Some(priority_low), ..self }
    }

    /// These arguments with `priority_normal` set to `priority_normal`.
    pub fn priority_normal(self, priority_normal: Vec<usize>) -> (a: TorrentAddArgs)
        ensures
            a == (TorrentAddArgs { priority_normal: Some(priority_normal), ..self }),
    {
        TorrentAddArgs { priority_normal: Some(priority_normal), ..self }
    }

    /// These arguments with `sequential_download` set to `sequential_download`.
    pub fn sequential_download(self, sequential_download: bool) -> (a: TorrentAddArgs)
        ensures
            a == (TorrentAddArgs { sequential_download: Some(sequential_download), ..self }),
    {
        TorrentAddArgs { sequential_download: Some(sequential_download), ..self }
    }

    /// These arguments with `sequential_download_from_piece` set to `piece`.
    pub fn sequential_download_from_piece(self, piece: u64) -> (a: TorrentAddArgs)
        ensures
            a == (TorrentAddArgs { sequential_download_from_piece: Some(piece), ..self }),
    {
        TorrentAddArgs { sequential_download_from_piece: Some(piece), ..self }
    }
}

impl Default for TorrentAddArgs {
    fn default() -> (a: TorrentAddArgs)
        ensures
            a == TorrentAddArgs::spec_empty(),
    {
        TorrentAddArgs::new()
    }
}

/// Copies of the strings in `items`, in order.
pub fn copy_strs(items: &[&str]) -> (v: Vec<String>)
    ensures
        v@.map_values(|s: String| s@) == items@.map_values(|s: &str| s@),
{
    let mut v: Vec<String> = Vec::new();
    let mut i: usize = 0;
    while i < items.len()
        invariant
            i <= items.len(),
            v@.map_values(|s: String| s@) == items@.take(i as int).map_values(|s: &str| s@),
        decreases items.len() - i,
    {
        v.push(String::from_str(items[i]));
        assert(items@.take(i + 1).map_values(|s: &str| s@) =~= items@.take(i as int).map_values(
            |s: &str| s@,
        ).push(items@[i as int]@));
        assert(v@.map_values(|s: String| s@) =~= items@.take(i + 1).map_values(|s: &str| s@));
        i = i + 1;
    }
    assert(items@.take(items.len() as int) =~= items@);
    v
}

/// Every argument given to a torrent-add request is a member of its JSON object, under its
/// key: in the older protocol the kebab-case name (and `bandwidthPriority`), in JSON-RPC the
/// snake-case name, with the value written as JSON.
pub proof fn lemma_torrent_add_members(a: TorrentAddArgs)
    ensures
        a.cookies matches Some(v) ==> has_member(a.spec_json(false), "cookies"@, string_text(v@)),
        a.cookies matches Some(v) ==> has_member(a.spec_json(true), "cookies"@, string_text(v@)),
        a.download_dir matches Some(v) ==> has_member(a.spec_json(false), "download-dir"@, string_text(v@)),
        a.download_dir matches Some(v) ==> has_member(a.spec_json(true), "download_dir"@, string_text(v@)),
        a.filename matches Some(v) ==> has_member(a.spec_json(false), "filename"@, string_text(v@)),
        a.filename matches Some(v) ==> has_member(a.spec_json(true), "filename"@, string_text(v@)),
        a.labels matches Some(v) ==> has_member(a.spec_json(false), "labels"@, strings_text(v@)),
        a.labels matches Some(v) ==> has_member(a.spec_json(true), "labels"@, strings_text(v@)),
        a.metainfo matches Some(v) ==> has_member(a.spec_json(false), "metainfo"@, string_text(v@)),
        a.metainfo matches Some(v) ==> has_member(a.spec_json(true), "metainfo"@, string_text(v@)),
        a.paused matches Some(v) ==> has_member(a.spec_json(false), "paused"@, bool_text(v)),
        a.paused matches Some(v) ==> has_member(a.spec_json(true), "paused"@, bool_text(v)),
        a.peer_limit matches Some(v) ==> has_member(a.spec_json(false), "peer-limit"@, int_text(v as int)),
        a.peer_limit matches Some(v) ==> has_member(a.spec_json(true), "peer_limit"@, int_text(v as int)),
        a.bandwidth_priority matches Some(v) ==> has_member(a.spec_json(false), "bandwidthPriority"@, int_text(v.spec_value())),
        a.bandwidth_priority matches Some(v) ==> has_member(a.spec_json(true), "bandwidth_priority"@, int_text(v.spec_value())),
        a.files_wanted matches Some(v) ==> has_member(a.spec_json(false), "files-wanted"@, usizes_text(v@)),
        a.files_wanted matches Some(v) ==> has_member(a.spec_json(true), "files_wanted"@, usizes_text(v@)),
        a.files_unwanted matches Some(v) ==> has_member(a.spec_json(false), "files-unwanted"@, usizes_text(v@)),
        a.files_unwanted matches Some(v) ==> has_member(a.spec_json(true), "files_unwanted"@, usizes_text(v@)),
        a.priority_high matches Some(v) ==> has_member(a.spec_json(false), "priority-high"@, usizes_text(v@)),
        a.priority_high matches Some(v) ==> has_member(a.spec_json(true), "priority_high"@, usizes_text(v@)),
        a.priority_low matches Some(v) ==> has_member(a.spec_json(false), "priority-low"@, usizes_text(v@)),
        a.priority_low matches Some(v) ==> has_member(a.spec_json(true), "priority_low"@, usizes_text(v@)),
        a.priority_normal matches Some(v) ==> has_member(a.spec_json(false), "priority-normal"@, usizes_text(v@)),
        a.priority_normal matches Some(v) ==> has_member(a.spec_json(true), "priority_normal"@, usizes_text(v@)),
        a.sequential_download matches Some(v) ==> has_member(a.spec_json(false), "sequential-download"@, bool_text(v)),
        a.sequential_download matches Some(v) ==> has_member(a.spec_json(true), "sequential_download"@, bool_text(v)),
        a.sequential_download_from_piece matches Some(v) ==> has_member(a.spec_json(false), "sequential-download-from-piece"@, int_text(v as int)),
        a.sequential_download_from_piece matches Some(v) ==> has_member(a.spec_json(true), "sequential_download_from_piece"@, int_text(v as int)),
{
    lemma_torrent_add_members_cookies(a);
    lemma_torrent_add_members_download_dir(a);
    lemma_torrent_add_members_filename(a);
    lemma_torrent_add_members_labels(a);
    lemma_torrent_add_members_metainfo(a);
    lemma_torrent_add_members_paused(a);
    lemma_torrent_add_members_peer_limit(a);
    lemma_torrent_add_members_bandwidth_priority(a);
    lemma_torrent_add_members_files_wanted(a);
    lemma_torrent_add_members_files_unwanted(a);
    lemma_torrent_add_members_priority_high(a);
    lemma_torrent_add_members_priority_low(a);
    lemma_torrent_add_members_priority_normal(a);
    lemma_torrent_add_members_sequential_download(a);
    lemma_torrent_add_members_sequential_download_from_piece(a);
}

proof fn lemma_torrent_add_members_cookies(a: TorrentAddArgs)
    ensures
        a.cookies matches Some(v) ==> has_member(a.spec_json(false), "cookies"@, string_text(v@)),
        a.cookies matches Some(v) ==> has_member(a.spec_json(true), "cookies"@, string_text(v@)),
{
    if let Some(v) = a.cookies {
        assert(a.spec_members(false).contains(member_text("cookies"@, string_text(v@)))) by {
            broadcast use lemma_push_opt_keeps, lemma_push_keeps;
        }
        lemma_object_holds_member(a.spec_members(false), member_text("cookies"@, string_text(v@)));
        assert(a.spec_members(true).contains(member_text("cookies"@, string_text(v@)))) by {
            broadcast use lemma_push_opt_keeps, lemma_push_keeps;
        }
        lemma_object_holds_member(a.spec_members(true), member_text("cookies"@, string_text(v@)));
    }
}

proof fn lemma_torrent_add_members_download_dir(a: TorrentAddArgs)
    ensures
        a.download_dir matches Some(v) ==> has_member(a.spec_json(false), "download-dir"@, string_text(v@)),
        a.download_dir matches Some(v) ==> has_member(a.spec_json(true), "download_dir"@, string_text(v@)),
{
    if let Some(v) = a.download_dir {
        assert(a.spec_members(false).contains(member_text("download-dir"@, string_text(v@)))) by {
            broadcast use lemma_push_opt_keeps, lemma_push_keeps;
        }
        lemma_object_holds_member(a.spec_members(false), member_text("download-dir"@, string_text(v@)));
        assert(a.spec_members(true).contains(member_text("download_dir"@, string_text(v@)))) by {
            broadcast use lemma_push_opt_keeps, lemma_push_keeps;
        }
        lemma_object_holds_member(a.spec_members(true), member_text("download_dir"@, string_text(v@)));
    }
}

proof fn lemma_torrent_add_members_filename(a: TorrentAddArgs)
    ensures
        a.filename matches Some(v) ==> has_member(a.spec_json(false), "filename"@, string_text(v@)),
        a.filename matches Some(v) ==> has_member(a.spec_json(true), "filename"@, string_text(v@)),
{
    if let Some(v) = a.filename {
        assert(a.spec_members(false).contains(member_text("filename"@, string_text(v@)))) by {
            broadcast use lemma_push_opt_keeps, lemma_push_keeps;
        }
        lemma_object_holds_member(a.spec_members(false), member_text("filename"@, string_text(v@)));
        assert(a.spec_members(true).contains(member_text("filename"@, string_text(v@)))) by {
            broadcast use lemma_push_opt_keeps, lemma_push_keeps;
        }
        lemma_object_holds_member(a.spec_members(true), member_text("filename"@, string_text(v@)));
    }
}

proof fn lemma_torrent_add_members_labels(a: TorrentAddArgs)
    ensures
        a.labels matches Some(v) ==> has_member(a.spec_json(false), "labels"@, strings_text(v@)),
        a.labels matches Some(v) ==> has_member(a.spec_json(true), "labels"@, strings_text(v@)),
{
    if let Some(v) = a.labels {
        assert(a.spec_members(false).contains(member_text("labels"@, strings_text(v@)))) by {
            broadcast use lemma_push_opt_keeps, lemma_push_keeps;
        }
        lemma_object_holds_member(a.spec_members(false), member_text("labels"@, strings_text(v@)));
        assert(a.spec_members(true).contains(member_text("labels"@, strings_text(v@)))) by {
            broadcast use lemma_push_opt_keeps, lemma_push_keeps;
        }
        lemma_object_holds_member(a.spec_members(true), member_text("labels"@, strings_text(v@)));
    }
}

proof fn lemma_torrent_add_members_metainfo(a: TorrentAddArgs)
    ensures
        a.metainfo matches Some(v) ==> has_member(a.spec_json(false), "metainfo"@, string_text(v@)),
        a.metainfo matches Some(v) ==> has_member(a.spec_json(true), "metainfo"@, string_text(v@)),
{
    if let Some(v) = a.metainfo {
        assert(a.spec_members(false).contains(member_text("metainfo"@, string_text(v@)))) by {
            broadcast use lemma_push_opt_keeps, lemma_push_keeps;
        }
        lemma_object_holds_member(a.spec_members(false), member_text("metainfo"@, string_text(v@)));
        assert(a.spec_members(true).contains(member_text("metainfo"@, string_text(v@)))) by {
            broadcast use lemma_push_opt_keeps, lemma_push_keeps;
        }
        lemma_object_holds_member(a.spec_members(true), member_text("metainfo"@, string_text(v@)));
    }
}

proof fn lemma_torrent_add_members_paused(a: TorrentAddArgs)
    ensures
        a.paused matches Some(v) ==> has_member(a.spec_json(false), "paused"@, bool_text(v)),
        a.paused matches Some(v) ==> has_member(a.spec_json(true), "paused"@, bool_text(v)),
{
    if let Some(v) = a.paused {
        assert(a.spec_members(false).contains(member_text("paused"@, bool_text(v)))) by {
            broadcast use lemma_push_opt_keeps, lemma_push_keeps;
        }
        lemma_object_holds_member(a.spec_members(false), member_text("paused"@, bool_text(v)));
        assert(a.spec_members(true).contains(member_text("paused"@, bool_text(v)))) by {
            broadcast use lemma_push_opt_keeps, lemma_push_keeps;
        }
        lemma_object_holds_member(a.spec_members(true), member_text("paused"@, bool_text(v)));
    }
}

proof fn lemma_torrent_add_members_peer_limit(a: TorrentAddArgs)
    ensures
        a.peer_limit matches Some(v) ==> has_member(a.spec_json(false), "peer-limit"@, int_text(v as int)),
        a.peer_limit matches Some(v) ==> has_member(a.spec_json(true), "peer_limit"@, int_text(v as int)),
{
    if let Some(v) = a.peer_limit {
        assert(a.spec_members(false).contains(member_text("peer-limit"@, int_text(v as int)))) by {
            broadcast use lemma_push_opt_keeps, lemma_push_keeps;
        }
        lemma_object_holds_member(a.spec_members(false), member_text("peer-limit"@, int_text(v as int)));
        assert(a.spec_members(true).contains(member_text("peer_limit"@, int_text(v as int)))) by {
            broadcast use lemma_push_opt_keeps, lemma_push_keeps;
        }
        lemma_object_holds_member(a.spec_members(true), member_text("peer_limit"@, int_text(v as int)));
    }
}

proof fn lemma_torrent_add_members_bandwidth_priority(a: TorrentAddArgs)
    ensures
        a.bandwidth_priority matches Some(v) ==> has_member(a.spec_json(false), "bandwidthPriority"@, int_text(v.spec_value())),
        a.bandwidth_priority matches Some(v) ==> has_member(a.spec_json(true), "bandwidth_priority"@, int_text(v.spec_value())),
{
    if let Some(v) = a.bandwidth_priority {
        assert(a.spec_members(false).contains(member_text("bandwidthPriority"@, int_text(v.spec_value())))) by {
            broadcast use lemma_push_opt_keeps, lemma_push_keeps;
        }
        lemma_object_holds_member(a.spec_members(false), member_text("bandwidthPriority"@, int_text(v.spec_value())));
        assert(a.spec_members(true).contains(member_text("bandwidth_priority"@, int_text(v.spec_value())))) by {
            broadcast use lemma_push_opt_keeps, lemma_push_keeps;
        }
        lemma_object_holds_member(a.spec_members(true), member_text("bandwidth_priority"@, int_text(v.spec_value())));
    }
}

proof fn lemma_torrent_add_members_files_wanted(a: TorrentAddArgs)
    ensures
        a.files_wanted matches Some(v) ==> has_member(a.spec_json(false), "files-wanted"@, usizes_text(v@)),
        a.files_wanted matches Some(v) ==> has_member(a.spec_json(true), "files_wanted"@, usizes_text(v@)),
{
    if let Some(v) = a.files_wanted {
        assert(a.spec_members(false).contains(member_text("files-wanted"@, usizes_text(v@)))) by {
            broadcast use lemma_push_opt_keeps, lemma_push_keeps;
        }
        lemma_object_holds_member(a.spec_members(false), member_text("files-wanted"@, usizes_text(v@)));
        assert(a.spec_members(true).contains(member_text("files_wanted"@, usizes_text(v@)))) by {
            broadcast use lemma_push_opt_keeps, lemma_push_keeps;
        }
        lemma_object_holds_member(a.spec_members(true), member_text("files_wanted"@, usizes_text(v@)));
    }
}

proof fn lemma_torrent_add_members_files_unwanted(a: TorrentAddArgs)
    ensures
        a.files_unwanted matches Some(v) ==> has_member(a.spec_json(false), "files-unwanted"@, usizes_text(v@)),
        a.files_unwanted matches Some(v) ==> has_member(a.spec_json(true), "files_unwanted"@, usizes_text(v@)),
{
    if let Some(v) = a.files_unwanted {
        assert(a.spec_members(false).contains(member_text("files-unwanted"@, usizes_text(v@)))) by {
            broadcast use lemma_push_opt_keeps, lemma_push_keeps;
        }
        lemma_object_holds_member(a.spec_members(false), member_text("files-unwanted"@, usizes_text(v@)));
        assert(a.spec_members(true).contains(member_text("files_unwanted"@, usizes_text(v@)))) by {
            broadcast use lemma_push_opt_keeps, lemma_push_keeps;
        }
        lemma_object_holds_member(a.spec_members(true), member_text("files_unwanted"@, usizes_text(v@)));
    }
}

proof fn lemma_torrent_add_members_priority_high(a: TorrentAddArgs)
    ensures
        a.priority_high matches Some(v) ==> has_member(a.spec_json(false), "priority-high"@, usizes_text(v@)),
        a.priority_high matches Some(v) ==> has_member(a.spec_json(true), "priority_high"@, usizes_text(v@)),
{
    if let Some(v) = a.priority_high {
        assert(a.spec_members(false).contains(member_text("priority-high"@, usizes_text(v@)))) by {
            broadcast use lemma_push_opt_keeps, lemma_push_keeps;
        }
        lemma_object_holds_member(a.spec_members(false), member_text("priority-high"@, usizes_text(v@)));
        assert(a.spec_members(true).contains(member_text("priority_high"@, usizes_text(v@)))) by {
            broadcast use lemma_push_opt_keeps, lemma_push_keeps;
        }
        lemma_object_holds_member(a.spec_members(true), member_text("priority_high"@, usizes_text(v@)));
    }
}

proof fn lemma_torrent_add_members_priority_low(a: TorrentAddArgs)
    ensures
        a.priority_low matches Some(v) ==> has_member(a.spec_json(false), "priority-low"@, usizes_text(v@)),
        a.priority_low matches Some(v) ==> has_member(a.spec_json(true), "priority_low"@, usizes_text(v@)),
{
    if let Some(v) = a.priority_low {
        assert(a.spec_members(false).contains(member_text("priority-low"@, usizes_text(v@)))) by {
            broadcast use lemma_push_opt_keeps, lemma_push_keeps;
        }
        lemma_object_holds_member(a.spec_members(false), member_text("priority-low"@, usizes_text(v@)));
        assert(a.spec_members(true).contains(member_text("priority_low"@, usizes_text(v@)))) by {
            broadcast use lemma_push_opt_keeps, lemma_push_keeps;
        }
        lemma_object_holds_member(a.spec_members(true), member_text("priority_low"@, usizes_text(v@)));
    }
}

proof fn lemma_torrent_add_members_priority_normal(a: TorrentAddArgs)
    ensures
        a.priority_normal matches Some(v) ==> has_member(a.spec_json(false), "priority-normal"@, usizes_text(v@)),
        a.priority_normal matches Some(v) ==> has_member(a.spec_json(true), "priority_normal"@, usizes_text(v@)),
{
    if let Some(v) = a.priority_normal {
        assert(a.spec_members(false).contains(member_text("priority-normal"@, usizes_text(v@)))) by {
            broadcast use lemma_push_opt_keeps, lemma_push_keeps;
        }
        lemma_object_holds_member(a.spec_members(false), member_text("priority-normal"@, usizes_text(v@)));
        assert(a.spec_members(true).contains(member_text("priority_normal"@, usizes_text(v@)))) by {
            broadcast use lemma_push_opt_keeps, lemma_push_keeps;
        }
        lemma_object_holds_member(a.spec_members(true), member_text("priority_normal"@, usizes_text(v@)));
    }
}

proof fn lemma_torrent_add_members_sequential_download(a: TorrentAddArgs)
    ensures
        a.sequential_download matches Some(v) ==> has_member(a.spec_json(false), "sequential-download"@, bool_text(v)),
        a.sequential_download matches Some(v) ==> has_member(a.spec_json(true), "sequential_download"@, bool_text(v)),
{
    if let Some(v) = a.sequential_download {
        assert(a.spec_members(false).contains(member_text("sequential-download"@, bool_text(v)))) by {
            broadcast use lemma_push_opt_keeps, lemma_push_keeps;
        }
        lemma_object_holds_member(a.spec_members(false), member_text("sequential-download"@, bool_text(v)));
        assert(a.spec_members(true).contains(member_text("sequential_download"@, bool_text(v)))) by {
            broadcast use lemma_push_opt_keeps, lemma_push_keeps;
        }
        lemma_object_holds_member(a.spec_members(true), member_text("sequential_download"@, bool_text(v)));
    }
}

proof fn lemma_torrent_add_members_sequential_download_from_piece(a: TorrentAddArgs)
    ensures
        a.sequential_download_from_piece matches Some(v) ==> has_member(a.spec_json(false), "sequential-download-from-piece"@, int_text(v as int)),
        a.sequential_download_from_piece matches Some(v) ==> has_member(a.spec_json(true), "sequential_download_from_piece"@, int_text(v as int)),
{
    if let Some(v) = a.sequential_download_from_piece {
        assert(a.spec_members(false).contains(member_text("sequential-download-from-piece"@, int_text(v as int)))) by {
            broadcast use lemma_push_opt_keeps, lemma_push_keeps;
        }
        lemma_object_holds_member(a.spec_members(false), member_text("sequential-download-from-piece"@, int_text(v as int)));
        assert(a.spec_members(true).contains(member_text("sequential_download_from_piece"@, int_text(v as int)))) by {
            broadcast use lemma_push_opt_keeps, lemma_push_keeps;
        }
        lemma_object_holds_member(a.spec_members(true), member_text("sequential_download_from_piece"@, int_text(v as int)));
    }
}

} // verus!
