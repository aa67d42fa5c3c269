//! Arguments of session-set requests.
use vstd::prelude::*;
use crate::json::{
    key, object_text, opt_bool_json, opt_bool_text, opt_i32_json, opt_i32_text, opt_string_json,
    opt_string_text, opt_u16_json, opt_u16_text, opt_u64_json, opt_u64_text, pick, push_opt,
    JsonObject,
};
use crate::types::{
    opt_alt_speed_day_json, opt_alt_speed_day_text, opt_encryption_json, opt_encryption_text,
    opt_minutes_json, opt_minutes_text, opt_ratio_json, opt_ratio_text, opt_transports_json,
    opt_transports_text, AltSpeedDay, Encryption, MinutesAfterMidnight, RatioLimit, Transport,
};

use crate::json::{bool_text, has_member, int_text, lemma_object_holds_member, lemma_push_keeps, lemma_push_opt_keeps, member_text, string_text};
use crate::types::transports_text;

verus! {

/// Arguments of a session-set request: the session settings to change. Absent fields are
/// left as they are.
#[derive(Debug, Clone, PartialEq)]
pub struct SessionSetArgs {
    /// The maximum global download speed with the alternative limits (kB/s).
    pub alt_speed_down: Option<u64>,
    /// Whether the alternative speed limits are used.
    pub alt_speed_enabled: Option<bool>,
    /// When the alternative speed limits switch on.
    pub alt_speed_time_begin: Option<MinutesAfterMidnight>,
    /// The days on which the alternative speed limits switch on.
    pub alt_speed_time_day: Option<AltSpeedDay>,
    /// Whether the alternative speed limits follow their schedule.
    pub alt_speed_time_enabled: Option<bool>,
    /// When the alternative speed limits switch off.
    pub alt_speed_time_end: Option<MinutesAfterMidnight>,
    /// The maximum global upload speed with the alternative limits (kB/s).
    pub alt_speed_up: Option<u64>,
    /// Whether the rpc server's brute force protection is on (JSON-RPC only).
    pub anti_brute_force_enabled: Option<bool>,
    /// The number of failed authentications after which the rpc server refuses any (JSON-RPC only).
    pub anti_brute_force_threshold: Option<u64>,
    /// Whether peers are blocked by the blocklist.
    pub blocklist_enabled: Option<bool>,
    /// Where the blocklist is fetched from.
    pub blocklist_url: Option<String>,
    /// The size of the memory cache in MiB; called `cache_size_mib` in JSON-RPC.
    pub cache_size_mb: Option<i32>,
    /// Announce URLs added to public torrents, one per line, with a blank line between tiers.
    pub default_trackers: Option<String>,
    /// Whether the distributed hash table is used for public torrents.
    pub dht_enabled: Option<bool>,
    /// The default path to download torrents to.
    pub download_dir: Option<String>,
    /// Whether the number of torrents downloaded at once is limited.
    pub download_queue_enabled: Option<bool>,
    /// The number of torrents downloaded at once.
    pub download_queue_size: Option<u64>,
    /// The encryption preference for peer connections.
    pub encryption: Option<Encryption>,
    /// Torrents idle this long (minutes) are no longer seeded.
    pub idle_seeding_limit: Option<u64>,
    /// Whether the idle seeding limit is honored by default.
    pub idle_seeding_limit_enabled: Option<bool>,
    /// The path for incomplete torrents.
    pub incomplete_dir: Option<String>,
    /// Whether incomplete torrents are kept in `incomplete_dir`.
    pub incomplete_dir_enabled: Option<bool>,
    /// Whether local peer discovery is used for public torrents.
    pub lpd_enabled: Option<bool>,
    /// The maximum global number of peers.
    pub peer_limit_global: Option<u64>,
    /// The maximum number of peers per torrent.
    pub peer_limit_per_torrent: Option<u64>,
    /// Whether a random peer port is picked on launch.
    pub peer_port_random_on_start: Option<bool>,
    /// The peer port.
    pub peer_port: Option<u16>,
    /// Whether peer exchange is used for public torrents.
    pub pex_enabled: Option<bool>,
    /// Whether the router is asked to forward the peer port.
    pub port_forwarding_enabled: Option<bool>,
    /// The transport protocols in order of preference (JSON-RPC only).
    pub preferred_transports: Option<Vec<Transport>>,
    /// Whether idle torrents are counted as stalled.
    pub queue_stalled_enabled: Option<bool>,
    /// Torrents idle this long (minutes) are stalled.
    pub queue_stalled_minutes: Option<u64>,
    /// Whether incomplete files get the `.part` suffix.
    pub rename_partial_files: Option<bool>,
    /// The number of block requests a peer may queue.
    pub reqq: Option<u64>,
    /// Whether a script runs when a torrent is added.
    pub script_torrent_added_enabled: Option<bool>,
    /// The script run when a torrent is added.
    pub script_torrent_added_filename: Option<String>,
    /// Whether a script runs when a torrent is done downloading.
    pub script_torrent_done_enabled: Option<bool>,
    /// The script run when a torrent is done downloading.
    pub script_torrent_done_filename: Option<String>,
    /// Whether a script runs when a torrent is done seeding.
    pub script_torrent_done_seeding_enabled: Option<bool>,
    /// The script run when a torrent is done seeding.
    pub script_torrent_done_seeding_filename: Option<String>,
    /// Whether the number of torrents seeded at once is limited.
    pub seed_queue_enabled: Option<bool>,
    /// The number of torrents seeded at once.
    pub seed_queue_size: Option<u64>,
    /// The default seeding ratio.
    pub seed_ratio_limit: Option<RatioLimit>,
    /// Whether the seeding ratio is honored by default.
    pub seed_ratio_limited: Option<bool>,
    /// Whether added torrents download their pieces in order (JSON-RPC only).
    pub sequential_download: Option<bool>,
    /// The piece to start from when downloading in order (JSON-RPC only).
    pub sequential_download_from_piece: Option<u64>,
    /// The maximum global download speed (kB/s).
    pub speed_limit_down: Option<u64>,
    /// Whether `speed_limit_down` is honored.
    pub speed_limit_down_enabled: Option<bool>,
    /// The maximum global upload speed (kB/s).
    pub speed_limit_up: Option<i32>,
    /// Whether `speed_limit_up` is honored.
    pub speed_limit_up_enabled: Option<bool>,
    /// Whether torrents are started as soon as they are added.
    pub start_added_torrents: Option<bool>,
    /// Whether torrent files added from the watch directory are deleted.
    pub trash_original_torrent_files: Option<bool>,
    /// Whether uTP is used.
    pub utp_enabled: Option<bool>,
}

impl SessionSetArgs {
    /// The members of the JSON object of these arguments, in the order of the fields, the
    /// absent ones left out, with the keys of the older protocol or of JSON-RPC. Some fields
    /// exist only in JSON-RPC.
    pub open spec fn spec_members(self, compat: bool) -> Seq<Seq<char>> {
        let ms = Seq::<Seq<char>>::empty();
        let ms = push_opt(ms, key(compat, "alt-speed-down", "alt_speed_down"), opt_u64_text(self.alt_speed_down));
        let ms = push_opt(ms, key(compat, "alt-speed-enabled", "alt_speed_enabled"), opt_bool_text(self.alt_speed_enabled));
        let ms = push_opt(ms, key(compat, "alt-speed-time-begin", "alt_speed_time_begin"), opt_minutes_text(self.alt_speed_time_begin));
        let ms = push_opt(ms, key(compat, "alt-speed-time-day", "alt_speed_time_day"), opt_alt_speed_day_text(self.alt_speed_time_day));
        let ms = push_opt(ms, key(compat, "alt-speed-time-enabled", "alt_speed_time_enabled"), opt_bool_text(self.alt_speed_time_enabled));
        let ms = push_opt(ms, key(compat, "alt-speed-time-end", "alt_speed_time_end"), opt_minutes_text(self.alt_speed_time_end));
        let ms = push_opt(ms, key(compat, "alt-speed-up", "alt_speed_up"), opt_u64_text(self.alt_speed_up));
        let ms = if compat {
            push_opt(ms, "anti_brute_force_enabled"@, opt_bool_text(self.anti_brute_force_enabled))
        } else {
            ms
        };
        let ms = if compat {
            push_opt(ms, "anti_brute_force_threshold"@, opt_u64_text(self.anti_brute_force_threshold))
        } else {
            ms
        };
        let ms = push_opt(ms, key(compat, "blocklist-enabled", "blocklist_enabled"), opt_bool_text(self.blocklist_enabled));
        let ms = push_opt(ms, key(compat, "blocklist-url", "blocklist_url"), opt_string_text(self.blocklist_url));
        let ms = push_opt(ms, key(compat, "cache-size-mb", "cache_size_mib"), opt_i32_text(self.cache_size_mb));
        let ms = push_opt(ms, key(compat, "default-trackers", "default_trackers"), opt_string_text(self.default_trackers));
        let ms = push_opt(ms, key(compat, "dht-enabled", "dht_enabled"), opt_bool_text(self.dht_enabled));
        let ms = push_opt(ms, key(compat, "download-dir", "download_dir"), opt_string_text(self.download_dir));
        let ms = push_opt(ms, key(compat, "download-queue-enabled", "download_queue_enabled"), opt_bool_text(self.download_queue_enabled));
        let ms = push_opt(ms, key(compat, "download-queue-size", "download_queue_size"), opt_u64_text(self.download_queue_size));
        let ms = push_opt(ms, "encryption"@, opt_encryption_text(self.encryption, compat));
        let ms = push_opt(ms, key(compat, "idle-seeding-limit", "idle_seeding_limit"), opt_u64_text(self.idle_seeding_limit));
        let ms = push_opt(ms, key(compat, "idle-seeding-limit-enabled", "idle_seeding_limit_enabled"), opt_bool_text(self.idle_seeding_limit_enabled));
        let ms = push_opt(ms, key(compat, "incomplete-dir", "incomplete_dir"), opt_string_text(self.incomplete_dir));
        let ms = push_opt(ms, key(compat, "incomplete-dir-enabled", "incomplete_dir_enabled"), opt_bool_text(self.incomplete_dir_enabled));
        let ms = push_opt(ms, key(compat, "lpd-enabled", "lpd_enabled"), opt_bool_text(self.lpd_enabled));
        let ms = push_opt(ms, key(compat, "peer-limit-global", "peer_limit_global"), opt_u64_text(self.peer_limit_global));
        let ms = push_opt(ms, key(compat, "peer-limit-per-torrent", "peer_limit_per_torrent"), opt_u64_text(self.peer_limit_per_torrent));
        let ms = push_opt(ms, key(compat, "peer-port-random-on-start", "peer_port_random_on_start"), opt_bool_text(self.peer_port_random_on_start));
        let ms = push_opt(ms, key(compat, "peer-port", "peer_port"), opt_u16_text(self.peer_port));
        let ms = push_opt(ms, key(compat, "pex-enabled", "pex_enabled"), opt_bool_text(self.pex_enabled));
        let ms = push_opt(ms, key(compat, "port-forwarding-enabled", "port_forwarding_enabled"), opt_bool_text(self.port_forwarding_enabled));
        let ms = if compat {
            push_opt(ms, "preferred_transports"@, opt_transports_text(self.preferred_transports))
        } else {
            ms
        };
        let ms = push_opt(ms, key(compat, "queue-stalled-enabled", "queue_stalled_enabled"), opt_bool_text(self.queue_stalled_enabled));
        let ms = push_opt(ms, key(compat, "queue-stalled-minutes", "queue_stalled_minutes"), opt_u64_text(self.queue_stalled_minutes));
        let ms = push_opt(ms, key(compat, "rename-partial-files", "rename_partial_files"), opt_bool_text(self.rename_partial_files));
        let ms = push_opt(ms, "reqq"@, opt_u64_text(self.reqq));
        let ms = push_opt(ms, key(compat, "script-torrent-added-enabled", "script_torrent_added_enabled"), opt_bool_text(self.script_torrent_added_enabled));
        let ms = push_opt(ms, key(compat, "script-torrent-added-filename", "script_torrent_added_filename"), opt_string_text(self.script_torrent_added_filename));
        let ms = push_opt(ms, key(compat, "script-torrent-done-enabled", "script_torrent_done_enabled"), opt_bool_text(self.script_torrent_done_enabled));
        let ms = push_opt(ms, key(compat, "script-torrent-done-filename", "script_torrent_done_filename"), opt_string_text(self.script_torrent_done_filename));
        let ms = push_opt(ms, key(compat, "script-torrent-done-seeding-enabled", "script_torrent_done_seeding_enabled"), opt_bool_text(self.script_torrent_done_seeding_enabled));
        let ms = push_opt(ms, key(compat, "script-torrent-done-seeding-filename", "script_torrent_done_seeding_filename"), opt_string_text(self.script_torrent_done_seeding_filename));
        let ms = push_opt(ms, key(compat, "seed-queue-enabled", "seed_queue_enabled"), opt_bool_text(self.seed_queue_enabled));
        let ms = push_opt(ms, key(compat, "seed-queue-size", "seed_queue_size"), opt_u64_text(self.seed_queue_size));
        let ms = push_opt(ms, key(compat, "seedRatioLimit", "seed_ratio_limit"), opt_ratio_text(self.seed_ratio_limit));
        let ms = push_opt(ms, key(compat, "seedRatioLimited", "seed_ratio_limited"), opt_bool_text(self.seed_ratio_limited));
        let ms = if compat {
            push_opt(ms, "sequential_download"@, opt_bool_text(self.sequential_download))
        } else {
            ms
        };
        let ms = if compat {
            push_opt(ms, "sequential_download_from_piece"@, opt_u64_text(self.sequential_download_from_piece))
        } else {
            ms
        };
        let ms = push_opt(ms, key(compat, "speed-limit-down", "speed_limit_down"), opt_u64_text(self.speed_limit_down));
        let ms = push_opt(ms, key(compat, "speed-limit-down-enabled", "speed_limit_down_enabled"), opt_bool_text(self.speed_limit_down_enabled));
        let ms = push_opt(ms, key(compat, "speed-limit-up", "speed_limit_up"), opt_i32_text(self.speed_limit_up));
        let ms = push_opt(ms, key(compat, "speed-limit-up-enabled", "speed_limit_up_enabled"), opt_bool_text(self.speed_limit_up_enabled));
        let ms = push_opt(ms, key(compat, "start-added-torrents", "start_added_torrents"), opt_bool_text(self.start_added_torrents));
        let ms = push_opt(ms, key(compat, "trash-original-torrent-files", "trash_original_torrent_files"), opt_bool_text(self.trash_original_torrent_files));
        let ms = push_opt(ms, key(compat, "utp-enabled", "utp_enabled"), opt_bool_text(self.utp_enabled));
        ms
    }

    /// The JSON object of these arguments.
    pub open spec fn spec_json(self, compat: bool) -> Seq<char> {
        object_text(self.spec_members(compat))
    }

    /// The JSON object of these arguments.
    #[verifier::rlimit(50)]
    pub fn to_json(&self, compat: bool) -> (s: String)
        ensures
            s@ == self.spec_json(compat),
    {
        let mut o = JsonObject::new();
        o.opt_field(pick(compat, "alt-speed-down", "alt_speed_down"), opt_u64_json(self.alt_speed_down));
        o.opt_field(pick(compat, "alt-speed-enabled", "alt_speed_enabled"), opt_bool_json(self.alt_speed_enabled));
        o.opt_field(pick(compat, "alt-speed-time-begin", "alt_speed_time_begin"), opt_minutes_json(self.alt_speed_time_begin));
        o.opt_field(pick(compat, "alt-speed-time-day", "alt_speed_time_day"), opt_alt_speed_day_json(self.alt_speed_time_day));
        o.opt_field(pick(compat, "alt-speed-time-enabled", "alt_speed_time_enabled"), opt_bool_json(self.alt_speed_time_enabled));
        o.opt_field(pick(compat, "alt-speed-time-end", "alt_speed_time_end"), opt_minutes_json(self.alt_speed_time_end));
        o.opt_field(pick(compat, "alt-speed-up", "alt_speed_up"), opt_u64_json(self.alt_speed_up));
        if compat {
            o.opt_field("anti_brute_force_enabled", opt_bool_json(self.anti_brute_force_enabled));
        }
        if compat {
            o.opt_field("anti_brute_force_threshold", opt_u64_json(self.anti_brute_force_threshold));
        }
        o.opt_field(pick(compat, "blocklist-enabled", "blocklist_enabled"), opt_bool_json(self.blocklist_enabled));
        o.opt_field(pick(compat, "blocklist-url", "blocklist_url"), opt_string_json(&self.blocklist_url));
        o.opt_field(pick(compat, "cache-size-mb", "cache_size_mib"), opt_i32_json(self.cache_size_mb));
        o.opt_field(pick(compat, "default-trackers", "default_trackers"), opt_string_json(&self.default_trackers));
        o.opt_field(pick(compat, "dht-enabled", "dht_enabled"), opt_bool_json(self.dht_enabled));
        o.opt_field(pick(compat, "download-dir", "download_dir"), opt_string_json(&self.download_dir));
        o.opt_field(pick(compat, "download-queue-enabled", "download_queue_enabled"), opt_bool_json(self.download_queue_enabled));
        o.opt_field(pick(compat, "download-queue-size", "download_queue_size"), opt_u64_json(self.download_queue_size));
        o.opt_field("encryption", opt_encryption_json(self.encryption, compat));
        o.opt_field(pick(compat, "idle-seeding-limit", "idle_seeding_limit"), opt_u64_json(self.idle_seeding_limit));
        o.opt_field(pick(compat, "idle-seeding-limit-enabled", "idle_seeding_limit_enabled"), opt_bool_json(self.idle_seeding_limit_enabled));
        o.opt_field(pick(compat, "incomplete-dir", "incomplete_dir"), opt_string_json(&self.incomplete_dir));
        o.opt_field(pick(compat, "incomplete-dir-enabled", "incomplete_dir_enabled"), opt_bool_json(self.incomplete_dir_enabled));
        o.opt_field(pick(compat, "lpd-enabled", "lpd_enabled"), opt_bool_json(self.lpd_enabled));
        o.opt_field(pick(compat, "peer-limit-global", "peer_limit_global"), opt_u64_json(self.peer_limit_global));
        o.opt_field(pick(compat, "peer-limit-per-torrent", "peer_limit_per_torrent"), opt_u64_json(self.peer_limit_per_torrent));
        o.opt_field(pick(compat, "peer-port-random-on-start", "peer_port_random_on_start"), opt_bool_json(self.peer_port_random_on_start));
        o.opt_field(pick(compat, "peer-port", "peer_port"), opt_u16_json(self.peer_port));
        o.opt_field(pick(compat, "pex-enabled", "pex_enabled"), opt_bool_json(self.pex_enabled));
        o.opt_field(pick(compat, "port-forwarding-enabled", "port_forwarding_enabled"), opt_bool_json(self.port_forwarding_enabled));
        if compat {
            o.opt_field("preferred_transports", opt_transports_json(&self.preferred_transports));
        }
        o.opt_field(pick(compat, "queue-stalled-enabled", "queue_stalled_enabled"), opt_bool_json(self.queue_stalled_enabled));
        o.opt_field(pick(compat, "queue-stalled-minutes", "queue_stalled_minutes"), opt_u64_json(self.queue_stalled_minutes));
        o.opt_field(pick(compat, "rename-partial-files", "rename_partial_files"), opt_bool_json(self.rename_partial_files));
        o.opt_field("reqq", opt_u64_json(self.reqq));
        o.opt_field(pick(compat, "script-torrent-added-enabled", "script_torrent_added_enabled"), opt_bool_json(self.script_torrent_added_enabled));
        o.opt_field(pick(compat, "script-torrent-added-filename", "script_torrent_added_filename"), opt_string_json(&self.script_torrent_added_filename));
        o.opt_field(pick(compat, "script-torrent-done-enabled", "script_torrent_done_enabled"), opt_bool_json(self.script_torrent_done_enabled));
        o.opt_field(pick(compat, "script-torrent-done-filename", "script_torrent_done_filename"), opt_string_json(&self.script_torrent_done_filename));
        o.opt_field(pick(compat, "script-torrent-done-seeding-enabled", "script_torrent_done_seeding_enabled"), opt_bool_json(self.script_torrent_done_seeding_enabled));
        o.opt_field(pick(compat, "script-torrent-done-seeding-filename", "script_torrent_done_seeding_filename"), opt_string_json(&self.script_torrent_done_seeding_filename));
        o.opt_field(pick(compat, "seed-queue-enabled", "seed_queue_enabled"), opt_bool_json(self.seed_queue_enabled));
        o.opt_field(pick(compat, "seed-queue-size", "seed_queue_size"), opt_u64_json(self.seed_queue_size));
        o.opt_field(pick(compat, "seedRatioLimit", "seed_ratio_limit"), opt_ratio_json(&self.seed_ratio_limit));
        o.opt_field(pick(compat, "seedRatioLimited", "seed_ratio_limited"), opt_bool_json(self.seed_ratio_limited));
        if compat {
            o.opt_field("sequential_download", opt_bool_json(self.sequential_download));
        }
        if compat {
            o.opt_field("sequential_download_from_piece", opt_u64_json(self.sequential_download_from_piece));
        }
        o.opt_field(pick(compat, "speed-limit-down", "speed_limit_down"), opt_u64_json(self.speed_limit_down));
        o.opt_field(pick(compat, "speed-limit-down-enabled", "speed_limit_down_enabled"), opt_bool_json(self.speed_limit_down_enabled));
        o.opt_field(pick(compat, "speed-limit-up", "speed_limit_up"), opt_i32_json(self.speed_limit_up));
        o.opt_field(pick(compat, "speed-limit-up-enabled", "speed_limit_up_enabled"), opt_bool_json(self.speed_limit_up_enabled));
        o.opt_field(pick(compat, "start-added-torrents", "start_added_torrents"), opt_bool_json(self.start_added_torrents));
        o.opt_field(pick(compat, "trash-original-torrent-files", "trash_original_torrent_files"), opt_bool_json(self.trash_original_torrent_files));
        o.opt_field(pick(compat, "utp-enabled", "utp_enabled"), opt_bool_json(self.utp_enabled));
        o.finish()
    }

    /// Arguments with every field absent.
    pub open spec fn spec_empty() -> SessionSetArgs {
        SessionSetArgs {
            alt_speed_down: None,
            alt_speed_enabled: None,
            alt_speed_time_begin: None,
            alt_speed_time_day: None,
            alt_speed_time_enabled: None,
            alt_speed_time_end: None,
            alt_speed_up: None,
            anti_brute_force_enabled: None,
            anti_brute_force_threshold: None,
            blocklist_enabled: None,
            blocklist_url: None,
            cache_size_mb: None,
            default_trackers: None,
            dht_enabled: None,
            download_dir: None,
            download_queue_enabled: None,
            download_queue_size: None,
            encryption: None,
            idle_seeding_limit: None,
            idle_seeding_limit_enabled: None,
            incomplete_dir: None,
            incomplete_dir_enabled: None,
            lpd_enabled: None,
            peer_limit_global: None,
            peer_limit_per_torrent: None,
            peer_port_random_on_start: None,
            peer_port: None,
            pex_enabled: None,
            port_forwarding_enabled: None,
            preferred_transports: None,
            queue_stalled_enabled: None,
            queue_stalled_minutes: None,
            rename_partial_files: None,
            reqq: None,
            script_torrent_added_enabled: None,
            script_torrent_added_filename: None,
            script_torrent_done_enabled: None,
            script_torrent_done_filename: None,
            script_torrent_done_seeding_enabled: None,
            script_torrent_done_seeding_filename: None,
            seed_queue_enabled: None,
            seed_queue_size: None,
            seed_ratio_limit: None,
            seed_ratio_limited: None,
            sequential_download: None,
            sequential_download_from_piece: None,
            speed_limit_down: None,
            speed_limit_down_enabled: None,
            speed_limit_up: None,
            speed_limit_up_enabled: None,
            start_added_torrents: None,
            trash_original_torrent_files: None,
            utp_enabled: None,
        }
    }

    /// Arguments with every field absent.
    pub fn new() -> (a: SessionSetArgs)
        ensures
            a == Self::spec_empty(),
    {
        SessionSetArgs {
            alt_speed_down: None,
            alt_speed_enabled: None,
            alt_speed_time_begin: None,
            alt_speed_time_day: None,
            alt_speed_time_enabled: None,
            alt_speed_time_end: None,
            alt_speed_up: None,
            anti_brute_force_enabled: None,
            anti_brute_force_threshold: None,
            blocklist_enabled: None,
            blocklist_url: None,
            cache_size_mb: None,
            default_trackers: None,
            dht_enabled: None,
            download_dir: None,
            download_queue_enabled: None,
            download_queue_size: None,
            encryption: None,
            idle_seeding_limit: None,
            idle_seeding_limit_enabled: None,
            incomplete_dir: None,
            incomplete_dir_enabled: None,
            lpd_enabled: None,
            peer_limit_global: None,
            peer_limit_per_torrent: None,
            peer_port_random_on_start: None,
            peer_port: None,
            pex_enabled: None,
            port_forwarding_enabled: None,
            preferred_transports: None,
            queue_stalled_enabled: None,
            queue_stalled_minutes: None,
            rename_partial_files: None,
            reqq: None,
            script_torrent_added_enabled: None,
            script_torrent_added_filename: None,
            script_torrent_done_enabled: None,
            script_torrent_done_filename: None,
            script_torrent_done_seeding_enabled: None,
            script_torrent_done_seeding_filename: None,
            seed_queue_enabled: None,
            seed_queue_size: None,
            seed_ratio_limit: None,
            seed_ratio_limited: None,
            sequential_download: None,
            sequential_download_from_piece: None,
            speed_limit_down: None,
            speed_limit_down_enabled: None,
            speed_limit_up: None,
            speed_limit_up_enabled: None,
            start_added_torrents: None,
            trash_original_torrent_files: None,
            utp_enabled: None,
        }
    }
}

impl Default for SessionSetArgs {
    fn default() -> (a: SessionSetArgs)
        ensures
            a == SessionSetArgs::spec_empty(),
    {
        SessionSetArgs::new()
    }
}

/// Every setting given to a session-set request is a member of its JSON object, under its
/// key: in the older protocol the kebab-case name (and `seedRatioLimit`,
/// `seedRatioLimited`), in JSON-RPC the snake-case name (`cache_size_mib` for the cache
/// size), with the value written as JSON: times of day wrapped into the day, the
/// encryption preference "tolerated" named "allowed" in JSON-RPC. Some settings exist only
/// in JSON-RPC.
pub proof fn lemma_session_set_members(a: SessionSetArgs)
    ensures
        a.alt_speed_down matches Some(v) ==> has_member(a.spec_json(false), "alt-speed-down"@, int_text(v as int)),
        a.alt_speed_down matches Some(v) ==> has_member(a.spec_json(true), "alt_speed_down"@, int_text(v as int)),
        a.alt_speed_enabled matches Some(v) ==> has_member(a.spec_json(false), "alt-speed-enabled"@, bool_text(v)),
        a.alt_speed_enabled matches Some(v) ==> has_member(a.spec_json(true), "alt_speed_enabled"@, bool_text(v)),
        a.alt_speed_time_begin matches Some(v) ==> has_member(a.spec_json(false), "alt-speed-time-begin"@, int_text((v.0 as int) % 1440)),
        a.alt_speed_time_begin matches Some(v) ==> has_member(a.spec_json(true), "alt_speed_time_begin"@, int_text((v.0 as int) % 1440)),
        a.alt_speed_time_day matches Some(v) ==> has_member(a.spec_json(false), "alt-speed-time-day"@, int_text(v.spec_bits() as int)),
        a.alt_speed_time_day matches Some(v) ==> has_member(a.spec_json(true), "alt_speed_time_day"@, int_text(v.spec_bits() as int)),
        a.alt_speed_time_enabled matches Some(v) ==> has_member(a.spec_json(false), "alt-speed-time-enabled"@, bool_text(v)),
        a.alt_speed_time_enabled matches Some(v) ==> has_member(a.spec_json(true), "alt_speed_time_enabled"@, bool_text(v)),
        a.alt_speed_time_end matches Some(v) ==> has_member(a.spec_json(false), "alt-speed-time-end"@, int_text((v.0 as int) % 1440)),
        a.alt_speed_time_end matches Some(v) ==> has_member(a.spec_json(true), "alt_speed_time_end"@, int_text((v.0 as int) % 1440)),
        a.alt_speed_up matches Some(v) ==> has_member(a.spec_json(false), "alt-speed-up"@, int_text(v as int)),
        a.alt_speed_up matches Some(v) ==> has_member(a.spec_json(true), "alt_speed_up"@, int_text(v as int)),
        a.anti_brute_force_enabled matches Some(v) ==> has_member(a.spec_json(true), "anti_brute_force_enabled"@, bool_text(v)),
        a.anti_brute_force_threshold matches Some(v) ==> has_member(a.spec_json(true), "anti_brute_force_threshold"@, int_text(v as int)),
        a.blocklist_enabled matches Some(v) ==> has_member(a.spec_json(false), "blocklist-enabled"@, bool_text(v)),
        a.blocklist_enabled matches Some(v) ==> has_member(a.spec_json(true), "blocklist_enabled"@, bool_text(v)),
        a.blocklist_url matches Some(v) ==> has_member(a.spec_json(false), "blocklist-url"@, string_text(v@)),
        a.blocklist_url matches Some(v) ==> has_member(a.spec_json(true), "blocklist_url"@, string_text(v@)),
        a.cache_size_mb matches Some(v) ==> has_member(a.spec_json(false), "cache-size-mb"@, int_text(v as int)),
        a.cache_size_mb matches Some(v) ==> has_member(a.spec_json(true), "cache_size_mib"@, int_text(v as int)),
        a.default_trackers matches Some(v) ==> has_member(a.spec_json(false), "default-trackers"@, string_text(v@)),
        a.default_trackers matches Some(v) ==> has_member(a.spec_json(true), "default_trackers"@, string_text(v@)),
        a.dht_enabled matches Some(v) ==> has_member(a.spec_json(false), "dht-enabled"@, bool_text(v)),
        a.dht_enabled matches Some(v) ==> has_member(a.spec_json(true), "dht_enabled"@, bool_text(v)),
        a.download_dir matches Some(v) ==> has_member(a.spec_json(false), "download-dir"@, string_text(v@)),
        a.download_dir matches Some(v) ==> has_member(a.spec_json(true), "download_dir"@, string_text(v@)),
        a.download_queue_enabled matches Some(v) ==> has_member(a.spec_json(false), "download-queue-enabled"@, bool_text(v)),
        a.download_queue_enabled matches Some(v) ==> has_member(a.spec_json(true), "download_queue_enabled"@, bool_text(v)),
        a.download_queue_size matches Some(v) ==> has_member(a.spec_json(false), "download-queue-size"@, int_text(v as int)),
        a.download_queue_size matches Some(v) ==> has_member(a.spec_json(true), "download_queue_size"@, int_text(v as int)),
        a.encryption matches Some(v) ==> has_member(a.spec_json(false), "encryption"@, string_text(v.spec_name())),
        a.encryption matches Some(v) ==> has_member(a.spec_json(true), "encryption"@, string_text(v.spec_compat_name())),
        a.idle_seeding_limit matches Some(v) ==> has_member(a.spec_json(false), "idle-seeding-limit"@, int_text(v as int)),
        a.idle_seeding_limit matches Some(v) ==> has_member(a.spec_json(true), "idle_seeding_limit"@, int_text(v as int)),
        a.idle_seeding_limit_enabled matches Some(v) ==> has_member(a.spec_json(false), "idle-seeding-limit-enabled"@, bool_text(v)),
        a.idle_seeding_limit_enabled matches Some(v) ==> has_member(a.spec_json(true), "idle_seeding_limit_enabled"@, bool_text(v)),
        a.incomplete_dir matches Some(v) ==> has_member(a.spec_json(false), "incomplete-dir"@, string_text(v@)),
        a.incomplete_dir matches Some(v) ==> has_member(a.spec_json(true), "incomplete_dir"@, string_text(v@)),
        a.incomplete_dir_enabled matches Some(v) ==> has_member(a.spec_json(false), "incomplete-dir-enabled"@, bool_text(v)),
        a.incomplete_dir_enabled matches Some(v) ==> has_member(a.spec_json(true), "incomplete_dir_enabled"@, bool_text(v)),
        a.lpd_enabled matches Some(v) ==> has_member(a.spec_json(false), "lpd-enabled"@, bool_text(v)),
        a.lpd_enabled matches Some(v) ==> has_member(a.spec_json(true), "lpd_enabled"@, bool_text(v)),
        a.peer_limit_global matches Some(v) ==> has_member(a.spec_json(false), "peer-limit-global"@, int_text(v as int)),
        a.peer_limit_global matches Some(v) ==> has_member(a.spec_json(true), "peer_limit_global"@, int_text(v as int)),
        a.peer_limit_per_torrent matches Some(v) ==> has_member(a.spec_json(false), "peer-limit-per-torrent"@, int_text(v as int)),
        a.peer_limit_per_torrent matches Some(v) ==> has_member(a.spec_json(true), "peer_limit_per_torrent"@, int_text(v as int)),
        a.peer_port_random_on_start matches Some(v) ==> has_member(a.spec_json(false), "peer-port-random-on-start"@, bool_text(v)),
        a.peer_port_random_on_start matches Some(v) ==> has_member(a.spec_json(true), "peer_port_random_on_start"@, bool_text(v)),
        a.peer_port matches Some(v) ==> has_member(a.spec_json(false), "peer-port"@, int_text(v as int)),
        a.peer_port matches Some(v) ==> has_member(a.spec_json(true), "peer_port"@, int_text(v as int)),
        a.pex_enabled matches Some(v) ==> has_member(a.spec_json(false), "pex-enabled"@, bool_text(v)),
        a.pex_enabled matches Some(v) ==> has_member(a.spec_json(true), "pex_enabled"@, bool_text(v)),
        a.port_forwarding_enabled matches Some(v) ==> has_member(a.spec_json(false), "port-forwarding-enabled"@, bool_text(v)),
        a.port_forwarding_enabled matches Some(v) ==> has_member(a.spec_json(true), "port_forwarding_enabled"@, bool_text(v)),
        a.preferred_transports matches Some(v) ==> has_member(a.spec_json(true), "preferred_transports"@, transports_text(v@)),
        a.queue_stalled_enabled matches Some(v) ==> has_member(a.spec_json(false), "queue-stalled-enabled"@, bool_text(v)),
        a.queue_stalled_enabled matches Some(v) ==> has_member(a.spec_json(true), "queue_stalled_enabled"@, bool_text(v)),
        a.queue_stalled_minutes matches Some(v) ==> has_member(a.spec_json(false), "queue-stalled-minutes"@, int_text(v as int)),
        a.queue_stalled_minutes matches Some(v) ==> has_member(a.spec_json(true), "queue_stalled_minutes"@, int_text(v as int)),
        a.rename_partial_files matches Some(v) ==> has_member(a.spec_json(false), "rename-partial-files"@, bool_text(v)),
        a.rename_partial_files matches Some(v) ==> has_member(a.spec_json(true), "rename_partial_files"@, bool_text(v)),
        a.reqq matches Some(v) ==> has_member(a.spec_json(false), "reqq"@, int_text(v as int)),
        a.reqq matches Some(v) ==> has_member(a.spec_json(true), "reqq"@, int_text(v as int)),
        a.script_torrent_added_enabled matches Some(v) ==> has_member(a.spec_json(false), "script-torrent-added-enabled"@, bool_text(v)),
        a.script_torrent_added_enabled matches Some(v) ==> has_member(a.spec_json(true), "script_torrent_added_enabled"@, bool_text(v)),
        a.script_torrent_added_filename matches Some(v) ==> has_member(a.spec_json(false), "script-torrent-added-filename"@, string_text(v@)),
        a.script_torrent_added_filename matches Some(v) ==> has_member(a.spec_json(true), "script_torrent_added_filename"@, string_text(v@)),
        a.script_torrent_done_enabled matches Some(v) ==> has_member(a.spec_json(false), "script-torrent-done-enabled"@, bool_text(v)),
        a.script_torrent_done_enabled matches Some(v) ==> has_member(a.spec_json(true), "script_torrent_done_enabled"@, bool_text(v)),
        a.script_torrent_done_filename matches Some(v) ==> has_member(a.spec_json(false), "script-torrent-done-filename"@, string_text(v@)),
        a.script_torrent_done_filename matches Some(v) ==> has_member(a.spec_json(true), "script_torrent_done_filename"@, string_text(v@)),
        a.script_torrent_done_seeding_enabled matches Some(v) ==> has_member(a.spec_json(false), "script-torrent-done-seeding-enabled"@, bool_text(v)),
        a.script_torrent_done_seeding_enabled matches Some(v) ==> has_member(a.spec_json(true), "script_torrent_done_seeding_enabled"@, bool_text(v)),
        a.script_torrent_done_seeding_filename matches Some(v) ==> has_member(a.spec_json(false), "script-torrent-done-seeding-filename"@, string_text(v@)),
        a.script_torrent_done_seeding_filename matches Some(v) ==> has_member(a.spec_json(true), "script_torrent_done_seeding_filename"@, string_text(v@)),
        a.seed_queue_enabled matches Some(v) ==> has_member(a.spec_json(false), "seed-queue-enabled"@, bool_text(v)),
        a.seed_queue_enabled matches Some(v) ==> has_member(a.spec_json(true), "seed_queue_enabled"@, bool_text(v)),
        a.seed_queue_size matches Some(v) ==> has_member(a.spec_json(false), "seed-queue-size"@, int_text(v as int)),
        a.seed_queue_size matches Some(v) ==> has_member(a.spec_json(true), "seed_queue_size"@, int_text(v as int)),
        a.seed_ratio_limit matches Some(v) ==> has_member(a.spec_json(false), "seedRatioLimit"@, v.spec_text()),
        a.seed_ratio_limit matches Some(v) ==> has_member(a.spec_json(true), "seed_ratio_limit"@, v.spec_text()),
        a.seed_ratio_limited matches Some(v) ==> has_member(a.spec_json(false), "seedRatioLimited"@, bool_text(v)),
        a.seed_ratio_limited matches Some(v) ==> has_member(a.spec_json(true), "seed_ratio_limited"@, bool_text(v)),
        a.sequential_download matches Some(v) ==> has_member(a.spec_json(true), "sequential_download"@, bool_text(v)),
        a.sequential_download_from_piece matches Some(v) ==> has_member(a.spec_json(true), "sequential_download_from_piece"@, int_text(v as int)),
        a.speed_limit_down matches Some(v) ==> has_member(a.spec_json(false), "speed-limit-down"@, int_text(v as int)),
        a.speed_limit_down matches Some(v) ==> has_member(a.spec_json(true), "speed_limit_down"@, int_text(v as int)),
        a.speed_limit_down_enabled matches Some(v) ==> has_member(a.spec_json(false), "speed-limit-down-enabled"@, bool_text(v)),
        a.speed_limit_down_enabled matches Some(v) ==> has_member(a.spec_json(true), "speed_limit_down_enabled"@, bool_text(v)),
        a.speed_limit_up matches Some(v) ==> has_member(a.spec_json(false), "speed-limit-up"@, int_text(v as int)),
        a.speed_limit_up matches Some(v) ==> has_member(a.spec_json(true), "speed_limit_up"@, int_text(v as int)),
        a.speed_limit_up_enabled matches Some(v) ==> has_member(a.spec_json(false), "speed-limit-up-enabled"@, bool_text(v)),
        a.speed_limit_up_enabled matches Some(v) ==> has_member(a.spec_json(true), "speed_limit_up_enabled"@, bool_text(v)),
        a.start_added_torrents matches Some(v) ==> has_member(a.spec_json(false), "start-added-torrents"@, bool_text(v)),
        a.start_added_torrents matches Some(v) ==> has_member(a.spec_json(true), "start_added_torrents"@, bool_text(v)),
        a.trash_original_torrent_files matches Some(v) ==> has_member(a.spec_json(false), "trash-original-torrent-files"@, bool_text(v)),
        a.trash_original_torrent_files matches Some(v) ==> has_member(a.spec_json(true), "trash_original_torrent_files"@, bool_text(v)),
        a.utp_enabled matches Some(v) ==> has_member(a.spec_json(false), "utp-enabled"@, bool_text(v)),
        a.utp_enabled matches Some(v) ==> has_member(a.spec_json(true), "utp_enabled"@, bool_text(v)),
{
    lemma_session_set_members_alt_speed_down(a);
    lemma_session_set_members_alt_speed_enabled(a);
    lemma_session_set_members_alt_speed_time_begin(a);
    lemma_session_set_members_alt_speed_time_day(a);
    lemma_session_set_members_alt_speed_time_enabled(a);
    lemma_session_set_members_alt_speed_time_end(a);
    lemma_session_set_members_alt_speed_up(a);
    lemma_session_set_members_anti_brute_force_enabled(a);
    lemma_session_set_members_anti_brute_force_threshold(a);
    lemma_session_set_members_blocklist_enabled(a);
    lemma_session_set_members_blocklist_url(a);
    lemma_session_set_members_cache_size_mb(a);
    lemma_session_set_members_default_trackers(a);
    lemma_session_set_members_dht_enabled(a);
    lemma_session_set_members_download_dir(a);
    lemma_session_set_members_download_queue_enabled(a);
    lemma_session_set_members_download_queue_size(a);
    lemma_session_set_members_encryption(a);
    lemma_session_set_members_idle_seeding_limit(a);
    lemma_session_set_members_idle_seeding_limit_enabled(a);
    lemma_session_set_members_incomplete_dir(a);
    lemma_session_set_members_incomplete_dir_enabled(a);
    lemma_session_set_members_lpd_enabled(a);
    lemma_session_set_members_peer_limit_global(a);
    lemma_session_set_members_peer_limit_per_torrent(a);
    lemma_session_set_members_peer_port_random_on_start(a);
    lemma_session_set_members_peer_port(a);
    lemma_session_set_members_pex_enabled(a);
    lemma_session_set_members_port_forwarding_enabled(a);
    lemma_session_set_members_preferred_transports(a);
    lemma_session_set_members_queue_stalled_enabled(a);
    lemma_session_set_members_queue_stalled_minutes(a);
    lemma_session_set_members_rename_partial_files(a);
    lemma_session_set_members_reqq(a);
    lemma_session_set_members_script_torrent_added_enabled(a);
    lemma_session_set_members_script_torrent_added_filename(a);
    lemma_session_set_members_script_torrent_done_enabled(a);
    lemma_session_set_members_script_torrent_done_filename(a);
    lemma_session_set_members_script_torrent_done_seeding_enabled(a);
    lemma_session_set_members_script_torrent_done_seeding_filename(a);
    lemma_session_set_members_seed_queue_enabled(a);
    lemma_session_set_members_seed_queue_size(a);
    lemma_session_set_members_seed_ratio_limit(a);
    lemma_session_set_members_seed_ratio_limited(a);
    lemma_session_set_members_sequential_download(a);
    lemma_session_set_members_sequential_download_from_piece(a);
    lemma_session_set_members_speed_limit_down(a);
    lemma_session_set_members_speed_limit_down_enabled(a);
    lemma_session_set_members_speed_limit_up(a);
    lemma_session_set_members_speed_limit_up_enabled(a);
    lemma_session_set_members_start_added_torrents(a);
    lemma_session_set_members_trash_original_torrent_files(a);
    lemma_session_set_members_utp_enabled(a);
}

proof fn lemma_session_set_members_alt_speed_down(a: SessionSetArgs)
    ensures
        a.alt_speed_down matches Some(v) ==> has_member(a.spec_json(false), "alt-speed-down"@, int_text(v as int)),
        a.alt_speed_down matches Some(v) ==> has_member(a.spec_json(true), "alt_speed_down"@, int_text(v as int)),
{
    if let Some(v) = a.alt_speed_down {
        assert(a.spec_members(false).contains(member_text("alt-speed-down"@, int_text(v as int)))) by {
            broadcast use lemma_push_opt_keeps, lemma_push_keeps;
        }
        lemma_object_holds_member(a.spec_members(false), member_text("alt-speed-down"@, int_text(v as int)));
        assert(a.spec_members(true).contains(member_text("alt_speed_down"@, int_text(v as int)))) by {
            broadcast use lemma_push_opt_keeps, lemma_push_keeps;
        }
        lemma_object_holds_member(a.spec_members(true), member_text("alt_speed_down"@, int_text(v as int)));
    }
}

proof fn lemma_session_set_members_alt_speed_enabled(a: SessionSetArgs)
    ensures
        a.alt_speed_enabled matches Some(v) ==> has_member(a.spec_json(false), "alt-speed-enabled"@, bool_text(v)),
        a.alt_speed_enabled matches Some(v) ==> has_member(a.spec_json(true), "alt_speed_enabled"@, bool_text(v)),
{
    if let Some(v) = a.alt_speed_enabled {
        assert(a.spec_members(false).contains(member_text("alt-speed-enabled"@, bool_text(v)))) by {
            broadcast use lemma_push_opt_keeps, lemma_push_keeps;
        }
        lemma_object_holds_member(a.spec_members(false), member_text("alt-speed-enabled"@, bool_text(v)));
        assert(a.spec_members(true).contains(member_text("alt_speed_enabled"@, bool_text(v)))) by {
            broadcast use lemma_push_opt_keeps, lemma_push_keeps;
        }
        lemma_object_holds_member(a.spec_members(true), member_text("alt_speed_enabled"@, bool_text(v)));
    }
}

proof fn lemma_session_set_members_alt_speed_time_begin(a: SessionSetArgs)
    ensures
        a.alt_speed_time_begin matches Some(v) ==> has_member(a.spec_json(false), "alt-speed-time-begin"@, int_text((v.0 as int) % 1440)),
        a.alt_speed_time_begin matches Some(v) ==> has_member(a.spec_json(true), "alt_speed_time_begin"@, int_text((v.0 as int) % 1440)),
{
    if let Some(v) = a.alt_speed_time_begin {
        assert(a.spec_members(false).contains(member_text("alt-speed-time-begin"@, int_text((v.0 as int) % 1440)))) by {
            broadcast use lemma_push_opt_keeps, lemma_push_keeps;
        }
        lemma_object_holds_member(a.spec_members(false), member_text("alt-speed-time-begin"@, int_text((v.0 as int) % 1440)));
        assert(a.spec_members(true).contains(member_text("alt_speed_time_begin"@, int_text((v.0 as int) % 1440)))) by {
            broadcast use lemma_push_opt_keeps, lemma_push_keeps;
        }
        lemma_object_holds_member(a.spec_members(true), member_text("alt_speed_time_begin"@, int_text((v.0 as int) % 1440)));
    }
}

proof fn lemma_session_set_members_alt_speed_time_day(a: SessionSetArgs)
    ensures
        a.alt_speed_time_day matches Some(v) ==> has_member(a.spec_json(false), "alt-speed-time-day"@, int_text(v.spec_bits() as int)),
        a.alt_speed_time_day matches Some(v) ==> has_member(a.spec_json(true), "alt_speed_time_day"@, int_text(v.spec_bits() as int)),
{
    if let Some(v) = a.alt_speed_time_day {
        assert(a.spec_members(false).contains(member_text("alt-speed-time-day"@, int_text(v.spec_bits() as int)))) by {
            broadcast use lemma_push_opt_keeps, lemma_push_keeps;
        }
        lemma_object_holds_member(a.spec_members(false), member_text("alt-speed-time-day"@, int_text(v.spec_bits() as int)));
        assert(a.spec_members(true).contains(member_text("alt_speed_time_day"@, int_text(v.spec_bits() as int)))) by {
            broadcast use lemma_push_opt_keeps, lemma_push_keeps;
        }
        lemma_object_holds_member(a.spec_members(true), member_text("alt_speed_time_day"@, int_text(v.spec_bits() as int)));
    }
}

proof fn lemma_session_set_members_alt_speed_time_enabled(a: SessionSetArgs)
    ensures
        a.alt_speed_time_enabled matches Some(v) ==> has_member(a.spec_json(false), "alt-speed-time-enabled"@, bool_text(v)),
        a.alt_speed_time_enabled matches Some(v) ==> has_member(a.spec_json(true), "alt_speed_time_enabled"@, bool_text(v)),
{
    if let Some(v) = a.alt_speed_time_enabled {
        assert(a.spec_members(false).contains(member_text("alt-speed-time-enabled"@, bool_text(v)))) by {
            broadcast use lemma_push_opt_keeps, lemma_push_keeps;
        }
        lemma_object_holds_member(a.spec_members(false), member_text("alt-speed-time-enabled"@, bool_text(v)));
        assert(a.spec_members(true).contains(member_text("alt_speed_time_enabled"@, bool_text(v)))) by {
            broadcast use lemma_push_opt_keeps, lemma_push_keeps;
        }
        lemma_object_holds_member(a.spec_members(true), member_text("alt_speed_time_enabled"@, bool_text(v)));
    }
}

proof fn lemma_session_set_members_alt_speed_time_end(a: SessionSetArgs)
    ensures
        a.alt_speed_time_end matches Some(v) ==> has_member(a.spec_json(false), "alt-speed-time-end"@, int_text((v.0 as int) % 1440)),
        a.alt_speed_time_end matches Some(v) ==> has_member(a.spec_json(true), "alt_speed_time_end"@, int_text((v.0 as int) % 1440)),
{
    if let Some(v) = a.alt_speed_time_end {
        assert(a.spec_members(false).contains(member_text("alt-speed-time-end"@, int_text((v.0 as int) % 1440)))) by {
            broadcast use lemma_push_opt_keeps, lemma_push_keeps;
        }
        lemma_object_holds_member(a.spec_members(false), member_text("alt-speed-time-end"@, int_text((v.0 as int) % 1440)));
        assert(a.spec_members(true).contains(member_text("alt_speed_time_end"@, int_text((v.0 as int) % 1440)))) by {
            broadcast use lemma_push_opt_keeps, lemma_push_keeps;
        }
        lemma_object_holds_member(a.spec_members(true), member_text("alt_speed_time_end"@, int_text((v.0 as int) % 1440)));
    }
}

proof fn lemma_session_set_members_alt_speed_up(a: SessionSetArgs)
    ensures
        a.alt_speed_up matches Some(v) ==> has_member(a.spec_json(false), "alt-speed-up"@, int_text(v as int)),
        a.alt_speed_up matches Some(v) ==> has_member(a.spec_json(true), "alt_speed_up"@, int_text(v as int)),
{
    if let Some(v) = a.alt_speed_up {
        assert(a.spec_members(false).contains(member_text("alt-speed-up"@, int_text(v as int)))) by {
            broadcast use lemma_push_opt_keeps, lemma_push_keeps;
        }
        lemma_object_holds_member(a.spec_members(false), member_text("alt-speed-up"@, int_text(v as int)));
        assert(a.spec_members(true).contains(member_text("alt_speed_up"@, int_text(v as int)))) by {
            broadcast use lemma_push_opt_keeps, lemma_push_keeps;
        }
        lemma_object_holds_member(a.spec_members(true), member_text("alt_speed_up"@, int_text(v as int)));
    }
}

proof fn lemma_session_set_members_anti_brute_force_enabled(a: SessionSetArgs)
    ensures
        a.anti_brute_force_enabled matches Some(v) ==> has_member(a.spec_json(true), "anti_brute_force_enabled"@, bool_text(v)),
{
    if let Some(v) = a.anti_brute_force_enabled {
        assert(a.spec_members(true).contains(member_text("anti_brute_force_enabled"@, bool_text(v)))) by {
            broadcast use lemma_push_opt_keeps, lemma_push_keeps;
        }
        lemma_object_holds_member(a.spec_members(true), member_text("anti_brute_force_enabled"@, bool_text(v)));
    }
}

proof fn lemma_session_set_members_anti_brute_force_threshold(a: SessionSetArgs)
    ensures
        a.anti_brute_force_threshold matches Some(v) ==> has_member(a.spec_json(true), "anti_brute_force_threshold"@, int_text(v as int)),
{
    if let Some(v) = a.anti_brute_force_threshold {
        assert(a.spec_members(true).contains(member_text("anti_brute_force_threshold"@, int_text(v as int)))) by {
            broadcast use lemma_push_opt_keeps, lemma_push_keeps;
        }
        lemma_object_holds_member(a.spec_members(true), member_text("anti_brute_force_threshold"@, int_text(v as int)));
    }
}

proof fn lemma_session_set_members_blocklist_enabled(a: SessionSetArgs)
    ensures
        a.blocklist_enabled matches Some(v) ==> has_member(a.spec_json(false), "blocklist-enabled"@, bool_text(v)),
        a.blocklist_enabled matches Some(v) ==> has_member(a.spec_json(true), "blocklist_enabled"@, bool_text(v)),
{
    if let Some(v) = a.blocklist_enabled {
        assert(a.spec_members(false).contains(member_text("blocklist-enabled"@, bool_text(v)))) by {
            broadcast use lemma_push_opt_keeps, lemma_push_keeps;
        }
        lemma_object_holds_member(a.spec_members(false), member_text("blocklist-enabled"@, bool_text(v)));
        assert(a.spec_members(true).contains(member_text("blocklist_enabled"@, bool_text(v)))) by {
            broadcast use lemma_push_opt_keeps, lemma_push_keeps;
        }
        lemma_object_holds_member(a.spec_members(true), member_text("blocklist_enabled"@, bool_text(v)));
    }
}

proof fn lemma_session_set_members_blocklist_url(a: SessionSetArgs)
    ensures
        a.blocklist_url matches Some(v) ==> has_member(a.spec_json(false), "blocklist-url"@, string_text(v@)),
        a.blocklist_url matches Some(v) ==> has_member(a.spec_json(true), "blocklist_url"@, string_text(v@)),
{
    if let Some(v) = a.blocklist_url {
        assert(a.spec_members(false).contains(member_text("blocklist-url"@, string_text(v@)))) by {
            broadcast use lemma_push_opt_keeps, lemma_push_keeps;
        }
        lemma_object_holds_member(a.spec_members(false), member_text("blocklist-url"@, string_text(v@)));
        assert(a.spec_members(true).contains(member_text("blocklist_url"@, string_text(v@)))) by {
            broadcast use lemma_push_opt_keeps, lemma_push_keeps;
        }
        lemma_object_holds_member(a.spec_members(true), member_text("blocklist_url"@, string_text(v@)));
    }
}

proof fn lemma_session_set_members_cache_size_mb(a: SessionSetArgs)
    ensures
        a.cache_size_mb matches Some(v) ==> has_member(a.spec_json(false), "cache-size-mb"@, int_text(v as int)),
        a.cache_size_mb matches Some(v) ==> has_member(a.spec_json(true), "cache_size_mib"@, int_text(v as int)),
{
    if let Some(v) = a.cache_size_mb {
        assert(a.spec_members(false).contains(member_text("cache-size-mb"@, int_text(v as int)))) by {
            broadcast use lemma_push_opt_keeps, lemma_push_keeps;
        }
        lemma_object_holds_member(a.spec_members(false), member_text("cache-size-mb"@, int_text(v as int)));
        assert(a.spec_members(true).contains(member_text("cache_size_mib"@, int_text(v as int)))) by {
            broadcast use lemma_push_opt_keeps, lemma_push_keeps;
        }
        lemma_object_holds_member(a.spec_members(true), member_text("cache_size_mib"@, int_text(v as int)));
    }
}

proof fn lemma_session_set_members_default_trackers(a: SessionSetArgs)
    ensures
        a.default_trackers matches Some(v) ==> has_member(a.spec_json(false), "default-trackers"@, string_text(v@)),
        a.default_trackers matches Some(v) ==> has_member(a.spec_json(true), "default_trackers"@, string_text(v@)),
{
    if let Some(v) = a.default_trackers {
        assert(a.spec_members(false).contains(member_text("default-trackers"@, string_text(v@)))) by {
            broadcast use lemma_push_opt_keeps, lemma_push_keeps;
        }
        lemma_object_holds_member(a.spec_members(false), member_text("default-trackers"@, string_text(v@)));
        assert(a.spec_members(true).contains(member_text("default_trackers"@, string_text(v@)))) by {
            broadcast use lemma_push_opt_keeps, lemma_push_keeps;
        }
        lemma_object_holds_member(a.spec_members(true), member_text("default_trackers"@, string_text(v@)));
    }
}

proof fn lemma_session_set_members_dht_enabled(a: SessionSetArgs)
    ensures
        a.dht_enabled matches Some(v) ==> has_member(a.spec_json(false), "dht-enabled"@, bool_text(v)),
        a.dht_enabled matches Some(v) ==> has_member(a.spec_json(true), "dht_enabled"@, bool_text(v)),
{
    if let Some(v) = a.dht_enabled {
        assert(a.spec_members(false).contains(member_text("dht-enabled"@, bool_text(v)))) by {
            broadcast use lemma_push_opt_keeps, lemma_push_keeps;
        }
        lemma_object_holds_member(a.spec_members(false), member_text("dht-enabled"@, bool_text(v)));
        assert(a.spec_members(true).contains(member_text("dht_enabled"@, bool_text(v)))) by {
            broadcast use lemma_push_opt_keeps, lemma_push_keeps;
        }
        lemma_object_holds_member(a.spec_members(true), member_text("dht_enabled"@, bool_text(v)));
    }
}

proof fn lemma_session_set_members_download_dir(a: SessionSetArgs)
    ensures
        a.download_dir matches Some(v) ==> has_member(a.spec_json(false), "download-dir"@, string_text(v@)),
        a.download_dir matches Some(v) ==> has_member(a.spec_json(true), "download_dir"@, string_text(v@)),
{
    if let Some(v) = a.download_dir {
        assert(a.spec_members(false).contains(member_text("download-dir"@, string_text(v@)))) by {
            broadcast use lemma_push_opt_keeps, lemma_push_keeps;
        }
        lemma_object_holds_member(a.spec_members(false), member_text("download-dir"@, string_text(v@)));
        assert(a.spec_members(true).contains(member_text("download_dir"@, string_text(v@)))) by {
            broadcast use lemma_push_opt_keeps, lemma_push_keeps;
        }
        lemma_object_holds_member(a.spec_members(true), member_text("download_dir"@, string_text(v@)));
    }
}

proof fn lemma_session_set_members_download_queue_enabled(a: SessionSetArgs)
    ensures
        a.download_queue_enabled matches Some(v) ==> has_member(a.spec_json(false), "download-queue-enabled"@, bool_text(v)),
        a.download_queue_enabled matches Some(v) ==> has_member(a.spec_json(true), "download_queue_enabled"@, bool_text(v)),
{
    if let Some(v) = a.download_queue_enabled {
        assert(a.spec_members(false).contains(member_text("download-queue-enabled"@, bool_text(v)))) by {
            broadcast use lemma_push_opt_keeps, lemma_push_keeps;
        }
        lemma_object_holds_member(a.spec_members(false), member_text("download-queue-enabled"@, bool_text(v)));
        assert(a.spec_members(true).contains(member_text("download_queue_enabled"@, bool_text(v)))) by {
            broadcast use lemma_push_opt_keeps, lemma_push_keeps;
        }
        lemma_object_holds_member(a.spec_members(true), member_text("download_queue_enabled"@, bool_text(v)));
    }
}

proof fn lemma_session_set_members_download_queue_size(a: SessionSetArgs)
    ensures
        a.download_queue_size matches Some(v) ==> has_member(a.spec_json(false), "download-queue-size"@, int_text(v as int)),
        a.download_queue_size matches Some(v) ==> has_member(a.spec_json(true), "download_queue_size"@, int_text(v as int)),
{
    if let Some(v) = a.download_queue_size {
        assert(a.spec_members(false).contains(member_text("download-queue-size"@, int_text(v as int)))) by {
            broadcast use lemma_push_opt_keeps, lemma_push_keeps;
        }
        lemma_object_holds_member(a.spec_members(false), member_text("download-queue-size"@, int_text(v as int)));
        assert(a.spec_members(true).contains(member_text("download_queue_size"@, int_text(v as int)))) by {
            broadcast use lemma_push_opt_keeps, lemma_push_keeps;
        }
        lemma_object_holds_member(a.spec_members(true), member_text("download_queue_size"@, int_text(v as int)));
    }
}

proof fn lemma_session_set_members_encryption(a: SessionSetArgs)
    ensures
        a.encryption matches Some(v) ==> has_member(a.spec_json(false), "encryption"@, string_text(v.spec_name())),
        a.encryption matches Some(v) ==> has_member(a.spec_json(true), "encryption"@, string_text(v.spec_compat_name())),
{
    if let Some(v) = a.encryption {
        assert(a.spec_members(false).contains(member_text("encryption"@, string_text(v.spec_name())))) by {
            broadcast use lemma_push_opt_keeps, lemma_push_keeps;
        }
        lemma_object_holds_member(a.spec_members(false), member_text("encryption"@, string_text(v.spec_name())));
        assert(a.spec_members(true).contains(member_text("encryption"@, string_text(v.spec_compat_name())))) by {
            broadcast use lemma_push_opt_keeps, lemma_push_keeps;
        }
        lemma_object_holds_member(a.spec_members(true), member_text("encryption"@, string_text(v.spec_compat_name())));
    }
}

proof fn lemma_session_set_members_idle_seeding_limit(a: SessionSetArgs)
    ensures
        a.idle_seeding_limit matches Some(v) ==> has_member(a.spec_json(false), "idle-seeding-limit"@, int_text(v as int)),
        a.idle_seeding_limit matches Some(v) ==> has_member(a.spec_json(true), "idle_seeding_limit"@, int_text(v as int)),
{
    if let Some(v) = a.idle_seeding_limit {
        assert(a.spec_members(false).contains(member_text("idle-seeding-limit"@, int_text(v as int)))) by {
            broadcast use lemma_push_opt_keeps, lemma_push_keeps;
        }
        lemma_object_holds_member(a.spec_members(false), member_text("idle-seeding-limit"@, int_text(v as int)));
        assert(a.spec_members(true).contains(member_text("idle_seeding_limit"@, int_text(v as int)))) by {
            broadcast use lemma_push_opt_keeps, lemma_push_keeps;
        }
        lemma_object_holds_member(a.spec_members(true), member_text("idle_seeding_limit"@, int_text(v as int)));
    }
}

proof fn lemma_session_set_members_idle_seeding_limit_enabled(a: SessionSetArgs)
    ensures
        a.idle_seeding_limit_enabled matches Some(v) ==> has_member(a.spec_json(false), "idle-seeding-limit-enabled"@, bool_text(v)),
        a.idle_seeding_limit_enabled matches Some(v) ==> has_member(a.spec_json(true), "idle_seeding_limit_enabled"@, bool_text(v)),
{
    if let Some(v) = a.idle_seeding_limit_enabled {
        assert(a.spec_members(false).contains(member_text("idle-seeding-limit-enabled"@, bool_text(v)))) by {
            broadcast use lemma_push_opt_keeps, lemma_push_keeps;
        }
        lemma_object_holds_member(a.spec_members(false), member_text("idle-seeding-limit-enabled"@, bool_text(v)));
        assert(a.spec_members(true).contains(member_text("idle_seeding_limit_enabled"@, bool_text(v)))) by {
            broadcast use lemma_push_opt_keeps, lemma_push_keeps;
        }
        lemma_object_holds_member(a.spec_members(true), member_text("idle_seeding_limit_enabled"@, bool_text(v)));
    }
}

proof fn lemma_session_set_members_incomplete_dir(a: SessionSetArgs)
    ensures
        a.incomplete_dir matches Some(v) ==> has_member(a.spec_json(false), "incomplete-dir"@, string_text(v@)),
        a.incomplete_dir matches Some(v) ==> has_member(a.spec_json(true), "incomplete_dir"@, string_text(v@)),
{
    if let Some(v) = a.incomplete_dir {
        assert(a.spec_members(false).contains(member_text("incomplete-dir"@, string_text(v@)))) by {
            broadcast use lemma_push_opt_keeps, lemma_push_keeps;
        }
        lemma_object_holds_member(a.spec_members(false), member_text("incomplete-dir"@, string_text(v@)));
        assert(a.spec_members(true).contains(member_text("incomplete_dir"@, string_text(v@)))) by {
            broadcast use lemma_push_opt_keeps, lemma_push_keeps;
        }
        lemma_object_holds_member(a.spec_members(true), member_text("incomplete_dir"@, string_text(v@)));
    }
}

proof fn lemma_session_set_members_incomplete_dir_enabled(a: SessionSetArgs)
    ensures
        a.incomplete_dir_enabled matches Some(v) ==> has_member(a.spec_json(false), "incomplete-dir-enabled"@, bool_text(v)),
        a.incomplete_dir_enabled matches Some(v) ==> has_member(a.spec_json(true), "incomplete_dir_enabled"@, bool_text(v)),
{
    if let Some(v) = a.incomplete_dir_enabled {
        assert(a.spec_members(false).contains(member_text("incomplete-dir-enabled"@, bool_text(v)))) by {
            broadcast use lemma_push_opt_keeps, lemma_push_keeps;
        }
        lemma_object_holds_member(a.spec_members(false), member_text("incomplete-dir-enabled"@, bool_text(v)));
        assert(a.spec_members(true).contains(member_text("incomplete_dir_enabled"@, bool_text(v)))) by {
            broadcast use lemma_push_opt_keeps, lemma_push_keeps;
        }
        lemma_object_holds_member(a.spec_members(true), member_text("incomplete_dir_enabled"@, bool_text(v)));
    }
}

proof fn lemma_session_set_members_lpd_enabled(a: SessionSetArgs)
    ensures
        a.lpd_enabled matches Some(v) ==> has_member(a.spec_json(false), "lpd-enabled"@, bool_text(v)),
        a.lpd_enabled matches Some(v) ==> has_member(a.spec_json(true), "lpd_enabled"@, bool_text(v)),
{
    if let Some(v) = a.lpd_enabled {
        assert(a.spec_members(false).contains(member_text("lpd-enabled"@, bool_text(v)))) by {
            broadcast use lemma_push_opt_keeps, lemma_push_keeps;
        }
        lemma_object_holds_member(a.spec_members(false), member_text("lpd-enabled"@, bool_text(v)));
        assert(a.spec_members(true).contains(member_text("lpd_enabled"@, bool_text(v)))) by {
            broadcast use lemma_push_opt_keeps, lemma_push_keeps;
        }
        lemma_object_holds_member(a.spec_members(true), member_text("lpd_enabled"@, bool_text(v)));
    }
}

proof fn lemma_session_set_members_peer_limit_global(a: SessionSetArgs)
    ensures
        a.peer_limit_global matches Some(v) ==> has_member(a.spec_json(false), "peer-limit-global"@, int_text(v as int)),
        a.peer_limit_global matches Some(v) ==> has_member(a.spec_json(true), "peer_limit_global"@, int_text(v as int)),
{
    if let Some(v) = a.peer_limit_global {
        assert(a.spec_members(false).contains(member_text("peer-limit-global"@, int_text(v as int)))) by {
            broadcast use lemma_push_opt_keeps, lemma_push_keeps;
        }
        lemma_object_holds_member(a.spec_members(false), member_text("peer-limit-global"@, int_text(v as int)));
        assert(a.spec_members(true).contains(member_text("peer_limit_global"@, int_text(v as int)))) by {
            broadcast use lemma_push_opt_keeps, lemma_push_keeps;
        }
        lemma_object_holds_member(a.spec_members(true), member_text("peer_limit_global"@, int_text(v as int)));
    }
}

proof fn lemma_session_set_members_peer_limit_per_torrent(a: SessionSetArgs)
    ensures
        a.peer_limit_per_torrent matches Some(v) ==> has_member(a.spec_json(false), "peer-limit-per-torrent"@, int_text(v as int)),
        a.peer_limit_per_torrent matches Some(v) ==> has_member(a.spec_json(true), "peer_limit_per_torrent"@, int_text(v as int)),
{
    if let Some(v) = a.peer_limit_per_torrent {
        assert(a.spec_members(false).contains(member_text("peer-limit-per-torrent"@, int_text(v as int)))) by {
            broadcast use lemma_push_opt_keeps, lemma_push_keeps;
        }
        lemma_object_holds_member(a.spec_members(false), member_text("peer-limit-per-torrent"@, int_text(v as int)));
        assert(a.spec_members(true).contains(member_text("peer_limit_per_torrent"@, int_text(v as int)))) by {
            broadcast use lemma_push_opt_keeps, lemma_push_keeps;
        }
        lemma_object_holds_member(a.spec_members(true), member_text("peer_limit_per_torrent"@, int_text(v as int)));
    }
}

proof fn lemma_session_set_members_peer_port_random_on_start(a: SessionSetArgs)
    ensures
        a.peer_port_random_on_start matches Some(v) ==> has_member(a.spec_json(false), "peer-port-random-on-start"@, bool_text(v)),
        a.peer_port_random_on_start matches Some(v) ==> has_member(a.spec_json(true), "peer_port_random_on_start"@, bool_text(v)),
{
    if let Some(v) = a.peer_port_random_on_start {
        assert(a.spec_members(false).contains(member_text("peer-port-random-on-start"@, bool_text(v)))) by {
            broadcast use lemma_push_opt_keeps, lemma_push_keeps;
        }
        lemma_object_holds_member(a.spec_members(false), member_text("peer-port-random-on-start"@, bool_text(v)));
        assert(a.spec_members(true).contains(member_text("peer_port_random_on_start"@, bool_text(v)))) by {
            broadcast use lemma_push_opt_keeps, lemma_push_keeps;
        }
        lemma_object_holds_member(a.spec_members(true), member_text("peer_port_random_on_start"@, bool_text(v)));
    }
}

proof fn lemma_session_set_members_peer_port(a: SessionSetArgs)
    ensures
        a.peer_port matches Some(v) ==> has_member(a.spec_json(false), "peer-port"@, int_text(v as int)),
        a.peer_port matches Some(v) ==> has_member(a.spec_json(true), "peer_port"@, int_text(v as int)),
{
    if let Some(v) = a.peer_port {
        assert(a.spec_members(false).contains(member_text("peer-port"@, int_text(v as int)))) by {
            broadcast use lemma_push_opt_keeps, lemma_push_keeps;
        }
        lemma_object_holds_member(a.spec_members(false), member_text("peer-port"@, int_text(v as int)));
        assert(a.spec_members(true).contains(member_text("peer_port"@, int_text(v as int)))) by {
            broadcast use lemma_push_opt_keeps, lemma_push_keeps;
        }
        lemma_object_holds_member(a.spec_members(true), member_text("peer_port"@, int_text(v as int)));
    }
}

proof fn lemma_session_set_members_pex_enabled(a: SessionSetArgs)
    ensures
        a.pex_enabled matches Some(v) ==> has_member(a.spec_json(false), "pex-enabled"@, bool_text(v)),
        a.pex_enabled matches Some(v) ==> has_member(a.spec_json(true), "pex_enabled"@, bool_text(v)),
{
    if let Some(v) = a.pex_enabled {
        assert(a.spec_members(false).contains(member_text("pex-enabled"@, bool_text(v)))) by {
            broadcast use lemma_push_opt_keeps, lemma_push_keeps;
        }
        lemma_object_holds_member(a.spec_members(false), member_text("pex-enabled"@, bool_text(v)));
        assert(a.spec_members(true).contains(member_text("pex_enabled"@, bool_text(v)))) by {
            broadcast use lemma_push_opt_keeps, lemma_push_keeps;
        }
        lemma_object_holds_member(a.spec_members(true), member_text("pex_enabled"@, bool_text(v)));
    }
}

proof fn lemma_session_set_members_port_forwarding_enabled(a: SessionSetArgs)
    ensures
        a.port_forwarding_enabled matches Some(v) ==> has_member(a.spec_json(false), "port-forwarding-enabled"@, bool_text(v)),
        a.port_forwarding_enabled matches Some(v) ==> has_member(a.spec_json(true), "port_forwarding_enabled"@, bool_text(v)),
{
    if let Some(v) = a.port_forwarding_enabled {
        assert(a.spec_members(false).contains(member_text("port-forwarding-enabled"@, bool_text(v)))) by {
            broadcast use lemma_push_opt_keeps, lemma_push_keeps;
        }
        lemma_object_holds_member(a.spec_members(false), member_text("port-forwarding-enabled"@, bool_text(v)));
        assert(a.spec_members(true).contains(member_text("port_forwarding_enabled"@, bool_text(v)))) by {
            broadcast use lemma_push_opt_keeps, lemma_push_keeps;
        }
        lemma_object_holds_member(a.spec_members(true), member_text("port_forwarding_enabled"@, bool_text(v)));
    }
}

proof fn lemma_session_set_members_preferred_transports(a: SessionSetArgs)
    ensures
        a.preferred_transports matches Some(v) ==> has_member(a.spec_json(true), "preferred_transports"@, transports_text(v@)),
{
    if let Some(v) = a.preferred_transports {
        assert(a.spec_members(true).contains(member_text("preferred_transports"@, transports_text(v@)))) by {
            broadcast use lemma_push_opt_keeps, lemma_push_keeps;
        }
        lemma_object_holds_member(a.spec_members(true), member_text("preferred_transports"@, transports_text(v@)));
    }
}

proof fn lemma_session_set_members_queue_stalled_enabled(a: SessionSetArgs)
    ensures
        a.queue_stalled_enabled matches Some(v) ==> has_member(a.spec_json(false), "queue-stalled-enabled"@, bool_text(v)),
        a.queue_stalled_enabled matches Some(v) ==> has_member(a.spec_json(true), "queue_stalled_enabled"@, bool_text(v)),
{
    if let Some(v) = a.queue_stalled_enabled {
        assert(a.spec_members(false).contains(member_text("queue-stalled-enabled"@, bool_text(v)))) by {
            broadcast use lemma_push_opt_keeps, lemma_push_keeps;
        }
        lemma_object_holds_member(a.spec_members(false), member_text("queue-stalled-enabled"@, bool_text(v)));
        assert(a.spec_members(true).contains(member_text("queue_stalled_enabled"@, bool_text(v)))) by {
            broadcast use lemma_push_opt_keeps, lemma_push_keeps;
        }
        lemma_object_holds_member(a.spec_members(true), member_text("queue_stalled_enabled"@, bool_text(v)));
    }
}

proof fn lemma_session_set_members_queue_stalled_minutes(a: SessionSetArgs)
    ensures
        a.queue_stalled_minutes matches Some(v) ==> has_member(a.spec_json(false), "queue-stalled-minutes"@, int_text(v as int)),
        a.queue_stalled_minutes matches Some(v) ==> has_member(a.spec_json(true), "queue_stalled_minutes"@, int_text(v as int)),
{
    if let Some(v) = a.queue_stalled_minutes {
        assert(a.spec_members(false).contains(member_text("queue-stalled-minutes"@, int_text(v as int)))) by {
            broadcast use lemma_push_opt_keeps, lemma_push_keeps;
        }
        lemma_object_holds_member(a.spec_members(false), member_text("queue-stalled-minutes"@, int_text(v as int)));
        assert(a.spec_members(true).contains(member_text("queue_stalled_minutes"@, int_text(v as int)))) by {
            broadcast use lemma_push_opt_keeps, lemma_push_keeps;
        }
        lemma_object_holds_member(a.spec_members(true), member_text("queue_stalled_minutes"@, int_text(v as int)));
    }
}

proof fn lemma_session_set_members_rename_partial_files(a: SessionSetArgs)
    ensures
        a.rename_partial_files matches Some(v) ==> has_member(a.spec_json(false), "rename-partial-files"@, bool_text(v)),
        a.rename_partial_files matches Some(v) ==> has_member(a.spec_json(true), "rename_partial_files"@, bool_text(v)),
{
    if let Some(v) = a.rename_partial_files {
        assert(a.spec_members(false).contains(member_text("rename-partial-files"@, bool_text(v)))) by {
            broadcast use lemma_push_opt_keeps, lemma_push_keeps;
        }
        lemma_object_holds_member(a.spec_members(false), member_text("rename-partial-files"@, bool_text(v)));
        assert(a.spec_members(true).contains(member_text("rename_partial_files"@, bool_text(v)))) by {
            broadcast use lemma_push_opt_keeps, lemma_push_keeps;
        }
        lemma_object_holds_member(a.spec_members(true), member_text("rename_partial_files"@, bool_text(v)));
    }
}

proof fn lemma_session_set_members_reqq(a: SessionSetArgs)
    ensures
        a.reqq matches Some(v) ==> has_member(a.spec_json(false), "reqq"@, int_text(v as int)),
        a.reqq matches Some(v) ==> has_member(a.spec_json(true), "reqq"@, int_text(v as int)),
{
    if let Some(v) = a.reqq {
        assert(a.spec_members(false).contains(member_text("reqq"@, int_text(v as int)))) by {
            broadcast use lemma_push_opt_keeps, lemma_push_keeps;
        }
        lemma_object_holds_member(a.spec_members(false), member_text("reqq"@, int_text(v as int)));
        assert(a.spec_members(true).contains(member_text("reqq"@, int_text(v as int)))) by {
            broadcast use lemma_push_opt_keeps, lemma_push_keeps;
        }
        lemma_object_holds_member(a.spec_members(true), member_text("reqq"@, int_text(v as int)));
    }
}

proof fn lemma_session_set_members_script_torrent_added_enabled(a: SessionSetArgs)
    ensures
        a.script_torrent_added_enabled matches Some(v) ==> has_member(a.spec_json(false), "script-torrent-added-enabled"@, bool_text(v)),
        a.script_torrent_added_enabled matches Some(v) ==> has_member(a.spec_json(true), "script_torrent_added_enabled"@, bool_text(v)),
{
    if let Some(v) = a.script_torrent_added_enabled {
        assert(a.spec_members(false).contains(member_text("script-torrent-added-enabled"@, bool_text(v)))) by {
            broadcast use lemma_push_opt_keeps, lemma_push_keeps;
        }
        lemma_object_holds_member(a.spec_members(false), member_text("script-torrent-added-enabled"@, bool_text(v)));
        assert(a.spec_members(true).contains(member_text("script_torrent_added_enabled"@, bool_text(v)))) by {
            broadcast use lemma_push_opt_keeps, lemma_push_keeps;
        }
        lemma_object_holds_member(a.spec_members(true), member_text("script_torrent_added_enabled"@, bool_text(v)));
    }
}

proof fn lemma_session_set_members_script_torrent_added_filename(a: SessionSetArgs)
    ensures
        a.script_torrent_added_filename matches Some(v) ==> has_member(a.spec_json(false), "script-torrent-added-filename"@, string_text(v@)),
        a.script_torrent_added_filename matches Some(v) ==> has_member(a.spec_json(true), "script_torrent_added_filename"@, string_text(v@)),
{
    if let Some(v) = a.script_torrent_added_filename {
        assert(a.spec_members(false).contains(member_text("script-torrent-added-filename"@, string_text(v@)))) by {
            broadcast use lemma_push_opt_keeps, lemma_push_keeps;
        }
        lemma_object_holds_member(a.spec_members(false), member_text("script-torrent-added-filename"@, string_text(v@)));
        assert(a.spec_members(true).contains(member_text("script_torrent_added_filename"@, string_text(v@)))) by {
            broadcast use lemma_push_opt_keeps, lemma_push_keeps;
        }
        lemma_object_holds_member(a.spec_members(true), member_text("script_torrent_added_filename"@, string_text(v@)));
    }
}

proof fn lemma_session_set_members_script_torrent_done_enabled(a: SessionSetArgs)
    ensures
        a.script_torrent_done_enabled matches Some(v) ==> has_member(a.spec_json(false), "script-torrent-done-enabled"@, bool_text(v)),
        a.script_torrent_done_enabled matches Some(v) ==> has_member(a.spec_json(true), "script_torrent_done_enabled"@, bool_text(v)),
{
    if let Some(v) = a.script_torrent_done_enabled {
        assert(a.spec_members(false).contains(member_text("script-torrent-done-enabled"@, bool_text(v)))) by {
            broadcast use lemma_push_opt_keeps, lemma_push_keeps;
        }
        lemma_object_holds_member(a.spec_members(false), member_text("script-torrent-done-enabled"@, bool_text(v)));
        assert(a.spec_members(true).contains(member_text("script_torrent_done_enabled"@, bool_text(v)))) by {
            broadcast use lemma_push_opt_keeps, lemma_push_keeps;
        }
        lemma_object_holds_member(a.spec_members(true), member_text("script_torrent_done_enabled"@, bool_text(v)));
    }
}

proof fn lemma_session_set_members_script_torrent_done_filename(a: SessionSetArgs)
    ensures
        a.script_torrent_done_filename matches Some(v) ==> has_member(a.spec_json(false), "script-torrent-done-filename"@, string_text(v@)),
        a.script_torrent_done_filename matches Some(v) ==> has_member(a.spec_json(true), "script_torrent_done_filename"@, string_text(v@)),
{
    if let Some(v) = a.script_torrent_done_filename {
        assert(a.spec_members(false).contains(member_text("script-torrent-done-filename"@, string_text(v@)))) by {
            broadcast use lemma_push_opt_keeps, lemma_push_keeps;
        }
        lemma_object_holds_member(a.spec_members(false), member_text("script-torrent-done-filename"@, string_text(v@)));
        assert(a.spec_members(true).contains(member_text("script_torrent_done_filename"@, string_text(v@)))) by {
            broadcast use lemma_push_opt_keeps, lemma_push_keeps;
        }
        lemma_object_holds_member(a.spec_members(true), member_text("script_torrent_done_filename"@, string_text(v@)));
    }
}

proof fn lemma_session_set_members_script_torrent_done_seeding_enabled(a: SessionSetArgs)
    ensures
        a.script_torrent_done_seeding_enabled matches Some(v) ==> has_member(a.spec_json(false), "script-torrent-done-seeding-enabled"@, bool_text(v)),
        a.script_torrent_done_seeding_enabled matches Some(v) ==> has_member(a.spec_json(true), "script_torrent_done_seeding_enabled"@, bool_text(v)),
{
    if let Some(v) = a.script_torrent_done_seeding_enabled {
        assert(a.spec_members(false).contains(member_text("script-torrent-done-seeding-enabled"@, bool_text(v)))) by {
            broadcast use lemma_push_opt_keeps, lemma_push_keeps;
        }
        lemma_object_holds_member(a.spec_members(false), member_text("script-torrent-done-seeding-enabled"@, bool_text(v)));
        assert(a.spec_members(true).contains(member_text("script_torrent_done_seeding_enabled"@, bool_text(v)))) by {
            broadcast use lemma_push_opt_keeps, lemma_push_keeps;
        }
        lemma_object_holds_member(a.spec_members(true), member_text("script_torrent_done_seeding_enabled"@, bool_text(v)));
    }
}

proof fn lemma_session_set_members_script_torrent_done_seeding_filename(a: SessionSetArgs)
    ensures
        a.script_torrent_done_seeding_filename matches Some(v) ==> has_member(a.spec_json(false), "script-torrent-done-seeding-filename"@, string_text(v@)),
        a.script_torrent_done_seeding_filename matches Some(v) ==> has_member(a.spec_json(true), "script_torrent_done_seeding_filename"@, string_text(v@)),
{
    if let Some(v) = a.script_torrent_done_seeding_filename {
        assert(a.spec_members(false).contains(member_text("script-torrent-done-seeding-filename"@, string_text(v@)))) by {
            broadcast use lemma_push_opt_keeps, lemma_push_keeps;
        }
        lemma_object_holds_member(a.spec_members(false), member_text("script-torrent-done-seeding-filename"@, string_text(v@)));
        assert(a.spec_members(true).contains(member_text("script_torrent_done_seeding_filename"@, string_text(v@)))) by {
            broadcast use lemma_push_opt_keeps, lemma_push_keeps;
        }
        lemma_object_holds_member(a.spec_members(true), member_text("script_torrent_done_seeding_filename"@, string_text(v@)));
    }
}

proof fn lemma_session_set_members_seed_queue_enabled(a: SessionSetArgs)
    ensures
        a.seed_queue_enabled matches Some(v) ==> has_member(a.spec_json(false), "seed-queue-enabled"@, bool_text(v)),
        a.seed_queue_enabled matches Some(v) ==> has_member(a.spec_json(true), "seed_queue_enabled"@, bool_text(v)),
{
    if let Some(v) = a.seed_queue_enabled {
        assert(a.spec_members(false).contains(member_text("seed-queue-enabled"@, bool_text(v)))) by {
            broadcast use lemma_push_opt_keeps, lemma_push_keeps;
        }
        lemma_object_holds_member(a.spec_members(false), member_text("seed-queue-enabled"@, bool_text(v)));
        assert(a.spec_members(true).contains(member_text("seed_queue_enabled"@, bool_text(v)))) by {
            broadcast use lemma_push_opt_keeps, lemma_push_keeps;
        }
        lemma_object_holds_member(a.spec_members(true), member_text("seed_queue_enabled"@, bool_text(v)));
    }
}

proof fn lemma_session_set_members_seed_queue_size(a: SessionSetArgs)
    ensures
        a.seed_queue_size matches Some(v) ==> has_member(a.spec_json(false), "seed-queue-size"@, int_text(v as int)),
        a.seed_queue_size matches Some(v) ==> has_member(a.spec_json(true), "seed_queue_size"@, int_text(v as int)),
{
    if let Some(v) = a.seed_queue_size {
        assert(a.spec_members(false).contains(member_text("seed-queue-size"@, int_text(v as int)))) by {
            broadcast use lemma_push_opt_keeps, lemma_push_keeps;
        }
        lemma_object_holds_member(a.spec_members(false), member_text("seed-queue-size"@, int_text(v as int)));
        assert(a.spec_members(true).contains(member_text("seed_queue_size"@, int_text(v as int)))) by {
            broadcast use lemma_push_opt_keeps, lemma_push_keeps;
        }
        lemma_object_holds_member(a.spec_members(true), member_text("seed_queue_size"@, int_text(v as int)));
    }
}

proof fn lemma_session_set_members_seed_ratio_limit(a: SessionSetArgs)
    ensures
        a.seed_ratio_limit matches Some(v) ==> has_member(a.spec_json(false), "seedRatioLimit"@, v.spec_text()),
        a.seed_ratio_limit matches Some(v) ==> has_member(a.spec_json(true), "seed_ratio_limit"@, v.spec_text()),
{
    if let Some(v) = a.seed_ratio_limit {
        assert(a.spec_members(false).contains(member_text("seedRatioLimit"@, v.spec_text()))) by {
            broadcast use lemma_push_opt_keeps, lemma_push_keeps;
        }
        lemma_object_holds_member(a.spec_members(false), member_text("seedRatioLimit"@, v.spec_text()));
        assert(a.spec_members(true).contains(member_text("seed_ratio_limit"@, v.spec_text()))) by {
            broadcast use lemma_push_opt_keeps, lemma_push_keeps;
        }
        lemma_object_holds_member(a.spec_members(true), member_text("seed_ratio_limit"@, v.spec_text()));
    }
}

proof fn lemma_session_set_members_seed_ratio_limited(a: SessionSetArgs)
    ensures
        a.seed_ratio_limited matches Some(v) ==> has_member(a.spec_json(false), "seedRatioLimited"@, bool_text(v)),
        a.seed_ratio_limited matches Some(v) ==> has_member(a.spec_json(true), "seed_ratio_limited"@, bool_text(v)),
{
    if let Some(v) = a.seed_ratio_limited {
        assert(a.spec_members(false).contains(member_text("seedRatioLimited"@, bool_text(v)))) by {
            broadcast use lemma_push_opt_keeps, lemma_push_keeps;
        }
        lemma_object_holds_member(a.spec_members(false), member_text("seedRatioLimited"@, bool_text(v)));
        assert(a.spec_members(true).contains(member_text("seed_ratio_limited"@, bool_text(v)))) by {
            broadcast use lemma_push_opt_keeps, lemma_push_keeps;
        }
        lemma_object_holds_member(a.spec_members(true), member_text("seed_ratio_limited"@, bool_text(v)));
    }
}

proof fn lemma_session_set_members_sequential_download(a: SessionSetArgs)
    ensures
        a.sequential_download matches Some(v) ==> has_member(a.spec_json(true), "sequential_download"@, bool_text(v)),
{
    if let Some(v) = a.sequential_download {
        assert(a.spec_members(true).contains(member_text("sequential_download"@, bool_text(v)))) by {
            broadcast use lemma_push_opt_keeps, lemma_push_keeps;
        }
        lemma_object_holds_member(a.spec_members(true), member_text("sequential_download"@, bool_text(v)));
    }
}

proof fn lemma_session_set_members_sequential_download_from_piece(a: SessionSetArgs)
    ensures
        a.sequential_download_from_piece matches Some(v) ==> has_member(a.spec_json(true), "sequential_download_from_piece"@, int_text(v as int)),
{
    if let Some(v) = a.sequential_download_from_piece {
        assert(a.spec_members(true).contains(member_text("sequential_download_from_piece"@, int_text(v as int)))) by {
            broadcast use lemma_push_opt_keeps, lemma_push_keeps;
        }
        lemma_object_holds_member(a.spec_members(true), member_text("sequential_download_from_piece"@, int_text(v as int)));
    }
}

proof fn lemma_session_set_members_speed_limit_down(a: SessionSetArgs)
    ensures
        a.speed_limit_down matches Some(v) ==> has_member(a.spec_json(false), "speed-limit-down"@, int_text(v as int)),
        a.speed_limit_down matches Some(v) ==> has_member(a.spec_json(true), "speed_limit_down"@, int_text(v as int)),
{
    if let Some(v) = a.speed_limit_down {
        assert(a.spec_members(false).contains(member_text("speed-limit-down"@, int_text(v as int)))) by {
            broadcast use lemma_push_opt_keeps, lemma_push_keeps;
        }
        lemma_object_holds_member(a.spec_members(false), member_text("speed-limit-down"@, int_text(v as int)));
        assert(a.spec_members(true).contains(member_text("speed_limit_down"@, int_text(v as int)))) by {
            broadcast use lemma_push_opt_keeps, lemma_push_keeps;
        }
        lemma_object_holds_member(a.spec_members(true), member_text("speed_limit_down"@, int_text(v as int)));
    }
}

proof fn lemma_session_set_members_speed_limit_down_enabled(a: SessionSetArgs)
    ensures
        a.speed_limit_down_enabled matches Some(v) ==> has_member(a.spec_json(false), "speed-limit-down-enabled"@, bool_text(v)),
        a.speed_limit_down_enabled matches Some(v) ==> has_member(a.spec_json(true), "speed_limit_down_enabled"@, bool_text(v)),
{
    if let Some(v) = a.speed_limit_down_enabled {
        assert(a.spec_members(false).contains(member_text("speed-limit-down-enabled"@, bool_text(v)))) by {
            broadcast use lemma_push_opt_keeps, lemma_push_keeps;
        }
        lemma_object_holds_member(a.spec_members(false), member_text("speed-limit-down-enabled"@, bool_text(v)));
        assert(a.spec_members(true).contains(member_text("speed_limit_down_enabled"@, bool_text(v)))) by {
            broadcast use lemma_push_opt_keeps, lemma_push_keeps;
        }
        lemma_object_holds_member(a.spec_members(true), member_text("speed_limit_down_enabled"@, bool_text(v)));
    }
}

proof fn lemma_session_set_members_speed_limit_up(a: SessionSetArgs)
    ensures
        a.speed_limit_up matches Some(v) ==> has_member(a.spec_json(false), "speed-limit-up"@, int_text(v as int)),
        a.speed_limit_up matches Some(v) ==> has_member(a.spec_json(true), "speed_limit_up"@, int_text(v as int)),
{
    if let Some(v) = a.speed_limit_up {
        assert(a.spec_members(false).contains(member_text("speed-limit-up"@, int_text(v as int)))) by {
            broadcast use lemma_push_opt_keeps, lemma_push_keeps;
        }
        lemma_object_holds_member(a.spec_members(false), member_text("speed-limit-up"@, int_text(v as int)));
        assert(a.spec_members(true).contains(member_text("speed_limit_up"@, int_text(v as int)))) by {
            broadcast use lemma_push_opt_keeps, lemma_push_keeps;
        }
        lemma_object_holds_member(a.spec_members(true), member_text("speed_limit_up"@, int_text(v as int)));
    }
}

proof fn lemma_session_set_members_speed_limit_up_enabled(a: SessionSetArgs)
    ensures
        a.speed_limit_up_enabled matches Some(v) ==> has_member(a.spec_json(false), "speed-limit-up-enabled"@, bool_text(v)),
        a.speed_limit_up_enabled matches Some(v) ==> has_member(a.spec_json(true), "speed_limit_up_enabled"@, bool_text(v)),
{
    if let Some(v) = a.speed_limit_up_enabled {
        assert(a.spec_members(false).contains(member_text("speed-limit-up-enabled"@, bool_text(v)))) by {
            broadcast use lemma_push_opt_keeps, lemma_push_keeps;
        }
        lemma_object_holds_member(a.spec_members(false), member_text("speed-limit-up-enabled"@, bool_text(v)));
        assert(a.spec_members(true).contains(member_text("speed_limit_up_enabled"@, bool_text(v)))) by {
            broadcast use lemma_push_opt_keeps, lemma_push_keeps;
        }
        lemma_object_holds_member(a.spec_members(true), member_text("speed_limit_up_enabled"@, bool_text(v)));
    }
}

proof fn lemma_session_set_members_start_added_torrents(a: SessionSetArgs)
    ensures
        a.start_added_torrents matches Some(v) ==> has_member(a.spec_json(false), "start-added-torrents"@, bool_text(v)),
        a.start_added_torrents matches Some(v) ==> has_member(a.spec_json(true), "start_added_torrents"@, bool_text(v)),
{
    if let Some(v) = a.start_added_torrents {
        assert(a.spec_members(false).contains(member_text("start-added-torrents"@, bool_text(v)))) by {
            broadcast use lemma_push_opt_keeps, lemma_push_keeps;
        }
        lemma_object_holds_member(a.spec_members(false), member_text("start-added-torrents"@, bool_text(v)));
        assert(a.spec_members(true).contains(member_text("start_added_torrents"@, bool_text(v)))) by {
            broadcast use lemma_push_opt_keeps, lemma_push_keeps;
        }
        lemma_object_holds_member(a.spec_members(true), member_text("start_added_torrents"@, bool_text(v)));
    }
}

proof fn lemma_session_set_members_trash_original_torrent_files(a: SessionSetArgs)
    ensures
        a.trash_original_torrent_files matches Some(v) ==> has_member(a.spec_json(false), "trash-original-torrent-files"@, bool_text(v)),
        a.trash_original_torrent_files matches Some(v) ==> has_member(a.spec_json(true), "trash_original_torrent_files"@, bool_text(v)),
{
    if let Some(v) = a.trash_original_torrent_files {
        assert(a.spec_members(false).contains(member_text("trash-original-torrent-files"@, bool_text(v)))) by {
            broadcast use lemma_push_opt_keeps, lemma_push_keeps;
        }
        lemma_object_holds_member(a.spec_members(false), member_text("trash-original-torrent-files"@, bool_text(v)));
        assert(a.spec_members(true).contains(member_text("trash_original_torrent_files"@, bool_text(v)))) by {
            broadcast use lemma_push_opt_keeps, lemma_push_keeps;
        }
        lemma_object_holds_member(a.spec_members(true), member_text("trash_original_torrent_files"@, bool_text(v)));
    }
}

proof fn lemma_session_set_members_utp_enabled(a: SessionSetArgs)
    ensures
        a.utp_enabled matches Some(v) ==> has_member(a.spec_json(false), "utp-enabled"@, bool_text(v)),
        a.utp_enabled matches Some(v) ==> has_member(a.spec_json(true), "utp_enabled"@, bool_text(v)),
{
    if let Some(v) = a.utp_enabled {
        assert(a.spec_members(false).contains(member_text("utp-enabled"@, bool_text(v)))) by {
            broadcast use lemma_push_opt_keeps, lemma_push_keeps;
        }
        lemma_object_holds_member(a.spec_members(false), member_text("utp-enabled"@, bool_text(v)));
        assert(a.spec_members(true).contains(member_text("utp_enabled"@, bool_text(v)))) by {
            broadcast use lemma_push_opt_keeps, lemma_push_keeps;
        }
        lemma_object_holds_member(a.spec_members(true), member_text("utp_enabled"@, bool_text(v)));
    }
}

} // verus!
