//! Arguments of session-get requests and the session fields they can ask for.
use vstd::prelude::*;
use vstd::std_specs::convert::FromSpecImpl;
use crate::json::{array_text, member_text, object_text, string_json, string_text, JsonArray, JsonObject};

verus! {

/// A field of the session that a session-get request can ask for.
#[derive(Debug, Clone, Copy, PartialEq, Eq, Hash)]
pub enum SessionGetField {
    AltSpeedDown,
    AltSpeedEnabled,
    AltSpeedTimeBegin,
    AltSpeedTimeDay,
    AltSpeedTimeEnabled,
    AltSpeedTimeEnd,
    AltSpeedUp,
    AntiBruteForceEnabled,
    AntiBruteForceThreshold,
    BlocklistEnabled,
    BlocklistSize,
    BlocklistUrl,
    CacheSizeMb,
    ConfigDir,
    DefaultTrackers,
    DhtEnabled,
    DownloadDir,
    DownloadDirFreeSpace,
    DownloadQueueEnabled,
    DownloadQueueSize,
    Encryption,
    IdleSeedingLimitEnabled,
    IdleSeedingLimit,
    IncompleteDirEnabled,
    IncompleteDir,
    LpdEnabled,
    PeerLimitGlobal,
    PeerLimitPerTorrent,
    PeerPortRandomOnStart,
    PeerPort,
    PexEnabled,
    PortForwardingEnabled,
    PreferredTransports,
    QueueStalledEnabled,
    QueueStalledMinutes,
    RenamePartialFiles,
    Reqq,
    RpcVersionMinimum,
    RpcVersionSemver,
    RpcVersion,
    ScriptTorrentAddedEnabled,
    ScriptTorrentAddedFilename,
    ScriptTorrentDoneEnabled,
    ScriptTorrentDoneFilename,
    ScriptTorrentDoneSeedingEnabled,
    ScriptTorrentDoneSeedingFilename,
    SeedQueueEnabled,
    SeedQueueSize,
    SeedRatioLimit,
    SeedRatioLimited,
    SequentialDownload,
    SessionId,
    SpeedLimitDownEnabled,
    SpeedLimitDown,
    SpeedLimitUpEnabled,
    SpeedLimitUp,
    StartAddedTorrents,
    TcpEnabled,
    TrashOriginalTorrentFiles,
    Units,
    UtpEnabled,
    Version,
}

impl SessionGetField {
    /// The name of this value in the older rpc protocol.
    pub open spec fn spec_name(self) -> Seq<char> {
        match self {
            SessionGetField::AltSpeedDown => "alt-speed-down"@,
            SessionGetField::AltSpeedEnabled => "alt-speed-enabled"@,
            SessionGetField::AltSpeedTimeBegin => "alt-speed-time-begin"@,
            SessionGetField::AltSpeedTimeDay => "alt-speed-time-day"@,
            SessionGetField::AltSpeedTimeEnabled => "alt-speed-time-enabled"@,
            SessionGetField::AltSpeedTimeEnd => "alt-speed-time-end"@,
            SessionGetField::AltSpeedUp => "alt-speed-up"@,
            SessionGetField::AntiBruteForceEnabled => "anti-brute-force-enabled"@,
            SessionGetField::AntiBruteForceThreshold => "anti-brute-force-threshold"@,
            SessionGetField::BlocklistEnabled => "blocklist-enabled"@,
            SessionGetField::BlocklistSize => "blocklist-size"@,
            SessionGetField::BlocklistUrl => "blocklist-url"@,
            SessionGetField::CacheSizeMb => "cache-size-mb"@,
            SessionGetField::ConfigDir => "config-dir"@,
            SessionGetField::DefaultTrackers => "default-trackers"@,
            SessionGetField::DhtEnabled => "dht-enabled"@,
            SessionGetField::DownloadDir => "download-dir"@,
            SessionGetField::DownloadDirFreeSpace => "download-dir-free-space"@,
            SessionGetField::DownloadQueueEnabled => "download-queue-enabled"@,
            SessionGetField::DownloadQueueSize => "download-queue-size"@,
            SessionGetField::Encryption => "encryption"@,
            SessionGetField::IdleSeedingLimitEnabled => "idle-seeding-limit-enabled"@,
            SessionGetField::IdleSeedingLimit => "idle-seeding-limit"@,
            SessionGetField::IncompleteDirEnabled => "incomplete-dir-enabled"@,
            SessionGetField::IncompleteDir => "incomplete-dir"@,
            SessionGetField::LpdEnabled => "lpd-enabled"@,
            SessionGetField::PeerLimitGlobal => "peer-limit-global"@,
            SessionGetField::PeerLimitPerTorrent => "peer-limit-per-torrent"@,
            SessionGetField::PeerPortRandomOnStart => "peer-port-random-on-start"@,
            SessionGetField::PeerPort => "peer-port"@,
            SessionGetField::PexEnabled => "pex-enabled"@,
            SessionGetField::PortForwardingEnabled => "port-forwarding-enabled"@,
            SessionGetField::PreferredTransports => "preferred-transports"@,
            SessionGetField::QueueStalledEnabled => "queue-stalled-enabled"@,
            SessionGetField::QueueStalledMinutes => "queue-stalled-minutes"@,
            SessionGetField::RenamePartialFiles => "rename-partial-files"@,
            SessionGetField::Reqq => "reqq"@,
            SessionGetField::RpcVersionMinimum => "rpc-version-minimum"@,
            SessionGetField::RpcVersionSemver => "rpc-version-semver"@,
            SessionGetField::RpcVersion => "rpc-version"@,
            SessionGetField::ScriptTorrentAddedEnabled => "script-torrent-added-enabled"@,
            SessionGetField::ScriptTorrentAddedFilename => "script-torrent-added-filename"@,
            SessionGetField::ScriptTorrentDoneEnabled => "script-torrent-done-enabled"@,
            SessionGetField::ScriptTorrentDoneFilename => "script-torrent-done-filename"@,
            SessionGetField::ScriptTorrentDoneSeedingEnabled => "script-torrent-done-seeding-enabled"@,
            SessionGetField::ScriptTorrentDoneSeedingFilename => "script-torrent-done-seeding-filename"@,
            SessionGetField::SeedQueueEnabled => "seed-queue-enabled"@,
            SessionGetField::SeedQueueSize => "seed-queue-size"@,
            SessionGetField::SeedRatioLimit => "seedRatioLimit"@,
            SessionGetField::SeedRatioLimited => "seedRatioLimited"@,
            SessionGetField::SequentialDownload => "sequential_download"@,
            SessionGetField::SessionId => "session-id"@,
            SessionGetField::SpeedLimitDownEnabled => "speed-limit-down-enabled"@,
            SessionGetField::SpeedLimitDown => "speed-limit-down"@,
            SessionGetField::SpeedLimitUpEnabled => "speed-limit-up-enabled"@,
            SessionGetField::SpeedLimitUp => "speed-limit-up"@,
            SessionGetField::StartAddedTorrents => "start-added-torrents"@,
            SessionGetField::TcpEnabled => "tcp-enabled"@,
            SessionGetField::TrashOriginalTorrentFiles => "trash-original-torrent-files"@,
            SessionGetField::Units => "units"@,
            SessionGetField::UtpEnabled => "utp-enabled"@,
            SessionGetField::Version => "version"@,
        }
    }

    /// The name of this value in the JSON-RPC protocol.
    pub open spec fn spec_compat_name(self) -> Seq<char> {
        match self {
            SessionGetField::AltSpeedDown => "alt_speed_down"@,
            SessionGetField::AltSpeedEnabled => "alt_speed_enabled"@,
            SessionGetField::AltSpeedTimeBegin => "alt_speed_time_begin"@,
            SessionGetField::AltSpeedTimeDay => "alt_speed_time_day"@,
            SessionGetField::AltSpeedTimeEnabled => "alt_speed_time_enabled"@,
            SessionGetField::AltSpeedTimeEnd => "alt_speed_time_end"@,
            SessionGetField::AltSpeedUp => "alt_speed_up"@,
            SessionGetField::AntiBruteForceEnabled => "anti_brute_force_enabled"@,
            SessionGetField::AntiBruteForceThreshold => "anti_brute_force_threshold"@,
            SessionGetField::BlocklistEnabled => "blocklist_enabled"@,
            SessionGetField::BlocklistSize => "blocklist_size"@,
            SessionGetField::BlocklistUrl => "blocklist_url"@,
            SessionGetField::CacheSizeMb => "cache_size_mib"@,
            SessionGetField::ConfigDir => "config_dir"@,
            SessionGetField::DefaultTrackers => "default_trackers"@,
            SessionGetField::DhtEnabled => "dht_enabled"@,
            SessionGetField::DownloadDir => "download_dir"@,
            SessionGetField::DownloadDirFreeSpace => "download_dir_free_space"@,
            SessionGetField::DownloadQueueEnabled => "download_queue_enabled"@,
            SessionGetField::DownloadQueueSize => "download_queue_size"@,
            SessionGetField::Encryption => "encryption"@,
            SessionGetField::IdleSeedingLimitEnabled => "idle_seeding_limit_enabled"@,
            SessionGetField::IdleSeedingLimit => "idle_seeding_limit"@,
            SessionGetField::IncompleteDirEnabled => "incomplete_dir_enabled"@,
            SessionGetField::IncompleteDir => "incomplete_dir"@,
            SessionGetField::LpdEnabled => "lpd_enabled"@,
            SessionGetField::PeerLimitGlobal => "peer_limit_global"@,
            SessionGetField::PeerLimitPerTorrent => "peer_limit_per_torrent"@,
            SessionGetField::PeerPortRandomOnStart => "peer_port_random_on_start"@,
            SessionGetField::PeerPort => "peer_port"@,
            SessionGetField::PexEnabled => "pex_enabled"@,
            SessionGetField::PortForwardingEnabled => "port_forwarding_enabled"@,
            SessionGetField::PreferredTransports => "preferred_transports"@,
            SessionGetField::QueueStalledEnabled => "queue_stalled_enabled"@,
            SessionGetField::QueueStalledMinutes => "queue_stalled_minutes"@,
            SessionGetField::RenamePartialFiles => "rename_partial_files"@,
            SessionGetField::Reqq => "reqq"@,
            SessionGetField::RpcVersionMinimum => "rpc_version_minimum"@,
            SessionGetField::RpcVersionSemver => "rpc_version_semver"@,
            SessionGetField::RpcVersion => "rpc_version"@,
            SessionGetField::ScriptTorrentAddedEnabled => "script_torrent_added_enabled"@,
            SessionGetField::ScriptTorrentAddedFilename => "script_torrent_added_filename"@,
            SessionGetField::ScriptTorrentDoneEnabled => "script_torrent_done_enabled"@,
            SessionGetField::ScriptTorrentDoneFilename => "script_torrent_done_filename"@,
            SessionGetField::ScriptTorrentDoneSeedingEnabled => "script_torrent_done_seeding_enabled"@,
            SessionGetField::ScriptTorrentDoneSeedingFilename => "script_torrent_done_seeding_filename"@,
            SessionGetField::SeedQueueEnabled => "seed_queue_enabled"@,
            SessionGetField::SeedQueueSize => "seed_queue_size"@,
            SessionGetField::SeedRatioLimit => "seed_ratio_limit"@,
            SessionGetField::SeedRatioLimited => "seed_ratio_limited"@,
            SessionGetField::SequentialDownload => "sequential_download"@,
            SessionGetField::SessionId => "session_id"@,
            SessionGetField::SpeedLimitDownEnabled => "speed_limit_down_enabled"@,
            SessionGetField::SpeedLimitDown => "speed_limit_down"@,
            SessionGetField::SpeedLimitUpEnabled => "speed_limit_up_enabled"@,
            SessionGetField::SpeedLimitUp => "speed_limit_up"@,
            SessionGetField::StartAddedTorrents => "start_added_torrents"@,
            SessionGetField::TcpEnabled => "tcp_enabled"@,
            SessionGetField::TrashOriginalTorrentFiles => "trash_original_torrent_files"@,
            SessionGetField::Units => "units"@,
            SessionGetField::UtpEnabled => "utp_enabled"@,
            SessionGetField::Version => "version"@,
        }
    }

    /// The name of this value in the older or the JSON-RPC protocol.
    pub open spec fn spec_key(self, compat: bool) -> Seq<char> {
        if compat {
            self.spec_compat_name()
        } else {
            self.spec_name()
        }
    }

    /// The name of this value in the older rpc protocol.
    pub fn name(&self) -> (s: &'static str)
        ensures
            s@ == self.spec_name(),
    {
        match self {
            SessionGetField::AltSpeedDown => "alt-speed-down",
            SessionGetField::AltSpeedEnabled => "alt-speed-enabled",
            SessionGetField::AltSpeedTimeBegin => "alt-speed-time-begin",
            SessionGetField::AltSpeedTimeDay => "alt-speed-time-day",
            SessionGetField::AltSpeedTimeEnabled => "alt-speed-time-enabled",
            SessionGetField::AltSpeedTimeEnd => "alt-speed-time-end",
            SessionGetField::AltSpeedUp => "alt-speed-up",
            SessionGetField::AntiBruteForceEnabled => "anti-brute-force-enabled",
            SessionGetField::AntiBruteForceThreshold => "anti-brute-force-threshold",
            SessionGetField::BlocklistEnabled => "blocklist-enabled",
            SessionGetField::BlocklistSize => "blocklist-size",
            SessionGetField::BlocklistUrl => "blocklist-url",
            SessionGetField::CacheSizeMb => "cache-size-mb",
            SessionGetField::ConfigDir => "config-dir",
            SessionGetField::DefaultTrackers => "default-trackers",
            SessionGetField::DhtEnabled => "dht-enabled",
            SessionGetField::DownloadDir => "download-dir",
            SessionGetField::DownloadDirFreeSpace => "download-dir-free-space",
            SessionGetField::DownloadQueueEnabled => "download-queue-enabled",
            SessionGetField::DownloadQueueSize => "download-queue-size",
            SessionGetField::Encryption => "encryption",
            SessionGetField::IdleSeedingLimitEnabled => "idle-seeding-limit-enabled",
            SessionGetField::IdleSeedingLimit => "idle-seeding-limit",
            SessionGetField::IncompleteDirEnabled => "incomplete-dir-enabled",
            SessionGetField::IncompleteDir => "incomplete-dir",
            SessionGetField::LpdEnabled => "lpd-enabled",
            SessionGetField::PeerLimitGlobal => "peer-limit-global",
            SessionGetField::PeerLimitPerTorrent => "peer-limit-per-torrent",
            SessionGetField::PeerPortRandomOnStart => "peer-port-random-on-start",
            SessionGetField::PeerPort => "peer-port",
            SessionGetField::PexEnabled => "pex-enabled",
            SessionGetField::PortForwardingEnabled => "port-forwarding-enabled",
            SessionGetField::PreferredTransports => "preferred-transports",
            SessionGetField::QueueStalledEnabled => "queue-stalled-enabled",
            SessionGetField::QueueStalledMinutes => "queue-stalled-minutes",
            SessionGetField::RenamePartialFiles => "rename-partial-files",
            SessionGetField::Reqq => "reqq",
            SessionGetField::RpcVersionMinimum => "rpc-version-minimum",
            SessionGetField::RpcVersionSemver => "rpc-version-semver",
            SessionGetField::RpcVersion => "rpc-version",
            SessionGetField::ScriptTorrentAddedEnabled => "script-torrent-added-enabled",
            SessionGetField::ScriptTorrentAddedFilename => "script-torrent-added-filename",
            SessionGetField::ScriptTorrentDoneEnabled => "script-torrent-done-enabled",
            SessionGetField::ScriptTorrentDoneFilename => "script-torrent-done-filename",
            SessionGetField::ScriptTorrentDoneSeedingEnabled => "script-torrent-done-seeding-enabled",
            SessionGetField::ScriptTorrentDoneSeedingFilename => "script-torrent-done-seeding-filename",
            SessionGetField::SeedQueueEnabled => "seed-queue-enabled",
            SessionGetField::SeedQueueSize => "seed-queue-size",
            SessionGetField::SeedRatioLimit => "seedRatioLimit",
            SessionGetField::SeedRatioLimited => "seedRatioLimited",
            SessionGetField::SequentialDownload => "sequential_download",
            SessionGetField::SessionId => "session-id",
            SessionGetField::SpeedLimitDownEnabled => "speed-limit-down-enabled",
            SessionGetField::SpeedLimitDown => "speed-limit-down",
            SessionGetField::SpeedLimitUpEnabled => "speed-limit-up-enabled",
            SessionGetField::SpeedLimitUp => "speed-limit-up",
            SessionGetField::StartAddedTorrents => "start-added-torrents",
            SessionGetField::TcpEnabled => "tcp-enabled",
            SessionGetField::TrashOriginalTorrentFiles => "trash-original-torrent-files",
            SessionGetField::Units => "units",
            SessionGetField::UtpEnabled => "utp-enabled",
            SessionGetField::Version => "version",
        }
    }

    /// The name of this value in the JSON-RPC protocol.
    pub fn compat_name(&self) -> (s: &'static str)
        ensures
            s@ == self.spec_compat_name(),
    {
        match self {
            SessionGetField::AltSpeedDown => "alt_speed_down",
            SessionGetField::AltSpeedEnabled => "alt_speed_enabled",
            SessionGetField::AltSpeedTimeBegin => "alt_speed_time_begin",
            SessionGetField::AltSpeedTimeDay => "alt_speed_time_day",
            SessionGetField::AltSpeedTimeEnabled => "alt_speed_time_enabled",
            SessionGetField::AltSpeedTimeEnd => "alt_speed_time_end",
            SessionGetField::AltSpeedUp => "alt_speed_up",
            SessionGetField::AntiBruteForceEnabled => "anti_brute_force_enabled",
            SessionGetField::AntiBruteForceThreshold => "anti_brute_force_threshold",
            SessionGetField::BlocklistEnabled => "blocklist_enabled",
            SessionGetField::BlocklistSize => "blocklist_size",
            SessionGetField::BlocklistUrl => "blocklist_url",
            SessionGetField::CacheSizeMb => "cache_size_mib",
            SessionGetField::ConfigDir => "config_dir",
            SessionGetField::DefaultTrackers => "default_trackers",
            SessionGetField::DhtEnabled => "dht_enabled",
            SessionGetField::DownloadDir => "download_dir",
            SessionGetField::DownloadDirFreeSpace => "download_dir_free_space",
            SessionGetField::DownloadQueueEnabled => "download_queue_enabled",
            SessionGetField::DownloadQueueSize => "download_queue_size",
            SessionGetField::Encryption => "encryption",
            SessionGetField::IdleSeedingLimitEnabled => "idle_seeding_limit_enabled",
            SessionGetField::IdleSeedingLimit => "idle_seeding_limit",
            SessionGetField::IncompleteDirEnabled => "incomplete_dir_enabled",
            SessionGetField::IncompleteDir => "incomplete_dir",
            SessionGetField::LpdEnabled => "lpd_enabled",
            SessionGetField::PeerLimitGlobal => "peer_limit_global",
            SessionGetField::PeerLimitPerTorrent => "peer_limit_per_torrent",
            SessionGetField::PeerPortRandomOnStart => "peer_port_random_on_start",
            SessionGetField::PeerPort => "peer_port",
            SessionGetField::PexEnabled => "pex_enabled",
            SessionGetField::PortForwardingEnabled => "port_forwarding_enabled",
            SessionGetField::PreferredTransports => "preferred_transports",
            SessionGetField::QueueStalledEnabled => "queue_stalled_enabled",
            SessionGetField::QueueStalledMinutes => "queue_stalled_minutes",
            SessionGetField::RenamePartialFiles => "rename_partial_files",
            SessionGetField::Reqq => "reqq",
            SessionGetField::RpcVersionMinimum => "rpc_version_minimum",
            SessionGetField::RpcVersionSemver => "rpc_version_semver",
            SessionGetField::RpcVersion => "rpc_version",
            SessionGetField::ScriptTorrentAddedEnabled => "script_torrent_added_enabled",
            SessionGetField::ScriptTorrentAddedFilename => "script_torrent_added_filename",
            SessionGetField::ScriptTorrentDoneEnabled => "script_torrent_done_enabled",
            SessionGetField::ScriptTorrentDoneFilename => "script_torrent_done_filename",
            SessionGetField::ScriptTorrentDoneSeedingEnabled => "script_torrent_done_seeding_enabled",
            SessionGetField::ScriptTorrentDoneSeedingFilename => "script_torrent_done_seeding_filename",
            SessionGetField::SeedQueueEnabled => "seed_queue_enabled",
            SessionGetField::SeedQueueSize => "seed_queue_size",
            SessionGetField::SeedRatioLimit => "seed_ratio_limit",
            SessionGetField::SeedRatioLimited => "seed_ratio_limited",
            SessionGetField::SequentialDownload => "sequential_download",
            SessionGetField::SessionId => "session_id",
            SessionGetField::SpeedLimitDownEnabled => "speed_limit_down_enabled",
            SessionGetField::SpeedLimitDown => "speed_limit_down",
            SessionGetField::SpeedLimitUpEnabled => "speed_limit_up_enabled",
            SessionGetField::SpeedLimitUp => "speed_limit_up",
            SessionGetField::StartAddedTorrents => "start_added_torrents",
            SessionGetField::TcpEnabled => "tcp_enabled",
            SessionGetField::TrashOriginalTorrentFiles => "trash_original_torrent_files",
            SessionGetField::Units => "units",
            SessionGetField::UtpEnabled => "utp_enabled",
            SessionGetField::Version => "version",
        }
    }

    /// The name of this value in the older or the JSON-RPC protocol.
    pub fn key(&self, compat: bool) -> (s: &'static str)
        ensures
            s@ == self.spec_key(compat),
    {
        if compat {
            self.compat_name()
        } else {
            self.name()
        }
    }
}

/// The JSON array of the names of `fields`, in the older or the JSON-RPC protocol.
pub open spec fn session_fields_text(fields: Seq<SessionGetField>, compat: bool) -> Seq<char> {
    array_text(fields.map_values(|f: SessionGetField| string_text(f.spec_key(compat))))
}

/// The JSON array of the names of `fields`.
pub fn session_fields_json(fields: &Vec<SessionGetField>, compat: bool) -> (s: String)
    ensures
        s@ == session_fields_text(fields@, compat),
{
    let mut a = JsonArray::new();
    let mut i: usize = 0;
    while i < fields.len()
        invariant
            i <= fields.len(),
            a.wf(),
            a.items() == fields@.take(i as int).map_values(|f: SessionGetField| string_text(f.spec_key(compat))),
        decreases fields.len() - i,
    {
        let t = string_json(fields[i].key(compat));
        a.push(t.as_str());
        assert(fields@.take(i + 1).map_values(|f: SessionGetField| string_text(f.spec_key(compat))) =~= fields@.take(
            i as int,
        ).map_values(|f: SessionGetField| string_text(f.spec_key(compat))).push(
            string_text(fields@[i as int].spec_key(compat)),
        ));
        i = i + 1;
    }
    assert(fields@.take(fields.len() as int) =~= fields@);
    a.finish()
}

/// Arguments of a session-get request: the fields to get. No fields at all asks for every
/// field, as if the argument were absent.
#[derive(Debug, Clone, PartialEq)]
pub struct SessionGetArgs {
    pub fields: Vec<SessionGetField>,
}

impl SessionGetArgs {
    /// The members of the JSON object of these arguments: "fields" unless it is empty.
    pub open spec fn spec_members(self, compat: bool) -> Seq<Seq<char>> {
        if self.fields@.len() == 0 {
            seq![]
        } else {
            seq![member_text("fields"@, session_fields_text(self.fields@, compat))]
        }
    }

    /// The JSON object of these arguments.
    pub open spec fn spec_json(self, compat: bool) -> Seq<char> {
        object_text(self.spec_members(compat))
    }

    /// The JSON object of these arguments.
    pub fn to_json(&self, compat: bool) -> (s: String)
        ensures
            s@ == self.spec_json(compat),
    {
        let mut o = JsonObject::new();
        if self.fields.len() != 0 {
            let v = session_fields_json(&self.fields, compat);
            o.field("fields", v.as_str());
        }
        assert(o.members() =~= self.spec_members(compat));
        o.finish()
    }
}

impl From<Vec<SessionGetField>> for SessionGetArgs {
    fn from(fields: Vec<SessionGetField>) -> (a: SessionGetArgs)
        ensures
            a == (SessionGetArgs { fields }),
    {
        SessionGetArgs { fields }
    }
}

impl FromSpecImpl<Vec<SessionGetField>> for SessionGetArgs {
    open spec fn obeys_from_spec() -> bool {
        true
    }

    open spec fn from_spec(v: Vec<SessionGetField>) -> SessionGetArgs {
        SessionGetArgs { fields: v }
    }
}

} // verus!
