//! Arguments of torrent-get requests and the torrent fields they can ask for.
use vstd::prelude::*;
use vstd::std_specs::convert::FromSpecImpl;
use crate::json::{array_text, object_text, opt_view, push_opt, string_json, string_text, JsonArray, JsonObject};
use crate::types::{opt_ids_json, opt_ids_text, Id};

verus! {

/// A field of a torrent that a torrent-get request can ask for.
#[derive(Debug, Clone, Copy, PartialEq, Eq, Hash)]
pub enum TorrentGetField {
    ActivityDate,
    AddedDate,
    Availability,
    BandwidthPriority,
    BytesCompleted,
    Comment,
    CorruptEver,
    Creator,
    DateCreated,
    DesiredAvailable,
    DoneDate,
    DownloadDir,
    DownloadedEver,
    DownloadLimit,
    DownloadLimited,
    EditDate,
    Error,
    ErrorString,
    Eta,
    EtaIdle,
    FileCount,
    FileStats,
    Files,
    Group,
    HashString,
    HaveUnchecked,
    HaveValid,
    HonorsSessionLimits,
    Id,
    IsFinished,
    IsPrivate,
    IsStalled,
    Labels,
    LeftUntilDone,
    MagnetLink,
    ManualAnnounceTime,
    MaxConnectedPeers,
    MetadataPercentComplete,
    Name,
    PeerLimit,
    Peers,
    PeersConnected,
    PeersFrom,
    PeersGettingFromUs,
    PeersSendingToUs,
    PercentComplete,
    PercentDone,
    Pieces,
    PieceCount,
    PieceSize,
    Priorities,
    PrimaryMimeType,
    QueuePosition,
    RateDownload,
    RateUpload,
    RecheckProgress,
    SecondsDownloading,
    SecondsSeeding,
    SeedIdleLimit,
    SeedIdleMode,
    SeedRatioLimit,
    SeedRatioMode,
    SequentialDownload,
    SequentialDownloadFromPiece,
    SizeWhenDone,
    StartDate,
    Status,
    TorrentFile,
    TotalSize,
    Trackers,
    TrackerList,
    TrackerStats,
    UploadRatio,
    UploadedEver,
    UploadLimit,
    UploadLimited,
    Wanted,
    Webseeds,
    WebseedsEx,
    WebseedsSendingToUs,
}

impl TorrentGetField {
    /// The name of this value in the older rpc protocol.
    pub open spec fn spec_name(self) -> Seq<char> {
        match self {
            TorrentGetField::ActivityDate => "activityDate"@,
            TorrentGetField::AddedDate => "addedDate"@,
            TorrentGetField::Availability => "availability"@,
            TorrentGetField::BandwidthPriority => "bandwidthPriority"@,
            TorrentGetField::BytesCompleted => "bytes_completed"@,
            TorrentGetField::Comment => "comment"@,
            TorrentGetField::CorruptEver => "corruptEver"@,
            TorrentGetField::Creator => "creator"@,
            TorrentGetField::DateCreated => "dateCreated"@,
            TorrentGetField::DesiredAvailable => "desiredAvailable"@,
            TorrentGetField::DoneDate => "doneDate"@,
            TorrentGetField::DownloadDir => "downloadDir"@,
            TorrentGetField::DownloadedEver => "downloadedEver"@,
            TorrentGetField::DownloadLimit => "downloadLimit"@,
            TorrentGetField::DownloadLimited => "downloadLimited"@,
            TorrentGetField::EditDate => "editDate"@,
            TorrentGetField::Error => "error"@,
            TorrentGetField::ErrorString => "errorString"@,
            TorrentGetField::Eta => "eta"@,
            TorrentGetField::EtaIdle => "etaIdle"@,
            TorrentGetField::FileCount => "file-count"@,
            TorrentGetField::FileStats => "fileStats"@,
            TorrentGetField::Files => "files"@,
            TorrentGetField::Group => "group"@,
            TorrentGetField::HashString => "hashString"@,
            TorrentGetField::HaveUnchecked => "haveUnchecked"@,
            TorrentGetField::HaveValid => "haveValid"@,
            TorrentGetField::HonorsSessionLimits => "honorsSessionLimits"@,
            TorrentGetField::Id => "id"@,
            TorrentGetField::IsFinished => "isFinished"@,
            TorrentGetField::IsPrivate => "isPrivate"@,
            TorrentGetField::IsStalled => "isStalled"@,
            TorrentGetField::Labels => "labels"@,
            TorrentGetField::LeftUntilDone => "leftUntilDone"@,
            TorrentGetField::MagnetLink => "magnetLink"@,
            TorrentGetField::ManualAnnounceTime => "manualAnnounceTime"@,
            TorrentGetField::MaxConnectedPeers => "maxConnectedPeers"@,
            TorrentGetField::MetadataPercentComplete => "metadataPercentComplete"@,
            TorrentGetField::Name => "name"@,
            TorrentGetField::PeerLimit => "peer-limit"@,
            TorrentGetField::Peers => "peers"@,
            TorrentGetField::PeersConnected => "peersConnected"@,
            TorrentGetField::PeersFrom => "peersFrom"@,
            TorrentGetField::PeersGettingFromUs => "peersGettingFromUs"@,
            TorrentGetField::PeersSendingToUs => "peersSendingToUs"@,
            TorrentGetField::PercentComplete => "percentComplete"@,
            TorrentGetField::PercentDone => "percentDone"@,
            TorrentGetField::Pieces => "pieces"@,
            TorrentGetField::PieceCount => "pieceCount"@,
            TorrentGetField::PieceSize => "pieceSize"@,
            TorrentGetField::Priorities => "priorities"@,
            TorrentGetField::PrimaryMimeType => "primary-mime-type"@,
            TorrentGetField::QueuePosition => "queuePosition"@,
            TorrentGetField::RateDownload => "rateDownload"@,
            TorrentGetField::RateUpload => "rateUpload"@,
            TorrentGetField::RecheckProgress => "recheckProgress"@,
            TorrentGetField::SecondsDownloading => "secondsDownloading"@,
            TorrentGetField::SecondsSeeding => "secondsSeeding"@,
            TorrentGetField::SeedIdleLimit => "seedIdleLimit"@,
            TorrentGetField::SeedIdleMode => "seedIdleMode"@,
            TorrentGetField::SeedRatioLimit => "seedRatioLimit"@,
            TorrentGetField::SeedRatioMode => "seedRatioMode"@,
            TorrentGetField::SequentialDownload => "sequential_download"@,
            TorrentGetField::SequentialDownloadFromPiece => "sequential_download_from_piece"@,
            TorrentGetField::SizeWhenDone => "sizeWhenDone"@,
            TorrentGetField::StartDate => "startDate"@,
            TorrentGetField::Status => "status"@,
            TorrentGetField::TorrentFile => "torrentFile"@,
            TorrentGetField::TotalSize => "totalSize"@,
            TorrentGetField::Trackers => "trackers"@,
            TorrentGetField::TrackerList => "trackerList"@,
            TorrentGetField::TrackerStats => "trackerStats"@,
            TorrentGetField::UploadRatio => "uploadRatio"@,
            TorrentGetField::UploadedEver => "uploadedEver"@,
            TorrentGetField::UploadLimit => "uploadLimit"@,
            TorrentGetField::UploadLimited => "uploadLimited"@,
            TorrentGetField::Wanted => "wanted"@,
            TorrentGetField::Webseeds => "webseeds"@,
            TorrentGetField::WebseedsEx => "webseeds_ex"@,
            TorrentGetField::WebseedsSendingToUs => "webseedsSendingToUs"@,
        }
    }

    /// The name of this value in the JSON-RPC protocol.
    pub open spec fn spec_compat_name(self) -> Seq<char> {
        match self {
            TorrentGetField::ActivityDate => "activity_date"@,
            TorrentGetField::AddedDate => "added_date"@,
            TorrentGetField::Availability => "availability"@,
            TorrentGetField::BandwidthPriority => "bandwidth_priority"@,
            TorrentGetField::BytesCompleted => "bytes_completed"@,
            TorrentGetField::Comment => "comment"@,
            TorrentGetField::CorruptEver => "corrupt_ever"@,
            TorrentGetField::Creator => "creator"@,
            TorrentGetField::DateCreated => "date_created"@,
            TorrentGetField::DesiredAvailable => "desired_available"@,
            TorrentGetField::DoneDate => "done_date"@,
            TorrentGetField::DownloadDir => "download_dir"@,
            TorrentGetField::DownloadedEver => "downloaded_ever"@,
            TorrentGetField::DownloadLimit => "download_limit"@,
            TorrentGetField::DownloadLimited => "download_limited"@,
            TorrentGetField::EditDate => "edit_date"@,
            TorrentGetField::Error => "error"@,
            TorrentGetField::ErrorString => "error_string"@,
            TorrentGetField::Eta => "eta"@,
            TorrentGetField::EtaIdle => "eta_idle"@,
            TorrentGetField::FileCount => "file_count"@,
            TorrentGetField::FileStats => "file_stats"@,
            TorrentGetField::Files => "files"@,
            TorrentGetField::Group => "group"@,
            TorrentGetField::HashString => "hash_string"@,
            TorrentGetField::HaveUnchecked => "have_unchecked"@,
            TorrentGetField::HaveValid => "have_valid"@,
            TorrentGetField::HonorsSessionLimits => "honors_session_limits"@,
            TorrentGetField::Id => "id"@,
            TorrentGetField::IsFinished => "is_finished"@,
            TorrentGetField::IsPrivate => "is_private"@,
            TorrentGetField::IsStalled => "is_stalled"@,
            TorrentGetField::Labels => "labels"@,
            TorrentGetField::LeftUntilDone => "left_until_done"@,
            TorrentGetField::MagnetLink => "magnet_link"@,
            TorrentGetField::ManualAnnounceTime => "manual_announce_time"@,
            TorrentGetField::MaxConnectedPeers => "max_connected_peers"@,
            TorrentGetField::MetadataPercentComplete => "metadata_percent_complete"@,
            TorrentGetField::Name => "name"@,
            TorrentGetField::PeerLimit => "peer_limit"@,
            TorrentGetField::Peers => "peers"@,
            TorrentGetField::PeersConnected => "peers_connected"@,
            TorrentGetField::PeersFrom => "peers_from"@,
            TorrentGetField::PeersGettingFromUs => "peers_getting_from_us"@,
            TorrentGetField::PeersSendingToUs => "peers_sending_to_us"@,
            TorrentGetField::PercentComplete => "percent_complete"@,
            TorrentGetField::PercentDone => "percent_done"@,
            TorrentGetField::Pieces => "pieces"@,
            TorrentGetField::PieceCount => "piece_count"@,
            TorrentGetField::PieceSize => "piece_size"@,
            TorrentGetField::Priorities => "priorities"@,
            TorrentGetField::PrimaryMimeType => "primary_mime_type"@,
            TorrentGetField::QueuePosition => "queue_position"@,
            TorrentGetField::RateDownload => "rate_download"@,
            TorrentGetField::RateUpload => "rate_upload"@,
            TorrentGetField::RecheckProgress => "recheck_progress"@,
            TorrentGetField::SecondsDownloading => "seconds_downloading"@,
            TorrentGetField::SecondsSeeding => "seconds_seeding"@,
            TorrentGetField::SeedIdleLimit => "seed_idle_limit"@,
            TorrentGetField::SeedIdleMode => "seed_idle_mode"@,
            TorrentGetField::SeedRatioLimit => "seed_ratio_limit"@,
            TorrentGetField::SeedRatioMode => "seed_ratio_mode"@,
            TorrentGetField::SequentialDownload => "sequential_download"@,
            TorrentGetField::SequentialDownloadFromPiece => "sequential_download_from_piece"@,
            TorrentGetField::SizeWhenDone => "size_when_done"@,
            TorrentGetField::StartDate => "start_date"@,
            TorrentGetField::Status => "status"@,
            TorrentGetField::TorrentFile => "torrent_file"@,
            TorrentGetField::TotalSize => "total_size"@,
            TorrentGetField::Trackers => "trackers"@,
            TorrentGetField::TrackerList => "tracker_list"@,
            TorrentGetField::TrackerStats => "tracker_stats"@,
            TorrentGetField::UploadRatio => "upload_ratio"@,
            TorrentGetField::UploadedEver => "uploaded_ever"@,
            TorrentGetField::UploadLimit => "upload_limit"@,
            TorrentGetField::UploadLimited => "upload_limited"@,
            TorrentGetField::Wanted => "wanted"@,
            TorrentGetField::Webseeds => "webseeds"@,
            TorrentGetField::WebseedsEx => "webseeds_ex"@,
            TorrentGetField::WebseedsSendingToUs => "webseeds_sending_to_us"@,
        }
    }

    /// The name of this value in the older or the JSON-RPC protocol.
    pub open spec fn spec_key(self, compat: bool) -> Seq<char> {
        if compat {
            self.spec_compat_name()
        } else {
            self.spec_name()
        }
    }

    /// The name of this value in the older rpc protocol.
    pub fn name(&self) -> (s: &'static str)
        ensures
            s@ == self.spec_name(),
    {
        match self {
            TorrentGetField::ActivityDate => "activityDate",
            TorrentGetField::AddedDate => "addedDate",
            TorrentGetField::Availability => "availability",
            TorrentGetField::BandwidthPriority => "bandwidthPriority",
            TorrentGetField::BytesCompleted => "bytes_completed",
            TorrentGetField::Comment => "comment",
            TorrentGetField::CorruptEver => "corruptEver",
            TorrentGetField::Creator => "creator",
            TorrentGetField::DateCreated => "dateCreated",
            TorrentGetField::DesiredAvailable => "desiredAvailable",
            TorrentGetField::DoneDate => "doneDate",
            TorrentGetField::DownloadDir => "downloadDir",
            TorrentGetField::DownloadedEver => "downloadedEver",
            TorrentGetField::DownloadLimit => "downloadLimit",
            TorrentGetField::DownloadLimited => "downloadLimited",
            TorrentGetField::EditDate => "editDate",
            TorrentGetField::Error => "error",
            TorrentGetField::ErrorString => "errorString",
            TorrentGetField::Eta => "eta",
            TorrentGetField::EtaIdle => "etaIdle",
            TorrentGetField::FileCount => "file-count",
            TorrentGetField::FileStats => "fileStats",
            TorrentGetField::Files => "files",
            TorrentGetField::Group => "group",
            TorrentGetField::HashString => "hashString",
            TorrentGetField::HaveUnchecked => "haveUnchecked",
            TorrentGetField::HaveValid => "haveValid",
            TorrentGetField::HonorsSessionLimits => "honorsSessionLimits",
            TorrentGetField::Id => "id",
            TorrentGetField::IsFinished => "isFinished",
            TorrentGetField::IsPrivate => "isPrivate",
            TorrentGetField::IsStalled => "isStalled",
            TorrentGetField::Labels => "labels",
            TorrentGetField::LeftUntilDone => "leftUntilDone",
            TorrentGetField::MagnetLink => "magnetLink",
            TorrentGetField::ManualAnnounceTime => "manualAnnounceTime",
            TorrentGetField::MaxConnectedPeers => "maxConnectedPeers",
            TorrentGetField::MetadataPercentComplete => "metadataPercentComplete",
            TorrentGetField::Name => "name",
            TorrentGetField::PeerLimit => "peer-limit",
            TorrentGetField::Peers => "peers",
            TorrentGetField::PeersConnected => "peersConnected",
            TorrentGetField::PeersFrom => "peersFrom",
            TorrentGetField::PeersGettingFromUs => "peersGettingFromUs",
            TorrentGetField::PeersSendingToUs => "peersSendingToUs",
            TorrentGetField::PercentComplete => "percentComplete",
            TorrentGetField::PercentDone => "percentDone",
            TorrentGetField::Pieces => "pieces",
            TorrentGetField::PieceCount => "pieceCount",
            TorrentGetField::PieceSize => "pieceSize",
            TorrentGetField::Priorities => "priorities",
            TorrentGetField::PrimaryMimeType => "primary-mime-type",
            TorrentGetField::QueuePosition => "queuePosition",
            TorrentGetField::RateDownload => "rateDownload",
            TorrentGetField::RateUpload => "rateUpload",
            TorrentGetField::RecheckProgress => "recheckProgress",
            TorrentGetField::SecondsDownloading => "secondsDownloading",
            TorrentGetField::SecondsSeeding => "secondsSeeding",
            TorrentGetField::SeedIdleLimit => "seedIdleLimit",
            TorrentGetField::SeedIdleMode => "seedIdleMode",
            TorrentGetField::SeedRatioLimit => "seedRatioLimit",
            TorrentGetField::SeedRatioMode => "seedRatioMode",
            TorrentGetField::SequentialDownload => "sequential_download",
            TorrentGetField::SequentialDownloadFromPiece => "sequential_download_from_piece",
            TorrentGetField::SizeWhenDone => "sizeWhenDone",
            TorrentGetField::StartDate => "startDate",
            TorrentGetField::Status => "status",
            TorrentGetField::TorrentFile => "torrentFile",
            TorrentGetField::TotalSize => "totalSize",
            TorrentGetField::Trackers => "trackers",
            TorrentGetField::TrackerList => "trackerList",
            TorrentGetField::TrackerStats => "trackerStats",
            TorrentGetField::UploadRatio => "uploadRatio",
            TorrentGetField::UploadedEver => "uploadedEver",
            TorrentGetField::UploadLimit => "uploadLimit",
            TorrentGetField::UploadLimited => "uploadLimited",
            TorrentGetField::Wanted => "wanted",
            TorrentGetField::Webseeds => "webseeds",
            TorrentGetField::WebseedsEx => "webseeds_ex",
            TorrentGetField::WebseedsSendingToUs => "webseedsSendingToUs",
        }
    }

    /// The name of this value in the JSON-RPC protocol.
    pub fn compat_name(&self) -> (s: &'static str)
        ensures
            s@ == self.spec_compat_name(),
    {
        match self {
            TorrentGetField::ActivityDate => "activity_date",
            TorrentGetField::AddedDate => "added_date",
            TorrentGetField::Availability => "availability",
            TorrentGetField::BandwidthPriority => "bandwidth_priority",
            TorrentGetField::BytesCompleted => "bytes_completed",
            TorrentGetField::Comment => "comment",
            TorrentGetField::CorruptEver => "corrupt_ever",
            TorrentGetField::Creator => "creator",
            TorrentGetField::DateCreated => "date_created",
            TorrentGetField::DesiredAvailable => "desired_available",
            TorrentGetField::DoneDate => "done_date",
            TorrentGetField::DownloadDir => "download_dir",
            TorrentGetField::DownloadedEver => "downloaded_ever",
            TorrentGetField::DownloadLimit => "download_limit",
            TorrentGetField::DownloadLimited => "download_limited",
            TorrentGetField::EditDate => "edit_date",
            TorrentGetField::Error => "error",
            TorrentGetField::ErrorString => "error_string",
            TorrentGetField::Eta => "eta",
            TorrentGetField::EtaIdle => "eta_idle",
            TorrentGetField::FileCount => "file_count",
            TorrentGetField::FileStats => "file_stats",
            TorrentGetField::Files => "files",
            TorrentGetField::Group => "group",
            TorrentGetField::HashString => "hash_string",
            TorrentGetField::HaveUnchecked => "have_unchecked",
            TorrentGetField::HaveValid => "have_valid",
            TorrentGetField::HonorsSessionLimits => "honors_session_limits",
            TorrentGetField::Id => "id",
            TorrentGetField::IsFinished => "is_finished",
            TorrentGetField::IsPrivate => "is_private",
            TorrentGetField::IsStalled => "is_stalled",
            TorrentGetField::Labels => "labels",
            TorrentGetField::LeftUntilDone => "left_until_done",
            TorrentGetField::MagnetLink => "magnet_link",
            TorrentGetField::ManualAnnounceTime => "manual_announce_time",
            TorrentGetField::MaxConnectedPeers => "max_connected_peers",
            TorrentGetField::MetadataPercentComplete => "metadata_percent_complete",
            TorrentGetField::Name => "name",
            TorrentGetField::PeerLimit => "peer_limit",
            TorrentGetField::Peers => "peers",
            TorrentGetField::PeersConnected => "peers_connected",
            TorrentGetField::PeersFrom => "peers_from",
            TorrentGetField::PeersGettingFromUs => "peers_getting_from_us",
            TorrentGetField::PeersSendingToUs => "peers_sending_to_us",
            TorrentGetField::PercentComplete => "percent_complete",
            TorrentGetField::PercentDone => "percent_done",
            TorrentGetField::Pieces => "pieces",
            TorrentGetField::PieceCount => "piece_count",
            TorrentGetField::PieceSize => "piece_size",
            TorrentGetField::Priorities => "priorities",
            TorrentGetField::PrimaryMimeType => "primary_mime_type",
            TorrentGetField::QueuePosition => "queue_position",
            TorrentGetField::RateDownload => "rate_download",
            TorrentGetField::RateUpload => "rate_upload",
            TorrentGetField::RecheckProgress => "recheck_progress",
            TorrentGetField::SecondsDownloading => "seconds_downloading",
            TorrentGetField::SecondsSeeding => "seconds_seeding",
            TorrentGetField::SeedIdleLimit => "seed_idle_limit",
            TorrentGetField::SeedIdleMode => "seed_idle_mode",
            TorrentGetField::SeedRatioLimit => "seed_ratio_limit",
            TorrentGetField::SeedRatioMode => "seed_ratio_mode",
            TorrentGetField::SequentialDownload => "sequential_download",
            TorrentGetField::SequentialDownloadFromPiece => "sequential_download_from_piece",
            TorrentGetField::SizeWhenDone => "size_when_done",
            TorrentGetField::StartDate => "start_date",
            TorrentGetField::Status => "status",
            TorrentGetField::TorrentFile => "torrent_file",
            TorrentGetField::TotalSize => "total_size",
            TorrentGetField::Trackers => "trackers",
            TorrentGetField::TrackerList => "tracker_list",
            TorrentGetField::TrackerStats => "tracker_stats",
            TorrentGetField::UploadRatio => "upload_ratio",
            TorrentGetField::UploadedEver => "uploaded_ever",
            TorrentGetField::UploadLimit => "upload_limit",
            TorrentGetField::UploadLimited => "upload_limited",
            TorrentGetField::Wanted => "wanted",
            TorrentGetField::Webseeds => "webseeds",
            TorrentGetField::WebseedsEx => "webseeds_ex",
            TorrentGetField::WebseedsSendingToUs => "webseeds_sending_to_us",
        }
    }

    /// The name of this value in the older or the JSON-RPC protocol.
    pub fn key(&self, compat: bool) -> (s: &'static str)
        ensures
            s@ == self.spec_key(compat),
    {
        if compat {
            self.compat_name()
        } else {
            self.name()
        }
    }

    /// Every value, in declaration order.
    pub open spec fn spec_all() -> Seq<TorrentGetField> {
        seq![
            TorrentGetField::ActivityDate,
            TorrentGetField::AddedDate,
            TorrentGetField::Availability,
            TorrentGetField::BandwidthPriority,
            TorrentGetField::BytesCompleted,
            TorrentGetField::Comment,
            TorrentGetField::CorruptEver,
            TorrentGetField::Creator,
            TorrentGetField::DateCreated,
            TorrentGetField::DesiredAvailable,
            TorrentGetField::DoneDate,
            TorrentGetField::DownloadDir,
            TorrentGetField::DownloadedEver,
            TorrentGetField::DownloadLimit,
            TorrentGetField::DownloadLimited,
            TorrentGetField::EditDate,
            TorrentGetField::Error,
            TorrentGetField::ErrorString,
            TorrentGetField::Eta,
            TorrentGetField::EtaIdle,
            TorrentGetField::FileCount,
            TorrentGetField::FileStats,
            TorrentGetField::Files,
            TorrentGetField::Group,
            TorrentGetField::HashString,
            TorrentGetField::HaveUnchecked,
            TorrentGetField::HaveValid,
            TorrentGetField::HonorsSessionLimits,
            TorrentGetField::Id,
            TorrentGetField::IsFinished,
            TorrentGetField::IsPrivate,
            TorrentGetField::IsStalled,
            TorrentGetField::Labels,
            TorrentGetField::LeftUntilDone,
            TorrentGetField::MagnetLink,
            TorrentGetField::ManualAnnounceTime,
            TorrentGetField::MaxConnectedPeers,
            TorrentGetField::MetadataPercentComplete,
            TorrentGetField::Name,
            TorrentGetField::PeerLimit,
            TorrentGetField::Peers,
            TorrentGetField::PeersConnected,
            TorrentGetField::PeersFrom,
            TorrentGetField::PeersGettingFromUs,
            TorrentGetField::PeersSendingToUs,
            TorrentGetField::PercentComplete,
            TorrentGetField::PercentDone,
            TorrentGetField::Pieces,
            TorrentGetField::PieceCount,
            TorrentGetField::PieceSize,
            TorrentGetField::Priorities,
            TorrentGetField::PrimaryMimeType,
            TorrentGetField::QueuePosition,
            TorrentGetField::RateDownload,
            TorrentGetField::RateUpload,
            TorrentGetField::RecheckProgress,
            TorrentGetField::SecondsDownloading,
            TorrentGetField::SecondsSeeding,
            TorrentGetField::SeedIdleLimit,
            TorrentGetField::SeedIdleMode,
            TorrentGetField::SeedRatioLimit,
            TorrentGetField::SeedRatioMode,
            TorrentGetField::SequentialDownload,
            TorrentGetField::SequentialDownloadFromPiece,
            TorrentGetField::SizeWhenDone,
            TorrentGetField::StartDate,
            TorrentGetField::Status,
            TorrentGetField::TorrentFile,
            TorrentGetField::TotalSize,
            TorrentGetField::Trackers,
            TorrentGetField::TrackerList,
            TorrentGetField::TrackerStats,
            TorrentGetField::UploadRatio,
            TorrentGetField::UploadedEver,
            TorrentGetField::UploadLimit,
            TorrentGetField::UploadLimited,
            TorrentGetField::Wanted,
            TorrentGetField::Webseeds,
            TorrentGetField::WebseedsEx,
            TorrentGetField::WebseedsSendingToUs,
        ]
    }

    /// Every value, in declaration order.
    pub fn all() -> (v: Vec<TorrentGetField>)
        ensures
            v@ == Self::spec_all(),
    {
        let v = vec![
            TorrentGetField::ActivityDate,
            TorrentGetField::AddedDate,
            TorrentGetField::Availability,
            TorrentGetField::BandwidthPriority,
            TorrentGetField::BytesCompleted,
            TorrentGetField::Comment,
            TorrentGetField::CorruptEver,
            TorrentGetField::Creator,
            TorrentGetField::DateCreated,
            TorrentGetField::DesiredAvailable,
            TorrentGetField::DoneDate,
            TorrentGetField::DownloadDir,
            TorrentGetField::DownloadedEver,
            TorrentGetField::DownloadLimit,
            TorrentGetField::DownloadLimited,
            TorrentGetField::EditDate,
            TorrentGetField::Error,
            TorrentGetField::ErrorString,
            TorrentGetField::Eta,
            TorrentGetField::EtaIdle,
            TorrentGetField::FileCount,
            TorrentGetField::FileStats,
            TorrentGetField::Files,
            TorrentGetField::Group,
            TorrentGetField::HashString,
            TorrentGetField::HaveUnchecked,
            TorrentGetField::HaveValid,
            TorrentGetField::HonorsSessionLimits,
            TorrentGetField::Id,
            TorrentGetField::IsFinished,
            TorrentGetField::IsPrivate,
            TorrentGetField::IsStalled,
            TorrentGetField::Labels,
            TorrentGetField::LeftUntilDone,
            TorrentGetField::MagnetLink,
            TorrentGetField::ManualAnnounceTime,
            TorrentGetField::MaxConnectedPeers,
            TorrentGetField::MetadataPercentComplete,
            TorrentGetField::Name,
            TorrentGetField::PeerLimit,
            TorrentGetField::Peers,
            TorrentGetField::PeersConnected,
            TorrentGetField::PeersFrom,
            TorrentGetField::PeersGettingFromUs,
            TorrentGetField::PeersSendingToUs,
            TorrentGetField::PercentComplete,
            TorrentGetField::PercentDone,
            TorrentGetField::Pieces,
            TorrentGetField::PieceCount,
            TorrentGetField::PieceSize,
            TorrentGetField::Priorities,
            TorrentGetField::PrimaryMimeType,
            TorrentGetField::QueuePosition,
            TorrentGetField::RateDownload,
            TorrentGetField::RateUpload,
            TorrentGetField::RecheckProgress,
            TorrentGetField::SecondsDownloading,
            TorrentGetField::SecondsSeeding,
            TorrentGetField::SeedIdleLimit,
            TorrentGetField::SeedIdleMode,
            TorrentGetField::SeedRatioLimit,
            TorrentGetField::SeedRatioMode,
            TorrentGetField::SequentialDownload,
            TorrentGetField::SequentialDownloadFromPiece,
            TorrentGetField::SizeWhenDone,
            TorrentGetField::StartDate,
            TorrentGetField::Status,
            TorrentGetField::TorrentFile,
            TorrentGetField::TotalSize,
            TorrentGetField::Trackers,
            TorrentGetField::TrackerList,
            TorrentGetField::TrackerStats,
            TorrentGetField::UploadRatio,
            TorrentGetField::UploadedEver,
            TorrentGetField::UploadLimit,
            TorrentGetField::UploadLimited,
            TorrentGetField::Wanted,
            TorrentGetField::Webseeds,
            TorrentGetField::WebseedsEx,
            TorrentGetField::WebseedsSendingToUs,
        ];
        assert(v@ =~= Self::spec_all());
        v
    }
}

/// The JSON array of the names of `fields`, in the older or the JSON-RPC protocol.
pub open spec fn torrent_fields_text(fields: Seq<TorrentGetField>, compat: bool) -> Seq<char> {
    array_text(fields.map_values(|f: TorrentGetField| string_text(f.spec_key(compat))))
}

/// The JSON array of the names of `fields`.
pub fn torrent_fields_json(fields: &Vec<TorrentGetField>, compat: bool) -> (s: String)
    ensures
        s@ == torrent_fields_text(fields@, compat),
{
    let mut a = JsonArray::new();
    let mut i: usize = 0;
    while i < fields.len()
        invariant
            i <= fields.len(),
            a.wf(),
            a.items() == fields@.take(i as int).map_values(|f: TorrentGetField| string_text(f.spec_key(compat))),
        decreases fields.len() - i,
    {
        let t = string_json(fields[i].key(compat));
        a.push(t.as_str());
        assert(fields@.take(i + 1).map_values(|f: TorrentGetField| string_text(f.spec_key(compat))) =~= fields@.take(
            i as int,
        ).map_values(|f: TorrentGetField| string_text(f.spec_key(compat))).push(
            string_text(fields@[i as int].spec_key(compat)),
        ));
        i = i + 1;
    }
    assert(fields@.take(fields.len() as int) =~= fields@);
    a.finish()
}

/// The JSON text of an optional list of torrent fields.
pub open spec fn opt_torrent_fields_text(o: Option<Vec<TorrentGetField>>, compat: bool) -> Option<Seq<char>> {
    match o {
        Some(v) => Some(torrent_fields_text(v@, compat)),
        None => None,
    }
}

/// Arguments of a torrent-get request: the fields to get and the torrents to get them of
/// (all torrents when there are no ids).
#[derive(Debug, Clone)]
pub struct TorrentGetArgs {
    pub fields: Option<Vec<TorrentGetField>>,
    pub ids: Option<Vec<Id>>,
}

impl TorrentGetArgs {
    /// The members of the JSON object of these arguments: "fields" and "ids", each when
    /// present.
    pub open spec fn spec_members(self, compat: bool) -> Seq<Seq<char>> {
        let ms = push_opt(seq![], "fields"@, opt_torrent_fields_text(self.fields, compat));
        push_opt(ms, "ids"@, opt_ids_text(self.ids))
    }

    /// The JSON object of these arguments.
    pub open spec fn spec_json(self, compat: bool) -> Seq<char> {
        object_text(self.spec_members(compat))
    }

    /// The JSON object of these arguments.
    pub fn to_json(&self, compat: bool) -> (s: String)
        ensures
            s@ == self.spec_json(compat),
    {
        let mut o = JsonObject::new();
        let f = match &self.fields {
            Some(v) => Some(torrent_fields_json(v, compat)),
            None => None,
        };
        o.opt_field("fields", f);
        o.opt_field("ids", opt_ids_json(&self.ids));
        o.finish()
    }

    /// Arguments that ask for `fields` of the torrents `ids`; no fields at all leaves the
    /// fields out.
    pub fn from_fields_and_ids(fields: Vec<TorrentGetField>, ids: Vec<Id>) -> (a: TorrentGetArgs)
        ensures
            fields@.len() == 0 ==> a.fields is None,
            fields@.len() != 0 ==> a.fields == Some(fields),
            a.ids == Some(ids),
    {
        if fields.len() == 0 {
            TorrentGetArgs { fields: None, ids: Some(ids) }
        } else {
            TorrentGetArgs { fields: Some(fields), ids: Some(ids) }
        }
    }
}

impl From<(Vec<TorrentGetField>, Vec<Id>)> for TorrentGetArgs {
    /// Arguments that ask for the fields of the first list (all fields when it is empty,
    /// the fields being left out) of the torrents of the second list.
    fn from(args: (Vec<TorrentGetField>, Vec<Id>)) -> (a: TorrentGetArgs)
        ensures
            a == (TorrentGetArgs {
                fields: if args.0@.len() == 0 {
                    None
                } else {
                    Some(args.0)
                },
                ids: Some(args.1),
            }),
    {
        TorrentGetArgs::from_fields_and_ids(args.0, args.1)
    }
}

impl FromSpecImpl<(Vec<TorrentGetField>, Vec<Id>)> for TorrentGetArgs {
    open spec fn obeys_from_spec() -> bool {
        true
    }

    open spec fn from_spec(v: (Vec<TorrentGetField>, Vec<Id>)) -> TorrentGetArgs {
        TorrentGetArgs {
            fields: if v.0@.len() == 0 {
                None
            } else {
                Some(v.0)
            },
            ids: Some(v.1),
        }
    }
}

impl Default for TorrentGetArgs {
    /// Arguments that ask for every field of every torrent.
    fn default() -> (a: TorrentGetArgs)
        ensures
            a.fields matches Some(f) && f@ == TorrentGetField::spec_all(),
            a.ids is None,
    {
        TorrentGetArgs { fields: Some(TorrentGetField::all()), ids: None }
    }
}

impl TorrentGetField {
    /// The place of this field in the order in which the fields are declared.
    pub open spec fn declared_index(self) -> int {
        match self {
            TorrentGetField::ActivityDate => 0,
            TorrentGetField::AddedDate => 1,
            TorrentGetField::Availability => 2,
            TorrentGetField::BandwidthPriority => 3,
            TorrentGetField::BytesCompleted => 4,
            TorrentGetField::Comment => 5,
            TorrentGetField::CorruptEver => 6,
            TorrentGetField::Creator => 7,
            TorrentGetField::DateCreated => 8,
            TorrentGetField::DesiredAvailable => 9,
            TorrentGetField::DoneDate => 10,
            TorrentGetField::DownloadDir => 11,
            TorrentGetField::DownloadedEver => 12,
            TorrentGetField::DownloadLimit => 13,
            TorrentGetField::DownloadLimited => 14,
            TorrentGetField::EditDate => 15,
            TorrentGetField::Error => 16,
            TorrentGetField::ErrorString => 17,
            TorrentGetField::Eta => 18,
            TorrentGetField::EtaIdle => 19,
            TorrentGetField::FileCount => 20,
            TorrentGetField::FileStats => 21,
            TorrentGetField::Files => 22,
            TorrentGetField::Group => 23,
            TorrentGetField::HashString => 24,
            TorrentGetField::HaveUnchecked => 25,
            TorrentGetField::HaveValid => 26,
            TorrentGetField::HonorsSessionLimits => 27,
            TorrentGetField::Id => 28,
            TorrentGetField::IsFinished => 29,
            TorrentGetField::IsPrivate => 30,
            TorrentGetField::IsStalled => 31,
            TorrentGetField::Labels => 32,
            TorrentGetField::LeftUntilDone => 33,
            TorrentGetField::MagnetLink => 34,
            TorrentGetField::ManualAnnounceTime => 35,
            TorrentGetField::MaxConnectedPeers => 36,
            TorrentGetField::MetadataPercentComplete => 37,
            TorrentGetField::Name => 38,
            TorrentGetField::PeerLimit => 39,
            TorrentGetField::Peers => 40,
            TorrentGetField::PeersConnected => 41,
            TorrentGetField::PeersFrom => 42,
            TorrentGetField::PeersGettingFromUs => 43,
            TorrentGetField::PeersSendingToUs => 44,
            TorrentGetField::PercentComplete => 45,
            TorrentGetField::PercentDone => 46,
            TorrentGetField::Pieces => 47,
            TorrentGetField::PieceCount => 48,
            TorrentGetField::PieceSize => 49,
            TorrentGetField::Priorities => 50,
            TorrentGetField::PrimaryMimeType => 51,
            TorrentGetField::QueuePosition => 52,
            TorrentGetField::RateDownload => 53,
            TorrentGetField::RateUpload => 54,
            TorrentGetField::RecheckProgress => 55,
            TorrentGetField::SecondsDownloading => 56,
            TorrentGetField::SecondsSeeding => 57,
            TorrentGetField::SeedIdleLimit => 58,
            TorrentGetField::SeedIdleMode => 59,
            TorrentGetField::SeedRatioLimit => 60,
            TorrentGetField::SeedRatioMode => 61,
            TorrentGetField::SequentialDownload => 62,
            TorrentGetField::SequentialDownloadFromPiece => 63,
            TorrentGetField::SizeWhenDone => 64,
            TorrentGetField::StartDate => 65,
            TorrentGetField::Status => 66,
            TorrentGetField::TorrentFile => 67,
            TorrentGetField::TotalSize => 68,
            TorrentGetField::Trackers => 69,
            TorrentGetField::TrackerList => 70,
            TorrentGetField::TrackerStats => 71,
            TorrentGetField::UploadRatio => 72,
            TorrentGetField::UploadedEver => 73,
            TorrentGetField::UploadLimit => 74,
            TorrentGetField::UploadLimited => 75,
            TorrentGetField::Wanted => 76,
            TorrentGetField::Webseeds => 77,
            TorrentGetField::WebseedsEx => 78,
            TorrentGetField::WebseedsSendingToUs => 79,
        }
    }
}

/// The list of all fields holds every field exactly once, in the order of their
/// declaration: a torrent-get request without fields asks for each of them once.
#[verifier::rlimit(50)]
pub proof fn lemma_all_fields_once(f: TorrentGetField)
    ensures
        TorrentGetField::spec_all().len() == 80,
        TorrentGetField::spec_all()[f.declared_index()] == f,
        forall|i: int|
            0 <= i < TorrentGetField::spec_all().len() ==> (#[trigger] TorrentGetField::spec_all()[i]).declared_index() == i,
        TorrentGetField::spec_all().no_duplicates(),
{
    assert(TorrentGetField::spec_all()[0] == TorrentGetField::ActivityDate);
    assert(TorrentGetField::spec_all()[1] == TorrentGetField::AddedDate);
    assert(TorrentGetField::spec_all()[2] == TorrentGetField::Availability);
    assert(TorrentGetField::spec_all()[3] == TorrentGetField::BandwidthPriority);
    assert(TorrentGetField::spec_all()[4] == TorrentGetField::BytesCompleted);
    assert(TorrentGetField::spec_all()[5] == TorrentGetField::Comment);
    assert(TorrentGetField::spec_all()[6] == TorrentGetField::CorruptEver);
    assert(TorrentGetField::spec_all()[7] == TorrentGetField::Creator);
    assert(TorrentGetField::spec_all()[8] == TorrentGetField::DateCreated);
    assert(TorrentGetField::spec_all()[9] == TorrentGetField::DesiredAvailable);
    assert(TorrentGetField::spec_all()[10] == TorrentGetField::DoneDate);
    assert(TorrentGetField::spec_all()[11] == TorrentGetField::DownloadDir);
    assert(TorrentGetField::spec_all()[12] == TorrentGetField::DownloadedEver);
    assert(TorrentGetField::spec_all()[13] == TorrentGetField::DownloadLimit);
    assert(TorrentGetField::spec_all()[14] == TorrentGetField::DownloadLimited);
    assert(TorrentGetField::spec_all()[15] == TorrentGetField::EditDate);
    assert(TorrentGetField::spec_all()[16] == TorrentGetField::Error);
    assert(TorrentGetField::spec_all()[17] == TorrentGetField::ErrorString);
    assert(TorrentGetField::spec_all()[18] == TorrentGetField::Eta);
    assert(TorrentGetField::spec_all()[19] == TorrentGetField::EtaIdle);
    assert(TorrentGetField::spec_all()[20] == TorrentGetField::FileCount);
    assert(TorrentGetField::spec_all()[21] == TorrentGetField::FileStats);
    assert(TorrentGetField::spec_all()[22] == TorrentGetField::Files);
    assert(TorrentGetField::spec_all()[23] == TorrentGetField::Group);
    assert(TorrentGetField::spec_all()[24] == TorrentGetField::HashString);
    assert(TorrentGetField::spec_all()[25] == TorrentGetField::HaveUnchecked);
    assert(TorrentGetField::spec_all()[26] == TorrentGetField::HaveValid);
    assert(TorrentGetField::spec_all()[27] == TorrentGetField::HonorsSessionLimits);
    assert(TorrentGetField::spec_all()[28] == TorrentGetField::Id);
    assert(TorrentGetField::spec_all()[29] == TorrentGetField::IsFinished);
    assert(TorrentGetField::spec_all()[30] == TorrentGetField::IsPrivate);
    assert(TorrentGetField::spec_all()[31] == TorrentGetField::IsStalled);
    assert(TorrentGetField::spec_all()[32] == TorrentGetField::Labels);
    assert(TorrentGetField::spec_all()[33] == TorrentGetField::LeftUntilDone);
    assert(TorrentGetField::spec_all()[34] == TorrentGetField::MagnetLink);
    assert(TorrentGetField::spec_all()[35] == TorrentGetField::ManualAnnounceTime);
    assert(TorrentGetField::spec_all()[36] == TorrentGetField::MaxConnectedPeers);
    assert(TorrentGetField::spec_all()[37] == TorrentGetField::MetadataPercentComplete);
    assert(TorrentGetField::spec_all()[38] == TorrentGetField::Name);
    assert(TorrentGetField::spec_all()[39] == TorrentGetField::PeerLimit);
    assert(TorrentGetField::spec_all()[40] == TorrentGetField::Peers);
    assert(TorrentGetField::spec_all()[41] == TorrentGetField::PeersConnected);
    assert(TorrentGetField::spec_all()[42] == TorrentGetField::PeersFrom);
    assert(TorrentGetField::spec_all()[43] == TorrentGetField::PeersGettingFromUs);
    assert(TorrentGetField::spec_all()[44] == TorrentGetField::PeersSendingToUs);
    assert(TorrentGetField::spec_all()[45] == TorrentGetField::PercentComplete);
    assert(TorrentGetField::spec_all()[46] == TorrentGetField::PercentDone);
    assert(TorrentGetField::spec_all()[47] == TorrentGetField::Pieces);
    assert(TorrentGetField::spec_all()[48] == TorrentGetField::PieceCount);
    assert(TorrentGetField::spec_all()[49] == TorrentGetField::PieceSize);
    assert(TorrentGetField::spec_all()[50] == TorrentGetField::Priorities);
    assert(TorrentGetField::spec_all()[51] == TorrentGetField::PrimaryMimeType);
    assert(TorrentGetField::spec_all()[52] == TorrentGetField::QueuePosition);
    assert(TorrentGetField::spec_all()[53] == TorrentGetField::RateDownload);
    assert(TorrentGetField::spec_all()[54] == TorrentGetField::RateUpload);
    assert(TorrentGetField::spec_all()[55] == TorrentGetField::RecheckProgress);
    assert(TorrentGetField::spec_all()[56] == TorrentGetField::SecondsDownloading);
    assert(TorrentGetField::spec_all()[57] == TorrentGetField::SecondsSeeding);
    assert(TorrentGetField::spec_all()[58] == TorrentGetField::SeedIdleLimit);
    assert(TorrentGetField::spec_all()[59] == TorrentGetField::SeedIdleMode);
    assert(TorrentGetField::spec_all()[60] == TorrentGetField::SeedRatioLimit);
    assert(TorrentGetField::spec_all()[61] == TorrentGetField::SeedRatioMode);
    assert(TorrentGetField::spec_all()[62] == TorrentGetField::SequentialDownload);
    assert(TorrentGetField::spec_all()[63] == TorrentGetField::SequentialDownloadFromPiece);
    assert(TorrentGetField::spec_all()[64] == TorrentGetField::SizeWhenDone);
    assert(TorrentGetField::spec_all()[65] == TorrentGetField::StartDate);
    assert(TorrentGetField::spec_all()[66] == TorrentGetField::Status);
    assert(TorrentGetField::spec_all()[67] == TorrentGetField::TorrentFile);
    assert(TorrentGetField::spec_all()[68] == TorrentGetField::TotalSize);
    assert(TorrentGetField::spec_all()[69] == TorrentGetField::Trackers);
    assert(TorrentGetField::spec_all()[70] == TorrentGetField::TrackerList);
    assert(TorrentGetField::spec_all()[71] == TorrentGetField::TrackerStats);
    assert(TorrentGetField::spec_all()[72] == TorrentGetField::UploadRatio);
    assert(TorrentGetField::spec_all()[73] == TorrentGetField::UploadedEver);
    assert(TorrentGetField::spec_all()[74] == TorrentGetField::UploadLimit);
    assert(TorrentGetField::spec_all()[75] == TorrentGetField::UploadLimited);
    assert(TorrentGetField::spec_all()[76] == TorrentGetField::Wanted);
    assert(TorrentGetField::spec_all()[77] == TorrentGetField::Webseeds);
    assert(TorrentGetField::spec_all()[78] == TorrentGetField::WebseedsEx);
    assert(TorrentGetField::spec_all()[79] == TorrentGetField::WebseedsSendingToUs);
    assert forall|i: int| 0 <= i < 80 implies (#[trigger] TorrentGetField::spec_all()[i]).declared_index() == i by {
        if i == 0 {
        } else if i == 1 {
        } else if i == 2 {
        } else if i == 3 {
        } else if i == 4 {
        } else if i == 5 {
        } else if i == 6 {
        } else if i == 7 {
        } else if i == 8 {
        } else if i == 9 {
        } else if i == 10 {
        } else if i == 11 {
        } else if i == 12 {
        } else if i == 13 {
        } else if i == 14 {
        } else if i == 15 {
        } else if i == 16 {
        } else if i == 17 {
        } else if i == 18 {
        } else if i == 19 {
        } else if i == 20 {
        } else if i == 21 {
        } else if i == 22 {
        } else if i == 23 {
        } else if i == 24 {
        } else if i == 25 {
        } else if i == 26 {
        } else if i == 27 {
        } else if i == 28 {
        } else if i == 29 {
        } else if i == 30 {
        } else if i == 31 {
        } else if i == 32 {
        } else if i == 33 {
        } else if i == 34 {
        } else if i == 35 {
        } else if i == 36 {
        } else if i == 37 {
        } else if i == 38 {
        } else if i == 39 {
        } else if i == 40 {
        } else if i == 41 {
        } else if i == 42 {
        } else if i == 43 {
        } else if i == 44 {
        } else if i == 45 {
        } else if i == 46 {
        } else if i == 47 {
        } else if i == 48 {
        } else if i == 49 {
        } else if i == 50 {
        } else if i == 51 {
        } else if i == 52 {
        } else if i == 53 {
        } else if i == 54 {
        } else if i == 55 {
        } else if i == 56 {
        } else if i == 57 {
        } else if i == 58 {
        } else if i == 59 {
        } else if i == 60 {
        } else if i == 61 {
        } else if i == 62 {
        } else if i == 63 {
        } else if i == 64 {
        } else if i == 65 {
        } else if i == 66 {
        } else if i == 67 {
        } else if i == 68 {
        } else if i == 69 {
        } else if i == 70 {
        } else if i == 71 {
        } else if i == 72 {
        } else if i == 73 {
        } else if i == 74 {
        } else if i == 75 {
        } else if i == 76 {
        } else if i == 77 {
        } else if i == 78 {
        }
    }
}

} // verus!
