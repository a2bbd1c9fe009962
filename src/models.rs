use vstd::prelude::*;

verus! {

/// One of the four fixed quality tiers requested from the catalog service.
#[derive(Debug, Clone, Copy, PartialEq, Eq, Structural)]
pub enum DownloadFormat {
    Aac64,
    Aac192,
    Hq,
    Flac,
}

/// The tier selected by an ordinal, if the ordinal is one of 1..=4.
pub open spec fn format_of(val: u8) -> Option<DownloadFormat> {
    if val == 1 {
        Some(DownloadFormat::Aac64)
    } else if val == 2 {
        Some(DownloadFormat::Aac192)
    } else if val == 3 {
        Some(DownloadFormat::Hq)
    } else if val == 4 {
        Some(DownloadFormat::Flac)
    } else {
        None
    }
}

/// The service's name of a tier.
pub open spec fn api_name(f: DownloadFormat) -> Seq<char> {
    match f {
        DownloadFormat::Aac64 => "lq"@,
        DownloadFormat::Aac192 => "nq"@,
        DownloadFormat::Hq => "hq"@,
        DownloadFormat::Flac => "lossless"@,
    }
}

impl DownloadFormat {
    pub fn from_u8(val: u8) -> (r: Option<Self>)
        ensures
            r == format_of(val),
    {
        match val {
            1 => Some(Self::Aac64),
            2 => Some(Self::Aac192),
            3 => Some(Self::Hq),
            4 => Some(Self::Flac),
            _ => None,
        }
    }

    pub fn as_api_str(&self) -> (r: &'static str)
        ensures
            r@ == api_name(*self),
    {
        match self {
            Self::Aac64 => "lq",
            Self::Aac192 => "nq",
            Self::Hq => "hq",
            Self::Flac => "lossless",
        }
    }
}

/// A resolved reference to what one run should fetch.
#[derive(Debug, Clone, PartialEq, Eq)]
pub enum MediaLink {
    Album { album_id: String },
    Track { album_id: String, track_id: String },
    Playlist { uuid_or_login: String },
    Artist { artist_id: String },
}

/// The configuration of one run, read-only for everything below the top level.
#[derive(Debug, Clone)]
pub struct Settings {
    pub token: String,
    pub format: DownloadFormat,
    pub out_path: String,
    pub ffmpeg_path: String,
    pub keep_covers: bool,
    pub write_covers: bool,
    pub get_original_covers: bool,
    pub write_lyrics: bool,
    pub album_template: String,
    pub track_template: String,
    pub sleep: bool,
    pub media_links: Vec<MediaLink>,
}

/// The metadata of one track: album-wide fields set once per album or
/// playlist entry, track fields filled in for each track.
#[derive(Debug, Clone)]
pub struct ParsedAlbumMeta {
    pub album_title: String,
    pub album_artist: String,
    pub artist: String,
    pub cover_data: Vec<u8>,
    pub genre: Option<String>,
    /// `Some(true)` for timed lyrics, `Some(false)` for untimed lyrics only.
    pub lyrics_avail: Option<bool>,
    pub is_track_only: bool,
    pub label: String,
    pub title: String,
    pub timed_lyrics: Option<String>,
    pub untimed_lyrics: Option<String>,
    pub track_num: u16,
    pub track_total: u16,
    pub year: Option<u16>,
}

/// The three tag conventions that a finished file may need.
#[derive(Debug, Clone, Copy, PartialEq, Eq, Structural)]
pub enum TagFamily {
    Flac,
    Mp3,
    Mp4,
}

} // verus!
