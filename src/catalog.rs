use vstd::prelude::*;

verus! {

/// An artist as the catalog service lists it.
#[derive(Debug, Clone)]
pub struct Artist {
    pub name: String,
}

/// A record label as the catalog service lists it.
#[derive(Debug, Clone)]
pub struct Label {
    pub name: String,
}

/// What lyrics the catalog service holds for a track.
#[derive(Debug, Clone, Copy, PartialEq, Eq, Structural)]
pub struct LyricsInfo {
    pub has_available_sync_lyrics: bool,
    pub has_available_text_lyrics: bool,
}

/// `Some(true)` when timed lyrics exist, `Some(false)` when only untimed
/// lyrics do, `None` when there are none.
pub open spec fn lyrics_kind(info: LyricsInfo) -> Option<bool> {
    if info.has_available_sync_lyrics {
        Some(true)
    } else if info.has_available_text_lyrics {
        Some(false)
    } else {
        None
    }
}

impl LyricsInfo {
    pub fn check_availibility(&self) -> (r: Option<bool>)
        ensures
            r == lyrics_kind(*self),
    {
        if self.has_available_sync_lyrics {
            Some(true)
        } else if self.has_available_text_lyrics {
            Some(false)
        } else {
            None
        }
    }
}

/// A track within one volume (disc) of an album.
#[derive(Debug, Clone)]
pub struct Volume {
    pub id: String,
    pub title: String,
    pub version: Option<String>,
    pub artists: Vec<Artist>,
    pub available: bool,
    pub lyrics_info: Option<LyricsInfo>,
}

/// An album with its volumes of tracks.
#[derive(Debug, Clone)]
pub struct AlbumResult {
    pub title: String,
    pub version: Option<String>,
    pub artists: Vec<Artist>,
    pub labels: Vec<Label>,
    pub genre: Option<String>,
    pub year: Option<u16>,
    pub available: bool,
    pub cover_uri: Option<String>,
    pub volumes: Vec<Vec<Volume>>,
}

/// The album that a playlist entry embeds.
#[derive(Debug, Clone)]
pub struct AlbumResultInPlaylist {
    pub title: String,
    pub version: Option<String>,
    pub artists: Vec<Artist>,
    pub labels: Vec<Label>,
    pub genre: Option<String>,
    pub year: Option<u16>,
    pub available: bool,
}

/// A track as a playlist entry holds it.
#[derive(Debug, Clone)]
pub struct PlaylistTrack {
    pub id: String,
    pub title: String,
    pub version: Option<String>,
    pub artists: Vec<Artist>,
    pub available: bool,
    pub track_source: String,
    pub albums: Vec<AlbumResultInPlaylist>,
    pub cover_uri: Option<String>,
    pub lyrics_info: Option<LyricsInfo>,
}

/// A playlist with its entries in order.
#[derive(Debug, Clone)]
pub struct PlaylistResult {
    pub available: bool,
    pub owner_login: String,
    pub title: String,
    pub tracks: Vec<PlaylistTrack>,
}

/// An artist with the ids of the artist's albums.
#[derive(Debug, Clone)]
pub struct ArtistResult {
    pub name: String,
    pub album_ids: Vec<String>,
}

} // verus!
