use vstd::prelude::*;

use crate::catalog::{
    lyrics_kind, AlbumResult, AlbumResultInPlaylist, Artist, Label, PlaylistTrack, Volume,
};
use crate::models::{ParsedAlbumMeta, TagFamily};
use crate::text::{decimal, decimal_string, join_names, joined, opt_view, parse_title, titled};

verus! {

/// The names of the artists, in order.
pub open spec fn artist_names(artists: Seq<Artist>) -> Seq<Seq<char>> {
    artists.map_values(|a: Artist| a.name@)
}

/// The names of the labels, in order.
pub open spec fn label_names(labels: Seq<Label>) -> Seq<Seq<char>> {
    labels.map_values(|l: Label| l.name@)
}

/// The artists' names joined with `, `.
pub fn parse_artists(artists: &[Artist]) -> (r: String)
    ensures
        r@ == joined(artist_names(artists@)),
{
    let mut names: Vec<String> = Vec::new();
    let mut i: usize = 0;
    while i < artists.len()
        invariant
            i <= artists@.len(),
            names@.len() == i,
            names@.map_values(|s: String| s@) =~= artist_names(artists@.subrange(0, i as int)),
        decreases artists@.len() - i,
    {
        let ghost prev = names@;
        names.push(artists[i].name.clone());
        proof {
            let want = artist_names(artists@.subrange(0, i + 1));
            assert forall|j: int| 0 <= j <= i implies names@.map_values(|s: String| s@)[j] == want[j] by {
                if j < i {
                    assert(names@[j] == prev[j]);
                    assert(prev.map_values(|s: String| s@)[j] == artist_names(artists@.subrange(0, i as int))[j]);
                }
            }
            assert(names@.map_values(|s: String| s@) =~= want);
        }
        i = i + 1;
    }
    proof {
        assert(artists@.subrange(0, artists@.len() as int) =~= artists@);
    }
    join_names(&names)
}

/// The labels' names joined with `, `.
pub fn parse_labels(labels: &[Label]) -> (r: String)
    ensures
        r@ == joined(label_names(labels@)),
{
    let mut names: Vec<String> = Vec::new();
    let mut i: usize = 0;
    while i < labels.len()
        invariant
            i <= labels@.len(),
            names@.len() == i,
            names@.map_values(|s: String| s@) =~= label_names(labels@.subrange(0, i as int)),
        decreases labels@.len() - i,
    {
        let ghost prev = names@;
        names.push(labels[i].name.clone());
        proof {
            let want = label_names(labels@.subrange(0, i + 1));
            assert forall|j: int| 0 <= j <= i implies names@.map_values(|s: String| s@)[j] == want[j] by {
                if j < i {
                    assert(names@[j] == prev[j]);
                    assert(prev.map_values(|s: String| s@)[j] == label_names(labels@.subrange(0, i as int))[j]);
                }
            }
            assert(names@.map_values(|s: String| s@) =~= want);
        }
        i = i + 1;
    }
    proof {
        assert(labels@.subrange(0, labels@.len() as int) =~= labels@);
    }
    join_names(&names)
}

pub fn clone_opt(o: &Option<String>) -> (r: Option<String>)
    ensures
        opt_view(r) == opt_view(*o),
{
    match o {
        Some(s) => Some(s.clone()),
        None => None,
    }
}

/// Album-scope metadata: album fields filled, track fields empty or unknown.
pub open spec fn is_album_scope(
    m: ParsedAlbumMeta,
    title: Seq<char>,
    version: Option<Seq<char>>,
    artists: Seq<Artist>,
    labels: Seq<Label>,
    genre: Option<Seq<char>>,
    year: Option<u16>,
    track_total: u16,
) -> bool {
    &&& m.album_artist@ == joined(artist_names(artists))
    &&& m.album_title@ == titled(title, version)
    &&& m.label@ == joined(label_names(labels))
    &&& opt_view(m.genre) == genre
    &&& m.year == year
    &&& m.track_total == track_total
    &&& m.artist@.len() == 0
    &&& m.title@.len() == 0
    &&& m.cover_data@.len() == 0
    &&& m.lyrics_avail is None
    &&& !m.is_track_only
    &&& m.track_num == 0
    &&& m.timed_lyrics is None
    &&& m.untimed_lyrics is None
}

fn album_scope(
    title: &String,
    version: &Option<String>,
    artists: &Vec<Artist>,
    labels: &Vec<Label>,
    genre: &Option<String>,
    year: Option<u16>,
    track_total: u16,
) -> (r: ParsedAlbumMeta)
    ensures
        is_album_scope(
            r,
            title@,
            opt_view(*version),
            artists@,
            labels@,
            opt_view(*genre),
            year,
            track_total,
        ),
{
    ParsedAlbumMeta {
        album_artist: parse_artists(artists.as_slice()),
        album_title: parse_title(title.as_str(), clone_opt(version)),
        artist: String::new(),
        cover_data: Vec::new(),
        genre: clone_opt(genre),
        lyrics_avail: None,
        is_track_only: false,
        title: String::new(),
        track_num: 0,
        track_total,
        label: parse_labels(labels.as_slice()),
        timed_lyrics: None,
        untimed_lyrics: None,
        year,
    }
}

/// The album-scope metadata of an album.
pub fn parse_album_meta(meta: &AlbumResult, track_total: u16) -> (r: ParsedAlbumMeta)
    ensures
        is_album_scope(
            r,
            meta.title@,
            opt_view(meta.version),
            meta.artists@,
            meta.labels@,
            opt_view(meta.genre),
            meta.year,
            track_total,
        ),
{
    album_scope(
        &meta.title,
        &meta.version,
        &meta.artists,
        &meta.labels,
        &meta.genre,
        meta.year,
        track_total,
    )
}

/// The album-scope metadata of the album that a playlist entry embeds.
pub fn parse_album_meta_playlist(meta: &AlbumResultInPlaylist, track_total: u16) -> (r:
    ParsedAlbumMeta)
    ensures
        is_album_scope(
            r,
            meta.title@,
            opt_view(meta.version),
            meta.artists@,
            meta.labels@,
            opt_view(meta.genre),
            meta.year,
            track_total,
        ),
{
    album_scope(
        &meta.title,
        &meta.version,
        &meta.artists,
        &meta.labels,
        &meta.genre,
        meta.year,
        track_total,
    )
}

/// `new` is `old` with the track fields of one track filled in: artist,
/// title, number and, when the service reports on them, the lyrics.
pub open spec fn with_track_fields(
    old: ParsedAlbumMeta,
    new: ParsedAlbumMeta,
    title: Seq<char>,
    version: Option<Seq<char>>,
    artists: Seq<Artist>,
    lyrics: Option<crate::catalog::LyricsInfo>,
    track_num: u16,
) -> bool {
    &&& new.artist@ == joined(artist_names(artists))
    &&& new.title@ == titled(title, version)
    &&& new.track_num == track_num
    &&& new.lyrics_avail == match lyrics {
        Some(l) => lyrics_kind(l),
        None => old.lyrics_avail,
    }
    &&& new.album_title@ == old.album_title@
    &&& new.album_artist@ == old.album_artist@
    &&& new.cover_data@ == old.cover_data@
    &&& opt_view(new.genre) == opt_view(old.genre)
    &&& new.label@ == old.label@
    &&& opt_view(new.timed_lyrics) == opt_view(old.timed_lyrics)
    &&& opt_view(new.untimed_lyrics) == opt_view(old.untimed_lyrics)
    &&& new.year == old.year
}

/// Fills in the track fields of an album's track.
pub fn parse_track_meta(
    meta: &mut ParsedAlbumMeta,
    track_meta: &Volume,
    track_num: u16,
    is_track_only: bool,
)
    ensures
        with_track_fields(
            *old(meta),
            *final(meta),
            track_meta.title@,
            opt_view(track_meta.version),
            track_meta.artists@,
            track_meta.lyrics_info,
            track_num,
        ),
        final(meta).is_track_only == is_track_only,
        final(meta).track_total == old(meta).track_total,
{
    meta.artist = parse_artists(track_meta.artists.as_slice());
    meta.title = parse_title(track_meta.title.as_str(), clone_opt(&track_meta.version));
    meta.track_num = track_num;
    match &track_meta.lyrics_info {
        Some(lyrics) => {
            meta.lyrics_avail = lyrics.check_availibility();
        },
        None => {},
    }
    meta.is_track_only = is_track_only;
}

/// Fills in the track fields of a playlist entry.
pub fn parse_track_meta_playlist(
    meta: &mut ParsedAlbumMeta,
    track_meta: &PlaylistTrack,
    track_num: u16,
)
    ensures
        with_track_fields(
            *old(meta),
            *final(meta),
            track_meta.title@,
            opt_view(track_meta.version),
            track_meta.artists@,
            track_meta.lyrics_info,
            track_num,
        ),
        final(meta).is_track_only == old(meta).is_track_only,
        final(meta).track_total == old(meta).track_total,
{
    meta.artist = parse_artists(track_meta.artists.as_slice());
    meta.title = parse_title(track_meta.title.as_str(), clone_opt(&track_meta.version));
    meta.track_num = track_num;
    match &track_meta.lyrics_info {
        Some(lyrics) => {
            meta.lyrics_avail = lyrics.check_availibility();
        },
        None => {},
    }
}

/// A copy of the metadata.
pub fn copy_meta(m: &ParsedAlbumMeta) -> (r: ParsedAlbumMeta)
    ensures
        r.album_title@ == m.album_title@,
        r.album_artist@ == m.album_artist@,
        r.artist@ == m.artist@,
        r.cover_data@ == m.cover_data@,
        opt_view(r.genre) == opt_view(m.genre),
        r.lyrics_avail == m.lyrics_avail,
        r.is_track_only == m.is_track_only,
        r.label@ == m.label@,
        r.title@ == m.title@,
        opt_view(r.timed_lyrics) == opt_view(m.timed_lyrics),
        opt_view(r.untimed_lyrics) == opt_view(m.untimed_lyrics),
        r.track_num == m.track_num,
        r.track_total == m.track_total,
        r.year == m.year,
{
    ParsedAlbumMeta {
        album_title: m.album_title.clone(),
        album_artist: m.album_artist.clone(),
        artist: m.artist.clone(),
        cover_data: m.cover_data.clone(),
        genre: clone_opt(&m.genre),
        lyrics_avail: m.lyrics_avail,
        is_track_only: m.is_track_only,
        label: m.label.clone(),
        title: m.title.clone(),
        timed_lyrics: clone_opt(&m.timed_lyrics),
        untimed_lyrics: clone_opt(&m.untimed_lyrics),
        track_num: m.track_num,
        track_total: m.track_total,
        year: m.year,
    }
}

/// The codec identifiers that the catalog service returns, and what each maps to.
pub open spec fn family_of(codec: Seq<char>) -> Option<TagFamily> {
    if codec == "flac-mp4"@ {
        Some(TagFamily::Flac)
    } else if codec == "mp3"@ || codec == "mp3-mp4"@ {
        Some(TagFamily::Mp3)
    } else if codec == "aac-mp4"@ || codec == "he-aac-mp4"@ {
        Some(TagFamily::Mp4)
    } else {
        None
    }
}

/// The quality label and file extension of a codec, if it is known.
pub open spec fn specs_of(codec: Seq<char>, bitrate: u16) -> Option<(Seq<char>, Seq<char>)> {
    match family_of(codec) {
        Some(TagFamily::Flac) => Some(("FLAC"@, "flac"@)),
        Some(TagFamily::Mp3) => Some((decimal(bitrate as nat) + " Kbps MP3"@, "mp3"@)),
        Some(TagFamily::Mp4) => Some((decimal(bitrate as nat) + " Kbps AAC"@, "m4a"@)),
        None => None,
    }
}

/// The format mapping and the tag dispatch know the same codecs: a codec has a
/// quality label and extension exactly when it has a tag family.
pub proof fn lemma_mapping_matches_families(codec: Seq<char>, bitrate: u16)
    ensures
        (specs_of(codec, bitrate) is Some) == (family_of(codec) is Some),
{
}

/// Whether two strings hold the same characters.
pub fn str_eq(a: &str, b: &str) -> (r: bool)
    ensures
        r == (a@ == b@),
{
    let n = a.unicode_len();
    if n != b.unicode_len() {
        return false;
    }
    let mut i: usize = 0;
    while i < n
        invariant
            n == a@.len(),
            n == b@.len(),
            i <= n,
            a@.subrange(0, i as int) == b@.subrange(0, i as int),
        decreases n - i,
    {
        if a.get_char(i) != b.get_char(i) {
            return false;
        }
        assert(a@.subrange(0, i + 1) =~= a@.subrange(0, i as int).push(a@[i as int]));
        assert(b@.subrange(0, i + 1) =~= b@.subrange(0, i as int).push(b@[i as int]));
        i = i + 1;
    }
    assert(a@.subrange(0, n as int) =~= a@);
    assert(b@.subrange(0, n as int) =~= b@);
    true
}

/// The tag family of a codec identifier, if it is known.
pub fn tag_family(codec: &str) -> (r: Option<TagFamily>)
    ensures
        r == family_of(codec@),
{
    if str_eq(codec, "flac-mp4") {
        Some(TagFamily::Flac)
    } else if str_eq(codec, "mp3") || str_eq(codec, "mp3-mp4") {
        Some(TagFamily::Mp3)
    } else if str_eq(codec, "aac-mp4") || str_eq(codec, "he-aac-mp4") {
        Some(TagFamily::Mp4)
    } else {
        None
    }
}

/// The quality label and file extension of a codec, or `None` for an unknown codec.
pub fn parse_specs(codec: &str, bitrate: u16) -> (r: Option<(String, String)>)
    ensures
        r is Some <==> specs_of(codec@, bitrate) is Some,
        r is Some ==> (r->Some_0.0@, r->Some_0.1@) == specs_of(codec@, bitrate)->Some_0,
{
    match tag_family(codec) {
        Some(TagFamily::Flac) => Some((String::from_str("FLAC"), String::from_str("flac"))),
        Some(TagFamily::Mp3) => {
            let mut label = decimal_string(bitrate as u64);
            label.append(" Kbps MP3");
            Some((label, String::from_str("mp3")))
        },
        Some(TagFamily::Mp4) => {
            let mut label = decimal_string(bitrate as u64);
            label.append(" Kbps AAC");
            Some((label, String::from_str("m4a")))
        },
        None => None,
    }
}

} // verus!
