use vstd::prelude::*;

use crate::catalog::{AlbumResult, ArtistResult, PlaylistResult, PlaylistTrack, Volume};
use crate::metadata::{
    is_album_scope, parse_album_meta, parse_album_meta_playlist, parse_track_meta,
    parse_track_meta_playlist, str_eq, with_track_fields,
};
use crate::models::ParsedAlbumMeta;
use crate::naming::{album_pairs, parse_album_template, sanitise, sanitized, substituted};
use crate::metadata::copy_meta;
use crate::text::{lower_of, lowercase, opt_view};

verus! {

/// Why a whole album, playlist or artist was given up.
#[derive(Debug, Clone, Copy, PartialEq, Eq, Structural)]
pub enum EntityError {
    AlbumUnavailable,
    TrackNotFound,
    PlaylistPrivate,
    PlaylistUnavailable,
    ArtistHasNoAlbums,
    /// More tracks than a track number can count.
    TooManyTracks,
}

/// The number of tracks over all volumes.
pub open spec fn total_tracks(vols: Seq<Vec<Volume>>) -> int
    decreases vols.len(),
{
    if vols.len() == 0 {
        0
    } else {
        total_tracks(vols.drop_last()) + vols.last()@.len()
    }
}

proof fn lemma_total_tracks_step(vols: Seq<Vec<Volume>>, v: int)
    requires
        0 <= v < vols.len(),
    ensures
        total_tracks(vols.subrange(0, v + 1)) == total_tracks(vols.subrange(0, v)) + vols[v]@.len(),
{
    assert(vols.subrange(0, v + 1).drop_last() =~= vols.subrange(0, v));
}

/// Whether a track is one that the request asks for: any track of the album,
/// or the one with the requested id.
pub open spec fn selects(track: Volume, single: Option<Seq<char>>) -> bool {
    match single {
        Some(id) => track.id@ == id,
        None => true,
    }
}

/// One track of an album in traversal order: where it stands and its number.
#[derive(Debug, Clone, Copy, PartialEq, Eq, Structural)]
pub struct AlbumEntry {
    pub volume: usize,
    pub index: usize,
    pub track_num: u16,
    pub available: bool,
}

/// The tracks of an album that one request processes, and their count for tagging.
#[derive(Debug, Clone)]
pub struct AlbumPlan {
    pub entries: Vec<AlbumEntry>,
    pub track_total: u16,
}

pub open spec fn pos_lt(a: AlbumEntry, b: AlbumEntry) -> bool {
    a.volume < b.volume || (a.volume == b.volume && a.index < b.index)
}

pub open spec fn entry_at(e: AlbumEntry, v: int, i: int) -> bool {
    e.volume == v && e.index == i
}

/// Entry `k` is a selected track and numbered `k + 1`.
pub open spec fn entry_ok(
    vols: Seq<Vec<Volume>>,
    single: Option<Seq<char>>,
    entries: Seq<AlbumEntry>,
    k: int,
) -> bool {
    let e = entries[k];
    &&& e.volume < vols.len()
    &&& e.index < vols[e.volume as int]@.len()
    &&& selects(vols[e.volume as int]@[e.index as int], single)
    &&& e.track_num == k + 1
    &&& e.available == vols[e.volume as int]@[e.index as int].available
}

/// The entries are exactly the selected tracks, volume by volume and in order
/// within each volume, numbered from 1 in that order.
pub open spec fn is_album_order(
    vols: Seq<Vec<Volume>>,
    single: Option<Seq<char>>,
    entries: Seq<AlbumEntry>,
) -> bool {
    &&& forall|k: int| 0 <= k < entries.len() ==> entry_ok(vols, single, entries, k)
    &&& forall|a: int, b: int|
        0 <= a < b < entries.len() ==> pos_lt(#[trigger] entries[a], #[trigger] entries[b])
    &&& forall|v: int, i: int|
        0 <= v < vols.len() && 0 <= i < vols[v]@.len() && selects(#[trigger] vols[v]@[i], single)
            ==> exists|k: int| 0 <= k < entries.len() && entry_at(#[trigger] entries[k], v, i)
}

/// Whether no track of the album has the requested id.
pub open spec fn none_selected(vols: Seq<Vec<Volume>>, single: Option<Seq<char>>) -> bool {
    forall|v: int, i: int|
        0 <= v < vols.len() && 0 <= i < vols[v]@.len() ==> !selects(#[trigger] vols[v]@[i], single)
}

/// Checks an album and builds its album-scope metadata and folder name.
pub fn open_album(album: &AlbumResult, album_template: &str) -> (r: Result<
    (ParsedAlbumMeta, String),
    EntityError,
>)
    ensures
        r == Err::<(ParsedAlbumMeta, String), EntityError>(EntityError::AlbumUnavailable)
            <==> !album.available,
        r == Err::<(ParsedAlbumMeta, String), EntityError>(EntityError::TooManyTracks) <==> (
        album.available && total_tracks(album.volumes@) > u16::MAX),
        album.available && total_tracks(album.volumes@) <= u16::MAX ==> r is Ok,
        r is Ok ==> {
            let (meta, folder) = r->Ok_0;
            &&& total_tracks(album.volumes@) <= u16::MAX
            &&& is_album_scope(
                meta,
                album.title@,
                opt_view(album.version),
                album.artists@,
                album.labels@,
                opt_view(album.genre),
                album.year,
                total_tracks(album.volumes@) as u16,
            )
            &&& folder@ == sanitized(substituted(album_template@, album_pairs(meta)))
        },
{
    if !album.available {
        return Err(EntityError::AlbumUnavailable);
    }
    let mut total: usize = 0;
    let mut v: usize = 0;
    while v < album.volumes.len()
        invariant
            album.available,
            v <= album.volumes@.len(),
            total == total_tracks(album.volumes@.subrange(0, v as int)),
            total <= u16::MAX,
        decreases album.volumes@.len() - v,
    {
        proof {
            lemma_total_tracks_step(album.volumes@, v as int);
        }
        if album.volumes[v].len() > u16::MAX as usize - total {
            proof {
                lemma_total_tracks_grows(album.volumes@, v as int + 1);
            }
            return Err(EntityError::TooManyTracks);
        }
        total = total + album.volumes[v].len();
        v = v + 1;
    }
    proof {
        assert(album.volumes@.subrange(0, v as int) =~= album.volumes@);
    }
    let meta = parse_album_meta(album, total as u16);
    let folder = parse_album_template(album_template, &meta);
    Ok((meta, folder))
}

proof fn lemma_total_tracks_grows(vols: Seq<Vec<Volume>>, n: int)
    requires
        0 <= n <= vols.len(),
    ensures
        total_tracks(vols) >= total_tracks(vols.subrange(0, n)),
    decreases vols.len() - n,
{
    if n < vols.len() {
        lemma_total_tracks_step(vols, n);
        lemma_total_tracks_grows(vols, n + 1);
    } else {
        assert(vols.subrange(0, n) =~= vols);
    }
}

/// The characters of an optional string slice.
pub open spec fn opt_str_view(o: Option<&str>) -> Option<Seq<char>> {
    match o {
        Some(s) => Some(s@),
        None => None,
    }
}

/// The entries that precede position `(v, i)`.
pub open spec fn before(e: AlbumEntry, v: int, i: int) -> bool {
    e.volume < v || (e.volume == v && e.index < i)
}

/// Every selected track before position `(v, i)` has an entry.
pub open spec fn covers_until(
    vols: Seq<Vec<Volume>>,
    single: Option<Seq<char>>,
    entries: Seq<AlbumEntry>,
    v: int,
    i: int,
) -> bool {
    forall|w: int, j: int|
        0 <= w < vols.len() && 0 <= j < vols[w]@.len() && (w < v || (w == v && j < i)) && selects(
            #[trigger] vols[w]@[j],
            single,
        ) ==> exists|k: int| 0 <= k < entries.len() && entry_at(#[trigger] entries[k], w, j)
}

/// The number of a track counted over the whole album, volume by volume:
/// all tracks of the earlier volumes, then its place in its own volume, from 1.
pub open spec fn volume_major_number(vols: Seq<Vec<Volume>>, e: AlbumEntry) -> int {
    total_tracks(vols.subrange(0, e.volume as int)) + e.index + 1
}

/// Lists the tracks that a request processes, in volume order and then in
/// order within each volume, numbered from 1 in that order whatever the
/// service's own numbering. With a requested track id only the tracks with
/// that id are listed, and the request fails if there is none.
pub fn plan_album(album: &AlbumResult, single_track_id: Option<&str>) -> (r: Result<
    AlbumPlan,
    EntityError,
>)
    requires
        total_tracks(album.volumes@) <= u16::MAX,
    ensures
        r is Err <==> (single_track_id is Some && none_selected(
            album.volumes@,
            opt_str_view(single_track_id),
        )),
        r is Err ==> r == Err::<AlbumPlan, EntityError>(EntityError::TrackNotFound),
        r is Ok ==> is_album_order(album.volumes@, opt_str_view(single_track_id), r->Ok_0.entries@),
        r is Ok ==> forall|k: int|
            0 <= k < r->Ok_0.entries@.len() ==> (#[trigger] r->Ok_0.entries@[k]).track_num
                <= r->Ok_0.track_total,
        r is Ok && single_track_id is None ==> r->Ok_0.entries@.len() == total_tracks(
            album.volumes@,
        ),
        r is Ok && single_track_id is None ==> forall|k: int|
            0 <= k < r->Ok_0.entries@.len() ==> #[trigger] r->Ok_0.entries@[k].track_num
                == volume_major_number(album.volumes@, r->Ok_0.entries@[k]),
        r is Ok ==> r->Ok_0.track_total == if single_track_id is Some {
            r->Ok_0.entries@.len() as int
        } else {
            total_tracks(album.volumes@)
        },
{
    let ghost vols = album.volumes@;
    let ghost single = opt_str_view(single_track_id);
    let mut entries: Vec<AlbumEntry> = Vec::new();
    let mut v: usize = 0;
    while v < album.volumes.len()
        invariant
            vols == album.volumes@,
            single == opt_str_view(single_track_id),
            total_tracks(vols) <= u16::MAX,
            v <= vols.len(),
            entries@.len() <= total_tracks(vols.subrange(0, v as int)),
            single is None ==> entries@.len() == total_tracks(vols.subrange(0, v as int)),
            single is None ==> forall|k: int|
                0 <= k < entries@.len() ==> #[trigger] entries@[k].track_num
                    == volume_major_number(vols, entries@[k]),
            forall|k: int|
                0 <= k < entries@.len() ==> entry_ok(vols, single, entries@, k) && before(
                    #[trigger] entries@[k],
                    v as int,
                    0,
                ),
            forall|a: int, b: int|
                0 <= a < b < entries@.len() ==> pos_lt(
                    #[trigger] entries@[a],
                    #[trigger] entries@[b],
                ),
            covers_until(vols, single, entries@, v as int, 0),
        decreases vols.len() - v,
    {
        proof {
            lemma_total_tracks_step(vols, v as int);
            lemma_total_tracks_grows(vols, v as int + 1);
        }
        let n = album.volumes[v].len();
        let mut i: usize = 0;
        while i < n
            invariant
                vols == album.volumes@,
                single == opt_str_view(single_track_id),
                total_tracks(vols) <= u16::MAX,
                v < vols.len(),
                n == vols[v as int]@.len(),
                total_tracks(vols.subrange(0, v as int + 1)) == total_tracks(
                    vols.subrange(0, v as int),
                ) + n,
                total_tracks(vols.subrange(0, v as int + 1)) <= total_tracks(vols),
                i <= n,
                entries@.len() <= total_tracks(vols.subrange(0, v as int)) + i,
                single is None ==> entries@.len() == total_tracks(vols.subrange(0, v as int)) + i,
                single is None ==> forall|k: int|
                    0 <= k < entries@.len() ==> #[trigger] entries@[k].track_num
                        == volume_major_number(vols, entries@[k]),
                forall|k: int|
                    0 <= k < entries@.len() ==> entry_ok(vols, single, entries@, k) && before(
                        #[trigger] entries@[k],
                        v as int,
                        i as int,
                    ),
                forall|a: int, b: int|
                    0 <= a < b < entries@.len() ==> pos_lt(
                        #[trigger] entries@[a],
                        #[trigger] entries@[b],
                    ),
                covers_until(vols, single, entries@, v as int, i as int),
            decreases n - i,
        {
            let track = &album.volumes[v][i];
            let wanted = match single_track_id {
                Some(id) => str_eq(track.id.as_str(), id),
                None => true,
            };
            let ghost old_entries = entries@;
            if wanted {
                let e = AlbumEntry {
                    volume: v,
                    index: i,
                    track_num: (entries.len() + 1) as u16,
                    available: track.available,
                };
                entries.push(e);
                proof {
                    assert(entries@[entries@.len() - 1] == e);
                    assert forall|k: int| 0 <= k < old_entries.len() implies #[trigger] entries@[k]
                        == old_entries[k] by {}
                    assert forall|k: int|
                        0 <= k < entries@.len() implies entry_ok(vols, single, entries@, k)
                        && before(#[trigger] entries@[k], v as int, i + 1) by {
                        if k < old_entries.len() {
                            assert(entries@[k] == old_entries[k]);
                            assert(entry_ok(vols, single, old_entries, k));
                        }
                    }
                    assert forall|a: int, b: int|
                        0 <= a < b < entries@.len() implies pos_lt(
                        #[trigger] entries@[a],
                        #[trigger] entries@[b],
                    ) by {
                        if b < old_entries.len() {
                            assert(pos_lt(old_entries[a], old_entries[b]));
                        } else {
                            assert(before(old_entries[a], v as int, i as int));
                        }
                    }
                }
            }
            proof {
                assert forall|w: int, j: int|
                    0 <= w < vols.len() && 0 <= j < vols[w]@.len() && (w < v || (w == v && j < i
                        + 1)) && selects(#[trigger] vols[w]@[j], single) implies exists|k: int|
                    0 <= k < entries@.len() && entry_at(#[trigger] entries@[k], w, j) by {
                    if w == v && j == i {
                        assert(entry_at(entries@[entries@.len() - 1], w, j));
                    } else {
                        let k = choose|k: int|
                            0 <= k < old_entries.len() && entry_at(
                                #[trigger] old_entries[k],
                                w,
                                j,
                            );
                        assert(entries@[k] == old_entries[k]);
                    }
                }
            }
            i = i + 1;
        }
        v = v + 1;
    }
    proof {
        assert(vols.subrange(0, vols.len() as int) =~= vols);
        assert(vols.subrange(0, v as int) =~= vols);
        assert forall|k: int| 0 <= k < entries@.len() implies (#[trigger] entries@[k]).track_num
            == k + 1 by {
            assert(entry_ok(vols, single, entries@, k));
        }
    }
    if single_track_id.is_some() && entries.len() == 0 {
        proof {
            assert forall|w: int, j: int|
                0 <= w < vols.len() && 0 <= j < vols[w]@.len() implies !selects(
                #[trigger] vols[w]@[j],
                single,
            ) by {
                if selects(vols[w]@[j], single) {
                    let k = choose|k: int|
                        0 <= k < entries@.len() && entry_at(#[trigger] entries@[k], w, j);
                }
            }
        }
        return Err(EntityError::TrackNotFound);
    }
    proof {
        if single_track_id is Some {
            let e = entries@[0];
            assert(entry_ok(vols, single, entries@, 0));
            assert(selects(vols[e.volume as int]@[e.index as int], single));
        }
    }
    let track_total = if single_track_id.is_some() {
        entries.len() as u16
    } else {
        proof {
            assert(vols.subrange(0, v as int) =~= vols);
        }
        total_tracks_exec(album)
    };
    Ok(AlbumPlan { entries, track_total })
}

fn total_tracks_exec(album: &AlbumResult) -> (r: u16)
    requires
        total_tracks(album.volumes@) <= u16::MAX,
    ensures
        r == total_tracks(album.volumes@),
{
    let mut total: usize = 0;
    let mut v: usize = 0;
    while v < album.volumes.len()
        invariant
            total_tracks(album.volumes@) <= u16::MAX,
            v <= album.volumes@.len(),
            total == total_tracks(album.volumes@.subrange(0, v as int)),
        decreases album.volumes@.len() - v,
    {
        proof {
            lemma_total_tracks_step(album.volumes@, v as int);
            lemma_total_tracks_grows(album.volumes@, v as int + 1);
        }
        total = total + album.volumes[v].len();
        v = v + 1;
    }
    proof {
        assert(album.volumes@.subrange(0, v as int) =~= album.volumes@);
    }
    total as u16
}

/// The metadata of one album track: the album-scope metadata with the
/// track's own fields and its number and count filled in.
pub fn album_track_meta(
    base: &ParsedAlbumMeta,
    track: &Volume,
    track_num: u16,
    track_total: u16,
    is_track_only: bool,
) -> (r: ParsedAlbumMeta)
    ensures
        with_track_fields(
            *base,
            r,
            track.title@,
            opt_view(track.version),
            track.artists@,
            track.lyrics_info,
            track_num,
        ),
        r.is_track_only == is_track_only,
        r.track_total == track_total,
{
    let mut m = copy_meta(base);
    m.track_total = track_total;
    parse_track_meta(&mut m, track, track_num, is_track_only);
    m
}

/// Fails unless the playlist owner's visibility is public, in any case.
pub fn check_public(visibility: &str) -> (r: Result<(), EntityError>)
    ensures
        r is Ok <==> lower_of(visibility@) == "public"@,
        r is Err ==> r == Err::<(), EntityError>(EntityError::PlaylistPrivate),
{
    let v = lowercase(visibility);
    if str_eq(v.as_str(), "public") {
        Ok(())
    } else {
        Err(EntityError::PlaylistPrivate)
    }
}

/// What happens to one playlist entry.
#[derive(Debug, Clone, Copy, PartialEq, Eq, Structural)]
pub enum EntryKind {
    Process,
    /// Uploaded by a user rather than the service's own content.
    NotOwn,
    /// The track or its album is unavailable.
    Unavailable,
}

/// The kind of a playlist entry: entries that are not the service's own
/// content, and then unavailable ones, are skipped.
pub open spec fn entry_kind(t: PlaylistTrack) -> EntryKind {
    if lower_of(t.track_source@) != "own"@ {
        EntryKind::NotOwn
    } else if !t.available || t.albums@.len() == 0 || !t.albums@[0].available {
        EntryKind::Unavailable
    } else {
        EntryKind::Process
    }
}

/// A playlist's folder name, its track count and what happens to each entry.
#[derive(Debug, Clone)]
pub struct PlaylistPlan {
    pub folder: String,
    pub track_total: u16,
    pub kinds: Vec<EntryKind>,
    /// The track number of each entry: its position counted from 1.
    pub track_nums: Vec<u16>,
}

/// The playlist folder name: owner and title joined by ` - `, sanitized.
pub open spec fn playlist_folder(owner: Seq<char>, title: Seq<char>) -> Seq<char> {
    sanitized(owner + " - "@ + title)
}

/// Checks a playlist and decides, entry by entry, which ones are processed.
/// Entry `k` gets track number `k + 1`, skipped entries included.
pub fn plan_playlist(playlist: &PlaylistResult) -> (r: Result<PlaylistPlan, EntityError>)
    ensures
        r == Err::<PlaylistPlan, EntityError>(EntityError::PlaylistUnavailable)
            <==> !playlist.available,
        r == Err::<PlaylistPlan, EntityError>(EntityError::TooManyTracks) <==> (playlist.available
            && playlist.tracks@.len() > u16::MAX),
        playlist.available && playlist.tracks@.len() <= u16::MAX ==> r is Ok,
        r is Ok ==> {
            let p = r->Ok_0;
            &&& p.folder@ == playlist_folder(playlist.owner_login@, playlist.title@)
            &&& p.track_total == playlist.tracks@.len()
            &&& p.kinds@.len() == playlist.tracks@.len()
            &&& forall|k: int|
                0 <= k < p.kinds@.len() ==> #[trigger] p.kinds@[k] == entry_kind(
                    playlist.tracks@[k],
                )
            &&& p.track_nums@.len() == playlist.tracks@.len()
            &&& forall|k: int|
                0 <= k < p.track_nums@.len() ==> #[trigger] p.track_nums@[k] == k + 1
                    && p.track_nums@[k] <= p.track_total
        },
{
    if !playlist.available {
        return Err(EntityError::PlaylistUnavailable);
    }
    if playlist.tracks.len() > u16::MAX as usize {
        return Err(EntityError::TooManyTracks);
    }
    let mut name = playlist.owner_login.clone();
    name.append(" - ");
    name.append(playlist.title.as_str());
    proof {
        reveal_strlit(" - ");
        assert(name@ =~= playlist.owner_login@ + " - "@ + playlist.title@);
    }
    let folder = sanitise(name.as_str());
    let mut kinds: Vec<EntryKind> = Vec::new();
    let mut track_nums: Vec<u16> = Vec::new();
    let mut k: usize = 0;
    while k < playlist.tracks.len()
        invariant
            playlist.tracks@.len() <= u16::MAX,
            k <= playlist.tracks@.len(),
            kinds@.len() == k,
            track_nums@.len() == k,
            forall|j: int| 0 <= j < k ==> #[trigger] kinds@[j] == entry_kind(playlist.tracks@[j]),
            forall|j: int| 0 <= j < k ==> #[trigger] track_nums@[j] == j + 1,
        decreases playlist.tracks@.len() - k,
    {
        let t = &playlist.tracks[k];
        let source = lowercase(t.track_source.as_str());
        let kind = if !str_eq(source.as_str(), "own") {
            EntryKind::NotOwn
        } else if !t.available || t.albums.len() == 0 || !t.albums[0].available {
            EntryKind::Unavailable
        } else {
            EntryKind::Process
        };
        kinds.push(kind);
        track_nums.push((k + 1) as u16);
        k = k + 1;
    }
    Ok(PlaylistPlan { folder, track_total: playlist.tracks.len() as u16, kinds, track_nums })
}

/// The metadata of one playlist entry: the album scope of the album that the
/// entry embeds, with the given cover, then the entry's own track fields.
pub fn playlist_track_meta(
    track: &PlaylistTrack,
    track_num: u16,
    track_total: u16,
    cover: Vec<u8>,
) -> (r: ParsedAlbumMeta)
    requires
        track.albums@.len() > 0,
    ensures
        ({
            let a = track.albums@[0];
            &&& r.album_artist@ == crate::text::joined(
                crate::metadata::artist_names(a.artists@),
            )
            &&& r.album_title@ == crate::text::titled(a.title@, opt_view(a.version))
            &&& r.label@ == crate::text::joined(crate::metadata::label_names(a.labels@))
            &&& opt_view(r.genre) == opt_view(a.genre)
            &&& r.year == a.year
        }),
        r.cover_data@ == cover@,
        r.artist@ == crate::text::joined(crate::metadata::artist_names(track.artists@)),
        r.title@ == crate::text::titled(track.title@, opt_view(track.version)),
        r.track_num == track_num,
        r.track_total == track_total,
        r.lyrics_avail == match track.lyrics_info {
            Some(l) => crate::catalog::lyrics_kind(l),
            None => None,
        },
        !r.is_track_only,
        r.timed_lyrics is None,
        r.untimed_lyrics is None,
{
    let mut m = parse_album_meta_playlist(&track.albums[0], track_total);
    m.cover_data = cover;
    parse_track_meta_playlist(&mut m, track, track_num);
    m
}

/// The artist's folder name, or an error when the artist has no album.
pub fn plan_artist(artist: &ArtistResult) -> (r: Result<String, EntityError>)
    ensures
        r is Err <==> artist.album_ids@.len() == 0,
        r is Err ==> r == Err::<String, EntityError>(EntityError::ArtistHasNoAlbums),
        r is Ok ==> r->Ok_0@ == sanitized(artist.name@),
{
    if artist.album_ids.len() == 0 {
        return Err(EntityError::ArtistHasNoAlbums);
    }
    Ok(sanitise(artist.name.as_str()))
}

/// What to do with an album's cover before its tracks are processed.
#[derive(Debug, Clone, Copy, PartialEq, Eq, Structural)]
pub struct CoverPlan {
    /// Fetch the cover at all.
    pub fetch: bool,
    /// Save it as a file in the album folder.
    pub keep_file: bool,
    /// Embed it in each track's tags.
    pub embed: bool,
}

/// The cover is fetched once per album when the album has one and it is to be
/// kept as a file or embedded in the tags.
pub fn album_cover_plan(has_cover: bool, keep_covers: bool, write_covers: bool) -> (r: CoverPlan)
    ensures
        r.fetch == (has_cover && (keep_covers || write_covers)),
        r.keep_file == (has_cover && keep_covers),
        r.embed == (has_cover && write_covers),
{
    CoverPlan {
        fetch: has_cover && (keep_covers || write_covers),
        keep_file: has_cover && keep_covers,
        embed: has_cover && write_covers,
    }
}

/// Whether to pause after item `current` of `total` (counted from 1): only
/// when pausing is enabled, and never after the last item.
pub fn pause_after(sleep: bool, current: usize, total: usize) -> (r: bool)
    ensures
        r == (sleep && current < total),
{
    sleep && current < total
}

} // verus!
