use vstd::prelude::*;

use crate::metadata::tag_family;
use crate::models::{ParsedAlbumMeta, TagFamily};
use crate::text::{decimal, decimal_string};

verus! {

/// The fields a tag can carry.
#[derive(Debug, Clone, Copy, PartialEq, Eq, Structural)]
pub enum TagKey {
    Album,
    AlbumArtist,
    Artist,
    Title,
    Label,
    Genre,
    Year,
    TrackNumber,
    TrackTotal,
    /// Timed lyrics, or the one lyrics slot of a family that has one.
    Lyrics,
    UnsyncedLyrics,
}

/// The Vorbis comment key of a field.
pub open spec fn vorbis_name(key: TagKey) -> Seq<char> {
    match key {
        TagKey::Album => "ALBUM"@,
        TagKey::AlbumArtist => "ALBUMARTIST"@,
        TagKey::Artist => "ARTIST"@,
        TagKey::Title => "TITLE"@,
        TagKey::Label => "LABEL"@,
        TagKey::Genre => "GENRE"@,
        TagKey::Year => "YEAR"@,
        TagKey::TrackNumber => "TRACKNUMBER"@,
        TagKey::TrackTotal => "TRACKTOTAL"@,
        TagKey::Lyrics => "LYRICS"@,
        TagKey::UnsyncedLyrics => "UNSYNCEDLYRICS"@,
    }
}

/// The Vorbis comment key of a field.
pub fn vorbis_key(key: TagKey) -> (r: &'static str)
    ensures
        r@ == vorbis_name(key),
{
    match key {
        TagKey::Album => "ALBUM",
        TagKey::AlbumArtist => "ALBUMARTIST",
        TagKey::Artist => "ARTIST",
        TagKey::Title => "TITLE",
        TagKey::Label => "LABEL",
        TagKey::Genre => "GENRE",
        TagKey::Year => "YEAR",
        TagKey::TrackNumber => "TRACKNUMBER",
        TagKey::TrackTotal => "TRACKTOTAL",
        TagKey::Lyrics => "LYRICS",
        TagKey::UnsyncedLyrics => "UNSYNCEDLYRICS",
    }
}

/// One value to embed in a file's tag.
#[derive(Debug, Clone)]
pub enum TagField {
    Text { key: TagKey, value: String },
    Number { key: TagKey, value: u16 },
    /// A front cover image of the given MIME type.
    Cover { mime: String, data: Vec<u8> },
}

/// What a tag field holds, as plain values.
pub enum FieldView {
    Text(TagKey, Seq<char>),
    Number(TagKey, u16),
    Cover(Seq<char>, Seq<u8>),
}

pub open spec fn field_view(f: TagField) -> FieldView {
    match f {
        TagField::Text { key, value } => FieldView::Text(key, value@),
        TagField::Number { key, value } => FieldView::Number(key, value),
        TagField::Cover { mime, data } => FieldView::Cover(mime@, data@),
    }
}

pub open spec fn fields_view(fs: Seq<TagField>) -> Seq<FieldView> {
    fs.map_values(|f: TagField| field_view(f))
}

/// The tag family and the fields to write into a finished file.
#[derive(Debug, Clone)]
pub struct TagPlan {
    pub family: TagFamily,
    pub fields: Vec<TagField>,
}

/// The MIME type of the cover images that the service hands out.
pub open spec fn cover_mime() -> Seq<char> {
    "image/jpeg"@
}

pub open spec fn with_text(s: Seq<FieldView>, key: TagKey, v: Seq<char>) -> Seq<FieldView> {
    if v.len() > 0 {
        s.push(FieldView::Text(key, v))
    } else {
        s
    }
}

pub open spec fn with_number_text(s: Seq<FieldView>, key: TagKey, n: u16) -> Seq<FieldView> {
    if n > 0 {
        s.push(FieldView::Text(key, decimal(n as nat)))
    } else {
        s
    }
}

pub open spec fn with_cover(s: Seq<FieldView>, data: Seq<u8>) -> Seq<FieldView> {
    if data.len() > 0 {
        s.push(FieldView::Cover(cover_mime(), data))
    } else {
        s
    }
}

pub open spec fn with_opt_text(s: Seq<FieldView>, key: TagKey, v: Option<String>) -> Seq<FieldView> {
    match v {
        Some(t) => s.push(FieldView::Text(key, t@)),
        None => s,
    }
}

/// The lyrics for a family with one lyrics slot: timed ones if present, else untimed ones.
pub open spec fn one_lyrics(m: ParsedAlbumMeta) -> Option<String> {
    if m.timed_lyrics is Some {
        m.timed_lyrics
    } else {
        m.untimed_lyrics
    }
}

/// The fields of a FLAC-family tag: Vorbis comments. The always-known fields
/// are written when they have a value (text not empty, numbers above zero);
/// genre, year and both kinds of lyrics, each in its own key, whenever present.
pub open spec fn flac_fields(m: ParsedAlbumMeta) -> Seq<FieldView> {
    let s = with_text(Seq::empty(), TagKey::Album, m.album_title@);
    let s = with_text(s, TagKey::AlbumArtist, m.album_artist@);
    let s = with_text(s, TagKey::Artist, m.artist@);
    let s = with_text(s, TagKey::Label, m.label@);
    let s = with_text(s, TagKey::Title, m.title@);
    let s = with_number_text(s, TagKey::TrackNumber, m.track_num);
    let s = with_number_text(s, TagKey::TrackTotal, m.track_total);
    let s = with_cover(s, m.cover_data@);
    let s = with_opt_text(s, TagKey::Genre, m.genre);
    let s = match m.year {
        Some(y) => s.push(FieldView::Text(TagKey::Year, decimal(y as nat))),
        None => s,
    };
    let s = with_opt_text(s, TagKey::UnsyncedLyrics, m.untimed_lyrics);
    with_opt_text(s, TagKey::Lyrics, m.timed_lyrics)
}

/// The fields of an ID3 tag: no label, one lyrics slot.
pub open spec fn mp3_fields(m: ParsedAlbumMeta) -> Seq<FieldView> {
    let s = seq![
        FieldView::Text(TagKey::Album, m.album_title@),
        FieldView::Text(TagKey::AlbumArtist, m.album_artist@),
        FieldView::Text(TagKey::Artist, m.artist@),
        FieldView::Text(TagKey::Title, m.title@),
        FieldView::Number(TagKey::TrackNumber, m.track_num),
        FieldView::Number(TagKey::TrackTotal, m.track_total),
    ];
    let s = with_cover(s, m.cover_data@);
    let s = with_opt_text(s, TagKey::Genre, m.genre);
    let s = match m.year {
        Some(y) => s.push(FieldView::Number(TagKey::Year, y)),
        None => s,
    };
    with_opt_text(s, TagKey::Lyrics, one_lyrics(m))
}

/// The fields of an MP4 tag: no label, the year as text, one lyrics slot.
pub open spec fn mp4_fields(m: ParsedAlbumMeta) -> Seq<FieldView> {
    let s = seq![
        FieldView::Text(TagKey::Album, m.album_title@),
        FieldView::Text(TagKey::AlbumArtist, m.album_artist@),
        FieldView::Text(TagKey::Artist, m.artist@),
        FieldView::Text(TagKey::Title, m.title@),
        FieldView::Number(TagKey::TrackNumber, m.track_num),
        FieldView::Number(TagKey::TrackTotal, m.track_total),
    ];
    let s = with_cover(s, m.cover_data@);
    let s = with_opt_text(s, TagKey::Genre, m.genre);
    let s = match m.year {
        Some(y) => s.push(FieldView::Text(TagKey::Year, decimal(y as nat))),
        None => s,
    };
    with_opt_text(s, TagKey::Lyrics, one_lyrics(m))
}

pub open spec fn family_fields(f: TagFamily, m: ParsedAlbumMeta) -> Seq<FieldView> {
    match f {
        TagFamily::Flac => flac_fields(m),
        TagFamily::Mp3 => mp3_fields(m),
        TagFamily::Mp4 => mp4_fields(m),
    }
}

fn push_text(fields: &mut Vec<TagField>, key: TagKey, v: &String)
    ensures
        fields_view(final(fields)@) == fields_view(old(fields)@).push(FieldView::Text(key, v@)),
{
    fields.push(TagField::Text { key, value: v.clone() });
    proof {
        assert(fields_view(final(fields)@) =~= fields_view(old(fields)@).push(FieldView::Text(key, v@)));
    }
}

fn push_text_if(fields: &mut Vec<TagField>, key: TagKey, v: &String)
    ensures
        fields_view(final(fields)@) == with_text(fields_view(old(fields)@), key, v@),
{
    if v.unicode_len() > 0 {
        push_text(fields, key, v);
    }
}

fn push_number_text_if(fields: &mut Vec<TagField>, key: TagKey, n: u16)
    ensures
        fields_view(final(fields)@) == with_number_text(fields_view(old(fields)@), key, n),
{
    if n > 0 {
        let t = decimal_string(n as u64);
        push_text(fields, key, &t);
    }
}

fn push_number(fields: &mut Vec<TagField>, key: TagKey, n: u16)
    ensures
        fields_view(final(fields)@) == fields_view(old(fields)@).push(FieldView::Number(key, n)),
{
    fields.push(TagField::Number { key, value: n });
    proof {
        assert(fields_view(final(fields)@) =~= fields_view(old(fields)@).push(FieldView::Number(key, n)));
    }
}

fn push_cover_if(fields: &mut Vec<TagField>, data: &Vec<u8>)
    ensures
        fields_view(final(fields)@) == with_cover(fields_view(old(fields)@), data@),
{
    if data.len() > 0 {
        proof {
            reveal_strlit("image/jpeg");
        }
        fields.push(TagField::Cover { mime: String::from_str("image/jpeg"), data: data.clone() });
        proof {
            assert(fields_view(final(fields)@) =~= with_cover(fields_view(old(fields)@), data@));
        }
    }
}

fn push_opt_text(fields: &mut Vec<TagField>, key: TagKey, v: &Option<String>)
    ensures
        fields_view(final(fields)@) == with_opt_text(fields_view(old(fields)@), key, *v),
{
    match v {
        Some(t) => push_text(fields, key, t),
        None => {},
    }
}

fn flac_plan(m: &ParsedAlbumMeta) -> (r: Vec<TagField>)
    ensures
        fields_view(r@) == flac_fields(*m),
{
    let mut f: Vec<TagField> = Vec::new();
    proof {
        assert(fields_view(f@) =~= Seq::<FieldView>::empty());
    }
    push_text_if(&mut f, TagKey::Album, &m.album_title);
    push_text_if(&mut f, TagKey::AlbumArtist, &m.album_artist);
    push_text_if(&mut f, TagKey::Artist, &m.artist);
    push_text_if(&mut f, TagKey::Label, &m.label);
    push_text_if(&mut f, TagKey::Title, &m.title);
    push_number_text_if(&mut f, TagKey::TrackNumber, m.track_num);
    push_number_text_if(&mut f, TagKey::TrackTotal, m.track_total);
    push_cover_if(&mut f, &m.cover_data);
    push_opt_text(&mut f, TagKey::Genre, &m.genre);
    match m.year {
        Some(y) => {
            let t = decimal_string(y as u64);
            push_text(&mut f, TagKey::Year, &t);
        },
        None => {},
    }
    push_opt_text(&mut f, TagKey::UnsyncedLyrics, &m.untimed_lyrics);
    push_opt_text(&mut f, TagKey::Lyrics, &m.timed_lyrics);
    f
}

fn common_head(m: &ParsedAlbumMeta) -> (r: Vec<TagField>)
    ensures
        fields_view(r@) == seq![
            FieldView::Text(TagKey::Album, m.album_title@),
            FieldView::Text(TagKey::AlbumArtist, m.album_artist@),
            FieldView::Text(TagKey::Artist, m.artist@),
            FieldView::Text(TagKey::Title, m.title@),
            FieldView::Number(TagKey::TrackNumber, m.track_num),
            FieldView::Number(TagKey::TrackTotal, m.track_total),
        ],
{
    let mut f: Vec<TagField> = Vec::new();
    proof {
        assert(fields_view(f@) =~= Seq::<FieldView>::empty());
    }
    push_text(&mut f, TagKey::Album, &m.album_title);
    push_text(&mut f, TagKey::AlbumArtist, &m.album_artist);
    push_text(&mut f, TagKey::Artist, &m.artist);
    push_text(&mut f, TagKey::Title, &m.title);
    push_number(&mut f, TagKey::TrackNumber, m.track_num);
    push_number(&mut f, TagKey::TrackTotal, m.track_total);
    proof {
        assert(fields_view(f@) =~= seq![
            FieldView::Text(TagKey::Album, m.album_title@),
            FieldView::Text(TagKey::AlbumArtist, m.album_artist@),
            FieldView::Text(TagKey::Artist, m.artist@),
            FieldView::Text(TagKey::Title, m.title@),
            FieldView::Number(TagKey::TrackNumber, m.track_num),
            FieldView::Number(TagKey::TrackTotal, m.track_total),
        ]);
    }
    f
}

fn lyrics_slot(m: &ParsedAlbumMeta) -> (r: &Option<String>)
    ensures
        *r == one_lyrics(*m),
{
    if m.timed_lyrics.is_some() {
        &m.timed_lyrics
    } else {
        &m.untimed_lyrics
    }
}

fn mp3_plan(m: &ParsedAlbumMeta) -> (r: Vec<TagField>)
    ensures
        fields_view(r@) == mp3_fields(*m),
{
    let mut f = common_head(m);
    push_cover_if(&mut f, &m.cover_data);
    push_opt_text(&mut f, TagKey::Genre, &m.genre);
    match m.year {
        Some(y) => push_number(&mut f, TagKey::Year, y),
        None => {},
    }
    push_opt_text(&mut f, TagKey::Lyrics, lyrics_slot(m));
    f
}

fn mp4_plan(m: &ParsedAlbumMeta) -> (r: Vec<TagField>)
    ensures
        fields_view(r@) == mp4_fields(*m),
{
    let mut f = common_head(m);
    push_cover_if(&mut f, &m.cover_data);
    push_opt_text(&mut f, TagKey::Genre, &m.genre);
    match m.year {
        Some(y) => {
            let t = decimal_string(y as u64);
            push_text(&mut f, TagKey::Year, &t);
        },
        None => {},
    }
    push_opt_text(&mut f, TagKey::Lyrics, lyrics_slot(m));
    f
}

/// The tag family of a codec and the fields to write for it; `None` for a
/// codec of no known family, for which nothing is written.
pub fn tag_plan(codec: &str, meta: &ParsedAlbumMeta) -> (r: Option<TagPlan>)
    ensures
        r is None <==> crate::metadata::family_of(codec@) is None,
        r is Some ==> ({
            let p = r->Some_0;
            &&& Some(p.family) == crate::metadata::family_of(codec@)
            &&& fields_view(p.fields@) == family_fields(p.family, *meta)
        }),
{
    match tag_family(codec) {
        Some(TagFamily::Flac) => Some(TagPlan { family: TagFamily::Flac, fields: flac_plan(meta) }),
        Some(TagFamily::Mp3) => Some(TagPlan { family: TagFamily::Mp3, fields: mp3_plan(meta) }),
        Some(TagFamily::Mp4) => Some(TagPlan { family: TagFamily::Mp4, fields: mp4_plan(meta) }),
        None => None,
    }
}

} // verus!
