use ymd::catalog::{
    AlbumResult, AlbumResultInPlaylist, Artist, ArtistResult, Label, LyricsInfo, PlaylistResult,
    PlaylistTrack, Volume,
};
use ymd::crypto::{decrypt_buff, DecryptError};
use ymd::metadata::{parse_album_meta, parse_artists, parse_labels, parse_specs, tag_family};
use ymd::links::parse_url;
use ymd::models::{DownloadFormat, MediaLink, ParsedAlbumMeta, TagFamily};
use ymd::naming::{parse_album_template, parse_template, parse_track_template, sanitise};
use ymd::tags::{tag_plan, vorbis_key, TagField, TagKey};
use ymd::text::{decimal_string, format_track_number, parse_title};
use ymd::track::{file_name, TrackAction, TrackError, TrackEvent, TrackJob, TrackOutcome};
use ymd::traversal::{
    album_cover_plan, album_track_meta, check_public, open_album, pause_after, plan_album, plan_artist,
    plan_playlist, playlist_track_meta, EntityError, EntryKind,
};
use ymd::urls::{clean_url, contains, cover_url, is_text_list, resolve_ffmpeg_path, UrlCollector};

fn artist(name: &str) -> Artist {
    Artist { name: name.to_string() }
}

fn track(id: &str, title: &str, available: bool) -> Volume {
    Volume {
        id: id.to_string(),
        title: title.to_string(),
        version: None,
        artists: vec![artist("Singer")],
        available,
        lyrics_info: None,
    }
}

fn album(volumes: Vec<Vec<Volume>>) -> AlbumResult {
    AlbumResult {
        title: "Record".to_string(),
        version: Some("Deluxe".to_string()),
        artists: vec![artist("Band"), artist("Guest")],
        labels: vec![Label { name: "Label A".to_string() }],
        genre: Some("rock".to_string()),
        year: Some(1999),
        available: true,
        cover_uri: None,
        volumes,
    }
}

fn meta() -> ParsedAlbumMeta {
    ParsedAlbumMeta {
        album_title: "Record".to_string(),
        album_artist: "Band".to_string(),
        artist: "Singer".to_string(),
        cover_data: Vec::new(),
        genre: None,
        lyrics_avail: None,
        is_track_only: false,
        label: "Label A".to_string(),
        title: "Song".to_string(),
        timed_lyrics: None,
        untimed_lyrics: None,
        track_num: 1,
        track_total: 12,
        year: Some(2001),
    }
}

fn playlist_track(id: &str, source: &str) -> PlaylistTrack {
    PlaylistTrack {
        id: id.to_string(),
        title: "Tune".to_string(),
        version: None,
        artists: vec![artist("Singer")],
        available: true,
        track_source: source.to_string(),
        albums: vec![AlbumResultInPlaylist {
            title: "Collection".to_string(),
            version: None,
            artists: vec![artist("Band")],
            labels: vec![],
            genre: None,
            year: None,
            available: true,
        }],
        cover_uri: None,
        lyrics_info: None,
    }
}

#[test]
fn download_format_from_ordinal() {
    assert_eq!(DownloadFormat::from_u8(1), Some(DownloadFormat::Aac64));
    assert_eq!(DownloadFormat::from_u8(4), Some(DownloadFormat::Flac));
    assert_eq!(DownloadFormat::from_u8(0), None);
    assert_eq!(DownloadFormat::from_u8(5), None);
    assert_eq!(DownloadFormat::Hq.as_api_str(), "hq");
    assert_eq!(DownloadFormat::Flac.as_api_str(), "lossless");
    assert_eq!(DownloadFormat::Aac192.as_api_str(), "nq");
    assert_eq!(DownloadFormat::Aac64.as_api_str(), "lq");
}

#[test]
fn format_mapping_table() {
    assert_eq!(parse_specs("flac-mp4", 0), Some(("FLAC".to_string(), "flac".to_string())));
    assert_eq!(parse_specs("mp3", 320), Some(("320 Kbps MP3".to_string(), "mp3".to_string())));
    assert_eq!(parse_specs("mp3-mp4", 320), Some(("320 Kbps MP3".to_string(), "mp3".to_string())));
    assert_eq!(parse_specs("aac-mp4", 256), Some(("256 Kbps AAC".to_string(), "m4a".to_string())));
    assert_eq!(parse_specs("he-aac-mp4", 64), Some(("64 Kbps AAC".to_string(), "m4a".to_string())));
    assert_eq!(parse_specs("opus", 128), None);
    assert_eq!(parse_specs("FLAC-MP4", 0), None);
    assert_eq!(tag_family("flac-mp4"), Some(TagFamily::Flac));
    assert_eq!(tag_family("mp3-mp4"), Some(TagFamily::Mp3));
    assert_eq!(tag_family("he-aac-mp4"), Some(TagFamily::Mp4));
    assert_eq!(tag_family("wav"), None);
}

#[test]
fn decryption_round_trip() {
    let key = "000102030405060708090a0b0c0d0e0F";
    for len in [0usize, 1, 15, 16, 17, 33, 100] {
        let original: Vec<u8> = (0..len).map(|i| (i * 7 + 3) as u8).collect();
        let mut buf = original.clone();
        assert_eq!(decrypt_buff(&mut buf, key), Ok(()));
        if len > 0 {
            assert_ne!(buf, original);
        }
        assert_eq!(decrypt_buff(&mut buf, key), Ok(()));
        assert_eq!(buf, original);
    }
}

#[test]
fn decryption_known_block() {
    // AES-128 of the zero block under the zero key.
    let mut buf = vec![0u8; 16];
    assert_eq!(decrypt_buff(&mut buf, "00000000000000000000000000000000"), Ok(()));
    assert_eq!(
        buf,
        vec![
            0x66, 0xe9, 0x4b, 0xd4, 0xef, 0x8a, 0x2c, 0x3b, 0x88, 0x4c, 0xfa, 0x59, 0xca, 0x34,
            0x2b, 0x2e
        ]
    );
}

#[test]
fn decryption_rejects_bad_keys() {
    let mut buf = vec![1u8, 2, 3];
    assert_eq!(decrypt_buff(&mut buf, "zz"), Err(DecryptError::InvalidHex));
    assert_eq!(decrypt_buff(&mut buf, "abc"), Err(DecryptError::InvalidHex));
    assert_eq!(decrypt_buff(&mut buf, "00112233"), Err(DecryptError::WrongKeyLength));
    assert_eq!(buf, vec![1u8, 2, 3]);
}

#[test]
fn sanitise_replaces_trims_and_falls_back() {
    assert_eq!(sanitise("a/b:c*d?e\"f<g>h|i\\j"), "a_b_c_d_e_f_g_h_i_j");
    assert_eq!(sanitise("  Name.. "), "Name");
    assert_eq!(sanitise("..."), "noname");
    assert_eq!(sanitise(""), "noname");
    assert_eq!(sanitise("   "), "noname");
    assert_eq!(sanitise("\u{3000}Title\u{a0}"), "Title");
    assert_eq!(sanitise("//"), "__");
}

#[test]
fn sanitise_is_idempotent() {
    for s in ["AC/DC: Live?", " x. ", "...", "Normal name", "a.b"] {
        let once = sanitise(s);
        assert_eq!(sanitise(&once), once);
    }
    // Trailing white space and dots are stripped together until neither is left.
    assert_eq!(sanitise("a ."), "a");
    assert_eq!(sanitise("a "), "a");
    assert_eq!(sanitise("b. . .\t"), "b");
    assert_eq!(sanitise(" .hidden"), ".hidden");
    assert_eq!(sanitise(". ."), "noname");
}

#[test]
fn track_numbers_are_padded_to_the_total() {
    assert_eq!(format_track_number(3, 12), "03");
    assert_eq!(format_track_number(7, 5), "7");
    assert_eq!(format_track_number(10, 100), "010");
    assert_eq!(format_track_number(0, 0), "0");
    assert_eq!(decimal_string(65535), "65535");
}

#[test]
fn titles_and_names() {
    assert_eq!(parse_title("Song", Some("Remix".to_string())), "Song (Remix)");
    assert_eq!(parse_title("Song", None), "Song");
    assert_eq!(parse_artists(&[artist("A"), artist("B"), artist("C")]), "A, B, C");
    assert_eq!(parse_artists(&[]), "");
    assert_eq!(parse_labels(&[Label { name: "L".to_string() }]), "L");
}

#[test]
fn templates_render_and_sanitize() {
    let m = meta();
    assert_eq!(parse_album_template("{album_artist} - {album_title}", &m), "Band - Record");
    assert_eq!(parse_album_template("{year} {label} {unknown}", &m), "2001 Label A {unknown}");
    let pad = format_track_number(m.track_num, m.track_total);
    assert_eq!(parse_track_template("{track_num_pad}. {title}", &m, &pad), "01. Song");
    assert_eq!(parse_track_template("{track_num} {artist}/{title}", &m, &pad), "1 Singer_Song");
    assert_eq!(
        parse_template("{a}{a}", vec![("a".to_string(), "x".to_string())]),
        "xx".to_string()
    );
    assert_eq!(parse_template("{a}", vec![("a".to_string(), "...".to_string())]), "noname");
}

#[test]
fn album_metadata_is_album_scoped() {
    let a = album(vec![vec![track("1", "One", true)]]);
    let m = parse_album_meta(&a, 1);
    assert_eq!(m.album_artist, "Band, Guest");
    assert_eq!(m.album_title, "Record (Deluxe)");
    assert_eq!(m.label, "Label A");
    assert_eq!(m.genre, Some("rock".to_string()));
    assert_eq!(m.year, Some(1999));
    assert_eq!(m.track_total, 1);
    assert_eq!(m.track_num, 0);
    assert!(m.title.is_empty());
}

#[test]
fn album_tracks_numbered_volume_major() {
    let a = album(vec![
        vec![track("a", "A", true), track("b", "B", true), track("c", "C", true)],
        vec![track("d", "D", true), track("e", "E", true)],
    ]);
    let (base, folder) = open_album(&a, "{album_artist} - {album_title}").unwrap();
    assert_eq!(folder, "Band, Guest - Record (Deluxe)");
    assert_eq!(base.track_total, 5);
    let plan = plan_album(&a, None).unwrap();
    assert_eq!(plan.track_total, 5);
    let got: Vec<(usize, usize, u16)> =
        plan.entries.iter().map(|e| (e.volume, e.index, e.track_num)).collect();
    assert_eq!(got, vec![(0, 0, 1), (0, 1, 2), (0, 2, 3), (1, 0, 4), (1, 1, 5)]);
    let e = plan.entries[3];
    let m = album_track_meta(&base, &a.volumes[e.volume][e.index], e.track_num, plan.track_total, false);
    assert_eq!(m.title, "D");
    assert_eq!(m.track_num, 4);
    assert_eq!(m.track_total, 5);
    assert_eq!(m.album_title, "Record (Deluxe)");
}

#[test]
fn unavailable_track_is_skipped_not_fatal() {
    let a = album(vec![vec![track("a", "A", true)], vec![track("b", "B", false)]]);
    assert!(open_album(&a, "{album_title}").is_ok());
    let plan = plan_album(&a, None).unwrap();
    assert_eq!(plan.entries.len(), 2);
    let processed = plan.entries.iter().filter(|e| e.available).count();
    let skipped = plan.entries.iter().filter(|e| !e.available).count();
    assert_eq!(processed, 1);
    assert_eq!(skipped, 1);
}

#[test]
fn single_track_absent_fails_the_album() {
    let a = album(vec![vec![track("53", "A", true), track("54", "B", true)]]);
    assert_eq!(plan_album(&a, Some("55")).unwrap_err(), EntityError::TrackNotFound);
}

#[test]
fn single_track_is_one_of_one() {
    let a = album(vec![vec![track("53", "A", true)], vec![track("55", "B", true)]]);
    let plan = plan_album(&a, Some("55")).unwrap();
    assert_eq!(plan.track_total, 1);
    assert_eq!(plan.entries.len(), 1);
    assert_eq!((plan.entries[0].volume, plan.entries[0].index, plan.entries[0].track_num), (1, 0, 1));
}

#[test]
fn unavailable_album_fails() {
    let mut a = album(vec![vec![track("1", "A", true)]]);
    a.available = false;
    assert_eq!(open_album(&a, "{album_title}").unwrap_err(), EntityError::AlbumUnavailable);
}

#[test]
fn playlist_skips_foreign_entries() {
    let mut unavailable = playlist_track("3", "OWN");
    unavailable.available = false;
    let p = PlaylistResult {
        available: true,
        owner_login: "user".to_string(),
        title: "Mix: best?".to_string(),
        tracks: vec![playlist_track("1", "ugc"), playlist_track("2", "own"), unavailable],
    };
    let plan = plan_playlist(&p).unwrap();
    assert_eq!(plan.folder, "user - Mix_ best_");
    assert_eq!(plan.track_total, 3);
    assert_eq!(plan.kinds, vec![EntryKind::NotOwn, EntryKind::Process, EntryKind::Unavailable]);
    assert_eq!(plan.track_nums, vec![1, 2, 3]);
    let m = playlist_track_meta(&p.tracks[1], 2, plan.track_total, vec![9, 9]);
    assert_eq!(m.album_title, "Collection");
    assert_eq!(m.title, "Tune");
    assert_eq!(m.track_num, 2);
    assert_eq!(m.cover_data, vec![9, 9]);
}

#[test]
fn playlist_visibility_and_availability() {
    assert_eq!(check_public("Public"), Ok(()));
    assert_eq!(check_public("PUBLIC"), Ok(()));
    assert_eq!(check_public("private"), Err(EntityError::PlaylistPrivate));
    let p = PlaylistResult {
        available: false,
        owner_login: "u".to_string(),
        title: "t".to_string(),
        tracks: vec![],
    };
    assert_eq!(plan_playlist(&p).unwrap_err(), EntityError::PlaylistUnavailable);
}

#[test]
fn artist_needs_albums() {
    let a = ArtistResult { name: "AC/DC".to_string(), album_ids: vec!["1".to_string()] };
    assert_eq!(plan_artist(&a), Ok("AC_DC".to_string()));
    let none = ArtistResult { name: "X".to_string(), album_ids: vec![] };
    assert_eq!(plan_artist(&none), Err(EntityError::ArtistHasNoAlbums));
    assert!(pause_after(true, 1, 2));
    assert!(!pause_after(true, 2, 2));
    assert!(!pause_after(false, 1, 2));
}

fn descriptor(codec: &str) -> TrackEvent {
    TrackEvent::Descriptor {
        codec: codec.to_string(),
        bitrate: 320,
        url: "https://host/file".to_string(),
        key: "000102030405060708090a0b0c0d0e0f".to_string(),
    }
}

fn writes(a: &TrackAction) -> bool {
    matches!(a, TrackAction::WriteAudio { .. } | TrackAction::WriteLyrics { .. } | TrackAction::WriteTags { .. })
}

#[test]
fn rerun_writes_nothing_when_file_exists() {
    // First run: nothing on disk yet.
    let mut job = TrackJob::new(meta(), "{track_num_pad}. {title}".to_string(), false);
    let mut writes_first = 0;
    let a = job.step(TrackEvent::Start);
    assert!(matches!(a, TrackAction::FetchDescriptor));
    let a = job.step(descriptor("flac-mp4"));
    match &a {
        TrackAction::CheckExists { stem, ext } => {
            assert_eq!(stem, "01. Song");
            assert_eq!(ext, "flac");
        }
        other => panic!("unexpected {:?}", other),
    }
    let mut a = job.step(TrackEvent::Exists(false));
    assert!(matches!(a, TrackAction::Download { .. }));
    a = job.step(TrackEvent::Downloaded(vec![1, 2, 3]));
    loop {
        if writes(&a) {
            writes_first += 1;
        }
        a = match a {
            TrackAction::Finish(o) => {
                assert_eq!(o, TrackOutcome::Done);
                break;
            }
            _ => job.step(TrackEvent::Done),
        };
    }
    assert_eq!(writes_first, 2); // the audio, then its tags

    // Second run: the file is there.
    let mut again = TrackJob::new(meta(), "{track_num_pad}. {title}".to_string(), false);
    again.step(TrackEvent::Start);
    let a = again.step(descriptor("flac-mp4"));
    assert!(matches!(a, TrackAction::CheckExists { ref stem, .. } if stem == "01. Song"));
    let a = again.step(TrackEvent::Exists(true));
    assert!(matches!(a, TrackAction::Finish(TrackOutcome::AlreadyPresent)));
    let a = again.step(TrackEvent::Done);
    assert!(!writes(&a));
}

#[test]
fn track_job_decrypts_download() {
    let mut job = TrackJob::new(meta(), "{title}".to_string(), false);
    job.step(TrackEvent::Start);
    job.step(descriptor("aac-mp4"));
    job.step(TrackEvent::Exists(false));
    let raw = vec![5u8; 20];
    let mut expected = raw.clone();
    decrypt_buff(&mut expected, "000102030405060708090a0b0c0d0e0f").unwrap();
    match job.step(TrackEvent::Downloaded(raw)) {
        TrackAction::WriteAudio { stem, ext, bytes } => {
            assert_eq!(stem, "Song");
            assert_eq!(ext, "m4a");
            assert_eq!(bytes, expected);
        }
        other => panic!("unexpected {:?}", other),
    }
}

#[test]
fn track_job_unknown_codec_and_long_path() {
    let mut job = TrackJob::new(meta(), "{title}".to_string(), false);
    job.step(TrackEvent::Start);
    let a = job.step(descriptor("opus"));
    assert!(matches!(a, TrackAction::Finish(TrackOutcome::Failed(TrackError::UnknownCodec))));

    let mut job = TrackJob::new(meta(), "{title}".to_string(), false);
    job.step(TrackEvent::Start);
    job.step(descriptor("mp3"));
    let a = job.step(TrackEvent::PathTooLong);
    assert!(matches!(a, TrackAction::CheckExists { ref stem, .. } if stem == "01"));
    let a = job.step(TrackEvent::PathTooLong);
    assert!(matches!(a, TrackAction::Finish(TrackOutcome::Failed(TrackError::Filesystem))));
}

#[test]
fn track_job_bad_key_fails() {
    let mut job = TrackJob::new(meta(), "{title}".to_string(), false);
    job.step(TrackEvent::Start);
    job.step(TrackEvent::Descriptor {
        codec: "mp3".to_string(),
        bitrate: 320,
        url: "u".to_string(),
        key: "0011".to_string(),
    });
    job.step(TrackEvent::Exists(false));
    let a = job.step(TrackEvent::Downloaded(vec![1]));
    assert!(matches!(
        a,
        TrackAction::Finish(TrackOutcome::Failed(TrackError::Decryption(DecryptError::WrongKeyLength)))
    ));
}

#[test]
fn track_job_timed_lyrics() {
    let mut m = meta();
    m.lyrics_avail = Some(true);
    let mut job = TrackJob::new(m, "{title}".to_string(), true);
    job.step(TrackEvent::Start);
    job.step(descriptor("mp3"));
    job.step(TrackEvent::Exists(false));
    job.step(TrackEvent::Downloaded(vec![1]));
    job.step(TrackEvent::Done);
    let a = job.step(TrackEvent::Done);
    assert!(matches!(a, TrackAction::FetchLyrics { timed: true }));
    let a = job.step(TrackEvent::LyricsFetched("[00:01] la".to_string()));
    assert!(matches!(a, TrackAction::WriteLyrics { ref stem, ref text } if stem == "Song" && text == "[00:01] la"));
    let a = job.step(TrackEvent::Failed);
    match a {
        TrackAction::WriteTags { plan, .. } => {
            assert_eq!(plan.family, TagFamily::Mp3);
            assert!(plan.fields.iter().any(|f| matches!(f,
                TagField::Text { key: TagKey::Lyrics, value } if value == "[00:01] la")));
        }
        other => panic!("unexpected {:?}", other),
    }
    let a = job.step(TrackEvent::Failed);
    assert!(matches!(a, TrackAction::Finish(TrackOutcome::Failed(TrackError::Tagging))));
}

#[test]
fn flac_tag_plan_skips_empty_values() {
    let mut m = meta();
    m.artist = String::new();
    m.cover_data = vec![1, 2];
    m.untimed_lyrics = Some("words".to_string());
    let plan = tag_plan("flac-mp4", &m).unwrap();
    assert_eq!(plan.family, TagFamily::Flac);
    let keys: Vec<TagKey> = plan
        .fields
        .iter()
        .map(|f| match f {
            TagField::Text { key, .. } => *key,
            TagField::Number { key, .. } => *key,
            TagField::Cover { .. } => TagKey::Album,
        })
        .collect();
    assert_eq!(
        keys,
        vec![
            TagKey::Album,
            TagKey::AlbumArtist,
            TagKey::Label,
            TagKey::Title,
            TagKey::TrackNumber,
            TagKey::TrackTotal,
            TagKey::Album,
            TagKey::Year,
            TagKey::UnsyncedLyrics
        ]
    );
    assert!(matches!(&plan.fields[4], TagField::Text { value, .. } if value == "1"));
    assert!(matches!(&plan.fields[6], TagField::Cover { mime, data } if mime == "image/jpeg" && data == &vec![1u8, 2]));
    assert!(tag_plan("wav", &m).is_none());
}

#[test]
fn mp4_tag_plan_prefers_timed_lyrics() {
    let mut m = meta();
    m.timed_lyrics = Some("timed".to_string());
    m.untimed_lyrics = Some("plain".to_string());
    let plan = tag_plan("aac-mp4", &m).unwrap();
    assert_eq!(plan.family, TagFamily::Mp4);
    assert!(plan.fields.iter().any(|f| matches!(f, TagField::Text { key: TagKey::Lyrics, value } if value == "timed")));
    assert!(plan.fields.iter().any(|f| matches!(f, TagField::Text { key: TagKey::Year, value } if value == "2001")));
    assert!(!plan.fields.iter().any(|f| matches!(f, TagField::Text { key: TagKey::Label, .. })));
}

#[test]
fn lyrics_availability() {
    let i = LyricsInfo { has_available_sync_lyrics: true, has_available_text_lyrics: true };
    assert_eq!(i.check_availibility(), Some(true));
    let i = LyricsInfo { has_available_sync_lyrics: false, has_available_text_lyrics: true };
    assert_eq!(i.check_availibility(), Some(false));
    let i = LyricsInfo { has_available_sync_lyrics: false, has_available_text_lyrics: false };
    assert_eq!(i.check_availibility(), None);
}

#[test]
fn urls_are_cleaned_and_deduplicated() {
    assert_eq!(clean_url("  https://x/album/1/ \n"), "https://x/album/1");
    assert_eq!(clean_url("https://x//"), "https://x/");
    assert!(contains(&["ABC".to_string()], "abc"));
    assert!(!contains(&["ABC".to_string()], "abd"));
    assert!(is_text_list("links.txt"));
    assert!(!is_text_list("txt"));
    let mut c = UrlCollector::new();
    c.add_link("https://a/album/1/");
    c.add_link("HTTPS://A/ALBUM/1");
    assert!(c.wants_file("list.txt"));
    c.add_file("list.txt", &vec!["https://b/artist/2".to_string(), "https://a/album/1".to_string()]);
    assert!(!c.wants_file("LIST.TXT"));
    c.add_file("list.txt", &vec!["https://c/".to_string()]);
    assert_eq!(c.processed, vec!["https://a/album/1".to_string(), "https://b/artist/2".to_string()]);
}

#[test]
fn ffmpeg_path_choice() {
    assert_eq!(resolve_ffmpeg_path("/bin/x/ffmpeg".to_string(), true, Some("/c".to_string()), true), "/bin/x/ffmpeg");
    assert_eq!(resolve_ffmpeg_path("/bin/x/ffmpeg".to_string(), false, Some("/c".to_string()), true), "/c");
    assert_eq!(resolve_ffmpeg_path("/bin/x/ffmpeg".to_string(), false, Some("/c".to_string()), false), "ffmpeg");
    assert_eq!(resolve_ffmpeg_path("/bin/x/ffmpeg".to_string(), false, None, true), "ffmpeg");
}

#[test]
fn urls_name_links() {
    assert_eq!(
        parse_url("https://music.yandex.ru/album/123"),
        Some(MediaLink::Album { album_id: "123".to_string() })
    );
    assert_eq!(
        parse_url("https://music.yandex.ru/album/10/track/55?x=1"),
        Some(MediaLink::Track { album_id: "10".to_string(), track_id: "55".to_string() })
    );
    assert_eq!(
        parse_url("https://music.yandex.ru/album/10/track/"),
        Some(MediaLink::Album { album_id: "10".to_string() })
    );
    assert_eq!(
        parse_url("https://music.yandex.ru/playlists/ar.1a2b-c3_d/"),
        Some(MediaLink::Playlist { uuid_or_login: "ar.1a2b-c3_d".to_string() })
    );
    assert_eq!(
        parse_url("https://music.yandex.kz/artist/777/albums"),
        Some(MediaLink::Artist { artist_id: "777".to_string() })
    );
    assert_eq!(
        parse_url("album/x album/42"),
        Some(MediaLink::Album { album_id: "42".to_string() })
    );
    assert_eq!(parse_url("https://music.yandex.ru/"), None);
}

#[test]
fn cover_urls() {
    assert_eq!(cover_url("avatars.host/get/abc/%%", false), "https://avatars.host/get/abc/1000x1000");
    assert_eq!(cover_url("avatars.host/get/abc/%%", true), "https://avatars.host/get/abc/orig");
    assert_eq!(cover_url("a/%%/%%", true), "https://a/orig/orig");
}

#[test]
fn too_many_tracks_are_refused() {
    let many: Vec<Volume> = (0..65536).map(|_| track("1", "A", true)).collect();
    let a = album(vec![many]);
    assert_eq!(open_album(&a, "{album_title}").unwrap_err(), EntityError::TooManyTracks);
    let fits: Vec<Volume> = (0..65535).map(|_| track("1", "A", true)).collect();
    let (m, _) = open_album(&album(vec![fits]), "{album_title}").unwrap();
    assert_eq!(m.track_total, 65535);
    let p = PlaylistResult {
        available: true,
        owner_login: "u".to_string(),
        title: "t".to_string(),
        tracks: (0..65536).map(|_| playlist_track("1", "own")).collect(),
    };
    assert_eq!(plan_playlist(&p).unwrap_err(), EntityError::TooManyTracks);
}

#[test]
fn track_job_failures_by_stage() {
    let mut job = TrackJob::new(meta(), "{title}".to_string(), false);
    job.step(TrackEvent::Start);
    let a = job.step(TrackEvent::Failed);
    assert!(matches!(a, TrackAction::Finish(TrackOutcome::Failed(TrackError::Descriptor))));

    let mut job = TrackJob::new(meta(), "{title}".to_string(), false);
    job.step(TrackEvent::Start);
    job.step(descriptor("mp3"));
    let a = job.step(TrackEvent::Failed);
    assert!(matches!(a, TrackAction::Finish(TrackOutcome::Failed(TrackError::Filesystem))));

    let mut job = TrackJob::new(meta(), "{title}".to_string(), false);
    job.step(TrackEvent::Start);
    job.step(descriptor("mp3"));
    job.step(TrackEvent::Exists(false));
    let a = job.step(TrackEvent::Failed);
    assert!(matches!(a, TrackAction::Finish(TrackOutcome::Failed(TrackError::Download))));

    let mut job = TrackJob::new(meta(), "{title}".to_string(), false);
    job.step(TrackEvent::Start);
    job.step(descriptor("mp3"));
    job.step(TrackEvent::Exists(false));
    job.step(TrackEvent::Downloaded(vec![0]));
    let a = job.step(TrackEvent::Done);
    assert!(matches!(a, TrackAction::Remux { .. }));
    let a = job.step(TrackEvent::Failed);
    assert!(matches!(a, TrackAction::Finish(TrackOutcome::Failed(TrackError::Remux))));

    let mut job = TrackJob::new(meta(), "{title}".to_string(), false);
    let a = job.step(TrackEvent::Done);
    assert!(matches!(a, TrackAction::Finish(TrackOutcome::Failed(TrackError::OutOfOrder))));
}

#[test]
fn untimed_lyrics_are_tagged_without_sidecar() {
    let mut m = meta();
    m.lyrics_avail = Some(false);
    let mut job = TrackJob::new(m, "{title}".to_string(), true);
    job.step(TrackEvent::Start);
    job.step(descriptor("flac-mp4"));
    job.step(TrackEvent::Exists(false));
    job.step(TrackEvent::Downloaded(vec![1]));
    job.step(TrackEvent::Done);
    let a = job.step(TrackEvent::Done);
    assert!(matches!(a, TrackAction::FetchLyrics { timed: false }));
    match job.step(TrackEvent::LyricsFetched("plain".to_string())) {
        TrackAction::WriteTags { plan, .. } => {
            assert!(plan.fields.iter().any(|f| matches!(f,
                TagField::Text { key: TagKey::UnsyncedLyrics, value } if value == "plain")));
        }
        other => panic!("unexpected {:?}", other),
    }
}

#[test]
fn template_values_are_not_searched_again() {
    let mut m = meta();
    m.title = "{artist}".to_string();
    m.artist = "X".to_string();
    let pad = format_track_number(m.track_num, m.track_total);
    assert_eq!(parse_track_template("{title}", &m, &pad), "{artist}");
    assert_eq!(parse_track_template("{artist}-{title}", &m, &pad), "X-{artist}");
    assert_eq!(
        parse_template(
            "{a}{b}",
            vec![("a".to_string(), "{b}".to_string()), ("b".to_string(), "y".to_string())]
        ),
        "{b}y"
    );
    assert_eq!(parse_template("{a", vec![("a".to_string(), "x".to_string())]), "{a");
}

#[test]
fn flac_plan_writes_present_optional_fields() {
    let mut m = meta();
    m.genre = Some(String::new());
    m.year = Some(0);
    m.timed_lyrics = Some(String::new());
    m.untimed_lyrics = Some(String::new());
    let plan = tag_plan("flac-mp4", &m).unwrap();
    let has = |k: TagKey, v: &str| {
        plan.fields.iter().any(|f| matches!(f, TagField::Text { key, value } if *key == k && value == v))
    };
    assert!(has(TagKey::Genre, ""));
    assert!(has(TagKey::Year, "0"));
    assert!(has(TagKey::Lyrics, ""));
    assert!(has(TagKey::UnsyncedLyrics, ""));
    assert_eq!(vorbis_key(TagKey::UnsyncedLyrics), "UNSYNCEDLYRICS");
    assert_eq!(vorbis_key(TagKey::AlbumArtist), "ALBUMARTIST");
}

#[test]
fn file_names_keep_dots_in_the_stem() {
    assert_eq!(file_name("01. Song", "flac"), "01. Song.flac");
    assert_eq!(file_name("01. Mr. Blue", "lrc"), "01. Mr. Blue.lrc");
}

#[test]
fn album_cover_choices() {
    let p = album_cover_plan(true, true, false);
    assert!(p.fetch && p.keep_file && !p.embed);
    let p = album_cover_plan(true, false, true);
    assert!(p.fetch && !p.keep_file && p.embed);
    let p = album_cover_plan(true, false, false);
    assert!(!p.fetch && !p.keep_file && !p.embed);
    let p = album_cover_plan(false, true, true);
    assert!(!p.fetch && !p.keep_file && !p.embed);
}
