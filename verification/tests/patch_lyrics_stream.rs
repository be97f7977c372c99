use astral_server::blob::BlobStore;
use id3::TagLike;
use astral_server::classify::classify_insert_metadata;
use astral_server::error::AstralError;
use astral_server::lyrics::{
    extract_lyrics_from_musix, fetch_musixmatch_lyrics, get_lyrics_complete, get_lyrics_step,
    LyricsAction,
};
use astral_server::merge::{ProviderReply, ProviderTrack};
use astral_server::model::{
    ExtractedTrackMetadata, LyricsStatus, StreamQuality, TrackFormat, Uid, UserPermission,
};
use astral_server::patch::{
    diff_members, patch_album_metadata, patch_track_metadata, PatchAlbumMetadata,
    PatchTrackMetadata,
};
use astral_server::queries::extract_track_metadata;
use astral_server::store::AstralStore;
use astral_server::tags::extract_metadata_from_bytes;
use astral_server::transcode::{
    bitrate_label, encoder_args, transcode_complete, transcode_plan, TranscodeAction,
    TranscodeCache,
};

fn metadata(name: &str, album: &str, artists: &[&str], duration: u32) -> ExtractedTrackMetadata {
    ExtractedTrackMetadata {
        name: name.to_string(),
        album_name: album.to_string(),
        artists: artists.iter().map(|s| s.to_string()).collect(),
        album_artists: artists.iter().map(|s| s.to_string()).collect(),
        cover_art: None,
        duration,
        format: TrackFormat::Mp3,
        number: 1,
        disc_number: 1,
        release_date: 0,
        is_explicit: false,
        lyrics: None,
    }
}

fn seeded_store() -> AstralStore {
    let mut store = AstralStore::new(100);
    let blobs = BlobStore::new();
    classify_insert_metadata(&mut store, &blobs, metadata("One", "Album", &["X"], 60), Uid(1));
    classify_insert_metadata(&mut store, &blobs, metadata("Two", "Album", &["X"], 61), Uid(2));
    classify_insert_metadata(&mut store, &blobs, metadata("Three", "Album", &["X"], 62), Uid(3));
    classify_insert_metadata(&mut store, &blobs, metadata("Four", "Solo", &["Z"], 63), Uid(4));
    store
}

#[test]
fn patch_diff_computes_exact_set_differences() {
    // old member set {A,B,C}, new member set {B,C,D}
    let olds = vec![Uid(1), Uid(2), Uid(3)];
    let news = vec![Uid(2), Uid(3), Uid(4)];
    let (removed, added) = diff_members(&olds, &news);
    assert_eq!(removed, vec![Uid(1)]);
    assert_eq!(added, vec![Uid(4)]);
}

#[test]
fn patch_album_rewrites_member_set_by_difference() {
    let mut store = seeded_store();
    let album_id = store.albums[0].album_id;
    assert_eq!(store.albums[0].name, "Album");
    // {One,Two,Three} -> {Two,Three,Four}: exactly One leaves, exactly Four enters
    let patch = PatchAlbumMetadata {
        album_name: None,
        tracks: Some(vec![Uid(2), Uid(3), Uid(4)]),
        artists: None,
        release_date: None,
        genres: None,
    };
    patch_album_metadata(
        &mut store,
        album_id,
        patch,
        &vec![UserPermission::ChangeMetadata],
    )
    .expect("patch");
    let track_one = store.tracks.iter().find(|t| t.track_id == Uid(1)).unwrap();
    let track_two = store.tracks.iter().find(|t| t.track_id == Uid(2)).unwrap();
    let track_three = store.tracks.iter().find(|t| t.track_id == Uid(3)).unwrap();
    let track_four = store.tracks.iter().find(|t| t.track_id == Uid(4)).unwrap();
    assert!(!track_one.albums.contains(&album_id));
    assert!(track_two.albums.contains(&album_id));
    assert!(track_three.albums.contains(&album_id));
    assert!(track_four.albums.contains(&album_id));
    let album = store.albums.iter().find(|b| b.album_id == album_id).unwrap();
    assert_eq!(album.tracks, vec![Uid(2), Uid(3), Uid(4)]);
}

#[test]
fn patch_track_relinks_artists_and_guards_key() {
    let mut store = seeded_store();
    let x = store.artists.iter().find(|a| a.name == "X").unwrap().artist_id;
    let z = store.artists.iter().find(|a| a.name == "Z").unwrap().artist_id;
    let perms = vec![UserPermission::ChangeMetadata];
    let patch = PatchTrackMetadata {
        track_name: None,
        track_length: None,
        is_explicit: Some(true),
        number: None,
        disc_number: None,
        artists: Some(vec![z]),
    };
    patch_track_metadata(&mut store, Uid(1), patch, &perms).expect("patch");
    let track = store.tracks.iter().find(|t| t.track_id == Uid(1)).unwrap();
    assert_eq!(track.artists, vec![z]);
    assert!(track.is_explicit);
    let artist_x = store.artists.iter().find(|a| a.artist_id == x).unwrap();
    let artist_z = store.artists.iter().find(|a| a.artist_id == z).unwrap();
    assert!(!artist_x.tracks.contains(&Uid(1)));
    assert!(artist_z.tracks.contains(&Uid(1)));
    // renaming into another track's (name, duration) key is rejected
    let collide = PatchTrackMetadata {
        track_name: Some("Two".to_string()),
        track_length: Some(61),
        is_explicit: None,
        number: None,
        disc_number: None,
        artists: None,
    };
    match patch_track_metadata(&mut store, Uid(1), collide, &perms) {
        Err(AstralError::BadRequest(_)) => {}
        other => panic!("expected a bad-request error, got {other:?}"),
    }
}

#[test]
fn patch_requires_permission_and_existing_target() {
    let mut store = seeded_store();
    let none = PatchTrackMetadata {
        track_name: None,
        track_length: None,
        is_explicit: None,
        number: None,
        disc_number: None,
        artists: None,
    };
    match patch_track_metadata(&mut store, Uid(1), none.clone(), &vec![]) {
        Err(AstralError::Unauthorized(_)) => {}
        other => panic!("expected an unauthorized error, got {other:?}"),
    }
    match patch_track_metadata(
        &mut store,
        Uid(999),
        none,
        &vec![UserPermission::ChangeMetadata],
    ) {
        Err(AstralError::NotFound(_)) => {}
        other => panic!("expected a not-found error, got {other:?}"),
    }
}

#[test]
fn lyrics_cache_answers_second_resolution() {
    let mut store = seeded_store();
    // first resolution needs an external fetch with the track's hints
    match get_lyrics_step(&store, Uid(1)).expect("step") {
        LyricsAction::FetchExternal {
            title,
            artist,
            album,
        } => {
            assert_eq!(title, "One");
            assert_eq!(artist, "X");
            assert_eq!(album, "Album");
        }
        LyricsAction::Respond(_) => panic!("nothing cached yet"),
    }
    // the outcome — here the negative one — is cached permanently
    get_lyrics_complete(&mut store, Uid(1), LyricsStatus::NoLyrics);
    match get_lyrics_step(&store, Uid(1)).expect("step") {
        LyricsAction::Respond(LyricsStatus::NoLyrics) => {}
        other => panic!("expected the cached negative result, got {other:?}"),
    }
    // an unknown track is a not-found error
    match get_lyrics_step(&store, Uid(999)) {
        Err(AstralError::NotFound(_)) => {}
        other => panic!("expected a not-found error, got {other:?}"),
    }
}

#[test]
fn lyrics_classification_precedence() {
    // synced subtitles first, blank lines becoming the placeholder glyph
    let synced = extract_lyrics_from_musix(
        true,
        Some(vec![(600, "abc".to_string()), (1200, String::new())]),
        false,
        None,
        false,
    )
    .expect("synced");
    match synced {
        LyricsStatus::Synced { lines } => {
            assert_eq!(lines.len(), 2);
            assert_eq!(lines[0].start_time_ms, 600);
            assert_eq!(lines[0].line, "abc");
            assert_eq!(lines[1].line, "\u{266a}");
        }
        other => panic!("expected synced lines, got {other:?}"),
    }
    // plain lyrics split on newlines with blank lines dropped
    let unsynced =
        extract_lyrics_from_musix(false, None, true, Some("one\n\ntwo\n"), false).expect("plain");
    match unsynced {
        LyricsStatus::Unsynced { lines } => {
            assert_eq!(lines, vec!["one".to_string(), "two".to_string()]);
        }
        other => panic!("expected plain lines, got {other:?}"),
    }
    // instrumental marker
    let instrumental =
        extract_lyrics_from_musix(false, None, false, None, true).expect("instrumental");
    match instrumental {
        LyricsStatus::Unsynced { lines } => {
            assert_eq!(lines, vec!["\u{266a} Instrumental".to_string()]);
        }
        other => panic!("expected the instrumental line, got {other:?}"),
    }
    // nothing at all
    match extract_lyrics_from_musix(false, None, false, None, false).expect("none") {
        LyricsStatus::NoLyrics => {}
        other => panic!("expected no lyrics, got {other:?}"),
    }
    // a subtitle flag without a parsable payload is invalid
    match extract_lyrics_from_musix(true, None, false, None, false) {
        Err(AstralError::BadRequest(_)) => {}
        other => panic!("expected a bad-request error, got {other:?}"),
    }
}

#[test]
fn transcode_plans_and_fails_loudly_without_encoder() {
    let store = seeded_store();
    let mut cache = TranscodeCache::new();
    // a medium-quality request for an untranscoded track runs the encoder
    match transcode_plan(&store, &cache, Uid(1), StreamQuality::Medium, "in.bin", "out.bin")
        .expect("plan")
    {
        TranscodeAction::RunEncoder { args } => {
            assert_eq!(
                args,
                vec![
                    "-v", "0", "-i", "in.bin", "-map", "0:a:0", "-codec:a", "libmp3lame",
                    "-b:a", "256k", "-f", "mp3", "out.bin"
                ]
                .into_iter()
                .map(String::from)
                .collect::<Vec<_>>()
            );
        }
        TranscodeAction::ServeCached => panic!("nothing cached yet"),
    }
    // the encoder binary is absent: a fatal error, not an empty stream
    match transcode_complete(&mut cache, Uid(1), StreamQuality::Medium, false) {
        Err(AstralError::IoError(_)) => {}
        other => panic!("expected a fatal error, got {other:?}"),
    }
    assert!(cache.entries.is_empty());
    // a successful encode is cached and served afterwards
    transcode_complete(&mut cache, Uid(1), StreamQuality::Medium, true).expect("complete");
    match transcode_plan(&store, &cache, Uid(1), StreamQuality::Medium, "in.bin", "out.bin")
        .expect("plan")
    {
        TranscodeAction::ServeCached => {}
        TranscodeAction::RunEncoder { .. } => panic!("expected the cached transcode"),
    }
    match transcode_plan(&store, &cache, Uid(999), StreamQuality::Low, "in.bin", "out.bin") {
        Err(AstralError::NotFound(_)) => {}
        other => panic!("expected a not-found error, got {other:?}"),
    }
    assert_eq!(bitrate_label(StreamQuality::Low), "128k");
    assert_eq!(encoder_args(StreamQuality::Low, "a", "b")[9], "128k");
}

#[test]
fn corrupt_containers_fail_with_tagged_errors() {
    let garbage = vec![0u8; 16];
    match extract_metadata_from_bytes(&garbage, TrackFormat::Flac) {
        Err(e) => assert_eq!(e.error_type(), "flac"),
        Ok(_) => panic!("garbage accepted as FLAC"),
    }
    match extract_metadata_from_bytes(&garbage, TrackFormat::M4a) {
        Err(e) => assert_eq!(e.error_type(), "m4a"),
        Ok(_) => panic!("garbage accepted as M4A"),
    }
}

#[test]
fn id3_round_trip_extracts_tagged_fields() {
    let mut tag = id3::Tag::new();
    tag.set_title("Gift");
    tag.set_artist("X");
    tag.set_album("Y");
    let mut buf = std::io::Cursor::new(Vec::new());
    tag.write_to(&mut buf, id3::Version::Id3v24).expect("write tag");
    let bytes = buf.into_inner();
    let extracted = extract_metadata_from_bytes(&bytes, TrackFormat::Mp3).expect("extract");
    assert_eq!(extracted.name, "Gift");
    assert_eq!(extracted.album_name, "Y");
    assert_eq!(extracted.artists, vec!["X".to_string()]);
    assert_eq!(extracted.format, TrackFormat::Mp3);
    assert_eq!(extracted.duration, 0);
    assert!(!extracted.is_explicit);
}

#[test]
fn track_metadata_join_reads_linked_records() {
    let store = seeded_store();
    let full = extract_track_metadata(&store, Uid(1)).expect("join");
    assert_eq!(full.track_name, "One");
    assert_eq!(full.track_length, 60);
    assert_eq!(full.artists.len(), 1);
    assert_eq!(full.artists[0].artist_name, "X");
    assert_eq!(full.albums.len(), 1);
    assert_eq!(full.albums[0].album_name, "Album");
    match extract_track_metadata(&store, Uid(999)) {
        Err(AstralError::NotFound(_)) => {}
        other => panic!("expected a not-found error, got {other:?}"),
    }
}

#[test]
fn patch_artist_relinks_albums() {
    let mut store = seeded_store();
    let x = store.artists.iter().find(|a| a.name == "X").unwrap().artist_id;
    let album = store.albums.iter().find(|b| b.name == "Album").unwrap().album_id;
    let solo = store.albums.iter().find(|b| b.name == "Solo").unwrap().album_id;
    let patch = astral_server::patch::PatchArtistMetadata {
        artist_name: Some("X Prime".to_string()),
        albums: Some(vec![solo]),
        about_artist: Some("A short biography.".to_string()),
    };
    astral_server::patch::patch_artist_metadata(
        &mut store,
        x,
        patch,
        &vec![UserPermission::ChangeMetadata],
    )
    .expect("patch");
    let artist = store.artists.iter().find(|a| a.artist_id == x).unwrap();
    assert_eq!(artist.name, "X Prime");
    assert_eq!(artist.about, "A short biography.");
    assert_eq!(artist.albums, vec![solo]);
    let old_album = store.albums.iter().find(|b| b.album_id == album).unwrap();
    let new_album = store.albums.iter().find(|b| b.album_id == solo).unwrap();
    assert!(!old_album.artists.contains(&x));
    assert!(new_album.artists.contains(&x));
}

#[test]
fn garbage_mp3_fails_with_id3_error() {
    let garbage = vec![0u8; 16];
    match extract_metadata_from_bytes(&garbage, TrackFormat::Mp3) {
        Err(e) => assert_eq!(e.error_type(), "id3"),
        Ok(_) => panic!("garbage accepted as MP3"),
    }
}

#[test]
fn duplicate_artist_names_resolve_to_one_artist() {
    let mut store = AstralStore::new(100);
    let blobs = BlobStore::new();
    classify_insert_metadata(
        &mut store,
        &blobs,
        metadata("Gift", "Y", &["X", "X"], 180),
        Uid(50),
    );
    // the repeated credit resolves to a single artist record
    assert_eq!(store.artists.len(), 1);
    assert_eq!(store.artists[0].name, "X");
    assert_eq!(store.artists[0].tracks, vec![Uid(50)]);
    assert_eq!(store.albums[0].artists, vec![store.artists[0].artist_id]);
}

#[test]
fn restricted_lyrics_are_rejected() {
    let track = ProviderTrack {
        track_name: "Gift".to_string(),
        album_name: "Y".to_string(),
        artist_name: "X".to_string(),
        first_release_date: String::new(),
        explicit_rating: 1,
        track_length: 180,
        cover_urls: vec![],
        has_subtitles: false,
        subtitle_lines: None,
        has_lyrics: true,
        lyrics_body: Some("la la".to_string()),
        instrumental: false,
        restricted: true,
    };
    match fetch_musixmatch_lyrics(&ProviderReply {
        status_code: 200,
        track: Some(track.clone()),
    }) {
        Err(AstralError::BadRequest(_)) => {}
        other => panic!("expected a bad-request error, got {other:?}"),
    }
    // the same reply without the restriction resolves normally
    let mut open = track;
    open.restricted = false;
    match fetch_musixmatch_lyrics(&ProviderReply {
        status_code: 200,
        track: Some(open),
    }) {
        Ok(LyricsStatus::Unsynced { lines }) => assert_eq!(lines, vec!["la la".to_string()]),
        other => panic!("expected plain lines, got {other:?}"),
    }
    // a missed match maps by the status taxonomy
    match fetch_musixmatch_lyrics(&ProviderReply {
        status_code: 404,
        track: None,
    }) {
        Err(AstralError::NotFound(_)) => {}
        other => panic!("expected a not-found error, got {other:?}"),
    }
}
