use astral_server::blob::BlobStore;
use astral_server::classify::{classify_insert_metadata, CoverArtAction};
use astral_server::error::AstralError;
use astral_server::ingest::{classify_upload, compute_content_hash, upload_track};
use astral_server::model::{
    AlbumArt, ExtractedTrackMetadata, LyricsStatus, MimeKind, PictureOwned, TrackFormat, Uid,
    UserAccount, UserPermission,
};
use astral_server::store::AstralStore;

fn user_with(perms: Vec<UserPermission>) -> UserAccount {
    UserAccount {
        user_id: Uid(7),
        username: "maxus".to_string(),
        password_hash: String::new(),
        register_date: 0,
        permissions: perms,
        loved_albums: vec![],
        loved_tracks: vec![],
    }
}

fn metadata(name: &str, album: &str, artists: &[&str], duration: u32) -> ExtractedTrackMetadata {
    ExtractedTrackMetadata {
        name: name.to_string(),
        album_name: album.to_string(),
        artists: artists.iter().map(|s| s.to_string()).collect(),
        album_artists: artists.iter().map(|s| s.to_string()).collect(),
        cover_art: None,
        duration,
        format: TrackFormat::Mp3,
        number: 1,
        disc_number: 1,
        release_date: 0,
        is_explicit: false,
        lyrics: None,
    }
}

#[test]
fn content_hash_matches_known_vector() {
    let hash = compute_content_hash(&b"abc".to_vec());
    assert_eq!(
        hash,
        "ba7816bf8f01cfea414140de5dae2223b00361a396177a9cb410ff61f20015ad"
    );
}

#[test]
fn upload_identical_bytes_resolves_to_same_track() {
    let mut store = AstralStore::new(100);
    let mut blobs = BlobStore::new();
    let user = user_with(vec![UserPermission::UploadTracks]);
    let first = upload_track(&mut store, &mut blobs, "mp3", &user, b"same bytes".to_vec())
        .expect("first upload");
    let second = upload_track(&mut store, &mut blobs, "mp3", &user, b"same bytes".to_vec())
        .expect("second upload");
    assert_eq!(first, second);
    assert_eq!(store.undefined_tracks.len(), 1);
    assert_eq!(blobs.audio.len(), 1);
    let third = upload_track(&mut store, &mut blobs, "mp3", &user, b"other bytes".to_vec())
        .expect("third upload");
    assert_ne!(first, third);
    assert_eq!(store.undefined_tracks.len(), 2);
    assert_eq!(blobs.audio.len(), 2);
}

#[test]
fn upload_records_content_hash() {
    let mut store = AstralStore::new(100);
    let mut blobs = BlobStore::new();
    let user = user_with(vec![UserPermission::UploadTracks]);
    upload_track(&mut store, &mut blobs, "mp3", &user, b"abc".to_vec()).expect("upload");
    assert_eq!(
        store.undefined_tracks[0].hash,
        "ba7816bf8f01cfea414140de5dae2223b00361a396177a9cb410ff61f20015ad"
    );
}

#[test]
fn upload_rejects_bad_hint_and_missing_permission() {
    let mut store = AstralStore::new(100);
    let mut blobs = BlobStore::new();
    let user = user_with(vec![UserPermission::UploadTracks]);
    match upload_track(&mut store, &mut blobs, "ogg", &user, b"x".to_vec()) {
        Err(e) => assert_eq!(e.error_type(), "bad_request"),
        Ok(_) => panic!("bad hint accepted"),
    }
    let no_perm = user_with(vec![]);
    match upload_track(&mut store, &mut blobs, "mp3", &no_perm, b"x".to_vec()) {
        Err(e) => assert_eq!(e.error_type(), "unauthorized"),
        Ok(_) => panic!("unauthorized upload accepted"),
    }
}

#[test]
fn classification_scenario_creates_linked_album_and_artist() {
    // a 3-minute upload tagged {title: "Gift", artist: "X", album: "Y"}
    let mut store = AstralStore::new(100);
    let blobs = BlobStore::new();
    let new_uid = Uid(50);
    let outcome = classify_insert_metadata(&mut store, &blobs, metadata("Gift", "Y", &["X"], 180), new_uid);
    assert_eq!(outcome.track_id, new_uid);
    assert_eq!(store.tracks.len(), 1);
    assert_eq!(store.albums.len(), 1);
    assert_eq!(store.artists.len(), 1);
    let track = &store.tracks[0];
    let album = &store.albums[0];
    let artist = &store.artists[0];
    assert_eq!(track.name, "Gift");
    assert_eq!(track.length, 180);
    assert_eq!(album.name, "Y");
    assert_eq!(artist.name, "X");
    // the new track is linked to both, and both link back
    assert!(track.albums.contains(&album.album_id));
    assert!(album.tracks.contains(&track.track_id));
    assert!(track.artists.contains(&artist.artist_id));
    assert!(artist.tracks.contains(&track.track_id));
    assert!(album.artists.contains(&artist.artist_id));
    assert!(artist.albums.contains(&album.album_id));
}

#[test]
fn classification_with_same_key_is_idempotent() {
    let mut store = AstralStore::new(100);
    let blobs = BlobStore::new();
    let first = classify_insert_metadata(&mut store, &blobs, metadata("Gift", "Y", &["X"], 180), Uid(50));
    let tracks_before = store.tracks.len();
    let artists_before = store.artists.len();
    let albums_before = store.albums.len();
    // same (name, duration) pair, different everything else
    let second = classify_insert_metadata(
        &mut store,
        &blobs,
        metadata("Gift", "Other Album", &["Other Artist"], 180),
        Uid(60),
    );
    assert_eq!(first.track_id, second.track_id);
    assert_eq!(store.tracks.len(), tracks_before);
    assert_eq!(store.artists.len(), artists_before);
    assert_eq!(store.albums.len(), albums_before);
}

#[test]
fn classification_links_existing_album_and_artist() {
    let mut store = AstralStore::new(100);
    let blobs = BlobStore::new();
    classify_insert_metadata(&mut store, &blobs, metadata("Gift", "Y", &["X"], 180), Uid(50));
    classify_insert_metadata(&mut store, &blobs, metadata("Encore", "Y", &["X"], 200), Uid(51));
    // no duplicate entities: same album and artist, now holding both tracks
    assert_eq!(store.albums.len(), 1);
    assert_eq!(store.artists.len(), 1);
    assert_eq!(store.tracks.len(), 2);
    assert!(store.albums[0].tracks.contains(&Uid(50)));
    assert!(store.albums[0].tracks.contains(&Uid(51)));
    assert!(store.artists[0].tracks.contains(&Uid(50)));
    assert!(store.artists[0].tracks.contains(&Uid(51)));
    assert_eq!(store.albums[0].artists.len(), 1);
}

#[test]
fn classification_round_trip_of_bidirectional_links() {
    let mut store = AstralStore::new(100);
    let blobs = BlobStore::new();
    classify_insert_metadata(
        &mut store,
        &blobs,
        metadata("Gift", "Y", &["X", "Z"], 180),
        Uid(50),
    );
    for track in &store.tracks {
        for aid in &track.artists {
            let artist = store
                .artists
                .iter()
                .find(|a| a.artist_id == *aid)
                .expect("artist referenced by track exists");
            assert!(artist.tracks.contains(&track.track_id));
        }
        for bid in &track.albums {
            let album = store
                .albums
                .iter()
                .find(|b| b.album_id == *bid)
                .expect("album referenced by track exists");
            assert!(album.tracks.contains(&track.track_id));
        }
    }
    for album in &store.albums {
        for aid in &album.artists {
            let artist = store
                .artists
                .iter()
                .find(|a| a.artist_id == *aid)
                .expect("artist referenced by album exists");
            assert!(artist.albums.contains(&album.album_id));
        }
    }
}

#[test]
fn classification_keeps_embedded_cover_action() {
    let mut store = AstralStore::new(100);
    let blobs = BlobStore::new();
    let mut m = metadata("Gift", "Y", &["X"], 180);
    m.cover_art = Some(AlbumArt::Bytes(PictureOwned {
        data: vec![1, 2, 3],
        mime: MimeKind::Png,
    }));
    let outcome = classify_insert_metadata(&mut store, &blobs, m, Uid(50));
    match outcome.cover {
        Some(CoverArtAction::StoreBytes { album_id, picture }) => {
            assert_eq!(album_id, store.albums[0].album_id);
            assert_eq!(picture.data, vec![1, 2, 3]);
        }
        other => panic!("expected embedded cover bytes, got {other:?}"),
    }
}

#[test]
fn classification_caches_lyrics_payload() {
    let mut store = AstralStore::new(100);
    let blobs = BlobStore::new();
    let mut m = metadata("Gift", "Y", &["X"], 180);
    m.lyrics = Some(LyricsStatus::Unsynced {
        lines: vec!["la la".to_string()],
    });
    classify_insert_metadata(&mut store, &blobs, m, Uid(50));
    assert_eq!(store.lyrics.len(), 1);
    assert_eq!(store.lyrics[0].track_id, Uid(50));
}

#[test]
fn classify_upload_consumes_staged_row() {
    let mut store = AstralStore::new(100);
    let mut blobs = BlobStore::new();
    let user = user_with(vec![UserPermission::UploadTracks]);
    let id = upload_track(&mut store, &mut blobs, "mp3", &user, b"payload".to_vec())
        .expect("upload");
    let outcome = classify_upload(&mut store, &blobs, id, metadata("Gift", "Y", &["X"], 180))
        .expect("classification");
    assert_eq!(outcome.track_id, id);
    assert!(store.undefined_tracks.is_empty());
    assert_eq!(store.tracks.len(), 1);
    // a second classification of the same identifier has no staged row left
    match classify_upload(&mut store, &blobs, id, metadata("Gift", "Y", &["X"], 180)) {
        Err(AstralError::BadRequest(_)) => {}
        other => panic!("expected a bad-request error, got {other:?}"),
    }
}
