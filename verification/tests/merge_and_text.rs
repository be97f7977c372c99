use astral_server::error::AstralError;
use astral_server::merge::{
    extract_merged_metadata, interpret_provider_status, split_provider_artists, ProviderReply,
    ProviderTrack,
};
use astral_server::model::{
    AlbumArt, ExtractedTrackMetadata, MimeKind, TrackFormat,
};
use astral_server::blob::BlobStore;
use astral_server::model::{LyricsStatus, Uid};
use astral_server::requests::{apply_metadata_overrides, provider_query_params, LyricsResponse};
use astral_server::text::{split_string, str_eq_str, string_in_list, trim_string};

fn tag_metadata(duration: u32) -> ExtractedTrackMetadata {
    ExtractedTrackMetadata {
        name: "Tag Name".to_string(),
        album_name: "Tag Album".to_string(),
        artists: vec!["Tag Artist".to_string()],
        album_artists: vec!["Tag Artist".to_string()],
        cover_art: None,
        duration,
        format: TrackFormat::Mp3,
        number: 3,
        disc_number: 1,
        release_date: 0,
        is_explicit: false,
        lyrics: None,
    }
}

fn provider_track() -> ProviderTrack {
    ProviderTrack {
        track_name: "Provider Name".to_string(),
        album_name: "Provider Album".to_string(),
        artist_name: "Lead feat. Guest".to_string(),
        first_release_date: "2020-03-12T21:00:00Z".to_string(),
        explicit_rating: 1,
        track_length: 240,
        cover_urls: vec![String::new(), "http://img.example/cover.png".to_string()],
        has_subtitles: false,
        subtitle_lines: None,
        has_lyrics: false,
        lyrics_body: None,
        instrumental: false,
        restricted: false,
    }
}

fn reply(code: i64, track: Option<ProviderTrack>) -> ProviderReply {
    ProviderReply {
        status_code: code,
        track,
    }
}

#[test]
fn tags_first_zero_duration_takes_external_duration() {
    // precedence TagsFirst, tag duration 0, external duration 240
    let merged = extract_merged_metadata(tag_metadata(0), &reply(200, Some(provider_track())), false)
        .expect("merge");
    assert_eq!(merged.duration, 240);
}

#[test]
fn tags_first_nonzero_duration_keeps_tag_duration() {
    let merged =
        extract_merged_metadata(tag_metadata(195), &reply(200, Some(provider_track())), false)
            .expect("merge");
    assert_eq!(merged.duration, 195);
    assert_eq!(merged.name, "Tag Name");
    assert_eq!(merged.album_name, "Tag Album");
    assert_eq!(merged.artists, vec!["Tag Artist".to_string()]);
}

#[test]
fn external_first_takes_provider_fields() {
    let merged =
        extract_merged_metadata(tag_metadata(195), &reply(200, Some(provider_track())), true)
            .expect("merge");
    assert_eq!(merged.name, "Provider Name");
    assert_eq!(merged.album_name, "Provider Album");
    assert_eq!(merged.duration, 240);
    assert_eq!(
        merged.artists,
        vec!["Lead".to_string(), "Guest".to_string()]
    );
    assert_eq!(merged.album_artists, merged.artists);
    // 2020-03-12T21:00:00Z as milliseconds
    assert_eq!(merged.release_date, 1_584_046_800_000);
}

#[test]
fn merge_takes_highest_resolution_cover() {
    let merged =
        extract_merged_metadata(tag_metadata(195), &reply(200, Some(provider_track())), false)
            .expect("merge");
    match merged.cover_art {
        Some(AlbumArt::Url(u, mime)) => {
            assert_eq!(u, "http://img.example/cover.png");
            assert_eq!(mime, MimeKind::Png);
        }
        other => panic!("expected a cover location, got {other:?}"),
    }
}

#[test]
fn merge_rejects_unknown_cover_extension() {
    let mut track = provider_track();
    track.cover_urls = vec!["http://img.example/cover.webp".to_string()];
    match extract_merged_metadata(tag_metadata(195), &reply(200, Some(track)), false) {
        Err(AstralError::BadRequest(_)) => {}
        other => panic!("expected a bad-request error, got {other:?}"),
    }
}

#[test]
fn merge_maps_provider_status_codes() {
    assert!(interpret_provider_status(200).is_ok());
    match interpret_provider_status(404) {
        Err(e) => assert_eq!(e.error_type(), "not_found"),
        Ok(_) => panic!("404 accepted"),
    }
    match interpret_provider_status(401) {
        Err(e) => assert_eq!(e.error_type(), "bad_request"),
        Ok(_) => panic!("401 accepted"),
    }
    match extract_merged_metadata(tag_metadata(10), &reply(404, None), false) {
        Err(e) => assert_eq!(e.error_type(), "not_found"),
        Ok(_) => panic!("merge succeeded on 404"),
    }
    match extract_merged_metadata(tag_metadata(10), &reply(500, None), false) {
        Err(e) => assert_eq!(e.error_type(), "bad_request"),
        Ok(_) => panic!("merge succeeded on 500"),
    }
}

#[test]
fn split_and_trim_behave_exactly() {
    let pieces = split_string("a, b, c", ", ");
    assert_eq!(pieces, vec!["a".to_string(), "b".to_string(), "c".to_string()]);
    let pieces = split_string("no separator", "|");
    assert_eq!(pieces, vec!["no separator".to_string()]);
    let pieces = split_string("xx", "x");
    assert_eq!(pieces, vec![String::new(), String::new(), String::new()]);
    assert_eq!(trim_string("  padded\t "), "padded");
    assert_eq!(trim_string("   "), "");
    assert_eq!(
        split_provider_artists("Lead feat. Guest feat. Third"),
        vec!["Lead".to_string(), "Guest".to_string(), "Third".to_string()]
    );
    assert!(str_eq_str("same", "same"));
    assert!(!str_eq_str("same", "Same"));
    let names = vec!["A".to_string(), "B".to_string()];
    assert!(string_in_list(&names, "B"));
    assert!(!string_in_list(&names, "C"));
}

#[test]
fn format_hint_parses_exactly() {
    assert_eq!(TrackFormat::from_hint("flac"), Some(TrackFormat::Flac));
    assert_eq!(TrackFormat::from_hint("m4a"), Some(TrackFormat::M4a));
    assert_eq!(TrackFormat::from_hint("mp3"), Some(TrackFormat::Mp3));
    assert_eq!(TrackFormat::from_hint("wav"), None);
    assert_eq!(TrackFormat::Mp3.mime(), "audio/mpeg");
    assert_eq!(TrackFormat::Flac.mime(), "audio/flac");
    assert_eq!(TrackFormat::M4a.mime(), "audio/mp4");
}

#[test]
fn overrides_and_provider_query_params() {
    let base = tag_metadata(100);
    let out = apply_metadata_overrides(
        base,
        Some("A, B".to_string()),
        Some("New Album".to_string()),
        Some("New Name".to_string()),
    );
    assert_eq!(out.artists, vec!["A".to_string(), "B".to_string()]);
    assert_eq!(out.album_artists, vec!["A".to_string(), "B".to_string()]);
    assert_eq!(out.name, "New Name");
    assert_eq!(out.album_name, "New Album");
    assert_eq!(out.duration, 100);

    let params = provider_query_params("Gift", "X", Some("Y"), "token-value");
    assert_eq!(params.len(), 8);
    assert_eq!(params[0], ("q_album".to_string(), "Y".to_string()));
    assert_eq!(params[1], ("q_artist".to_string(), "X".to_string()));
    assert_eq!(params[2], ("q_artists".to_string(), "X".to_string()));
    assert_eq!(params[3], ("q_track".to_string(), "Gift".to_string()));
    assert_eq!(params[4], ("track_spotify_id".to_string(), String::new()));
    assert_eq!(params[5], ("q_duration".to_string(), String::new()));
    assert_eq!(params[6], ("f_subtitle_length".to_string(), String::new()));
    assert_eq!(params[7], ("usertoken".to_string(), "token-value".to_string()));
}

#[test]
fn lyrics_response_mirrors_status() {
    match LyricsResponse::from_status(LyricsStatus::NoLyrics) {
        LyricsResponse::NoLyrics => {}
        other => panic!("expected the empty response, got {other:?}"),
    }
    match LyricsResponse::from_status(LyricsStatus::Unsynced {
        lines: vec!["abc".to_string()],
    }) {
        LyricsResponse::Unsynced { lines } => assert_eq!(lines, vec!["abc".to_string()]),
        other => panic!("expected plain lines, got {other:?}"),
    }
}

#[test]
fn cover_blob_store_keeps_one_cover_per_album() {
    let mut blobs = BlobStore::new();
    blobs.store_cover_art(Uid(5), MimeKind::Png, vec![1]);
    // a second store for the same album is skipped
    blobs.store_cover_art(Uid(5), MimeKind::Jpeg, vec![2]);
    assert_eq!(blobs.covers.len(), 1);
    assert_eq!(blobs.covers[0].data, vec![1]);
    // replacing swaps the art out
    blobs.replace_cover(Uid(5), MimeKind::Jpeg, vec![9]);
    assert_eq!(blobs.covers.len(), 1);
    assert_eq!(blobs.covers[0].data, vec![9]);
    assert_eq!(blobs.covers[0].mime, MimeKind::Jpeg);
}
