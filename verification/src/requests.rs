//! Request and response shapes of the server's boundary, and the small
//! computations that belong to them: metadata overrides and the provider's
//! query parameters.
use vstd::prelude::*;

verus! {

use crate::model::{ExtractedTrackMetadata, LyricsStatus, SyncedLyricLine, Uid};
use crate::text::{split_seq, split_string, string_views};

/// An attempt to log into an account.
#[derive(Clone, Debug)]
pub struct AuthenticationRequest {
    /// Username of the account.
    pub username: String,
    /// Password to authenticate with.
    pub password: String,
}

/// An attempt to create an account with an invite code.
#[derive(Clone, Debug)]
pub struct RegisterRequest {
    /// Username for the account.
    pub username: String,
    /// Password for the account.
    pub password: String,
    /// The invite code required to register.
    pub invite_code: String,
}

/// Whether an invite code is valid.
#[derive(Clone, Copy, PartialEq, Eq, Structural, Debug)]
pub struct InviteCodeCheckResponse {
    /// Whether the invite code can still be used.
    pub is_valid: bool,
}

/// Successful upload: the identifier that later classifies the track.
#[derive(Clone, Copy, PartialEq, Eq, Structural, Debug)]
pub struct UploadTrackResponse {
    /// Identifier of the staged track.
    pub track_id: Uid,
}

/// A raw binary payload.
#[derive(Clone, Debug)]
pub struct BinaryFile(pub Vec<u8>);

/// A request to fetch provider metadata from minimal track information.
#[derive(Clone, Debug)]
pub struct FetchMusixmatchMetadata {
    /// Artist who produced the track.
    pub artist: String,
    /// Title of the track.
    pub title: String,
    /// Album of the track, when known.
    pub album: Option<String>,
}

/// Query options of the metadata-guessing endpoint.
#[derive(Clone, Debug)]
pub struct MetadataProps {
    /// Prefer provider metadata over embedded tags.
    pub musix_priority: Option<bool>,
    /// Skip the provider entirely.
    pub skip_musix: Option<bool>,
    /// Override for the artist hint sent to the provider.
    pub musix_artist_override: Option<String>,
    /// Override for the album hint sent to the provider.
    pub musix_album_override: Option<String>,
    /// Override for the track name hint sent to the provider.
    pub musix_name_override: Option<String>,
}

/// Pagination parameters of the index endpoints.
#[derive(Clone, Debug)]
pub struct IndexParameters {
    /// How many entries to skip.
    pub skip: u32,
    /// How many entries to return.
    pub count: u32,
    /// Free-text search query, handled by the metadata store's own search.
    pub search: Option<String>,
}

/// The raw query passed through to the provider.
#[derive(Clone, Debug)]
pub struct MusixmatchQuery {
    /// Album hint.
    pub q_album: String,
    /// Artist hint.
    pub q_artist: String,
    /// Track hint.
    pub q_track: String,
    /// Track identifier at a streaming service, when known.
    pub track_spotify_id: String,
    /// Duration hint.
    pub q_duration: String,
}

/// Lyrics of a track as served to clients.
#[derive(Clone, Debug)]
pub enum LyricsResponse {
    /// No lyrics available.
    NoLyrics,
    /// Plain lines.
    Unsynced { lines: Vec<String> },
    /// Time-synced lines.
    Synced { lines: Vec<SyncedLyricLine> },
}

impl LyricsResponse {
    /// The response form of a stored lyrics payload.
    pub fn from_status(status: LyricsStatus) -> (r: LyricsResponse)
        ensures
            status is NoLyrics <==> r is NoLyrics,
            status matches LyricsStatus::Unsynced { lines: a } ==> (
            r matches LyricsResponse::Unsynced { lines: b } && a == b),
            status matches LyricsStatus::Synced { lines: a } ==> (
            r matches LyricsResponse::Synced { lines: b } && a == b),
    {
        match status {
            LyricsStatus::NoLyrics => LyricsResponse::NoLyrics,
            LyricsStatus::Unsynced { lines } => LyricsResponse::Unsynced { lines },
            LyricsStatus::Synced { lines } => LyricsResponse::Synced { lines },
        }
    }
}

/// An override list: the value split on ", ".
pub open spec fn override_names(s: Seq<char>) -> Seq<Seq<char>> {
    split_seq(s, ", "@)
}

/// Applies the manual overrides of the metadata-guessing endpoint: a given
/// artist override replaces both artist lists, split on ", "; given name and
/// album overrides replace those fields.
pub fn apply_metadata_overrides(
    extracted: ExtractedTrackMetadata,
    artist_override: Option<String>,
    album_override: Option<String>,
    name_override: Option<String>,
) -> (r: ExtractedTrackMetadata)
    ensures
        r.name@ == (match name_override {
            Some(n) => n@,
            None => extracted.name@,
        }),
        r.album_name@ == (match album_override {
            Some(a) => a@,
            None => extracted.album_name@,
        }),
        (artist_override matches Some(o) ==> string_views(r.artists@) =~~= override_names(o@)
            && string_views(r.album_artists@) =~~= override_names(o@)),
        (artist_override is None ==> r.artists == extracted.artists && r.album_artists
            == extracted.album_artists),
        r.cover_art == extracted.cover_art,
        r.duration == extracted.duration,
        r.format == extracted.format,
        r.number == extracted.number,
        r.disc_number == extracted.disc_number,
        r.release_date == extracted.release_date,
        r.is_explicit == extracted.is_explicit,
        r.lyrics == extracted.lyrics,
{
    let mut out = extracted;
    if let Some(o) = artist_override {
        proof {
            reveal_strlit(", ");
        }
        out.artists = split_string(o.as_str(), ", ");
        out.album_artists = split_string(o.as_str(), ", ");
    }
    if let Some(n) = name_override {
        out.name = n;
    }
    if let Some(a) = album_override {
        out.album_name = a;
    }
    out
}

/// The provider's query parameters, in order: album, artist (twice), track,
/// streaming-service identifier, duration, subtitle length, and the user
/// token.
pub fn provider_query_params(
    title: &str,
    artist: &str,
    album: Option<&str>,
    usertoken: &str,
) -> (r: Vec<(String, String)>)
    ensures
        r@.len() == 8,
        r@[0].0@ == "q_album"@ && r@[0].1@ == (match album {
            Some(a) => a@,
            None => Seq::<char>::empty(),
        }),
        r@[1].0@ == "q_artist"@ && r@[1].1@ == artist@,
        r@[2].0@ == "q_artists"@ && r@[2].1@ == artist@,
        r@[3].0@ == "q_track"@ && r@[3].1@ == title@,
        r@[4].0@ == "track_spotify_id"@ && r@[4].1@.len() == 0,
        r@[5].0@ == "q_duration"@ && r@[5].1@.len() == 0,
        r@[6].0@ == "f_subtitle_length"@ && r@[6].1@.len() == 0,
        r@[7].0@ == "usertoken"@ && r@[7].1@ == usertoken@,
{
    let album_s = match album {
        Some(a) => a.to_owned(),
        None => String::new(),
    };
    let mut out: Vec<(String, String)> = Vec::new();
    out.push((String::from_str("q_album"), album_s));
    out.push((String::from_str("q_artist"), artist.to_owned()));
    out.push((String::from_str("q_artists"), artist.to_owned()));
    out.push((String::from_str("q_track"), title.to_owned()));
    out.push((String::from_str("track_spotify_id"), String::new()));
    out.push((String::from_str("q_duration"), String::new()));
    out.push((String::from_str("f_subtitle_length"), String::new()));
    out.push((String::from_str("usertoken"), usertoken.to_owned()));
    out
}

} // verus!
