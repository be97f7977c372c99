//! Core data records of the metadata store: tracks, artists, albums and the
//! auxiliary rows that surround them.
use vstd::prelude::*;

verus! {

use crate::text::str_eq_str;

/// An opaque 128-bit identifier, as used for every entity in the store.
#[derive(Clone, Copy, PartialEq, Eq, Structural, Hash, Debug)]
pub struct Uid(pub u128);

/// Container format of an uploaded track.
#[derive(Clone, Copy, PartialEq, Eq, Structural, Debug)]
pub enum TrackFormat {
    Flac,
    M4a,
    Mp3,
}

impl TrackFormat {
    /// Parses the format hint that accompanies an upload.
    pub fn from_hint(hint: &str) -> (r: Option<TrackFormat>)
        ensures
            r == Some(TrackFormat::Flac) <==> hint@ == "flac"@,
            r == Some(TrackFormat::M4a) <==> hint@ == "m4a"@,
            r == Some(TrackFormat::Mp3) <==> hint@ == "mp3"@,
            r is None <==> (hint@ != "flac"@ && hint@ != "m4a"@ && hint@ != "mp3"@),
    {
        proof {
            reveal_strlit("flac");
            reveal_strlit("m4a");
            reveal_strlit("mp3");
            assert("m4a"@[1] == '4' && "mp3"@[1] == 'p');
        }
        if str_eq_str(hint, "flac") {
            Some(TrackFormat::Flac)
        } else if str_eq_str(hint, "m4a") {
            Some(TrackFormat::M4a)
        } else if str_eq_str(hint, "mp3") {
            Some(TrackFormat::Mp3)
        } else {
            None
        }
    }

    /// MIME type served when streaming a track of this format.
    pub fn mime(&self) -> (r: &'static str)
        ensures
            self is Flac ==> r@ == "audio/flac"@,
            self is M4a ==> r@ == "audio/mp4"@,
            self is Mp3 ==> r@ == "audio/mpeg"@,
    {
        match self {
            TrackFormat::Flac => "audio/flac",
            TrackFormat::M4a => "audio/mp4",
            TrackFormat::Mp3 => "audio/mpeg",
        }
    }
}

/// A single permission held by a user account.
#[derive(Clone, Copy, PartialEq, Eq, Structural, Debug)]
pub enum UserPermission {
    /// Allows the user to upload new tracks.
    UploadTracks,
    /// Allows the user to change track/album/artist metadata.
    ChangeMetadata,
    /// Allows the user to invite other users.
    InviteUsers,
}

/// Returns whether a permission list grants the given permission.
pub fn has_permission(perms: &Vec<UserPermission>, p: UserPermission) -> (r: bool)
    ensures
        r == perms@.contains(p),
{
    let mut i: usize = 0;
    while i < perms.len()
        invariant
            i <= perms@.len(),
            forall|j: int| 0 <= j < i ==> perms@[j] != p,
        decreases perms@.len() - i,
    {
        if perms[i] == p {
            return true;
        }
        i += 1;
    }
    false
}

/// Transcoded stream quality tier; the cache-to-disk pipeline serves these two.
#[derive(Clone, Copy, PartialEq, Eq, Structural, Debug)]
pub enum StreamQuality {
    Low,
    Medium,
}

/// Image type of a piece of cover art.
#[derive(Clone, Copy, PartialEq, Eq, Structural, Debug)]
pub enum MimeKind {
    Png,
    Jpeg,
    Tiff,
    Bmp,
    Gif,
}

impl MimeKind {
    /// The MIME string for this image type.
    pub fn as_str(&self) -> (r: &'static str)
        ensures
            self is Png ==> r@ == "image/png"@,
            self is Jpeg ==> r@ == "image/jpeg"@,
            self is Tiff ==> r@ == "image/tiff"@,
            self is Bmp ==> r@ == "image/bmp"@,
            self is Gif ==> r@ == "image/gif"@,
    {
        match self {
            MimeKind::Png => "image/png",
            MimeKind::Jpeg => "image/jpeg",
            MimeKind::Tiff => "image/tiff",
            MimeKind::Bmp => "image/bmp",
            MimeKind::Gif => "image/gif",
        }
    }
}

/// One time-synced lyrics line.
#[derive(Clone, Debug)]
pub struct SyncedLyricLine {
    /// Time in milliseconds at which this line starts.
    pub start_time_ms: u32,
    /// Contents of the line.
    pub line: String,
}

/// Lyrics resolution outcome for a track.
#[derive(Clone, Debug)]
pub enum LyricsStatus {
    /// No lyrics available.
    NoLyrics,
    /// Time-synced lines available.
    Synced { lines: Vec<SyncedLyricLine> },
    /// Plain lines available.
    Unsynced { lines: Vec<String> },
}

/// Track record of the metadata store.
#[derive(Clone, Debug)]
pub struct TrackMetadata {
    /// Identifier of the track.
    pub track_id: Uid,
    /// Name of the track.
    pub name: String,
    /// Duration of the track in seconds.
    pub length: u32,
    /// Artists who made this track.
    pub artists: Vec<Uid>,
    /// Albums this track is featured in.
    pub albums: Vec<Uid>,
    /// Whether this track contains explicit lyrics.
    pub is_explicit: bool,
    /// Container format of the stored audio.
    pub format: TrackFormat,
    /// Positional number of this track in its album.
    pub number: u16,
    /// Number of the disc this track is on.
    pub disc_number: u16,
}

/// Artist record of the metadata store.
#[derive(Clone, Debug)]
pub struct ArtistMetadata {
    /// Identifier of the artist.
    pub artist_id: Uid,
    /// Name of the artist.
    pub name: String,
    /// Albums this artist produced.
    pub albums: Vec<Uid>,
    /// Tracks this artist produced.
    pub tracks: Vec<Uid>,
    /// Genre histogram: genre paired with its occurrence count.
    pub genres: Vec<(String, u32)>,
    /// Free-text description of the artist.
    pub about: String,
}

/// Album record of the metadata store.
#[derive(Clone, Debug)]
pub struct AlbumMetadata {
    /// Identifier of the album.
    pub album_id: Uid,
    /// Name of the album.
    pub name: String,
    /// Artists who made this album.
    pub artists: Vec<Uid>,
    /// Tracks within this album.
    pub tracks: Vec<Uid>,
    /// Milliseconds unix timestamp of the release date.
    pub release_date: u64,
    /// Most prominent genres of this album.
    pub genres: Vec<String>,
}

/// A staged upload that has not been classified yet.
#[derive(Clone, Debug)]
pub struct UndefinedTrack {
    /// Identifier of the staged track.
    pub track_id: Uid,
    /// Hex digest of the stored bytes.
    pub hash: String,
    /// Identifier of the uploading user.
    pub uploaded_by: Uid,
    /// Declared container format.
    pub format: TrackFormat,
}

/// Lyrics row: at most one per track.
#[derive(Clone, Debug)]
pub struct TrackLyrics {
    /// Identifier of the track.
    pub track_id: Uid,
    /// The cached resolution outcome.
    pub status: LyricsStatus,
}

/// A single user account.
#[derive(Clone, Debug)]
pub struct UserAccount {
    /// Identifier of the user.
    pub user_id: Uid,
    /// Username.
    pub username: String,
    /// Password hash, as produced by the credential layer.
    pub password_hash: String,
    /// Milliseconds unix timestamp of the registration date.
    pub register_date: u64,
    /// Permissions granted to this user.
    pub permissions: Vec<UserPermission>,
    /// Albums this user loves.
    pub loved_albums: Vec<Uid>,
    /// Tracks this user loves.
    pub loved_tracks: Vec<Uid>,
}

/// A single invite code record.
#[derive(Clone, Debug)]
pub struct InviteCode {
    /// The code itself.
    pub code: String,
    /// Identifier of the issuing user.
    pub issued_by: Uid,
    /// Milliseconds unix timestamp after which the code is unusable.
    pub expires_at: u64,
    /// Permissions granted upon registration with this code.
    pub permissions: Vec<UserPermission>,
}

/// Owned bytes of a piece of cover art.
#[derive(Clone, Debug)]
pub struct PictureOwned {
    /// Image body.
    pub data: Vec<u8>,
    /// Image type.
    pub mime: MimeKind,
}

/// Cover art attached to extracted metadata.
#[derive(Clone, Debug)]
pub enum AlbumArt {
    /// Bytes embedded in the uploaded file.
    Bytes(PictureOwned),
    /// Remote location of the art, with its image type.
    Url(String, MimeKind),
}

/// Metadata extracted for a single track, as handed to the classifier.
#[derive(Clone, Debug)]
pub struct ExtractedTrackMetadata {
    /// Track name; empty means unknown.
    pub name: String,
    /// Name of the album; empty means unknown.
    pub album_name: String,
    /// Artists who worked on this track.
    pub artists: Vec<String>,
    /// Artists who worked on the album as a whole.
    pub album_artists: Vec<String>,
    /// Cover art of the track's album, if any.
    pub cover_art: Option<AlbumArt>,
    /// Duration of the track in seconds; zero means unknown.
    pub duration: u32,
    /// Container format of the track.
    pub format: TrackFormat,
    /// Positional number of the track in the album.
    pub number: u16,
    /// Number of the disc the track appears on.
    pub disc_number: u16,
    /// Milliseconds unix timestamp of the release date; zero means unknown.
    pub release_date: u64,
    /// Whether the track contains explicit lyrics.
    pub is_explicit: bool,
    /// Lyrics payload extracted alongside, if any.
    pub lyrics: Option<LyricsStatus>,
}

} // verus!
