//! Tag extraction: container-specific parsing of embedded audio metadata,
//! with missing fields defaulting to empty or zero rather than failing the
//! extraction.
use vstd::prelude::*;

verus! {

use audiotags::AudioTagEdit;

use crate::error::AstralError;
use crate::model::{AlbumArt, ExtractedTrackMetadata, MimeKind, PictureOwned, TrackFormat};
use crate::text::string_views;

/// The fields a container parser may find, each optional.
#[derive(Clone, Debug)]
pub struct RawTag {
    /// Track title.
    pub title: Option<String>,
    /// Track artists.
    pub artists: Vec<String>,
    /// Album artists.
    pub album_artists: Vec<String>,
    /// Album title.
    pub album_title: Option<String>,
    /// Embedded cover art.
    pub cover: Option<PictureOwned>,
    /// Duration in whole seconds.
    pub duration: Option<u32>,
    /// Positional track number.
    pub number: Option<u16>,
    /// Disc number.
    pub disc_number: Option<u16>,
}

#[verifier::external_type_specification]
#[verifier::external_body]
pub struct ExPicture<'a>(audiotags::Picture<'a>);

/// The plain form of a parse result: title, track artists, album artists,
/// album title, cover bytes with the image-type code, duration, track
/// number, disc number.
pub type ParsedTag = (
    Option<Seq<char>>,
    Seq<Seq<char>>,
    Seq<Seq<char>>,
    Option<Seq<char>>,
    Option<(Seq<u8>, int)>,
    Option<u32>,
    Option<u16>,
    Option<u16>,
);

/// A stable numeric code for an image type, so that parse results can be
/// stated over plain values.
pub open spec fn mime_code(m: MimeKind) -> int {
    match m {
        MimeKind::Png => 0,
        MimeKind::Jpeg => 1,
        MimeKind::Tiff => 2,
        MimeKind::Bmp => 3,
        MimeKind::Gif => 4,
    }
}

/// Whether a parsed record carries exactly the given plain fields.
pub open spec fn raw_tag_matches(t: RawTag, p: ParsedTag) -> bool {
    &&& (match t.title {
        Some(s) => Some(s@),
        None => None::<Seq<char>>,
    }) == p.0
    &&& string_views(t.artists@) == p.1
    &&& string_views(t.album_artists@) == p.2
    &&& (match t.album_title {
        Some(s) => Some(s@),
        None => None::<Seq<char>>,
    }) == p.3
    &&& (match t.cover {
        Some(pic) => Some((pic.data@, mime_code(pic.mime))),
        None => None::<(Seq<u8>, int)>,
    }) == p.4
    &&& t.duration == p.5
    &&& t.number == p.6
    &&& t.disc_number == p.7
}

/// Whether the bytes parse as a FLAC container.
pub uninterp spec fn flac_parses(bytes: Seq<u8>) -> bool;

/// The fields a FLAC parse of the bytes yields.
pub uninterp spec fn flac_tag_of(bytes: Seq<u8>) -> ParsedTag;

/// Whether the bytes parse as an ID3-tagged MP3 container.
pub uninterp spec fn id3_parses(bytes: Seq<u8>) -> bool;

/// The fields an ID3 parse of the bytes yields.
pub uninterp spec fn id3_tag_of(bytes: Seq<u8>) -> ParsedTag;

/// Whether the bytes parse as an M4A container.
pub uninterp spec fn mp4_parses(bytes: Seq<u8>) -> bool;

/// The fields an M4A parse of the bytes yields.
pub uninterp spec fn mp4_tag_of(bytes: Seq<u8>) -> ParsedTag;

/// Relies on audiotags' Picture: the bytes are copied and the image type
/// mapped variant by variant.
#[verifier::external_body]
fn picture_owned_of(p: audiotags::Picture<'_>) -> (r: PictureOwned) {
    let mime = match p.mime_type {
        audiotags::MimeType::Png => MimeKind::Png,
        audiotags::MimeType::Jpeg => MimeKind::Jpeg,
        audiotags::MimeType::Tiff => MimeKind::Tiff,
        audiotags::MimeType::Bmp => MimeKind::Bmp,
        audiotags::MimeType::Gif => MimeKind::Gif,
    };
    PictureOwned { data: p.data.to_vec(), mime }
}

/// Relies on metaflac's container parsing and audiotags' FLAC field
/// accessors: both depend on the bytes alone, so the outcome and the fields
/// carry names; a parse failure carries the parser's message.
#[verifier::external_body]
fn read_flac_raw(bytes: &Vec<u8>) -> (r: Result<RawTag, String>)
    ensures
        (r is Ok) == flac_parses(bytes@),
        r matches Ok(t) ==> raw_tag_matches(t, flac_tag_of(bytes@)),
{
    let t = match metaflac::Tag::read_from(&mut std::io::Cursor::new(bytes.as_slice())) {
        Ok(t) => audiotags::FlacTag::from(t),
        Err(e) => return Err(format!("{e}")),
    };
    Ok(RawTag {
        title: t.title().map(String::from),
        artists: t.artists().unwrap_or_default().into_iter().map(String::from).collect(),
        album_artists: t.album_artists().unwrap_or_default().into_iter().map(String::from).collect(),
        album_title: t.album_title().map(String::from),
        cover: t.album_cover().map(picture_owned_of),
        duration: t.duration().map(|d| d as u32),
        number: t.track_number(),
        disc_number: t.disc_number(),
    })
}

/// Relies on id3's container parsing and audiotags' ID3v2 field accessors:
/// both depend on the bytes alone, so the outcome and the fields carry
/// names; a parse failure carries the parser's message.
#[verifier::external_body]
fn read_id3_raw(bytes: &Vec<u8>) -> (r: Result<RawTag, String>)
    ensures
        (r is Ok) == id3_parses(bytes@),
        r matches Ok(t) ==> raw_tag_matches(t, id3_tag_of(bytes@)),
{
    let t = match id3::Tag::read_from2(std::io::Cursor::new(bytes.as_slice())) {
        Ok(t) => audiotags::Id3v2Tag::from(t),
        Err(e) => return Err(format!("{e}")),
    };
    Ok(RawTag {
        title: t.title().map(String::from),
        artists: t.artists().unwrap_or_default().into_iter().map(String::from).collect(),
        album_artists: t.album_artists().unwrap_or_default().into_iter().map(String::from).collect(),
        album_title: t.album_title().map(String::from),
        cover: t.album_cover().map(picture_owned_of),
        duration: t.duration().map(|d| d as u32),
        number: t.track_number(),
        disc_number: t.disc_number(),
    })
}

/// Relies on mp4ameta's container parsing and audiotags' MP4 field
/// accessors: both depend on the bytes alone, so the outcome and the fields
/// carry names; a parse failure carries the parser's message.
#[verifier::external_body]
fn read_mp4_raw(bytes: &Vec<u8>) -> (r: Result<RawTag, String>)
    ensures
        (r is Ok) == mp4_parses(bytes@),
        r matches Ok(t) ==> raw_tag_matches(t, mp4_tag_of(bytes@)),
{
    let t = match mp4ameta::Tag::read_from(&mut std::io::Cursor::new(bytes.as_slice())) {
        Ok(t) => audiotags::Mp4Tag::from(t),
        Err(e) => return Err(format!("{e}")),
    };
    Ok(RawTag {
        title: t.title().map(String::from),
        artists: t.artists().unwrap_or_default().into_iter().map(String::from).collect(),
        album_artists: t.album_artists().unwrap_or_default().into_iter().map(String::from).collect(),
        album_title: t.album_title().map(String::from),
        cover: t.album_cover().map(picture_owned_of),
        duration: t.duration().map(|d| d as u32),
        number: t.track_number(),
        disc_number: t.disc_number(),
    })
}

/// Builds the extraction record from parsed fields: absent fields become
/// empty or zero, an embedded picture becomes the cover, and the record is
/// stamped with the declared format.
pub fn finish_extraction(raw: RawTag, format: TrackFormat) -> (r: ExtractedTrackMetadata)
    ensures
        r.name@ == (match raw.title {
            Some(t) => t@,
            None => Seq::<char>::empty(),
        }),
        r.album_name@ == (match raw.album_title {
            Some(t) => t@,
            None => Seq::<char>::empty(),
        }),
        string_views(r.artists@) == string_views(raw.artists@),
        string_views(r.album_artists@) == string_views(raw.album_artists@),
        r.cover_art is Some <==> raw.cover is Some,
        raw.cover matches Some(p) ==> (r.cover_art matches Some(a) && (
        a matches AlbumArt::Bytes(q) && q.data@ == p.data@ && q.mime == p.mime)),
        r.duration == (match raw.duration {
            Some(d) => d,
            None => 0u32,
        }),
        r.number == (match raw.number {
            Some(n) => n,
            None => 0u16,
        }),
        r.disc_number == (match raw.disc_number {
            Some(n) => n,
            None => 0u16,
        }),
        r.format == format,
        r.release_date == 0,
        !r.is_explicit,
        r.lyrics is None,
{
    let name = match raw.title {
        Some(t) => t,
        None => String::new(),
    };
    let album_name = match raw.album_title {
        Some(t) => t,
        None => String::new(),
    };
    let cover_art = match raw.cover {
        Some(p) => Some(AlbumArt::Bytes(p)),
        None => None,
    };
    let duration = match raw.duration {
        Some(d) => d,
        None => 0,
    };
    let number = match raw.number {
        Some(n) => n,
        None => 0,
    };
    let disc_number = match raw.disc_number {
        Some(n) => n,
        None => 0,
    };
    ExtractedTrackMetadata {
        name,
        album_name,
        artists: raw.artists,
        album_artists: raw.album_artists,
        cover_art,
        duration,
        format,
        number,
        disc_number,
        release_date: 0,
        is_explicit: false,
        lyrics: None,
    }
}

/// Whether the declared container parses from the bytes.
pub open spec fn container_parses(bytes: Seq<u8>, format: TrackFormat) -> bool {
    match format {
        TrackFormat::Flac => flac_parses(bytes),
        TrackFormat::Mp3 => id3_parses(bytes),
        TrackFormat::M4a => mp4_parses(bytes),
    }
}

/// The parsed fields of the declared container.
pub open spec fn parsed_tag_of(bytes: Seq<u8>, format: TrackFormat) -> ParsedTag {
    match format {
        TrackFormat::Flac => flac_tag_of(bytes),
        TrackFormat::Mp3 => id3_tag_of(bytes),
        TrackFormat::M4a => mp4_tag_of(bytes),
    }
}

/// Whether an extraction record is exactly the parsed fields with absent
/// ones defaulted to empty or zero, stamped with the declared format.
pub open spec fn extracted_matches(m: ExtractedTrackMetadata, p: ParsedTag, format: TrackFormat) -> bool {
    &&& m.name@ == (match p.0 {
        Some(s) => s,
        None => Seq::<char>::empty(),
    })
    &&& string_views(m.artists@) == p.1
    &&& string_views(m.album_artists@) == p.2
    &&& m.album_name@ == (match p.3 {
        Some(s) => s,
        None => Seq::<char>::empty(),
    })
    &&& (match (m.cover_art, p.4) {
        (Some(AlbumArt::Bytes(q)), Some(c)) => q.data@ == c.0 && mime_code(q.mime) == c.1,
        (None, None) => true,
        _ => false,
    })
    &&& m.duration == (match p.5 {
        Some(d) => d,
        None => 0u32,
    })
    &&& m.number == (match p.6 {
        Some(n) => n,
        None => 0u16,
    })
    &&& m.disc_number == (match p.7 {
        Some(n) => n,
        None => 0u16,
    })
    &&& m.format == format
    &&& m.release_date == 0
    &&& !m.is_explicit
    &&& m.lyrics is None
}

/// Law: tag extraction is a function of the bytes and the declared format —
/// any two extraction records for the same input agree on every field.
pub proof fn lemma_extraction_deterministic(
    m1: ExtractedTrackMetadata,
    m2: ExtractedTrackMetadata,
    bytes: Seq<u8>,
    format: TrackFormat,
)
    requires
        extracted_matches(m1, parsed_tag_of(bytes, format), format),
        extracted_matches(m2, parsed_tag_of(bytes, format), format),
    ensures
        m1.name@ == m2.name@,
        m1.album_name@ == m2.album_name@,
        string_views(m1.artists@) == string_views(m2.artists@),
        string_views(m1.album_artists@) == string_views(m2.album_artists@),
        m1.duration == m2.duration,
        m1.number == m2.number,
        m1.disc_number == m2.disc_number,
        m1.format == m2.format,
        m1.release_date == m2.release_date,
        m1.is_explicit == m2.is_explicit,
        m1.cover_art is Some <==> m2.cover_art is Some,
        m1.cover_art matches Some(AlbumArt::Bytes(q1)) ==> (m2.cover_art matches Some(
            AlbumArt::Bytes(q2),
        ) && q1.data@ == q2.data@ && q1.mime == q2.mime),
{
}

/// Extracts embedded metadata from raw bytes, dispatching on the declared
/// container format. It succeeds exactly when the container parses, yielding
/// the parsed fields with absent ones defaulted; a structurally corrupt
/// container fails with the error tagged by the parser that rejected it.
pub fn extract_metadata_from_bytes(bytes: &Vec<u8>, format: TrackFormat) -> (r: Result<
    ExtractedTrackMetadata,
    AstralError,
>)
    ensures
        r is Ok <==> container_parses(bytes@, format),
        r matches Ok(m) ==> extracted_matches(m, parsed_tag_of(bytes@, format), format),
        r matches Err(e) ==> {
            &&& format is Flac <==> e is FlacError
            &&& format is Mp3 <==> e is Id3Error
            &&& format is M4a <==> e is M4aError
        },
{
    let raw = match format {
        TrackFormat::Flac => match read_flac_raw(bytes) {
            Ok(r) => r,
            Err(msg) => {
                return Err(AstralError::FlacError(msg));
            },
        },
        TrackFormat::Mp3 => match read_id3_raw(bytes) {
            Ok(r) => r,
            Err(msg) => {
                return Err(AstralError::Id3Error(msg));
            },
        },
        TrackFormat::M4a => match read_mp4_raw(bytes) {
            Ok(r) => r,
            Err(msg) => {
                return Err(AstralError::M4aError(msg));
            },
        },
    };
    Ok(finish_extraction(raw, format))
}

} // verus!
