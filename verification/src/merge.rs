//! Multi-source metadata merging: embedded tag metadata reconciled with the
//! external provider's response under an explicit precedence policy. For each
//! contested field the preferred source wins only when it carries a value;
//! an empty or zero preferred field never overrides the other source.
use vstd::prelude::*;

verus! {

use crate::error::AstralError;
use crate::model::{AlbumArt, ExtractedTrackMetadata, MimeKind};
use crate::text::{split_seq, split_string, string_views, str_eq_str, trim_spec, trim_string};

/// The typed track portion of the provider's response, validated once at the
/// boundary.
#[derive(Clone, Debug)]
pub struct ProviderTrack {
    /// Canonical track name.
    pub track_name: String,
    /// Canonical album name.
    pub album_name: String,
    /// Canonical artist credit; co-credits are separated by "feat.".
    pub artist_name: String,
    /// Release date string in RFC 3339 form.
    pub first_release_date: String,
    /// The provider's explicit rating; zero marks an explicit track.
    pub explicit_rating: i64,
    /// Track length in seconds.
    pub track_length: u32,
    /// Cover art locations ordered by descending resolution.
    pub cover_urls: Vec<String>,
    /// Whether time-synced subtitles are available.
    pub has_subtitles: bool,
    /// Parsed subtitle lines: start time in milliseconds with the text.
    pub subtitle_lines: Option<Vec<(u32, String)>>,
    /// Whether plain lyrics are available.
    pub has_lyrics: bool,
    /// The plain lyrics body.
    pub lyrics_body: Option<String>,
    /// Whether the track is marked instrumental.
    pub instrumental: bool,
    /// Whether the provider restricts the lyrics of this track.
    pub restricted: bool,
}

/// The provider's reply: the match status code, and the track data when the
/// match succeeded.
#[derive(Clone, Debug)]
pub struct ProviderReply {
    /// Match status: 200 found, 404 no match, 401 rate-limited.
    pub status_code: i64,
    /// The matched track, present on status 200.
    pub track: Option<ProviderTrack>,
}

/// Maps the provider's match status to the ingestion outcome: 200 succeeds,
/// 404 is a not-found, 401 a cool-down request, anything else unexpected.
pub fn interpret_provider_status(code: i64) -> (r: Result<(), AstralError>)
    ensures
        code == 200 <==> r is Ok,
        code == 404 <==> (r matches Err(e) && e is NotFound),
        (code != 200 && code != 404) <==> (r matches Err(e) && e is BadRequest),
{
    if code == 200 {
        Ok(())
    } else if code == 404 {
        Err(AstralError::NotFound(String::from_str("Could not find this track in Musixmatch")))
    } else if code == 401 {
        Err(
            AstralError::BadRequest(
                String::from_str("Timed out. Wait a few minutes before trying again."),
            ),
        )
    } else {
        Err(AstralError::BadRequest(String::from_str("Unexpected response from provider")))
    }
}

/// The milliseconds unix timestamp of an RFC 3339 date string, when it parses.
pub uninterp spec fn datetime_millis_of(s: Seq<char>) -> Option<i64>;

/// Relies on chrono's NaiveDateTime parsing with the "%+" format: the outcome
/// depends on the characters alone.
#[verifier::external_body]
fn parse_release_millis(s: &str) -> (r: Option<i64>)
    ensures
        r == datetime_millis_of(s@),
{
    chrono::NaiveDateTime::parse_from_str(s, "%+").ok().map(|d| d.and_utc().timestamp_millis())
}

/// The provider's release date as a milliseconds timestamp; zero when the
/// string does not parse or lies before the epoch.
pub open spec fn provider_release_millis(s: Seq<char>) -> u64 {
    match datetime_millis_of(s) {
        Some(v) => if v >= 0 {
            v as u64
        } else {
            0
        },
        None => 0,
    }
}

/// The provider's artist credit split on "feat." with each part trimmed.
pub open spec fn provider_artists(s: Seq<char>) -> Seq<Seq<char>> {
    split_seq(s, "feat."@).map_values(|p: Seq<char>| trim_spec(p))
}

/// Picking between two strings: the preferred one unless it is empty.
pub open spec fn pick_string(pref: Seq<char>, other: Seq<char>) -> Seq<char> {
    if pref.len() > 0 {
        pref
    } else {
        other
    }
}

/// Picking between two numbers: the preferred one unless it is zero.
pub open spec fn pick_u32(pref: u32, other: u32) -> u32 {
    if pref != 0 {
        pref
    } else {
        other
    }
}

/// Picking between two timestamps: the preferred one unless it is zero.
pub open spec fn pick_u64(pref: u64, other: u64) -> u64 {
    if pref != 0 {
        pref
    } else {
        other
    }
}

/// The extension of a location: what follows the last dot.
pub open spec fn url_ext(u: Seq<char>) -> Seq<char> {
    split_seq(u, "."@)[split_seq(u, "."@).len() - 1]
}

/// Whether the merger can settle cover art: embedded art is present, or no
/// provider location is given, or the best provider location carries a
/// recognized extension.
pub open spec fn cover_selectable(embedded: Option<AlbumArt>, urls: Seq<String>) -> bool {
    ||| embedded is Some
    ||| forall|i: int| 0 <= i < urls.len() ==> (#[trigger] urls[i])@.len() == 0
    ||| exists|i: int|
        0 <= i < urls.len() && (#[trigger] urls[i])@.len() > 0 && (forall|j: int|
            0 <= j < i ==> (#[trigger] urls[j])@.len() == 0) && ext_mime(url_ext(urls[i]@)) is Some
}

/// The image type of a cover location by its extension, when recognized.
pub open spec fn ext_mime(e: Seq<char>) -> Option<MimeKind> {
    if e == "jpg"@ {
        Some(MimeKind::Jpeg)
    } else if e == "png"@ {
        Some(MimeKind::Png)
    } else {
        None
    }
}

/// Splits the provider's artist credit on "feat." and trims each part.
pub fn split_provider_artists(s: &str) -> (r: Vec<String>)
    ensures
        string_views(r@) =~~= provider_artists(s@),
{
    proof {
        reveal_strlit("feat.");
    }
    let pieces = split_string(s, "feat.");
    let mut out: Vec<String> = Vec::new();
    let mut i: usize = 0;
    while i < pieces.len()
        invariant
            i <= pieces@.len(),
            out@.len() == i,
            string_views(pieces@) =~~= split_seq(s@, "feat."@),
            forall|j: int| 0 <= j < i ==> (#[trigger] out@[j])@ == trim_spec(pieces@[j]@),
        decreases pieces@.len() - i,
    {
        out.push(trim_string(pieces[i].as_str()));
        i += 1;
    }
    proof {
        assert(string_views(out@) =~~= provider_artists(s@));
    }
    out
}

/// Merges tag metadata with the provider's matched track under the given
/// precedence. Contested scalar fields follow the preferred source unless it
/// is empty or zero; the explicit flag is set when either source sets it.
/// Cover art prefers embedded bytes, then the highest-resolution provider
/// location; a location whose extension is neither "jpg" nor "png" is
/// rejected. A provider reply without a match fails with the status mapping
/// of `interpret_provider_status`.
#[verifier::rlimit(50)]
pub fn extract_merged_metadata(
    extracted: ExtractedTrackMetadata,
    reply: &ProviderReply,
    prioritize_musix: bool,
) -> (r: Result<ExtractedTrackMetadata, AstralError>)
    ensures
        reply.status_code == 404 ==> (r matches Err(e) && e is NotFound),
        reply.status_code != 200 && reply.status_code != 404 ==> (r matches Err(e)
            && e is BadRequest),
        reply.status_code == 200 && reply.track is None ==> (r matches Err(e) && e is BadRequest),
        r is Ok <==> (reply.status_code == 200 && (reply.track matches Some(m)
            && cover_selectable(extracted.cover_art, m.cover_urls@))),
        reply.status_code == 200 ==> (reply.track matches Some(m) ==> {
            &&& (extracted.cover_art is None && (exists|i: int|
                0 <= i < m.cover_urls@.len() && (#[trigger] m.cover_urls@[i])@.len() > 0) ==> (
            forall|i: int|
                (0 <= i < m.cover_urls@.len() && (#[trigger] m.cover_urls@[i])@.len() > 0 && (
                forall|j: int| 0 <= j < i ==> (#[trigger] m.cover_urls@[j])@.len() == 0)) ==> (
                match ext_mime(url_ext(m.cover_urls@[i]@)) {
                    None => r matches Err(e) && e is BadRequest,
                    Some(_) => r is Ok,
                })))
            &&& (r matches Ok(out) ==> {
                &&& out.name@ == (if prioritize_musix {
                    pick_string(m.track_name@, extracted.name@)
                } else {
                    pick_string(extracted.name@, m.track_name@)
                })
                &&& out.album_name@ == (if prioritize_musix {
                    pick_string(m.album_name@, extracted.album_name@)
                } else {
                    pick_string(extracted.album_name@, m.album_name@)
                })
                &&& string_views(out.artists@) =~~= (if prioritize_musix {
                    if provider_artists(m.artist_name@).len() > 0 && !(provider_artists(
                        m.artist_name@,
                    ).len() == 1 && provider_artists(m.artist_name@)[0].len() == 0) {
                        provider_artists(m.artist_name@)
                    } else {
                        string_views(extracted.artists@)
                    }
                } else {
                    if extracted.artists@.len() > 0 {
                        string_views(extracted.artists@)
                    } else {
                        provider_artists(m.artist_name@)
                    }
                })
                &&& string_views(out.album_artists@) =~~= (if prioritize_musix {
                    string_views(out.artists@)
                } else {
                    if extracted.album_artists@.len() > 0 {
                        string_views(extracted.album_artists@)
                    } else {
                        string_views(out.artists@)
                    }
                })
                &&& out.duration == (if prioritize_musix {
                    pick_u32(m.track_length, extracted.duration)
                } else {
                    pick_u32(extracted.duration, m.track_length)
                })
                &&& out.release_date == (if prioritize_musix {
                    pick_u64(
                        provider_release_millis(m.first_release_date@),
                        extracted.release_date,
                    )
                } else {
                    pick_u64(
                        extracted.release_date,
                        provider_release_millis(m.first_release_date@),
                    )
                })
                &&& out.is_explicit == (extracted.is_explicit || m.explicit_rating == 0)
                &&& out.format == extracted.format
                &&& out.number == extracted.number
                &&& out.disc_number == extracted.disc_number
                &&& (extracted.cover_art is Some ==> out.cover_art == extracted.cover_art)
                &&& (extracted.cover_art is None && (forall|i: int|
                    0 <= i < m.cover_urls@.len() ==> (#[trigger] m.cover_urls@[i])@.len() == 0)
                    ==> out.cover_art is None)
                &&& (extracted.cover_art is None ==> forall|i: int|
                    (0 <= i < m.cover_urls@.len() && (#[trigger] m.cover_urls@[i])@.len() > 0 && (
                    forall|j: int| 0 <= j < i ==> (#[trigger] m.cover_urls@[j])@.len() == 0))
                        ==> (out.cover_art matches Some(AlbumArt::Url(u, mk)) && u@
                        == m.cover_urls@[i]@ && Some(mk) == ext_mime(url_ext(m.cover_urls@[i]@))))
                &&& (m.has_subtitles && m.subtitle_lines is None ==> out.lyrics is None)
                &&& (!m.has_subtitles && !m.has_lyrics && !m.instrumental ==> (
                out.lyrics matches Some(st) && st is NoLyrics))
                &&& (!m.has_subtitles && !m.has_lyrics && m.instrumental ==> (
                out.lyrics matches Some(st) && st is Unsynced))
            })
        }),
{
    if reply.status_code != 200 {
        return Err(
            match interpret_provider_status(reply.status_code) {
                Err(e) => e,
                Ok(_) => AstralError::BadRequest(String::from_str("Unexpected response from provider")),
            },
        );
    }
    let m = match &reply.track {
        Some(m) => m,
        None => {
            return Err(AstralError::BadRequest(String::from_str("Provider reply carries no track")));
        },
    };
    // cover art: embedded bytes win; otherwise the best provider location
    let cover_art: Option<AlbumArt> = if extracted.cover_art.is_some() {
        extracted.cover_art
    } else {
        match select_cover_url(&m.cover_urls) {
            Err(e) => {
                return Err(e);
            },
            Ok(None) => None,
            Ok(Some((u, mk))) => Some(AlbumArt::Url(u, mk)),
        }
    };
    // artist lists: the provider credit is split on "feat." and trimmed
    let provider_list = split_provider_artists(m.artist_name.as_str());
    let provider_has = provider_list.len() > 1 || (provider_list.len() == 1
        && !provider_list[0].as_str().is_empty());
    proof {
        assert(string_views(provider_list@).len() == provider_list@.len());
    }
    let artists: Vec<String>;
    let album_artists: Vec<String>;
    if prioritize_musix {
        if provider_has {
            artists = provider_list;
        } else {
            artists = extracted.artists;
        }
        album_artists = clone_strings(&artists);
    } else {
        if extracted.artists.len() > 0 {
            artists = extracted.artists;
        } else {
            artists = provider_list;
        }
        if extracted.album_artists.len() > 0 {
            album_artists = extracted.album_artists;
        } else {
            album_artists = clone_strings(&artists);
        }
    }
    let name = if prioritize_musix {
        pick_str(m.track_name.clone(), extracted.name)
    } else {
        pick_str(extracted.name, m.track_name.clone())
    };
    let album_name = if prioritize_musix {
        pick_str(m.album_name.clone(), extracted.album_name)
    } else {
        pick_str(extracted.album_name, m.album_name.clone())
    };
    let provider_release = provider_release_u64(m.first_release_date.as_str());
    let release_date = if prioritize_musix {
        if provider_release != 0 {
            provider_release
        } else {
            extracted.release_date
        }
    } else {
        if extracted.release_date != 0 {
            extracted.release_date
        } else {
            provider_release
        }
    };
    let duration = if prioritize_musix {
        if m.track_length != 0 {
            m.track_length
        } else {
            extracted.duration
        }
    } else {
        if extracted.duration != 0 {
            extracted.duration
        } else {
            m.track_length
        }
    };
    let is_explicit = extracted.is_explicit || m.explicit_rating == 0;
    let body_ref: Option<&str> = match &m.lyrics_body {
        Some(s) => Some(s.as_str()),
        None => None,
    };
    let lyrics = match crate::lyrics::extract_lyrics_from_musix(
        m.has_subtitles,
        clone_subtitles(&m.subtitle_lines),
        m.has_lyrics,
        body_ref,
        m.instrumental,
    ) {
        Ok(st) => Some(st),
        Err(_) => None,
    };
    Ok(
        ExtractedTrackMetadata {
            name,
            album_name,
            artists,
            album_artists,
            cover_art,
            duration,
            format: extracted.format,
            number: extracted.number,
            disc_number: extracted.disc_number,
            release_date,
            is_explicit,
            lyrics,
        },
    )
}

/// Picks the preferred string unless it is empty.
fn pick_str(pref: String, other: String) -> (r: String)
    ensures
        r@ == pick_string(pref@, other@),
{
    if !pref.as_str().is_empty() {
        pref
    } else {
        other
    }
}

/// The provider's release date as a milliseconds timestamp, zero when absent.
fn provider_release_u64(s: &str) -> (r: u64)
    ensures
        r == provider_release_millis(s@),
{
    match parse_release_millis(s) {
        Some(v) => if v >= 0 {
            v as u64
        } else {
            0
        },
        None => 0,
    }
}

/// A content copy of a string list.
fn clone_strings(v: &Vec<String>) -> (r: Vec<String>)
    ensures
        string_views(r@) =~~= string_views(v@),
{
    let mut out: Vec<String> = Vec::new();
    let mut i: usize = 0;
    while i < v.len()
        invariant
            i <= v@.len(),
            out@.len() == i,
            forall|j: int| 0 <= j < i ==> (#[trigger] out@[j])@ == v@[j]@,
        decreases v@.len() - i,
    {
        out.push(v[i].clone());
        i += 1;
    }
    out
}

/// A content copy of the parsed subtitle lines.
pub(crate) fn clone_subtitles(v: &Option<Vec<(u32, String)>>) -> (r: Option<Vec<(u32, String)>>)
    ensures
        v is None <==> r is None,
        v matches Some(a) ==> (r matches Some(b) && b@.len() == a@.len() && forall|i: int|
            0 <= i < a@.len() ==> (#[trigger] b@[i]).0 == a@[i].0 && b@[i].1@ == a@[i].1@),
{
    match v {
        None => None,
        Some(a) => {
            let mut out: Vec<(u32, String)> = Vec::new();
            let mut i: usize = 0;
            while i < a.len()
                invariant
                    i <= a@.len(),
                    out@.len() == i,
                    forall|j: int|
                        0 <= j < i ==> (#[trigger] out@[j]).0 == a@[j].0 && out@[j].1@ == a@[j].1@,
                decreases a@.len() - i,
            {
                out.push((a[i].0, a[i].1.clone()));
                i += 1;
            }
            Some(out)
        },
    }
}

/// Scans the provider's cover locations for the first non-empty one, mapping
/// its extension to an image type; an unrecognized extension is an error.
fn select_cover_url(urls: &Vec<String>) -> (r: Result<Option<(String, MimeKind)>, AstralError>)
    ensures
        (forall|i: int| 0 <= i < urls@.len() ==> (#[trigger] urls@[i])@.len() == 0) ==> (
        r matches Ok(o) && o is None),
        forall|i: int|
            (0 <= i < urls@.len() && (#[trigger] urls@[i])@.len() > 0 && (forall|j: int|
                0 <= j < i ==> (#[trigger] urls@[j])@.len() == 0)) ==> (match ext_mime(
                url_ext(urls@[i]@),
            ) {
                None => r matches Err(e) && e is BadRequest,
                Some(mk) => r matches Ok(o) && (o matches Some(p) && p.0@ == urls@[i]@ && p.1
                    == mk),
            }),
        r is Ok <==> cover_selectable(None, urls@),
{
    let mut i: usize = 0;
    while i < urls.len()
        invariant
            i <= urls@.len(),
            forall|j: int| 0 <= j < i ==> (#[trigger] urls@[j])@.len() == 0,
        decreases urls@.len() - i,
    {
        let url = &urls[i];
        if !url.as_str().is_empty() {
            proof {
                reveal_strlit(".");
                reveal_strlit("jpg");
                reveal_strlit("png");
                assert("jpg"@[0] == 'j' && "png"@[0] == 'p');
            }
            let pieces = split_string(url.as_str(), ".");
            proof {
                crate::text::lemma_split_seq_len(url@, "."@);
                assert(string_views(pieces@).len() == pieces@.len());
            }
            let ext = &pieces[pieces.len() - 1];
            proof {
                assert(string_views(pieces@)[pieces@.len() - 1] == pieces@[pieces@.len() - 1]@);
                assert(ext@ == url_ext(url@));
            }
            if str_eq_str(ext.as_str(), "jpg") {
                return Ok(Some((url.clone(), MimeKind::Jpeg)));
            } else if str_eq_str(ext.as_str(), "png") {
                return Ok(Some((url.clone(), MimeKind::Png)));
            } else {
                return Err(
                    AstralError::BadRequest(
                        String::from_str("Unhandled image type for the provider's cover art"),
                    ),
                );
            }
        }
        i += 1;
    }
    Ok(None)
}



} // verus!
