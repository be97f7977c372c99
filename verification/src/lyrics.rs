//! Lyrics resolution: cache-first lookup, classification of the provider's
//! response, and permanent caching of every outcome — the negative one
//! included — so that a resolved track never triggers another external call.
use vstd::prelude::*;

verus! {

use crate::error::AstralError;
use crate::model::{LyricsStatus, SyncedLyricLine, TrackLyrics, Uid};
use crate::store::{
    dedup_keys_unique, has_artist_id, has_lyrics_row, has_track_id, wf, AstralStore,
};
use crate::text::{split_string, string_views};

/// The placeholder glyph substituted for a blank synced line.
pub open spec fn placeholder_line() -> Seq<char> {
    "\u{266a}"@
}

/// The single line used for instrumental tracks.
pub open spec fn instrumental_line() -> Seq<char> {
    "\u{266a} Instrumental"@
}

/// The newline-split lines of a lyrics body with blank lines dropped.
pub open spec fn nonblank(ls: Seq<Seq<char>>) -> Seq<Seq<char>>
    decreases ls.len(),
{
    if ls.len() == 0 {
        Seq::empty()
    } else {
        nonblank(ls.take(ls.len() - 1)) + (if ls[ls.len() - 1].len() != 0 {
            seq![ls[ls.len() - 1]]
        } else {
            Seq::empty()
        })
    }
}

/// Structural equality of two lyrics payloads, by character content.
pub open spec fn lyrics_equiv(a: LyricsStatus, b: LyricsStatus) -> bool {
    match (a, b) {
        (LyricsStatus::NoLyrics, LyricsStatus::NoLyrics) => true,
        (LyricsStatus::Synced { lines: x }, LyricsStatus::Synced { lines: y }) => x@.len()
            == y@.len() && forall|i: int|
            0 <= i < x@.len() ==> (#[trigger] x@[i]).start_time_ms == y@[i].start_time_ms
                && x@[i].line@ == y@[i].line@,
        (LyricsStatus::Unsynced { lines: x }, LyricsStatus::Unsynced { lines: y }) => x@.len()
            == y@.len() && forall|i: int| 0 <= i < x@.len() ==> (#[trigger] x@[i])@ == y@[i]@,
        _ => false,
    }
}

impl LyricsStatus {
    /// A structural copy of the payload.
    pub fn duplicate(&self) -> (r: LyricsStatus)
        ensures
            lyrics_equiv(r, *self),
    {
        match self {
            LyricsStatus::NoLyrics => LyricsStatus::NoLyrics,
            LyricsStatus::Synced { lines } => {
                let mut out: Vec<SyncedLyricLine> = Vec::new();
                let mut i: usize = 0;
                while i < lines.len()
                    invariant
                        i <= lines@.len(),
                        out@.len() == i,
                        forall|j: int|
                            0 <= j < i ==> (#[trigger] out@[j]).start_time_ms
                                == lines@[j].start_time_ms && out@[j].line@ == lines@[j].line@,
                    decreases lines@.len() - i,
                {
                    out.push(
                        SyncedLyricLine {
                            start_time_ms: lines[i].start_time_ms,
                            line: lines[i].line.clone(),
                        },
                    );
                    i += 1;
                }
                LyricsStatus::Synced { lines: out }
            },
            LyricsStatus::Unsynced { lines } => {
                let mut out: Vec<String> = Vec::new();
                let mut i: usize = 0;
                while i < lines.len()
                    invariant
                        i <= lines@.len(),
                        out@.len() == i,
                        forall|j: int| 0 <= j < i ==> (#[trigger] out@[j])@ == lines@[j]@,
                    decreases lines@.len() - i,
                {
                    out.push(lines[i].clone());
                    i += 1;
                }
                LyricsStatus::Unsynced { lines: out }
            },
        }
    }
}

/// Classifies a provider response into a lyrics payload, by this precedence:
/// synced subtitles first, then plain lyrics, then an instrumental marker,
/// and `NoLyrics` when none apply. Blank synced lines become the placeholder
/// glyph; blank plain lines are dropped.
pub fn extract_lyrics_from_musix(
    has_subtitles: bool,
    subtitle_lines: Option<Vec<(u32, String)>>,
    has_lyrics: bool,
    lyrics_body: Option<&str>,
    instrumental: bool,
) -> (r: Result<LyricsStatus, AstralError>)
    ensures
        has_subtitles ==> (match subtitle_lines {
            None => r matches Err(e) && e is BadRequest,
            Some(raw) => r matches Ok(st) && (st matches LyricsStatus::Synced { lines } && lines@.len()
                == raw@.len() && forall|i: int|
                0 <= i < raw@.len() ==> (#[trigger] lines@[i]).start_time_ms == raw@[i].0
                    && lines@[i].line@ == (if raw@[i].1@.len() == 0 {
                    placeholder_line()
                } else {
                    raw@[i].1@
                })),
        }),
        !has_subtitles && has_lyrics ==> (match lyrics_body {
            None => r matches Err(e) && e is BadRequest,
            Some(b) => r matches Ok(st) && (st matches LyricsStatus::Unsynced { lines }
                && string_views(lines@) =~~= nonblank(crate::text::split_seq(b@, "\n"@))),
        }),
        !has_subtitles && !has_lyrics && instrumental ==> (r matches Ok(st) && (
        st matches LyricsStatus::Unsynced { lines } && lines@.len() == 1 && lines@[0]@
            == instrumental_line())),
        !has_subtitles && !has_lyrics && !instrumental ==> (r matches Ok(st)
            && st is NoLyrics),
{
    if has_subtitles {
        match subtitle_lines {
            None => Err(AstralError::BadRequest(String::from_str("Invalid lyrics response"))),
            Some(raw) => {
                let mut lines: Vec<SyncedLyricLine> = Vec::new();
                let mut i: usize = 0;
                while i < raw.len()
                    invariant
                        i <= raw@.len(),
                        lines@.len() == i,
                        forall|j: int|
                            0 <= j < i ==> (#[trigger] lines@[j]).start_time_ms == raw@[j].0
                                && lines@[j].line@ == (if raw@[j].1@.len() == 0 {
                                placeholder_line()
                            } else {
                                raw@[j].1@
                            }),
                    decreases raw@.len() - i,
                {
                    let text = if raw[i].1.as_str().is_empty() {
                        String::from_str("\u{266a}")
                    } else {
                        raw[i].1.clone()
                    };
                    proof {
                        if raw@[i as int].1@.len() == 0 {
                        } else {
                            assert(text@ == raw@[i as int].1@);
                        }
                    }
                    lines.push(SyncedLyricLine { start_time_ms: raw[i].0, line: text });
                    i += 1;
                }
                Ok(LyricsStatus::Synced { lines })
            },
        }
    } else if has_lyrics {
        match lyrics_body {
            None => Err(AstralError::BadRequest(String::from_str("Invalid lyrics response"))),
            Some(b) => {
                proof {
                    reveal_strlit("\n");
                }
                let pieces = split_string(b, "\n");
                let ghost all = string_views(pieces@);
                let mut lines: Vec<String> = Vec::new();
                let mut i: usize = 0;
                proof {
                    assert(all.take(0) =~= Seq::<Seq<char>>::empty());
                }
                while i < pieces.len()
                    invariant
                        i <= pieces@.len(),
                        all =~~= string_views(pieces@),
                        string_views(lines@) =~~= nonblank(all.take(i as int)),
                    decreases pieces@.len() - i,
                {
                    let ghost pre = lines@;
                    if !pieces[i].as_str().is_empty() {
                        lines.push(pieces[i].clone());
                    }
                    proof {
                        let t = all.take(i + 1int);
                        assert(t.take(t.len() - 1) =~~= all.take(i as int));
                        assert(t[t.len() - 1] == pieces@[i as int]@);
                        if pieces@[i as int]@.len() > 0 {
                            assert(string_views(lines@) =~~= string_views(pre) + seq![pieces@[i as int]@]);
                        } else {
                            assert(string_views(lines@) =~~= string_views(pre));
                        }
                    }
                    i += 1;
                }
                proof {
                    assert(all.take(pieces@.len() as int) =~~= all);
                }
                Ok(LyricsStatus::Unsynced { lines })
            },
        }
    } else if instrumental {
        let mut lines: Vec<String> = Vec::new();
        lines.push(String::from_str("\u{266a} Instrumental"));
        proof {
            assert(lines@[0]@ == instrumental_line());
        }
        Ok(LyricsStatus::Unsynced { lines })
    } else {
        Ok(LyricsStatus::NoLyrics)
    }
}

/// Resolves a full provider reply into a lyrics payload, as the lyrics
/// endpoint consumes it: the status mapping of `interpret_provider_status`
/// applies first, a matched reply without track data is a not-found,
/// restricted lyrics are rejected, and otherwise the payload precedence of
/// `extract_lyrics_from_musix` decides.
pub fn fetch_musixmatch_lyrics(reply: &crate::merge::ProviderReply) -> (r: Result<
    LyricsStatus,
    AstralError,
>)
    ensures
        reply.status_code == 404 ==> (r matches Err(e) && e is NotFound),
        reply.status_code != 200 && reply.status_code != 404 ==> (r matches Err(e)
            && e is BadRequest),
        reply.status_code == 200 && reply.track is None ==> (r matches Err(e) && e is NotFound),
        reply.status_code == 200 ==> (reply.track matches Some(t) ==> {
            &&& (t.restricted ==> (r matches Err(e) && e is BadRequest))
            &&& (!t.restricted && t.has_subtitles ==> (match t.subtitle_lines {
                None => r matches Err(e) && e is BadRequest,
                Some(raw) => r matches Ok(st) && (st matches LyricsStatus::Synced { lines }
                    && lines@.len() == raw@.len() && forall|i: int|
                    0 <= i < raw@.len() ==> (#[trigger] lines@[i]).start_time_ms == raw@[i].0
                        && lines@[i].line@ == (if raw@[i].1@.len() == 0 {
                        placeholder_line()
                    } else {
                        raw@[i].1@
                    })),
            }))
            &&& (!t.restricted && !t.has_subtitles && t.has_lyrics ==> (match t.lyrics_body {
                None => r matches Err(e) && e is BadRequest,
                Some(b) => r matches Ok(st) && (st matches LyricsStatus::Unsynced { lines }
                    && string_views(lines@) =~~= nonblank(crate::text::split_seq(b@, "\n"@))),
            }))
            &&& (!t.restricted && !t.has_subtitles && !t.has_lyrics && t.instrumental ==> (
            r matches Ok(st) && (st matches LyricsStatus::Unsynced { lines } && lines@.len() == 1
                && lines@[0]@ == instrumental_line())))
            &&& (!t.restricted && !t.has_subtitles && !t.has_lyrics && !t.instrumental ==> (
            r matches Ok(st) && st is NoLyrics))
        }),
{
    if reply.status_code != 200 {
        return Err(
            match crate::merge::interpret_provider_status(reply.status_code) {
                Err(e) => e,
                Ok(_) => AstralError::BadRequest(String::from_str("Unexpected response from provider")),
            },
        );
    }
    let t = match &reply.track {
        Some(t) => t,
        None => {
            return Err(
                AstralError::NotFound(String::from_str("Could not find lyrics for this track")),
            );
        },
    };
    if t.restricted {
        return Err(
            AstralError::BadRequest(String::from_str("Lyrics for this track are restricted.")),
        );
    }
    let body_ref: Option<&str> = match &t.lyrics_body {
        Some(s) => Some(s.as_str()),
        None => None,
    };
    extract_lyrics_from_musix(
        t.has_subtitles,
        crate::merge::clone_subtitles(&t.subtitle_lines),
        t.has_lyrics,
        body_ref,
        t.instrumental,
    )
}

/// What the resolver should do next for a track.
#[derive(Clone, Debug)]
pub enum LyricsAction {
    /// Answer with this payload; no external request is needed.
    Respond(LyricsStatus),
    /// Query the external provider with these hints, then cache the outcome.
    FetchExternal {
        /// Track title hint.
        title: String,
        /// Artist name hint; empty when the track has no linked artist.
        artist: String,
        /// Album name hint; empty when the track has no linked album.
        album: String,
    },
}

/// Whether resolving lyrics for this track requires an external request.
pub open spec fn lyrics_fetch_needed(s: AstralStore, id: Uid) -> bool {
    !has_lyrics_row(s, id)
}

/// Law: once a resolution outcome is cached — the negative `NoLyrics` result
/// included — resolving the same track again requires no external request.
pub proof fn lyrics_negative_cache_law(s: AstralStore, id: Uid)
    requires
        has_lyrics_row(s, id),
    ensures
        !lyrics_fetch_needed(s, id),
{
}

/// The cache-first step of lyrics resolution: a cached payload is answered
/// directly; otherwise the provider hints — title, first linked artist, first
/// linked album — are produced for an external fetch.
pub fn get_lyrics_step(store: &AstralStore, track_id: Uid) -> (r: Result<LyricsAction, AstralError>)
    requires
        wf(*store),
    ensures
        (r matches Err(e) && e is NotFound) <==> (lyrics_fetch_needed(*store, track_id)
            && !has_track_id(*store, track_id)),
        !lyrics_fetch_needed(*store, track_id) ==> (r matches Ok(a) && a is Respond),
        (r matches Ok(a) && a is FetchExternal) ==> lyrics_fetch_needed(*store, track_id),
        forall|i: int|
            0 <= i < store.lyrics@.len() && (#[trigger] store.lyrics@[i]).track_id == track_id ==> (
            r matches Ok(a) && (a matches LyricsAction::Respond(st) ==> lyrics_equiv(
                st,
                store.lyrics@[i].status,
            ))),
        (lyrics_fetch_needed(*store, track_id) && has_track_id(*store, track_id)) ==> (
        r matches Ok(a) && a is FetchExternal),
        forall|ti: int|
            0 <= ti < store.tracks@.len() && (#[trigger] store.tracks@[ti]).track_id == track_id
                ==> (r matches Ok(a) ==> (a matches LyricsAction::FetchExternal {
                title,
                artist,
                album,
            } ==> {
                &&& title@ == store.tracks@[ti].name@
                &&& ((exists|ai: int|
                    0 <= ai < store.artists@.len() && store.tracks@[ti].artists@.contains(
                        (#[trigger] store.artists@[ai]).artist_id,
                    )) ==> exists|ai: int|
                    0 <= ai < store.artists@.len() && store.tracks@[ti].artists@.contains(
                        (#[trigger] store.artists@[ai]).artist_id,
                    ) && store.artists@[ai].name@ == artist@)
                &&& ((forall|ai: int|
                    0 <= ai < store.artists@.len() ==> !store.tracks@[ti].artists@.contains(
                        (#[trigger] store.artists@[ai]).artist_id,
                    )) ==> artist@.len() == 0)
                &&& ((exists|bi: int|
                    0 <= bi < store.albums@.len() && store.tracks@[ti].albums@.contains(
                        (#[trigger] store.albums@[bi]).album_id,
                    )) ==> exists|bi: int|
                    0 <= bi < store.albums@.len() && store.tracks@[ti].albums@.contains(
                        (#[trigger] store.albums@[bi]).album_id,
                    ) && store.albums@[bi].name@ == album@)
                &&& ((forall|bi: int|
                    0 <= bi < store.albums@.len() ==> !store.tracks@[ti].albums@.contains(
                        (#[trigger] store.albums@[bi]).album_id,
                    )) ==> album@.len() == 0)
            })),
{
    if let Some(li) = store.index_of_lyrics(track_id) {
        proof {
            assert(has_lyrics_row(*store, track_id)) by {
                assert(store.lyrics@[li as int].track_id == track_id);
            }
        }
        let st = store.lyrics[li].status.duplicate();
        proof {
            assert forall|i: int|
                0 <= i < store.lyrics@.len() && (#[trigger] store.lyrics@[i]).track_id == track_id
                    implies lyrics_equiv(st, store.lyrics@[i].status) by {
                if i != li {
                    assert(store.lyrics@[i].track_id != store.lyrics@[li as int].track_id);
                }
            }
        }
        return Ok(LyricsAction::Respond(st));
    }
    let ti = match store.index_of_track(track_id) {
        Some(i) => i,
        None => {
            return Err(
                AstralError::NotFound(String::from_str("Could not find a track with this UUID")),
            );
        },
    };
    // the first artist and album linked to the track, by collection order
    let artist = first_artist_name(store, ti);
    let album = first_album_name(store, ti);
    proof {
        assert(store.tracks@[ti as int].track_id == track_id);
        assert(has_track_id(*store, track_id));
        assert forall|tj: int|
            0 <= tj < store.tracks@.len() && (#[trigger] store.tracks@[tj]).track_id == track_id
                implies tj == ti as int by {
            if tj != ti as int {
                assert(store.tracks@[tj].track_id != store.tracks@[ti as int].track_id);
            }
        }
    }
    Ok(LyricsAction::FetchExternal { title: store.tracks[ti].name.clone(), artist, album })
}

/// The name of the first album linked to the track at `ti`, or empty.
fn first_album_name(store: &AstralStore, ti: usize) -> (r: String)
    requires
        ti < store.tracks@.len(),
    ensures
        (exists|bi: int|
            0 <= bi < store.albums@.len() && store.tracks@[ti as int].albums@.contains(
                (#[trigger] store.albums@[bi]).album_id,
            )) ==> exists|bi: int|
            0 <= bi < store.albums@.len() && store.tracks@[ti as int].albums@.contains(
                (#[trigger] store.albums@[bi]).album_id,
            ) && store.albums@[bi].name@ == r@,
        (forall|bi: int|
            0 <= bi < store.albums@.len() ==> !store.tracks@[ti as int].albums@.contains(
                (#[trigger] store.albums@[bi]).album_id,
            )) ==> r@.len() == 0,
{
    let mut bi: usize = 0;
    while bi < store.albums.len()
        invariant
            bi <= store.albums@.len(),
            ti < store.tracks@.len(),
            forall|j: int|
                0 <= j < bi ==> !store.tracks@[ti as int].albums@.contains(
                    (#[trigger] store.albums@[j]).album_id,
                ),
        decreases store.albums@.len() - bi,
    {
        if crate::store::contains_uid(&store.tracks[ti].albums, store.albums[bi].album_id) {
            return store.albums[bi].name.clone();
        }
        bi += 1;
    }
    String::new()
}

/// The name of the first artist linked to the track at `ti`, or empty.
fn first_artist_name(store: &AstralStore, ti: usize) -> (r: String)
    requires
        ti < store.tracks@.len(),
    ensures
        (exists|ai: int|
            0 <= ai < store.artists@.len() && store.tracks@[ti as int].artists@.contains(
                (#[trigger] store.artists@[ai]).artist_id,
            )) ==> exists|ai: int|
            0 <= ai < store.artists@.len() && store.tracks@[ti as int].artists@.contains(
                (#[trigger] store.artists@[ai]).artist_id,
            ) && store.artists@[ai].name@ == r@,
        (forall|ai: int|
            0 <= ai < store.artists@.len() ==> !store.tracks@[ti as int].artists@.contains(
                (#[trigger] store.artists@[ai]).artist_id,
            )) ==> r@.len() == 0,
{
    let mut ai: usize = 0;
    while ai < store.artists.len()
        invariant
            ai <= store.artists@.len(),
            ti < store.tracks@.len(),
            forall|j: int|
                0 <= j < ai ==> !store.tracks@[ti as int].artists@.contains(
                    (#[trigger] store.artists@[j]).artist_id,
                ),
        decreases store.artists@.len() - ai,
    {
        if crate::store::contains_uid(&store.tracks[ti].artists, store.artists[ai].artist_id) {
            return store.artists[ai].name.clone();
        }
        ai += 1;
    }
    String::new()
}

/// Caches a resolution outcome for a track. Used at most once per track: a
/// second resolution is answered from the cache.
pub fn get_lyrics_complete(store: &mut AstralStore, track_id: Uid, status: LyricsStatus)
    requires
        wf(*old(store)),
        dedup_keys_unique(*old(store)),
        has_track_id(*old(store), track_id),
        !has_lyrics_row(*old(store), track_id),
    ensures
        wf(*final(store)),
        dedup_keys_unique(*final(store)),
        final(store).tracks == old(store).tracks,
        final(store).artists == old(store).artists,
        final(store).albums == old(store).albums,
        final(store).undefined_tracks == old(store).undefined_tracks,
        final(store).id_seed == old(store).id_seed,
        final(store).lyrics@.len() == old(store).lyrics@.len() + 1,
        forall|i: int|
            0 <= i < old(store).lyrics@.len() ==> final(store).lyrics@[i] == old(store).lyrics@[i],
        final(store).lyrics@[old(store).lyrics@.len() as int].track_id == track_id,
        final(store).lyrics@[old(store).lyrics@.len() as int].status == status,
        has_lyrics_row(*final(store), track_id),
        !lyrics_fetch_needed(*final(store), track_id),
{
    let ghost s0 = *store;
    let ghost n = store.lyrics@.len() as int;
    store.lyrics.push(TrackLyrics { track_id, status });
    proof {
        let s2 = *store;
        assert(s2.lyrics@[n].track_id == track_id);
        assert(has_lyrics_row(s2, track_id));
        assert(wf(s2)) by {
            assert(s2.tracks == s0.tracks && s2.artists == s0.artists && s2.albums == s0.albums
                && s2.undefined_tracks == s0.undefined_tracks && s2.id_seed == s0.id_seed);
            assert(crate::store::unique_track_ids(s2)) by {
                assert(crate::store::unique_track_ids(s0));
            }
            assert(crate::store::unique_artist_ids(s2)) by {
                assert(crate::store::unique_artist_ids(s0));
            }
            assert(crate::store::unique_album_ids(s2)) by {
                assert(crate::store::unique_album_ids(s0));
            }
            assert(crate::store::unique_undefined(s2)) by {
                assert(crate::store::unique_undefined(s0));
            }
            assert(crate::store::track_artist_refs(s2)) by {
                assert forall|ti: int, x: crate::model::Uid|
                    0 <= ti < s2.tracks@.len() && #[trigger] s2.tracks@[ti].artists@.contains(x)
                        implies has_artist_id(s2, x) by {
                    assert(has_artist_id(s0, x));
                }
            }
            assert(crate::store::track_album_refs(s2)) by {
                assert forall|ti: int, x: crate::model::Uid|
                    0 <= ti < s2.tracks@.len() && #[trigger] s2.tracks@[ti].albums@.contains(x)
                        implies crate::store::has_album_id(s2, x) by {
                    assert(crate::store::has_album_id(s0, x));
                }
            }
            assert(crate::store::album_artist_refs(s2)) by {
                assert forall|bi: int, x: crate::model::Uid|
                    0 <= bi < s2.albums@.len() && #[trigger] s2.albums@[bi].artists@.contains(x)
                        implies has_artist_id(s2, x) by {
                    assert(has_artist_id(s0, x));
                }
            }
            assert(crate::store::album_track_refs(s2)) by {
                assert forall|bi: int, x: crate::model::Uid|
                    0 <= bi < s2.albums@.len() && #[trigger] s2.albums@[bi].tracks@.contains(x)
                        implies has_track_id(s2, x) by {
                    assert(has_track_id(s0, x));
                }
            }
            assert(crate::store::artist_album_refs(s2)) by {
                assert forall|ai: int, x: crate::model::Uid|
                    0 <= ai < s2.artists@.len() && #[trigger] s2.artists@[ai].albums@.contains(x)
                        implies crate::store::has_album_id(s2, x) by {
                    assert(crate::store::has_album_id(s0, x));
                }
            }
            assert(crate::store::artist_track_refs(s2)) by {
                assert forall|ai: int, x: crate::model::Uid|
                    0 <= ai < s2.artists@.len() && #[trigger] s2.artists@[ai].tracks@.contains(x)
                        implies has_track_id(s2, x) by {
                    assert(has_track_id(s0, x));
                }
            }
            assert(crate::store::track_album_sync(s2)) by {
                assert(crate::store::track_album_sync(s0));
            }
            assert(crate::store::track_artist_sync(s2)) by {
                assert(crate::store::track_artist_sync(s0));
            }
            assert(crate::store::album_artist_sync(s2)) by {
                assert(crate::store::album_artist_sync(s0));
            }
            assert(crate::store::ids_bounded(s2)) by {
                assert(crate::store::ids_bounded(s0));
            }
            assert forall|i: int, j: int|
                0 <= i < j < s2.lyrics@.len() implies (#[trigger] s2.lyrics@[i]).track_id != (
            #[trigger] s2.lyrics@[j]).track_id by {
                if j == n {
                    assert(s2.lyrics@[i] == s0.lyrics@[i]);
                    if s2.lyrics@[i].track_id == track_id {
                        assert(has_lyrics_row(s0, track_id)) by {
                            assert(s0.lyrics@[i].track_id == track_id);
                        }
                    }
                } else {
                    assert(s2.lyrics@[i] == s0.lyrics@[i]);
                    assert(s2.lyrics@[j] == s0.lyrics@[j]);
                }
            }
            assert forall|li: int|
                0 <= li < s2.lyrics@.len() implies has_track_id(
                s2,
                (#[trigger] s2.lyrics@[li]).track_id,
            ) by {
                if li < n {
                    assert(s2.lyrics@[li] == s0.lyrics@[li]);
                    assert(has_track_id(s0, s2.lyrics@[li].track_id));
                } else {
                    let w = choose|w: int|
                        0 <= w < s0.tracks@.len() && (#[trigger] s0.tracks@[w]).track_id
                            == track_id;
                    assert(s2.tracks@[w].track_id == track_id);
                }
            }
            assert forall|ui: int| 0 <= ui < s2.undefined_tracks@.len() implies {
                let id = (#[trigger] s2.undefined_tracks@[ui]).track_id;
                &&& !has_track_id(s2, id)
                &&& !has_artist_id(s2, id)
                &&& !crate::store::has_album_id(s2, id)
                &&& !has_lyrics_row(s2, id)
            } by {
                assert(s2.undefined_tracks@[ui] == s0.undefined_tracks@[ui]);
                let id = s2.undefined_tracks@[ui].track_id;
                assert(id != track_id) by {
                    if id == track_id {
                        assert(has_track_id(s0, track_id));
                    }
                }
                if has_lyrics_row(s2, id) {
                    let li = choose|li: int|
                        0 <= li < s2.lyrics@.len() && (#[trigger] s2.lyrics@[li]).track_id == id;
                    if li < n {
                        assert(s0.lyrics@[li].track_id == id);
                        assert(has_lyrics_row(s0, id));
                    }
                }
            }
        }
    }
}

} // verus!
