//! Read-side joins: assembling full and minified metadata responses from the
//! store's records. Free-text search and result ordering belong to the
//! metadata store's own query capability and stay outside the library.
use vstd::prelude::*;

verus! {

use crate::error::AstralError;
use crate::model::{
    AlbumMetadata, ArtistMetadata, TrackFormat, TrackMetadata, Uid, UserAccount,
};
use crate::store::{contains_uid, has_album_id, has_artist_id, has_track_id, wf, AstralStore};
use crate::text::string_views;

/// Minified artist metadata.
#[derive(Clone, Debug)]
pub struct MinifiedArtistMetadata {
    /// Identifier of the artist.
    pub artist_id: Uid,
    /// Name of the artist.
    pub artist_name: String,
    /// Albums by this artist.
    pub album_ids: Vec<Uid>,
    /// Genres in this artist's discography.
    pub genres: Vec<String>,
}

/// Minified album metadata.
#[derive(Clone, Debug)]
pub struct MinifiedAlbumMetadata {
    /// Identifier of the album.
    pub album_id: Uid,
    /// Name of the album.
    pub album_name: String,
    /// Artists who made the album.
    pub artist_ids: Vec<Uid>,
    /// Tracks inside the album.
    pub track_ids: Vec<Uid>,
    /// Milliseconds unix timestamp of the release date.
    pub release_date: u64,
    /// Most prominent genres of the album.
    pub genres: Vec<String>,
}

/// Minified track metadata.
#[derive(Clone, Debug)]
pub struct MinifiedTrackMetadata {
    /// Identifier of the track.
    pub track_id: Uid,
    /// Name of the track.
    pub track_name: String,
    /// Duration of the track in seconds.
    pub track_length: u32,
    /// Artists who made the track.
    pub artist_ids: Vec<Uid>,
    /// Albums the track appears in.
    pub album_ids: Vec<Uid>,
    /// Container format of the track.
    pub format: TrackFormat,
    /// Positional number of the track.
    pub number: u16,
    /// Disc number of the track.
    pub disc_number: u16,
    /// Whether the track contains explicit lyrics.
    pub is_explicit: bool,
    /// Whether the requesting user loves the track.
    pub is_loved: bool,
}

/// Full aggregated track metadata.
#[derive(Clone, Debug)]
pub struct FullTrackMetadata {
    /// Name of the track.
    pub track_name: String,
    /// Duration of the track in seconds.
    pub track_length: u32,
    /// Minified metadata of the track's artists.
    pub artists: Vec<MinifiedArtistMetadata>,
    /// Minified metadata of the track's albums.
    pub albums: Vec<MinifiedAlbumMetadata>,
    /// Whether the track contains explicit lyrics.
    pub is_explicit: bool,
    /// Container format of the track.
    pub format: TrackFormat,
    /// Positional number of the track.
    pub number: u16,
    /// Disc number of the track.
    pub disc_number: u16,
}

/// Full aggregated album metadata.
#[derive(Clone, Debug)]
pub struct FullAlbumMetadata {
    /// Name of the album.
    pub album_name: String,
    /// Minified metadata of the album's artists.
    pub artists: Vec<MinifiedArtistMetadata>,
    /// Minified metadata of the album's tracks.
    pub tracks: Vec<MinifiedTrackMetadata>,
    /// Milliseconds unix timestamp of the release date.
    pub release_date: u64,
    /// Most prominent genres of the album.
    pub genres: Vec<String>,
}

/// Full aggregated artist metadata.
#[derive(Clone, Debug)]
pub struct FullArtistMetadata {
    /// Name of the artist.
    pub artist_name: String,
    /// Minified metadata of the artist's albums.
    pub albums: Vec<MinifiedAlbumMetadata>,
    /// Genres in this artist's discography.
    pub genres: Vec<String>,
    /// Description of the artist.
    pub about_artist: String,
    /// All tracks by this artist.
    pub tracks: Vec<Uid>,
}

/// A single indexed artist entry.
#[derive(Clone, Debug)]
pub struct IndexedArtist {
    /// Identifier of the artist.
    pub id: Uid,
    /// Name of the artist.
    pub name: String,
}

/// A single indexed album entry.
#[derive(Clone, Debug)]
pub struct IndexedAlbum {
    /// Identifier of the album.
    pub id: Uid,
    /// Name of the album.
    pub name: String,
    /// Artist identifier and name pairs.
    pub artists: Vec<(Uid, String)>,
    /// Tracks inside the album.
    pub tracks: Vec<Uid>,
    /// Milliseconds unix timestamp of the release date.
    pub release_date: u64,
    /// Most prominent genres of the album.
    pub genres: Vec<String>,
    /// Whether the requesting user loves the album.
    pub loved: bool,
}

/// A single indexed track entry.
#[derive(Clone, Debug)]
pub struct IndexedTrack {
    /// Identifier of the track.
    pub id: Uid,
    /// Name of the track.
    pub name: String,
    /// Identifier of the track's first album.
    pub album_id: Uid,
    /// Name of the track's first album.
    pub album_name: String,
    /// Artist identifier and name pairs.
    pub artists: Vec<(Uid, String)>,
    /// Duration of the track in seconds.
    pub duration: u32,
    /// Container format of the track.
    pub format: TrackFormat,
    /// Whether the requesting user loves the track.
    pub loved: bool,
}

/// The artist records whose identifiers occur in `ids`, in collection order.
pub open spec fn selected_artists(arts: Seq<ArtistMetadata>, ids: Seq<Uid>) -> Seq<ArtistMetadata>
    decreases arts.len(),
{
    if arts.len() == 0 {
        Seq::empty()
    } else {
        selected_artists(arts.take(arts.len() - 1), ids) + (if ids.contains(
            arts[arts.len() - 1].artist_id,
        ) {
            seq![arts[arts.len() - 1]]
        } else {
            Seq::empty()
        })
    }
}

/// The album records whose identifiers occur in `ids`, in collection order.
pub open spec fn selected_albums(albs: Seq<AlbumMetadata>, ids: Seq<Uid>) -> Seq<AlbumMetadata>
    decreases albs.len(),
{
    if albs.len() == 0 {
        Seq::empty()
    } else {
        selected_albums(albs.take(albs.len() - 1), ids) + (if ids.contains(
            albs[albs.len() - 1].album_id,
        ) {
            seq![albs[albs.len() - 1]]
        } else {
            Seq::empty()
        })
    }
}

/// The track records whose identifiers occur in `ids`, in collection order.
pub open spec fn selected_tracks(trks: Seq<TrackMetadata>, ids: Seq<Uid>) -> Seq<TrackMetadata>
    decreases trks.len(),
{
    if trks.len() == 0 {
        Seq::empty()
    } else {
        selected_tracks(trks.take(trks.len() - 1), ids) + (if ids.contains(
            trks[trks.len() - 1].track_id,
        ) {
            seq![trks[trks.len() - 1]]
        } else {
            Seq::empty()
        })
    }
}

/// The genre names of a genre histogram.
pub open spec fn genre_keys(genres: Seq<(String, u32)>) -> Seq<Seq<char>> {
    genres.map_values(|p: (String, u32)| p.0@)
}

/// A copy of an identifier list.
fn copy_uids(v: &Vec<Uid>) -> (r: Vec<Uid>)
    ensures
        r@ == v@,
{
    let mut out: Vec<Uid> = Vec::new();
    let mut i: usize = 0;
    while i < v.len()
        invariant
            i <= v@.len(),
            out@ =~= v@.take(i as int),
        decreases v@.len() - i,
    {
        out.push(v[i]);
        proof {
            assert(out@ =~= v@.take(i + 1int));
        }
        i += 1;
    }
    proof {
        assert(v@.take(v@.len() as int) =~= v@);
    }
    out
}

/// A content copy of a string list.
fn copy_strings(v: &Vec<String>) -> (r: Vec<String>)
    ensures
        r@.len() == v@.len(),
        forall|i: int| 0 <= i < v@.len() ==> (#[trigger] r@[i])@ == v@[i]@,
{
    let mut out: Vec<String> = Vec::new();
    let mut i: usize = 0;
    while i < v.len()
        invariant
            i <= v@.len(),
            out@.len() == i,
            forall|j: int| 0 <= j < i ==> (#[trigger] out@[j])@ == v@[j]@,
        decreases v@.len() - i,
    {
        out.push(v[i].clone());
        i += 1;
    }
    out
}

/// The genre names of a histogram, as strings.
fn genre_names(genres: &Vec<(String, u32)>) -> (r: Vec<String>)
    ensures
        string_views(r@) =~~= genre_keys(genres@),
{
    let mut out: Vec<String> = Vec::new();
    let mut i: usize = 0;
    while i < genres.len()
        invariant
            i <= genres@.len(),
            out@.len() == i,
            forall|j: int| 0 <= j < i ==> (#[trigger] out@[j])@ == genres@[j].0@,
        decreases genres@.len() - i,
    {
        out.push(genres[i].0.clone());
        i += 1;
    }
    out
}

/// Whether a minified artist record is the projection of an artist record.
pub open spec fn minified_artist_of(m: MinifiedArtistMetadata, a: ArtistMetadata) -> bool {
    &&& m.artist_id == a.artist_id
    &&& m.artist_name@ == a.name@
    &&& m.album_ids@ == a.albums@
    &&& string_views(m.genres@) =~~= genre_keys(a.genres@)
}

/// Minified metadata of the artists named in `ids`, in collection order.
pub fn extract_minified_artists(store: &AstralStore, ids: &Vec<Uid>) -> (r: Vec<
    MinifiedArtistMetadata,
>)
    ensures
        r@.len() == selected_artists(store.artists@, ids@).len(),
        forall|k: int|
            0 <= k < r@.len() ==> minified_artist_of(
                #[trigger] r@[k],
                selected_artists(store.artists@, ids@)[k],
            ),
{
    let ghost sel = selected_artists(store.artists@, ids@);
    let mut out: Vec<MinifiedArtistMetadata> = Vec::new();
    let mut i: usize = 0;
    proof {
        assert(store.artists@.take(0) =~= Seq::<ArtistMetadata>::empty());
    }
    while i < store.artists.len()
        invariant
            i <= store.artists@.len(),
            out@.len() == selected_artists(store.artists@.take(i as int), ids@).len(),
            forall|k: int|
                0 <= k < out@.len() ==> minified_artist_of(
                    #[trigger] out@[k],
                    selected_artists(store.artists@.take(i as int), ids@)[k],
                ),
        decreases store.artists@.len() - i,
    {
        let ghost pre = out@;
        if contains_uid(ids, store.artists[i].artist_id) {
            let a = &store.artists[i];
            out.push(
                MinifiedArtistMetadata {
                    artist_id: a.artist_id,
                    artist_name: a.name.clone(),
                    album_ids: copy_uids(&a.albums),
                    genres: genre_names(&a.genres),
                },
            );
        }
        proof {
            let t = store.artists@.take(i + 1int);
            assert(t.take(t.len() - 1) =~= store.artists@.take(i as int));
            assert(t[t.len() - 1] == store.artists@[i as int]);
        }
        i += 1;
    }
    proof {
        assert(store.artists@.take(store.artists@.len() as int) =~= store.artists@);
    }
    out
}

/// Whether a minified album record is the projection of an album record.
pub open spec fn minified_album_of(m: MinifiedAlbumMetadata, b: AlbumMetadata) -> bool {
    &&& m.album_id == b.album_id
    &&& m.album_name@ == b.name@
    &&& m.artist_ids@ == b.artists@
    &&& m.track_ids@ == b.tracks@
    &&& m.release_date == b.release_date
    &&& m.genres@.len() == b.genres@.len()
    &&& forall|i: int| 0 <= i < b.genres@.len() ==> (#[trigger] m.genres@[i])@ == b.genres@[i]@
}

/// Minified metadata of the albums named in `ids`, in collection order.
pub fn extract_minified_albums(store: &AstralStore, ids: &Vec<Uid>) -> (r: Vec<
    MinifiedAlbumMetadata,
>)
    ensures
        r@.len() == selected_albums(store.albums@, ids@).len(),
        forall|k: int|
            0 <= k < r@.len() ==> minified_album_of(
                #[trigger] r@[k],
                selected_albums(store.albums@, ids@)[k],
            ),
{
    let mut out: Vec<MinifiedAlbumMetadata> = Vec::new();
    let mut i: usize = 0;
    proof {
        assert(store.albums@.take(0) =~= Seq::<AlbumMetadata>::empty());
    }
    while i < store.albums.len()
        invariant
            i <= store.albums@.len(),
            out@.len() == selected_albums(store.albums@.take(i as int), ids@).len(),
            forall|k: int|
                0 <= k < out@.len() ==> minified_album_of(
                    #[trigger] out@[k],
                    selected_albums(store.albums@.take(i as int), ids@)[k],
                ),
        decreases store.albums@.len() - i,
    {
        if contains_uid(ids, store.albums[i].album_id) {
            let b = &store.albums[i];
            out.push(
                MinifiedAlbumMetadata {
                    album_id: b.album_id,
                    album_name: b.name.clone(),
                    artist_ids: copy_uids(&b.artists),
                    track_ids: copy_uids(&b.tracks),
                    release_date: b.release_date,
                    genres: copy_strings(&b.genres),
                },
            );
        }
        proof {
            let t = store.albums@.take(i + 1int);
            assert(t.take(t.len() - 1) =~= store.albums@.take(i as int));
            assert(t[t.len() - 1] == store.albums@[i as int]);
        }
        i += 1;
    }
    proof {
        assert(store.albums@.take(store.albums@.len() as int) =~= store.albums@);
    }
    out
}

/// Whether a minified track record is the projection of a track record for
/// the requesting user.
pub open spec fn minified_track_of(
    m: MinifiedTrackMetadata,
    t: TrackMetadata,
    user: UserAccount,
) -> bool {
    &&& m.track_id == t.track_id
    &&& m.track_name@ == t.name@
    &&& m.track_length == t.length
    &&& m.artist_ids@ == t.artists@
    &&& m.album_ids@ == t.albums@
    &&& m.format == t.format
    &&& m.number == t.number
    &&& m.disc_number == t.disc_number
    &&& m.is_explicit == t.is_explicit
    &&& m.is_loved == user.loved_tracks@.contains(t.track_id)
}

/// Minified metadata of the tracks named in `ids`, in collection order.
pub fn extract_minified_tracks(store: &AstralStore, ids: &Vec<Uid>, user: &UserAccount) -> (r: Vec<
    MinifiedTrackMetadata,
>)
    ensures
        r@.len() == selected_tracks(store.tracks@, ids@).len(),
        forall|k: int|
            0 <= k < r@.len() ==> minified_track_of(
                #[trigger] r@[k],
                selected_tracks(store.tracks@, ids@)[k],
                *user,
            ),
{
    let mut out: Vec<MinifiedTrackMetadata> = Vec::new();
    let mut i: usize = 0;
    proof {
        assert(store.tracks@.take(0) =~= Seq::<TrackMetadata>::empty());
    }
    while i < store.tracks.len()
        invariant
            i <= store.tracks@.len(),
            out@.len() == selected_tracks(store.tracks@.take(i as int), ids@).len(),
            forall|k: int|
                0 <= k < out@.len() ==> minified_track_of(
                    #[trigger] out@[k],
                    selected_tracks(store.tracks@.take(i as int), ids@)[k],
                    *user,
                ),
        decreases store.tracks@.len() - i,
    {
        if contains_uid(ids, store.tracks[i].track_id) {
            let t = &store.tracks[i];
            let is_loved = contains_uid(&user.loved_tracks, t.track_id);
            out.push(
                MinifiedTrackMetadata {
                    track_id: t.track_id,
                    track_name: t.name.clone(),
                    track_length: t.length,
                    artist_ids: copy_uids(&t.artists),
                    album_ids: copy_uids(&t.albums),
                    format: t.format,
                    number: t.number,
                    disc_number: t.disc_number,
                    is_explicit: t.is_explicit,
                    is_loved,
                },
            );
        }
        proof {
            let t2 = store.tracks@.take(i + 1int);
            assert(t2.take(t2.len() - 1) =~= store.tracks@.take(i as int));
            assert(t2[t2.len() - 1] == store.tracks@[i as int]);
        }
        i += 1;
    }
    proof {
        assert(store.tracks@.take(store.tracks@.len() as int) =~= store.tracks@);
    }
    out
}

/// Full metadata of a track: its record joined with the minified records of
/// its artists and albums.
pub fn extract_track_metadata(store: &AstralStore, track_id: Uid) -> (r: Result<
    FullTrackMetadata,
    AstralError,
>)
    requires
        wf(*store),
    ensures
        r is Err <==> !has_track_id(*store, track_id),
        r matches Err(e) ==> e is NotFound,
        forall|ti: int|
            0 <= ti < store.tracks@.len() && (#[trigger] store.tracks@[ti]).track_id == track_id
                ==> (r matches Ok(out) ==> {
                &&& out.track_name@ == store.tracks@[ti].name@
                &&& out.track_length == store.tracks@[ti].length
                &&& out.is_explicit == store.tracks@[ti].is_explicit
                &&& out.format == store.tracks@[ti].format
                &&& out.number == store.tracks@[ti].number
                &&& out.disc_number == store.tracks@[ti].disc_number
                &&& out.artists@.len() == selected_artists(
                    store.artists@,
                    store.tracks@[ti].artists@,
                ).len()
                &&& forall|k: int|
                    0 <= k < out.artists@.len() ==> minified_artist_of(
                        #[trigger] out.artists@[k],
                        selected_artists(store.artists@, store.tracks@[ti].artists@)[k],
                    )
                &&& out.albums@.len() == selected_albums(
                    store.albums@,
                    store.tracks@[ti].albums@,
                ).len()
                &&& forall|k: int|
                    0 <= k < out.albums@.len() ==> minified_album_of(
                        #[trigger] out.albums@[k],
                        selected_albums(store.albums@, store.tracks@[ti].albums@)[k],
                    )
            }),
{
    let ti = match store.index_of_track(track_id) {
        Some(i) => {
            proof {
                assert(has_track_id(*store, track_id)) by {
                    assert(store.tracks@[i as int].track_id == track_id);
                }
            }
            i
        },
        None => {
            return Err(
                AstralError::NotFound(String::from_str("Could not find a track with this UUID")),
            );
        },
    };
    let t = &store.tracks[ti];
    let artists = extract_minified_artists(store, &t.artists);
    let albums = extract_minified_albums(store, &t.albums);
    proof {
        assert forall|tj: int|
            0 <= tj < store.tracks@.len() && (#[trigger] store.tracks@[tj]).track_id == track_id
                implies store.tracks@[tj] == store.tracks@[ti as int] by {
            if tj != ti as int {
                assert(store.tracks@[tj].track_id != store.tracks@[ti as int].track_id);
            }
        }
    }
    Ok(
        FullTrackMetadata {
            track_name: t.name.clone(),
            track_length: t.length,
            artists,
            albums,
            is_explicit: t.is_explicit,
            format: t.format,
            number: t.number,
            disc_number: t.disc_number,
        },
    )
}

/// Full metadata of an album: its record joined with the minified records of
/// its artists and tracks.
pub fn extract_album_metadata(store: &AstralStore, album_id: Uid, user: &UserAccount) -> (r: Result<
    FullAlbumMetadata,
    AstralError,
>)
    requires
        wf(*store),
    ensures
        r is Err <==> !has_album_id(*store, album_id),
        r matches Err(e) ==> e is NotFound,
        forall|bi: int|
            0 <= bi < store.albums@.len() && (#[trigger] store.albums@[bi]).album_id == album_id
                ==> (r matches Ok(out) ==> {
                &&& out.album_name@ == store.albums@[bi].name@
                &&& out.release_date == store.albums@[bi].release_date
                &&& out.artists@.len() == selected_artists(
                    store.artists@,
                    store.albums@[bi].artists@,
                ).len()
                &&& forall|k: int|
                    0 <= k < out.artists@.len() ==> minified_artist_of(
                        #[trigger] out.artists@[k],
                        selected_artists(store.artists@, store.albums@[bi].artists@)[k],
                    )
                &&& out.tracks@.len() == selected_tracks(
                    store.tracks@,
                    store.albums@[bi].tracks@,
                ).len()
                &&& forall|k: int|
                    0 <= k < out.tracks@.len() ==> minified_track_of(
                        #[trigger] out.tracks@[k],
                        selected_tracks(store.tracks@, store.albums@[bi].tracks@)[k],
                        *user,
                    )
                &&& out.genres@.len() == store.albums@[bi].genres@.len()
                &&& forall|k: int|
                    0 <= k < out.genres@.len() ==> (#[trigger] out.genres@[k])@
                        == store.albums@[bi].genres@[k]@
            }),
{
    let bi = match store.index_of_album(album_id) {
        Some(i) => {
            proof {
                assert(has_album_id(*store, album_id)) by {
                    assert(store.albums@[i as int].album_id == album_id);
                }
            }
            i
        },
        None => {
            return Err(
                AstralError::NotFound(String::from_str("Could not find an album with this UUID")),
            );
        },
    };
    let b = &store.albums[bi];
    let artists = extract_minified_artists(store, &b.artists);
    let tracks = extract_minified_tracks(store, &b.tracks, user);
    proof {
        assert forall|bj: int|
            0 <= bj < store.albums@.len() && (#[trigger] store.albums@[bj]).album_id == album_id
                implies store.albums@[bj] == store.albums@[bi as int] by {
            if bj != bi as int {
                assert(store.albums@[bj].album_id != store.albums@[bi as int].album_id);
            }
        }
    }
    Ok(
        FullAlbumMetadata {
            album_name: b.name.clone(),
            artists,
            tracks,
            release_date: b.release_date,
            genres: copy_strings(&b.genres),
        },
    )
}

/// Full metadata of an artist: its record joined with the minified records
/// of its albums.
pub fn extract_artist_metadata(store: &AstralStore, artist_id: Uid) -> (r: Result<
    FullArtistMetadata,
    AstralError,
>)
    requires
        wf(*store),
    ensures
        r is Err <==> !has_artist_id(*store, artist_id),
        r matches Err(e) ==> e is NotFound,
        forall|ai: int|
            0 <= ai < store.artists@.len() && (#[trigger] store.artists@[ai]).artist_id == artist_id
                ==> (r matches Ok(out) ==> {
                &&& out.artist_name@ == store.artists@[ai].name@
                &&& out.about_artist@ == store.artists@[ai].about@
                &&& out.tracks@ == store.artists@[ai].tracks@
                &&& string_views(out.genres@) =~~= genre_keys(store.artists@[ai].genres@)
                &&& out.albums@.len() == selected_albums(
                    store.albums@,
                    store.artists@[ai].albums@,
                ).len()
                &&& forall|k: int|
                    0 <= k < out.albums@.len() ==> minified_album_of(
                        #[trigger] out.albums@[k],
                        selected_albums(store.albums@, store.artists@[ai].albums@)[k],
                    )
            }),
{
    let ai = match store.index_of_artist(artist_id) {
        Some(i) => {
            proof {
                assert(has_artist_id(*store, artist_id)) by {
                    assert(store.artists@[i as int].artist_id == artist_id);
                }
            }
            i
        },
        None => {
            return Err(
                AstralError::NotFound(String::from_str("Could not find an artist with this UUID")),
            );
        },
    };
    let a = &store.artists[ai];
    let albums = extract_minified_albums(store, &a.albums);
    proof {
        assert forall|aj: int|
            0 <= aj < store.artists@.len() && (#[trigger] store.artists@[aj]).artist_id == artist_id
                implies store.artists@[aj] == store.artists@[ai as int] by {
            if aj != ai as int {
                assert(store.artists@[aj].artist_id != store.artists@[ai as int].artist_id);
            }
        }
    }
    Ok(
        FullArtistMetadata {
            artist_name: a.name.clone(),
            albums,
            genres: genre_names(&a.genres),
            about_artist: a.about.clone(),
            tracks: copy_uids(&a.tracks),
        },
    )
}

/// Example album identifiers, as shown in the service documentation.
pub fn example_album_ids() -> (r: [&'static str; 2])
    ensures
        r@[0]@ == "d156b05e-3270-4f03-bf82-1b89003c2d76"@,
        r@[1]@ == "1b2c7662-8fa8-4511-acb1-823e52c4241a"@,
{
    ["d156b05e-3270-4f03-bf82-1b89003c2d76", "1b2c7662-8fa8-4511-acb1-823e52c4241a"]
}

/// An example artist identifier, as shown in the service documentation.
pub fn example_artist_ids() -> (r: [&'static str; 1])
    ensures
        r@[0]@ == "19991d5d-f70f-4c8f-b009-666df17b30d9"@,
{
    ["19991d5d-f70f-4c8f-b009-666df17b30d9"]
}

/// Example genres, as shown in the service documentation.
pub fn example_genres() -> (r: [&'static str; 3])
    ensures
        r@[0]@ == "experimental rock"@,
        r@[1]@ == "punk"@,
        r@[2]@ == "art punk"@,
{
    ["experimental rock", "punk", "art punk"]
}

/// Example track identifiers, as shown in the service documentation.
pub fn example_track_ids() -> (r: [&'static str; 4])
    ensures
        r@[0]@ == "232b0017-6abb-6a86-185d-bcd4d1499a68"@,
        r@[1]@ == "6706d235-cf9c-11f3-d450-c0c277baa1dd"@,
        r@[2]@ == "760cb692-c2b5-4727-3a9c-eebb834854d4"@,
        r@[3]@ == "591d1da3-b756-6f2b-84a4-49243ce8a413"@,
{
    [
        "232b0017-6abb-6a86-185d-bcd4d1499a68",
        "6706d235-cf9c-11f3-d450-c0c277baa1dd",
        "760cb692-c2b5-4727-3a9c-eebb834854d4",
        "591d1da3-b756-6f2b-84a4-49243ce8a413",
    ]
}

} // verus!
