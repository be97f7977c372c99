//! The relationship-consistency engine: resolves merged metadata against the
//! existing track/album/artist graph, creating or linking entities so that the
//! bidirectional invariants hold after every classification.
use vstd::prelude::*;

verus! {

use crate::blob::{has_cover, BlobStore};
use crate::model::{
    AlbumMetadata, ArtistMetadata, ExtractedTrackMetadata, LyricsStatus, MimeKind, PictureOwned,
    TrackLyrics, TrackMetadata, Uid,
};
use crate::store::{
    dedup_keys_unique, has_album_id, has_artist_id, has_lyrics_row, has_track_id,
    lemma_same_ids_has, push_unique, same_entity_ids, wf, AstralStore,
};

/// What should happen to the album's cover art after classification.
#[derive(Clone, Debug)]
pub enum CoverArtAction {
    /// Store these embedded bytes as the album's cover.
    StoreBytes {
        /// The album to attach the art to.
        album_id: Uid,
        /// The embedded picture.
        picture: PictureOwned,
    },
    /// Fetch the cover from a remote location, then store it.
    FetchUrl {
        /// The album to attach the art to.
        album_id: Uid,
        /// Where the art lives.
        url: String,
        /// Image type of the art.
        mime: MimeKind,
    },
}

/// Result of a classification call.
#[derive(Clone, Debug)]
pub struct ClassifyOutcome {
    /// The canonical track identifier: the existing track on a
    /// (name, duration) match, the new identifier otherwise.
    pub track_id: Uid,
    /// Cover art work left to do, if any.
    pub cover: Option<CoverArtAction>,
}

/// Re-establishes the store invariants after an existing artist gained links
/// to the track at `ti` and, for an album-level artist, to the album at `bi`.
#[verifier::rlimit(100)]
proof fn lemma_attach_existing_wf(
    s0: AstralStore,
    s2: AstralStore,
    ti: int,
    bi: int,
    ai: int,
    new_uid: Uid,
    link_album: bool,
)
    requires
        wf(s0),
        dedup_keys_unique(s0),
        0 <= ti < s0.tracks@.len(),
        s0.tracks@[ti].track_id == new_uid,
        0 <= bi < s0.albums@.len(),
        0 <= ai < s0.artists@.len(),
        s2.tracks@.len() == s0.tracks@.len(),
        forall|j: int| 0 <= j < s0.tracks@.len() && j != ti ==> s2.tracks@[j] == s0.tracks@[j],
        s2.tracks@[ti].track_id == new_uid,
        s2.tracks@[ti].name == s0.tracks@[ti].name,
        s2.tracks@[ti].length == s0.tracks@[ti].length,
        s2.tracks@[ti].albums == s0.tracks@[ti].albums,
        forall|x: Uid|
            #[trigger] s2.tracks@[ti].artists@.contains(x) <==> (s0.tracks@[ti].artists@.contains(x)
                || x == s0.artists@[ai].artist_id),
        s2.albums@.len() == s0.albums@.len(),
        forall|j: int| 0 <= j < s0.albums@.len() && j != bi ==> s2.albums@[j] == s0.albums@[j],
        s2.albums@[bi].album_id == s0.albums@[bi].album_id,
        s2.albums@[bi].name == s0.albums@[bi].name,
        s2.albums@[bi].tracks == s0.albums@[bi].tracks,
        forall|x: Uid|
            #[trigger] s2.albums@[bi].artists@.contains(x) <==> (s0.albums@[bi].artists@.contains(x)
                || (link_album && x == s0.artists@[ai].artist_id)),
        s2.artists@.len() == s0.artists@.len(),
        forall|j: int| 0 <= j < s0.artists@.len() && j != ai ==> s2.artists@[j] == s0.artists@[j],
        s2.artists@[ai].artist_id == s0.artists@[ai].artist_id,
        s2.artists@[ai].name == s0.artists@[ai].name,
        forall|x: Uid|
            #[trigger] s2.artists@[ai].tracks@.contains(x) <==> (s0.artists@[ai].tracks@.contains(x)
                || x == new_uid),
        forall|x: Uid|
            #[trigger] s2.artists@[ai].albums@.contains(x) <==> (s0.artists@[ai].albums@.contains(x)
                || (link_album && x == s0.albums@[bi].album_id)),
        s2.undefined_tracks == s0.undefined_tracks,
        s2.lyrics == s0.lyrics,
        s2.id_seed == s0.id_seed,
    ensures
        wf(s2),
        dedup_keys_unique(s2),
{
    let aid = s0.artists@[ai].artist_id;
    let bid = s0.albums@[bi].album_id;
    assert(same_entity_ids(s0, s2));
    lemma_same_ids_has(s0, s2);
    assert(wf(s2)) by {
        assert forall|tj: int, x: Uid|
            0 <= tj < s2.tracks@.len() && #[trigger] s2.tracks@[tj].artists@.contains(x)
                implies has_artist_id(s2, x) by {
            if tj == ti && x == aid {
                assert(s2.artists@[ai].artist_id == aid);
            } else {
                assert(s0.tracks@[tj].artists@.contains(x));
                assert(has_artist_id(s0, x));
            }
        }
        assert forall|tj: int, x: Uid|
            0 <= tj < s2.tracks@.len() && #[trigger] s2.tracks@[tj].albums@.contains(x)
                implies has_album_id(s2, x) by {
            assert(s2.tracks@[tj].albums == s0.tracks@[tj].albums);
            assert(has_album_id(s0, x));
        }
        assert forall|bj: int, x: Uid|
            0 <= bj < s2.albums@.len() && #[trigger] s2.albums@[bj].artists@.contains(x)
                implies has_artist_id(s2, x) by {
            if bj == bi && x == aid {
                assert(s2.artists@[ai].artist_id == aid);
            } else {
                assert(s0.albums@[bj].artists@.contains(x));
                assert(has_artist_id(s0, x));
            }
        }
        assert forall|bj: int, x: Uid|
            0 <= bj < s2.albums@.len() && #[trigger] s2.albums@[bj].tracks@.contains(x)
                implies has_track_id(s2, x) by {
            assert(s2.albums@[bj].tracks == s0.albums@[bj].tracks);
            assert(has_track_id(s0, x));
        }
        assert forall|aj: int, x: Uid|
            0 <= aj < s2.artists@.len() && #[trigger] s2.artists@[aj].albums@.contains(x)
                implies has_album_id(s2, x) by {
            if aj == ai && x == bid {
                assert(s2.albums@[bi].album_id == bid);
            } else {
                assert(s0.artists@[aj].albums@.contains(x));
                assert(has_album_id(s0, x));
            }
        }
        assert forall|aj: int, x: Uid|
            0 <= aj < s2.artists@.len() && #[trigger] s2.artists@[aj].tracks@.contains(x)
                implies has_track_id(s2, x) by {
            if aj == ai && x == new_uid {
                assert(s2.tracks@[ti].track_id == new_uid);
            } else {
                assert(s0.artists@[aj].tracks@.contains(x));
                assert(has_track_id(s0, x));
            }
        }
        assert forall|li: int|
            0 <= li < s2.lyrics@.len() implies has_track_id(
            s2,
            (#[trigger] s2.lyrics@[li]).track_id,
        ) by {
            assert(has_track_id(s0, s2.lyrics@[li].track_id));
        }
        assert forall|tj: int, bj: int|
            0 <= tj < s2.tracks@.len() && 0 <= bj < s2.albums@.len() implies ((
        #[trigger] s2.tracks@[tj]).albums@.contains(s2.albums@[bj].album_id) <==> (
        #[trigger] s2.albums@[bj]).tracks@.contains(s2.tracks@[tj].track_id)) by {
            assert(s2.tracks@[tj].albums == s0.tracks@[tj].albums);
            assert(s2.albums@[bj].album_id == s0.albums@[bj].album_id);
            assert(s2.albums@[bj].tracks == s0.albums@[bj].tracks);
            assert(s2.tracks@[tj].track_id == s0.tracks@[tj].track_id);
        }
        assert forall|tj: int, aj: int|
            0 <= tj < s2.tracks@.len() && 0 <= aj < s2.artists@.len() implies ((
        #[trigger] s2.tracks@[tj]).artists@.contains(s2.artists@[aj].artist_id) <==> (
        #[trigger] s2.artists@[aj]).tracks@.contains(s2.tracks@[tj].track_id)) by {
            let ajid = s0.artists@[aj].artist_id;
            let tjid = s0.tracks@[tj].track_id;
            assert(s2.artists@[aj].artist_id == ajid);
            assert(s2.tracks@[tj].track_id == tjid);
            if tj == ti && aj == ai {
            } else if tj == ti {
                assert(aj != ai);
                assert(s2.artists@[aj] == s0.artists@[aj]);
                assert(ajid != aid);
                assert(s2.tracks@[ti].artists@.contains(ajid) <==> s0.tracks@[ti].artists@.contains(
                    ajid,
                ));
            } else if aj == ai {
                assert(s2.tracks@[tj] == s0.tracks@[tj]);
                assert(tjid != new_uid);
                assert(s2.artists@[ai].tracks@.contains(tjid) <==> s0.artists@[ai].tracks@.contains(
                    tjid,
                ));
            } else {
                assert(s2.tracks@[tj] == s0.tracks@[tj]);
                assert(s2.artists@[aj] == s0.artists@[aj]);
            }
        }
        assert forall|bj: int, aj: int|
            0 <= bj < s2.albums@.len() && 0 <= aj < s2.artists@.len() implies ((
        #[trigger] s2.albums@[bj]).artists@.contains(s2.artists@[aj].artist_id) <==> (
        #[trigger] s2.artists@[aj]).albums@.contains(s2.albums@[bj].album_id)) by {
            let ajid = s0.artists@[aj].artist_id;
            let bjid = s0.albums@[bj].album_id;
            assert(s2.artists@[aj].artist_id == ajid);
            assert(s2.albums@[bj].album_id == bjid);
            if bj == bi && aj == ai {
            } else if bj == bi {
                assert(aj != ai);
                assert(s2.artists@[aj] == s0.artists@[aj]);
                assert(ajid != aid);
                assert(s2.albums@[bi].artists@.contains(ajid) <==> s0.albums@[bi].artists@.contains(
                    ajid,
                ));
            } else if aj == ai {
                assert(s2.albums@[bj] == s0.albums@[bj]);
                assert(bjid != bid);
                assert(s2.artists@[ai].albums@.contains(bjid) <==> s0.artists@[ai].albums@.contains(
                    bjid,
                ));
            } else {
                assert(s2.albums@[bj] == s0.albums@[bj]);
                assert(s2.artists@[aj] == s0.artists@[aj]);
            }
        }
        assert forall|ui: int| 0 <= ui < s2.undefined_tracks@.len() implies {
            let id = (#[trigger] s2.undefined_tracks@[ui]).track_id;
            &&& !has_track_id(s2, id)
            &&& !has_artist_id(s2, id)
            &&& !has_album_id(s2, id)
            &&& !has_lyrics_row(s2, id)
        } by {
            assert(s2.undefined_tracks@[ui] == s0.undefined_tracks@[ui]);
        }
    }
    assert(dedup_keys_unique(s2)) by {
        assert forall|i: int, q: int| 0 <= i < q < s2.tracks@.len() implies !((
        #[trigger] s2.tracks@[i]).name@ == (#[trigger] s2.tracks@[q]).name@ && s2.tracks@[i].length
            == s2.tracks@[q].length) by {
            assert(s2.tracks@[i].name == s0.tracks@[i].name);
            assert(s2.tracks@[q].name == s0.tracks@[q].name);
            assert(s2.tracks@[i].length == s0.tracks@[i].length);
            assert(s2.tracks@[q].length == s0.tracks@[q].length);
        }
    }
}

} // verus!

verus! {

/// Re-establishes the store invariants after a fresh artist record was
/// appended and linked to the track at `ti` and, for an album-level artist,
/// to the album at `bi`.
#[verifier::rlimit(100)]
proof fn lemma_attach_new_wf(
    s0: AstralStore,
    s2: AstralStore,
    ti: int,
    bi: int,
    new_uid: Uid,
    aid: Uid,
    link_album: bool,
)
    requires
        wf(s0),
        dedup_keys_unique(s0),
        0 <= ti < s0.tracks@.len(),
        s0.tracks@[ti].track_id == new_uid,
        0 <= bi < s0.albums@.len(),
        aid.0 >= s0.id_seed,
        aid.0 < s2.id_seed,
        s2.id_seed >= s0.id_seed,
        s2.tracks@.len() == s0.tracks@.len(),
        forall|j: int| 0 <= j < s0.tracks@.len() && j != ti ==> s2.tracks@[j] == s0.tracks@[j],
        s2.tracks@[ti].track_id == new_uid,
        s2.tracks@[ti].name == s0.tracks@[ti].name,
        s2.tracks@[ti].length == s0.tracks@[ti].length,
        s2.tracks@[ti].albums == s0.tracks@[ti].albums,
        forall|x: Uid|
            #[trigger] s2.tracks@[ti].artists@.contains(x) <==> (s0.tracks@[ti].artists@.contains(x)
                || x == aid),
        s2.albums@.len() == s0.albums@.len(),
        forall|j: int| 0 <= j < s0.albums@.len() && j != bi ==> s2.albums@[j] == s0.albums@[j],
        s2.albums@[bi].album_id == s0.albums@[bi].album_id,
        s2.albums@[bi].name == s0.albums@[bi].name,
        s2.albums@[bi].tracks == s0.albums@[bi].tracks,
        forall|x: Uid|
            #[trigger] s2.albums@[bi].artists@.contains(x) <==> (s0.albums@[bi].artists@.contains(x)
                || (link_album && x == aid)),
        s2.artists@.len() == s0.artists@.len() + 1,
        forall|j: int| 0 <= j < s0.artists@.len() ==> s2.artists@[j] == s0.artists@[j],
        s2.artists@[s0.artists@.len() as int].artist_id == aid,
        forall|x: Uid|
            #[trigger] s2.artists@[s0.artists@.len() as int].tracks@.contains(x) <==> x == new_uid,
        forall|x: Uid|
            #[trigger] s2.artists@[s0.artists@.len() as int].albums@.contains(x) <==> (link_album
                && x == s0.albums@[bi].album_id),
        s2.undefined_tracks == s0.undefined_tracks,
        s2.lyrics == s0.lyrics,
    ensures
        wf(s2),
        dedup_keys_unique(s2),
{
    let bid = s0.albums@[bi].album_id;
    let an = s0.artists@.len() as int;
    assert forall|x: Uid| #[trigger] has_track_id(s2, x) <==> has_track_id(s0, x) by {
        if has_track_id(s0, x) {
            let i = choose|i: int| 0 <= i < s0.tracks@.len() && (#[trigger] s0.tracks@[i]).track_id
                == x;
            assert(s2.tracks@[i].track_id == x);
        }
        if has_track_id(s2, x) {
            let i = choose|i: int| 0 <= i < s2.tracks@.len() && (#[trigger] s2.tracks@[i]).track_id
                == x;
            assert(s0.tracks@[i].track_id == x);
        }
    }
    assert forall|x: Uid| #[trigger] has_album_id(s2, x) <==> has_album_id(s0, x) by {
        if has_album_id(s0, x) {
            let i = choose|i: int| 0 <= i < s0.albums@.len() && (#[trigger] s0.albums@[i]).album_id
                == x;
            assert(s2.albums@[i].album_id == x);
        }
        if has_album_id(s2, x) {
            let i = choose|i: int| 0 <= i < s2.albums@.len() && (#[trigger] s2.albums@[i]).album_id
                == x;
            assert(s0.albums@[i].album_id == x);
        }
    }
    assert forall|x: Uid| #[trigger] has_artist_id(s2, x) <==> (has_artist_id(s0, x) || x
        == aid) by {
        if has_artist_id(s0, x) {
            let i = choose|i: int|
                0 <= i < s0.artists@.len() && (#[trigger] s0.artists@[i]).artist_id == x;
            assert(s2.artists@[i].artist_id == x);
        }
        if x == aid {
            assert(s2.artists@[an].artist_id == x);
        }
        if has_artist_id(s2, x) {
            let i = choose|i: int|
                0 <= i < s2.artists@.len() && (#[trigger] s2.artists@[i]).artist_id == x;
            if i < an {
                assert(s0.artists@[i].artist_id == x);
            }
        }
    }
    assert(!has_artist_id(s0, aid)) by {
        if has_artist_id(s0, aid) {
            let i = choose|i: int|
                0 <= i < s0.artists@.len() && (#[trigger] s0.artists@[i]).artist_id == aid;
            assert(s0.artists@[i].artist_id.0 < s0.id_seed);
        }
    }
    assert(wf(s2)) by {
        assert forall|i: int, j: int|
            0 <= i < j < s2.artists@.len() implies (#[trigger] s2.artists@[i]).artist_id != (
        #[trigger] s2.artists@[j]).artist_id by {
            if j == an {
                assert(s2.artists@[i] == s0.artists@[i]);
                assert(s0.artists@[i].artist_id.0 < s0.id_seed);
            } else {
                assert(s2.artists@[i] == s0.artists@[i]);
                assert(s2.artists@[j] == s0.artists@[j]);
            }
        }
        assert forall|tj: int, x: Uid|
            0 <= tj < s2.tracks@.len() && #[trigger] s2.tracks@[tj].artists@.contains(x)
                implies has_artist_id(s2, x) by {
            if tj == ti && x == aid {
            } else {
                assert(s0.tracks@[tj].artists@.contains(x));
                assert(has_artist_id(s0, x));
            }
        }
        assert forall|tj: int, x: Uid|
            0 <= tj < s2.tracks@.len() && #[trigger] s2.tracks@[tj].albums@.contains(x)
                implies has_album_id(s2, x) by {
            assert(s2.tracks@[tj].albums == s0.tracks@[tj].albums);
            assert(has_album_id(s0, x));
        }
        assert forall|bj: int, x: Uid|
            0 <= bj < s2.albums@.len() && #[trigger] s2.albums@[bj].artists@.contains(x)
                implies has_artist_id(s2, x) by {
            if bj == bi && x == aid {
            } else {
                assert(s0.albums@[bj].artists@.contains(x));
                assert(has_artist_id(s0, x));
            }
        }
        assert forall|bj: int, x: Uid|
            0 <= bj < s2.albums@.len() && #[trigger] s2.albums@[bj].tracks@.contains(x)
                implies has_track_id(s2, x) by {
            assert(s2.albums@[bj].tracks == s0.albums@[bj].tracks);
            assert(has_track_id(s0, x));
        }
        assert forall|aj: int, x: Uid|
            0 <= aj < s2.artists@.len() && #[trigger] s2.artists@[aj].albums@.contains(x)
                implies has_album_id(s2, x) by {
            if aj == an {
                assert(x == bid);
                assert(s2.albums@[bi].album_id == bid);
            } else {
                assert(s2.artists@[aj] == s0.artists@[aj]);
                assert(has_album_id(s0, x));
            }
        }
        assert forall|aj: int, x: Uid|
            0 <= aj < s2.artists@.len() && #[trigger] s2.artists@[aj].tracks@.contains(x)
                implies has_track_id(s2, x) by {
            if aj == an {
                assert(x == new_uid);
                assert(s2.tracks@[ti].track_id == new_uid);
            } else {
                assert(s2.artists@[aj] == s0.artists@[aj]);
                assert(has_track_id(s0, x));
            }
        }
        assert forall|li: int|
            0 <= li < s2.lyrics@.len() implies has_track_id(
            s2,
            (#[trigger] s2.lyrics@[li]).track_id,
        ) by {
            assert(has_track_id(s0, s2.lyrics@[li].track_id));
        }
        assert forall|tj: int, bj: int|
            0 <= tj < s2.tracks@.len() && 0 <= bj < s2.albums@.len() implies ((
        #[trigger] s2.tracks@[tj]).albums@.contains(s2.albums@[bj].album_id) <==> (
        #[trigger] s2.albums@[bj]).tracks@.contains(s2.tracks@[tj].track_id)) by {
            assert(s2.tracks@[tj].albums == s0.tracks@[tj].albums);
            assert(s2.albums@[bj].album_id == s0.albums@[bj].album_id);
            assert(s2.albums@[bj].tracks == s0.albums@[bj].tracks);
            assert(s2.tracks@[tj].track_id == s0.tracks@[tj].track_id);
        }
        assert forall|tj: int, aj: int|
            0 <= tj < s2.tracks@.len() && 0 <= aj < s2.artists@.len() implies ((
        #[trigger] s2.tracks@[tj]).artists@.contains(s2.artists@[aj].artist_id) <==> (
        #[trigger] s2.artists@[aj]).tracks@.contains(s2.tracks@[tj].track_id)) by {
            let tjid = s0.tracks@[tj].track_id;
            assert(s2.tracks@[tj].track_id == tjid);
            if aj == an {
                if tj == ti {
                    assert(s2.tracks@[ti].artists@.contains(aid));
                    assert(s2.artists@[an].tracks@.contains(new_uid));
                } else {
                    assert(s2.tracks@[tj] == s0.tracks@[tj]);
                    assert(tjid != new_uid);
                    assert(!s2.artists@[an].tracks@.contains(tjid));
                    assert(!s0.tracks@[tj].artists@.contains(aid)) by {
                        if s0.tracks@[tj].artists@.contains(aid) {
                            assert(has_artist_id(s0, aid));
                        }
                    }
                }
            } else {
                let ajid = s0.artists@[aj].artist_id;
                assert(s2.artists@[aj] == s0.artists@[aj]);
                assert(ajid.0 < s0.id_seed);
                assert(ajid != aid);
                if tj == ti {
                    assert(s2.tracks@[ti].artists@.contains(ajid)
                        <==> s0.tracks@[ti].artists@.contains(ajid));
                } else {
                    assert(s2.tracks@[tj] == s0.tracks@[tj]);
                }
            }
        }
        assert forall|bj: int, aj: int|
            0 <= bj < s2.albums@.len() && 0 <= aj < s2.artists@.len() implies ((
        #[trigger] s2.albums@[bj]).artists@.contains(s2.artists@[aj].artist_id) <==> (
        #[trigger] s2.artists@[aj]).albums@.contains(s2.albums@[bj].album_id)) by {
            let bjid = s0.albums@[bj].album_id;
            assert(s2.albums@[bj].album_id == bjid);
            if aj == an {
                if bj == bi {
                    if link_album {
                        assert(s2.albums@[bi].artists@.contains(aid));
                        assert(s2.artists@[an].albums@.contains(bid));
                    } else {
                        assert(!s2.artists@[an].albums@.contains(bid));
                        assert(!s0.albums@[bi].artists@.contains(aid)) by {
                            if s0.albums@[bi].artists@.contains(aid) {
                                assert(has_artist_id(s0, aid));
                            }
                        }
                    }
                } else {
                    assert(s2.albums@[bj] == s0.albums@[bj]);
                    assert(bjid != bid);
                    assert(!s2.artists@[an].albums@.contains(bjid));
                    assert(!s0.albums@[bj].artists@.contains(aid)) by {
                        if s0.albums@[bj].artists@.contains(aid) {
                            assert(has_artist_id(s0, aid));
                        }
                    }
                }
            } else {
                let ajid = s0.artists@[aj].artist_id;
                assert(s2.artists@[aj] == s0.artists@[aj]);
                assert(ajid.0 < s0.id_seed);
                assert(ajid != aid);
                if bj == bi {
                    assert(s2.albums@[bi].artists@.contains(ajid)
                        <==> s0.albums@[bi].artists@.contains(ajid));
                } else {
                    assert(s2.albums@[bj] == s0.albums@[bj]);
                }
            }
        }
        assert forall|ui: int| 0 <= ui < s2.undefined_tracks@.len() implies {
            let id = (#[trigger] s2.undefined_tracks@[ui]).track_id;
            &&& !has_track_id(s2, id)
            &&& !has_artist_id(s2, id)
            &&& !has_album_id(s2, id)
            &&& !has_lyrics_row(s2, id)
        } by {
            assert(s2.undefined_tracks@[ui] == s0.undefined_tracks@[ui]);
            let id = s2.undefined_tracks@[ui].track_id;
            assert(id.0 < s0.id_seed);
            assert(id != aid);
        }
    }
    assert(dedup_keys_unique(s2)) by {
        assert forall|i: int, q: int| 0 <= i < q < s2.tracks@.len() implies !((
        #[trigger] s2.tracks@[i]).name@ == (#[trigger] s2.tracks@[q]).name@ && s2.tracks@[i].length
            == s2.tracks@[q].length) by {
            assert(s2.tracks@[i].name == s0.tracks@[i].name);
            assert(s2.tracks@[q].name == s0.tracks@[q].name);
            assert(s2.tracks@[i].length == s0.tracks@[i].length);
            assert(s2.tracks@[q].length == s0.tracks@[q].length);
        }
    }
}

} // verus!

verus! {

/// Resolves one artist by exact name — linking the existing record or
/// creating a fresh one — and attaches it to the track at `ti`; when
/// `link_album` is set the artist and the album at `bi` are linked
/// bidirectionally as well. All list additions use set semantics.
#[verifier::rlimit(100)]
fn classify_attach_artist(
    store: &mut AstralStore,
    name: &String,
    new_uid: Uid,
    ti: usize,
    bi: usize,
    link_album: bool,
) -> (linked: Uid)
    requires
        wf(*old(store)),
        dedup_keys_unique(*old(store)),
        ti < old(store).tracks@.len(),
        old(store).tracks@[ti as int].track_id == new_uid,
        bi < old(store).albums@.len(),
        old(store).id_seed < u128::MAX,
    ensures
        wf(*final(store)),
        dedup_keys_unique(*final(store)),
        final(store).undefined_tracks == old(store).undefined_tracks,
        final(store).lyrics == old(store).lyrics,
        old(store).id_seed <= final(store).id_seed <= old(store).id_seed + 1,
        final(store).tracks@.len() == old(store).tracks@.len(),
        forall|j: int|
            0 <= j < old(store).tracks@.len() && j != ti ==> final(store).tracks@[j] == old(store).tracks@[j],
        final(store).tracks@[ti as int].track_id == new_uid,
        final(store).tracks@[ti as int].name == old(store).tracks@[ti as int].name,
        final(store).tracks@[ti as int].length == old(store).tracks@[ti as int].length,
        final(store).tracks@[ti as int].albums == old(store).tracks@[ti as int].albums,
        final(store).tracks@[ti as int].is_explicit == old(store).tracks@[ti as int].is_explicit,
        final(store).tracks@[ti as int].format == old(store).tracks@[ti as int].format,
        final(store).tracks@[ti as int].number == old(store).tracks@[ti as int].number,
        final(store).tracks@[ti as int].disc_number == old(store).tracks@[ti as int].disc_number,
        forall|x: Uid|
            #[trigger] final(store).tracks@[ti as int].artists@.contains(x) <==> (old(store).tracks@[ti as int].artists@.contains(x) || x == linked),
        final(store).albums@.len() == old(store).albums@.len(),
        forall|j: int|
            0 <= j < old(store).albums@.len() && j != bi ==> final(store).albums@[j] == old(store).albums@[j],
        final(store).albums@[bi as int].album_id == old(store).albums@[bi as int].album_id,
        final(store).albums@[bi as int].name == old(store).albums@[bi as int].name,
        final(store).albums@[bi as int].tracks == old(store).albums@[bi as int].tracks,
        final(store).albums@[bi as int].release_date == old(store).albums@[bi as int].release_date,
        final(store).albums@[bi as int].genres == old(store).albums@[bi as int].genres,
        forall|x: Uid|
            #[trigger] final(store).albums@[bi as int].artists@.contains(x) <==> (old(store).albums@[bi as int].artists@.contains(x) || (link_album && x == linked)),
        old(store).artists@.len() <= final(store).artists@.len() <= old(store).artists@.len() + 1,
        forall|ai: int|
            0 <= ai < old(store).artists@.len() ==> {
                &&& (#[trigger] final(store).artists@[ai]).artist_id == old(store).artists@[ai].artist_id
                &&& final(store).artists@[ai].name == old(store).artists@[ai].name
                &&& final(store).artists@[ai].genres == old(store).artists@[ai].genres
                &&& final(store).artists@[ai].about == old(store).artists@[ai].about
                &&& forall|x: Uid|
                    #[trigger] final(store).artists@[ai].tracks@.contains(x) <==> (old(store).artists@[ai].tracks@.contains(x) || (x == new_uid
                        && old(store).artists@[ai].artist_id == linked))
                &&& forall|x: Uid|
                    #[trigger] final(store).artists@[ai].albums@.contains(x) <==> (old(store).artists@[ai].albums@.contains(x) || (link_album && x == old(store).albums@[bi as int].album_id && old(store).artists@[ai].artist_id == linked))
            },
        forall|ai: int|
            old(store).artists@.len() <= ai < final(store).artists@.len() ==> {
                &&& (#[trigger] final(store).artists@[ai]).artist_id == linked
                &&& final(store).artists@[ai].name@ == name@
                &&& final(store).artists@[ai].genres@.len() == 0
                &&& final(store).artists@[ai].about@.len() == 0
                &&& forall|x: Uid| #[trigger] final(store).artists@[ai].tracks@.contains(x) <==> x
                    == new_uid
                &&& forall|x: Uid|
                    #[trigger] final(store).artists@[ai].albums@.contains(x) <==> (link_album && x
                        == old(store).albums@[bi as int].album_id)
            },
        (exists|ai: int|
            0 <= ai < old(store).artists@.len() && (#[trigger] old(store).artists@[ai]).name@
                == name@) ==> final(store).artists@.len() == old(store).artists@.len(),
        (forall|ai: int|
            0 <= ai < old(store).artists@.len() ==> (#[trigger] old(store).artists@[ai]).name@
                != name@) ==> final(store).artists@.len() == old(store).artists@.len() + 1,
        forall|ai: int, aj: int|
            (old(store).artists@.len() <= ai < final(store).artists@.len() && 0 <= aj < old(store).artists@.len()) ==> (#[trigger] final(store).artists@[ai]).name@ != (#[trigger] old(store).artists@[aj]).name@,
        forall|ai: int|
            (0 <= ai < old(store).artists@.len() && old(store).artists@[ai].artist_id == linked)
                ==> (#[trigger] final(store).artists@[ai]).name@ == name@,
        crate::store::uids_distinct(old(store).tracks@[ti as int].artists@)
            ==> crate::store::uids_distinct(final(store).tracks@[ti as int].artists@),
        crate::store::uids_distinct(old(store).albums@[bi as int].artists@)
            ==> crate::store::uids_distinct(final(store).albums@[bi as int].artists@),
        exists|ai: int|
            0 <= ai < final(store).artists@.len() && {
                let a = #[trigger] final(store).artists@[ai];
                &&& a.artist_id == linked
                &&& a.name@ == name@
                &&& a.tracks@.contains(new_uid)
                &&& (link_album ==> a.albums@.contains(old(store).albums@[bi as int].album_id))
            },
        has_artist_id(*final(store), linked),
{
    let ghost s0 = *store;
    let bid = store.albums[bi].album_id;
    match store.find_artist_by_name(name.as_str()) {
        Some(ai) => {
            let aid = store.artists[ai].artist_id;
            push_unique(&mut store.artists[ai].tracks, new_uid);
            if link_album {
                push_unique(&mut store.artists[ai].albums, bid);
                push_unique(&mut store.albums[bi].artists, aid);
            }
            push_unique(&mut store.tracks[ti].artists, aid);
            proof {
                let s2 = *store;
                lemma_attach_existing_wf(
                    s0,
                    s2,
                    ti as int,
                    bi as int,
                    ai as int,
                    new_uid,
                    link_album,
                );
                assert(s2.artists@[ai as int].artist_id == aid);
                assert(s2.artists@[ai as int].name@ == name@);
                assert(s2.artists@[ai as int].tracks@.contains(new_uid));
                assert(has_artist_id(s2, aid));
            }
            aid
        },
        None => {
            let aid = store.mint_id();
            let mut a_tracks: Vec<Uid> = Vec::new();
            a_tracks.push(new_uid);
            let mut a_albums: Vec<Uid> = Vec::new();
            if link_album {
                a_albums.push(bid);
            }
            let ghost pre_push = *store;
            store.artists.push(
                ArtistMetadata {
                    artist_id: aid,
                    name: name.clone(),
                    albums: a_albums,
                    tracks: a_tracks,
                    genres: Vec::new(),
                    about: String::new(),
                },
            );
            let ghost an = s0.artists@.len() as int;
            if link_album {
                push_unique(&mut store.albums[bi].artists, aid);
            }
            push_unique(&mut store.tracks[ti].artists, aid);
            proof {
                let s2 = *store;
                assert(s2.artists@[an].artist_id == aid);
                assert forall|x: Uid| #[trigger] s2.artists@[an].tracks@.contains(x) implies x
                    == new_uid by {
                    let k = choose|k: int|
                        0 <= k < s2.artists@[an].tracks@.len() && s2.artists@[an].tracks@[k] == x;
                }
                assert(s2.artists@[an].tracks@.contains(new_uid)) by {
                    assert(s2.artists@[an].tracks@[0] == new_uid);
                }
                assert forall|x: Uid| #[trigger] s2.artists@[an].albums@.contains(x) implies (
                link_album && x == bid) by {
                    let k = choose|k: int|
                        0 <= k < s2.artists@[an].albums@.len() && s2.artists@[an].albums@[k] == x;
                }
                if link_album {
                    assert(s2.artists@[an].albums@.contains(bid)) by {
                        assert(s2.artists@[an].albums@[0] == bid);
                    }
                }
                lemma_attach_new_wf(s0, s2, ti as int, bi as int, new_uid, aid, link_album);
                assert(s2.artists@[an].name@ == name@);
                assert(has_artist_id(s2, aid)) by {
                    assert(s2.artists@[an].artist_id == aid);
                }
            }
            aid
        },
    }
}

} // verus!

verus! {

/// Re-establishes the store invariants after the new track skeleton was
/// appended and linked to its album — an existing album at `bi`, or a fresh
/// one appended at the end of the album list.
#[verifier::rlimit(100)]
proof fn lemma_classify_album_wf(
    s0: AstralStore,
    s2: AstralStore,
    ti: int,
    bi: int,
    new_uid: Uid,
    album_new: bool,
)
    requires
        wf(s0),
        dedup_keys_unique(s0),
        !has_track_id(s0, new_uid),
        !has_artist_id(s0, new_uid),
        !has_album_id(s0, new_uid),
        !has_lyrics_row(s0, new_uid),
        forall|ui: int|
            0 <= ui < s0.undefined_tracks@.len() ==> (#[trigger] s0.undefined_tracks@[ui]).track_id
                != new_uid,
        new_uid.0 < s0.id_seed,
        ti == s0.tracks@.len(),
        s2.tracks@.len() == s0.tracks@.len() + 1,
        forall|j: int| 0 <= j < s0.tracks@.len() ==> s2.tracks@[j] == s0.tracks@[j],
        s2.tracks@[ti].track_id == new_uid,
        s2.tracks@[ti].artists@.len() == 0,
        0 <= bi < s2.albums@.len(),
        forall|x: Uid|
            #[trigger] s2.tracks@[ti].albums@.contains(x) <==> x == s2.albums@[bi].album_id,
        forall|j: int|
            0 <= j < s0.tracks@.len() ==> !((#[trigger] s0.tracks@[j]).name@ == s2.tracks@[ti].name@
                && s0.tracks@[j].length == s2.tracks@[ti].length),
        !album_new ==> {
            &&& s2.albums@.len() == s0.albums@.len()
            &&& bi < s0.albums@.len()
            &&& forall|j: int|
                0 <= j < s0.albums@.len() && j != bi ==> s2.albums@[j] == s0.albums@[j]
            &&& s2.albums@[bi].album_id == s0.albums@[bi].album_id
            &&& s2.albums@[bi].name == s0.albums@[bi].name
            &&& s2.albums@[bi].artists == s0.albums@[bi].artists
            &&& forall|x: Uid|
                #[trigger] s2.albums@[bi].tracks@.contains(x) <==> (s0.albums@[bi].tracks@.contains(
                    x,
                ) || x == new_uid)
        },
        album_new ==> {
            &&& s2.albums@.len() == s0.albums@.len() + 1
            &&& bi == s0.albums@.len()
            &&& forall|j: int| 0 <= j < s0.albums@.len() ==> s2.albums@[j] == s0.albums@[j]
            &&& s2.albums@[bi].album_id.0 >= s0.id_seed
            &&& s2.albums@[bi].album_id.0 < s2.id_seed
            &&& s2.albums@[bi].artists@.len() == 0
            &&& forall|x: Uid| #[trigger] s2.albums@[bi].tracks@.contains(x) <==> x == new_uid
        },
        s2.artists == s0.artists,
        s2.undefined_tracks == s0.undefined_tracks,
        s2.lyrics == s0.lyrics,
        s2.id_seed >= s0.id_seed,
    ensures
        wf(s2),
        dedup_keys_unique(s2),
{
    let bid = s2.albums@[bi].album_id;
    assert forall|x: Uid| #[trigger] has_track_id(s2, x) <==> (has_track_id(s0, x) || x
        == new_uid) by {
        if has_track_id(s0, x) {
            let i = choose|i: int| 0 <= i < s0.tracks@.len() && (#[trigger] s0.tracks@[i]).track_id
                == x;
            assert(s2.tracks@[i].track_id == x);
        }
        if x == new_uid {
            assert(s2.tracks@[ti].track_id == x);
        }
        if has_track_id(s2, x) {
            let i = choose|i: int| 0 <= i < s2.tracks@.len() && (#[trigger] s2.tracks@[i]).track_id
                == x;
            if i < ti {
                assert(s0.tracks@[i].track_id == x);
            }
        }
    }
    assert forall|x: Uid| #[trigger] has_album_id(s2, x) implies (has_album_id(s0, x) || x
        == bid) by {
        let i = choose|i: int| 0 <= i < s2.albums@.len() && (#[trigger] s2.albums@[i]).album_id
            == x;
        if i != bi {
            assert(s0.albums@[i].album_id == x);
        }
    }
    assert forall|x: Uid| has_album_id(s0, x) implies #[trigger] has_album_id(s2, x) by {
        let i = choose|i: int| 0 <= i < s0.albums@.len() && (#[trigger] s0.albums@[i]).album_id
            == x;
        if album_new || i != bi {
            assert(s2.albums@[i].album_id == x);
        } else {
            assert(s2.albums@[bi].album_id == x);
        }
    }
    assert(has_album_id(s2, bid)) by {
        assert(s2.albums@[bi].album_id == bid);
    }
    assert forall|x: Uid| #[trigger] has_artist_id(s2, x) <==> has_artist_id(s0, x) by {}
    assert(album_new ==> !has_album_id(s0, bid)) by {
        if album_new && has_album_id(s0, bid) {
            let i = choose|i: int| 0 <= i < s0.albums@.len() && (#[trigger] s0.albums@[i]).album_id
                == bid;
            assert(s0.albums@[i].album_id.0 < s0.id_seed);
        }
    }
    assert(wf(s2)) by {
        assert forall|i: int, j: int|
            0 <= i < j < s2.tracks@.len() implies (#[trigger] s2.tracks@[i]).track_id != (
        #[trigger] s2.tracks@[j]).track_id by {
            if j == ti {
                assert(s2.tracks@[i] == s0.tracks@[i]);
                if s2.tracks@[i].track_id == new_uid {
                    assert(has_track_id(s0, new_uid)) by {
                        assert(s0.tracks@[i].track_id == new_uid);
                    }
                }
            } else {
                assert(s2.tracks@[i] == s0.tracks@[i]);
                assert(s2.tracks@[j] == s0.tracks@[j]);
            }
        }
        assert forall|i: int, j: int|
            0 <= i < j < s2.albums@.len() implies (#[trigger] s2.albums@[i]).album_id != (
        #[trigger] s2.albums@[j]).album_id by {
            if album_new && j == bi {
                assert(s2.albums@[i] == s0.albums@[i]);
                assert(s0.albums@[i].album_id.0 < s0.id_seed);
            } else if album_new || (i != bi && j != bi) {
                assert(s2.albums@[i] == s0.albums@[i]);
                assert(s2.albums@[j] == s0.albums@[j]);
            } else {
                if i == bi {
                    assert(s2.albums@[j] == s0.albums@[j]);
                    assert(s2.albums@[i].album_id == s0.albums@[i].album_id);
                } else {
                    assert(s2.albums@[i] == s0.albums@[i]);
                    assert(s2.albums@[j].album_id == s0.albums@[j].album_id);
                }
            }
        }
        assert forall|tj: int, x: Uid|
            0 <= tj < s2.tracks@.len() && #[trigger] s2.tracks@[tj].artists@.contains(x)
                implies has_artist_id(s2, x) by {
            if tj == ti {
                assert(s2.tracks@[ti].artists@.len() == 0);
                let k = choose|k: int|
                    0 <= k < s2.tracks@[ti].artists@.len() && s2.tracks@[ti].artists@[k] == x;
            } else {
                assert(s0.tracks@[tj].artists@.contains(x));
                assert(has_artist_id(s0, x));
            }
        }
        assert forall|tj: int, x: Uid|
            0 <= tj < s2.tracks@.len() && #[trigger] s2.tracks@[tj].albums@.contains(x)
                implies has_album_id(s2, x) by {
            if tj == ti {
                assert(x == bid);
            } else {
                assert(s0.tracks@[tj].albums@.contains(x));
                assert(has_album_id(s0, x));
            }
        }
        assert forall|bj: int, x: Uid|
            0 <= bj < s2.albums@.len() && #[trigger] s2.albums@[bj].artists@.contains(x)
                implies has_artist_id(s2, x) by {
            if bj == bi {
                if album_new {
                    assert(s2.albums@[bi].artists@.len() == 0);
                    let k = choose|k: int|
                        0 <= k < s2.albums@[bi].artists@.len() && s2.albums@[bi].artists@[k] == x;
                } else {
                    assert(s0.albums@[bj].artists@.contains(x));
                    assert(has_artist_id(s0, x));
                }
            } else {
                assert(s2.albums@[bj] == s0.albums@[bj]);
                assert(has_artist_id(s0, x));
            }
        }
        assert forall|bj: int, x: Uid|
            0 <= bj < s2.albums@.len() && #[trigger] s2.albums@[bj].tracks@.contains(x)
                implies has_track_id(s2, x) by {
            if bj == bi {
                if x != new_uid {
                    assert(!album_new);
                    assert(s0.albums@[bj].tracks@.contains(x));
                    assert(has_track_id(s0, x));
                }
            } else {
                assert(s2.albums@[bj] == s0.albums@[bj]);
                assert(has_track_id(s0, x));
            }
        }
        assert forall|aj: int, x: Uid|
            0 <= aj < s2.artists@.len() && #[trigger] s2.artists@[aj].albums@.contains(x)
                implies has_album_id(s2, x) by {
            assert(s2.artists@[aj] == s0.artists@[aj]);
            assert(has_album_id(s0, x));
        }
        assert forall|aj: int, x: Uid|
            0 <= aj < s2.artists@.len() && #[trigger] s2.artists@[aj].tracks@.contains(x)
                implies has_track_id(s2, x) by {
            assert(s2.artists@[aj] == s0.artists@[aj]);
            assert(has_track_id(s0, x));
        }
        assert forall|li: int|
            0 <= li < s2.lyrics@.len() implies has_track_id(
            s2,
            (#[trigger] s2.lyrics@[li]).track_id,
        ) by {
            assert(has_track_id(s0, s2.lyrics@[li].track_id));
        }
        assert forall|tj: int, bj: int|
            0 <= tj < s2.tracks@.len() && 0 <= bj < s2.albums@.len() implies ((
        #[trigger] s2.tracks@[tj]).albums@.contains(s2.albums@[bj].album_id) <==> (
        #[trigger] s2.albums@[bj]).tracks@.contains(s2.tracks@[tj].track_id)) by {
            let bjid = s2.albums@[bj].album_id;
            if tj == ti && bj == bi {
                assert(s2.tracks@[ti].albums@.contains(bid));
                assert(s2.albums@[bi].tracks@.contains(new_uid));
            } else if tj == ti {
                assert(bj != bi);
                assert(s2.albums@[bj] == s0.albums@[bj]);
                assert(bjid != bid) by {
                    if album_new {
                        assert(s0.albums@[bj].album_id.0 < s0.id_seed);
                    }
                }
                assert(!s2.tracks@[ti].albums@.contains(bjid));
                assert(!s0.albums@[bj].tracks@.contains(new_uid)) by {
                    if s0.albums@[bj].tracks@.contains(new_uid) {
                        assert(has_track_id(s0, new_uid));
                    }
                }
            } else if bj == bi {
                let tjid = s0.tracks@[tj].track_id;
                assert(s2.tracks@[tj] == s0.tracks@[tj]);
                assert(tjid != new_uid) by {
                    assert(s0.tracks@[tj].track_id == tjid);
                }
                if album_new {
                    assert(!s2.albums@[bi].tracks@.contains(tjid));
                    assert(!s0.tracks@[tj].albums@.contains(bid)) by {
                        if s0.tracks@[tj].albums@.contains(bid) {
                            assert(has_album_id(s0, bid));
                        }
                    }
                } else {
                    assert(s2.albums@[bi].tracks@.contains(tjid) <==> s0.albums@[bi].tracks@.contains(
                        tjid,
                    ));
                    assert(s2.albums@[bi].album_id == s0.albums@[bi].album_id);
                }
            } else {
                assert(s2.tracks@[tj] == s0.tracks@[tj]);
                assert(s2.albums@[bj] == s0.albums@[bj]);
            }
        }
        assert forall|tj: int, aj: int|
            0 <= tj < s2.tracks@.len() && 0 <= aj < s2.artists@.len() implies ((
        #[trigger] s2.tracks@[tj]).artists@.contains(s2.artists@[aj].artist_id) <==> (
        #[trigger] s2.artists@[aj]).tracks@.contains(s2.tracks@[tj].track_id)) by {
            assert(s2.artists@[aj] == s0.artists@[aj]);
            if tj == ti {
                assert(s2.tracks@[ti].artists@.len() == 0);
                assert(!s2.tracks@[ti].artists@.contains(s2.artists@[aj].artist_id)) by {
                    if s2.tracks@[ti].artists@.contains(s2.artists@[aj].artist_id) {
                        let k = choose|k: int|
                            0 <= k < s2.tracks@[ti].artists@.len() && s2.tracks@[ti].artists@[k]
                                == s2.artists@[aj].artist_id;
                    }
                }
                assert(!s0.artists@[aj].tracks@.contains(new_uid)) by {
                    if s0.artists@[aj].tracks@.contains(new_uid) {
                        assert(has_track_id(s0, new_uid));
                    }
                }
            } else {
                assert(s2.tracks@[tj] == s0.tracks@[tj]);
            }
        }
        assert forall|bj: int, aj: int|
            0 <= bj < s2.albums@.len() && 0 <= aj < s2.artists@.len() implies ((
        #[trigger] s2.albums@[bj]).artists@.contains(s2.artists@[aj].artist_id) <==> (
        #[trigger] s2.artists@[aj]).albums@.contains(s2.albums@[bj].album_id)) by {
            assert(s2.artists@[aj] == s0.artists@[aj]);
            let ajid = s0.artists@[aj].artist_id;
            if bj == bi && album_new {
                assert(!s2.albums@[bi].artists@.contains(ajid)) by {
                    if s2.albums@[bi].artists@.contains(ajid) {
                        let k = choose|k: int|
                            0 <= k < s2.albums@[bi].artists@.len() && s2.albums@[bi].artists@[k]
                                == ajid;
                    }
                }
                assert(!s0.artists@[aj].albums@.contains(bid)) by {
                    if s0.artists@[aj].albums@.contains(bid) {
                        assert(has_album_id(s0, bid));
                    }
                }
            } else if bj == bi {
                assert(s2.albums@[bi].artists == s0.albums@[bi].artists);
                assert(s2.albums@[bi].album_id == s0.albums@[bi].album_id);
            } else {
                assert(s2.albums@[bj] == s0.albums@[bj]);
            }
        }
        assert forall|ui: int| 0 <= ui < s2.undefined_tracks@.len() implies {
            let id = (#[trigger] s2.undefined_tracks@[ui]).track_id;
            &&& !has_track_id(s2, id)
            &&& !has_artist_id(s2, id)
            &&& !has_album_id(s2, id)
            &&& !has_lyrics_row(s2, id)
        } by {
            assert(s2.undefined_tracks@[ui] == s0.undefined_tracks@[ui]);
            let id = s2.undefined_tracks@[ui].track_id;
            assert(id != new_uid);
            assert(id.0 < s0.id_seed);
            if album_new {
                assert(id != bid);
            }
            if has_album_id(s2, id) {
                assert(has_album_id(s0, id) || id == bid);
            }
        }
        assert forall|i: int|
            0 <= i < s2.tracks@.len() implies (#[trigger] s2.tracks@[i]).track_id.0
                < s2.id_seed by {
            if i < ti {
                assert(s2.tracks@[i] == s0.tracks@[i]);
            }
        }
        assert forall|i: int|
            0 <= i < s2.albums@.len() implies (#[trigger] s2.albums@[i]).album_id.0
                < s2.id_seed by {
            if album_new && i == bi {
            } else if i == bi {
                assert(s2.albums@[bi].album_id == s0.albums@[bi].album_id);
            } else {
                assert(s2.albums@[i] == s0.albums@[i]);
            }
        }
    }
    assert(dedup_keys_unique(s2)) by {
        assert forall|i: int, q: int| 0 <= i < q < s2.tracks@.len() implies !((
        #[trigger] s2.tracks@[i]).name@ == (#[trigger] s2.tracks@[q]).name@ && s2.tracks@[i].length
            == s2.tracks@[q].length) by {
            if q == ti {
                assert(s2.tracks@[i] == s0.tracks@[i]);
            } else {
                assert(s2.tracks@[i] == s0.tracks@[i]);
                assert(s2.tracks@[q] == s0.tracks@[q]);
            }
        }
    }
}

} // verus!

verus! {

use crate::model::AlbumArt;
use crate::text::string_in_list;

/// Whether the store already holds a track with the metadata's
/// (name, duration) de-duplication key.
pub open spec fn dedup_hit(s: AstralStore, m: ExtractedTrackMetadata) -> bool {
    exists|i: int|
        0 <= i < s.tracks@.len() && (#[trigger] s.tracks@[i]).name@ == m.name@
            && s.tracks@[i].length == m.duration
}

/// Whether a name occurs among the metadata's track or album artist names.
pub open spec fn name_in_metadata(m: ExtractedTrackMetadata, nm: Seq<char>) -> bool {
    (exists|q: int| 0 <= q < m.album_artists@.len() && (#[trigger] m.album_artists@[q])@ == nm)
        || (exists|q: int| 0 <= q < m.artists@.len() && (#[trigger] m.artists@[q])@ == nm)
}

/// Whether a name occurs among the metadata's album artist names.
pub open spec fn name_in_album_artists(m: ExtractedTrackMetadata, nm: Seq<char>) -> bool {
    exists|q: int| 0 <= q < m.album_artists@.len() && (#[trigger] m.album_artists@[q])@ == nm
}

/// Mid-classification state: the new track is in place, linked to its album,
/// and artist processing is underway.
spec fn classify_mid(
    s0: AstralStore,
    m: ExtractedTrackMetadata,
    s: AstralStore,
    new_uid: Uid,
    ti: int,
    bi: int,
    bid: Uid,
) -> bool {
    &&& wf(s)
    &&& dedup_keys_unique(s)
    &&& s.tracks@.len() == s0.tracks@.len() + 1
    &&& ti == s0.tracks@.len()
    &&& forall|j: int| 0 <= j < s0.tracks@.len() ==> s.tracks@[j] == s0.tracks@[j]
    &&& s.tracks@[ti].track_id == new_uid
    &&& s.tracks@[ti].name@ == m.name@
    &&& s.tracks@[ti].length == m.duration
    &&& s.tracks@[ti].is_explicit == m.is_explicit
    &&& s.tracks@[ti].format == m.format
    &&& s.tracks@[ti].number == m.number
    &&& s.tracks@[ti].disc_number == m.disc_number
    &&& s.tracks@[ti].albums@.len() == 1
    &&& s.tracks@[ti].albums@[0] == bid
    &&& crate::store::uids_distinct(s.tracks@[ti].artists@)
    &&& 0 <= bi < s.albums@.len()
    &&& s.albums@[bi].album_id == bid
    &&& s.albums@[bi].name@ == m.album_name@
    &&& s.albums@[bi].tracks@.contains(new_uid)
    &&& forall|j: int|
        0 <= j < s0.albums@.len() && j != bi ==> s.albums@[j] == s0.albums@[j]
    &&& s.albums@.len() == s0.albums@.len() + (if bi < s0.albums@.len() {
        0int
    } else {
        1int
    })
    &&& (bi < s0.albums@.len() ==> {
        &&& s.albums@[bi].album_id == s0.albums@[bi].album_id
        &&& s.albums@[bi].name == s0.albums@[bi].name
        &&& s.albums@[bi].release_date == s0.albums@[bi].release_date
        &&& s.albums@[bi].genres == s0.albums@[bi].genres
        &&& forall|x: Uid|
            #[trigger] s.albums@[bi].tracks@.contains(x) <==> (s0.albums@[bi].tracks@.contains(x)
                || x == new_uid)
    })
    &&& (bi >= s0.albums@.len() ==> {
        &&& s.albums@[bi].release_date == m.release_date
        &&& s.albums@[bi].genres@.len() == 0
        &&& crate::store::uids_distinct(s.albums@[bi].artists@)
        &&& forall|x: Uid| #[trigger] s.albums@[bi].tracks@.contains(x) <==> x == new_uid
    })
    &&& s.artists@.len() >= s0.artists@.len()
    &&& forall|ai: int|
        0 <= ai < s0.artists@.len() ==> {
            &&& (#[trigger] s.artists@[ai]).artist_id == s0.artists@[ai].artist_id
            &&& s.artists@[ai].name == s0.artists@[ai].name
            &&& s.artists@[ai].genres == s0.artists@[ai].genres
            &&& s.artists@[ai].about == s0.artists@[ai].about
            &&& forall|x: Uid|
                #[trigger] s.artists@[ai].tracks@.contains(x) ==> (s0.artists@[ai].tracks@.contains(
                    x,
                ) || x == new_uid)
            &&& forall|x: Uid|
                s0.artists@[ai].tracks@.contains(x) ==> #[trigger] s.artists@[ai].tracks@.contains(
                    x,
                )
            &&& forall|x: Uid|
                #[trigger] s.artists@[ai].albums@.contains(x) ==> (s0.artists@[ai].albums@.contains(
                    x,
                ) || x == bid)
            &&& forall|x: Uid|
                s0.artists@[ai].albums@.contains(x) ==> #[trigger] s.artists@[ai].albums@.contains(
                    x,
                )
            &&& (s.artists@[ai].albums@.contains(bid) && !s0.artists@[ai].albums@.contains(bid)
                ==> name_in_album_artists(m, s.artists@[ai].name@))
        }
    &&& forall|ai: int|
        s0.artists@.len() <= ai < s.artists@.len() ==> {
            &&& (#[trigger] s.artists@[ai]).tracks@.contains(new_uid)
            &&& forall|x: Uid| #[trigger] s.artists@[ai].tracks@.contains(x) ==> x == new_uid
            &&& forall|x: Uid| #[trigger] s.artists@[ai].albums@.contains(x) ==> x == bid
            &&& name_in_metadata(m, s.artists@[ai].name@)
            &&& (s.artists@[ai].albums@.contains(bid) ==> name_in_album_artists(
                m,
                s.artists@[ai].name@,
            ))
            &&& forall|aj: int|
                0 <= aj < s0.artists@.len() ==> (#[trigger] s0.artists@[aj]).name@
                    != s.artists@[ai].name@
        }
    &&& forall|ai: int, aj: int|
        s0.artists@.len() <= ai < aj < s.artists@.len() ==> (#[trigger] s.artists@[ai]).name@ != (
        #[trigger] s.artists@[aj]).name@
    &&& forall|x: Uid|
        #[trigger] s.albums@[bi].artists@.contains(x) ==> ((bi < s0.albums@.len()
            && s0.albums@[bi].artists@.contains(x)) || exists|ai: int|
            0 <= ai < s.artists@.len() && (#[trigger] s.artists@[ai]).artist_id == x
                && name_in_album_artists(m, s.artists@[ai].name@))
    &&& s.undefined_tracks == s0.undefined_tracks
    &&& s.lyrics == s0.lyrics
    &&& s.id_seed >= s0.id_seed
}

/// One artist name has been fully attached: some artist carries the name, the
/// track, and — for album-level artists — the album links.
pub open spec fn artist_attached(
    s: AstralStore,
    nm: Seq<char>,
    new_uid: Uid,
    ti: int,
    bi: int,
    link_album: bool,
) -> bool {
    exists|ai: int|
        0 <= ai < s.artists@.len() && {
            let a = #[trigger] s.artists@[ai];
            &&& a.name@ == nm
            &&& a.tracks@.contains(new_uid)
            &&& s.tracks@[ti].artists@.contains(a.artist_id)
            &&& (link_album ==> a.albums@.contains(s.albums@[bi].album_id))
            &&& (link_album ==> s.albums@[bi].artists@.contains(a.artist_id))
        }
}

/// Classifies extracted metadata into the store.
///
/// On a (name, duration) match with an existing track, that track's
/// identifier is returned and nothing is changed. Otherwise a track record
/// with the identifier `new_uid` is created; its album is resolved by exact
/// name or created; every album-level artist is resolved by exact name or
/// created and linked to both the album and the track; every remaining
/// track-level artist is linked to the track alone; a lyrics payload, if any,
/// is cached under the new identifier; and the cover-art work left to do is
/// returned, unless art for the album is already stored in `blobs`.
#[verifier::rlimit(100)]
pub fn classify_insert_metadata(
    store: &mut AstralStore,
    blobs: &BlobStore,
    metadata: ExtractedTrackMetadata,
    new_uid: Uid,
) -> (r: ClassifyOutcome)
    requires
        wf(*old(store)),
        dedup_keys_unique(*old(store)),
        !has_track_id(*old(store), new_uid),
        !has_artist_id(*old(store), new_uid),
        !has_album_id(*old(store), new_uid),
        !has_lyrics_row(*old(store), new_uid),
        forall|ui: int|
            0 <= ui < old(store).undefined_tracks@.len() ==> (#[trigger] old(store).undefined_tracks@[ui]).track_id != new_uid,
        new_uid.0 < old(store).id_seed,
        old(store).id_seed + metadata.album_artists@.len() + metadata.artists@.len() + 1
            <= u128::MAX,
    ensures
        wf(*final(store)),
        dedup_keys_unique(*final(store)),
        final(store).undefined_tracks == old(store).undefined_tracks,
        final(store).id_seed >= old(store).id_seed,
        dedup_hit(*old(store), metadata) ==> {
            &&& *final(store) == *old(store)
            &&& r.cover is None
            &&& forall|i: int|
                0 <= i < old(store).tracks@.len() && (#[trigger] old(store).tracks@[i]).name@
                    == metadata.name@ && old(store).tracks@[i].length == metadata.duration
                    ==> r.track_id == old(store).tracks@[i].track_id
        },
        !dedup_hit(*old(store), metadata) ==> {
            let ti = old(store).tracks@.len() as int;
            let bid = final(store).tracks@[ti].albums@[0];
            &&& r.track_id == new_uid
            &&& final(store).tracks@.len() == old(store).tracks@.len() + 1
            &&& forall|j: int|
                0 <= j < old(store).tracks@.len() ==> final(store).tracks@[j] == old(store).tracks@[j]
            &&& final(store).tracks@[ti].track_id == new_uid
            &&& final(store).tracks@[ti].name@ == metadata.name@
            &&& final(store).tracks@[ti].length == metadata.duration
            &&& final(store).tracks@[ti].is_explicit == metadata.is_explicit
            &&& final(store).tracks@[ti].format == metadata.format
            &&& final(store).tracks@[ti].number == metadata.number
            &&& final(store).tracks@[ti].disc_number == metadata.disc_number
            &&& final(store).tracks@[ti].albums@.len() == 1
            &&& crate::store::uids_distinct(final(store).tracks@[ti].artists@)
            &&& final(store).albums@.len() == old(store).albums@.len() + (
            if exists|j: int|
                0 <= j < old(store).albums@.len() && (#[trigger] old(store).albums@[j]).name@
                    == metadata.album_name@ {
                0int
            } else {
                1int
            })
            &&& exists|bi: int|
                0 <= bi < final(store).albums@.len() && (#[trigger] final(store).albums@[bi]).album_id
                    == bid && final(store).albums@[bi].name@ == metadata.album_name@
                    && final(store).albums@[bi].tracks@.contains(new_uid) && (forall|j: int|
                    0 <= j < old(store).albums@.len() && j != bi ==> final(store).albums@[j] == old(store).albums@[j]) && (bi < old(store).albums@.len() ==> (final(store).albums@[bi].album_id == old(store).albums@[bi].album_id && final(store).albums@[bi].name == old(store).albums@[bi].name && final(store).albums@[bi].release_date == old(store).albums@[bi].release_date && final(store).albums@[bi].genres == old(store).albums@[bi].genres && (forall|x: Uid|
                    #[trigger] final(store).albums@[bi].tracks@.contains(x) <==> (old(store).albums@[bi].tracks@.contains(x) || x == new_uid)))) && (bi >= old(store).albums@.len() ==> (bi == old(store).albums@.len() && final(store).albums@[bi].release_date == metadata.release_date && final(store).albums@[bi].genres@.len() == 0
                    && crate::store::uids_distinct(final(store).albums@[bi].artists@) && (forall|x: Uid|
                    #[trigger] final(store).albums@[bi].tracks@.contains(x) <==> x == new_uid)))
                    && (forall|x: Uid|
                    #[trigger] final(store).albums@[bi].artists@.contains(x) ==> ((bi < old(store).albums@.len() && old(store).albums@[bi].artists@.contains(x)) || exists|
                        ai: int,
                    |
                        0 <= ai < final(store).artists@.len() && (#[trigger] final(store).artists@[ai]).artist_id == x && name_in_album_artists(
                            metadata,
                            final(store).artists@[ai].name@,
                        )))
            &&& forall|q: int|
                0 <= q < metadata.album_artists@.len() ==> artist_attached(
                    *final(store),
                    (#[trigger] metadata.album_artists@[q])@,
                    new_uid,
                    ti,
                    final_album_index(*final(store), bid),
                    true,
                )
            &&& forall|q: int|
                0 <= q < metadata.artists@.len() ==> artist_attached(
                    *final(store),
                    (#[trigger] metadata.artists@[q])@,
                    new_uid,
                    ti,
                    final_album_index(*final(store), bid),
                    false,
                )
            &&& forall|ai: int|
                0 <= ai < old(store).artists@.len() ==> {
                    &&& (#[trigger] final(store).artists@[ai]).artist_id == old(store).artists@[ai].artist_id
                    &&& final(store).artists@[ai].name == old(store).artists@[ai].name
                    &&& final(store).artists@[ai].genres == old(store).artists@[ai].genres
                    &&& final(store).artists@[ai].about == old(store).artists@[ai].about
                    &&& forall|x: Uid|
                        #[trigger] final(store).artists@[ai].tracks@.contains(x) ==> (old(store).artists@[ai].tracks@.contains(x) || x == new_uid)
                    &&& forall|x: Uid|
                        old(store).artists@[ai].tracks@.contains(x) ==> #[trigger] final(store).artists@[ai].tracks@.contains(x)
                    &&& forall|x: Uid|
                        #[trigger] final(store).artists@[ai].albums@.contains(x) ==> (old(store).artists@[ai].albums@.contains(x) || x == bid)
                    &&& forall|x: Uid|
                        old(store).artists@[ai].albums@.contains(x) ==> #[trigger] final(store).artists@[ai].albums@.contains(x)
                    &&& (final(store).artists@[ai].albums@.contains(bid) && !old(store).artists@[ai].albums@.contains(bid) ==> name_in_album_artists(
                        metadata,
                        final(store).artists@[ai].name@,
                    ))
                }
            &&& final(store).artists@.len() >= old(store).artists@.len()
            &&& forall|ai: int|
                old(store).artists@.len() <= ai < final(store).artists@.len() ==> {
                    &&& (#[trigger] final(store).artists@[ai]).tracks@.contains(new_uid)
                    &&& name_in_metadata(metadata, final(store).artists@[ai].name@)
                    &&& (final(store).artists@[ai].albums@.contains(bid)
                        ==> name_in_album_artists(metadata, final(store).artists@[ai].name@))
                    &&& forall|aj: int|
                        0 <= aj < old(store).artists@.len() ==> (#[trigger] old(store).artists@[aj]).name@ != final(store).artists@[ai].name@
                }
            &&& forall|ai: int, aj: int|
                old(store).artists@.len() <= ai < aj < final(store).artists@.len() ==> (
                #[trigger] final(store).artists@[ai]).name@ != (
                #[trigger] final(store).artists@[aj]).name@
            &&& (match metadata.lyrics {
                Some(st) => final(store).lyrics@.len() == old(store).lyrics@.len() + 1 && (forall|
                    li: int,
                |
                    0 <= li < old(store).lyrics@.len() ==> final(store).lyrics@[li] == old(store).lyrics@[li]) && final(store).lyrics@[old(store).lyrics@.len() as int].track_id
                    == new_uid && final(store).lyrics@[old(store).lyrics@.len() as int].status
                    == st,
                None => final(store).lyrics == old(store).lyrics,
            })
            &&& (match metadata.cover_art {
                None => r.cover is None,
                Some(AlbumArt::Bytes(p)) => if has_cover(*blobs, bid) {
                    r.cover is None
                } else {
                    r.cover == Some(CoverArtAction::StoreBytes { album_id: bid, picture: p })
                },
                Some(AlbumArt::Url(u, mk)) => if has_cover(*blobs, bid) {
                    r.cover is None
                } else {
                    r.cover == Some(
                        CoverArtAction::FetchUrl { album_id: bid, url: u, mime: mk },
                    )
                },
            })
        },
{
    let ghost s0 = *store;
    let ghost m = metadata;
    // step 1: the (name, duration) de-duplication check
    if let Some(i) = store.find_track_by_key(metadata.name.as_str(), metadata.duration) {
        let tid = store.tracks[i].track_id;
        proof {
            assert(dedup_hit(s0, m)) by {
                assert(s0.tracks@[i as int].name@ == m.name@ && s0.tracks@[i as int].length
                    == m.duration);
            }
            assert forall|j: int|
                0 <= j < s0.tracks@.len() && (#[trigger] s0.tracks@[j]).name@ == m.name@
                    && s0.tracks@[j].length == m.duration implies tid == s0.tracks@[j].track_id by {
                if j != i {
                    assert(!(s0.tracks@[i as int].name@ == s0.tracks@[j].name@
                        && s0.tracks@[i as int].length == s0.tracks@[j].length));
                }
            }
        }
        return ClassifyOutcome { track_id: tid, cover: None };
    }
    // step 2: the new track record, linked to its album below
    let ti = store.tracks.len();
    store.tracks.push(
        TrackMetadata {
            track_id: new_uid,
            name: metadata.name.clone(),
            length: metadata.duration,
            artists: Vec::new(),
            albums: Vec::new(),
            is_explicit: metadata.is_explicit,
            format: metadata.format,
            number: metadata.number,
            disc_number: metadata.disc_number,
        },
    );
    // step 3: album resolution by exact name, creating the album lazily
    let bi: usize;
    let mut album_new = false;
    match store.find_album_by_name(metadata.album_name.as_str()) {
        Some(j) => {
            push_unique(&mut store.albums[j].tracks, new_uid);
            bi = j;
        },
        None => {
            bi = store.albums.len();
            album_new = true;
            let album_id = store.mint_id();
            let mut b_tracks: Vec<Uid> = Vec::new();
            b_tracks.push(new_uid);
            store.albums.push(
                AlbumMetadata {
                    album_id,
                    name: metadata.album_name.clone(),
                    artists: Vec::new(),
                    tracks: b_tracks,
                    release_date: metadata.release_date,
                    genres: Vec::new(),
                },
            );
        },
    }
    let bid = store.albums[bi].album_id;
    push_unique(&mut store.tracks[ti].albums, bid);
    proof {
        let s2 = *store;
        assert forall|x: Uid| #[trigger] s2.tracks@[ti as int].albums@.contains(x) implies x
            == bid by {
            let k = choose|k: int|
                0 <= k < s2.tracks@[ti as int].albums@.len() && s2.tracks@[ti as int].albums@[k]
                    == x;
        }
        assert(s2.tracks@[ti as int].albums@.contains(bid)) by {
            assert(s2.tracks@[ti as int].albums@[0] == bid);
        }
        if album_new {
            assert forall|x: Uid| #[trigger] s2.albums@[bi as int].tracks@.contains(x) implies x
                == new_uid by {
                let k = choose|k: int|
                    0 <= k < s2.albums@[bi as int].tracks@.len() && s2.albums@[bi as int].tracks@[k]
                        == x;
            }
            assert(s2.albums@[bi as int].tracks@.contains(new_uid)) by {
                assert(s2.albums@[bi as int].tracks@[0] == new_uid);
            }
        }
        lemma_classify_album_wf(s0, s2, ti as int, bi as int, new_uid, album_new);
        assert(classify_mid(s0, m, s2, new_uid, ti as int, bi as int, bid));
    }
    // step 4: artists credited with the album as a whole
    let mut k: usize = 0;
    while k < metadata.album_artists.len()
        invariant
            k <= m.album_artists@.len(),
            metadata.album_artists == m.album_artists,
            ti < store.tracks@.len(),
            bi < store.albums@.len(),
            classify_mid(s0, m, *store, new_uid, ti as int, bi as int, bid),
            store.id_seed <= s0.id_seed + 1 + k,
            s0.id_seed + m.album_artists@.len() + m.artists@.len() + 1 <= u128::MAX,
            forall|q: int|
                0 <= q < k ==> artist_attached(
                    *store,
                    (#[trigger] m.album_artists@[q])@,
                    new_uid,
                    ti as int,
                    bi as int,
                    true,
                ),
        decreases m.album_artists@.len() - k,
    {
        let ghost pre = *store;
        let linked = classify_attach_artist(store, &metadata.album_artists[k], new_uid, ti, bi, true);
        proof {
            let s2 = *store;
            assert(classify_mid(s0, m, s2, new_uid, ti as int, bi as int, bid)) by {
                assert(crate::store::uids_distinct(pre.tracks@[ti as int].artists@));
                assert(crate::store::uids_distinct(s2.tracks@[ti as int].artists@));
                if bi as int >= s0.albums@.len() {
                    assert(crate::store::uids_distinct(pre.albums@[bi as int].artists@));
                    assert(crate::store::uids_distinct(s2.albums@[bi as int].artists@));
                }
                assert forall|ai: int| s0.artists@.len() <= ai < s2.artists@.len() implies {
                    &&& (#[trigger] s2.artists@[ai]).tracks@.contains(new_uid)
                    &&& forall|x: Uid| #[trigger] s2.artists@[ai].tracks@.contains(x) ==> x
                        == new_uid
                    &&& forall|x: Uid| #[trigger] s2.artists@[ai].albums@.contains(x) ==> x == bid
                    &&& name_in_metadata(m, s2.artists@[ai].name@)
                    &&& (s2.artists@[ai].albums@.contains(bid) ==> name_in_album_artists(
                        m,
                        s2.artists@[ai].name@,
                    ))
                } by {
                    if ai < pre.artists@.len() {
                        assert(pre.artists@[ai].tracks@.contains(new_uid));
                        assert(name_in_metadata(m, pre.artists@[ai].name@));
                        assert(s2.artists@[ai].name == pre.artists@[ai].name);
                        if s2.artists@[ai].albums@.contains(bid) {
                            if pre.artists@[ai].albums@.contains(bid) {
                                assert(name_in_album_artists(m, pre.artists@[ai].name@));
                            } else {
                                assert(pre.artists@[ai].artist_id == linked);
                                assert(s2.artists@[ai].name@ == m.album_artists@[k as int]@);
                            }
                        }
                    } else {
                        assert(s2.artists@[ai].name@ == m.album_artists@[k as int]@);
                        assert(name_in_metadata(m, s2.artists@[ai].name@));
                        assert(name_in_album_artists(m, s2.artists@[ai].name@));
                    }
                }
                assert forall|ai: int, aj: int|
                    (s0.artists@.len() <= ai < s2.artists@.len() && 0 <= aj < s0.artists@.len())
                        implies (#[trigger] s2.artists@[ai]).name@ != (
                #[trigger] s0.artists@[aj]).name@ by {
                    assert(pre.artists@[aj].name == s0.artists@[aj].name);
                    if ai < pre.artists@.len() {
                        assert(s2.artists@[ai].name == pre.artists@[ai].name);
                        assert(pre.artists@[ai].name@ != s0.artists@[aj].name@);
                    } else {
                        assert(s2.artists@[ai].name@ != pre.artists@[aj].name@);
                    }
                }
                assert forall|ai: int, aj: int|
                    s0.artists@.len() <= ai < aj < s2.artists@.len() implies (
                #[trigger] s2.artists@[ai]).name@ != (#[trigger] s2.artists@[aj]).name@ by {
                    assert(s2.artists@[ai].name == pre.artists@[ai].name);
                    if aj < pre.artists@.len() {
                        assert(s2.artists@[aj].name == pre.artists@[aj].name);
                        assert(pre.artists@[ai].name@ != pre.artists@[aj].name@);
                    } else {
                        assert(s2.artists@[aj].name@ != pre.artists@[ai].name@);
                    }
                }
                assert forall|ai: int|
                    (0 <= ai < s0.artists@.len() && (#[trigger] s2.artists@[ai]).albums@.contains(
                        bid,
                    ) && !s0.artists@[ai].albums@.contains(bid)) implies name_in_album_artists(
                    m,
                    s2.artists@[ai].name@,
                ) by {
                    assert(s2.artists@[ai].name == pre.artists@[ai].name);
                    if pre.artists@[ai].albums@.contains(bid) {
                        assert(name_in_album_artists(m, pre.artists@[ai].name@));
                    } else {
                        assert(pre.artists@[ai].artist_id == linked);
                        assert(s2.artists@[ai].name@ == m.album_artists@[k as int]@);
                    }
                }
                assert forall|x: Uid|
                    #[trigger] s2.albums@[bi as int].artists@.contains(x) implies ((bi
                        < s0.albums@.len() && s0.albums@[bi as int].artists@.contains(x))
                        || exists|ai: int|
                        0 <= ai < s2.artists@.len() && (#[trigger] s2.artists@[ai]).artist_id == x
                            && name_in_album_artists(m, s2.artists@[ai].name@)) by {
                    if pre.albums@[bi as int].artists@.contains(x) {
                        if !(bi < s0.albums@.len() && s0.albums@[bi as int].artists@.contains(x)) {
                            let ai = choose|ai: int|
                                0 <= ai < pre.artists@.len() && (
                                #[trigger] pre.artists@[ai]).artist_id == x
                                    && name_in_album_artists(m, pre.artists@[ai].name@);
                            assert(s2.artists@[ai].artist_id == x);
                            assert(s2.artists@[ai].name == pre.artists@[ai].name);
                        }
                    } else {
                        assert(x == linked);
                        let ai = choose|ai: int|
                            0 <= ai < s2.artists@.len() && {
                                let a = #[trigger] s2.artists@[ai];
                                &&& a.artist_id == linked
                                &&& a.name@ == m.album_artists@[k as int]@
                                &&& a.tracks@.contains(new_uid)
                            };
                        assert(name_in_album_artists(m, s2.artists@[ai].name@));
                    }
                }
            }
            assert forall|q: int|
                0 <= q < k + 1 implies artist_attached(
                s2,
                (#[trigger] m.album_artists@[q])@,
                new_uid,
                ti as int,
                bi as int,
                true,
            ) by {
                if q < k {
                    let ai = choose|ai: int|
                        0 <= ai < pre.artists@.len() && {
                            let a = #[trigger] pre.artists@[ai];
                            &&& a.name@ == m.album_artists@[q]@
                            &&& a.tracks@.contains(new_uid)
                            &&& pre.tracks@[ti as int].artists@.contains(a.artist_id)
                            &&& a.albums@.contains(pre.albums@[bi as int].album_id)
                            &&& pre.albums@[bi as int].artists@.contains(a.artist_id)
                        };
                    assert(s2.artists@[ai].name == pre.artists@[ai].name);
                    assert(s2.artists@[ai].tracks@.contains(new_uid));
                    assert(s2.tracks@[ti as int].artists@.contains(s2.artists@[ai].artist_id));
                    assert(s2.artists@[ai].albums@.contains(bid));
                    assert(s2.albums@[bi as int].artists@.contains(s2.artists@[ai].artist_id));
                } else {
                    let ai = choose|ai: int|
                        0 <= ai < s2.artists@.len() && {
                            let a = #[trigger] s2.artists@[ai];
                            &&& a.name@ == m.album_artists@[k as int]@
                            &&& a.tracks@.contains(new_uid)
                            &&& a.albums@.contains(pre.albums@[bi as int].album_id)
                        };
                }
            }
        }
        k += 1;
    }
    // step 5: artists credited with this track only
    let mut k2: usize = 0;
    while k2 < metadata.artists.len()
        invariant
            k2 <= m.artists@.len(),
            metadata.artists == m.artists,
            metadata.album_artists == m.album_artists,
            ti < store.tracks@.len(),
            bi < store.albums@.len(),
            classify_mid(s0, m, *store, new_uid, ti as int, bi as int, bid),
            store.id_seed <= s0.id_seed + 1 + m.album_artists@.len() + k2,
            s0.id_seed + m.album_artists@.len() + m.artists@.len() + 1 <= u128::MAX,
            forall|q: int|
                0 <= q < m.album_artists@.len() ==> artist_attached(
                    *store,
                    (#[trigger] m.album_artists@[q])@,
                    new_uid,
                    ti as int,
                    bi as int,
                    true,
                ),
            forall|q: int|
                0 <= q < k2 ==> artist_attached(
                    *store,
                    (#[trigger] m.artists@[q])@,
                    new_uid,
                    ti as int,
                    bi as int,
                    false,
                ),
        decreases m.artists@.len() - k2,
    {
        let ghost pre = *store;
        if string_in_list(&metadata.album_artists, metadata.artists[k2].as_str()) {
            proof {
                let q = choose|q: int|
                    0 <= q < m.album_artists@.len() && (#[trigger] m.album_artists@[q])@
                        == m.artists@[k2 as int]@;
                assert(artist_attached(
                    *store,
                    m.album_artists@[q]@,
                    new_uid,
                    ti as int,
                    bi as int,
                    true,
                ));
                let ai = choose|ai: int|
                    0 <= ai < store.artists@.len() && {
                        let a = #[trigger] store.artists@[ai];
                        &&& a.name@ == m.album_artists@[q]@
                        &&& a.tracks@.contains(new_uid)
                        &&& store.tracks@[ti as int].artists@.contains(a.artist_id)
                    };
                assert(store.artists@[ai].name@ == m.artists@[k2 as int]@);
                assert(artist_attached(
                    *store,
                    m.artists@[k2 as int]@,
                    new_uid,
                    ti as int,
                    bi as int,
                    false,
                ));
            }
        } else {
            let _ = classify_attach_artist(store, &metadata.artists[k2], new_uid, ti, bi, false);
            proof {
                let s2 = *store;
                assert(classify_mid(s0, m, s2, new_uid, ti as int, bi as int, bid)) by {
                    assert(crate::store::uids_distinct(pre.tracks@[ti as int].artists@));
                    assert(crate::store::uids_distinct(s2.tracks@[ti as int].artists@));
                    if bi as int >= s0.albums@.len() {
                        assert(crate::store::uids_distinct(pre.albums@[bi as int].artists@));
                        assert(crate::store::uids_distinct(s2.albums@[bi as int].artists@));
                    }
                    assert forall|ai: int| s0.artists@.len() <= ai < s2.artists@.len() implies {
                        &&& (#[trigger] s2.artists@[ai]).tracks@.contains(new_uid)
                        &&& forall|x: Uid| #[trigger] s2.artists@[ai].tracks@.contains(x) ==> x
                            == new_uid
                        &&& forall|x: Uid| #[trigger] s2.artists@[ai].albums@.contains(x) ==> x
                            == bid
                        &&& name_in_metadata(m, s2.artists@[ai].name@)
                        &&& (s2.artists@[ai].albums@.contains(bid) ==> name_in_album_artists(
                            m,
                            s2.artists@[ai].name@,
                        ))
                    } by {
                        if ai < pre.artists@.len() {
                            assert(pre.artists@[ai].tracks@.contains(new_uid));
                            assert(name_in_metadata(m, pre.artists@[ai].name@));
                            assert(s2.artists@[ai].name == pre.artists@[ai].name);
                            if s2.artists@[ai].albums@.contains(bid) {
                                assert(pre.artists@[ai].albums@.contains(bid));
                                assert(name_in_album_artists(m, pre.artists@[ai].name@));
                            }
                        } else {
                            assert(s2.artists@[ai].name@ == m.artists@[k2 as int]@);
                            assert(name_in_metadata(m, s2.artists@[ai].name@));
                            assert(!s2.artists@[ai].albums@.contains(bid));
                        }
                    }
                    assert forall|ai: int, aj: int|
                        (s0.artists@.len() <= ai < s2.artists@.len() && 0 <= aj
                            < s0.artists@.len()) implies (#[trigger] s2.artists@[ai]).name@ != (
                    #[trigger] s0.artists@[aj]).name@ by {
                        assert(pre.artists@[aj].name == s0.artists@[aj].name);
                        if ai < pre.artists@.len() {
                            assert(s2.artists@[ai].name == pre.artists@[ai].name);
                            assert(pre.artists@[ai].name@ != s0.artists@[aj].name@);
                        } else {
                            assert(s2.artists@[ai].name@ != pre.artists@[aj].name@);
                        }
                    }
                    assert forall|ai: int, aj: int|
                        s0.artists@.len() <= ai < aj < s2.artists@.len() implies (
                    #[trigger] s2.artists@[ai]).name@ != (#[trigger] s2.artists@[aj]).name@ by {
                        assert(s2.artists@[ai].name == pre.artists@[ai].name);
                        if aj < pre.artists@.len() {
                            assert(s2.artists@[aj].name == pre.artists@[aj].name);
                            assert(pre.artists@[ai].name@ != pre.artists@[aj].name@);
                        } else {
                            assert(s2.artists@[aj].name@ != pre.artists@[ai].name@);
                        }
                    }
                    assert forall|ai: int|
                        (0 <= ai < s0.artists@.len() && (
                        #[trigger] s2.artists@[ai]).albums@.contains(bid)
                            && !s0.artists@[ai].albums@.contains(bid))
                        implies name_in_album_artists(m, s2.artists@[ai].name@) by {
                        assert(s2.artists@[ai].name == pre.artists@[ai].name);
                        assert(pre.artists@[ai].albums@.contains(bid));
                        assert(name_in_album_artists(m, pre.artists@[ai].name@));
                    }
                    assert forall|x: Uid|
                        #[trigger] s2.albums@[bi as int].artists@.contains(x) implies ((bi
                            < s0.albums@.len() && s0.albums@[bi as int].artists@.contains(x))
                            || exists|ai: int|
                            0 <= ai < s2.artists@.len() && (#[trigger] s2.artists@[ai]).artist_id
                                == x && name_in_album_artists(m, s2.artists@[ai].name@)) by {
                        assert(pre.albums@[bi as int].artists@.contains(x));
                        if !(bi < s0.albums@.len() && s0.albums@[bi as int].artists@.contains(x)) {
                            let ai = choose|ai: int|
                                0 <= ai < pre.artists@.len() && (
                                #[trigger] pre.artists@[ai]).artist_id == x
                                    && name_in_album_artists(m, pre.artists@[ai].name@);
                            assert(s2.artists@[ai].artist_id == x);
                            assert(s2.artists@[ai].name == pre.artists@[ai].name);
                        }
                    }
                }
                assert forall|q: int|
                    0 <= q < m.album_artists@.len() implies artist_attached(
                    s2,
                    (#[trigger] m.album_artists@[q])@,
                    new_uid,
                    ti as int,
                    bi as int,
                    true,
                ) by {
                    let ai = choose|ai: int|
                        0 <= ai < pre.artists@.len() && {
                            let a = #[trigger] pre.artists@[ai];
                            &&& a.name@ == m.album_artists@[q]@
                            &&& a.tracks@.contains(new_uid)
                            &&& pre.tracks@[ti as int].artists@.contains(a.artist_id)
                            &&& a.albums@.contains(pre.albums@[bi as int].album_id)
                            &&& pre.albums@[bi as int].artists@.contains(a.artist_id)
                        };
                    assert(s2.artists@[ai].name == pre.artists@[ai].name);
                    assert(s2.artists@[ai].tracks@.contains(new_uid));
                    assert(s2.tracks@[ti as int].artists@.contains(s2.artists@[ai].artist_id));
                    assert(s2.artists@[ai].albums@.contains(bid));
                    assert(s2.albums@[bi as int].artists@.contains(s2.artists@[ai].artist_id));
                }
                assert forall|q: int|
                    0 <= q < k2 implies artist_attached(
                    s2,
                    (#[trigger] m.artists@[q])@,
                    new_uid,
                    ti as int,
                    bi as int,
                    false,
                ) by {
                    let ai = choose|ai: int|
                        0 <= ai < pre.artists@.len() && {
                            let a = #[trigger] pre.artists@[ai];
                            &&& a.name@ == m.artists@[q]@
                            &&& a.tracks@.contains(new_uid)
                            &&& pre.tracks@[ti as int].artists@.contains(a.artist_id)
                        };
                    assert(s2.artists@[ai].name == pre.artists@[ai].name);
                    assert(s2.artists@[ai].tracks@.contains(new_uid));
                    assert(s2.tracks@[ti as int].artists@.contains(s2.artists@[ai].artist_id));
                }
            }
        }
        k2 += 1;
    }
    // step 6: cache the lyrics payload under the new identifier
    let ghost s5 = *store;
    if let Some(st) = metadata.lyrics {
        store.lyrics.push(TrackLyrics { track_id: new_uid, status: st });
        proof {
            let s6 = *store;
            let ln = s5.lyrics@.len() as int;
            assert(wf(s6)) by {
                assert forall|i: int, j: int|
                    0 <= i < j < s6.lyrics@.len() implies (#[trigger] s6.lyrics@[i]).track_id != (
                #[trigger] s6.lyrics@[j]).track_id by {
                    if j == ln {
                        assert(s6.lyrics@[i] == s0.lyrics@[i]);
                        if s6.lyrics@[i].track_id == new_uid {
                            assert(has_lyrics_row(s0, new_uid)) by {
                                assert(s0.lyrics@[i].track_id == new_uid);
                            }
                        }
                    } else {
                        assert(s6.lyrics@[i] == s5.lyrics@[i]);
                        assert(s6.lyrics@[j] == s5.lyrics@[j]);
                    }
                }
                assert forall|li: int|
                    0 <= li < s6.lyrics@.len() implies has_track_id(
                    s6,
                    (#[trigger] s6.lyrics@[li]).track_id,
                ) by {
                    if li == ln {
                        assert(s6.tracks@[ti as int].track_id == new_uid);
                    } else {
                        assert(s6.lyrics@[li] == s5.lyrics@[li]);
                        assert(has_track_id(s5, s6.lyrics@[li].track_id));
                    }
                }
                assert forall|ui: int| 0 <= ui < s6.undefined_tracks@.len() implies {
                    let id = (#[trigger] s6.undefined_tracks@[ui]).track_id;
                    &&& !has_track_id(s6, id)
                    &&& !has_artist_id(s6, id)
                    &&& !has_album_id(s6, id)
                    &&& !has_lyrics_row(s6, id)
                } by {
                    assert(s6.undefined_tracks@[ui] == s0.undefined_tracks@[ui]);
                    let id = s6.undefined_tracks@[ui].track_id;
                    assert(id != new_uid);
                    assert(!has_lyrics_row(s5, id));
                    if has_lyrics_row(s6, id) {
                        let li = choose|li: int|
                            0 <= li < s6.lyrics@.len() && (#[trigger] s6.lyrics@[li]).track_id
                                == id;
                        if li < ln {
                            assert(s5.lyrics@[li].track_id == id);
                        }
                    }
                }
            }
        }
    }
    // step 7: decide what is left to do for the album's cover art
    let cover: Option<CoverArtAction> = match metadata.cover_art {
        None => None,
        Some(AlbumArt::Bytes(p)) => {
            if blobs.cover_exists(bid) {
                None
            } else {
                Some(CoverArtAction::StoreBytes { album_id: bid, picture: p })
            }
        },
        Some(AlbumArt::Url(u, mk)) => {
            if blobs.cover_exists(bid) {
                None
            } else {
                Some(CoverArtAction::FetchUrl { album_id: bid, url: u, mime: mk })
            }
        },
    };
    proof {
        assert(!dedup_hit(s0, m));
        assert(final_album_index(*store, bid) == bi as int) by {
            reveal(final_album_index);
        }
    }
    ClassifyOutcome { track_id: new_uid, cover }
}

/// Law: a classification that created a track leaves the store holding that
/// track's (name, duration) key, so a later classification of metadata
/// carrying the same key takes the de-duplication branch of
/// `classify_insert_metadata`: by its contract it returns the stored
/// identifier and changes nothing.
pub proof fn lemma_reclassification_is_noop(
    s: AstralStore,
    m1: ExtractedTrackMetadata,
    m2: ExtractedTrackMetadata,
    ti: int,
)
    requires
        0 <= ti < s.tracks@.len(),
        s.tracks@[ti].name@ == m1.name@,
        s.tracks@[ti].length == m1.duration,
        m2.name@ == m1.name@,
        m2.duration == m1.duration,
    ensures
        dedup_hit(s, m2),
{
    assert(s.tracks@[ti].name@ == m2.name@ && s.tracks@[ti].length == m2.duration);
}

/// The index of the album carrying the given identifier.
#[verifier::opaque]
pub open spec fn final_album_index(s: AstralStore, bid: Uid) -> int {
    choose|bi: int| 0 <= bi < s.albums@.len() && (#[trigger] s.albums@[bi]).album_id == bid
}

} // verus!
