//! The metadata store: the collections of tracks, artists, albums, staged
//! uploads and lyrics rows, together with the well-formedness invariant that
//! every mutation of the relationship graph preserves.
use vstd::prelude::*;

verus! {

use crate::model::{
    AlbumMetadata, ArtistMetadata, TrackLyrics, TrackMetadata, Uid, UndefinedTrack,
};
use crate::text::str_eq_str;

/// In-memory model of the metadata store's collections.
///
/// `id_seed` drives identifier minting: every identifier in use is strictly
/// below it, so freshly minted identifiers never collide.
#[derive(Debug)]
pub struct AstralStore {
    /// Track records.
    pub tracks: Vec<TrackMetadata>,
    /// Artist records.
    pub artists: Vec<ArtistMetadata>,
    /// Album records.
    pub albums: Vec<AlbumMetadata>,
    /// Staged uploads awaiting classification.
    pub undefined_tracks: Vec<UndefinedTrack>,
    /// Cached lyrics rows, at most one per track.
    pub lyrics: Vec<TrackLyrics>,
    /// Source of fresh identifiers.
    pub id_seed: u128,
}

/// Whether some track record carries the given identifier.
pub open spec fn has_track_id(s: AstralStore, id: Uid) -> bool {
    exists|i: int| 0 <= i < s.tracks@.len() && (#[trigger] s.tracks@[i]).track_id == id
}

/// Whether some artist record carries the given identifier.
pub open spec fn has_artist_id(s: AstralStore, id: Uid) -> bool {
    exists|i: int| 0 <= i < s.artists@.len() && (#[trigger] s.artists@[i]).artist_id == id
}

/// Whether some album record carries the given identifier.
pub open spec fn has_album_id(s: AstralStore, id: Uid) -> bool {
    exists|i: int| 0 <= i < s.albums@.len() && (#[trigger] s.albums@[i]).album_id == id
}

/// Whether a lyrics row exists for the given track identifier.
pub open spec fn has_lyrics_row(s: AstralStore, id: Uid) -> bool {
    exists|i: int| 0 <= i < s.lyrics@.len() && (#[trigger] s.lyrics@[i]).track_id == id
}

/// No two track records share an identifier.
pub open spec fn unique_track_ids(s: AstralStore) -> bool {
    forall|i: int, j: int|
        0 <= i < j < s.tracks@.len() ==> (#[trigger] s.tracks@[i]).track_id != (
        #[trigger] s.tracks@[j]).track_id
}

/// No two artist records share an identifier.
pub open spec fn unique_artist_ids(s: AstralStore) -> bool {
    forall|i: int, j: int|
        0 <= i < j < s.artists@.len() ==> (#[trigger] s.artists@[i]).artist_id != (
        #[trigger] s.artists@[j]).artist_id
}

/// No two album records share an identifier.
pub open spec fn unique_album_ids(s: AstralStore) -> bool {
    forall|i: int, j: int|
        0 <= i < j < s.albums@.len() ==> (#[trigger] s.albums@[i]).album_id != (
        #[trigger] s.albums@[j]).album_id
}

/// No two staged uploads share an identifier, and no two share a content hash.
pub open spec fn unique_undefined(s: AstralStore) -> bool {
    forall|i: int, j: int|
        0 <= i < j < s.undefined_tracks@.len() ==> {
            &&& (#[trigger] s.undefined_tracks@[i]).track_id != (
            #[trigger] s.undefined_tracks@[j]).track_id
            &&& s.undefined_tracks@[i].hash@ != s.undefined_tracks@[j].hash@
        }
}

/// At most one lyrics row per track identifier.
pub open spec fn unique_lyrics(s: AstralStore) -> bool {
    forall|i: int, j: int|
        0 <= i < j < s.lyrics@.len() ==> (#[trigger] s.lyrics@[i]).track_id != (
        #[trigger] s.lyrics@[j]).track_id
}

/// Every artist referenced by a track exists.
pub open spec fn track_artist_refs(s: AstralStore) -> bool {
    forall|ti: int, x: Uid|
        0 <= ti < s.tracks@.len() && #[trigger] s.tracks@[ti].artists@.contains(x)
            ==> has_artist_id(s, x)
}

/// Every album referenced by a track exists.
pub open spec fn track_album_refs(s: AstralStore) -> bool {
    forall|ti: int, x: Uid|
        0 <= ti < s.tracks@.len() && #[trigger] s.tracks@[ti].albums@.contains(x)
            ==> has_album_id(s, x)
}

/// Every artist referenced by an album exists.
pub open spec fn album_artist_refs(s: AstralStore) -> bool {
    forall|bi: int, x: Uid|
        0 <= bi < s.albums@.len() && #[trigger] s.albums@[bi].artists@.contains(x)
            ==> has_artist_id(s, x)
}

/// Every track referenced by an album exists.
pub open spec fn album_track_refs(s: AstralStore) -> bool {
    forall|bi: int, x: Uid|
        0 <= bi < s.albums@.len() && #[trigger] s.albums@[bi].tracks@.contains(x)
            ==> has_track_id(s, x)
}

/// Every album referenced by an artist exists.
pub open spec fn artist_album_refs(s: AstralStore) -> bool {
    forall|ai: int, x: Uid|
        0 <= ai < s.artists@.len() && #[trigger] s.artists@[ai].albums@.contains(x)
            ==> has_album_id(s, x)
}

/// Every track referenced by an artist exists.
pub open spec fn artist_track_refs(s: AstralStore) -> bool {
    forall|ai: int, x: Uid|
        0 <= ai < s.artists@.len() && #[trigger] s.artists@[ai].tracks@.contains(x)
            ==> has_track_id(s, x)
}

/// Every lyrics row belongs to an existing track.
pub open spec fn lyrics_refs(s: AstralStore) -> bool {
    forall|li: int|
        0 <= li < s.lyrics@.len() ==> has_track_id(s, (#[trigger] s.lyrics@[li]).track_id)
}

/// A track lists an album exactly when that album lists the track.
pub open spec fn track_album_sync(s: AstralStore) -> bool {
    forall|ti: int, bi: int|
        0 <= ti < s.tracks@.len() && 0 <= bi < s.albums@.len() ==> ((
        #[trigger] s.tracks@[ti]).albums@.contains(s.albums@[bi].album_id) <==> (
        #[trigger] s.albums@[bi]).tracks@.contains(s.tracks@[ti].track_id))
}

/// A track lists an artist exactly when that artist lists the track.
pub open spec fn track_artist_sync(s: AstralStore) -> bool {
    forall|ti: int, ai: int|
        0 <= ti < s.tracks@.len() && 0 <= ai < s.artists@.len() ==> ((
        #[trigger] s.tracks@[ti]).artists@.contains(s.artists@[ai].artist_id) <==> (
        #[trigger] s.artists@[ai]).tracks@.contains(s.tracks@[ti].track_id))
}

/// An album lists an artist exactly when that artist lists the album.
pub open spec fn album_artist_sync(s: AstralStore) -> bool {
    forall|bi: int, ai: int|
        0 <= bi < s.albums@.len() && 0 <= ai < s.artists@.len() ==> ((
        #[trigger] s.albums@[bi]).artists@.contains(s.artists@[ai].artist_id) <==> (
        #[trigger] s.artists@[ai]).albums@.contains(s.albums@[bi].album_id))
}

/// A staged upload's identifier is not yet used by any classified entity.
pub open spec fn undefined_disjoint(s: AstralStore) -> bool {
    forall|ui: int|
        0 <= ui < s.undefined_tracks@.len() ==> {
            let id = (#[trigger] s.undefined_tracks@[ui]).track_id;
            &&& !has_track_id(s, id)
            &&& !has_artist_id(s, id)
            &&& !has_album_id(s, id)
            &&& !has_lyrics_row(s, id)
        }
}

/// Every identifier in use lies strictly below the minting seed.
pub open spec fn ids_bounded(s: AstralStore) -> bool {
    &&& forall|i: int|
        0 <= i < s.tracks@.len() ==> (#[trigger] s.tracks@[i]).track_id.0 < s.id_seed
    &&& forall|i: int|
        0 <= i < s.artists@.len() ==> (#[trigger] s.artists@[i]).artist_id.0 < s.id_seed
    &&& forall|i: int|
        0 <= i < s.albums@.len() ==> (#[trigger] s.albums@[i]).album_id.0 < s.id_seed
    &&& forall|i: int|
        0 <= i < s.undefined_tracks@.len() ==> (#[trigger] s.undefined_tracks@[i]).track_id.0
            < s.id_seed
}

/// Well-formedness of the store: unique identifiers, no dangling references,
/// bidirectionally consistent relationship lists, staged uploads disjoint from
/// classified entities, and all identifiers below the minting seed.
pub open spec fn wf(s: AstralStore) -> bool {
    &&& unique_track_ids(s)
    &&& unique_artist_ids(s)
    &&& unique_album_ids(s)
    &&& unique_undefined(s)
    &&& unique_lyrics(s)
    &&& track_artist_refs(s)
    &&& track_album_refs(s)
    &&& album_artist_refs(s)
    &&& album_track_refs(s)
    &&& artist_album_refs(s)
    &&& artist_track_refs(s)
    &&& lyrics_refs(s)
    &&& track_album_sync(s)
    &&& track_artist_sync(s)
    &&& album_artist_sync(s)
    &&& undefined_disjoint(s)
    &&& ids_bounded(s)
}

/// No two tracks share the (name, duration) de-duplication key.
pub open spec fn dedup_keys_unique(s: AstralStore) -> bool {
    forall|i: int, j: int|
        0 <= i < j < s.tracks@.len() ==> !((#[trigger] s.tracks@[i]).name@ == (
        #[trigger] s.tracks@[j]).name@ && s.tracks@[i].length == s.tracks@[j].length)
}

impl AstralStore {
    /// An empty store, minting identifiers from the given seed onward.
    pub fn new(seed: u128) -> (r: AstralStore)
        ensures
            wf(r),
            dedup_keys_unique(r),
            r.tracks@.len() == 0,
            r.artists@.len() == 0,
            r.albums@.len() == 0,
            r.undefined_tracks@.len() == 0,
            r.lyrics@.len() == 0,
            r.id_seed == seed,
    {
        AstralStore {
            tracks: Vec::new(),
            artists: Vec::new(),
            albums: Vec::new(),
            undefined_tracks: Vec::new(),
            lyrics: Vec::new(),
            id_seed: seed,
        }
    }

    /// Mints a fresh identifier: one that no record in the store carries.
    pub fn mint_id(&mut self) -> (r: Uid)
        requires
            old(self).id_seed < u128::MAX,
        ensures
            r.0 == old(self).id_seed,
            final(self).id_seed == old(self).id_seed + 1,
            final(self).tracks == old(self).tracks,
            final(self).artists == old(self).artists,
            final(self).albums == old(self).albums,
            final(self).undefined_tracks == old(self).undefined_tracks,
            final(self).lyrics == old(self).lyrics,
            ids_bounded(*old(self)) ==> !has_track_id(*old(self), r) && !has_artist_id(
                *old(self),
                r,
            ) && !has_album_id(*old(self), r),
    {
        let r = Uid(self.id_seed);
        self.id_seed = self.id_seed + 1;
        r
    }

    /// Finds the index of the track with the given (name, duration) key.
    pub fn find_track_by_key(&self, name: &str, length: u32) -> (r: Option<usize>)
        ensures
            match r {
                Some(i) => i < self.tracks@.len() && self.tracks@[i as int].name@ == name@
                    && self.tracks@[i as int].length == length,
                None => forall|j: int|
                    0 <= j < self.tracks@.len() ==> !((#[trigger] self.tracks@[j]).name@ == name@
                        && self.tracks@[j].length == length),
            },
    {
        let mut i: usize = 0;
        while i < self.tracks.len()
            invariant
                i <= self.tracks@.len(),
                forall|j: int|
                    0 <= j < i ==> !((#[trigger] self.tracks@[j]).name@ == name@
                        && self.tracks@[j].length == length),
            decreases self.tracks@.len() - i,
        {
            if self.tracks[i].length == length && str_eq_str(self.tracks[i].name.as_str(), name) {
                return Some(i);
            }
            i += 1;
        }
        None
    }

    /// Finds the first album with the given name.
    pub fn find_album_by_name(&self, name: &str) -> (r: Option<usize>)
        ensures
            match r {
                Some(i) => i < self.albums@.len() && self.albums@[i as int].name@ == name@
                    && forall|j: int|
                    0 <= j < i ==> (#[trigger] self.albums@[j]).name@ != name@,
                None => forall|j: int|
                    0 <= j < self.albums@.len() ==> (#[trigger] self.albums@[j]).name@ != name@,
            },
    {
        let mut i: usize = 0;
        while i < self.albums.len()
            invariant
                i <= self.albums@.len(),
                forall|j: int| 0 <= j < i ==> (#[trigger] self.albums@[j]).name@ != name@,
            decreases self.albums@.len() - i,
        {
            if str_eq_str(self.albums[i].name.as_str(), name) {
                return Some(i);
            }
            i += 1;
        }
        None
    }

    /// Finds the first artist with the given name.
    pub fn find_artist_by_name(&self, name: &str) -> (r: Option<usize>)
        ensures
            match r {
                Some(i) => i < self.artists@.len() && self.artists@[i as int].name@ == name@
                    && forall|j: int|
                    0 <= j < i ==> (#[trigger] self.artists@[j]).name@ != name@,
                None => forall|j: int|
                    0 <= j < self.artists@.len() ==> (#[trigger] self.artists@[j]).name@ != name@,
            },
    {
        let mut i: usize = 0;
        while i < self.artists.len()
            invariant
                i <= self.artists@.len(),
                forall|j: int| 0 <= j < i ==> (#[trigger] self.artists@[j]).name@ != name@,
            decreases self.artists@.len() - i,
        {
            if str_eq_str(self.artists[i].name.as_str(), name) {
                return Some(i);
            }
            i += 1;
        }
        None
    }

    /// Finds the index of the track with the given identifier.
    pub fn index_of_track(&self, id: Uid) -> (r: Option<usize>)
        ensures
            match r {
                Some(i) => i < self.tracks@.len() && self.tracks@[i as int].track_id == id,
                None => !has_track_id(*self, id),
            },
    {
        let mut i: usize = 0;
        while i < self.tracks.len()
            invariant
                i <= self.tracks@.len(),
                forall|j: int| 0 <= j < i ==> (#[trigger] self.tracks@[j]).track_id != id,
            decreases self.tracks@.len() - i,
        {
            if self.tracks[i].track_id == id {
                return Some(i);
            }
            i += 1;
        }
        None
    }

    /// Finds the index of the artist with the given identifier.
    pub fn index_of_artist(&self, id: Uid) -> (r: Option<usize>)
        ensures
            match r {
                Some(i) => i < self.artists@.len() && self.artists@[i as int].artist_id == id,
                None => !has_artist_id(*self, id),
            },
    {
        let mut i: usize = 0;
        while i < self.artists.len()
            invariant
                i <= self.artists@.len(),
                forall|j: int| 0 <= j < i ==> (#[trigger] self.artists@[j]).artist_id != id,
            decreases self.artists@.len() - i,
        {
            if self.artists[i].artist_id == id {
                return Some(i);
            }
            i += 1;
        }
        None
    }

    /// Finds the index of the album with the given identifier.
    pub fn index_of_album(&self, id: Uid) -> (r: Option<usize>)
        ensures
            match r {
                Some(i) => i < self.albums@.len() && self.albums@[i as int].album_id == id,
                None => !has_album_id(*self, id),
            },
    {
        let mut i: usize = 0;
        while i < self.albums.len()
            invariant
                i <= self.albums@.len(),
                forall|j: int| 0 <= j < i ==> (#[trigger] self.albums@[j]).album_id != id,
            decreases self.albums@.len() - i,
        {
            if self.albums[i].album_id == id {
                return Some(i);
            }
            i += 1;
        }
        None
    }

    /// Finds the index of the staged upload with the given identifier.
    pub fn index_of_undefined(&self, id: Uid) -> (r: Option<usize>)
        ensures
            match r {
                Some(i) => i < self.undefined_tracks@.len()
                    && self.undefined_tracks@[i as int].track_id == id,
                None => forall|j: int|
                    0 <= j < self.undefined_tracks@.len() ==> (
                    #[trigger] self.undefined_tracks@[j]).track_id != id,
            },
    {
        let mut i: usize = 0;
        while i < self.undefined_tracks.len()
            invariant
                i <= self.undefined_tracks@.len(),
                forall|j: int|
                    0 <= j < i ==> (#[trigger] self.undefined_tracks@[j]).track_id != id,
            decreases self.undefined_tracks@.len() - i,
        {
            if self.undefined_tracks[i].track_id == id {
                return Some(i);
            }
            i += 1;
        }
        None
    }

    /// Finds the staged upload carrying the given content hash.
    pub fn find_undefined_by_hash(&self, hash: &str) -> (r: Option<usize>)
        ensures
            match r {
                Some(i) => i < self.undefined_tracks@.len()
                    && self.undefined_tracks@[i as int].hash@ == hash@,
                None => forall|j: int|
                    0 <= j < self.undefined_tracks@.len() ==> (
                    #[trigger] self.undefined_tracks@[j]).hash@ != hash@,
            },
    {
        let mut i: usize = 0;
        while i < self.undefined_tracks.len()
            invariant
                i <= self.undefined_tracks@.len(),
                forall|j: int| 0 <= j < i ==> (#[trigger] self.undefined_tracks@[j]).hash@ != hash@,
            decreases self.undefined_tracks@.len() - i,
        {
            if str_eq_str(self.undefined_tracks[i].hash.as_str(), hash) {
                return Some(i);
            }
            i += 1;
        }
        None
    }

    /// Finds the index of the lyrics row for the given track.
    pub fn index_of_lyrics(&self, id: Uid) -> (r: Option<usize>)
        ensures
            match r {
                Some(i) => i < self.lyrics@.len() && self.lyrics@[i as int].track_id == id,
                None => !has_lyrics_row(*self, id),
            },
    {
        let mut i: usize = 0;
        while i < self.lyrics.len()
            invariant
                i <= self.lyrics@.len(),
                forall|j: int| 0 <= j < i ==> (#[trigger] self.lyrics@[j]).track_id != id,
            decreases self.lyrics@.len() - i,
        {
            if self.lyrics[i].track_id == id {
                return Some(i);
            }
            i += 1;
        }
        None
    }
}

/// No identifier occurs twice in the list.
pub open spec fn uids_distinct(v: Seq<Uid>) -> bool {
    forall|i: int, j: int| 0 <= i < j < v.len() ==> v[i] != v[j]
}

/// Returns whether an identifier list contains the given identifier.
pub fn contains_uid(v: &Vec<Uid>, id: Uid) -> (r: bool)
    ensures
        r == v@.contains(id),
{
    let mut i: usize = 0;
    while i < v.len()
        invariant
            i <= v@.len(),
            forall|j: int| 0 <= j < i ==> v@[j] != id,
        decreases v@.len() - i,
    {
        if v[i] == id {
            return true;
        }
        i += 1;
    }
    false
}

/// Adds an identifier to a list unless it is already present (set semantics).
pub fn push_unique(v: &mut Vec<Uid>, id: Uid)
    ensures
        final(v)@ == if old(v)@.contains(id) {
            old(v)@
        } else {
            old(v)@.push(id)
        },
        final(v)@.contains(id),
        forall|x: Uid| #[trigger] final(v)@.contains(x) <==> (old(v)@.contains(x) || x == id),
{
    if !contains_uid(v, id) {
        v.push(id);
        assert(final(v)@.contains(id)) by {
            assert(final(v)@[final(v)@.len() - 1] == id);
        }
        assert forall|x: Uid| #[trigger] final(v)@.contains(x) implies (old(v)@.contains(x) || x
            == id) by {
            let k = choose|k: int| 0 <= k < final(v)@.len() && final(v)@[k] == x;
            if k < old(v)@.len() {
                assert(old(v)@[k] == x);
            }
        }
        assert forall|x: Uid| (old(v)@.contains(x) || x == id) implies #[trigger] final(v)@.contains(
            x,
        ) by {
            if old(v)@.contains(x) {
                let k = choose|k: int| 0 <= k < old(v)@.len() && old(v)@[k] == x;
                assert(final(v)@[k] == x);
            }
        }
    }
}

/// Removes every occurrence of an identifier from a list.
pub fn remove_uid(v: &mut Vec<Uid>, id: Uid)
    ensures
        forall|x: Uid| #[trigger] final(v)@.contains(x) <==> (old(v)@.contains(x) && x != id),
{
    let mut out: Vec<Uid> = Vec::new();
    let mut i: usize = 0;
    while i < v.len()
        invariant
            i <= v@.len(),
            forall|x: Uid| #[trigger] out@.contains(x) <==> (v@.subrange(0, i as int).contains(x)
                && x != id),
        decreases v@.len() - i,
    {
        let ghost pre = out@;
        if v[i] != id {
            out.push(v[i]);
        }
        proof {
            let sub_new = v@.subrange(0, i + 1int);
            let sub_old = v@.subrange(0, i as int);
            assert forall|x: Uid| #[trigger] out@.contains(x) implies (sub_new.contains(x) && x
                != id) by {
                if pre.contains(x) {
                    let k = choose|k: int| 0 <= k < sub_old.len() && sub_old[k] == x;
                    assert(sub_new[k] == x);
                } else {
                    assert(x == v@[i as int]);
                    assert(sub_new[i as int] == x);
                }
            }
            assert forall|x: Uid| (sub_new.contains(x) && x != id) implies #[trigger] out@.contains(
                x,
            ) by {
                let k = choose|k: int| 0 <= k < sub_new.len() && sub_new[k] == x;
                if k < i {
                    assert(sub_old[k] == x);
                    assert(pre.contains(x));
                    let m = choose|m: int| 0 <= m < pre.len() && pre[m] == x;
                    assert(out@[m] == x);
                } else {
                    assert(v@[i as int] == x);
                    assert(out@[out@.len() - 1] == x);
                }
            }
        }
        i += 1;
    }
    proof {
        assert(v@.subrange(0, v@.len() as int) =~= v@);
    }
    *v = out;
}

} // verus!


verus! {

/// The three entity collections have unchanged lengths and identifiers.
pub open spec fn same_entity_ids(s0: AstralStore, s1: AstralStore) -> bool {
    &&& s1.tracks@.len() == s0.tracks@.len()
    &&& forall|i: int|
        0 <= i < s0.tracks@.len() ==> (#[trigger] s1.tracks@[i]).track_id == s0.tracks@[i].track_id
    &&& s1.artists@.len() == s0.artists@.len()
    &&& forall|i: int|
        0 <= i < s0.artists@.len() ==> (#[trigger] s1.artists@[i]).artist_id
            == s0.artists@[i].artist_id
    &&& s1.albums@.len() == s0.albums@.len()
    &&& forall|i: int|
        0 <= i < s0.albums@.len() ==> (#[trigger] s1.albums@[i]).album_id == s0.albums@[i].album_id
}

/// When the entity identifiers are unchanged, the identifier-existence
/// predicates coincide between the two stores.
pub proof fn lemma_same_ids_has(s0: AstralStore, s1: AstralStore)
    requires
        same_entity_ids(s0, s1),
    ensures
        forall|x: Uid| #[trigger] has_track_id(s1, x) <==> has_track_id(s0, x),
        forall|x: Uid| #[trigger] has_artist_id(s1, x) <==> has_artist_id(s0, x),
        forall|x: Uid| #[trigger] has_album_id(s1, x) <==> has_album_id(s0, x),
{
    assert forall|x: Uid| #[trigger] has_track_id(s1, x) <==> has_track_id(s0, x) by {
        if has_track_id(s0, x) {
            let i = choose|i: int| 0 <= i < s0.tracks@.len() && (#[trigger] s0.tracks@[i]).track_id
                == x;
            assert(s1.tracks@[i].track_id == x);
        }
        if has_track_id(s1, x) {
            let i = choose|i: int| 0 <= i < s1.tracks@.len() && (#[trigger] s1.tracks@[i]).track_id
                == x;
            assert(s0.tracks@[i].track_id == x);
        }
    }
    assert forall|x: Uid| #[trigger] has_artist_id(s1, x) <==> has_artist_id(s0, x) by {
        if has_artist_id(s0, x) {
            let i = choose|i: int|
                0 <= i < s0.artists@.len() && (#[trigger] s0.artists@[i]).artist_id == x;
            assert(s1.artists@[i].artist_id == x);
        }
        if has_artist_id(s1, x) {
            let i = choose|i: int|
                0 <= i < s1.artists@.len() && (#[trigger] s1.artists@[i]).artist_id == x;
            assert(s0.artists@[i].artist_id == x);
        }
    }
    assert forall|x: Uid| #[trigger] has_album_id(s1, x) <==> has_album_id(s0, x) by {
        if has_album_id(s0, x) {
            let i = choose|i: int| 0 <= i < s0.albums@.len() && (#[trigger] s0.albums@[i]).album_id
                == x;
            assert(s1.albums@[i].album_id == x);
        }
        if has_album_id(s1, x) {
            let i = choose|i: int| 0 <= i < s1.albums@.len() && (#[trigger] s1.albums@[i]).album_id
                == x;
            assert(s0.albums@[i].album_id == x);
        }
    }
}

} // verus!

verus! {

/// Law: the track-artist links round-trip. Every artist referenced by a
/// track exists, and its own track list names the track back.
pub proof fn track_artist_round_trip(s: AstralStore, ti: int, x: Uid)
    requires
        wf(s),
        0 <= ti < s.tracks@.len(),
        s.tracks@[ti].artists@.contains(x),
    ensures
        exists|ai: int|
            0 <= ai < s.artists@.len() && (#[trigger] s.artists@[ai]).artist_id == x
                && s.artists@[ai].tracks@.contains(s.tracks@[ti].track_id),
{
    assert(has_artist_id(s, x));
    let ai = choose|ai: int| 0 <= ai < s.artists@.len() && (#[trigger] s.artists@[ai]).artist_id
        == x;
    assert(s.artists@[ai].tracks@.contains(s.tracks@[ti].track_id));
}

/// Law: the track-album links round-trip. Every album referenced by a track
/// exists, and its own track list names the track back.
pub proof fn track_album_round_trip(s: AstralStore, ti: int, x: Uid)
    requires
        wf(s),
        0 <= ti < s.tracks@.len(),
        s.tracks@[ti].albums@.contains(x),
    ensures
        exists|bi: int|
            0 <= bi < s.albums@.len() && (#[trigger] s.albums@[bi]).album_id == x
                && s.albums@[bi].tracks@.contains(s.tracks@[ti].track_id),
{
    assert(has_album_id(s, x));
    let bi = choose|bi: int| 0 <= bi < s.albums@.len() && (#[trigger] s.albums@[bi]).album_id == x;
    assert(s.albums@[bi].tracks@.contains(s.tracks@[ti].track_id));
}

/// Law: the album-artist links round-trip. Every artist referenced by an
/// album exists, and its own album list names the album back.
pub proof fn album_artist_round_trip(s: AstralStore, bi: int, x: Uid)
    requires
        wf(s),
        0 <= bi < s.albums@.len(),
        s.albums@[bi].artists@.contains(x),
    ensures
        exists|ai: int|
            0 <= ai < s.artists@.len() && (#[trigger] s.artists@[ai]).artist_id == x
                && s.artists@[ai].albums@.contains(s.albums@[bi].album_id),
{
    assert(has_artist_id(s, x));
    let ai = choose|ai: int| 0 <= ai < s.artists@.len() && (#[trigger] s.artists@[ai]).artist_id
        == x;
    assert(s.artists@[ai].albums@.contains(s.albums@[bi].album_id));
}

} // verus!
