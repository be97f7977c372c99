//! Relationship-patch operations: rewriting a member set of the graph by set
//! difference, so that members leaving the set lose the relation, members
//! entering it gain the relation, and members in both are untouched — with the
//! redundant back-links updated in step.
use vstd::prelude::*;

verus! {

use crate::model::{AlbumMetadata, ArtistMetadata, TrackMetadata, Uid};
use crate::store::{contains_uid, push_unique, remove_uid};

/// A member that loses the relation: present in the old set, absent from the new.
pub open spec fn leaves_relation(olds: Seq<Uid>, news: Seq<Uid>, x: Uid) -> bool {
    olds.contains(x) && !news.contains(x)
}

/// A member that gains the relation: present in the new set, absent from the old.
pub open spec fn enters_relation(olds: Seq<Uid>, news: Seq<Uid>, x: Uid) -> bool {
    news.contains(x) && !olds.contains(x)
}

/// Patch-diff law: when a member set is rewritten from `olds` to `news`, no
/// member both leaves and enters the relation; a member of both sets neither
/// leaves nor enters; and a member of neither set neither leaves nor enters.
pub proof fn patch_diff_partition(olds: Seq<Uid>, news: Seq<Uid>, x: Uid)
    ensures
        !(leaves_relation(olds, news, x) && enters_relation(olds, news, x)),
        olds.contains(x) && news.contains(x) ==> !leaves_relation(olds, news, x)
            && !enters_relation(olds, news, x),
        !olds.contains(x) && !news.contains(x) ==> !leaves_relation(olds, news, x)
            && !enters_relation(olds, news, x),
        leaves_relation(olds, news, x) || olds.contains(x) == news.contains(x)
            || enters_relation(olds, news, x),
{
}

/// Computes the two set differences of a member-set rewrite: the members that
/// lose the relation and the members that gain it. Both results are free of
/// duplicates.
pub fn diff_members(olds: &Vec<Uid>, news: &Vec<Uid>) -> (r: (Vec<Uid>, Vec<Uid>))
    ensures
        forall|x: Uid| #[trigger] r.0@.contains(x) <==> leaves_relation(olds@, news@, x),
        forall|x: Uid| #[trigger] r.1@.contains(x) <==> enters_relation(olds@, news@, x),
        forall|i: int, j: int| 0 <= i < j < r.0@.len() ==> r.0@[i] != r.0@[j],
        forall|i: int, j: int| 0 <= i < j < r.1@.len() ==> r.1@[i] != r.1@[j],
{
    let mut removed: Vec<Uid> = Vec::new();
    let mut added: Vec<Uid> = Vec::new();
    let mut i: usize = 0;
    while i < olds.len()
        invariant
            i <= olds@.len(),
            forall|x: Uid| #[trigger] removed@.contains(x) <==> (olds@.subrange(0, i as int).contains(x)
                && !news@.contains(x)),
            forall|p: int, q: int| 0 <= p < q < removed@.len() ==> removed@[p] != removed@[q],
        decreases olds@.len() - i,
    {
        let ghost pre = removed@;
        let x = olds[i];
        if !contains_uid(news, x) && !contains_uid(&removed, x) {
            removed.push(x);
        }
        proof {
            let sub_new = olds@.subrange(0, i + 1int);
            let sub_old = olds@.subrange(0, i as int);
            assert(sub_new =~= sub_old.push(olds@[i as int]));
            assert forall|x2: Uid| #[trigger] removed@.contains(x2) implies (sub_new.contains(x2)
                && !news@.contains(x2)) by {
                if pre.contains(x2) {
                    let k = choose|k: int| 0 <= k < sub_old.len() && sub_old[k] == x2;
                    assert(sub_new[k] == x2);
                } else {
                    assert(x2 == olds@[i as int]);
                    assert(sub_new[sub_new.len() - 1] == x2);
                }
            }
            assert forall|x2: Uid| (sub_new.contains(x2) && !news@.contains(x2))
                implies #[trigger] removed@.contains(x2) by {
                let k = choose|k: int| 0 <= k < sub_new.len() && sub_new[k] == x2;
                if k < i {
                    assert(sub_old[k] == x2);
                    assert(pre.contains(x2));
                    let m = choose|m: int| 0 <= m < pre.len() && pre[m] == x2;
                    assert(removed@[m] == x2);
                } else {
                    assert(x2 == olds@[i as int]);
                    if !pre.contains(x2) {
                        assert(removed@[removed@.len() - 1] == x2);
                    } else {
                        let m = choose|m: int| 0 <= m < pre.len() && pre[m] == x2;
                        assert(removed@[m] == x2);
                    }
                }
            }
        }
        i += 1;
    }
    proof {
        assert(olds@.subrange(0, olds@.len() as int) =~= olds@);
    }
    let mut j: usize = 0;
    while j < news.len()
        invariant
            j <= news@.len(),
            forall|x: Uid| #[trigger] removed@.contains(x) <==> leaves_relation(olds@, news@, x),
            forall|p: int, q: int| 0 <= p < q < removed@.len() ==> removed@[p] != removed@[q],
            forall|x: Uid| #[trigger] added@.contains(x) <==> (news@.subrange(0, j as int).contains(x)
                && !olds@.contains(x)),
            forall|p: int, q: int| 0 <= p < q < added@.len() ==> added@[p] != added@[q],
        decreases news@.len() - j,
    {
        let ghost pre = added@;
        let x = news[j];
        if !contains_uid(olds, x) && !contains_uid(&added, x) {
            added.push(x);
        }
        proof {
            let sub_new = news@.subrange(0, j + 1int);
            let sub_old = news@.subrange(0, j as int);
            assert(sub_new =~= sub_old.push(news@[j as int]));
            assert forall|x2: Uid| #[trigger] added@.contains(x2) implies (sub_new.contains(x2)
                && !olds@.contains(x2)) by {
                if pre.contains(x2) {
                    let k = choose|k: int| 0 <= k < sub_old.len() && sub_old[k] == x2;
                    assert(sub_new[k] == x2);
                } else {
                    assert(x2 == news@[j as int]);
                    assert(sub_new[sub_new.len() - 1] == x2);
                }
            }
            assert forall|x2: Uid| (sub_new.contains(x2) && !olds@.contains(x2))
                implies #[trigger] added@.contains(x2) by {
                let k = choose|k: int| 0 <= k < sub_new.len() && sub_new[k] == x2;
                if k < j {
                    assert(sub_old[k] == x2);
                    assert(pre.contains(x2));
                    let m = choose|m: int| 0 <= m < pre.len() && pre[m] == x2;
                    assert(added@[m] == x2);
                } else {
                    assert(x2 == news@[j as int]);
                    if !pre.contains(x2) {
                        assert(added@[added@.len() - 1] == x2);
                    } else {
                        let m = choose|m: int| 0 <= m < pre.len() && pre[m] == x2;
                        assert(added@[m] == x2);
                    }
                }
            }
        }
        j += 1;
    }
    proof {
        assert(news@.subrange(0, news@.len() as int) =~= news@);
    }
    (removed, added)
}

/// Frame for artist records under a relink of track `t`: everything unchanged
/// except possibly whether `t` appears in each artist's track list.
pub open spec fn artists_same_but_track(
    a0: Seq<ArtistMetadata>,
    a1: Seq<ArtistMetadata>,
    t: Uid,
) -> bool {
    &&& a1.len() == a0.len()
    &&& forall|i: int|
        0 <= i < a0.len() ==> {
            &&& (#[trigger] a1[i]).artist_id == a0[i].artist_id
            &&& a1[i].name == a0[i].name
            &&& a1[i].albums == a0[i].albums
            &&& a1[i].genres == a0[i].genres
            &&& a1[i].about == a0[i].about
            &&& forall|x: Uid|
                x != t ==> (#[trigger] a1[i].tracks@.contains(x) <==> a0[i].tracks@.contains(x))
        }
}

/// Frame for artist records under a relink of album `b`: everything unchanged
/// except possibly whether `b` appears in each artist's album list.
pub open spec fn artists_same_but_album(
    a0: Seq<ArtistMetadata>,
    a1: Seq<ArtistMetadata>,
    b: Uid,
) -> bool {
    &&& a1.len() == a0.len()
    &&& forall|i: int|
        0 <= i < a0.len() ==> {
            &&& (#[trigger] a1[i]).artist_id == a0[i].artist_id
            &&& a1[i].name == a0[i].name
            &&& a1[i].tracks == a0[i].tracks
            &&& a1[i].genres == a0[i].genres
            &&& a1[i].about == a0[i].about
            &&& forall|x: Uid|
                x != b ==> (#[trigger] a1[i].albums@.contains(x) <==> a0[i].albums@.contains(x))
        }
}

/// Frame for track records under a relink of album `b`: everything unchanged
/// except possibly whether `b` appears in each track's album list.
pub open spec fn tracks_same_but_album(
    t0: Seq<TrackMetadata>,
    t1: Seq<TrackMetadata>,
    b: Uid,
) -> bool {
    &&& t1.len() == t0.len()
    &&& forall|i: int|
        0 <= i < t0.len() ==> {
            &&& (#[trigger] t1[i]).track_id == t0[i].track_id
            &&& t1[i].name == t0[i].name
            &&& t1[i].length == t0[i].length
            &&& t1[i].artists == t0[i].artists
            &&& t1[i].is_explicit == t0[i].is_explicit
            &&& t1[i].format == t0[i].format
            &&& t1[i].number == t0[i].number
            &&& t1[i].disc_number == t0[i].disc_number
            &&& forall|x: Uid|
                x != b ==> (#[trigger] t1[i].albums@.contains(x) <==> t0[i].albums@.contains(x))
        }
}

/// Frame for album records under a relink of artist `a`: everything unchanged
/// except possibly whether `a` appears in each album's artist list.
pub open spec fn albums_same_but_artist(
    b0: Seq<AlbumMetadata>,
    b1: Seq<AlbumMetadata>,
    a: Uid,
) -> bool {
    &&& b1.len() == b0.len()
    &&& forall|i: int|
        0 <= i < b0.len() ==> {
            &&& (#[trigger] b1[i]).album_id == b0[i].album_id
            &&& b1[i].name == b0[i].name
            &&& b1[i].tracks == b0[i].tracks
            &&& b1[i].release_date == b0[i].release_date
            &&& b1[i].genres == b0[i].genres
            &&& forall|x: Uid|
                x != a ==> (#[trigger] b1[i].artists@.contains(x) <==> b0[i].artists@.contains(x))
        }
}




/// Finds the index of the artist with the given identifier in a record list.
fn find_artist_index(artists: &Vec<ArtistMetadata>, id: Uid) -> (r: Option<usize>)
    ensures
        match r {
            Some(i) => i < artists@.len() && artists@[i as int].artist_id == id,
            None => forall|j: int|
                0 <= j < artists@.len() ==> (#[trigger] artists@[j]).artist_id != id,
        },
{
    let mut i: usize = 0;
    while i < artists.len()
        invariant
            i <= artists@.len(),
            forall|j: int| 0 <= j < i ==> (#[trigger] artists@[j]).artist_id != id,
        decreases artists@.len() - i,
    {
        if artists[i].artist_id == id {
            return Some(i);
        }
        i += 1;
    }
    None
}

/// Adds (or removes, when `add` is false) track `t` in the track lists of the
/// artists named in `ids`, with set semantics. Artists not named keep their
/// membership unchanged.
pub fn relink_track_in_artists(artists: &mut Vec<ArtistMetadata>, ids: &Vec<Uid>, t: Uid, add: bool)
    requires
        forall|i: int, j: int|
            0 <= i < j < old(artists)@.len() ==> (#[trigger] old(artists)@[i]).artist_id != (
            #[trigger] old(artists)@[j]).artist_id,
    ensures
        artists_same_but_track(old(artists)@, final(artists)@, t),
        forall|i: int|
            0 <= i < final(artists)@.len() ==> ((#[trigger] final(artists)@[i]).tracks@.contains(t)
                <==> (if add {
                old(artists)@[i].tracks@.contains(t) || ids@.contains(old(artists)@[i].artist_id)
            } else {
                old(artists)@[i].tracks@.contains(t) && !ids@.contains(old(artists)@[i].artist_id)
            })),
{
    let ghost a0 = artists@;
    let mut p: usize = 0;
    while p < ids.len()
        invariant
            p <= ids@.len(),
            forall|i: int, j: int|
                0 <= i < j < a0.len() ==> (#[trigger] a0[i]).artist_id != (
                #[trigger] a0[j]).artist_id,
            artists_same_but_track(a0, artists@, t),
            forall|i: int|
                0 <= i < artists@.len() ==> ((#[trigger] artists@[i]).tracks@.contains(t) <==> (
                if add {
                    a0[i].tracks@.contains(t) || ids@.subrange(0, p as int).contains(
                        a0[i].artist_id,
                    )
                } else {
                    a0[i].tracks@.contains(t) && !ids@.subrange(0, p as int).contains(
                        a0[i].artist_id,
                    )
                })),
        decreases ids@.len() - p,
    {
        let target = ids[p];
        let found = find_artist_index(artists, target);
        let ghost pre = artists@;
        if let Some(aidx) = found {
            if add {
                push_unique(&mut artists[aidx].tracks, t);
            } else {
                remove_uid(&mut artists[aidx].tracks, t);
            }
        }
        proof {
            let sub_new = ids@.subrange(0, p + 1int);
            let sub_old = ids@.subrange(0, p as int);
            assert(sub_new =~= sub_old.push(ids@[p as int]));
            assert(sub_new[p as int] == target);
            assert forall|i: int|
                0 <= i < artists@.len() implies ((#[trigger] artists@[i]).tracks@.contains(t) <==> (
            if add {
                a0[i].tracks@.contains(t) || sub_new.contains(a0[i].artist_id)
            } else {
                a0[i].tracks@.contains(t) && !sub_new.contains(a0[i].artist_id)
            })) by {
                match found {
                    Some(aidx2) => {
                        if i == aidx2 as int {
                            assert(pre[i].artist_id == target);
                            assert(a0[i].artist_id == target);
                            assert(sub_new.contains(a0[i].artist_id));
                        } else {
                            assert(artists@[i] == pre[i]);
                            if a0[i].artist_id == target {
                                assert(a0[aidx2 as int].artist_id == target);
                                assert(false);
                            }
                        }
                    },
                    None => {
                        assert(artists@[i] == pre[i]);
                        if a0[i].artist_id == target {
                            assert(pre[i].artist_id == target);
                            assert(false);
                        }
                    },
                }
            }
        }
        p += 1;
    }
    proof {
        assert(ids@.subrange(0, ids@.len() as int) =~= ids@);
    }
}

/// Finds the index of the track with the given identifier in a record list.
fn find_track_index(tracks: &Vec<TrackMetadata>, id: Uid) -> (r: Option<usize>)
    ensures
        match r {
            Some(i) => i < tracks@.len() && tracks@[i as int].track_id == id,
            None => forall|j: int|
                0 <= j < tracks@.len() ==> (#[trigger] tracks@[j]).track_id != id,
        },
{
    let mut i: usize = 0;
    while i < tracks.len()
        invariant
            i <= tracks@.len(),
            forall|j: int| 0 <= j < i ==> (#[trigger] tracks@[j]).track_id != id,
        decreases tracks@.len() - i,
    {
        if tracks[i].track_id == id {
            return Some(i);
        }
        i += 1;
    }
    None
}

/// Adds (or removes, when `add` is false) album `t` in the album lists of the
/// tracks named in `ids`, with set semantics. Tracks not named keep their
/// membership unchanged.
pub fn relink_album_in_tracks(tracks: &mut Vec<TrackMetadata>, ids: &Vec<Uid>, t: Uid, add: bool)
    requires
        forall|i: int, j: int|
            0 <= i < j < old(tracks)@.len() ==> (#[trigger] old(tracks)@[i]).track_id != (
            #[trigger] old(tracks)@[j]).track_id,
    ensures
        tracks_same_but_album(old(tracks)@, final(tracks)@, t),
        forall|i: int|
            0 <= i < final(tracks)@.len() ==> ((#[trigger] final(tracks)@[i]).albums@.contains(t)
                <==> (if add {
                old(tracks)@[i].albums@.contains(t) || ids@.contains(old(tracks)@[i].track_id)
            } else {
                old(tracks)@[i].albums@.contains(t) && !ids@.contains(old(tracks)@[i].track_id)
            })),
{
    let ghost a0 = tracks@;
    let mut p: usize = 0;
    while p < ids.len()
        invariant
            p <= ids@.len(),
            forall|i: int, j: int|
                0 <= i < j < a0.len() ==> (#[trigger] a0[i]).track_id != (
                #[trigger] a0[j]).track_id,
            tracks_same_but_album(a0, tracks@, t),
            forall|i: int|
                0 <= i < tracks@.len() ==> ((#[trigger] tracks@[i]).albums@.contains(t) <==> (
                if add {
                    a0[i].albums@.contains(t) || ids@.subrange(0, p as int).contains(
                        a0[i].track_id,
                    )
                } else {
                    a0[i].albums@.contains(t) && !ids@.subrange(0, p as int).contains(
                        a0[i].track_id,
                    )
                })),
        decreases ids@.len() - p,
    {
        let target = ids[p];
        let found = find_track_index(tracks, target);
        let ghost pre = tracks@;
        if let Some(aidx) = found {
            if add {
                push_unique(&mut tracks[aidx].albums, t);
            } else {
                remove_uid(&mut tracks[aidx].albums, t);
            }
        }
        proof {
            let sub_new = ids@.subrange(0, p + 1int);
            let sub_old = ids@.subrange(0, p as int);
            assert(sub_new =~= sub_old.push(ids@[p as int]));
            assert(sub_new[p as int] == target);
            assert forall|i: int|
                0 <= i < tracks@.len() implies ((#[trigger] tracks@[i]).albums@.contains(t) <==> (
            if add {
                a0[i].albums@.contains(t) || sub_new.contains(a0[i].track_id)
            } else {
                a0[i].albums@.contains(t) && !sub_new.contains(a0[i].track_id)
            })) by {
                match found {
                    Some(aidx2) => {
                        if i == aidx2 as int {
                            assert(pre[i].track_id == target);
                            assert(a0[i].track_id == target);
                            assert(sub_new.contains(a0[i].track_id));
                        } else {
                            assert(tracks@[i] == pre[i]);
                            if a0[i].track_id == target {
                                assert(a0[aidx2 as int].track_id == target);
                                assert(false);
                            }
                        }
                    },
                    None => {
                        assert(tracks@[i] == pre[i]);
                        if a0[i].track_id == target {
                            assert(pre[i].track_id == target);
                            assert(false);
                        }
                    },
                }
            }
        }
        p += 1;
    }
    proof {
        assert(ids@.subrange(0, ids@.len() as int) =~= ids@);
    }
}


/// Adds (or removes, when `add` is false) album `t` in the album lists of the
/// artists named in `ids`, with set semantics. Artists not named keep their
/// membership unchanged.
pub fn relink_album_in_artists(artists: &mut Vec<ArtistMetadata>, ids: &Vec<Uid>, t: Uid, add: bool)
    requires
        forall|i: int, j: int|
            0 <= i < j < old(artists)@.len() ==> (#[trigger] old(artists)@[i]).artist_id != (
            #[trigger] old(artists)@[j]).artist_id,
    ensures
        artists_same_but_album(old(artists)@, final(artists)@, t),
        forall|i: int|
            0 <= i < final(artists)@.len() ==> ((#[trigger] final(artists)@[i]).albums@.contains(t)
                <==> (if add {
                old(artists)@[i].albums@.contains(t) || ids@.contains(old(artists)@[i].artist_id)
            } else {
                old(artists)@[i].albums@.contains(t) && !ids@.contains(old(artists)@[i].artist_id)
            })),
{
    let ghost a0 = artists@;
    let mut p: usize = 0;
    while p < ids.len()
        invariant
            p <= ids@.len(),
            forall|i: int, j: int|
                0 <= i < j < a0.len() ==> (#[trigger] a0[i]).artist_id != (
                #[trigger] a0[j]).artist_id,
            artists_same_but_album(a0, artists@, t),
            forall|i: int|
                0 <= i < artists@.len() ==> ((#[trigger] artists@[i]).albums@.contains(t) <==> (
                if add {
                    a0[i].albums@.contains(t) || ids@.subrange(0, p as int).contains(
                        a0[i].artist_id,
                    )
                } else {
                    a0[i].albums@.contains(t) && !ids@.subrange(0, p as int).contains(
                        a0[i].artist_id,
                    )
                })),
        decreases ids@.len() - p,
    {
        let target = ids[p];
        let found = find_artist_index(artists, target);
        let ghost pre = artists@;
        if let Some(aidx) = found {
            if add {
                push_unique(&mut artists[aidx].albums, t);
            } else {
                remove_uid(&mut artists[aidx].albums, t);
            }
        }
        proof {
            let sub_new = ids@.subrange(0, p + 1int);
            let sub_old = ids@.subrange(0, p as int);
            assert(sub_new =~= sub_old.push(ids@[p as int]));
            assert(sub_new[p as int] == target);
            assert forall|i: int|
                0 <= i < artists@.len() implies ((#[trigger] artists@[i]).albums@.contains(t) <==> (
            if add {
                a0[i].albums@.contains(t) || sub_new.contains(a0[i].artist_id)
            } else {
                a0[i].albums@.contains(t) && !sub_new.contains(a0[i].artist_id)
            })) by {
                match found {
                    Some(aidx2) => {
                        if i == aidx2 as int {
                            assert(pre[i].artist_id == target);
                            assert(a0[i].artist_id == target);
                            assert(sub_new.contains(a0[i].artist_id));
                        } else {
                            assert(artists@[i] == pre[i]);
                            if a0[i].artist_id == target {
                                assert(a0[aidx2 as int].artist_id == target);
                                assert(false);
                            }
                        }
                    },
                    None => {
                        assert(artists@[i] == pre[i]);
                        if a0[i].artist_id == target {
                            assert(pre[i].artist_id == target);
                            assert(false);
                        }
                    },
                }
            }
        }
        p += 1;
    }
    proof {
        assert(ids@.subrange(0, ids@.len() as int) =~= ids@);
    }
}


/// Finds the index of the album with the given identifier in a record list.
fn find_album_index(albums: &Vec<AlbumMetadata>, id: Uid) -> (r: Option<usize>)
    ensures
        match r {
            Some(i) => i < albums@.len() && albums@[i as int].album_id == id,
            None => forall|j: int|
                0 <= j < albums@.len() ==> (#[trigger] albums@[j]).album_id != id,
        },
{
    let mut i: usize = 0;
    while i < albums.len()
        invariant
            i <= albums@.len(),
            forall|j: int| 0 <= j < i ==> (#[trigger] albums@[j]).album_id != id,
        decreases albums@.len() - i,
    {
        if albums[i].album_id == id {
            return Some(i);
        }
        i += 1;
    }
    None
}

/// Adds (or removes, when `add` is false) artist `t` in the artist lists of
/// the albums named in `ids`, with set semantics. Albums not named keep their
/// membership unchanged.
pub fn relink_artist_in_albums(albums: &mut Vec<AlbumMetadata>, ids: &Vec<Uid>, t: Uid, add: bool)
    requires
        forall|i: int, j: int|
            0 <= i < j < old(albums)@.len() ==> (#[trigger] old(albums)@[i]).album_id != (
            #[trigger] old(albums)@[j]).album_id,
    ensures
        albums_same_but_artist(old(albums)@, final(albums)@, t),
        forall|i: int|
            0 <= i < final(albums)@.len() ==> ((#[trigger] final(albums)@[i]).artists@.contains(t)
                <==> (if add {
                old(albums)@[i].artists@.contains(t) || ids@.contains(old(albums)@[i].album_id)
            } else {
                old(albums)@[i].artists@.contains(t) && !ids@.contains(old(albums)@[i].album_id)
            })),
{
    let ghost a0 = albums@;
    let mut p: usize = 0;
    while p < ids.len()
        invariant
            p <= ids@.len(),
            forall|i: int, j: int|
                0 <= i < j < a0.len() ==> (#[trigger] a0[i]).album_id != (
                #[trigger] a0[j]).album_id,
            albums_same_but_artist(a0, albums@, t),
            forall|i: int|
                0 <= i < albums@.len() ==> ((#[trigger] albums@[i]).artists@.contains(t) <==> (
                if add {
                    a0[i].artists@.contains(t) || ids@.subrange(0, p as int).contains(
                        a0[i].album_id,
                    )
                } else {
                    a0[i].artists@.contains(t) && !ids@.subrange(0, p as int).contains(
                        a0[i].album_id,
                    )
                })),
        decreases ids@.len() - p,
    {
        let target = ids[p];
        let found = find_album_index(albums, target);
        let ghost pre = albums@;
        if let Some(aidx) = found {
            if add {
                push_unique(&mut albums[aidx].artists, t);
            } else {
                remove_uid(&mut albums[aidx].artists, t);
            }
        }
        proof {
            let sub_new = ids@.subrange(0, p + 1int);
            let sub_old = ids@.subrange(0, p as int);
            assert(sub_new =~= sub_old.push(ids@[p as int]));
            assert(sub_new[p as int] == target);
            assert forall|i: int|
                0 <= i < albums@.len() implies ((#[trigger] albums@[i]).artists@.contains(t) <==> (
            if add {
                a0[i].artists@.contains(t) || sub_new.contains(a0[i].album_id)
            } else {
                a0[i].artists@.contains(t) && !sub_new.contains(a0[i].album_id)
            })) by {
                match found {
                    Some(aidx2) => {
                        if i == aidx2 as int {
                            assert(pre[i].album_id == target);
                            assert(a0[i].album_id == target);
                            assert(sub_new.contains(a0[i].album_id));
                        } else {
                            assert(albums@[i] == pre[i]);
                            if a0[i].album_id == target {
                                assert(a0[aidx2 as int].album_id == target);
                                assert(false);
                            }
                        }
                    },
                    None => {
                        assert(albums@[i] == pre[i]);
                        if a0[i].album_id == target {
                            assert(pre[i].album_id == target);
                            assert(false);
                        }
                    },
                }
            }
        }
        p += 1;
    }
    proof {
        assert(ids@.subrange(0, ids@.len() as int) =~= ids@);
    }
}


} // verus!

verus! {

use crate::error::AstralError;
use crate::model::UserPermission;
use crate::model::has_permission;
use crate::store::{
    dedup_keys_unique, has_artist_id, has_track_id, lemma_same_ids_has, same_entity_ids, wf,
    AstralStore,
};
use crate::text::str_eq_str;

/// Request to change assigned track metadata; absent fields are left as they are.
#[derive(Clone, Debug)]
pub struct PatchTrackMetadata {
    /// New name of the track.
    pub track_name: Option<String>,
    /// New duration of the track in seconds.
    pub track_length: Option<u32>,
    /// Whether the track contains explicit lyrics.
    pub is_explicit: Option<bool>,
    /// Positional number of the track.
    pub number: Option<u16>,
    /// Number of the disc the track is on.
    pub disc_number: Option<u16>,
    /// The new artist member set of the track.
    pub artists: Option<Vec<Uid>>,
}

/// The track name after the patch is applied.
pub open spec fn patched_track_name(t: crate::model::TrackMetadata, p: PatchTrackMetadata) -> Seq<
    char,
> {
    match p.track_name {
        Some(n) => n@,
        None => t.name@,
    }
}

/// The track duration after the patch is applied.
pub open spec fn patched_track_length(t: crate::model::TrackMetadata, p: PatchTrackMetadata) -> u32 {
    match p.track_length {
        Some(l) => l,
        None => t.length,
    }
}

/// Whether the patched (name, duration) key would collide with another track.
pub open spec fn track_key_collision(s: AstralStore, ti: int, p: PatchTrackMetadata) -> bool {
    exists|j: int|
        0 <= j < s.tracks@.len() && j != ti && (#[trigger] s.tracks@[j]).name@
            == patched_track_name(s.tracks@[ti], p) && s.tracks@[j].length == patched_track_length(
            s.tracks@[ti],
            p,
        )
}

/// Whether an optional member list names an artist that does not exist.
pub open spec fn missing_artist_ref(s: AstralStore, ids: Option<Vec<Uid>>) -> bool {
    match ids {
        Some(l) => exists|k: int| 0 <= k < l@.len() && !has_artist_id(s, #[trigger] l@[k]),
        None => false,
    }
}

/// Updates a track record. Scalar fields are overwritten where given; a given
/// artist member set is applied by set difference, removing the track from
/// artists that leave the set and adding it to artists that enter it.
///
/// A patch that would give two tracks the same (name, duration) key is
/// rejected, keeping the de-duplication key unique across the store.
#[verifier::rlimit(100)]
pub fn patch_track_metadata(
    store: &mut AstralStore,
    track_id: Uid,
    patch: PatchTrackMetadata,
    permissions: &Vec<UserPermission>,
) -> (r: Result<(), AstralError>)
    requires
        wf(*old(store)),
        dedup_keys_unique(*old(store)),
    ensures
        wf(*final(store)),
        dedup_keys_unique(*final(store)),
        r is Err ==> *final(store) == *old(store),
        (r matches Err(e) && e is Unauthorized) <==> !permissions@.contains(
            UserPermission::ChangeMetadata,
        ),
        permissions@.contains(UserPermission::ChangeMetadata) ==> ((r matches Err(e)
            && e is NotFound) <==> (!has_track_id(*old(store), track_id) || missing_artist_ref(
            *old(store),
            patch.artists,
        ))),
        forall|ti: int|
            0 <= ti < old(store).tracks@.len() && (#[trigger] old(store).tracks@[ti]).track_id
                == track_id ==> ((permissions@.contains(UserPermission::ChangeMetadata)
                && !missing_artist_ref(*old(store), patch.artists)) ==> ((r matches Err(e)
                && e is BadRequest) <==> track_key_collision(*old(store), ti, patch))),
        r is Ok <==> (permissions@.contains(UserPermission::ChangeMetadata) && has_track_id(
            *old(store),
            track_id,
        ) && !missing_artist_ref(*old(store), patch.artists) && !(exists|ti: int|
            0 <= ti < old(store).tracks@.len() && (#[trigger] old(store).tracks@[ti]).track_id
                == track_id && track_key_collision(*old(store), ti, patch))),
        r is Ok ==> final(store).albums == old(store).albums && final(store).undefined_tracks
            == old(store).undefined_tracks && final(store).lyrics == old(store).lyrics,
        r is Ok ==> final(store).id_seed == old(store).id_seed,
        r is Ok ==> artists_same_but_track(old(store).artists@, final(store).artists@, track_id),
        r is Ok ==> final(store).tracks@.len() == old(store).tracks@.len(),
        r is Ok ==> forall|ti: int|
            0 <= ti < old(store).tracks@.len() && (#[trigger] old(store).tracks@[ti]).track_id
                == track_id ==> {
                &&& forall|j: int|
                    0 <= j < old(store).tracks@.len() && j != ti ==> final(store).tracks@[j] == old(store).tracks@[j]
                &&& final(store).tracks@[ti].track_id == track_id
                &&& final(store).tracks@[ti].name@ == patched_track_name(
                    old(store).tracks@[ti],
                    patch,
                )
                &&& final(store).tracks@[ti].length == patched_track_length(
                    old(store).tracks@[ti],
                    patch,
                )
                &&& final(store).tracks@[ti].is_explicit == (match patch.is_explicit {
                    Some(b) => b,
                    None => old(store).tracks@[ti].is_explicit,
                })
                &&& final(store).tracks@[ti].number == (match patch.number {
                    Some(n) => n,
                    None => old(store).tracks@[ti].number,
                })
                &&& final(store).tracks@[ti].disc_number == (match patch.disc_number {
                    Some(n) => n,
                    None => old(store).tracks@[ti].disc_number,
                })
                &&& final(store).tracks@[ti].format == old(store).tracks@[ti].format
                &&& final(store).tracks@[ti].albums == old(store).tracks@[ti].albums
                &&& final(store).tracks@[ti].artists@ == (match patch.artists {
                    Some(a) => a@,
                    None => old(store).tracks@[ti].artists@,
                })
            },
        r is Ok ==> forall|ai: int|
            0 <= ai < old(store).artists@.len() ==> ((#[trigger] final(store).artists@[ai]).tracks@.contains(track_id) <==> (match patch.artists {
                Some(n) => n@.contains(old(store).artists@[ai].artist_id),
                None => old(store).artists@[ai].tracks@.contains(track_id),
            })),
{
    let ghost s0 = *store;
    if !has_permission(permissions, UserPermission::ChangeMetadata) {
        return Err(
            AstralError::Unauthorized(String::from_str("You are not authorized to change metadata.")),
        );
    }
    let ti = match store.index_of_track(track_id) {
        Some(i) => i,
        None => {
            return Err(AstralError::NotFound(String::from_str("Could not find a track with this UUID")));
        },
    };
    if let Some(list) = &patch.artists {
        let mut k: usize = 0;
        while k < list.len()
            invariant
                k <= list@.len(),
                s0 == *old(store),
                *store == s0,
                wf(s0),
                dedup_keys_unique(s0),
                permissions@.contains(UserPermission::ChangeMetadata),
                has_track_id(s0, track_id),
                patch.artists == Some(*list),
                forall|q: int| 0 <= q < k ==> has_artist_id(s0, #[trigger] list@[q]),
            decreases list@.len() - k,
        {
            match store.index_of_artist(list[k]) {
                Some(_) => {},
                None => {
                    return Err(
                        AstralError::NotFound(String::from_str("Could not find an artist with this UUID")),
                    );
                },
            }
            k += 1;
        }
    }
    // the patched de-duplication key must stay unique
    let new_name: String = match &patch.track_name {
        Some(n) => n.clone(),
        None => store.tracks[ti].name.clone(),
    };
    let new_len: u32 = match patch.track_length {
        Some(l) => l,
        None => store.tracks[ti].length,
    };
    let mut j: usize = 0;
    while j < store.tracks.len()
        invariant
            j <= store.tracks@.len(),
            s0 == *old(store),
            *store == s0,
            wf(s0),
            dedup_keys_unique(s0),
            permissions@.contains(UserPermission::ChangeMetadata),
            !missing_artist_ref(s0, patch.artists),
            ti < store.tracks@.len(),
            store.tracks@[ti as int].track_id == track_id,
            new_name@ == patched_track_name(s0.tracks@[ti as int], patch),
            new_len == patched_track_length(s0.tracks@[ti as int], patch),
            forall|q: int|
                0 <= q < j && q != ti ==> !((#[trigger] store.tracks@[q]).name@ == new_name@
                    && store.tracks@[q].length == new_len),
        decreases store.tracks@.len() - j,
    {
        if j != ti && store.tracks[j].length == new_len && str_eq_str(
            store.tracks[j].name.as_str(),
            new_name.as_str(),
        ) {
            return Err(
                AstralError::BadRequest(
                    String::from_str("Another track already carries this name and duration"),
                ),
            );
        }
        j += 1;
    }
    // apply scalar fields
    if let Some(n) = patch.track_name {
        store.tracks[ti].name = n;
    }
    if let Some(l) = patch.track_length {
        store.tracks[ti].length = l;
    }
    if let Some(e) = patch.is_explicit {
        store.tracks[ti].is_explicit = e;
    }
    if let Some(n) = patch.number {
        store.tracks[ti].number = n;
    }
    if let Some(d) = patch.disc_number {
        store.tracks[ti].disc_number = d;
    }
    let ghost s1 = *store;
    // apply the artist member set by set difference, with back-links
    if let Some(new_artists) = patch.artists {
        let (removed, added) = diff_members(&store.tracks[ti].artists, &new_artists);
        relink_track_in_artists(&mut store.artists, &removed, track_id, false);
        let ghost smid = *store;
        relink_track_in_artists(&mut store.artists, &added, track_id, true);
        store.tracks[ti].artists = new_artists;
        proof {
            let s2 = *store;
            assert forall|ai: int| 0 <= ai < s2.artists@.len() implies ((
            #[trigger] s2.artists@[ai]).tracks@.contains(track_id) <==> s2.tracks@[ti as int].artists@.contains(
                s0.artists@[ai].artist_id,
            )) by {
                let aid = s0.artists@[ai].artist_id;
                assert(smid.artists@[ai].artist_id == aid);
                assert(s0.tracks@[ti as int].artists@.contains(aid)
                    <==> s0.artists@[ai].tracks@.contains(track_id));
            }
            lemma_artists_frame_trans(s0.artists@, smid.artists@, s2.artists@, track_id);
            assert forall|x: Uid| #[trigger] s2.tracks@[ti as int].artists@.contains(x)
                implies has_artist_id(s0, x) by {
                let k = choose|k: int|
                    0 <= k < new_artists@.len() && new_artists@[k] == x;
                assert(has_artist_id(s0, new_artists@[k]));
            }
        }
    }
    proof {
        let s2 = *store;
        if patch.artists is None {
            assert forall|ai: int| 0 <= ai < s2.artists@.len() implies ((
            #[trigger] s2.artists@[ai]).tracks@.contains(track_id) <==> s2.tracks@[ti as int].artists@.contains(
                s0.artists@[ai].artist_id,
            )) by {
                assert(s0.tracks@[ti as int].artists@.contains(s0.artists@[ai].artist_id)
                    <==> s0.artists@[ai].tracks@.contains(track_id));
            }
            assert forall|x: Uid| #[trigger] s2.tracks@[ti as int].artists@.contains(x)
                implies has_artist_id(s0, x) by {}
        }
        lemma_patch_track_wf(s0, s2, ti as int, track_id);
    }
        Ok(())
}

} // verus!

verus! {

/// Transitivity of the artist frame under a fixed relinked track.
proof fn lemma_artists_frame_trans(
    a0: Seq<ArtistMetadata>,
    a1: Seq<ArtistMetadata>,
    a2: Seq<ArtistMetadata>,
    t: Uid,
)
    requires
        artists_same_but_track(a0, a1, t),
        artists_same_but_track(a1, a2, t),
    ensures
        artists_same_but_track(a0, a2, t),
{
    assert forall|i: int| 0 <= i < a0.len() implies {
        &&& (#[trigger] a2[i]).artist_id == a0[i].artist_id
        &&& a2[i].name == a0[i].name
        &&& a2[i].albums == a0[i].albums
        &&& a2[i].genres == a0[i].genres
        &&& a2[i].about == a0[i].about
        &&& forall|x: Uid|
            x != t ==> (#[trigger] a2[i].tracks@.contains(x) <==> a0[i].tracks@.contains(x))
    } by {
        assert(a1[i].artist_id == a0[i].artist_id);
        assert(a2[i].artist_id == a1[i].artist_id);
        assert forall|x: Uid|
            x != t implies (#[trigger] a2[i].tracks@.contains(x) <==> a0[i].tracks@.contains(
            x,
        )) by {
            assert(a1[i].tracks@.contains(x) <==> a0[i].tracks@.contains(x));
        }
    }
}

/// Re-establishes the store invariants after a track record was rewritten and
/// its artist back-links updated.
#[verifier::rlimit(100)]
proof fn lemma_patch_track_wf(s0: AstralStore, s2: AstralStore, ti: int, track_id: Uid)
    requires
        wf(s0),
        dedup_keys_unique(s0),
        0 <= ti < s0.tracks@.len(),
        s0.tracks@[ti].track_id == track_id,
        s2.tracks@.len() == s0.tracks@.len(),
        forall|j: int|
            0 <= j < s0.tracks@.len() && j != ti ==> s2.tracks@[j] == s0.tracks@[j],
        s2.tracks@[ti].track_id == track_id,
        s2.tracks@[ti].albums == s0.tracks@[ti].albums,
        forall|x: Uid| #[trigger] s2.tracks@[ti].artists@.contains(x) ==> has_artist_id(s0, x),
        artists_same_but_track(s0.artists@, s2.artists@, track_id),
        forall|ai: int|
            0 <= ai < s2.artists@.len() ==> ((#[trigger] s2.artists@[ai]).tracks@.contains(track_id)
                <==> s2.tracks@[ti].artists@.contains(s0.artists@[ai].artist_id)),
        s2.albums == s0.albums,
        s2.undefined_tracks == s0.undefined_tracks,
        s2.lyrics == s0.lyrics,
        s2.id_seed == s0.id_seed,
        forall|j: int|
            0 <= j < s0.tracks@.len() && j != ti ==> !((#[trigger] s0.tracks@[j]).name@
                == s2.tracks@[ti].name@ && s0.tracks@[j].length == s2.tracks@[ti].length),
    ensures
        wf(s2),
        dedup_keys_unique(s2),
{
    assert(same_entity_ids(s0, s2));
        lemma_same_ids_has(s0, s2);
        assert(wf(s2)) by {
            assert forall|ti2: int, x: Uid|
                0 <= ti2 < s2.tracks@.len() && #[trigger] s2.tracks@[ti2].artists@.contains(x)
                    implies has_artist_id(s2, x) by {
                if ti2 != ti {
                    assert(s2.tracks@[ti2] == s0.tracks@[ti2]);
                    assert(has_artist_id(s0, x));
                } else {
                    assert(has_artist_id(s0, x));
                }
            }
            assert forall|ti2: int, x: Uid|
                0 <= ti2 < s2.tracks@.len() && #[trigger] s2.tracks@[ti2].albums@.contains(x)
                    implies crate::store::has_album_id(s2, x) by {
                assert(s2.tracks@[ti2].albums == s0.tracks@[ti2].albums);
                assert(crate::store::has_album_id(s0, x));
            }
            assert forall|ai: int, x: Uid|
                0 <= ai < s2.artists@.len() && #[trigger] s2.artists@[ai].tracks@.contains(x)
                    implies has_track_id(s2, x) by {
                if x == track_id {
                    assert(s2.tracks@[ti as int].track_id == track_id);
                } else {
                    assert(s0.artists@[ai].tracks@.contains(x));
                    assert(has_track_id(s0, x));
                }
            }
            assert forall|ai: int, x: Uid|
                0 <= ai < s2.artists@.len() && #[trigger] s2.artists@[ai].albums@.contains(x)
                    implies crate::store::has_album_id(s2, x) by {
                assert(s2.artists@[ai].albums == s0.artists@[ai].albums);
                assert(crate::store::has_album_id(s0, x));
            }
            assert forall|li: int|
                0 <= li < s2.lyrics@.len() implies has_track_id(
                s2,
                (#[trigger] s2.lyrics@[li]).track_id,
            ) by {
                assert(has_track_id(s0, s2.lyrics@[li].track_id));
            }
            // the relationship lists of albums and the album lists of tracks
            // and artists are unchanged, so the album syncs carry over
            assert forall|ti2: int, bi: int|
                0 <= ti2 < s2.tracks@.len() && 0 <= bi < s2.albums@.len() implies ((
            #[trigger] s2.tracks@[ti2]).albums@.contains(s2.albums@[bi].album_id) <==> (
            #[trigger] s2.albums@[bi]).tracks@.contains(s2.tracks@[ti2].track_id)) by {
                assert(s2.tracks@[ti2].albums == s0.tracks@[ti2].albums);
                assert(s2.albums@[bi] == s0.albums@[bi]);
                assert(s2.tracks@[ti2].track_id == s0.tracks@[ti2].track_id);
            }
            assert forall|ti2: int, ai: int|
                0 <= ti2 < s2.tracks@.len() && 0 <= ai < s2.artists@.len() implies ((
            #[trigger] s2.tracks@[ti2]).artists@.contains(s2.artists@[ai].artist_id) <==> (
            #[trigger] s2.artists@[ai]).tracks@.contains(s2.tracks@[ti2].track_id)) by {
                let aid = s0.artists@[ai].artist_id;
                assert(s2.artists@[ai].artist_id == aid);
                if ti2 == ti {
                } else {
                    assert(s2.tracks@[ti2] == s0.tracks@[ti2]);
                    assert(s2.tracks@[ti2].track_id != track_id);
                    assert(s2.artists@[ai].tracks@.contains(s2.tracks@[ti2].track_id)
                        <==> s0.artists@[ai].tracks@.contains(s0.tracks@[ti2].track_id));
                }
            }
            assert forall|bi: int, ai: int|
                0 <= bi < s2.albums@.len() && 0 <= ai < s2.artists@.len() implies ((
            #[trigger] s2.albums@[bi]).artists@.contains(s2.artists@[ai].artist_id) <==> (
            #[trigger] s2.artists@[ai]).albums@.contains(s2.albums@[bi].album_id)) by {
                assert(s2.albums@[bi] == s0.albums@[bi]);
                assert(s2.artists@[ai].albums == s0.artists@[ai].albums);
                assert(s2.artists@[ai].artist_id == s0.artists@[ai].artist_id);
            }
            assert forall|ui: int| 0 <= ui < s2.undefined_tracks@.len() implies {
                let id = (#[trigger] s2.undefined_tracks@[ui]).track_id;
                &&& !has_track_id(s2, id)
                &&& !has_artist_id(s2, id)
                &&& !crate::store::has_album_id(s2, id)
                &&& !crate::store::has_lyrics_row(s2, id)
            } by {
                assert(s2.undefined_tracks@[ui] == s0.undefined_tracks@[ui]);
            }
        }
        assert(dedup_keys_unique(s2)) by {
            assert forall|i: int, q: int| 0 <= i < q < s2.tracks@.len() implies !((
            #[trigger] s2.tracks@[i]).name@ == (#[trigger] s2.tracks@[q]).name@
                && s2.tracks@[i].length == s2.tracks@[q].length) by {
                if i != ti && q != ti {
                    assert(s2.tracks@[i] == s0.tracks@[i]);
                    assert(s2.tracks@[q] == s0.tracks@[q]);
                }
            }
        }
}

} // verus!

verus! {

use crate::store::{has_album_id, has_lyrics_row};

/// Request to change assigned artist metadata; absent fields are left as they are.
#[derive(Clone, Debug)]
pub struct PatchArtistMetadata {
    /// New name of the artist.
    pub artist_name: Option<String>,
    /// The new album member set of the artist.
    pub albums: Option<Vec<Uid>>,
    /// New description of the artist.
    pub about_artist: Option<String>,
}

/// Whether an optional member list names an album that does not exist.
pub open spec fn missing_album_ref(s: AstralStore, ids: Option<Vec<Uid>>) -> bool {
    match ids {
        Some(l) => exists|k: int| 0 <= k < l@.len() && !has_album_id(s, #[trigger] l@[k]),
        None => false,
    }
}

/// Transitivity of the album frame under a fixed relinked artist.
proof fn lemma_albums_frame_trans(
    b0: Seq<AlbumMetadata>,
    b1: Seq<AlbumMetadata>,
    b2: Seq<AlbumMetadata>,
    a: Uid,
)
    requires
        albums_same_but_artist(b0, b1, a),
        albums_same_but_artist(b1, b2, a),
    ensures
        albums_same_but_artist(b0, b2, a),
{
    assert forall|i: int| 0 <= i < b0.len() implies {
        &&& (#[trigger] b2[i]).album_id == b0[i].album_id
        &&& b2[i].name == b0[i].name
        &&& b2[i].tracks == b0[i].tracks
        &&& b2[i].release_date == b0[i].release_date
        &&& b2[i].genres == b0[i].genres
        &&& forall|x: Uid|
            x != a ==> (#[trigger] b2[i].artists@.contains(x) <==> b0[i].artists@.contains(x))
    } by {
        assert(b1[i].album_id == b0[i].album_id);
        assert(b2[i].album_id == b1[i].album_id);
        assert forall|x: Uid|
            x != a implies (#[trigger] b2[i].artists@.contains(x) <==> b0[i].artists@.contains(
            x,
        )) by {
            assert(b1[i].artists@.contains(x) <==> b0[i].artists@.contains(x));
        }
    }
}

/// Re-establishes the store invariants after an artist record was rewritten
/// and its album back-links updated.
#[verifier::rlimit(100)]
proof fn lemma_patch_artist_wf(s0: AstralStore, s2: AstralStore, ai: int, artist_id: Uid)
    requires
        wf(s0),
        dedup_keys_unique(s0),
        0 <= ai < s0.artists@.len(),
        s0.artists@[ai].artist_id == artist_id,
        s2.artists@.len() == s0.artists@.len(),
        forall|j: int|
            0 <= j < s0.artists@.len() && j != ai ==> s2.artists@[j] == s0.artists@[j],
        s2.artists@[ai].artist_id == artist_id,
        s2.artists@[ai].tracks == s0.artists@[ai].tracks,
        forall|x: Uid| #[trigger] s2.artists@[ai].albums@.contains(x) ==> has_album_id(s0, x),
        albums_same_but_artist(s0.albums@, s2.albums@, artist_id),
        forall|bi: int|
            0 <= bi < s2.albums@.len() ==> ((#[trigger] s2.albums@[bi]).artists@.contains(artist_id)
                <==> s2.artists@[ai].albums@.contains(s0.albums@[bi].album_id)),
        s2.tracks == s0.tracks,
        s2.undefined_tracks == s0.undefined_tracks,
        s2.lyrics == s0.lyrics,
        s2.id_seed == s0.id_seed,
    ensures
        wf(s2),
        dedup_keys_unique(s2),
{
    assert(same_entity_ids(s0, s2));
    lemma_same_ids_has(s0, s2);
    assert(wf(s2)) by {
        assert forall|ti: int, x: Uid|
            0 <= ti < s2.tracks@.len() && #[trigger] s2.tracks@[ti].artists@.contains(x)
                implies has_artist_id(s2, x) by {
            assert(s2.tracks@[ti] == s0.tracks@[ti]);
            assert(has_artist_id(s0, x));
        }
        assert forall|ti: int, x: Uid|
            0 <= ti < s2.tracks@.len() && #[trigger] s2.tracks@[ti].albums@.contains(x)
                implies has_album_id(s2, x) by {
            assert(s2.tracks@[ti] == s0.tracks@[ti]);
            assert(has_album_id(s0, x));
        }
        assert forall|bi: int, x: Uid|
            0 <= bi < s2.albums@.len() && #[trigger] s2.albums@[bi].artists@.contains(x)
                implies has_artist_id(s2, x) by {
            if x == artist_id {
                assert(s2.artists@[ai].artist_id == artist_id);
            } else {
                assert(s0.albums@[bi].artists@.contains(x));
                assert(has_artist_id(s0, x));
            }
        }
        assert forall|bi: int, x: Uid|
            0 <= bi < s2.albums@.len() && #[trigger] s2.albums@[bi].tracks@.contains(x)
                implies has_track_id(s2, x) by {
            assert(s2.albums@[bi].tracks == s0.albums@[bi].tracks);
            assert(has_track_id(s0, x));
        }
        assert forall|aj: int, x: Uid|
            0 <= aj < s2.artists@.len() && #[trigger] s2.artists@[aj].albums@.contains(x)
                implies has_album_id(s2, x) by {
            if aj != ai {
                assert(s2.artists@[aj] == s0.artists@[aj]);
                assert(has_album_id(s0, x));
            } else {
                assert(has_album_id(s0, x));
            }
        }
        assert forall|aj: int, x: Uid|
            0 <= aj < s2.artists@.len() && #[trigger] s2.artists@[aj].tracks@.contains(x)
                implies has_track_id(s2, x) by {
            if aj != ai {
                assert(s2.artists@[aj] == s0.artists@[aj]);
            } else {
                assert(s0.artists@[ai].tracks@.contains(x));
            }
            assert(has_track_id(s0, x));
        }
        assert forall|li: int|
            0 <= li < s2.lyrics@.len() implies has_track_id(
            s2,
            (#[trigger] s2.lyrics@[li]).track_id,
        ) by {
            assert(has_track_id(s0, s2.lyrics@[li].track_id));
        }
        assert forall|ti: int, bi: int|
            0 <= ti < s2.tracks@.len() && 0 <= bi < s2.albums@.len() implies ((
        #[trigger] s2.tracks@[ti]).albums@.contains(s2.albums@[bi].album_id) <==> (
        #[trigger] s2.albums@[bi]).tracks@.contains(s2.tracks@[ti].track_id)) by {
            assert(s2.tracks@[ti] == s0.tracks@[ti]);
            assert(s2.albums@[bi].album_id == s0.albums@[bi].album_id);
            assert(s2.albums@[bi].tracks == s0.albums@[bi].tracks);
        }
        assert forall|ti: int, aj: int|
            0 <= ti < s2.tracks@.len() && 0 <= aj < s2.artists@.len() implies ((
        #[trigger] s2.tracks@[ti]).artists@.contains(s2.artists@[aj].artist_id) <==> (
        #[trigger] s2.artists@[aj]).tracks@.contains(s2.tracks@[ti].track_id)) by {
            assert(s2.tracks@[ti] == s0.tracks@[ti]);
            assert(s2.artists@[aj].artist_id == s0.artists@[aj].artist_id);
            assert(s2.artists@[aj].tracks == s0.artists@[aj].tracks);
        }
        assert forall|bi: int, aj: int|
            0 <= bi < s2.albums@.len() && 0 <= aj < s2.artists@.len() implies ((
        #[trigger] s2.albums@[bi]).artists@.contains(s2.artists@[aj].artist_id) <==> (
        #[trigger] s2.artists@[aj]).albums@.contains(s2.albums@[bi].album_id)) by {
            let aid = s0.artists@[aj].artist_id;
            let bid = s0.albums@[bi].album_id;
            assert(s2.artists@[aj].artist_id == aid);
            assert(s2.albums@[bi].album_id == bid);
            if aj == ai {
            } else {
                assert(s2.artists@[aj] == s0.artists@[aj]);
                assert(aid != artist_id);
                assert(s2.albums@[bi].artists@.contains(aid) <==> s0.albums@[bi].artists@.contains(
                    aid,
                ));
            }
        }
        assert forall|ui: int| 0 <= ui < s2.undefined_tracks@.len() implies {
            let id = (#[trigger] s2.undefined_tracks@[ui]).track_id;
            &&& !has_track_id(s2, id)
            &&& !has_artist_id(s2, id)
            &&& !has_album_id(s2, id)
            &&& !has_lyrics_row(s2, id)
        } by {
            assert(s2.undefined_tracks@[ui] == s0.undefined_tracks@[ui]);
        }
    }
    assert(dedup_keys_unique(s2)) by {
        assert forall|i: int, q: int| 0 <= i < q < s2.tracks@.len() implies !((
        #[trigger] s2.tracks@[i]).name@ == (#[trigger] s2.tracks@[q]).name@ && s2.tracks@[i].length
            == s2.tracks@[q].length) by {
            assert(s2.tracks@[i] == s0.tracks@[i]);
            assert(s2.tracks@[q] == s0.tracks@[q]);
        }
    }
}

/// Updates an artist record. Scalar fields are overwritten where given; a
/// given album member set is applied by set difference, removing the artist
/// from albums that leave the set and adding it to albums that enter it.
#[verifier::rlimit(100)]
pub fn patch_artist_metadata(
    store: &mut AstralStore,
    artist_id: Uid,
    patch: PatchArtistMetadata,
    permissions: &Vec<UserPermission>,
) -> (r: Result<(), AstralError>)
    requires
        wf(*old(store)),
        dedup_keys_unique(*old(store)),
    ensures
        wf(*final(store)),
        dedup_keys_unique(*final(store)),
        r is Err ==> *final(store) == *old(store),
        (r matches Err(e) && e is Unauthorized) <==> !permissions@.contains(
            UserPermission::ChangeMetadata,
        ),
        permissions@.contains(UserPermission::ChangeMetadata) ==> ((r matches Err(e)
            && e is NotFound) <==> (!has_artist_id(*old(store), artist_id) || missing_album_ref(
            *old(store),
            patch.albums,
        ))),
        r is Ok <==> (permissions@.contains(UserPermission::ChangeMetadata) && has_artist_id(
            *old(store),
            artist_id,
        ) && !missing_album_ref(*old(store), patch.albums)),
        r is Ok ==> final(store).tracks == old(store).tracks && final(store).undefined_tracks
            == old(store).undefined_tracks && final(store).lyrics == old(store).lyrics,
        r is Ok ==> final(store).id_seed == old(store).id_seed,
        r is Ok ==> albums_same_but_artist(old(store).albums@, final(store).albums@, artist_id),
        r is Ok ==> final(store).artists@.len() == old(store).artists@.len(),
        r is Ok ==> forall|ai: int|
            0 <= ai < old(store).artists@.len() && (#[trigger] old(store).artists@[ai]).artist_id
                == artist_id ==> {
                &&& forall|j: int|
                    0 <= j < old(store).artists@.len() && j != ai ==> final(store).artists@[j]
                        == old(store).artists@[j]
                &&& final(store).artists@[ai].artist_id == artist_id
                &&& final(store).artists@[ai].name@ == (match patch.artist_name {
                    Some(n) => n@,
                    None => old(store).artists@[ai].name@,
                })
                &&& final(store).artists@[ai].about@ == (match patch.about_artist {
                    Some(a) => a@,
                    None => old(store).artists@[ai].about@,
                })
                &&& final(store).artists@[ai].tracks == old(store).artists@[ai].tracks
                &&& final(store).artists@[ai].genres == old(store).artists@[ai].genres
                &&& final(store).artists@[ai].albums@ == (match patch.albums {
                    Some(a) => a@,
                    None => old(store).artists@[ai].albums@,
                })
            },
        r is Ok ==> forall|bi: int|
            0 <= bi < old(store).albums@.len() ==> ((#[trigger] final(store).albums@[bi]).artists@.contains(artist_id) <==> (match patch.albums {
                Some(n) => n@.contains(old(store).albums@[bi].album_id),
                None => old(store).albums@[bi].artists@.contains(artist_id),
            })),
{
    let ghost s0 = *store;
    if !has_permission(permissions, UserPermission::ChangeMetadata) {
        return Err(
            AstralError::Unauthorized(String::from_str("You are not authorized to change metadata.")),
        );
    }
    let ai = match store.index_of_artist(artist_id) {
        Some(i) => i,
        None => {
            return Err(
                AstralError::NotFound(String::from_str("Could not find an artist with this UUID")),
            );
        },
    };
    if let Some(list) = &patch.albums {
        let mut k: usize = 0;
        while k < list.len()
            invariant
                k <= list@.len(),
                s0 == *old(store),
                *store == s0,
                wf(s0),
                dedup_keys_unique(s0),
                permissions@.contains(UserPermission::ChangeMetadata),
                has_artist_id(s0, artist_id),
                patch.albums == Some(*list),
                forall|q: int| 0 <= q < k ==> has_album_id(s0, #[trigger] list@[q]),
            decreases list@.len() - k,
        {
            match store.index_of_album(list[k]) {
                Some(_) => {},
                None => {
                    return Err(
                        AstralError::NotFound(String::from_str("Could not find an album with this UUID")),
                    );
                },
            }
            k += 1;
        }
    }
    if let Some(n) = patch.artist_name {
        store.artists[ai].name = n;
    }
    if let Some(a) = patch.about_artist {
        store.artists[ai].about = a;
    }
    if let Some(new_albums) = patch.albums {
        let (removed, added) = diff_members(&store.artists[ai].albums, &new_albums);
        relink_artist_in_albums(&mut store.albums, &removed, artist_id, false);
        let ghost smid = *store;
        relink_artist_in_albums(&mut store.albums, &added, artist_id, true);
        store.artists[ai].albums = new_albums;
        proof {
            let s2 = *store;
            assert forall|bi: int| 0 <= bi < s2.albums@.len() implies ((
            #[trigger] s2.albums@[bi]).artists@.contains(artist_id)
                <==> s2.artists@[ai as int].albums@.contains(s0.albums@[bi].album_id)) by {
                let bid = s0.albums@[bi].album_id;
                assert(smid.albums@[bi].album_id == bid);
                assert(s0.artists@[ai as int].albums@.contains(bid)
                    <==> s0.albums@[bi].artists@.contains(artist_id));
            }
            lemma_albums_frame_trans(s0.albums@, smid.albums@, s2.albums@, artist_id);
            assert forall|x: Uid| #[trigger] s2.artists@[ai as int].albums@.contains(x)
                implies has_album_id(s0, x) by {
                let k = choose|k: int| 0 <= k < new_albums@.len() && new_albums@[k] == x;
                assert(has_album_id(s0, new_albums@[k]));
            }
        }
    }
    proof {
        let s2 = *store;
        if patch.albums is None {
            assert forall|bi: int| 0 <= bi < s2.albums@.len() implies ((
            #[trigger] s2.albums@[bi]).artists@.contains(artist_id)
                <==> s2.artists@[ai as int].albums@.contains(s0.albums@[bi].album_id)) by {
                assert(s0.artists@[ai as int].albums@.contains(s0.albums@[bi].album_id)
                    <==> s0.albums@[bi].artists@.contains(artist_id));
            }
            assert forall|x: Uid| #[trigger] s2.artists@[ai as int].albums@.contains(x)
                implies has_album_id(s0, x) by {}
        }
        lemma_patch_artist_wf(s0, s2, ai as int, artist_id);
    }
    Ok(())
}

} // verus!

verus! {

/// Request to change assigned album metadata; absent fields are left as they are.
#[derive(Clone, Debug)]
pub struct PatchAlbumMetadata {
    /// New name of the album.
    pub album_name: Option<String>,
    /// The new track member set of the album.
    pub tracks: Option<Vec<Uid>>,
    /// The new artist member set of the album.
    pub artists: Option<Vec<Uid>>,
    /// Milliseconds unix timestamp of the new release date.
    pub release_date: Option<u64>,
    /// New genre list of the album.
    pub genres: Option<Vec<String>>,
}

/// Whether an optional member list names a track that does not exist.
pub open spec fn missing_track_ref(s: AstralStore, ids: Option<Vec<Uid>>) -> bool {
    match ids {
        Some(l) => exists|k: int| 0 <= k < l@.len() && !has_track_id(s, #[trigger] l@[k]),
        None => false,
    }
}

/// Transitivity of the track frame under a fixed relinked album.
proof fn lemma_tracks_frame_trans(
    t0: Seq<TrackMetadata>,
    t1: Seq<TrackMetadata>,
    t2: Seq<TrackMetadata>,
    b: Uid,
)
    requires
        tracks_same_but_album(t0, t1, b),
        tracks_same_but_album(t1, t2, b),
    ensures
        tracks_same_but_album(t0, t2, b),
{
    assert forall|i: int| 0 <= i < t0.len() implies {
        &&& (#[trigger] t2[i]).track_id == t0[i].track_id
        &&& t2[i].name == t0[i].name
        &&& t2[i].length == t0[i].length
        &&& t2[i].artists == t0[i].artists
        &&& t2[i].is_explicit == t0[i].is_explicit
        &&& t2[i].format == t0[i].format
        &&& t2[i].number == t0[i].number
        &&& t2[i].disc_number == t0[i].disc_number
        &&& forall|x: Uid|
            x != b ==> (#[trigger] t2[i].albums@.contains(x) <==> t0[i].albums@.contains(x))
    } by {
        assert(t1[i].track_id == t0[i].track_id);
        assert(t2[i].track_id == t1[i].track_id);
        assert forall|x: Uid|
            x != b implies (#[trigger] t2[i].albums@.contains(x) <==> t0[i].albums@.contains(
            x,
        )) by {
            assert(t1[i].albums@.contains(x) <==> t0[i].albums@.contains(x));
        }
    }
}

/// Transitivity of the artist frame under a fixed relinked album.
proof fn lemma_artists_album_frame_trans(
    a0: Seq<ArtistMetadata>,
    a1: Seq<ArtistMetadata>,
    a2: Seq<ArtistMetadata>,
    b: Uid,
)
    requires
        artists_same_but_album(a0, a1, b),
        artists_same_but_album(a1, a2, b),
    ensures
        artists_same_but_album(a0, a2, b),
{
    assert forall|i: int| 0 <= i < a0.len() implies {
        &&& (#[trigger] a2[i]).artist_id == a0[i].artist_id
        &&& a2[i].name == a0[i].name
        &&& a2[i].tracks == a0[i].tracks
        &&& a2[i].genres == a0[i].genres
        &&& a2[i].about == a0[i].about
        &&& forall|x: Uid|
            x != b ==> (#[trigger] a2[i].albums@.contains(x) <==> a0[i].albums@.contains(x))
    } by {
        assert(a1[i].artist_id == a0[i].artist_id);
        assert(a2[i].artist_id == a1[i].artist_id);
        assert forall|x: Uid|
            x != b implies (#[trigger] a2[i].albums@.contains(x) <==> a0[i].albums@.contains(
            x,
        )) by {
            assert(a1[i].albums@.contains(x) <==> a0[i].albums@.contains(x));
        }
    }
}

/// Re-establishes the store invariants after an album record was rewritten
/// and the track and artist back-links updated.
#[verifier::rlimit(100)]
proof fn lemma_patch_album_wf(s0: AstralStore, s2: AstralStore, bi: int, album_id: Uid)
    requires
        wf(s0),
        dedup_keys_unique(s0),
        0 <= bi < s0.albums@.len(),
        s0.albums@[bi].album_id == album_id,
        s2.albums@.len() == s0.albums@.len(),
        forall|j: int| 0 <= j < s0.albums@.len() && j != bi ==> s2.albums@[j] == s0.albums@[j],
        s2.albums@[bi].album_id == album_id,
        forall|x: Uid| #[trigger] s2.albums@[bi].tracks@.contains(x) ==> has_track_id(s0, x),
        forall|x: Uid| #[trigger] s2.albums@[bi].artists@.contains(x) ==> has_artist_id(s0, x),
        tracks_same_but_album(s0.tracks@, s2.tracks@, album_id),
        forall|ti: int|
            0 <= ti < s2.tracks@.len() ==> ((#[trigger] s2.tracks@[ti]).albums@.contains(album_id)
                <==> s2.albums@[bi].tracks@.contains(s0.tracks@[ti].track_id)),
        artists_same_but_album(s0.artists@, s2.artists@, album_id),
        forall|aj: int|
            0 <= aj < s2.artists@.len() ==> ((#[trigger] s2.artists@[aj]).albums@.contains(album_id)
                <==> s2.albums@[bi].artists@.contains(s0.artists@[aj].artist_id)),
        s2.undefined_tracks == s0.undefined_tracks,
        s2.lyrics == s0.lyrics,
        s2.id_seed == s0.id_seed,
    ensures
        wf(s2),
        dedup_keys_unique(s2),
{
    assert(same_entity_ids(s0, s2));
    lemma_same_ids_has(s0, s2);
    assert(wf(s2)) by {
        assert forall|ti: int, x: Uid|
            0 <= ti < s2.tracks@.len() && #[trigger] s2.tracks@[ti].artists@.contains(x)
                implies has_artist_id(s2, x) by {
            assert(s2.tracks@[ti].artists == s0.tracks@[ti].artists);
            assert(has_artist_id(s0, x));
        }
        assert forall|ti: int, x: Uid|
            0 <= ti < s2.tracks@.len() && #[trigger] s2.tracks@[ti].albums@.contains(x)
                implies has_album_id(s2, x) by {
            if x == album_id {
                assert(s2.albums@[bi].album_id == album_id);
            } else {
                assert(s0.tracks@[ti].albums@.contains(x));
                assert(has_album_id(s0, x));
            }
        }
        assert forall|bj: int, x: Uid|
            0 <= bj < s2.albums@.len() && #[trigger] s2.albums@[bj].artists@.contains(x)
                implies has_artist_id(s2, x) by {
            if bj != bi {
                assert(s2.albums@[bj] == s0.albums@[bj]);
                assert(has_artist_id(s0, x));
            } else {
                assert(has_artist_id(s0, x));
            }
        }
        assert forall|bj: int, x: Uid|
            0 <= bj < s2.albums@.len() && #[trigger] s2.albums@[bj].tracks@.contains(x)
                implies has_track_id(s2, x) by {
            if bj != bi {
                assert(s2.albums@[bj] == s0.albums@[bj]);
                assert(has_track_id(s0, x));
            } else {
                assert(has_track_id(s0, x));
            }
        }
        assert forall|aj: int, x: Uid|
            0 <= aj < s2.artists@.len() && #[trigger] s2.artists@[aj].albums@.contains(x)
                implies has_album_id(s2, x) by {
            if x == album_id {
                assert(s2.albums@[bi].album_id == album_id);
            } else {
                assert(s0.artists@[aj].albums@.contains(x));
                assert(has_album_id(s0, x));
            }
        }
        assert forall|aj: int, x: Uid|
            0 <= aj < s2.artists@.len() && #[trigger] s2.artists@[aj].tracks@.contains(x)
                implies has_track_id(s2, x) by {
            assert(s2.artists@[aj].tracks == s0.artists@[aj].tracks);
            assert(has_track_id(s0, x));
        }
        assert forall|li: int|
            0 <= li < s2.lyrics@.len() implies has_track_id(
            s2,
            (#[trigger] s2.lyrics@[li]).track_id,
        ) by {
            assert(has_track_id(s0, s2.lyrics@[li].track_id));
        }
        assert forall|ti: int, bj: int|
            0 <= ti < s2.tracks@.len() && 0 <= bj < s2.albums@.len() implies ((
        #[trigger] s2.tracks@[ti]).albums@.contains(s2.albums@[bj].album_id) <==> (
        #[trigger] s2.albums@[bj]).tracks@.contains(s2.tracks@[ti].track_id)) by {
            let bid = s0.albums@[bj].album_id;
            let tid = s0.tracks@[ti].track_id;
            assert(s2.albums@[bj].album_id == bid);
            assert(s2.tracks@[ti].track_id == tid);
            if bj == bi {
            } else {
                assert(s2.albums@[bj] == s0.albums@[bj]);
                assert(bid != album_id);
                assert(s2.tracks@[ti].albums@.contains(bid) <==> s0.tracks@[ti].albums@.contains(
                    bid,
                ));
            }
        }
        assert forall|ti: int, aj: int|
            0 <= ti < s2.tracks@.len() && 0 <= aj < s2.artists@.len() implies ((
        #[trigger] s2.tracks@[ti]).artists@.contains(s2.artists@[aj].artist_id) <==> (
        #[trigger] s2.artists@[aj]).tracks@.contains(s2.tracks@[ti].track_id)) by {
            assert(s2.tracks@[ti].artists == s0.tracks@[ti].artists);
            assert(s2.artists@[aj].artist_id == s0.artists@[aj].artist_id);
            assert(s2.artists@[aj].tracks == s0.artists@[aj].tracks);
            assert(s2.tracks@[ti].track_id == s0.tracks@[ti].track_id);
        }
        assert forall|bj: int, aj: int|
            0 <= bj < s2.albums@.len() && 0 <= aj < s2.artists@.len() implies ((
        #[trigger] s2.albums@[bj]).artists@.contains(s2.artists@[aj].artist_id) <==> (
        #[trigger] s2.artists@[aj]).albums@.contains(s2.albums@[bj].album_id)) by {
            let bid = s0.albums@[bj].album_id;
            let aid = s0.artists@[aj].artist_id;
            assert(s2.albums@[bj].album_id == bid);
            assert(s2.artists@[aj].artist_id == aid);
            if bj == bi {
            } else {
                assert(s2.albums@[bj] == s0.albums@[bj]);
                assert(bid != album_id);
                assert(s2.artists@[aj].albums@.contains(bid) <==> s0.artists@[aj].albums@.contains(
                    bid,
                ));
            }
        }
        assert forall|ui: int| 0 <= ui < s2.undefined_tracks@.len() implies {
            let id = (#[trigger] s2.undefined_tracks@[ui]).track_id;
            &&& !has_track_id(s2, id)
            &&& !has_artist_id(s2, id)
            &&& !has_album_id(s2, id)
            &&& !has_lyrics_row(s2, id)
        } by {
            assert(s2.undefined_tracks@[ui] == s0.undefined_tracks@[ui]);
        }
    }
    assert(dedup_keys_unique(s2)) by {
        assert forall|i: int, q: int| 0 <= i < q < s2.tracks@.len() implies !((
        #[trigger] s2.tracks@[i]).name@ == (#[trigger] s2.tracks@[q]).name@ && s2.tracks@[i].length
            == s2.tracks@[q].length) by {
            assert(s2.tracks@[i].name == s0.tracks@[i].name);
            assert(s2.tracks@[q].name == s0.tracks@[q].name);
            assert(s2.tracks@[i].length == s0.tracks@[i].length);
            assert(s2.tracks@[q].length == s0.tracks@[q].length);
        }
    }
}

/// Updates an album record. Scalar fields are overwritten where given; given
/// track and artist member sets are applied by set difference, updating the
/// album back-links of the tracks and artists that leave or enter the sets.
#[verifier::rlimit(100)]
pub fn patch_album_metadata(
    store: &mut AstralStore,
    album_id: Uid,
    patch: PatchAlbumMetadata,
    permissions: &Vec<UserPermission>,
) -> (r: Result<(), AstralError>)
    requires
        wf(*old(store)),
        dedup_keys_unique(*old(store)),
    ensures
        wf(*final(store)),
        dedup_keys_unique(*final(store)),
        r is Err ==> *final(store) == *old(store),
        (r matches Err(e) && e is Unauthorized) <==> !permissions@.contains(
            UserPermission::ChangeMetadata,
        ),
        permissions@.contains(UserPermission::ChangeMetadata) ==> ((r matches Err(e)
            && e is NotFound) <==> (!has_album_id(*old(store), album_id) || missing_track_ref(
            *old(store),
            patch.tracks,
        ) || missing_artist_ref(*old(store), patch.artists))),
        r is Ok <==> (permissions@.contains(UserPermission::ChangeMetadata) && has_album_id(
            *old(store),
            album_id,
        ) && !missing_track_ref(*old(store), patch.tracks) && !missing_artist_ref(
            *old(store),
            patch.artists,
        )),
        r is Ok ==> final(store).undefined_tracks == old(store).undefined_tracks,
        r is Ok ==> final(store).lyrics == old(store).lyrics,
        r is Ok ==> final(store).id_seed == old(store).id_seed,
        r is Ok ==> tracks_same_but_album(old(store).tracks@, final(store).tracks@, album_id),
        r is Ok ==> artists_same_but_album(old(store).artists@, final(store).artists@, album_id),
        r is Ok ==> final(store).albums@.len() == old(store).albums@.len(),
        r is Ok ==> forall|bi: int|
            0 <= bi < old(store).albums@.len() && (#[trigger] old(store).albums@[bi]).album_id
                == album_id ==> {
                &&& forall|j: int|
                    0 <= j < old(store).albums@.len() && j != bi ==> final(store).albums@[j]
                        == old(store).albums@[j]
                &&& final(store).albums@[bi].album_id == album_id
                &&& final(store).albums@[bi].name@ == (match patch.album_name {
                    Some(n) => n@,
                    None => old(store).albums@[bi].name@,
                })
                &&& final(store).albums@[bi].release_date == (match patch.release_date {
                    Some(d) => d,
                    None => old(store).albums@[bi].release_date,
                })
                &&& final(store).albums@[bi].genres == (match patch.genres {
                    Some(g) => g,
                    None => old(store).albums@[bi].genres,
                })
                &&& final(store).albums@[bi].tracks@ == (match patch.tracks {
                    Some(t) => t@,
                    None => old(store).albums@[bi].tracks@,
                })
                &&& final(store).albums@[bi].artists@ == (match patch.artists {
                    Some(a) => a@,
                    None => old(store).albums@[bi].artists@,
                })
            },
        r is Ok ==> forall|ti: int|
            0 <= ti < old(store).tracks@.len() ==> ((#[trigger] final(store).tracks@[ti]).albums@.contains(
                album_id,
            ) <==> (match patch.tracks {
                Some(n) => n@.contains(old(store).tracks@[ti].track_id),
                None => old(store).tracks@[ti].albums@.contains(album_id),
            })),
        r is Ok ==> forall|aj: int|
            0 <= aj < old(store).artists@.len() ==> ((#[trigger] final(store).artists@[aj]).albums@.contains(
                album_id,
            ) <==> (match patch.artists {
                Some(n) => n@.contains(old(store).artists@[aj].artist_id),
                None => old(store).artists@[aj].albums@.contains(album_id),
            })),
{
    let ghost s0 = *store;
    if !has_permission(permissions, UserPermission::ChangeMetadata) {
        return Err(
            AstralError::Unauthorized(String::from_str("You are not authorized to change metadata.")),
        );
    }
    let bi = match store.index_of_album(album_id) {
        Some(i) => i,
        None => {
            return Err(AstralError::NotFound(String::from_str("Could not find an album with this UUID")));
        },
    };
    if let Some(list) = &patch.tracks {
        let mut k: usize = 0;
        while k < list.len()
            invariant
                k <= list@.len(),
                s0 == *old(store),
                *store == s0,
                wf(s0),
                dedup_keys_unique(s0),
                permissions@.contains(UserPermission::ChangeMetadata),
                has_album_id(s0, album_id),
                patch.tracks == Some(*list),
                forall|q: int| 0 <= q < k ==> has_track_id(s0, #[trigger] list@[q]),
            decreases list@.len() - k,
        {
            match store.index_of_track(list[k]) {
                Some(_) => {},
                None => {
                    return Err(
                        AstralError::NotFound(String::from_str("Could not find a track with this UUID")),
                    );
                },
            }
            k += 1;
        }
    }
    if let Some(list) = &patch.artists {
        let mut k: usize = 0;
        while k < list.len()
            invariant
                k <= list@.len(),
                s0 == *old(store),
                *store == s0,
                wf(s0),
                dedup_keys_unique(s0),
                permissions@.contains(UserPermission::ChangeMetadata),
                has_album_id(s0, album_id),
                !missing_track_ref(s0, patch.tracks),
                patch.artists == Some(*list),
                forall|q: int| 0 <= q < k ==> has_artist_id(s0, #[trigger] list@[q]),
            decreases list@.len() - k,
        {
            match store.index_of_artist(list[k]) {
                Some(_) => {},
                None => {
                    return Err(
                        AstralError::NotFound(String::from_str("Could not find an artist with this UUID")),
                    );
                },
            }
            k += 1;
        }
    }
    if let Some(n) = patch.album_name {
        store.albums[bi].name = n;
    }
    if let Some(d) = patch.release_date {
        store.albums[bi].release_date = d;
    }
    if let Some(g) = patch.genres {
        store.albums[bi].genres = g;
    }
    if let Some(new_tracks) = patch.tracks {
        let (removed, added) = diff_members(&store.albums[bi].tracks, &new_tracks);
        relink_album_in_tracks(&mut store.tracks, &removed, album_id, false);
        let ghost smid = *store;
        relink_album_in_tracks(&mut store.tracks, &added, album_id, true);
        store.albums[bi].tracks = new_tracks;
        proof {
            let s2 = *store;
            assert forall|ti: int| 0 <= ti < s2.tracks@.len() implies ((
            #[trigger] s2.tracks@[ti]).albums@.contains(album_id)
                <==> s2.albums@[bi as int].tracks@.contains(s0.tracks@[ti].track_id)) by {
                let tid = s0.tracks@[ti].track_id;
                assert(smid.tracks@[ti].track_id == tid);
                assert(s0.albums@[bi as int].tracks@.contains(tid)
                    <==> s0.tracks@[ti].albums@.contains(album_id));
            }
            lemma_tracks_frame_trans(s0.tracks@, smid.tracks@, s2.tracks@, album_id);
            assert forall|x: Uid| #[trigger] s2.albums@[bi as int].tracks@.contains(x)
                implies has_track_id(s0, x) by {
                let k = choose|k: int| 0 <= k < new_tracks@.len() && new_tracks@[k] == x;
                assert(has_track_id(s0, new_tracks@[k]));
            }
        }
    }
    let ghost smid2 = *store;
    if let Some(new_artists) = patch.artists {
        let (removed, added) = diff_members(&store.albums[bi].artists, &new_artists);
        relink_album_in_artists(&mut store.artists, &removed, album_id, false);
        let ghost smid = *store;
        relink_album_in_artists(&mut store.artists, &added, album_id, true);
        store.albums[bi].artists = new_artists;
        proof {
            let s2 = *store;
            assert forall|aj: int| 0 <= aj < s2.artists@.len() implies ((
            #[trigger] s2.artists@[aj]).albums@.contains(album_id)
                <==> s2.albums@[bi as int].artists@.contains(s0.artists@[aj].artist_id)) by {
                let aid = s0.artists@[aj].artist_id;
                assert(smid.artists@[aj].artist_id == aid);
                assert(smid2.artists@[aj] == s0.artists@[aj]);
                assert(s0.albums@[bi as int].artists@.contains(aid)
                    <==> s0.artists@[aj].albums@.contains(album_id));
            }
            lemma_artists_album_frame_trans(smid2.artists@, smid.artists@, s2.artists@, album_id);
            assert(artists_same_but_album(s0.artists@, s2.artists@, album_id)) by {
                assert(smid2.artists@ =~= s0.artists@);
            }
            assert forall|x: Uid| #[trigger] s2.albums@[bi as int].artists@.contains(x)
                implies has_artist_id(s0, x) by {
                let k = choose|k: int| 0 <= k < new_artists@.len() && new_artists@[k] == x;
                assert(has_artist_id(s0, new_artists@[k]));
            }
        }
    }
    proof {
        let s2 = *store;
        if patch.tracks is None {
            assert forall|ti: int| 0 <= ti < s2.tracks@.len() implies ((
            #[trigger] s2.tracks@[ti]).albums@.contains(album_id)
                <==> s2.albums@[bi as int].tracks@.contains(s0.tracks@[ti].track_id)) by {
                assert(s0.albums@[bi as int].tracks@.contains(s0.tracks@[ti].track_id)
                    <==> s0.tracks@[ti].albums@.contains(album_id));
            }
            assert forall|x: Uid| #[trigger] s2.albums@[bi as int].tracks@.contains(x)
                implies has_track_id(s0, x) by {}
        }
        if patch.artists is None {
            assert forall|aj: int| 0 <= aj < s2.artists@.len() implies ((
            #[trigger] s2.artists@[aj]).albums@.contains(album_id)
                <==> s2.albums@[bi as int].artists@.contains(s0.artists@[aj].artist_id)) by {
                assert(s0.artists@[aj].albums@.contains(album_id) <==> s0.albums@[bi as int].artists@.contains(
                    s0.artists@[aj].artist_id,
                ));
            }
            assert forall|x: Uid| #[trigger] s2.albums@[bi as int].artists@.contains(x)
                implies has_artist_id(s0, x) by {}
        }
        lemma_patch_album_wf(s0, s2, bi as int, album_id);
    }
    Ok(())
}

} // verus!
