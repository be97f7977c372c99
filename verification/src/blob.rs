//! Key-addressed blob storage model: raw audio keyed by track identifier and
//! cover art keyed by album identifier.
use vstd::prelude::*;

verus! {

use crate::model::{MimeKind, Uid};

/// A stored audio payload.
#[derive(Clone, Debug)]
pub struct AudioBlob {
    /// Identifier of the track the payload belongs to.
    pub track_id: Uid,
    /// The raw bytes.
    pub data: Vec<u8>,
}

/// A stored piece of cover art.
#[derive(Clone, Debug)]
pub struct CoverBlob {
    /// Identifier of the album the art belongs to.
    pub album_id: Uid,
    /// Image type of the art.
    pub mime: MimeKind,
    /// The raw bytes.
    pub data: Vec<u8>,
}

/// The two blob namespaces of the system.
#[derive(Debug)]
pub struct BlobStore {
    /// Raw audio, keyed by track identifier.
    pub audio: Vec<AudioBlob>,
    /// Cover art, keyed by album identifier; at most one per album.
    pub covers: Vec<CoverBlob>,
}

/// Whether an audio blob is stored under the given track identifier.
pub open spec fn has_audio(b: BlobStore, id: Uid) -> bool {
    exists|i: int| 0 <= i < b.audio@.len() && (#[trigger] b.audio@[i]).track_id == id
}

/// Whether cover art is stored under the given album identifier.
pub open spec fn has_cover(b: BlobStore, id: Uid) -> bool {
    exists|i: int| 0 <= i < b.covers@.len() && (#[trigger] b.covers@[i]).album_id == id
}

/// Well-formedness: at most one blob per key in each namespace.
pub open spec fn wf_blobs(b: BlobStore) -> bool {
    &&& forall|i: int, j: int|
        0 <= i < j < b.audio@.len() ==> (#[trigger] b.audio@[i]).track_id != (
        #[trigger] b.audio@[j]).track_id
    &&& forall|i: int, j: int|
        0 <= i < j < b.covers@.len() ==> (#[trigger] b.covers@[i]).album_id != (
        #[trigger] b.covers@[j]).album_id
}

impl BlobStore {
    /// An empty blob store.
    pub fn new() -> (r: BlobStore)
        ensures
            wf_blobs(r),
            r.audio@.len() == 0,
            r.covers@.len() == 0,
    {
        BlobStore { audio: Vec::new(), covers: Vec::new() }
    }

    /// Finds the index of the audio blob stored under a track identifier.
    pub fn index_of_audio(&self, id: Uid) -> (r: Option<usize>)
        ensures
            match r {
                Some(i) => i < self.audio@.len() && self.audio@[i as int].track_id == id,
                None => !has_audio(*self, id),
            },
    {
        let mut i: usize = 0;
        while i < self.audio.len()
            invariant
                i <= self.audio@.len(),
                forall|j: int| 0 <= j < i ==> (#[trigger] self.audio@[j]).track_id != id,
            decreases self.audio@.len() - i,
        {
            if self.audio[i].track_id == id {
                return Some(i);
            }
            i += 1;
        }
        None
    }

    /// Finds the index of the cover art stored under an album identifier.
    pub fn index_of_cover(&self, id: Uid) -> (r: Option<usize>)
        ensures
            match r {
                Some(i) => i < self.covers@.len() && self.covers@[i as int].album_id == id,
                None => !has_cover(*self, id),
            },
    {
        let mut i: usize = 0;
        while i < self.covers.len()
            invariant
                i <= self.covers@.len(),
                forall|j: int| 0 <= j < i ==> (#[trigger] self.covers@[j]).album_id != id,
            decreases self.covers@.len() - i,
        {
            if self.covers[i].album_id == id {
                return Some(i);
            }
            i += 1;
        }
        None
    }

    /// Whether cover art exists for the given album.
    pub fn cover_exists(&self, id: Uid) -> (r: bool)
        ensures
            r == has_cover(*self, id),
    {
        match self.index_of_cover(id) {
            Some(i) => {
                proof {
                    assert(has_cover(*self, id)) by {
                        assert(self.covers@[i as int].album_id == id);
                    }
                }
                true
            },
            None => false,
        }
    }

    /// Stores an audio payload under a fresh track identifier.
    pub fn put_audio(&mut self, track_id: Uid, data: Vec<u8>)
        requires
            wf_blobs(*old(self)),
            !has_audio(*old(self), track_id),
        ensures
            wf_blobs(*final(self)),
            final(self).audio@.len() == old(self).audio@.len() + 1,
            forall|i: int|
                0 <= i < old(self).audio@.len() ==> final(self).audio@[i] == old(self).audio@[i],
            final(self).audio@[old(self).audio@.len() as int].track_id == track_id,
            final(self).audio@[old(self).audio@.len() as int].data@ == data@,
            final(self).covers == old(self).covers,
            has_audio(*final(self), track_id),
    {
        self.audio.push(AudioBlob { track_id, data });
        proof {
            let n = old(self).audio@.len() as int;
            assert(final(self).audio@[n].track_id == track_id);
            assert forall|i: int, j: int|
                0 <= i < j < self.audio@.len() implies (#[trigger] self.audio@[i]).track_id != (
            #[trigger] self.audio@[j]).track_id by {
                if j == n {
                    assert(self.audio@[i] == old(self).audio@[i]);
                    assert(!has_audio(*old(self), track_id));
                    if self.audio@[i].track_id == track_id {
                        assert(has_audio(*old(self), track_id)) by {
                            assert(old(self).audio@[i].track_id == track_id);
                        }
                    }
                }
            }
        }
    }

    /// Stores cover art for an album unless art for it already exists, in
    /// which case the store is left unchanged.
    pub fn store_cover_art(&mut self, album_id: Uid, mime: MimeKind, data: Vec<u8>)
        requires
            wf_blobs(*old(self)),
        ensures
            wf_blobs(*final(self)),
            final(self).audio == old(self).audio,
            has_cover(*old(self), album_id) ==> *final(self) == *old(self),
            !has_cover(*old(self), album_id) ==> {
                &&& final(self).covers@.len() == old(self).covers@.len() + 1
                &&& forall|i: int|
                    0 <= i < old(self).covers@.len() ==> final(self).covers@[i] == old(self).covers@[i]
                &&& final(self).covers@[old(self).covers@.len() as int].album_id == album_id
                &&& final(self).covers@[old(self).covers@.len() as int].mime == mime
                &&& final(self).covers@[old(self).covers@.len() as int].data@ == data@
            },
            has_cover(*final(self), album_id),
    {
        if self.cover_exists(album_id) {
            return ;
        }
        let ghost n = self.covers@.len() as int;
        self.covers.push(CoverBlob { album_id, mime, data });
        proof {
            assert(final(self).covers@[n].album_id == album_id);
            assert forall|i: int, j: int|
                0 <= i < j < self.covers@.len() implies (#[trigger] self.covers@[i]).album_id != (
            #[trigger] self.covers@[j]).album_id by {
                if j == n {
                    assert(self.covers@[i] == old(self).covers@[i]);
                    if self.covers@[i].album_id == album_id {
                        assert(has_cover(*old(self), album_id)) by {
                            assert(old(self).covers@[i].album_id == album_id);
                        }
                    }
                }
            }
        }
    }

    /// Replaces the cover art of an album: any existing art for it is removed
    /// and the new art stored.
    pub fn replace_cover(&mut self, album_id: Uid, mime: MimeKind, data: Vec<u8>)
        requires
            wf_blobs(*old(self)),
        ensures
            wf_blobs(*final(self)),
            final(self).audio == old(self).audio,
            has_cover(*final(self), album_id),
            exists|i: int|
                0 <= i < final(self).covers@.len() && (#[trigger] final(self).covers@[i]).album_id
                    == album_id && final(self).covers@[i].mime == mime
                    && final(self).covers@[i].data@ == data@,
            forall|x: Uid|
                x != album_id ==> (has_cover(*final(self), x) <==> has_cover(*old(self), x)),
    {
        let ghost pre = *self;
        match self.index_of_cover(album_id) {
            Some(i) => {
                let _ = self.covers.remove(i);
                proof {
                    assert forall|p: int, q: int|
                        0 <= p < q < self.covers@.len() implies (
                    #[trigger] self.covers@[p]).album_id != (#[trigger] self.covers@[q]).album_id
                        by {
                        let p0: int = if p < i { p } else { p + 1 };
                        let q0: int = if q < i { q } else { q + 1 };
                        assert(self.covers@[p] == pre.covers@[p0]);
                        assert(self.covers@[q] == pre.covers@[q0]);
                    }
                    assert(!has_cover(*self, album_id)) by {
                        if has_cover(*self, album_id) {
                            let k = choose|k: int|
                                0 <= k < self.covers@.len() && (#[trigger] self.covers@[k]).album_id
                                    == album_id;
                            let k0: int = if k < i {
                                k
                            } else {
                                k + 1
                            };
                            assert(pre.covers@[k0].album_id == album_id);
                            assert(pre.covers@[i as int].album_id == album_id);
                        }
                    }
                    assert forall|x: Uid| x != album_id implies (has_cover(*self, x) <==> has_cover(
                        pre,
                        x,
                    )) by {
                        if has_cover(pre, x) {
                            let k = choose|k: int|
                                0 <= k < pre.covers@.len() && (#[trigger] pre.covers@[k]).album_id
                                    == x;
                            if k < i {
                                assert(self.covers@[k].album_id == x);
                            } else {
                                assert(k != i);
                                assert(self.covers@[k - 1].album_id == x);
                            }
                        }
                        if has_cover(*self, x) {
                            let k = choose|k: int|
                                0 <= k < self.covers@.len() && (#[trigger] self.covers@[k]).album_id
                                    == x;
                            let k0: int = if k < i {
                                k
                            } else {
                                k + 1
                            };
                            assert(pre.covers@[k0].album_id == x);
                        }
                    }
                }
            },
            None => {},
        }
        let ghost mid = *self;
        let ghost n = self.covers@.len() as int;
        self.covers.push(CoverBlob { album_id, mime, data });
        proof {
            assert(self.covers@[n].album_id == album_id && self.covers@[n].mime == mime
                && self.covers@[n].data@ == data@);
            assert forall|p: int, q: int|
                0 <= p < q < self.covers@.len() implies (#[trigger] self.covers@[p]).album_id != (
            #[trigger] self.covers@[q]).album_id by {
                if q == n {
                    assert(self.covers@[p] == mid.covers@[p]);
                    if self.covers@[p].album_id == album_id {
                        assert(has_cover(mid, album_id)) by {
                            assert(mid.covers@[p].album_id == album_id);
                        }
                    }
                }
            }
            assert forall|x: Uid| x != album_id implies (has_cover(*self, x) <==> has_cover(
                mid,
                x,
            )) by {
                if has_cover(mid, x) {
                    let k = choose|k: int|
                        0 <= k < mid.covers@.len() && (#[trigger] mid.covers@[k]).album_id == x;
                    assert(self.covers@[k].album_id == x);
                }
                if has_cover(*self, x) {
                    let k = choose|k: int|
                        0 <= k < self.covers@.len() && (#[trigger] self.covers@[k]).album_id == x;
                    assert(k != n);
                    assert(mid.covers@[k].album_id == x);
                }
            }
        }
    }
}

} // verus!
