//! Content-addressed ingestion: uploads are hashed while being persisted, and
//! identical bytes are staged exactly once, no matter how often they arrive.
use vstd::prelude::*;

verus! {

use sha2::Digest;

use crate::blob::{has_audio, wf_blobs, BlobStore};
use crate::classify::{classify_insert_metadata, ClassifyOutcome};
use crate::error::AstralError;
use crate::model::{
    has_permission, ExtractedTrackMetadata, TrackFormat, Uid, UndefinedTrack, UserAccount,
    UserPermission,
};
use crate::store::{
    dedup_keys_unique, has_album_id, has_artist_id, has_lyrics_row, has_track_id, wf, AstralStore,
};

/// The 256-bit digest of a byte sequence, as computed by the hashing layer.
pub uninterp spec fn sha256_of(data: Seq<u8>) -> Seq<u8>;

/// Relies on sha2::Sha256::digest: the 32-byte digest depends on the input
/// bytes alone.
#[verifier::external_body]
fn sha256_digest(data: &Vec<u8>) -> (r: Vec<u8>)
    ensures
        r@ == sha256_of(data@),
        r@.len() == 32,
{
    sha2::Sha256::digest(data.as_slice()).to_vec()
}

/// One lowercase hexadecimal digit.
pub open spec fn hex_digit(n: u8) -> char
    recommends
        n < 16,
{
    if n < 10 {
        (('0' as u8) + n) as char
    } else {
        (('a' as u8) + (n - 10)) as char
    }
}

/// Lowercase hexadecimal encoding: two digits per byte, high nibble first.
pub open spec fn hex_of(data: Seq<u8>) -> Seq<char> {
    Seq::new(
        data.len() * 2,
        |i: int|
            if i % 2 == 0 {
                hex_digit(data[i / 2] / 16)
            } else {
                hex_digit(data[i / 2] % 16)
            },
    )
}

/// Relies on hex::encode: lowercase hexadecimal, two digits per byte, high
/// nibble first.
#[verifier::external_body]
fn hex_encode(data: &Vec<u8>) -> (r: String)
    ensures
        r@ == hex_of(data@),
{
    hex::encode(data.as_slice())
}

/// The content hash of an upload: the hex form of its digest.
pub open spec fn content_hash(data: Seq<u8>) -> Seq<char> {
    hex_of(sha256_of(data))
}

/// Computes the content hash of the given bytes.
pub fn compute_content_hash(data: &Vec<u8>) -> (r: String)
    ensures
        r@ == content_hash(data@),
{
    hex_encode(&sha256_digest(data))
}

/// Whether the staged upload at index `i` carries the given content hash.
pub open spec fn staged_row_for(s: AstralStore, h: Seq<char>, i: int) -> bool {
    0 <= i < s.undefined_tracks@.len() && s.undefined_tracks@[i].hash@ == h
}

/// Whether some staged upload carries the given content hash.
pub open spec fn has_staged_hash(s: AstralStore, h: Seq<char>) -> bool {
    exists|i: int| staged_row_for(s, h, i)
}

/// Law: at most one staged upload exists per distinct content hash, so
/// re-uploading identical bytes can never create a second staging row — any
/// two rows carrying the same hash are the same row, with the same track
/// identifier.
pub proof fn upload_dedup_law(s: AstralStore, h: Seq<char>, i: int, j: int)
    requires
        wf(s),
        staged_row_for(s, h, i),
        staged_row_for(s, h, j),
    ensures
        i == j,
        s.undefined_tracks@[i].track_id == s.undefined_tracks@[j].track_id,
{
}

/// Every audio blob key lies below the store's minting seed, so a freshly
/// minted identifier never collides with a stored blob.
pub open spec fn blobs_within_seed(s: AstralStore, b: BlobStore) -> bool {
    forall|i: int|
        0 <= i < b.audio@.len() ==> (#[trigger] b.audio@[i]).track_id.0 < s.id_seed
}

/// Ingests an upload: hashes the bytes, and either resolves them to the
/// already-staged upload with the same content hash — persisting nothing — or
/// stages them under a fresh identifier and stores the audio blob.
#[verifier::rlimit(50)]
pub fn upload_track(
    store: &mut AstralStore,
    blobs: &mut BlobStore,
    hint: &str,
    user: &UserAccount,
    data: Vec<u8>,
) -> (r: Result<Uid, AstralError>)
    requires
        wf(*old(store)),
        dedup_keys_unique(*old(store)),
        wf_blobs(*old(blobs)),
        blobs_within_seed(*old(store), *old(blobs)),
        old(store).id_seed < u128::MAX,
    ensures
        wf(*final(store)),
        dedup_keys_unique(*final(store)),
        wf_blobs(*final(blobs)),
        blobs_within_seed(*final(store), *final(blobs)),
        final(store).tracks == old(store).tracks,
        final(store).artists == old(store).artists,
        final(store).albums == old(store).albums,
        final(store).lyrics == old(store).lyrics,
        final(blobs).covers == old(blobs).covers,
        r is Err ==> *final(store) == *old(store) && *final(blobs) == *old(blobs),
        (r matches Err(e) && e is BadRequest) <==> (hint@ != "flac"@ && hint@ != "m4a"@ && hint@
            != "mp3"@),
        (hint@ == "flac"@ || hint@ == "m4a"@ || hint@ == "mp3"@) ==> ((r matches Err(e)
            && e is Unauthorized) <==> !user.permissions@.contains(UserPermission::UploadTracks)),
        r is Ok <==> ((hint@ == "flac"@ || hint@ == "m4a"@ || hint@ == "mp3"@)
            && user.permissions@.contains(UserPermission::UploadTracks)),
        (r is Ok && has_staged_hash(*old(store), content_hash(data@))) ==> {
            &&& *final(store) == *old(store)
            &&& *final(blobs) == *old(blobs)
            &&& forall|i: int|
                staged_row_for(*old(store), content_hash(data@), i) ==> r == Ok::<Uid, AstralError>(
                    old(store).undefined_tracks@[i].track_id,
                )
        },
        (r is Ok && !has_staged_hash(*old(store), content_hash(data@))) ==> {
            let n = old(store).undefined_tracks@.len() as int;
            &&& final(store).undefined_tracks@.len() == n + 1
            &&& forall|i: int|
                0 <= i < n ==> final(store).undefined_tracks@[i] == old(store).undefined_tracks@[i]
            &&& r == Ok::<Uid, AstralError>(final(store).undefined_tracks@[n].track_id)
            &&& final(store).undefined_tracks@[n].track_id.0 == old(store).id_seed
            &&& final(store).undefined_tracks@[n].hash@ == content_hash(data@)
            &&& final(store).undefined_tracks@[n].uploaded_by == user.user_id
            &&& (final(store).undefined_tracks@[n].format == TrackFormat::Flac <==> hint@
                == "flac"@)
            &&& (final(store).undefined_tracks@[n].format == TrackFormat::M4a <==> hint@ == "m4a"@)
            &&& (final(store).undefined_tracks@[n].format == TrackFormat::Mp3 <==> hint@ == "mp3"@)
            &&& final(blobs).audio@.len() == old(blobs).audio@.len() + 1
            &&& forall|i: int|
                0 <= i < old(blobs).audio@.len() ==> final(blobs).audio@[i] == old(blobs).audio@[i]
            &&& final(blobs).audio@[old(blobs).audio@.len() as int].track_id.0 == old(store).id_seed
            &&& final(blobs).audio@[old(blobs).audio@.len() as int].data@ == data@
            &&& final(store).id_seed == old(store).id_seed + 1
        },
{
    let ghost s0 = *store;
    let format = match TrackFormat::from_hint(hint) {
        Some(f) => f,
        None => {
            return Err(
                AstralError::BadRequest(
                    String::from_str("Invalid track format hint, expected one of flac,m4a,mp3"),
                ),
            );
        },
    };
    if !has_permission(&user.permissions, UserPermission::UploadTracks) {
        return Err(
            AstralError::Unauthorized(String::from_str("You are not authorized to upload tracks")),
        );
    }
    let hash = compute_content_hash(&data);
    if let Some(i) = store.find_undefined_by_hash(hash.as_str()) {
        let existing = store.undefined_tracks[i].track_id;
        proof {
            assert(has_staged_hash(s0, content_hash(data@))) by {
                assert(staged_row_for(s0, content_hash(data@), i as int));
            }
            assert forall|j: int|
                staged_row_for(s0, content_hash(data@), j) implies existing
                == s0.undefined_tracks@[j].track_id by {
                upload_dedup_law(s0, content_hash(data@), i as int, j);
            }
        }
        return Ok(existing);
    }
    let track_id = store.mint_id();
    blobs.put_audio(track_id, data);
    let ghost pre = *store;
    store.undefined_tracks.push(UndefinedTrack { track_id, hash, uploaded_by: user.user_id, format });
    proof {
        let s2 = *store;
        let n = pre.undefined_tracks@.len() as int;
        assert(s2.undefined_tracks@[n].track_id == track_id);
        assert(wf(s2)) by {
            assert forall|i: int, j: int|
                0 <= i < j < s2.undefined_tracks@.len() implies {
                    &&& (#[trigger] s2.undefined_tracks@[i]).track_id != (
                    #[trigger] s2.undefined_tracks@[j]).track_id
                    &&& s2.undefined_tracks@[i].hash@ != s2.undefined_tracks@[j].hash@
                } by {
                if j == n {
                    assert(s2.undefined_tracks@[i] == s0.undefined_tracks@[i]);
                    assert(s0.undefined_tracks@[i].track_id.0 < s0.id_seed);
                    assert(!staged_row_for(s0, content_hash(data@), i));
                } else {
                    assert(s2.undefined_tracks@[i] == s0.undefined_tracks@[i]);
                    assert(s2.undefined_tracks@[j] == s0.undefined_tracks@[j]);
                }
            }
            assert forall|ui: int| 0 <= ui < s2.undefined_tracks@.len() implies {
                let id = (#[trigger] s2.undefined_tracks@[ui]).track_id;
                &&& !has_track_id(s2, id)
                &&& !has_artist_id(s2, id)
                &&& !has_album_id(s2, id)
                &&& !has_lyrics_row(s2, id)
            } by {
                if ui == n {
                    assert(!has_track_id(s0, track_id)) by {
                        if has_track_id(s0, track_id) {
                            let w = choose|w: int|
                                0 <= w < s0.tracks@.len() && (#[trigger] s0.tracks@[w]).track_id
                                    == track_id;
                            assert(s0.tracks@[w].track_id.0 < s0.id_seed);
                        }
                    }
                    assert(!has_artist_id(s0, track_id)) by {
                        if has_artist_id(s0, track_id) {
                            let w = choose|w: int|
                                0 <= w < s0.artists@.len() && (#[trigger] s0.artists@[w]).artist_id
                                    == track_id;
                            assert(s0.artists@[w].artist_id.0 < s0.id_seed);
                        }
                    }
                    assert(!has_album_id(s0, track_id)) by {
                        if has_album_id(s0, track_id) {
                            let w = choose|w: int|
                                0 <= w < s0.albums@.len() && (#[trigger] s0.albums@[w]).album_id
                                    == track_id;
                            assert(s0.albums@[w].album_id.0 < s0.id_seed);
                        }
                    }
                    assert(!has_lyrics_row(s0, track_id)) by {
                        if has_lyrics_row(s0, track_id) {
                            let w = choose|w: int|
                                0 <= w < s0.lyrics@.len() && (#[trigger] s0.lyrics@[w]).track_id
                                    == track_id;
                            assert(has_track_id(s0, track_id));
                            let w2 = choose|w2: int|
                                0 <= w2 < s0.tracks@.len() && (#[trigger] s0.tracks@[w2]).track_id
                                    == track_id;
                            assert(s0.tracks@[w2].track_id.0 < s0.id_seed);
                        }
                    }
                } else {
                    assert(s2.undefined_tracks@[ui] == s0.undefined_tracks@[ui]);
                }
            }
            assert forall|i: int|
                0 <= i < s2.undefined_tracks@.len() implies (
            #[trigger] s2.undefined_tracks@[i]).track_id.0 < s2.id_seed by {
                if i < n {
                    assert(s2.undefined_tracks@[i] == s0.undefined_tracks@[i]);
                }
            }
        }
    }
    Ok(track_id)
}

/// Finishes classification of a staged upload: the staging row is removed and
/// the metadata classified under the row's identifier.
#[verifier::rlimit(50)]
pub fn classify_upload(
    store: &mut AstralStore,
    blobs: &BlobStore,
    track_id: Uid,
    metadata: ExtractedTrackMetadata,
) -> (r: Result<ClassifyOutcome, AstralError>)
    requires
        wf(*old(store)),
        dedup_keys_unique(*old(store)),
        old(store).id_seed + metadata.album_artists@.len() + metadata.artists@.len() + 1
            <= u128::MAX,
    ensures
        wf(*final(store)),
        dedup_keys_unique(*final(store)),
        r is Err ==> *final(store) == *old(store),
        (r matches Err(e) && e is BadRequest) <==> (forall|i: int|
            0 <= i < old(store).undefined_tracks@.len() ==> (#[trigger] old(store).undefined_tracks@[i]).track_id != track_id),
        r is Ok ==> forall|i: int|
            0 <= i < final(store).undefined_tracks@.len() ==> (#[trigger] final(store).undefined_tracks@[i]).track_id != track_id,
        r is Ok <==> (exists|i: int|
            0 <= i < old(store).undefined_tracks@.len() && (#[trigger] old(
                store,
            ).undefined_tracks@[i]).track_id == track_id),
        r is Ok ==> (!crate::classify::dedup_hit(*old(store), metadata) ==> has_track_id(
            *final(store),
            track_id,
        ) && (forall|x: ClassifyOutcome| r == Ok::<ClassifyOutcome, AstralError>(x) ==> x.track_id
            == track_id)),
        r is Ok && crate::classify::dedup_hit(*old(store), metadata) ==> {
            &&& final(store).tracks == old(store).tracks
            &&& final(store).artists == old(store).artists
            &&& final(store).albums == old(store).albums
            &&& final(store).lyrics == old(store).lyrics
            &&& forall|i: int|
                0 <= i < old(store).tracks@.len() && (#[trigger] old(store).tracks@[i]).name@
                    == metadata.name@ && old(store).tracks@[i].length == metadata.duration ==> (
                forall|x: ClassifyOutcome|
                    r == Ok::<ClassifyOutcome, AstralError>(x) ==> x.track_id == old(
                        store,
                    ).tracks@[i].track_id)
        },
{
    let ghost s0 = *store;
    let ui = match store.index_of_undefined(track_id) {
        Some(i) => i,
        None => {
            return Err(AstralError::BadRequest(String::from_str("Track with this UUID does not exist")));
        },
    };
    let _ = store.undefined_tracks.remove(ui);
    proof {
        let s1 = *store;
        assert(s1.tracks == s0.tracks && s1.artists == s0.artists && s1.albums == s0.albums
            && s1.lyrics == s0.lyrics && s1.id_seed == s0.id_seed);
        assert(wf(s1)) by {
            assert forall|i: int, j: int|
                0 <= i < j < s1.undefined_tracks@.len() implies {
                    &&& (#[trigger] s1.undefined_tracks@[i]).track_id != (
                    #[trigger] s1.undefined_tracks@[j]).track_id
                    &&& s1.undefined_tracks@[i].hash@ != s1.undefined_tracks@[j].hash@
                } by {
                let i0: int = if i < ui {
                    i
                } else {
                    i + 1
                };
                let j0: int = if j < ui {
                    j
                } else {
                    j + 1
                };
                assert(s1.undefined_tracks@[i] == s0.undefined_tracks@[i0]);
                assert(s1.undefined_tracks@[j] == s0.undefined_tracks@[j0]);
            }
            assert forall|i: int| 0 <= i < s1.undefined_tracks@.len() implies {
                let id = (#[trigger] s1.undefined_tracks@[i]).track_id;
                &&& !has_track_id(s1, id)
                &&& !has_artist_id(s1, id)
                &&& !has_album_id(s1, id)
                &&& !has_lyrics_row(s1, id)
                &&& id.0 < s1.id_seed
            } by {
                let i0: int = if i < ui {
                    i
                } else {
                    i + 1
                };
                assert(s1.undefined_tracks@[i] == s0.undefined_tracks@[i0]);
            }
        }
        // the staged identifier is fresh for classification
        assert(!has_track_id(s1, track_id) && !has_artist_id(s1, track_id) && !has_album_id(
            s1,
            track_id,
        ) && !has_lyrics_row(s1, track_id)) by {
            assert(s0.undefined_tracks@[ui as int].track_id == track_id);
        }
        assert(track_id.0 < s1.id_seed) by {
            assert(s0.undefined_tracks@[ui as int].track_id.0 < s0.id_seed);
        }
        assert forall|i: int|
            0 <= i < s1.undefined_tracks@.len() implies (
        #[trigger] s1.undefined_tracks@[i]).track_id != track_id by {
            let i0: int = if i < ui {
                i
            } else {
                i + 1
            };
            assert(s1.undefined_tracks@[i] == s0.undefined_tracks@[i0]);
            if i0 != ui {
                assert(s0.undefined_tracks@[i0].track_id
                    != s0.undefined_tracks@[ui as int].track_id);
            }
        }
        assert(crate::classify::dedup_hit(s1, metadata) == crate::classify::dedup_hit(
            s0,
            metadata,
        ));
    }
    let outcome = classify_insert_metadata(store, blobs, metadata, track_id);
    Ok(outcome)
}

} // verus!
