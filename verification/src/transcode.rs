//! Transcode planning for the cache-to-disk pipeline: each (track, quality)
//! pair is encoded once and served from the cache afterwards; an encoder
//! failure is fatal for the request, never an empty stream.
use vstd::prelude::*;

verus! {

use crate::error::AstralError;
use crate::model::{StreamQuality, Uid};
use crate::store::{has_track_id, AstralStore};

/// One finished transcode: the pair it was encoded for.
#[derive(Clone, Copy, PartialEq, Eq, Structural, Debug)]
pub struct TranscodeKey {
    /// The encoded track.
    pub track_id: Uid,
    /// The quality tier it was encoded at.
    pub quality: StreamQuality,
}

/// The set of finished transcodes.
#[derive(Debug)]
pub struct TranscodeCache {
    /// Finished (track, quality) pairs.
    pub entries: Vec<TranscodeKey>,
}

/// Whether a (track, quality) pair has already been transcoded.
pub open spec fn transcoded(c: TranscodeCache, t: Uid, q: StreamQuality) -> bool {
    exists|i: int|
        0 <= i < c.entries@.len() && (#[trigger] c.entries@[i]) == (TranscodeKey {
            track_id: t,
            quality: q,
        })
}

impl TranscodeCache {
    /// An empty cache.
    pub fn new() -> (r: TranscodeCache)
        ensures
            r.entries@.len() == 0,
    {
        TranscodeCache { entries: Vec::new() }
    }
}

/// The encoder bitrate for a quality tier.
pub fn bitrate_label(q: StreamQuality) -> (r: &'static str)
    ensures
        q is Low ==> r@ == "128k"@,
        q is Medium ==> r@ == "256k"@,
{
    match q {
        StreamQuality::Low => "128k",
        StreamQuality::Medium => "256k",
    }
}

/// What the streaming layer should do for a transcoded-stream request.
#[derive(Clone, Debug)]
pub enum TranscodeAction {
    /// The pair is already encoded: serve the cached file.
    ServeCached,
    /// Run the encoder with these arguments, then serve and cache.
    RunEncoder {
        /// The encoder argument list.
        args: Vec<String>,
    },
}

/// The encoder invocation for one transcode: a single audio stream, encoded
/// to MP3 at the tier's bitrate, reading `input` and writing `output`.
pub fn encoder_args(q: StreamQuality, input: &str, output: &str) -> (r: Vec<String>)
    ensures
        r@.len() == 13,
        r@[0]@ == "-v"@,
        r@[1]@ == "0"@,
        r@[2]@ == "-i"@,
        r@[3]@ == input@,
        r@[4]@ == "-map"@,
        r@[5]@ == "0:a:0"@,
        r@[6]@ == "-codec:a"@,
        r@[7]@ == "libmp3lame"@,
        r@[8]@ == "-b:a"@,
        q is Low ==> r@[9]@ == "128k"@,
        q is Medium ==> r@[9]@ == "256k"@,
        r@[10]@ == "-f"@,
        r@[11]@ == "mp3"@,
        r@[12]@ == output@,
{
    let mut args: Vec<String> = Vec::new();
    args.push(String::from_str("-v"));
    args.push(String::from_str("0"));
    args.push(String::from_str("-i"));
    args.push(input.to_owned());
    args.push(String::from_str("-map"));
    args.push(String::from_str("0:a:0"));
    args.push(String::from_str("-codec:a"));
    args.push(String::from_str("libmp3lame"));
    args.push(String::from_str("-b:a"));
    args.push(bitrate_label(q).to_owned());
    args.push(String::from_str("-f"));
    args.push(String::from_str("mp3"));
    args.push(output.to_owned());
    args
}

/// Plans a transcoded-stream request: an unknown track is a not-found error;
/// an already-encoded pair is served from the cache; anything else runs the
/// encoder.
pub fn transcode_plan(
    store: &AstralStore,
    cache: &TranscodeCache,
    track_id: Uid,
    quality: StreamQuality,
    input: &str,
    output: &str,
) -> (r: Result<TranscodeAction, AstralError>)
    ensures
        (r matches Err(e) && e is NotFound) <==> !has_track_id(*store, track_id),
        has_track_id(*store, track_id) && transcoded(*cache, track_id, quality) ==> (r matches Ok(a)
            && a is ServeCached),
        has_track_id(*store, track_id) && !transcoded(*cache, track_id, quality) ==> (r matches Ok(
            a,
        ) && a is RunEncoder),
{
    match store.index_of_track(track_id) {
        Some(i) => {
            proof {
                assert(has_track_id(*store, track_id)) by {
                    assert(store.tracks@[i as int].track_id == track_id);
                }
            }
        },
        None => {
            return Err(
                AstralError::NotFound(String::from_str("Couldn't find a track with this UUID")),
            );
        },
    }
    let key = TranscodeKey { track_id, quality };
    let mut i: usize = 0;
    while i < cache.entries.len()
        invariant
            i <= cache.entries@.len(),
            has_track_id(*store, track_id),
            key == (TranscodeKey { track_id, quality }),
            forall|j: int| 0 <= j < i ==> (#[trigger] cache.entries@[j]) != key,
        decreases cache.entries@.len() - i,
    {
        if cache.entries[i] == key {
            proof {
                assert(cache.entries@[i as int] == key);
                assert(cache.entries@[i as int] == (TranscodeKey { track_id, quality }));
                assert(transcoded(*cache, track_id, quality));
            }
            return Ok(TranscodeAction::ServeCached);
        }
        i += 1;
    }
    proof {
        assert(!transcoded(*cache, track_id, quality)) by {
            if transcoded(*cache, track_id, quality) {
                let j = choose|j: int|
                    0 <= j < cache.entries@.len() && (#[trigger] cache.entries@[j]) == key;
            }
        }
    }
    Ok(TranscodeAction::RunEncoder { args: encoder_args(quality, input, output) })
}

/// Records the encoder's outcome. A failed encoder — a missing binary or a
/// non-zero exit — is surfaced as a fatal error and caches nothing, so the
/// caller can never serve an empty stream for the pair.
pub fn transcode_complete(
    cache: &mut TranscodeCache,
    track_id: Uid,
    quality: StreamQuality,
    encoder_ok: bool,
) -> (r: Result<(), AstralError>)
    ensures
        !encoder_ok ==> (r matches Err(e) && e is IoError) && *final(cache) == *old(cache),
        encoder_ok ==> r is Ok && transcoded(*final(cache), track_id, quality) && final(cache).entries@.len() == old(cache).entries@.len() + 1 && (forall|i: int|
            0 <= i < old(cache).entries@.len() ==> final(cache).entries@[i] == old(cache).entries@[i]),
{
    if !encoder_ok {
        return Err(AstralError::IoError(String::from_str("The encoder failed or is missing")));
    }
    let ghost n = cache.entries@.len() as int;
    cache.entries.push(TranscodeKey { track_id, quality });
    proof {
        assert(cache.entries@[n] == (TranscodeKey { track_id, quality }));
    }
    Ok(())
}

} // verus!
