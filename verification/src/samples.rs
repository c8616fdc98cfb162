//! The sample buffer of a clip: how many samples it holds and how they are
//! stored in bytes.

use crate::le::{le_bytes_i16, put_i16};
use vstd::prelude::*;

verus! {

/// The bytes that store `samples`: two for each sample, in order, least
/// significant byte first.
pub open spec fn samples_layout(samples: Seq<i16>) -> Seq<u8> {
    Seq::new(2 * samples.len(), |k: int| le_bytes_i16(samples[k / 2])[k % 2])
}

/// Storing one more sample appends its two bytes.
pub proof fn lemma_samples_layout_push(samples: Seq<i16>, v: i16)
    ensures
        samples_layout(samples.push(v)) == samples_layout(samples) + le_bytes_i16(v),
{
    let longer = samples_layout(samples.push(v));
    let joined = samples_layout(samples) + le_bytes_i16(v);
    assert forall|k: int| 0 <= k < longer.len() implies longer[k] == joined[k] by {
        if k < 2 * samples.len() {
            // An earlier sample: `k / 2` is its index in both sequences.
            assert(samples.push(v)[k / 2] == samples[k / 2]);
        } else {
            // The new sample: `k` is one of its two bytes.
            assert(k / 2 == samples.len());
        }
    }
}

/// Whether a clip of `duration_seconds` seconds at `sample_rate` samples per
/// second has a length: the rate is positive, the duration is not negative,
/// and their product fits in 32 bits.
pub open spec fn has_length(sample_rate: i32, duration_seconds: i32) -> bool {
    &&& sample_rate > 0
    &&& duration_seconds >= 0
    &&& sample_rate * duration_seconds <= i32::MAX
}

/// Number of samples in a clip of `duration_seconds` seconds at
/// `sample_rate` samples per second: their product, where the clip has a
/// length.
pub fn tone_length(sample_rate: i32, duration_seconds: i32) -> (r: Option<usize>)
    ensures
        r is Some <==> has_length(sample_rate, duration_seconds),
        r is Some ==> r.unwrap() == sample_rate * duration_seconds,
{
    if sample_rate <= 0 || duration_seconds < 0 {
        return None;
    }
    let rate: i64 = sample_rate as i64;
    let duration: i64 = duration_seconds as i64;
    assert(0 <= rate * duration <= 2147483647 * 2147483647) by (nonlinear_arith)
        requires
            1 <= rate <= 2147483647,
            0 <= duration <= 2147483647,
    ;
    let count: i64 = rate * duration;
    if count > i32::MAX as i64 {
        None
    } else {
        Some(count as usize)
    }
}

/// Samples a waveform: the clip holds, for each index from 0 up to the
/// clip's length, the value that `wave` gives for that index, in order.
/// There is no clip where there is no length.
pub fn sample_wave<F: Fn(usize) -> i16>(sample_rate: i32, duration_seconds: i32, wave: F) -> (r:
    Option<Vec<i16>>)
    requires
        forall|i: usize| i < sample_rate * duration_seconds ==> call_requires(wave, (i,)),
    ensures
        r is Some <==> has_length(sample_rate, duration_seconds),
        r matches Some(samples) ==> {
            &&& samples@.len() == sample_rate * duration_seconds
            &&& forall|i: int|
                0 <= i < samples@.len() ==> call_ensures(wave, (i as usize,), #[trigger] samples@[i])
        },
{
    let count = match tone_length(sample_rate, duration_seconds) {
        Some(count) => count,
        None => {
            return None;
        },
    };
    let mut samples: Vec<i16> = Vec::new();
    let mut i: usize = 0;
    while i < count
        invariant
            i <= count,
            count == sample_rate * duration_seconds,
            samples@.len() == i,
            forall|k: usize| k < count ==> call_requires(wave, (k,)),
            forall|k: int|
                0 <= k < i ==> call_ensures(wave, (k as usize,), #[trigger] samples@[k]),
        decreases count - i,
    {
        samples.push(wave(i));
        i += 1;
    }
    Some(samples)
}

/// Appends the bytes of `samples` to `out`.
pub fn append_samples(out: &mut Vec<u8>, samples: &[i16])
    ensures
        final(out)@ == old(out)@ + samples_layout(samples@),
{
    let ghost before = out@;
    let mut i: usize = 0;
    while i < samples.len()
        invariant
            i <= samples@.len(),
            out@ == before + samples_layout(samples@.take(i as int)),
        decreases samples@.len() - i,
    {
        proof {
            lemma_samples_layout_push(samples@.take(i as int), samples@[i as int]);
        }
        put_i16(out, samples[i]);
        i += 1;
    }
}

/// The bytes that store `samples`.
pub fn encode_samples(samples: &[i16]) -> (out: Vec<u8>)
    ensures
        out@ == samples_layout(samples@),
{
    let mut out: Vec<u8> = Vec::new();
    append_samples(&mut out, samples);
    out
}

} // verus!
