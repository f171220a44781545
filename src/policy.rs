//! When buffered audio must be written out, and which stream format to record in.

use vstd::prelude::*;

verus! {

/// Preferred sample rate in Hz, used when the device supports at least this much.
pub const SAMPLE_RATE: u32 = 48000;

/// Ceiling on buffered-but-unwritten audio, in bytes.
pub const CACHE_SIZE_IN_BYTES: usize = 536870912;

/// Size in bytes of one recorded sample (a 32-bit float).
pub const SAMPLE_BYTES: usize = 4;

/// Flush threshold (high-water mark) for a cache ceiling: half of it.
pub fn flush_threshold(cache_bytes: usize) -> (r: usize)
    ensures
        r == cache_bytes / 2,
{
    cache_bytes / 2
}

/// Byte size of `samples` samples of `sample_bytes` bytes each.
pub open spec fn buffered_bytes(samples: nat, sample_bytes: nat) -> nat {
    samples * sample_bytes
}

/// The rotation rule: flush when something is buffered and either the buffered
/// bytes reach the threshold or shutdown has been requested.
pub open spec fn flush_due(samples: nat, sample_bytes: nat, threshold: nat, shutdown: bool) -> bool {
    samples > 0 && (buffered_bytes(samples, sample_bytes) >= threshold || shutdown)
}

/// Decides whether `samples` buffered samples of `sample_bytes` bytes each must
/// be flushed now, given the flush threshold and the shutdown flag.
pub fn should_flush(samples: usize, sample_bytes: usize, threshold: usize, shutdown: bool) -> (r: bool)
    ensures
        r == flush_due(samples as nat, sample_bytes as nat, threshold as nat, shutdown),
{
    if samples == 0 {
        return false;
    }
    if shutdown {
        return true;
    }
    let a = samples as u128;
    let b = sample_bytes as u128;
    assert(a * b <= u64::MAX * u64::MAX) by (nonlinear_arith)
        requires
            a <= u64::MAX,
            b <= u64::MAX,
    ;
    a * b >= threshold as u128
}

/// A flush comes if and only if samples are buffered and either their bytes
/// reach the threshold or shutdown is requested; never with an empty buffer.
pub proof fn lemma_flush_iff(samples: nat, sample_bytes: nat, threshold: nat, shutdown: bool)
    ensures
        flush_due(samples, sample_bytes, threshold, shutdown) <==> (samples > 0 && (
        samples * sample_bytes >= threshold || shutdown)),
        !flush_due(0, sample_bytes, threshold, shutdown),
{
}

/// Once the buffered samples reach the threshold, more samples reach it too.
pub proof fn lemma_flush_monotone(samples: nat, more: nat, sample_bytes: nat, threshold: nat, shutdown: bool)
    requires
        flush_due(samples, sample_bytes, threshold, shutdown),
        samples <= more,
    ensures
        flush_due(more, sample_bytes, threshold, shutdown),
{
    assert(samples * sample_bytes <= more * sample_bytes) by (nonlinear_arith)
        requires
            samples <= more,
    ;
}

/// One supported input configuration range of a device.
#[derive(Clone, Copy, Debug, PartialEq, Eq)]
pub struct FormatRange {
    pub channels: u16,
    pub max_sample_rate: u32,
}

/// The negotiated recording format.
#[derive(Clone, Copy, Debug, PartialEq, Eq)]
pub struct StreamFormat {
    pub channels: u16,
    pub sample_rate: u32,
}

/// `m` is the highest maximum sample rate among `ranges`, 0 when there are none.
pub open spec fn is_highest_rate(ranges: Seq<FormatRange>, m: u32) -> bool {
    &&& forall|i: int| 0 <= i < ranges.len() ==> #[trigger] ranges[i].max_sample_rate <= m
    &&& m == 0 || exists|i: int| 0 <= i < ranges.len() && #[trigger] ranges[i].max_sample_rate == m
}

/// `c` is the channel count of the first range whose maximum sample rate is `m`.
pub open spec fn first_channels_at(ranges: Seq<FormatRange>, m: u32, c: u16) -> bool {
    exists|i: int|
        0 <= i < ranges.len() && #[trigger] ranges[i].max_sample_rate == m && ranges[i].channels == c
            && forall|j: int| 0 <= j < i ==> #[trigger] ranges[j].max_sample_rate < m
}

/// The preferred rate when the device reaches it, else the device's maximum.
pub open spec fn capped_rate(max_rate: u32, preferred: u32) -> u32 {
    if max_rate >= preferred { preferred } else { max_rate }
}

/// Picks the recording format from the device's supported ranges: the highest
/// maximum sample rate (channels from the first range that reaches it), capped
/// at `preferred`.
pub fn select_stream_format(ranges: &Vec<FormatRange>, preferred: u32) -> (r: StreamFormat)
    ensures
        exists|m: u32| #[trigger] is_highest_rate(ranges@, m)
            && r.sample_rate == capped_rate(m, preferred)
            && (m == 0 ==> r.channels == 1)
            && (m > 0 ==> first_channels_at(ranges@, m, r.channels)),
{
    let mut max_rate: u32 = 0;
    let mut channels: u16 = 1;
    let mut i: usize = 0;
    let ghost mut best: int = 0;
    while i < ranges.len()
        invariant
            i <= ranges@.len(),
            forall|k: int| 0 <= k < i ==> #[trigger] ranges@[k].max_sample_rate <= max_rate,
            max_rate == 0 ==> channels == 1,
            max_rate > 0 ==> 0 <= best < i && ranges@[best].max_sample_rate == max_rate
                && ranges@[best].channels == channels
                && forall|j: int| 0 <= j < best ==> #[trigger] ranges@[j].max_sample_rate < max_rate,
        decreases ranges@.len() - i,
    {
        let range = ranges[i];
        if range.max_sample_rate > max_rate {
            channels = range.channels;
            max_rate = range.max_sample_rate;
            proof { best = i as int; }
        }
        i = i + 1;
    }
    assert(is_highest_rate(ranges@, max_rate));
    assert(max_rate > 0 ==> first_channels_at(ranges@, max_rate, channels));
    let rate = if max_rate >= preferred { preferred } else { max_rate };
    StreamFormat { channels, sample_rate: rate }
}

} // verus!
