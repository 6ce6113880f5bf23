//! Conversions between interleaved multi-channel frames and per-channel
//! buffers, and filling a frame from a stream that may run dry.

use vstd::prelude::*;

verus! {

/// The per-channel buffers of an interleaved frame: sample `s` of channel
/// `c` is `frame[channels * s + c]`.
pub open spec fn split_frame<T>(frame: Seq<T>, channels: nat, samples: nat) -> Seq<Seq<T>> {
    Seq::new(channels, |c: int| Seq::new(samples, |s: int| frame[channels * s + c]))
}

/// The interleaved frame of per-channel buffers of `samples` samples each:
/// position `k` holds sample `k / channels` of channel `k % channels`.
pub open spec fn join_frame<T>(buffers: Seq<Seq<T>>, samples: nat) -> Seq<T> {
    Seq::new(
        buffers.len() * samples,
        |k: int| buffers[k % (buffers.len() as int)][k / (buffers.len() as int)],
    )
}

/// The contents of a list of buffers.
pub open spec fn buffer_views<T>(buffers: Seq<Vec<T>>) -> Seq<Seq<T>> {
    buffers.map_values(|b: Vec<T>| b@)
}

/// Position `k` of a frame of `channels * samples` values is sample
/// `k / channels` of channel `k % channels`.
proof fn lemma_frame_position(channels: int, samples: int, k: int)
    requires
        channels > 0,
        0 <= k < channels * samples,
    ensures
        0 <= k % channels < channels,
        0 <= k / channels < samples,
        channels * (k / channels) + k % channels == k,
{
    assert(0 <= k % channels < channels && channels * (k / channels) + k % channels == k)
        by (nonlinear_arith)
        requires
            channels > 0,
            0 <= k,
    ;
    assert(0 <= k / channels < samples) by (nonlinear_arith)
        requires
            channels > 0,
            0 <= k < channels * samples,
            channels * (k / channels) + k % channels == k,
            0 <= k % channels < channels,
    ;
}

/// Interleaving the per-channel buffers of a frame gives the frame back.
pub proof fn lemma_join_split<T>(frame: Seq<T>, channels: nat, samples: nat)
    requires
        channels > 0,
        frame.len() == channels * samples,
    ensures
        join_frame(split_frame(frame, channels, samples), samples) == frame,
{
    let joined = join_frame(split_frame(frame, channels, samples), samples);
    assert forall|k: int| 0 <= k < frame.len() implies #[trigger] joined[k] == frame[k] by {
        lemma_frame_position(channels as int, samples as int, k);
    }
    assert(joined =~= frame);
}

/// De-interleaving an interleaved frame gives back its per-channel buffers.
pub proof fn lemma_split_join<T>(buffers: Seq<Seq<T>>, samples: nat)
    requires
        buffers.len() > 0,
        forall|c: int| 0 <= c < buffers.len() ==> #[trigger] buffers[c].len() == samples,
    ensures
        split_frame(join_frame(buffers, samples), buffers.len(), samples) == buffers,
{
    let channels = buffers.len();
    let split = split_frame(join_frame(buffers, samples), channels, samples);
    assert forall|c: int| 0 <= c < channels implies #[trigger] split[c] == buffers[c] by {
        assert forall|s: int| 0 <= s < samples implies #[trigger] split[c][s] == buffers[c][s] by {
            lemma_frame_index(channels as int, samples as int, c, s);
            let k = channels * s + c;
            lemma_frame_position(channels as int, samples as int, k);
            lemma_frame_index_injective(channels as int, c, s, k % (channels as int), k / (channels as int));
        }
        assert(split[c] =~= buffers[c]);
    }
    assert(split =~= buffers);
}

/// `c + channels * s` lies inside a frame of `channels * samples` values.
proof fn lemma_frame_index(channels: int, samples: int, c: int, s: int)
    requires
        0 <= c < channels,
        0 <= s < samples,
    ensures
        0 <= channels * s + c < channels * samples,
{
    assert(channels * s + c < channels * samples) by (nonlinear_arith)
        requires
            0 <= c < channels,
            0 <= s < samples,
    ;
    assert(0 <= channels * s) by (nonlinear_arith)
        requires
            0 <= c < channels,
            0 <= s,
    ;
}

/// Distinct (channel, sample) pairs land on distinct interleaved positions.
proof fn lemma_frame_index_injective(channels: int, c1: int, s1: int, c2: int, s2: int)
    requires
        0 <= c1 < channels,
        0 <= c2 < channels,
        0 <= s1,
        0 <= s2,
        channels * s1 + c1 == channels * s2 + c2,
    ensures
        c1 == c2,
        s1 == s2,
{
    assert(s1 == s2) by (nonlinear_arith)
        requires
            0 <= c1 < channels,
            0 <= c2 < channels,
            0 <= s1,
            0 <= s2,
            channels * s1 + c1 == channels * s2 + c2,
    ;
}

/// De-interleaves the multi-channel frame `src` into `dst`, one buffer per
/// channel: sample `s` of channel `c` is `src[channels * s + c]`. The number
/// of samples is the length of the first channel's buffer.
pub fn deinterleave<T: Copy>(src: &[T], dst: &mut Vec<Vec<T>>)
    requires
        old(dst).len() > 0,
        src.len() == old(dst).len() * old(dst)[0].len(),
        forall|c: int| 0 <= c < old(dst).len() ==> #[trigger] old(dst)[c].len() >= old(dst)[0].len(),
    ensures
        final(dst).len() == old(dst).len(),
        forall|c: int|
            0 <= c < final(dst).len() ==> #[trigger] final(dst)[c].len() == old(dst)[c].len(),
        forall|c: int, s: int|
            0 <= c < final(dst).len() && 0 <= s < old(dst)[0].len() ==> #[trigger] final(dst)[c][s]
                == src[old(dst).len() * s + c],
        forall|c: int, s: int|
            0 <= c < final(dst).len() && old(dst)[0].len() <= s < old(dst)[c].len()
                ==> #[trigger] final(dst)[c][s] == old(dst)[c][s],
        (forall|c: int| 0 <= c < old(dst).len() ==> #[trigger] old(dst)[c].len() == old(dst)[0].len())
            ==> buffer_views(final(dst)@) == split_frame(src@, old(dst).len() as nat, old(dst)[0].len() as nat),
{
    let num_channels = dst.len();
    let num_samples = dst[0].len();
    let ghost orig = dst@;
    let mut channel_index: usize = 0;
    while channel_index < num_channels
        invariant
            num_channels == dst.len() == orig.len(),
            num_samples == orig[0].len(),
            src.len() == num_channels * num_samples,
            forall|c: int| 0 <= c < orig.len() ==> #[trigger] orig[c].len() >= num_samples,
            0 <= channel_index <= num_channels,
            forall|c: int| 0 <= c < dst.len() ==> #[trigger] dst[c].len() == orig[c].len(),
            forall|c: int, s: int|
                0 <= c < channel_index && 0 <= s < num_samples ==> #[trigger] dst[c][s]
                    == src[num_channels * s + c],
            forall|c: int, s: int|
                0 <= c < dst.len() && num_samples <= s < orig[c].len() ==> #[trigger] dst[c][s]
                    == orig[c][s],
            forall|c: int| channel_index <= c < dst.len() ==> #[trigger] dst[c] == orig[c],
        decreases num_channels - channel_index,
    {
        let mut row: Vec<T> = Vec::new();
        std::mem::swap(&mut row, &mut dst[channel_index]);
        let ghost row0 = row@;
        assert(row0 == orig[channel_index as int]@);
        assert(orig[channel_index as int].len() >= num_samples);
        let mut sample_index: usize = 0;
        while sample_index < num_samples
            invariant
                num_channels == orig.len(),
                src.len() == num_channels * num_samples,
                0 <= channel_index < num_channels,
                0 <= sample_index <= num_samples,
                row0.len() >= num_samples,
                row.len() == row0.len(),
                forall|s: int| 0 <= s < sample_index ==> #[trigger] row[s] == src[num_channels * s + channel_index],
                forall|s: int| sample_index <= s < row.len() ==> #[trigger] row[s] == row0[s],
            decreases num_samples - sample_index,
        {
            proof {
                lemma_frame_index(num_channels as int, num_samples as int, channel_index as int, sample_index as int);
            }
            let v = src[num_channels * sample_index + channel_index];
            row.set(sample_index, v);
            sample_index += 1;
        }
        dst.set(channel_index, row);
        channel_index += 1;
    }
    proof {
        if forall|c: int| 0 <= c < orig.len() ==> #[trigger] orig[c].len() == orig[0].len() {
            let views = buffer_views(dst@);
            let split = split_frame(src@, num_channels as nat, num_samples as nat);
            assert forall|c: int| 0 <= c < num_channels implies #[trigger] views[c] == split[c] by {
                assert(orig[c].len() == num_samples);
                assert(views[c] == dst[c]@);
                assert(dst[c].len() == orig[c].len());
                assert(views[c].len() == num_samples);
                assert(split[c].len() == num_samples);
                assert forall|s: int| 0 <= s < num_samples implies #[trigger] views[c][s] == split[c][s] by {
                    assert(dst[c][s] == src[num_channels * s + c]);
                }
                assert(views[c] =~= split[c]);
            }
            assert(views =~= split);
        }
    }
}

/// Reverts `deinterleave`: writes sample `s` of channel `c` of `src` to
/// `dst[channels * s + c]`. The number of samples is the length of the
/// first channel's buffer.
pub fn interleave<T: Copy>(src: &Vec<Vec<T>>, dst: &mut [T])
    requires
        src.len() > 0,
        old(dst).len() == src.len() * src[0].len(),
        forall|c: int| 0 <= c < src.len() ==> #[trigger] src[c].len() >= src[0].len(),
    ensures
        final(dst).len() == old(dst).len(),
        forall|c: int, s: int|
            0 <= c < src.len() && 0 <= s < src[0].len() ==> #[trigger] final(dst)[src.len() * s + c]
                == src[c][s],
        final(dst)@ == join_frame(buffer_views(src@), src[0].len() as nat),
{
    let num_channels = src.len();
    let num_samples = src[0].len();
    let mut channel_index: usize = 0;
    while channel_index < num_channels
        invariant
            num_channels == src.len(),
            num_samples == src[0].len(),
            dst.len() == num_channels * num_samples,
            forall|c: int| 0 <= c < src.len() ==> #[trigger] src[c].len() >= num_samples,
            0 <= channel_index <= num_channels,
            forall|c: int, s: int|
                0 <= c < channel_index && 0 <= s < num_samples ==> #[trigger] dst@[num_channels * s + c]
                    == src[c][s],
        decreases num_channels - channel_index,
    {
        assert(src[channel_index as int].len() >= num_samples);
        let mut sample_index: usize = 0;
        while sample_index < num_samples
            invariant
                num_channels == src.len(),
                num_samples == src[0].len(),
                dst.len() == num_channels * num_samples,
                forall|c: int| 0 <= c < src.len() ==> #[trigger] src[c].len() >= num_samples,
                0 <= channel_index < num_channels,
                0 <= sample_index <= num_samples,
                src[channel_index as int].len() >= num_samples,
                forall|c: int, s: int|
                    0 <= c < channel_index && 0 <= s < num_samples ==> #[trigger] dst@[num_channels * s
                        + c] == src[c][s],
                forall|s: int|
                    0 <= s < sample_index ==> #[trigger] dst@[num_channels * s + channel_index]
                        == src[channel_index as int][s],
            decreases num_samples - sample_index,
        {
            proof {
                lemma_frame_index(num_channels as int, num_samples as int, channel_index as int, sample_index as int);
            }
            let i = num_channels * sample_index + channel_index;
            let ghost before = dst@;
            dst[i] = src[channel_index][sample_index];
            assert(dst@ == before.update(i as int, src[channel_index as int][sample_index as int]));
            assert forall|c: int, s: int|
                0 <= c < channel_index && 0 <= s < num_samples implies #[trigger] dst@[num_channels * s
                    + c] == src[c][s] by {
                lemma_frame_index(num_channels as int, num_samples as int, c, s);
                assert(before[num_channels * s + c] == src[c][s]);
                if num_channels * s + c == i {
                    lemma_frame_index_injective(num_channels as int, c, s, channel_index as int, sample_index as int);
                }
            }
            assert forall|s: int|
                0 <= s < sample_index implies #[trigger] dst@[num_channels * s + channel_index]
                    == src[channel_index as int][s] by {
                lemma_frame_index(num_channels as int, num_samples as int, channel_index as int, s);
                assert(before[num_channels * s + channel_index] == src[channel_index as int][s]);
                if num_channels * s + channel_index == i {
                    lemma_frame_index_injective(num_channels as int, channel_index as int, s, channel_index as int, sample_index as int);
                }
            }
            sample_index += 1;
        }
        channel_index += 1;
    }
    let ghost joined = join_frame(buffer_views(src@), num_samples as nat);
    assert forall|k: int| 0 <= k < dst@.len() implies #[trigger] dst@[k] == joined[k] by {
        lemma_frame_position(num_channels as int, num_samples as int, k);
    }
    assert(dst@ =~= joined);
}

/// Fills a frame with the samples read from a stream: the read samples
/// first, zeros after them. Returns true when the read samples filled the
/// whole frame, false when the stream ran dry before the frame was full.
pub fn fill_frame<T: Copy>(dest: &mut [T], samples: &[T], zero: T) -> (full: bool)
    requires
        samples.len() <= old(dest).len(),
    ensures
        final(dest).len() == old(dest).len(),
        forall|i: int| 0 <= i < samples.len() ==> #[trigger] final(dest)[i] == samples[i],
        forall|i: int| samples.len() <= i < final(dest).len() ==> #[trigger] final(dest)[i] == zero,
        full == (samples.len() == old(dest).len()),
{
    let n = dest.len();
    let mut i: usize = 0;
    while i < n
        invariant
            n == dest.len() == old(dest).len(),
            samples.len() <= n,
            0 <= i <= n,
            forall|j: int| 0 <= j < i && j < samples.len() ==> #[trigger] dest[j] == samples[j],
            forall|j: int| samples.len() <= j < i ==> #[trigger] dest[j] == zero,
        decreases n - i,
    {
        if i < samples.len() {
            dest[i] = samples[i];
        } else {
            dest[i] = zero;
        }
        i += 1;
    }
    samples.len() == n
}

} // verus!
