use vstd::prelude::*;

verus! {

/// The multiply is defined for every sample and every gain.
pub open spec fn total_scale<S, G, M: Fn(S, G) -> S>(scale: M) -> bool {
    forall|s: S, g: G| #[trigger] call_requires(scale, (s, g))
}

/// `out` is what the multiply gives for `input` at index `i` under the gain of that index.
pub open spec fn scaled_at<S, G, M: Fn(S, G) -> S>(
    scale: M,
    input: Seq<S>,
    gains: Seq<G>,
    out: Seq<S>,
    i: int,
) -> bool {
    call_ensures(scale, (input[i], gains[i]), out[i])
}

/// Multiplies each sample of one channel, in place, by the gain of its sample index.
pub fn apply_gain_to_channel<S: Copy, G: Copy, M: Fn(S, G) -> S>(
    channel: &mut [S],
    gains: &[G],
    scale: &M,
)
    requires
        old(channel)@.len() == gains@.len(),
        total_scale(*scale),
    ensures
        final(channel)@.len() == old(channel)@.len(),
        forall|i: int|
            0 <= i < gains@.len() ==> #[trigger] scaled_at(*scale, old(channel)@, gains@, final(channel)@, i),
{
    let n = channel.len();
    let mut i: usize = 0;
    while i < n
        invariant
            n == gains@.len(),
            channel@.len() == n,
            old(channel)@.len() == n,
            0 <= i <= n,
            total_scale(*scale),
            forall|j: int| i <= j < n ==> channel@[j] == old(channel)@[j],
            forall|j: int| 0 <= j < i ==> #[trigger] scaled_at(*scale, old(channel)@, gains@, channel@, j),
        decreases n - i,
    {
        let s = channel[i];
        let g = gains[i];
        let v = scale(s, g);
        let ghost prev = channel@;
        channel[i] = v;
        assert forall|j: int| 0 <= j <= i implies #[trigger] scaled_at(
            *scale,
            old(channel)@,
            gains@,
            channel@,
            j,
        ) by {
            if j < i {
                assert(scaled_at(*scale, old(channel)@, gains@, prev, j));
            }
        }
        i = i + 1;
    }
}

/// Every channel holds one sample for each gain.
pub open spec fn block_shaped<S, G>(channels: Seq<Vec<S>>, gains: Seq<G>) -> bool {
    forall|c: int| 0 <= c < channels.len() ==> (#[trigger] channels[c])@.len() == gains.len()
}

/// Applies one gain per sample index to a block of channels: the sample at index `i`
/// of every channel is multiplied by `gains[i]`, so all channels share the gain of
/// an index and each index is given exactly one gain.
pub fn apply_gain<S: Copy, G: Copy, M: Fn(S, G) -> S>(
    channels: &mut Vec<Vec<S>>,
    gains: &[G],
    scale: &M,
)
    requires
        block_shaped(old(channels)@, gains@),
        total_scale(*scale),
    ensures
        final(channels)@.len() == old(channels)@.len(),
        block_shaped(final(channels)@, gains@),
        forall|c: int, i: int|
            0 <= c < final(channels)@.len() && 0 <= i < gains@.len() ==> #[trigger] scaled_at(
                *scale,
                old(channels)@[c]@,
                gains@,
                final(channels)@[c]@,
                i,
            ),
{
    let num_channels = channels.len();
    let mut c: usize = 0;
    while c < num_channels
        invariant
            channels@.len() == num_channels,
            old(channels)@.len() == num_channels,
            0 <= c <= num_channels,
            total_scale(*scale),
            block_shaped(channels@, gains@),
            block_shaped(old(channels)@, gains@),
            forall|d: int| c <= d < num_channels ==> channels@[d] == old(channels)@[d],
            forall|d: int, i: int|
                0 <= d < c && 0 <= i < gains@.len() ==> #[trigger] scaled_at(
                    *scale,
                    old(channels)@[d]@,
                    gains@,
                    channels@[d]@,
                    i,
                ),
        decreases num_channels - c,
    {
        apply_gain_to_channel(channels[c].as_mut_slice(), gains, scale);
        c = c + 1;
    }
}

} // verus!
