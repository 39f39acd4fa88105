//! Channel routing and start-offset bookkeeping of the decoder.

use vstd::prelude::*;

verus! {

/// Which source samples feed one output sample.
#[derive(Clone, Copy, Debug, PartialEq, Eq, Structural)]
pub enum ChannelSource {
    /// The source has no channels: the output is silent.
    Silence,
    /// The average of all source channels of the frame (down-mix to mono).
    Mix,
    /// The given source channel of the frame.
    Channel(usize),
}

/// Routing of source channels to an output channel: several source channels
/// into one output channel are mixed; a mono source feeds every output
/// channel; otherwise output channel `c` takes source channel `c`, and output
/// channels beyond the source's last take its last channel.
pub open spec fn spec_channel_source(src_channels: usize, out_channel: usize, out_channels: usize) -> ChannelSource {
    if src_channels == 0 {
        ChannelSource::Silence
    } else if out_channels == 1 && src_channels > 1 {
        ChannelSource::Mix
    } else if src_channels == 1 {
        ChannelSource::Channel(0)
    } else if out_channel < src_channels - 1 {
        ChannelSource::Channel(out_channel)
    } else {
        ChannelSource::Channel((src_channels - 1) as usize)
    }
}

/// The source samples that feed output channel `out_channel`.
pub fn channel_source(src_channels: usize, out_channel: usize, out_channels: usize) -> (c: ChannelSource)
    ensures
        c == spec_channel_source(src_channels, out_channel, out_channels),
        c matches ChannelSource::Channel(i) ==> i < src_channels,
{
    if src_channels == 0 {
        return ChannelSource::Silence;
    }
    if out_channels == 1 && src_channels > 1 {
        return ChannelSource::Mix;
    }
    if src_channels == 1 {
        return ChannelSource::Channel(0);
    }
    let last = src_channels - 1;
    ChannelSource::Channel(if out_channel < last { out_channel } else { last })
}

/// Law: how output channels are fed.  With no source channels the output
/// is silent; a multi-channel source on a mono device is mixed down; a mono
/// source feeds every output channel; otherwise output channel `c` plays
/// source channel `min(c, src_channels - 1)`, so every output channel that
/// the source has plays the same-numbered source channel, and distinct such
/// output channels never share a source channel.
pub proof fn lemma_channel_routing(src_channels: usize, out_channel: usize, out_channels: usize)
    ensures
        src_channels == 0 ==> spec_channel_source(src_channels, out_channel, out_channels)
            == ChannelSource::Silence,
        src_channels >= 2 && out_channels == 1 ==> spec_channel_source(src_channels, out_channel, out_channels)
            == ChannelSource::Mix,
        src_channels == 1 ==> spec_channel_source(src_channels, out_channel, out_channels)
            == ChannelSource::Channel(0),
        src_channels >= 2 && out_channels != 1 && out_channel < src_channels
            ==> spec_channel_source(src_channels, out_channel, out_channels) == ChannelSource::Channel(out_channel),
        src_channels >= 2 && out_channels != 1 && out_channel >= src_channels
            ==> spec_channel_source(src_channels, out_channel, out_channels)
            == ChannelSource::Channel((src_channels - 1) as usize),
{
}

/// Law: on a multi-channel device, two different output channels that the
/// source has are fed by two different source channels.
pub proof fn lemma_channel_routing_distinct(src_channels: usize, a: usize, b: usize, out_channels: usize)
    requires
        src_channels >= 2,
        out_channels >= 2,
        a < src_channels,
        b < src_channels,
        a != b,
    ensures
        spec_channel_source(src_channels, a, out_channels) != spec_channel_source(src_channels, b, out_channels),
{
    lemma_channel_routing(src_channels, a, out_channels);
    lemma_channel_routing(src_channels, b, out_channels);
}

/// Skip the part of a decoded packet that lies before the start position.
/// Returns the samples still to skip after this packet and the index in the
/// packet where output begins.
pub fn skip_leading(to_skip: usize, out_len: usize) -> (r: (usize, usize))
    ensures
        r.1 == if to_skip < out_len { to_skip } else { out_len },
        r.0 == to_skip - r.1,
{
    let consumed = if to_skip < out_len { to_skip } else { out_len };
    (to_skip - consumed, consumed)
}

/// Law: skipping accounts for every sample: what is skipped in a packet plus
/// what remains to skip is what had to be skipped, and a packet is only
/// partly skipped when the skipping ends inside it.
pub proof fn lemma_skip_accounts(to_skip: usize, out_len: usize)
    ensures
        ({
            let consumed = if to_skip < out_len { to_skip } else { out_len };
            let remaining = to_skip - consumed;
            &&& consumed + remaining == to_skip
            &&& consumed <= out_len
            &&& remaining > 0 ==> consumed == out_len
        }),
{
}

} // verus!
