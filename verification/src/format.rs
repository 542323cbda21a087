//! Stream formats and the operations that derive one format from another.
//!
//! A format is a plain value. The sample rate is kept as the bit pattern of
//! the 64-bit float that the native layer uses, so that a format can be
//! compared field by field and carried through unchanged.

use vstd::prelude::*;

verus! {

/// Format identifier of linear PCM (the four characters `lpcm`).
pub const LINEAR_PCM: u32 = 0x6C70_636D;

/// Format flag that marks a linear PCM format as non-interleaved: each
/// channel lies in a buffer of its own.
pub const FLAG_NON_INTERLEAVED: u32 = 0x20;

/// The layout of an audio stream.
#[derive(Clone, Copy, Debug, PartialEq, Eq, Structural)]
pub struct StreamFormat {
    /// Frames per second, as the bits of a 64-bit float.
    pub sample_rate_bits: u64,
    pub format_id: u32,
    pub format_flags: u32,
    pub bytes_per_packet: u32,
    pub frames_per_packet: u32,
    pub bytes_per_frame: u32,
    pub channels_per_frame: u32,
    pub bits_per_channel: u32,
    pub reserved: u32,
}

/// Whether the format is linear PCM.
pub open spec fn pcm(format: StreamFormat) -> bool {
    format.format_id == LINEAR_PCM
}

/// Whether the channels of a frame lie side by side in one buffer. Only
/// linear PCM can be non-interleaved, and is so when its flag says so.
pub open spec fn interleaved(format: StreamFormat) -> bool {
    !pcm(format) || format.format_flags & FLAG_NON_INTERLEAVED == 0
}

/// The number of channels that one frame of one buffer holds.
pub open spec fn interleaved_channels(format: StreamFormat) -> int {
    if interleaved(format) {
        format.channels_per_frame as int
    } else {
        1
    }
}

/// The number of whole bytes that hold `bits` bits.
pub open spec fn bytes_for_bits(bits: int) -> int {
    (bits + 7) / 8
}

/// The size in bytes of one sample of one channel: the frame's size shared
/// among the channels of a buffer where both are known, else the bits of a
/// channel in whole bytes. A frame smaller than the channels that share it
/// gives zero.
pub open spec fn word_size(format: StreamFormat) -> int {
    if format.bytes_per_frame > 0 && interleaved_channels(format) > 0 {
        format.bytes_per_frame as int / interleaved_channels(format)
    } else {
        bytes_for_bits(format.bits_per_channel as int)
    }
}

/// The word size that a change of the channel count builds on: the word size
/// of the format or, where that is zero, the bits of a channel in whole
/// bytes. It is zero only where neither gives a size.
pub open spec fn rederived_word_size(format: StreamFormat) -> int {
    if word_size(format) > 0 {
        word_size(format)
    } else {
        bytes_for_bits(format.bits_per_channel as int)
    }
}

/// Whether a frame of `channels` channels of this format has a size that a
/// format can hold. A non-interleaved frame holds one sample, which always fits.
pub open spec fn channel_count_fits(format: StreamFormat, channels: u32) -> bool {
    interleaved(format) ==> channels * rederived_word_size(format) <= u32::MAX
}

/// The format with `channels` channels per frame: one frame per packet, the
/// sizes of frame and packet computed anew from the rederived word size, and
/// the interleaving of `format` kept.
pub open spec fn channel_count_changed(format: StreamFormat, channels: u32) -> StreamFormat {
    if interleaved(format) {
        StreamFormat {
            channels_per_frame: channels,
            frames_per_packet: 1,
            bytes_per_frame: (channels * rederived_word_size(format)) as u32,
            bytes_per_packet: (channels * rederived_word_size(format)) as u32,
            format_flags: format.format_flags & !FLAG_NON_INTERLEAVED,
            ..format
        }
    } else {
        StreamFormat {
            channels_per_frame: channels,
            frames_per_packet: 1,
            bytes_per_frame: rederived_word_size(format) as u32,
            bytes_per_packet: rederived_word_size(format) as u32,
            format_flags: format.format_flags | FLAG_NON_INTERLEAVED,
            ..format
        }
    }
}

/// The format with the given sample rate and nothing else changed.
pub open spec fn sample_rate_changed(format: StreamFormat, sample_rate_bits: u64) -> StreamFormat {
    StreamFormat { sample_rate_bits, ..format }
}

/// The format of a unit after it was matched to a source: the unit's own
/// format with the source's channel count, then with the source's rate.
pub open spec fn matched_to_source(unit: StreamFormat, source: StreamFormat) -> StreamFormat {
    sample_rate_changed(
        channel_count_changed(unit, source.channels_per_frame),
        source.sample_rate_bits,
    )
}

pub fn is_pcm(description: &StreamFormat) -> (result: bool)
    ensures
        result == pcm(*description),
{
    description.format_id == LINEAR_PCM
}

pub fn is_interleaved(description: &StreamFormat) -> (result: bool)
    ensures
        result == interleaved(*description),
{
    !is_pcm(description) || (description.format_flags & FLAG_NON_INTERLEAVED == 0)
}

pub fn number_interleaved_channels(description: &StreamFormat) -> (channels: u32)
    ensures
        channels == interleaved_channels(*description),
{
    if is_interleaved(description) {
        description.channels_per_frame
    } else {
        1
    }
}

/// The number of whole bytes that hold the bits of one channel.
fn whole_bytes(bits: u32) -> (bytes: u32)
    ensures
        bytes == bytes_for_bits(bits as int),
{
    if bits % 8 == 0 {
        bits / 8
    } else {
        bits / 8 + 1
    }
}

pub fn sample_word_size(description: &StreamFormat) -> (size: u32)
    ensures
        size == word_size(*description),
{
    let channels: u32 = number_interleaved_channels(description);
    if description.bytes_per_frame > 0 && channels > 0 {
        description.bytes_per_frame / channels
    } else {
        whole_bytes(description.bits_per_channel)
    }
}

/// The word size that a change of the channel count builds on.
fn rederive_word_size(description: &StreamFormat) -> (size: u32)
    ensures
        size == rederived_word_size(*description),
{
    let size: u32 = sample_word_size(description);
    if size == 0 {
        whole_bytes(description.bits_per_channel)
    } else {
        size
    }
}

/// Whether `with_channel_count` and `change_number_channels` accept this
/// channel count for this format.
pub fn fits_channel_count(description: &StreamFormat, number_channels: u32) -> (fits: bool)
    ensures
        fits == channel_count_fits(*description, number_channels),
{
    if is_interleaved(description) {
        let size: u32 = rederive_word_size(description);
        number_channels.checked_mul(size).is_some()
    } else {
        true
    }
}

/// Derives the format with `number_channels` channels per frame.
pub fn with_channel_count(format: StreamFormat, number_channels: u32) -> (derived: StreamFormat)
    requires
        channel_count_fits(format, number_channels),
    ensures
        derived == channel_count_changed(format, number_channels),
{
    let size: u32 = rederive_word_size(&format);
    if is_interleaved(&format) {
        let frame: u32 = number_channels * size;
        StreamFormat {
            channels_per_frame: number_channels,
            frames_per_packet: 1,
            bytes_per_frame: frame,
            bytes_per_packet: frame,
            format_flags: format.format_flags & !FLAG_NON_INTERLEAVED,
            ..format
        }
    } else {
        StreamFormat {
            channels_per_frame: number_channels,
            frames_per_packet: 1,
            bytes_per_frame: size,
            bytes_per_packet: size,
            format_flags: format.format_flags | FLAG_NON_INTERLEAVED,
            ..format
        }
    }
}

/// Replaces the format behind `description` by the one derived from it with
/// `number_channels` channels per frame.
pub fn change_number_channels(description: &mut StreamFormat, number_channels: u32)
    requires
        channel_count_fits(*old(description), number_channels),
    ensures
        *final(description) == channel_count_changed(*old(description), number_channels),
{
    *description = with_channel_count(*description, number_channels);
}

/// Derives the format with the given sample rate.
pub fn with_sample_rate(format: StreamFormat, sample_rate_bits: u64) -> (derived: StreamFormat)
    ensures
        derived == sample_rate_changed(format, sample_rate_bits),
{
    StreamFormat { sample_rate_bits, ..format }
}

/// Derives the format to write back to a unit whose current format is `unit`,
/// so that it carries the channel count and the rate of `source`.
pub fn match_source(unit: StreamFormat, source: &StreamFormat) -> (derived: StreamFormat)
    requires
        channel_count_fits(unit, source.channels_per_frame),
    ensures
        derived == matched_to_source(unit, *source),
{
    with_sample_rate(with_channel_count(unit, source.channels_per_frame), source.sample_rate_bits)
}

/// Clearing the non-interleaved flag leaves it clear; setting it leaves it set.
proof fn lemma_flag_bit(flags: u32)
    ensures
        (flags & !FLAG_NON_INTERLEAVED) & FLAG_NON_INTERLEAVED == 0,
        (flags & !FLAG_NON_INTERLEAVED) & !FLAG_NON_INTERLEAVED == flags & !FLAG_NON_INTERLEAVED,
        (flags | FLAG_NON_INTERLEAVED) & FLAG_NON_INTERLEAVED != 0,
        (flags | FLAG_NON_INTERLEAVED) | FLAG_NON_INTERLEAVED == flags | FLAG_NON_INTERLEAVED,
{
    assert((flags & !0x20u32) & 0x20u32 == 0) by (bit_vector);
    assert((flags & !0x20u32) & !0x20u32 == flags & !0x20u32) by (bit_vector);
    assert((flags | 0x20u32) & 0x20u32 != 0) by (bit_vector);
    assert((flags | 0x20u32) | 0x20u32 == flags | 0x20u32) by (bit_vector);
}

/// A frame of `channels` samples of `size` bytes, shared among its channels,
/// gives `size` again; a frame of no samples is empty.
proof fn lemma_frame_shared(channels: int, size: int)
    requires
        channels >= 0,
        size >= 0,
    ensures
        channels > 0 ==> (channels * size) / channels == size,
        channels > 0 ==> (channels * size > 0 <==> size > 0),
        channels == 0 ==> channels * size == 0,
{
    assert(channels > 0 ==> (channels * size) / channels == size) by (nonlinear_arith);
    assert(channels > 0 ==> (channels * size > 0 <==> size > 0)) by (nonlinear_arith)
        requires
            size >= 0,
    ;
    assert(channels == 0 ==> channels * size == 0) by (nonlinear_arith);
}

/// The word size is never negative, and neither is the rederived one.
proof fn lemma_word_size_not_negative(format: StreamFormat)
    ensures
        0 <= word_size(format),
        0 <= rederived_word_size(format),
{
    if format.bytes_per_frame > 0 && interleaved_channels(format) > 0 {
        let frame = format.bytes_per_frame as int;
        let among = interleaved_channels(format);
        assert(0 <= frame / among) by (nonlinear_arith)
            requires
                frame > 0,
                among > 0,
        ;
    }
}

/// Changing the channel count keeps the kind and the interleaving of a
/// format. The frame of the derived format is the rederived word size of the
/// given one, once for each channel that shares a buffer, and that is also
/// what the word size of the derived format says of its frame. Changing the
/// count again to the same count builds on a frame of the same size.
proof fn lemma_layout_kept(format: StreamFormat, channels: u32)
    requires
        channel_count_fits(format, channels),
    ensures
        pcm(channel_count_changed(format, channels)) == pcm(format),
        interleaved(channel_count_changed(format, channels)) == interleaved(format),
        interleaved(format) ==> channel_count_changed(format, channels).bytes_per_frame
            == channels * rederived_word_size(format),
        interleaved(format) ==> channel_count_changed(format, channels).bytes_per_frame
            == channels * word_size(channel_count_changed(format, channels)),
        interleaved(format) ==> channels * rederived_word_size(
            channel_count_changed(format, channels),
        ) == channels * rederived_word_size(format),
        !interleaved(format) ==> channel_count_changed(format, channels).bytes_per_frame
            == word_size(channel_count_changed(format, channels)),
        !interleaved(format) ==> rederived_word_size(channel_count_changed(format, channels))
            == rederived_word_size(format),
{
    lemma_flag_bit(format.format_flags);
    lemma_word_size_not_negative(format);
    let once = channel_count_changed(format, channels);
    let size = rederived_word_size(format);
    if interleaved(format) {
        lemma_frame_shared(channels as int, size);
        lemma_word_size_not_negative(once);
        lemma_frame_shared(channels as int, word_size(once));
        lemma_frame_shared(channels as int, rederived_word_size(once));
    } else {
        assert(size / 1 == size);
    }
}

/// Changing the channel count twice to the same count gives what changing it
/// once gives, and the second change is always possible after the first.
pub proof fn lemma_channel_count_idempotent(format: StreamFormat, channels: u32)
    requires
        channel_count_fits(format, channels),
    ensures
        channel_count_fits(channel_count_changed(format, channels), channels),
        channel_count_changed(channel_count_changed(format, channels), channels)
            == channel_count_changed(format, channels),
{
    lemma_layout_kept(format, channels);
    lemma_flag_bit(format.format_flags);
}

/// A format derived from an interleaved one by changing the channel count is
/// interleaved, and its frame holds one word for each of its channels.
pub proof fn lemma_interleaved_frame(format: StreamFormat, channels: u32)
    requires
        channel_count_fits(format, channels),
        interleaved(format),
    ensures
        interleaved(channel_count_changed(format, channels)),
        channel_count_changed(format, channels).format_flags & FLAG_NON_INTERLEAVED == 0,
        channel_count_changed(format, channels).bytes_per_frame == channels * word_size(
            channel_count_changed(format, channels),
        ),
        channel_count_changed(format, channels).bytes_per_packet == channel_count_changed(
            format,
            channels,
        ).bytes_per_frame,
{
    lemma_layout_kept(format, channels);
    lemma_flag_bit(format.format_flags);
}

/// A format derived from a non-interleaved one by changing the channel count
/// is non-interleaved, carries the flag that says so, and its frame holds
/// exactly one word, whatever the channel count.
pub proof fn lemma_non_interleaved_frame(format: StreamFormat, channels: u32)
    requires
        !interleaved(format),
    ensures
        !interleaved(channel_count_changed(format, channels)),
        channel_count_changed(format, channels).format_flags & FLAG_NON_INTERLEAVED != 0,
        channel_count_changed(format, channels).bytes_per_frame == word_size(
            channel_count_changed(format, channels),
        ),
        channel_count_changed(format, channels).bytes_per_packet == channel_count_changed(
            format,
            channels,
        ).bytes_per_frame,
{
    lemma_layout_kept(format, channels);
    lemma_flag_bit(format.format_flags);
}

/// Changing the sample rate changes no other field, and changing it back
/// gives the format that one started from.
pub proof fn lemma_sample_rate_isolated(format: StreamFormat, sample_rate_bits: u64)
    ensures
        sample_rate_changed(format, sample_rate_bits).sample_rate_bits == sample_rate_bits,
        sample_rate_changed(format, sample_rate_bits).format_id == format.format_id,
        sample_rate_changed(format, sample_rate_bits).format_flags == format.format_flags,
        sample_rate_changed(format, sample_rate_bits).bytes_per_packet == format.bytes_per_packet,
        sample_rate_changed(format, sample_rate_bits).frames_per_packet
            == format.frames_per_packet,
        sample_rate_changed(format, sample_rate_bits).bytes_per_frame == format.bytes_per_frame,
        sample_rate_changed(format, sample_rate_bits).channels_per_frame
            == format.channels_per_frame,
        sample_rate_changed(format, sample_rate_bits).bits_per_channel == format.bits_per_channel,
        sample_rate_changed(format, sample_rate_bits).reserved == format.reserved,
        sample_rate_changed(sample_rate_changed(format, sample_rate_bits), format.sample_rate_bits)
            == format,
{
}

} // verus!
