//! Bit layout of the two packed words of the format, as explicit
//! shift-and-mask field functions: the 64-bit per-stream header word and the
//! 32-bit chunk flag word, both least-significant bit first.
//!
//! Stream header word: bit 0 = "has extra chunks"; bits 1-4 = sample-rate
//! code; bits 5-6 = channel code; bits 7-33 = data offset in units of 32
//! bytes; bits 34-63 = sample count.
//!
//! Chunk flag word: bit 0 = "more chunks follow"; bits 1-24 = declared
//! payload size in bytes; bits 25-31 = chunk kind code.

use vstd::prelude::*;

verus! {

/// Bit 0 of the stream header word: whether a chunk list follows.
pub open spec fn sh_has_chunks(w: u64) -> bool {
    w & 1 == 1
}

/// Bits 1-4 of the stream header word: the sample-rate code.
pub open spec fn sh_rate_code(w: u64) -> u8 {
    ((w >> 1) & 0xF) as u8
}

/// Bits 5-6 of the stream header word: the channel-count code.
pub open spec fn sh_chan_code(w: u64) -> u8 {
    ((w >> 5) & 0x3) as u8
}

/// Bits 7-33 of the stream header word: the data offset in 32-byte units.
pub open spec fn sh_offset_raw(w: u64) -> u32 {
    ((w >> 7) & 0x7FF_FFFF) as u32
}

/// Bits 34-63 of the stream header word: the sample count.
pub open spec fn sh_samples(w: u64) -> u32 {
    ((w >> 34) & 0x3FFF_FFFF) as u32
}

/// Assembles a stream header word from its five fields.
pub open spec fn pack_stream_header(
    has_chunks: bool,
    rate: u8,
    chan: u8,
    offset: u32,
    samples: u32,
) -> u64 {
    (if has_chunks {
        1u64
    } else {
        0u64
    }) | ((rate as u64) << 1) | ((chan as u64) << 5) | ((offset as u64) << 7) | ((
    samples as u64) << 34)
}

/// Bit 0 of the chunk flag word: whether more chunks follow.
pub open spec fn ch_more(f: u32) -> bool {
    f & 1 == 1
}

/// Bits 1-24 of the chunk flag word: the declared payload size in bytes.
pub open spec fn ch_size(f: u32) -> u32 {
    (f >> 1) & 0xFF_FFFF
}

/// Bits 25-31 of the chunk flag word: the chunk kind code.
pub open spec fn ch_kind(f: u32) -> u8 {
    ((f >> 25) & 0x7F) as u8
}

/// Assembles a chunk flag word from its three fields.
pub open spec fn pack_chunk_flag(more: bool, size: u32, kind: u8) -> u32 {
    (if more {
        1u32
    } else {
        0u32
    }) | (size << 1) | ((kind as u32) << 25)
}

/// The five fields of a stream header word always lie in their declared
/// ranges: 4 bits of rate code, 2 bits of channel code, 27 bits of raw
/// offset, 30 bits of sample count.
pub proof fn lemma_stream_header_field_bounds(w: u64)
    by (bit_vector)
    ensures
        sh_rate_code(w) < 0x10,
        sh_chan_code(w) < 0x4,
        sh_offset_raw(w) < 0x800_0000,
        sh_samples(w) < 0x4000_0000,
{
}

/// The fields of a chunk flag word always lie in their declared ranges:
/// 24 bits of payload size, 7 bits of kind code.
pub proof fn lemma_chunk_flag_field_bounds(f: u32)
    by (bit_vector)
    ensures
        ch_size(f) < 0x100_0000,
        ch_kind(f) < 0x80,
{
}

/// Decoding a stream header word into its five fields and re-assembling them
/// gives back the word: no information outside the fields exists.
pub proof fn lemma_stream_header_unpack_pack(w: u64)
    by (bit_vector)
    ensures
        pack_stream_header(
            sh_has_chunks(w),
            sh_rate_code(w),
            sh_chan_code(w),
            sh_offset_raw(w),
            sh_samples(w),
        ) == w,
{
}

/// Assembling a stream header word from in-range fields and decoding it
/// gives back each field unchanged: the encoding is lossless per field.
pub proof fn lemma_stream_header_pack_unpack(
    has_chunks: bool,
    rate: u8,
    chan: u8,
    offset: u32,
    samples: u32,
)
    by (bit_vector)
    requires
        rate < 0x10,
        chan < 0x4,
        offset < 0x800_0000,
        samples < 0x4000_0000,
    ensures
        sh_has_chunks(pack_stream_header(has_chunks, rate, chan, offset, samples)) == has_chunks,
        sh_rate_code(pack_stream_header(has_chunks, rate, chan, offset, samples)) == rate,
        sh_chan_code(pack_stream_header(has_chunks, rate, chan, offset, samples)) == chan,
        sh_offset_raw(pack_stream_header(has_chunks, rate, chan, offset, samples)) == offset,
        sh_samples(pack_stream_header(has_chunks, rate, chan, offset, samples)) == samples,
{
}

/// Decoding a chunk flag word into its three fields and re-assembling them
/// gives back the word.
pub proof fn lemma_chunk_flag_unpack_pack(f: u32)
    by (bit_vector)
    ensures
        pack_chunk_flag(ch_more(f), ch_size(f), ch_kind(f)) == f,
{
}

/// Assembling a chunk flag word from in-range fields and decoding it gives
/// back each field unchanged.
pub proof fn lemma_chunk_flag_pack_unpack(more: bool, size: u32, kind: u8)
    by (bit_vector)
    requires
        size < 0x100_0000,
        kind < 0x80,
    ensures
        ch_more(pack_chunk_flag(more, size, kind)) == more,
        ch_size(pack_chunk_flag(more, size, kind)) == size,
        ch_kind(pack_chunk_flag(more, size, kind)) == kind,
{
}

} // verus!
