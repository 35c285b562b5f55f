//! The mathematical model of the container header: what each parsing stage
//! yields on a given byte sequence, stated as spec functions over `Seq<u8>`.
//! The executable parser is proved to return exactly what `parse_header`
//! says, success and error alike.

use vstd::prelude::*;
use vstd::wrapping::u32_specs;
use vstd::wrapping::u8_specs;
use vstd::wrapping::i16_specs;
use crate::bits::ch_kind;
use crate::bits::ch_more;
use crate::bits::ch_size;
use crate::bits::sh_chan_code;
use crate::bits::sh_has_chunks;
use crate::bits::sh_offset_raw;
use crate::bits::sh_rate_code;
use crate::bits::sh_samples;
use crate::enums::channels_of;
use crate::enums::chunk_kind_of;
use crate::enums::codec_try_from;
use crate::enums::sample_rate_of;
use crate::enums::version_try_from;
use crate::enums::Codec;
use crate::enums::StreamChunkKind;
use crate::enums::Version;
use crate::error::chunk_stream_err;
use crate::error::header_err;
use crate::error::stream_err;
use crate::error::ChunkError;
use crate::error::ChunkErrorKind;
use crate::error::HeaderError;
use crate::error::HeaderErrorKind;
use crate::error::NameError;
use crate::error::NameErrorKind;
use crate::error::StreamError;
use crate::error::StreamErrorKind;
use crate::header::Loop;
use crate::names::utf8_chars;
use crate::reader::be_i16_at;
use crate::reader::le_u32_at;
use crate::reader::le_u64_at;

verus! {

/// One stream's attributes while its chunk list is being decoded.
pub ghost struct StreamModel {
    pub has_chunks: bool,
    pub sample_rate: u32,
    pub channels: u8,
    pub data_offset: u32,
    pub num_samples: u32,
    pub stream_loop: Option<Loop>,
    pub dsp_coeffs: Option<Seq<i16>>,
}

/// One fully parsed stream record.
pub ghost struct StreamInfoModel {
    pub sample_rate: u32,
    pub channels: u8,
    pub num_samples: u32,
    pub stream_loop: Option<Loop>,
    pub dsp_coeffs: Option<Seq<i16>>,
    pub size: u32,
    pub name: Option<Seq<char>>,
}

/// The fully parsed container header.
pub ghost struct HeaderModel {
    pub num_streams: u32,
    pub codec: Codec,
    pub stream_info: Seq<StreamInfoModel>,
}

/// The 4-byte magic that every container starts with: the ASCII bytes of
/// `FSB5`.
pub open spec fn magic_seq() -> Seq<u8> {
    seq![0x46u8, 0x53u8, 0x42u8, 0x35u8]
}

/// What decoding one packed 64-bit stream header word yields: the decoded
/// base attributes, or the stream-scoped error for an unknown sample-rate
/// code or a zero sample count.
pub open spec fn raw_stream_parse(w: u64, stream_index: u32) -> Result<StreamModel, StreamError> {
    match sample_rate_of(sh_rate_code(w)) {
        None => Err(
            StreamError {
                index: stream_index,
                kind: StreamErrorKind::UnknownSampleRate { flag: sh_rate_code(w) },
            },
        ),
        Some(rate) => if sh_samples(w) == 0 {
            Err(StreamError { index: stream_index, kind: StreamErrorKind::ZeroSamples })
        } else {
            Ok(
                StreamModel {
                    has_chunks: sh_has_chunks(w),
                    sample_rate: rate,
                    channels: channels_of(sh_chan_code(w)),
                    data_offset: (sh_offset_raw(w) * 32) as u32,
                    num_samples: sh_samples(w),
                    stream_loop: None,
                    dsp_coeffs: None,
                },
            )
        },
    }
}

/// What building a loop from its declared start and end yields: the length
/// is the modulo 2^32 difference, and zero length is an error.
pub open spec fn loop_parse(index: u32, start: u32, end: u32) -> Result<Loop, ChunkError> {
    let len = u32_specs::wrapping_sub(end, start);
    if len == 0 {
        Err(ChunkError { index, kind: ChunkErrorKind::ZeroLengthLoop })
    } else {
        Ok(Loop { start, len })
    }
}

/// The modulo 2^16 sum of the first `k` big-endian 16-bit values starting at
/// `p`, added in reading order.
pub open spec fn dsp_sum16(d: Seq<u8>, p: int, k: nat) -> i16
    decreases k,
{
    if k == 0 {
        0i16
    } else {
        i16_specs::wrapping_add(dsp_sum16(d, p, (k - 1) as nat), be_i16_at(d, p + 2 * (k - 1)))
    }
}

/// The per-channel DSP coefficients of `n` channels starting at `p`: each
/// channel contributes the sum of its sixteen 16-bit values, and each
/// channel's span is 46 bytes (32 bytes of values, 14 of padding).
pub open spec fn dsp_coeffs_model(d: Seq<u8>, p: int, n: nat) -> Seq<i16>
    decreases n,
{
    if n == 0 {
        Seq::empty()
    } else {
        dsp_coeffs_model(d, p, (n - 1) as nat).push(dsp_sum16(d, p + 46 * (n - 1), 16))
    }
}

/// What one chunk's payload does to the stream attributes, for a chunk of
/// the given kind whose payload starts at `p`: the updated attributes and
/// the position after the payload reads, or the chunk-scoped error.
pub open spec fn chunk_payload(
    d: Seq<u8>,
    p: int,
    st: StreamModel,
    index: u32,
    kind: StreamChunkKind,
) -> Result<(StreamModel, int), ChunkError> {
    match kind {
        StreamChunkKind::Channels => {
            if p + 1 > d.len() {
                Err(ChunkError { index, kind: ChunkErrorKind::ChannelCount })
            } else if d[p] == 0 {
                Err(ChunkError { index, kind: ChunkErrorKind::ZeroChannels })
            } else {
                Ok((StreamModel { channels: d[p], ..st }, p + 1))
            }
        },
        StreamChunkKind::SampleRate => {
            if p + 4 > d.len() {
                Err(ChunkError { index, kind: ChunkErrorKind::SampleRate })
            } else if le_u32_at(d, p) == 0 {
                Err(ChunkError { index, kind: ChunkErrorKind::ZeroSampleRate })
            } else {
                Ok((StreamModel { sample_rate: le_u32_at(d, p), ..st }, p + 4))
            }
        },
        StreamChunkKind::Loop => {
            if p + 4 > d.len() {
                Err(ChunkError { index, kind: ChunkErrorKind::LoopStart })
            } else if p + 8 > d.len() {
                Err(ChunkError { index, kind: ChunkErrorKind::LoopEnd })
            } else {
                match loop_parse(index, le_u32_at(d, p), le_u32_at(d, p + 4)) {
                    Err(e) => Err(e),
                    Ok(l) => Ok((StreamModel { stream_loop: Some(l), ..st }, p + 8)),
                }
            }
        },
        StreamChunkKind::DspCoefficients => {
            if p + 46 * (st.channels as int) > d.len() {
                Err(ChunkError { index, kind: ChunkErrorKind::DspCoefficients })
            } else {
                Ok(
                    (
                        StreamModel {
                            dsp_coeffs: Some(dsp_coeffs_model(d, p, st.channels as nat)),
                            ..st
                        },
                        p + 46 * (st.channels as int),
                    ),
                )
            }
        },
        StreamChunkKind::VorbisIntraLayers => {
            if p + 4 > d.len() {
                Err(ChunkError { index, kind: ChunkErrorKind::VorbisLayerCount })
            } else {
                let layers = le_u32_at(d, p);
                if layers > 0xFF {
                    Err(ChunkError { index, kind: ChunkErrorKind::TooManyVorbisLayers { layers } })
                } else {
                    let channels = u8_specs::wrapping_mul(st.channels, layers as u8);
                    if channels == 0 {
                        Err(ChunkError { index, kind: ChunkErrorKind::ZeroVorbisLayers })
                    } else {
                        Ok((StreamModel { channels, ..st }, p + 4))
                    }
                }
            }
        },
        _ => Ok((st, p)),
    }
}

/// What walking a stream's chunk list from position `pos` yields: the final
/// stream attributes and the position just past the last chunk, or the first
/// chunk-scoped error. Each chunk is a 32-bit flag word followed by its
/// payload; after the payload the cursor must land exactly at the declared
/// payload size, and the walk continues while the "more chunks" bit is set.
pub open spec fn walk_chunks(d: Seq<u8>, pos: int, st: StreamModel, index: u32) -> Result<
    (StreamModel, int),
    ChunkError,
>
    decreases d.len() - pos,
{
    if pos < 0 || pos + 4 > d.len() {
        Err(ChunkError { index, kind: ChunkErrorKind::Flag })
    } else {
        let flag = le_u32_at(d, pos);
        match chunk_kind_of(ch_kind(flag)) {
            None => Err(
                ChunkError { index, kind: ChunkErrorKind::UnknownType { flag: ch_kind(flag) } },
            ),
            Some(kind) => match chunk_payload(d, pos + 4, st, index, kind) {
                Err(e) => Err(e),
                Ok((st2, pend)) => {
                    let target = pos + 4 + ch_size(flag);
                    if pend <= target && target <= d.len() {
                        if ch_more(flag) {
                            walk_chunks(d, target, st2, u32_specs::wrapping_add(index, 1))
                        } else {
                            Ok((st2, target))
                        }
                    } else {
                        Err(
                            ChunkError {
                                index,
                                kind: ChunkErrorKind::WrongChunkSize {
                                    expected: ch_size(flag),
                                    actual: (pend - (pos + 4)) as usize,
                                },
                            },
                        )
                    }
                },
            },
        }
    }
}

/// What decoding one stream at position `pos` yields: its bitfield word,
/// then its chunk list when the word flags one; the stream attributes and
/// the position after the stream's header material, or the stream-scoped
/// error lifted to the top level.
pub open spec fn stream_step(d: Seq<u8>, pos: int, i: u32) -> Result<
    (StreamModel, int),
    HeaderError,
> {
    if pos < 0 || pos + 8 > d.len() {
        Err(stream_err(i, StreamErrorKind::StreamInfo))
    } else {
        match raw_stream_parse(le_u64_at(d, pos), i) {
            Err(e) => Err(HeaderError { kind: HeaderErrorKind::Stream { error: e } }),
            Ok(st) => if st.has_chunks {
                match walk_chunks(d, pos + 8, st, 0) {
                    Err(ce) => Err(chunk_stream_err(i, ce)),
                    Ok((st2, p2)) => Ok((st2, p2)),
                }
            } else {
                Ok((st, pos + 8))
            },
        }
    }
}

/// What decoding the first `k` streams starting at `pos0` yields: their
/// attributes in declaration order and the position after the last, or the
/// first error.
pub open spec fn read_streams_upto(d: Seq<u8>, pos0: int, k: int) -> Result<
    (Seq<StreamModel>, int),
    HeaderError,
>
    decreases k,
{
    if k <= 0 {
        Ok((Seq::empty(), pos0))
    } else {
        match read_streams_upto(d, pos0, k - 1) {
            Err(e) => Err(e),
            Ok((acc, p)) => match stream_step(d, p, (k - 1) as u32) {
                Err(e) => Err(e),
                Ok((st, p2)) => Ok((acc.push(st), p2)),
            },
        }
    }
}

/// Once the first `k` streams fail to decode, so do any more.
pub proof fn lemma_read_streams_upto_err(d: Seq<u8>, pos0: int, k: int, j: int)
    requires
        0 <= k <= j,
        read_streams_upto(d, pos0, k) is Err,
    ensures
        read_streams_upto(d, pos0, j) == read_streams_upto(d, pos0, k),
    decreases j - k,
{
    if j > k {
        lemma_read_streams_upto_err(d, pos0, k, j - 1);
    }
}

/// A stream header with its derived data size fixed, not yet named.
pub open spec fn stream_with_size(st: StreamModel, size: u32) -> StreamInfoModel {
    StreamInfoModel {
        sample_rate: st.sample_rate,
        channels: st.channels,
        num_samples: st.num_samples,
        stream_loop: st.stream_loop,
        dsp_coeffs: st.dsp_coeffs,
        size,
        name: None,
    }
}

/// What deriving the data sizes of the first `k` streams yields: each
/// stream's size is the modulo 2^32 difference between the next stream's
/// data offset (the declared total for the last stream) and its own; a zero
/// size is an error carrying the stream's index.
pub open spec fn sizes_upto(headers: Seq<StreamModel>, total: u32, k: int) -> Result<
    Seq<StreamInfoModel>,
    HeaderError,
>
    decreases k,
{
    if k <= 0 {
        Ok(Seq::empty())
    } else {
        match sizes_upto(headers, total, k - 1) {
            Err(e) => Err(e),
            Ok(acc) => {
                let next = if k < headers.len() {
                    headers[k].data_offset
                } else {
                    total
                };
                let size = u32_specs::wrapping_sub(next, headers[k - 1].data_offset);
                if size == 0 {
                    Err(header_err(HeaderErrorKind::ZeroStreamSize { index: (k - 1) as u32 }))
                } else {
                    Ok(acc.push(stream_with_size(headers[k - 1], size)))
                }
            },
        }
    }
}

/// Once the first `k` sizes fail to derive, so do any more.
pub proof fn lemma_sizes_upto_err(headers: Seq<StreamModel>, total: u32, k: int, j: int)
    requires
        0 <= k <= j,
        sizes_upto(headers, total, k) is Err,
    ensures
        sizes_upto(headers, total, j) == sizes_upto(headers, total, k),
    decreases j - k,
{
    if j > k {
        lemma_sizes_upto_err(headers, total, k, j - 1);
    }
}

/// What reading the first `k` name-table offsets starting at `pos0` yields:
/// the offsets in order, or a short-read error carrying the entry's index.
pub open spec fn offsets_upto(d: Seq<u8>, pos0: int, k: int) -> Result<Seq<u32>, NameError>
    decreases k,
{
    if k <= 0 {
        Ok(Seq::empty())
    } else {
        match offsets_upto(d, pos0, k - 1) {
            Err(e) => Err(e),
            Ok(acc) => if pos0 < 0 || pos0 + 4 * k > d.len() {
                Err(NameError { index: (k - 1) as u32, kind: NameErrorKind::NameOffset })
            } else {
                Ok(acc.push(le_u32_at(d, pos0 + 4 * (k - 1))))
            },
        }
    }
}

/// Once the first `k` offsets fail to read, so do any more.
pub proof fn lemma_offsets_upto_err(d: Seq<u8>, pos0: int, k: int, j: int)
    requires
        0 <= k <= j,
        offsets_upto(d, pos0, k) is Err,
    ensures
        offsets_upto(d, pos0, j) == offsets_upto(d, pos0, k),
    decreases j - k,
{
    if j > k {
        lemma_offsets_upto_err(d, pos0, k, j - 1);
    }
}

/// Whether `bs` is one well-formed NUL-terminated byte string: nonempty,
/// ending in NUL, with no interior NUL.
pub open spec fn cstr_ok(bs: Seq<u8>) -> bool {
    bs.len() >= 1 && bs[bs.len() - 1] == 0 && (forall|j: int|
        0 <= j < bs.len() - 1 ==> bs[j] != 0)
}

/// What resolving the first `k` stream names yields: for each consecutive
/// offset pair the byte length is the modulo 2^32 difference, that many
/// bytes are read in sequence, checked to be NUL-terminated and decoded as
/// UTF-8; the decoded names and the position after the last, or the first
/// name-scoped error.
pub open spec fn names_upto(d: Seq<u8>, pos0: int, offsets: Seq<u32>, k: int) -> Result<
    (Seq<Seq<char>>, int),
    NameError,
>
    decreases k,
{
    if k <= 0 {
        Ok((Seq::empty(), pos0))
    } else {
        match names_upto(d, pos0, offsets, k - 1) {
            Err(e) => Err(e),
            Ok((acc, p)) => {
                let n = u32_specs::wrapping_sub(offsets[k], offsets[k - 1]) as int;
                if p < 0 || p + n > d.len() {
                    Err(NameError { index: (k - 1) as u32, kind: NameErrorKind::Name })
                } else {
                    let bs = d.subrange(p, p + n);
                    if !cstr_ok(bs) {
                        Err(NameError { index: (k - 1) as u32, kind: NameErrorKind::Cstr })
                    } else {
                        match utf8_chars(bs.take(n - 1)) {
                            None => Err(
                                NameError { index: (k - 1) as u32, kind: NameErrorKind::Utf8 },
                            ),
                            Some(cs) => Ok((acc.push(cs), p + n)),
                        }
                    }
                }
            },
        }
    }
}

/// A successful resolution of the first `k` names yields exactly `k` names.
pub proof fn lemma_names_upto_len(d: Seq<u8>, pos0: int, offsets: Seq<u32>, k: int)
    requires
        names_upto(d, pos0, offsets, k) is Ok,
    ensures
        (match names_upto(d, pos0, offsets, k) {
            Ok((names, _p)) => names.len() == if k >= 0 { k } else { 0 },
            Err(_) => false,
        }),
    decreases k,
{
    if k > 0 {
        lemma_names_upto_len(d, pos0, offsets, k - 1);
    }
}

/// Once the first `k` names fail to resolve, so do any more.
pub proof fn lemma_names_upto_err(d: Seq<u8>, pos0: int, offsets: Seq<u32>, k: int, j: int)
    requires
        0 <= k <= j,
        names_upto(d, pos0, offsets, k) is Err,
    ensures
        names_upto(d, pos0, offsets, j) == names_upto(d, pos0, offsets, k),
    decreases j - k,
{
    if j > k {
        lemma_names_upto_err(d, pos0, offsets, k, j - 1);
    }
}

/// The stream records with the resolved names attached in declaration order.
pub open spec fn with_names(infos: Seq<StreamInfoModel>, names: Seq<Seq<char>>) -> Seq<
    StreamInfoModel,
> {
    Seq::new(infos.len(), |i: int| StreamInfoModel { name: Some(names[i]), ..infos[i] })
}

/// The container base header size in bytes: 64 for version 0, 60 for
/// version 1.
pub open spec fn base_header_size(version: Version) -> int {
    match version {
        Version::V0 => 64,
        Version::V1 => 60,
    }
}

/// What the stages after the fixed-size fields yield: skip to the base
/// header size, decode every stream and its chunk list, derive the data
/// sizes, land exactly at the declared end of the stream-header table, and
/// resolve names when a name table is declared.
pub open spec fn parse_after_fixed(
    d: Seq<u8>,
    pos0: int,
    version: Version,
    num: u32,
    sh_size: u32,
    nt_size: u32,
    total: u32,
    codec: Codec,
) -> Result<HeaderModel, HeaderError> {
    let base = base_header_size(version);
    if !(pos0 + 28 <= base && base <= d.len()) {
        Err(header_err(HeaderErrorKind::Metadata))
    } else {
        match read_streams_upto(d, base, num as int) {
            Err(e) => Err(e),
            Ok((headers, p1)) => match sizes_upto(headers, total, num as int) {
                Err(e) => Err(e),
                Ok(infos) => {
                    let hs = base + sh_size;
                    if !(p1 <= hs && hs <= d.len()) {
                        Err(
                            header_err(
                                HeaderErrorKind::WrongHeaderSize {
                                    expected: hs as u64,
                                    actual: p1 as u64,
                                },
                            ),
                        )
                    } else if nt_size == 0 {
                        Ok(HeaderModel { num_streams: num, codec, stream_info: infos })
                    } else {
                        match offsets_upto(d, hs, num as int) {
                            Err(ne) => Err(
                                HeaderError { kind: HeaderErrorKind::Name { error: ne } },
                            ),
                            Ok(offs) => match names_upto(
                                d,
                                hs + 4 * (num as int),
                                offs.push(nt_size),
                                num as int,
                            ) {
                                Err(ne) => Err(
                                    HeaderError { kind: HeaderErrorKind::Name { error: ne } },
                                ),
                                Ok((names, _p)) => Ok(
                                    HeaderModel {
                                        num_streams: num,
                                        codec,
                                        stream_info: with_names(infos, names),
                                    },
                                ),
                            },
                        }
                    }
                },
            },
        }
    }
}

/// What parsing a whole container header from position `pos0` yields: the
/// assembled header, or the error of the first stage that fails — each
/// fixed field in order (magic, version, stream count, table sizes, codec),
/// then the stages of `parse_after_fixed`.
pub open spec fn parse_header(d: Seq<u8>, pos0: int) -> Result<HeaderModel, HeaderError> {
    if pos0 < 0 || pos0 + 4 > d.len() {
        Err(header_err(HeaderErrorKind::Magic))
    } else if d.subrange(pos0, pos0 + 4) != magic_seq() {
        Err(header_err(HeaderErrorKind::Magic))
    } else if pos0 + 8 > d.len() {
        Err(header_err(HeaderErrorKind::Version))
    } else {
        match version_try_from(le_u32_at(d, pos0 + 4)) {
            Err(e) => Err(e),
            Ok(version) => if pos0 + 12 > d.len() {
                Err(header_err(HeaderErrorKind::StreamCount))
            } else if le_u32_at(d, pos0 + 8) == 0 {
                Err(header_err(HeaderErrorKind::ZeroStreams))
            } else if pos0 + 16 > d.len() {
                Err(header_err(HeaderErrorKind::StreamHeadersSize))
            } else if pos0 + 20 > d.len() {
                Err(header_err(HeaderErrorKind::NameTableSize))
            } else if pos0 + 24 > d.len() {
                Err(header_err(HeaderErrorKind::TotalStreamSize))
            } else if le_u32_at(d, pos0 + 20) == 0 {
                Err(header_err(HeaderErrorKind::ZeroTotalStreamSize))
            } else if pos0 + 28 > d.len() {
                Err(header_err(HeaderErrorKind::Codec))
            } else {
                match codec_try_from(le_u32_at(d, pos0 + 24)) {
                    Err(e) => Err(e),
                    Ok(codec) => parse_after_fixed(
                        d,
                        pos0,
                        version,
                        le_u32_at(d, pos0 + 8),
                        le_u32_at(d, pos0 + 12),
                        le_u32_at(d, pos0 + 16),
                        le_u32_at(d, pos0 + 20),
                        codec,
                    ),
                }
            },
        }
    }
}

/// A chunk list whose first flag word has the "more chunks" bit clear ends
/// after that single chunk: on success the walk stops exactly at the end of
/// the first chunk's declared span, and on failure the error is scoped to
/// that first chunk's index.
pub proof fn lemma_single_chunk_terminates(d: Seq<u8>, pos: int, st: StreamModel, index: u32)
    requires
        0 <= pos,
        pos + 4 <= d.len(),
        !ch_more(le_u32_at(d, pos)),
    ensures
        (match walk_chunks(d, pos, st, index) {
            Ok((st2, p2)) => p2 == pos + 4 + ch_size(le_u32_at(d, pos)),
            Err(e) => e.index == index,
        }),
{
}

} // verus!
