//! The container header data model and the header orchestrator: the packed
//! per-stream bitfield header, the assembled per-stream records, and the
//! top-to-bottom single-pass parse of the whole container header.

use vstd::prelude::*;
use crate::bits::lemma_stream_header_field_bounds;
use crate::bits::sh_chan_code;
use crate::bits::sh_has_chunks;
use crate::bits::sh_offset_raw;
use crate::bits::sh_rate_code;
use crate::bits::sh_samples;
use crate::chunks::parse_stream_chunks;
use crate::enums::Codec;
use crate::enums::Version;
use crate::error::ChunkError;
use crate::error::ChunkErrorKind;
use crate::error::HeaderError;
use crate::error::HeaderErrorKind;
use crate::error::NameError;
use crate::error::NameErrorKind;
use crate::error::StreamError;
use crate::error::StreamErrorKind;
use crate::model::lemma_offsets_upto_err;
use crate::model::lemma_read_streams_upto_err;
use crate::model::lemma_sizes_upto_err;
use crate::model::loop_parse;
use crate::model::magic_seq;
use crate::model::offsets_upto;
use crate::model::parse_header;
use crate::model::raw_stream_parse;
use crate::model::read_streams_upto;
use crate::model::sizes_upto;
use crate::model::stream_with_size;
use crate::model::HeaderModel;
use crate::model::StreamInfoModel;
use crate::model::StreamModel;
use crate::names::read_stream_names;
use crate::reader::Reader;

verus! {

/// A loop region within a stream's decoded audio: a start offset in sample
/// units and a nonzero length.
#[derive(Clone, Copy, Debug, PartialEq, Eq, Structural)]
pub struct Loop {
    pub start: u32,
    pub len: u32,
}

impl Loop {
    /// Builds a loop from its declared start and end, where the length is
    /// the modulo 2^32 difference `end - start`; a zero length is an error
    /// scoped to the chunk index.
    pub fn parse(index: u32, start: u32, end: u32) -> (r: Result<Loop, ChunkError>)
        ensures
            r == loop_parse(index, start, end),
    {
        let len = end.wrapping_sub(start);
        if len == 0 {
            Err(ChunkError { index, kind: ChunkErrorKind::ZeroLengthLoop })
        } else {
            Ok(Loop { start, len })
        }
    }
}

/// The packed 64-bit per-stream header word, with one accessor per field.
#[derive(Clone, Copy, Debug, PartialEq, Eq, Structural)]
pub struct RawStreamHeader {
    pub bits: u64,
}

impl RawStreamHeader {
    pub fn from(bits: u64) -> (r: Self)
        ensures
            r.bits == bits,
    {
        RawStreamHeader { bits }
    }

    pub fn has_chunks(&self) -> (r: bool)
        ensures
            r == sh_has_chunks(self.bits),
    {
        self.bits & 1 == 1
    }

    /// The raw 4-bit sample-rate code.
    pub fn sample_rate(&self) -> (r: u8)
        ensures
            r == sh_rate_code(self.bits),
    {
        ((self.bits >> 1) & 0xF) as u8
    }

    /// The raw 2-bit channel code.
    pub fn channels(&self) -> (r: u8)
        ensures
            r == sh_chan_code(self.bits),
    {
        ((self.bits >> 5) & 0x3) as u8
    }

    /// The raw 27-bit data offset in units of 32 bytes.
    pub fn data_offset(&self) -> (r: u32)
        ensures
            r == sh_offset_raw(self.bits),
    {
        ((self.bits >> 7) & 0x7FF_FFFF) as u32
    }

    /// The raw 30-bit sample count.
    pub fn num_samples(&self) -> (r: u32)
        ensures
            r == sh_samples(self.bits),
    {
        ((self.bits >> 34) & 0x3FFF_FFFF) as u32
    }

    /// Decodes the packed word into the stream's base attributes: an unknown
    /// sample-rate code or a zero sample count is an error scoped to the
    /// stream index.
    pub fn parse(self, stream_index: u32) -> (r: Result<StreamHeader, StreamError>)
        ensures
            (match r {
                Ok(h) => raw_stream_parse(self.bits, stream_index) == Ok::<
                    StreamModel,
                    StreamError,
                >(h@),
                Err(e) => raw_stream_parse(self.bits, stream_index) == Err::<
                    StreamModel,
                    StreamError,
                >(e),
            }),
    {
        proof {
            lemma_stream_header_field_bounds(self.bits);
        }
        let sample_rate: u32 = match self.sample_rate() {
            0 => 4000,
            1 => 8000,
            2 => 11000,
            3 => 11025,
            4 => 16000,
            5 => 22050,
            6 => 24000,
            7 => 32000,
            8 => 44100,
            9 => 48000,
            10 => 96000,
            flag => {
                return Err(
                    StreamError {
                        index: stream_index,
                        kind: StreamErrorKind::UnknownSampleRate { flag },
                    },
                );
            },
        };
        let chan_code = self.channels();
        let channels: u8 = if chan_code == 0 {
            1
        } else if chan_code == 1 {
            2
        } else if chan_code == 2 {
            6
        } else {
            8
        };
        let num_samples = self.num_samples();
        if num_samples == 0 {
            return Err(StreamError { index: stream_index, kind: StreamErrorKind::ZeroSamples });
        }
        Ok(
            StreamHeader {
                has_chunks: self.has_chunks(),
                sample_rate,
                channels,
                data_offset: self.data_offset() * 32,
                num_samples,
                stream_loop: None,
                dsp_coeffs: None,
            },
        )
    }
}

/// One stream's attributes while its header and chunk list are being
/// decoded, before its data size is known.
#[derive(Clone, Debug, PartialEq, Eq)]
pub struct StreamHeader {
    pub has_chunks: bool,
    pub sample_rate: u32,
    pub channels: u8,
    pub data_offset: u32,
    pub num_samples: u32,
    pub stream_loop: Option<Loop>,
    pub dsp_coeffs: Option<Vec<i16>>,
}

impl View for StreamHeader {
    type V = StreamModel;

    open spec fn view(&self) -> StreamModel {
        StreamModel {
            has_chunks: self.has_chunks,
            sample_rate: self.sample_rate,
            channels: self.channels,
            data_offset: self.data_offset,
            num_samples: self.num_samples,
            stream_loop: self.stream_loop,
            dsp_coeffs: match self.dsp_coeffs {
                Some(v) => Some(v@),
                None => None,
            },
        }
    }
}

impl DeepView for StreamHeader {
    type V = StreamModel;

    open spec fn deep_view(&self) -> StreamModel {
        self.view()
    }
}

impl StreamHeader {
    /// Fixes the stream's derived data size, turning the header into the
    /// final immutable stream record (still without a name).
    pub fn with_stream_size(self, size: u32) -> (r: StreamInfo)
        ensures
            r@ == stream_with_size(self@, size),
    {
        StreamInfo {
            sample_rate: self.sample_rate,
            channels: self.channels,
            num_samples: self.num_samples,
            stream_loop: self.stream_loop,
            dsp_coeffs: self.dsp_coeffs,
            size,
            name: None,
        }
    }
}

/// One parsed stream: sample rate, channel count, sample count, optional
/// loop, optional per-channel DSP coefficients, derived data size, and an
/// optional name.
#[derive(Clone, Debug, PartialEq, Eq)]
pub struct StreamInfo {
    pub sample_rate: u32,
    pub channels: u8,
    pub num_samples: u32,
    pub stream_loop: Option<Loop>,
    pub dsp_coeffs: Option<Vec<i16>>,
    pub size: u32,
    pub name: Option<String>,
}

impl View for StreamInfo {
    type V = StreamInfoModel;

    open spec fn view(&self) -> StreamInfoModel {
        StreamInfoModel {
            sample_rate: self.sample_rate,
            channels: self.channels,
            num_samples: self.num_samples,
            stream_loop: self.stream_loop,
            dsp_coeffs: match self.dsp_coeffs {
                Some(v) => Some(v@),
                None => None,
            },
            size: self.size,
            name: match self.name {
                Some(ref s) => Some(s@),
                None => None,
            },
        }
    }
}

impl DeepView for StreamInfo {
    type V = StreamInfoModel;

    open spec fn deep_view(&self) -> StreamInfoModel {
        self.view()
    }
}

/// The parsed container header: the stream count, the container-wide codec,
/// and the per-stream records in declaration order.
#[derive(Clone, Debug)]
pub struct Header {
    pub num_streams: u32,
    pub codec: Codec,
    pub stream_info: Vec<StreamInfo>,
}

impl View for Header {
    type V = HeaderModel;

    open spec fn view(&self) -> HeaderModel {
        HeaderModel {
            num_streams: self.num_streams,
            codec: self.codec,
            stream_info: self.stream_info.deep_view(),
        }
    }
}

/// Decodes every stream's bitfield header (and chunk list where flagged) in
/// declaration order, then derives each stream's byte size by differencing
/// the declared data offsets against the declared total, exactly as
/// `read_streams_upto` followed by `sizes_upto` says.
#[verifier::loop_isolation(false)]
#[verifier::rlimit(100)]
pub fn parse_stream_headers(
    reader: &mut Reader,
    num_streams: u32,
    total_stream_size: u32,
) -> (r: Result<Vec<StreamInfo>, HeaderError>)
    requires
        old(reader).wf(),
    ensures
        final(reader).wf(),
        final(reader).bytes() == old(reader).bytes(),
        (match read_streams_upto(old(reader).bytes(), old(reader).pos(), num_streams as int) {
            Err(e) => r == Err::<Vec<StreamInfo>, HeaderError>(e),
            Ok((headers, p)) => final(reader).pos() == p && (match sizes_upto(
                headers,
                total_stream_size,
                num_streams as int,
            ) {
                Err(e) => r == Err::<Vec<StreamInfo>, HeaderError>(e),
                Ok(infos) => (r matches Ok(v) && v.deep_view() == infos && v@.len()
                    == num_streams as int),
            }),
        }),
{
    let ghost d = old(reader).bytes();
    let ghost p0 = old(reader).pos();
    let mut stream_headers: Vec<StreamHeader> = Vec::new();
    let mut stream_offsets: Vec<u32> = Vec::new();
    proof {
        assert(stream_headers.deep_view() =~= Seq::<StreamModel>::empty());
    }
    let mut index: u32 = 0;
    while index < num_streams
        invariant
            reader.wf(),
            reader.bytes() == d,
            index <= num_streams,
            read_streams_upto(d, p0, index as int) == Ok::<(Seq<StreamModel>, int), HeaderError>(
                (stream_headers.deep_view(), reader.pos()),
            ),
            stream_headers@.len() == index as int,
            stream_offsets@.len() == index as int,
            forall|i: int|
                0 <= i < index as int ==> stream_offsets@[i] == stream_headers.deep_view()[i].data_offset,
        decreases num_streams - index,
    {
        let ghost dv_before = stream_headers.deep_view();
        let w = match reader.le_u64() {
            Ok(n) => n,
            Err(_) => {
                proof {
                    lemma_read_streams_upto_err(d, p0, index as int + 1, num_streams as int);
                }
                return Err(stream_err_exec(index, StreamErrorKind::StreamInfo));
            },
        };
        let mut stream_header = match RawStreamHeader::from(w).parse(index) {
            Ok(h) => h,
            Err(e) => {
                proof {
                    lemma_read_streams_upto_err(d, p0, index as int + 1, num_streams as int);
                }
                return Err(HeaderError { kind: HeaderErrorKind::Stream { error: e } });
            },
        };
        if stream_header.has_chunks {
            match parse_stream_chunks(reader, &mut stream_header) {
                Ok(_) => {},
                Err(e) => {
                    proof {
                        lemma_read_streams_upto_err(d, p0, index as int + 1, num_streams as int);
                    }
                    return Err(stream_err_exec(index, StreamErrorKind::Chunk { error: e }));
                },
            }
        }
        stream_offsets.push(stream_header.data_offset);
        stream_headers.push(stream_header);
        proof {
            assert(stream_headers.deep_view() =~= dv_before.push(stream_headers@[index as int]@));
        }
        index = index + 1;
    }
    let ghost headers = stream_headers.deep_view();
    let ghost p1 = reader.pos();
    let mut stream_info: Vec<StreamInfo> = Vec::new();
    let mut remaining = stream_headers;
    proof {
        assert(stream_info.deep_view() =~= Seq::<StreamInfoModel>::empty());
        assert(remaining.deep_view() =~= headers.skip(0));
    }
    let mut i: u32 = 0;
    while i < num_streams
        invariant
            i <= num_streams,
            headers.len() == num_streams as int,
            remaining.deep_view() =~= headers.skip(i as int),
            stream_info@.len() == i as int,
            sizes_upto(headers, total_stream_size, i as int) == Ok::<
                Seq<StreamInfoModel>,
                HeaderError,
            >(stream_info.deep_view()),
        decreases num_streams - i,
    {
        let ghost infos_before = stream_info.deep_view();
        let next = if i + 1 < num_streams {
            stream_offsets[i as usize + 1]
        } else {
            total_stream_size
        };
        let size = next.wrapping_sub(stream_offsets[i as usize]);
        if size == 0 {
            proof {
                lemma_sizes_upto_err(headers, total_stream_size, i as int + 1, num_streams as int);
            }
            return Err(HeaderError { kind: HeaderErrorKind::ZeroStreamSize { index: i } });
        }
        let ghost rem_before = remaining@;
        let ghost rem_dv_before = remaining.deep_view();
        let h = remaining.remove(0);
        proof {
            assert(rem_dv_before[0] == headers.skip(i as int)[0]);
            assert(h@ == headers[i as int]);
            assert forall|t: int| 0 <= t < remaining@.len() implies #[trigger] remaining.deep_view()[t]
                == headers.skip(i as int + 1)[t] by {
                assert(remaining@[t] == rem_before[t + 1]);
                assert(rem_dv_before[t + 1] == headers.skip(i as int)[t + 1]);
            }
            assert(remaining.deep_view() =~= headers.skip(i as int + 1));
        }
        stream_info.push(h.with_stream_size(size));
        proof {
            assert(stream_info.deep_view() =~= infos_before.push(
                stream_with_size(headers[i as int], size),
            ));
        }
        i = i + 1;
    }
    Ok(stream_info)
}

/// A stream-level error lifted to the top level.
fn stream_err_exec(index: u32, kind: StreamErrorKind) -> (r: HeaderError)
    ensures
        r == crate::error::stream_err(index, kind),
{
    HeaderError { kind: HeaderErrorKind::Stream { error: StreamError { index, kind } } }
}

impl Header {
    /// Parses a whole container header from the cursor: magic, version,
    /// stream count, table sizes, codec, per-stream headers and chunk lists,
    /// derived stream sizes, and the optional name table — returning exactly
    /// what `parse_header` says for the underlying bytes, success and error
    /// alike.
    #[verifier::loop_isolation(false)]
    #[verifier::rlimit(100)]
    pub fn parse(reader: &mut Reader) -> (r: Result<Header, HeaderError>)
        requires
            old(reader).wf(),
        ensures
            final(reader).wf(),
            final(reader).bytes() == old(reader).bytes(),
            (match parse_header(old(reader).bytes(), old(reader).pos()) {
                Ok(hm) => (r matches Ok(h) && h@ == hm),
                Err(e) => r == Err::<Header, HeaderError>(e),
            }),
    {
        let ghost d = old(reader).bytes();
        let ghost p0 = old(reader).pos();
        let magic = match reader.take_len(4) {
            Ok(v) => v,
            Err(_) => {
                return Err(HeaderError::new(HeaderErrorKind::Magic));
            },
        };
        if !(magic[0] == 0x46 && magic[1] == 0x53 && magic[2] == 0x42 && magic[3] == 0x35) {
            proof {
                assert(d.subrange(p0, p0 + 4) != magic_seq());
            }
            return Err(HeaderError::new(HeaderErrorKind::Magic));
        }
        proof {
            assert(d.subrange(p0, p0 + 4) =~= magic_seq());
        }
        let version_code = match reader.le_u32() {
            Ok(v) => v,
            Err(_) => {
                return Err(HeaderError::new(HeaderErrorKind::Version));
            },
        };
        let version = match Version::try_from(version_code) {
            Ok(v) => v,
            Err(e) => {
                return Err(e);
            },
        };
        let num_streams = match reader.le_u32() {
            Ok(v) => v,
            Err(_) => {
                return Err(HeaderError::new(HeaderErrorKind::StreamCount));
            },
        };
        if num_streams == 0 {
            return Err(HeaderError::new(HeaderErrorKind::ZeroStreams));
        }
        let stream_headers_size = match reader.le_u32() {
            Ok(v) => v,
            Err(_) => {
                return Err(HeaderError::new(HeaderErrorKind::StreamHeadersSize));
            },
        };
        let name_table_size = match reader.le_u32() {
            Ok(v) => v,
            Err(_) => {
                return Err(HeaderError::new(HeaderErrorKind::NameTableSize));
            },
        };
        let total_stream_size = match reader.le_u32() {
            Ok(v) => v,
            Err(_) => {
                return Err(HeaderError::new(HeaderErrorKind::TotalStreamSize));
            },
        };
        if total_stream_size == 0 {
            return Err(HeaderError::new(HeaderErrorKind::ZeroTotalStreamSize));
        }
        let codec_code = match reader.le_u32() {
            Ok(v) => v,
            Err(_) => {
                return Err(HeaderError::new(HeaderErrorKind::Codec));
            },
        };
        let codec = match Codec::try_from(codec_code) {
            Ok(c) => c,
            Err(e) => {
                return Err(e);
            },
        };
        let base_header_size: usize = match version {
            Version::V0 => 64,
            Version::V1 => 60,
        };
        match reader.advance_to(base_header_size) {
            Ok(_) => {},
            Err(_) => {
                return Err(HeaderError::new(HeaderErrorKind::Metadata));
            },
        }
        let mut stream_info = match parse_stream_headers(reader, num_streams, total_stream_size) {
            Ok(v) => v,
            Err(e) => {
                return Err(e);
            },
        };
        let header_size = base_header_size as u64 + stream_headers_size as u64;
        let actual_pos = reader.position();
        let wrong_size = HeaderError {
            kind: HeaderErrorKind::WrongHeaderSize {
                expected: header_size,
                actual: actual_pos as u64,
            },
        };
        if header_size > usize::MAX as u64 {
            return Err(wrong_size);
        }
        match reader.advance_to(header_size as usize) {
            Ok(_) => {},
            Err(_) => {
                return Err(wrong_size);
            },
        }
        if name_table_size != 0 {
            let ghost hs = reader.pos();
            let mut name_offsets: Vec<u32> = Vec::new();
            let mut i: u32 = 0;
            while i < num_streams
                invariant
                    reader.wf(),
                    reader.bytes() == d,
                    i <= num_streams,
                    name_offsets@.len() == i as int,
                    reader.pos() == hs + 4 * (i as int),
                    offsets_upto(d, hs, i as int) == Ok::<Seq<u32>, NameError>(name_offsets@),
                decreases num_streams - i,
            {
                let off = match reader.le_u32() {
                    Ok(v) => v,
                    Err(_) => {
                        proof {
                            lemma_offsets_upto_err(d, hs, i as int + 1, num_streams as int);
                        }
                        return Err(
                            HeaderError {
                                kind: HeaderErrorKind::Name {
                                    error: NameError { index: i, kind: NameErrorKind::NameOffset },
                                },
                            },
                        );
                    },
                };
                name_offsets.push(off);
                i = i + 1;
            }
            name_offsets.push(name_table_size);
            stream_info = match read_stream_names(reader, &name_offsets, stream_info) {
                Ok(v) => v,
                Err(e) => {
                    return Err(HeaderError { kind: HeaderErrorKind::Name { error: e } });
                },
            };
        }
        Ok(Header { num_streams, codec, stream_info })
    }
}

} // verus!
