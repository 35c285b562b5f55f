//! The chunk walker: decoding the extensible linked list of per-stream
//! metadata chunks, each self-describing its kind and payload size, with
//! strict validation of the cursor's advancement against the declared size.

use vstd::prelude::*;
use crate::bits::ch_kind;
use crate::bits::ch_more;
use crate::bits::ch_size;
use crate::bits::lemma_chunk_flag_field_bounds;
use crate::enums::chunk_kind_of;
use crate::enums::StreamChunkKind;
use crate::error::ChunkError;
use crate::error::ChunkErrorKind;
use crate::header::Loop;
use crate::header::StreamHeader;
use crate::model::dsp_coeffs_model;
use crate::model::dsp_sum16;
use crate::model::walk_chunks;
use crate::reader::Reader;

verus! {

/// The packed 32-bit chunk flag word, with one accessor per field.
#[derive(Clone, Copy, Debug, PartialEq, Eq, Structural)]
pub struct RawStreamChunk {
    pub bits: u32,
}

/// One decoded chunk flag word: whether more chunks follow, the declared
/// payload size, and the chunk kind.
#[derive(Clone, Copy, Debug, PartialEq, Eq, Structural)]
pub struct StreamChunk {
    pub more_chunks: bool,
    pub size: u32,
    pub kind: StreamChunkKind,
}

impl RawStreamChunk {
    pub fn from(bits: u32) -> (r: Self)
        ensures
            r.bits == bits,
    {
        RawStreamChunk { bits }
    }

    pub fn more_chunks(&self) -> (r: bool)
        ensures
            r == ch_more(self.bits),
    {
        self.bits & 1 == 1
    }

    /// The declared payload size in bytes.
    pub fn size(&self) -> (r: u32)
        ensures
            r == ch_size(self.bits),
    {
        (self.bits >> 1) & 0xFF_FFFF
    }

    /// The raw 7-bit chunk kind code.
    pub fn kind(&self) -> (r: u8)
        ensures
            r == ch_kind(self.bits),
    {
        ((self.bits >> 25) & 0x7F) as u8
    }

    /// Decodes the flag word, rejecting unknown kind codes with an error
    /// scoped to the chunk index.
    pub fn parse(self, chunk_index: u32) -> (r: Result<StreamChunk, ChunkError>)
        ensures
            (match r {
                Ok(c) => chunk_kind_of(ch_kind(self.bits)) == Some(c.kind) && c.more_chunks
                    == ch_more(self.bits) && c.size == ch_size(self.bits),
                Err(e) => chunk_kind_of(ch_kind(self.bits)) is None && e == (ChunkError {
                    index: chunk_index,
                    kind: ChunkErrorKind::UnknownType { flag: ch_kind(self.bits) },
                }),
            }),
    {
        let kind = match self.kind() {
            1 => StreamChunkKind::Channels,
            2 => StreamChunkKind::SampleRate,
            3 => StreamChunkKind::Loop,
            4 => StreamChunkKind::Comment,
            6 => StreamChunkKind::XmaSeekTable,
            7 => StreamChunkKind::DspCoefficients,
            9 => StreamChunkKind::Atrac9Config,
            10 => StreamChunkKind::XwmaConfig,
            11 => StreamChunkKind::VorbisSeekTable,
            13 => StreamChunkKind::PeakVolume,
            14 => StreamChunkKind::VorbisIntraLayers,
            15 => StreamChunkKind::OpusDataSize,
            flag => {
                return Err(
                    ChunkError { index: chunk_index, kind: ChunkErrorKind::UnknownType { flag } },
                );
            },
        };
        Ok(StreamChunk { more_chunks: self.more_chunks(), size: self.size(), kind })
    }
}

/// Walks one stream's chunk list, applying each known chunk's effect to the
/// stream attributes and skipping the rest, exactly as `walk_chunks` says.
#[verifier::loop_isolation(false)]
pub fn parse_stream_chunks(reader: &mut Reader, stream: &mut StreamHeader) -> (r: Result<
    (),
    ChunkError,
>)
    requires
        old(reader).wf(),
    ensures
        final(reader).wf(),
        final(reader).bytes() == old(reader).bytes(),
        (match walk_chunks(old(reader).bytes(), old(reader).pos(), old(stream)@, 0) {
            Ok((st, p)) => r is Ok && final(stream)@ == st && final(reader).pos() == p,
            Err(e) => r == Err::<(), ChunkError>(e),
        }),
{
    let ghost d = old(reader).bytes();
    let ghost pos0 = old(reader).pos();
    let ghost st0 = old(stream)@;
    let mut index: u32 = 0;
    loop
        invariant
            reader.wf(),
            reader.bytes() == d,
            walk_chunks(d, pos0, st0, 0) == walk_chunks(d, reader.pos(), stream@, index),
        decreases d.len() - reader.pos(),
    {
        let ghost cur_pos = reader.pos();
        let ghost cur_st = stream@;
        let flag_word = match reader.le_u32() {
            Ok(n) => n,
            Err(_) => {
                return Err(ChunkError { index, kind: ChunkErrorKind::Flag });
            },
        };
        proof {
            lemma_chunk_flag_field_bounds(flag_word);
        }
        let chunk = match RawStreamChunk::from(flag_word).parse(index) {
            Ok(c) => c,
            Err(e) => {
                return Err(e);
            },
        };
        let start_position = reader.position();
        match chunk.kind {
            StreamChunkKind::Channels => {
                let b = match reader.u8() {
                    Ok(b) => b,
                    Err(_) => {
                        return Err(ChunkError { index, kind: ChunkErrorKind::ChannelCount });
                    },
                };
                if b == 0 {
                    return Err(ChunkError { index, kind: ChunkErrorKind::ZeroChannels });
                }
                stream.channels = b;
            },
            StreamChunkKind::SampleRate => {
                let v = match reader.le_u32() {
                    Ok(v) => v,
                    Err(_) => {
                        return Err(ChunkError { index, kind: ChunkErrorKind::SampleRate });
                    },
                };
                if v == 0 {
                    return Err(ChunkError { index, kind: ChunkErrorKind::ZeroSampleRate });
                }
                stream.sample_rate = v;
            },
            StreamChunkKind::Loop => {
                let start = match reader.le_u32() {
                    Ok(v) => v,
                    Err(_) => {
                        return Err(ChunkError { index, kind: ChunkErrorKind::LoopStart });
                    },
                };
                let end = match reader.le_u32() {
                    Ok(v) => v,
                    Err(_) => {
                        return Err(ChunkError { index, kind: ChunkErrorKind::LoopEnd });
                    },
                };
                let l = match Loop::parse(index, start, end) {
                    Ok(l) => l,
                    Err(e) => {
                        return Err(e);
                    },
                };
                stream.stream_loop = Some(l);
            },
            StreamChunkKind::DspCoefficients => {
                let channels = stream.channels;
                let ghost pstart = reader.pos();
                let mut dsp: Vec<i16> = Vec::new();
                let mut c: u8 = 0;
                while c < channels
                    invariant
                        reader.wf(),
                        reader.bytes() == d,
                        c <= channels,
                        reader.pos() == pstart + 46 * (c as int),
                        dsp@ == dsp_coeffs_model(d, pstart, c as nat),
                    decreases channels - c,
                {
                    let ghost cstart = reader.pos();
                    let mut coeff: i16 = 0;
                    let mut k: u8 = 0;
                    while k < 16
                        invariant
                            reader.wf(),
                            reader.bytes() == d,
                            k <= 16,
                            c < channels,
                            reader.pos() == cstart + 2 * (k as int),
                            coeff == dsp_sum16(d, cstart, k as nat),
                        decreases 16 - k,
                    {
                        let v = match reader.be_i16() {
                            Ok(v) => v,
                            Err(_) => {
                                return Err(
                                    ChunkError { index, kind: ChunkErrorKind::DspCoefficients },
                                );
                            },
                        };
                        coeff = coeff.wrapping_add(v);
                        k = k + 1;
                    }
                    match reader.skip(14) {
                        Ok(_) => {},
                        Err(_) => {
                            return Err(ChunkError { index, kind: ChunkErrorKind::DspCoefficients });
                        },
                    }
                    dsp.push(coeff);
                    proof {
                        assert(dsp@ =~= dsp_coeffs_model(d, pstart, (c + 1) as nat));
                    }
                    c = c + 1;
                }
                stream.dsp_coeffs = Some(dsp);
            },
            StreamChunkKind::VorbisIntraLayers => {
                let layers = match reader.le_u32() {
                    Ok(v) => v,
                    Err(_) => {
                        return Err(ChunkError { index, kind: ChunkErrorKind::VorbisLayerCount });
                    },
                };
                if layers > 0xFF {
                    return Err(
                        ChunkError {
                            index,
                            kind: ChunkErrorKind::TooManyVorbisLayers { layers },
                        },
                    );
                }
                let channels = stream.channels.wrapping_mul(layers as u8);
                if channels == 0 {
                    return Err(ChunkError { index, kind: ChunkErrorKind::ZeroVorbisLayers });
                }
                stream.channels = channels;
            },
            _ => {},
        }
        let end_position = reader.position();
        let target_wide = start_position as u128 + chunk.size as u128;
        let wrong_size = ChunkError {
            index,
            kind: ChunkErrorKind::WrongChunkSize {
                expected: chunk.size,
                actual: end_position - start_position,
            },
        };
        if target_wide > usize::MAX as u128 {
            return Err(wrong_size);
        }
        match reader.advance_to(target_wide as usize) {
            Ok(_) => {},
            Err(_) => {
                return Err(wrong_size);
            },
        }
        if !chunk.more_chunks {
            return Ok(());
        }
        index = index.wrapping_add(1);
    }
}

} // verus!
