//! Closed tagged enumerations of the format with their fallible numeric
//! decoders: container version, codec, chunk kind, and the sample-rate and
//! channel-count code tables of the stream bitfield header.

use vstd::prelude::*;
use crate::error::HeaderError;
use crate::error::HeaderErrorKind;

verus! {

/// Container version; determines the base header size (64 bytes for `V0`,
/// 60 bytes for `V1`).
#[derive(Clone, Copy, Debug, PartialEq, Eq, Structural)]
pub enum Version {
    V0,
    V1,
}

/// The container-wide codec, over the 17 known numeric codes 1 through 17.
#[derive(Clone, Copy, Debug, PartialEq, Eq, Structural)]
pub enum Codec {
    Pcm8,
    Pcm16,
    Pcm24,
    Pcm32,
    PcmFloat,
    GcAdpcm,
    ImaAdpcm,
    Vag,
    HeVag,
    Xma,
    Mpeg,
    Celt,
    Atrac9,
    Xwma,
    Vorbis,
    FAdpcm,
    Opus,
}

/// The 12 known chunk kinds of the per-stream chunk list.
#[derive(Clone, Copy, Debug, PartialEq, Eq, Structural)]
pub enum StreamChunkKind {
    Channels,
    SampleRate,
    Loop,
    Comment,
    XmaSeekTable,
    DspCoefficients,
    Atrac9Config,
    XwmaConfig,
    VorbisSeekTable,
    PeakVolume,
    VorbisIntraLayers,
    OpusDataSize,
}

/// What decoding a version code yields: code 0 is `V0`, code 1 is `V1`, and
/// every other code is an `UnknownVersion` error carrying the code.
pub open spec fn version_try_from(value: u32) -> Result<Version, HeaderError> {
    if value == 0 {
        Ok(Version::V0)
    } else if value == 1 {
        Ok(Version::V1)
    } else {
        Err(HeaderError { kind: HeaderErrorKind::UnknownVersion { version: value } })
    }
}

/// What decoding a codec code yields: the codes 1 through 17 in order, and an
/// `UnknownCodec` error carrying every other code.
pub open spec fn codec_try_from(value: u32) -> Result<Codec, HeaderError> {
    match codec_of(value) {
        Some(codec) => Ok(codec),
        None => Err(HeaderError { kind: HeaderErrorKind::UnknownCodec { flag: value } }),
    }
}

/// The codec code table: codes 1 through 17, every other code unknown.
pub open spec fn codec_of(value: u32) -> Option<Codec> {
    match value {
        1 => Some(Codec::Pcm8),
        2 => Some(Codec::Pcm16),
        3 => Some(Codec::Pcm24),
        4 => Some(Codec::Pcm32),
        5 => Some(Codec::PcmFloat),
        6 => Some(Codec::GcAdpcm),
        7 => Some(Codec::ImaAdpcm),
        8 => Some(Codec::Vag),
        9 => Some(Codec::HeVag),
        10 => Some(Codec::Xma),
        11 => Some(Codec::Mpeg),
        12 => Some(Codec::Celt),
        13 => Some(Codec::Atrac9),
        14 => Some(Codec::Xwma),
        15 => Some(Codec::Vorbis),
        16 => Some(Codec::FAdpcm),
        17 => Some(Codec::Opus),
        _ => None,
    }
}

/// The chunk kind code table: the 12 known codes, every other code unknown.
pub open spec fn chunk_kind_of(code: u8) -> Option<StreamChunkKind> {
    match code {
        1 => Some(StreamChunkKind::Channels),
        2 => Some(StreamChunkKind::SampleRate),
        3 => Some(StreamChunkKind::Loop),
        4 => Some(StreamChunkKind::Comment),
        6 => Some(StreamChunkKind::XmaSeekTable),
        7 => Some(StreamChunkKind::DspCoefficients),
        9 => Some(StreamChunkKind::Atrac9Config),
        10 => Some(StreamChunkKind::XwmaConfig),
        11 => Some(StreamChunkKind::VorbisSeekTable),
        13 => Some(StreamChunkKind::PeakVolume),
        14 => Some(StreamChunkKind::VorbisIntraLayers),
        15 => Some(StreamChunkKind::OpusDataSize),
        _ => None,
    }
}

/// The sample-rate code table of the stream bitfield header: codes 0 through
/// 10 map to fixed rates in hertz, every other code is unknown.
pub open spec fn sample_rate_of(code: u8) -> Option<u32> {
    match code {
        0 => Some(4000u32),
        1 => Some(8000u32),
        2 => Some(11000u32),
        3 => Some(11025u32),
        4 => Some(16000u32),
        5 => Some(22050u32),
        6 => Some(24000u32),
        7 => Some(32000u32),
        8 => Some(44100u32),
        9 => Some(48000u32),
        10 => Some(96000u32),
        _ => None,
    }
}

/// The channel code table of the stream bitfield header: the 2-bit codes 0
/// through 3 map to 1, 2, 6 and 8 channels. Codes above 3 cannot be encoded
/// in the field; the table is total regardless and repeats 8 for them.
pub open spec fn channels_of(code: u8) -> u8 {
    if code == 0 {
        1u8
    } else if code == 1 {
        2u8
    } else if code == 2 {
        6u8
    } else {
        8u8
    }
}

impl Version {
    /// Decodes a version code, rejecting every code other than 0 and 1.
    pub fn try_from(value: u32) -> (r: Result<Version, HeaderError>)
        ensures
            r == version_try_from(value),
    {
        match value {
            0 => Ok(Version::V0),
            1 => Ok(Version::V1),
            version => Err(
                HeaderError { kind: HeaderErrorKind::UnknownVersion { version } },
            ),
        }
    }
}

impl Codec {
    /// Decodes a codec code, rejecting every code outside 1 through 17.
    pub fn try_from(value: u32) -> (r: Result<Codec, HeaderError>)
        ensures
            r == codec_try_from(value),
    {
        match value {
            1 => Ok(Codec::Pcm8),
            2 => Ok(Codec::Pcm16),
            3 => Ok(Codec::Pcm24),
            4 => Ok(Codec::Pcm32),
            5 => Ok(Codec::PcmFloat),
            6 => Ok(Codec::GcAdpcm),
            7 => Ok(Codec::ImaAdpcm),
            8 => Ok(Codec::Vag),
            9 => Ok(Codec::HeVag),
            10 => Ok(Codec::Xma),
            11 => Ok(Codec::Mpeg),
            12 => Ok(Codec::Celt),
            13 => Ok(Codec::Atrac9),
            14 => Ok(Codec::Xwma),
            15 => Ok(Codec::Vorbis),
            16 => Ok(Codec::FAdpcm),
            17 => Ok(Codec::Opus),
            flag => Err(HeaderError { kind: HeaderErrorKind::UnknownCodec { flag } }),
        }
    }
}

/// The sample-rate table is exhaustive and exact: each code 0 through 10
/// maps to its fixed rate, and every code above 10 is unknown.
pub proof fn lemma_sample_rate_table()
    ensures
        sample_rate_of(0) == Some(4000u32),
        sample_rate_of(1) == Some(8000u32),
        sample_rate_of(2) == Some(11000u32),
        sample_rate_of(3) == Some(11025u32),
        sample_rate_of(4) == Some(16000u32),
        sample_rate_of(5) == Some(22050u32),
        sample_rate_of(6) == Some(24000u32),
        sample_rate_of(7) == Some(32000u32),
        sample_rate_of(8) == Some(44100u32),
        sample_rate_of(9) == Some(48000u32),
        sample_rate_of(10) == Some(96000u32),
        forall|code: u8| code > 10 ==> sample_rate_of(code) is None,
{
}

/// The channel code table is exhaustive and exact over the 2-bit field:
/// codes 0 through 3 map to 1, 2, 6 and 8 channels.
pub proof fn lemma_channel_table()
    ensures
        channels_of(0) == 1u8,
        channels_of(1) == 2u8,
        channels_of(2) == 6u8,
        channels_of(3) == 8u8,
        forall|code: u8| channels_of(code) != 0,
{
}

} // verus!
