//! Stage-scoped error taxonomy: one error family per parsing stage, with the
//! lower stages' errors lifted into the enclosing stage's kind so that one
//! top-level `HeaderError` reaches the caller.

use vstd::prelude::*;

verus! {

/// Errors raised while decoding one metadata chunk, scoped to the 0-based
/// index of that chunk within its stream's chunk list.
#[derive(Clone, Copy, Debug, PartialEq, Eq, Structural)]
pub enum ChunkErrorKind {
    /// The 32-bit chunk flag word could not be read.
    Flag,
    /// The channel-count override byte could not be read.
    ChannelCount,
    /// The channel-count override was zero.
    ZeroChannels,
    /// The sample-rate override word could not be read.
    SampleRate,
    /// The sample-rate override was zero.
    ZeroSampleRate,
    /// The loop start word could not be read.
    LoopStart,
    /// The loop end word could not be read.
    LoopEnd,
    /// The loop had zero length (start == end).
    ZeroLengthLoop,
    /// A DSP coefficient value or its padding could not be read.
    DspCoefficients,
    /// The Vorbis layer-count word could not be read.
    VorbisLayerCount,
    /// The Vorbis layer count did not fit in 8 bits.
    TooManyVorbisLayers { layers: u32 },
    /// Multiplying the channel count by the layer count gave zero.
    ZeroVorbisLayers,
    /// The chunk kind code is not a known chunk type.
    UnknownType { flag: u8 },
    /// After the payload, the cursor could not land exactly at the declared
    /// chunk size: `expected` is the declared payload size, `actual` the
    /// bytes the payload reads actually consumed.
    WrongChunkSize { expected: u32, actual: usize },
}

/// A chunk-level error together with the chunk's index in its stream's list.
#[derive(Clone, Copy, Debug, PartialEq, Eq, Structural)]
pub struct ChunkError {
    pub index: u32,
    pub kind: ChunkErrorKind,
}

/// Errors raised while decoding one stream's bitfield header or chunk list,
/// scoped to the stream's declaration index.
#[derive(Clone, Copy, Debug, PartialEq, Eq, Structural)]
pub enum StreamErrorKind {
    /// The 64-bit stream bitfield word could not be read.
    StreamInfo,
    /// The 4-bit sample-rate code is not in the rate table.
    UnknownSampleRate { flag: u8 },
    /// The stream's sample count was zero.
    ZeroSamples,
    /// A chunk of this stream's chunk list failed to decode.
    Chunk { error: ChunkError },
}

/// A stream-level error together with the stream's declaration index.
#[derive(Clone, Copy, Debug, PartialEq, Eq, Structural)]
pub struct StreamError {
    pub index: u32,
    pub kind: StreamErrorKind,
}

/// Errors raised while resolving stream names, scoped to the stream index.
#[derive(Clone, Copy, Debug, PartialEq, Eq, Structural)]
pub enum NameErrorKind {
    /// A name-offset table entry could not be read.
    NameOffset,
    /// The name's byte span could not be read.
    Name,
    /// The name bytes were not a single NUL-terminated string.
    Cstr,
    /// The name bytes were not valid UTF-8.
    Utf8,
}

/// A name-level error together with the stream's index.
#[derive(Clone, Copy, Debug, PartialEq, Eq, Structural)]
pub struct NameError {
    pub index: u32,
    pub kind: NameErrorKind,
}

/// The top-level error kind: one variant per container-header failure, plus
/// the lifted stream-level and name-level errors.
#[derive(Clone, Copy, Debug, PartialEq, Eq, Structural)]
pub enum HeaderErrorKind {
    /// The input does not begin with the 4-byte magic `FSB5`.
    Magic,
    /// The version word could not be read.
    Version,
    /// The version code is neither 0 nor 1.
    UnknownVersion { version: u32 },
    /// The stream-count word could not be read.
    StreamCount,
    /// The stream count was zero.
    ZeroStreams,
    /// The stream-header-table size word could not be read.
    StreamHeadersSize,
    /// The name-table size word could not be read.
    NameTableSize,
    /// The total stream-data size word could not be read.
    TotalStreamSize,
    /// The total stream-data size was zero.
    ZeroTotalStreamSize,
    /// The codec word could not be read.
    Codec,
    /// The codec code is not a known codec.
    UnknownCodec { flag: u32 },
    /// The reserved metadata up to the base header size could not be skipped.
    Metadata,
    /// The cursor could not land exactly at base header size plus the
    /// declared stream-header-table size.
    WrongHeaderSize { expected: u64, actual: u64 },
    /// A stream's derived data size (next offset minus its own) was zero.
    ZeroStreamSize { index: u32 },
    /// A stream-level failure, carrying the stream's index.
    Stream { error: StreamError },
    /// A name-level failure, carrying the stream's index.
    Name { error: NameError },
}

/// The error returned from a failed header parse.
#[derive(Clone, Copy, Debug, PartialEq, Eq, Structural)]
pub struct HeaderError {
    pub kind: HeaderErrorKind,
}

impl HeaderError {
    pub fn new(kind: HeaderErrorKind) -> (r: Self)
        ensures
            r == (HeaderError { kind }),
    {
        HeaderError { kind }
    }

    pub fn kind(&self) -> (k: HeaderErrorKind)
        ensures
            k == self.kind,
    {
        self.kind
    }

    /// Whether this error is a stream-level error of the given kind.
    pub fn is_stream_err_kind(&self, kind: StreamErrorKind) -> (r: bool)
        ensures
            r == (match self.kind {
                HeaderErrorKind::Stream { error } => error.kind == kind,
                _ => false,
            }),
    {
        match &self.kind {
            HeaderErrorKind::Stream { error } => error.kind == kind,
            _ => false,
        }
    }

    /// Whether this error is a chunk-level error of the given kind, nested
    /// under a stream-level error.
    pub fn is_chunk_err_kind(&self, kind: ChunkErrorKind) -> (r: bool)
        ensures
            r == (match self.kind {
                HeaderErrorKind::Stream { error } => match error.kind {
                    StreamErrorKind::Chunk { error: chunk_error } => chunk_error.kind == kind,
                    _ => false,
                },
                _ => false,
            }),
    {
        match &self.kind {
            HeaderErrorKind::Stream { error } => match &error.kind {
                StreamErrorKind::Chunk { error: chunk_error } => chunk_error.kind == kind,
                _ => false,
            },
            _ => false,
        }
    }
}

/// A top-level error with the given header-level kind.
pub open spec fn header_err(kind: HeaderErrorKind) -> HeaderError {
    HeaderError { kind }
}

/// A stream-level error lifted to the top level.
pub open spec fn stream_err(index: u32, kind: StreamErrorKind) -> HeaderError {
    HeaderError { kind: HeaderErrorKind::Stream { error: StreamError { index, kind } } }
}

/// A chunk-level error lifted to the top level under its stream's index.
pub open spec fn chunk_stream_err(stream_index: u32, error: ChunkError) -> HeaderError {
    stream_err(stream_index, StreamErrorKind::Chunk { error })
}

/// A name-level error lifted to the top level.
pub open spec fn name_err(index: u32, kind: NameErrorKind) -> HeaderError {
    HeaderError { kind: HeaderErrorKind::Name { error: NameError { index, kind } } }
}

} // verus!
