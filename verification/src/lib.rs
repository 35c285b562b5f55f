//! Parser for the header of an FSB5 audio container: the top-level container
//! header, the per-stream packed bitfield headers, the extensible per-stream
//! chunk lists, and the optional stream-name table.
//!
//! Parsing is single-pass and forward-only over an in-memory byte cursor.
//! Every stage is specified against a mathematical model of the byte layout
//! (`model`), and any truncation or corruption is reported with a
//! stage-specific error.

pub mod bits;
pub mod chunks;
pub mod enums;
pub mod error;
pub mod header;
pub mod model;
pub mod names;
pub mod reader;

pub use enums::Codec;
pub use enums::StreamChunkKind;
pub use enums::Version;
pub use chunks::RawStreamChunk;
pub use chunks::StreamChunk;
pub use error::ChunkError;
pub use error::ChunkErrorKind;
pub use error::HeaderError;
pub use error::HeaderErrorKind;
pub use error::NameError;
pub use error::NameErrorKind;
pub use error::StreamError;
pub use error::StreamErrorKind;
pub use header::Header;
pub use header::Loop;
pub use header::RawStreamHeader;
pub use header::StreamHeader;
pub use header::StreamInfo;
pub use reader::ReadError;
pub use reader::Reader;
