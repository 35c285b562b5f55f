use fsb5::ChunkErrorKind;
use fsb5::Codec;
use fsb5::Header;
use fsb5::HeaderErrorKind;
use fsb5::Loop;
use fsb5::NameError;
use fsb5::NameErrorKind;
use fsb5::RawStreamChunk;
use fsb5::RawStreamHeader;
use fsb5::Reader;
use fsb5::StreamErrorKind;

fn container(version: u32, num_streams: u32, shs: u32, nts: u32, total: u32, codec: u32) -> Vec<u8> {
    let mut buf = Vec::new();
    buf.extend_from_slice(b"FSB5");
    buf.extend_from_slice(&version.to_le_bytes());
    buf.extend_from_slice(&num_streams.to_le_bytes());
    buf.extend_from_slice(&shs.to_le_bytes());
    buf.extend_from_slice(&nts.to_le_bytes());
    buf.extend_from_slice(&total.to_le_bytes());
    buf.extend_from_slice(&codec.to_le_bytes());
    let base = if version == 0 { 64 } else { 60 };
    while buf.len() < base {
        buf.push(0);
    }
    buf
}

fn stream_word(has_chunks: bool, rate: u64, chan: u64, offset: u64, samples: u64) -> u64 {
    (if has_chunks { 1 } else { 0 }) | (rate << 1) | (chan << 5) | (offset << 7) | (samples << 34)
}

fn chunk_flag(more: bool, size: u32, kind: u32) -> u32 {
    (if more { 1 } else { 0 }) | (size << 1) | (kind << 25)
}

fn parse(buf: &[u8]) -> Result<Header, fsb5::HeaderError> {
    let mut reader = Reader::new(buf);
    Header::parse(&mut reader)
}

/// A container with one stream whose chunk list is exactly `chunks`, and no
/// name table. The stream has rate code 8 (44100 Hz), channel code 1 (2
/// channels), data offset 0 and 10 samples.
fn one_stream_with_chunks(chunks: &[u8]) -> Vec<u8> {
    let shs = 8 + chunks.len() as u32;
    let mut buf = container(1, 1, shs, 0, 32, 1);
    buf.extend_from_slice(&stream_word(true, 8, 1, 0, 10).to_le_bytes());
    buf.extend_from_slice(chunks);
    buf
}

#[test]
fn parse_two_streams_with_chunks_and_names() {
    let mut buf = container(1, 2, 36, 16, 128, 15);
    buf.extend_from_slice(&stream_word(true, 9, 1, 0, 100).to_le_bytes());
    buf.extend_from_slice(&chunk_flag(true, 4, 2).to_le_bytes());
    buf.extend_from_slice(&22050u32.to_le_bytes());
    buf.extend_from_slice(&chunk_flag(false, 8, 3).to_le_bytes());
    buf.extend_from_slice(&10u32.to_le_bytes());
    buf.extend_from_slice(&110u32.to_le_bytes());
    buf.extend_from_slice(&stream_word(false, 8, 0, 2, 50).to_le_bytes());
    buf.extend_from_slice(&8u32.to_le_bytes());
    buf.extend_from_slice(&12u32.to_le_bytes());
    buf.extend_from_slice(b"one\0two\0");

    let header = parse(&buf).unwrap();
    assert_eq!(header.num_streams, 2);
    assert_eq!(header.codec, Codec::Vorbis);
    assert_eq!(header.stream_info.len(), 2);

    let s0 = &header.stream_info[0];
    assert_eq!(s0.sample_rate, 22050);
    assert_eq!(s0.channels, 2);
    assert_eq!(s0.num_samples, 100);
    assert_eq!(s0.stream_loop, Some(Loop { start: 10, len: 100 }));
    assert_eq!(s0.dsp_coeffs, None);
    assert_eq!(s0.size, 64);
    assert_eq!(s0.name.as_deref(), Some("one"));

    let s1 = &header.stream_info[1];
    assert_eq!(s1.sample_rate, 44100);
    assert_eq!(s1.channels, 1);
    assert_eq!(s1.num_samples, 50);
    assert_eq!(s1.stream_loop, None);
    assert_eq!(s1.size, 64);
    assert_eq!(s1.name.as_deref(), Some("two"));
}

#[test]
fn parse_version_zero_base_header() {
    let mut buf = container(0, 1, 8, 0, 32, 2);
    buf.extend_from_slice(&stream_word(false, 8, 0, 0, 10).to_le_bytes());
    let header = parse(&buf).unwrap();
    assert_eq!(header.codec, Codec::Pcm16);
    assert_eq!(header.stream_info[0].sample_rate, 44100);
    assert_eq!(header.stream_info[0].size, 32);
}

#[test]
fn empty_and_wrong_magic() {
    assert!(parse(b"").is_err_and(|e| e.kind() == HeaderErrorKind::Magic));
    assert!(parse(b"FSB4\x01\x00\x00\x00").is_err_and(|e| e.kind() == HeaderErrorKind::Magic));
}

#[test]
fn version_zero_with_zero_streams() {
    let data = b"FSB5\x00\x00\x00\x00\x00\x00\x00\x00";
    assert!(parse(data).is_err_and(|e| e.kind() == HeaderErrorKind::ZeroStreams));
}

#[test]
fn zero_total_stream_size() {
    let buf = container(1, 1, 8, 0, 0, 1);
    assert!(parse(&buf).is_err_and(|e| e.kind() == HeaderErrorKind::ZeroTotalStreamSize));
}

#[test]
fn codec_table_is_exact() {
    let codecs = [
        Codec::Pcm8,
        Codec::Pcm16,
        Codec::Pcm24,
        Codec::Pcm32,
        Codec::PcmFloat,
        Codec::GcAdpcm,
        Codec::ImaAdpcm,
        Codec::Vag,
        Codec::HeVag,
        Codec::Xma,
        Codec::Mpeg,
        Codec::Celt,
        Codec::Atrac9,
        Codec::Xwma,
        Codec::Vorbis,
        Codec::FAdpcm,
        Codec::Opus,
    ];
    for (i, codec) in codecs.iter().enumerate() {
        let code = i as u32 + 1;
        let mut buf = container(1, 1, 8, 0, 32, code);
        buf.extend_from_slice(&stream_word(false, 8, 0, 0, 10).to_le_bytes());
        let header = parse(&buf).unwrap();
        assert_eq!(header.codec, *codec);
    }
    for code in [0u32, 18, 255] {
        let buf = container(1, 1, 8, 0, 32, code);
        assert!(parse(&buf).is_err_and(|e| e.kind() == HeaderErrorKind::UnknownCodec { flag: code }));
    }
}

#[test]
fn sample_rate_table_is_exact() {
    let rates = [4000u32, 8000, 11000, 11025, 16000, 22050, 24000, 32000, 44100, 48000, 96000];
    for (code, rate) in rates.iter().enumerate() {
        let h = RawStreamHeader::from(stream_word(false, code as u64, 0, 0, 1)).parse(0).unwrap();
        assert_eq!(h.sample_rate, *rate);
    }
    for code in 11u64..=15 {
        let e = RawStreamHeader::from(stream_word(false, code, 0, 0, 1)).parse(3).unwrap_err();
        assert_eq!(e.index, 3);
        assert_eq!(e.kind, StreamErrorKind::UnknownSampleRate { flag: code as u8 });
    }
}

#[test]
fn channel_table_is_exact() {
    let channels = [1u8, 2, 6, 8];
    for (code, ch) in channels.iter().enumerate() {
        let h = RawStreamHeader::from(stream_word(false, 8, code as u64, 0, 1)).parse(0).unwrap();
        assert_eq!(h.channels, *ch);
    }
}

#[test]
fn zero_stream_size_carries_the_index() {
    let mut buf = container(1, 3, 24, 0, 64, 1);
    buf.extend_from_slice(&stream_word(false, 8, 0, 0, 10).to_le_bytes());
    buf.extend_from_slice(&stream_word(false, 8, 0, 1, 10).to_le_bytes());
    buf.extend_from_slice(&stream_word(false, 8, 0, 1, 10).to_le_bytes());
    assert!(parse(&buf).is_err_and(|e| e.kind() == HeaderErrorKind::ZeroStreamSize { index: 1 }));
}

#[test]
fn wrong_header_size_carries_both_positions() {
    let mut buf = container(1, 1, 4, 0, 32, 1);
    buf.extend_from_slice(&stream_word(false, 8, 0, 0, 10).to_le_bytes());
    assert!(parse(&buf).is_err_and(
        |e| e.kind() == HeaderErrorKind::WrongHeaderSize { expected: 64, actual: 68 }
    ));
}

#[test]
fn single_chunk_list_ends_after_one_chunk() {
    let mut chunks = Vec::new();
    chunks.extend_from_slice(&chunk_flag(false, 2, 4).to_le_bytes());
    chunks.extend_from_slice(b"hi");
    let mut buf = one_stream_with_chunks(&chunks);
    // Junk after the single chunk: it must not be walked.
    buf.extend_from_slice(&chunk_flag(true, 999, 99).to_le_bytes());
    let header = parse(&buf).unwrap();
    assert_eq!(header.stream_info[0].sample_rate, 44100);
    assert_eq!(header.stream_info[0].channels, 2);
}

#[test]
fn channels_chunk_overrides_and_rejects_zero() {
    let mut chunks = Vec::new();
    chunks.extend_from_slice(&chunk_flag(false, 1, 1).to_le_bytes());
    chunks.push(5);
    let header = parse(&one_stream_with_chunks(&chunks)).unwrap();
    assert_eq!(header.stream_info[0].channels, 5);

    let mut chunks = Vec::new();
    chunks.extend_from_slice(&chunk_flag(false, 1, 1).to_le_bytes());
    chunks.push(0);
    assert!(parse(&one_stream_with_chunks(&chunks))
        .is_err_and(|e| e.is_chunk_err_kind(ChunkErrorKind::ZeroChannels)));
}

#[test]
fn channels_chunk_truncated() {
    let chunks = chunk_flag(false, 1, 1).to_le_bytes();
    assert!(parse(&one_stream_with_chunks(&chunks))
        .is_err_and(|e| e.is_chunk_err_kind(ChunkErrorKind::ChannelCount)));
}

#[test]
fn sample_rate_chunk_overrides_and_rejects_zero() {
    let mut chunks = Vec::new();
    chunks.extend_from_slice(&chunk_flag(false, 4, 2).to_le_bytes());
    chunks.extend_from_slice(&96000u32.to_le_bytes());
    let header = parse(&one_stream_with_chunks(&chunks)).unwrap();
    assert_eq!(header.stream_info[0].sample_rate, 96000);

    let mut chunks = Vec::new();
    chunks.extend_from_slice(&chunk_flag(false, 4, 2).to_le_bytes());
    chunks.extend_from_slice(&0u32.to_le_bytes());
    assert!(parse(&one_stream_with_chunks(&chunks))
        .is_err_and(|e| e.is_chunk_err_kind(ChunkErrorKind::ZeroSampleRate)));
}

#[test]
fn sample_rate_chunk_truncated() {
    let mut chunks = Vec::new();
    chunks.extend_from_slice(&chunk_flag(false, 4, 2).to_le_bytes());
    chunks.extend_from_slice(&[0u8; 2]);
    assert!(parse(&one_stream_with_chunks(&chunks))
        .is_err_and(|e| e.is_chunk_err_kind(ChunkErrorKind::SampleRate)));
}

#[test]
fn loop_chunk_with_equal_ends_is_rejected() {
    let mut chunks = Vec::new();
    chunks.extend_from_slice(&chunk_flag(false, 8, 3).to_le_bytes());
    chunks.extend_from_slice(&7u32.to_le_bytes());
    chunks.extend_from_slice(&7u32.to_le_bytes());
    assert!(parse(&one_stream_with_chunks(&chunks))
        .is_err_and(|e| e.is_chunk_err_kind(ChunkErrorKind::ZeroLengthLoop)));
}

#[test]
fn loop_chunk_length_is_difference_modulo_wrap() {
    let mut chunks = Vec::new();
    chunks.extend_from_slice(&chunk_flag(false, 8, 3).to_le_bytes());
    chunks.extend_from_slice(&110u32.to_le_bytes());
    chunks.extend_from_slice(&10u32.to_le_bytes());
    let header = parse(&one_stream_with_chunks(&chunks)).unwrap();
    assert_eq!(
        header.stream_info[0].stream_loop,
        Some(Loop { start: 110, len: 10u32.wrapping_sub(110) })
    );
}

#[test]
fn loop_chunk_truncated_at_start_and_end() {
    let mut chunks = Vec::new();
    chunks.extend_from_slice(&chunk_flag(false, 8, 3).to_le_bytes());
    chunks.extend_from_slice(&[0u8; 2]);
    assert!(parse(&one_stream_with_chunks(&chunks))
        .is_err_and(|e| e.is_chunk_err_kind(ChunkErrorKind::LoopStart)));

    let mut chunks = Vec::new();
    chunks.extend_from_slice(&chunk_flag(false, 8, 3).to_le_bytes());
    chunks.extend_from_slice(&1u32.to_le_bytes());
    assert!(parse(&one_stream_with_chunks(&chunks))
        .is_err_and(|e| e.is_chunk_err_kind(ChunkErrorKind::LoopEnd)));
}

#[test]
fn dsp_coefficients_sum_per_channel() {
    let mut chunks = Vec::new();
    chunks.extend_from_slice(&chunk_flag(false, 92, 7).to_le_bytes());
    for _ in 0..16 {
        chunks.extend_from_slice(&[0x00, 0x01]);
    }
    chunks.extend_from_slice(&[0u8; 14]);
    for _ in 0..16 {
        chunks.extend_from_slice(&[0x01, 0x00]);
    }
    chunks.extend_from_slice(&[0u8; 14]);
    let header = parse(&one_stream_with_chunks(&chunks)).unwrap();
    let coeffs = header.stream_info[0].dsp_coeffs.as_ref().unwrap();
    assert_eq!(coeffs.as_slice(), &[16i16, 4096]);
}

#[test]
fn dsp_coefficients_truncated() {
    let mut chunks = Vec::new();
    chunks.extend_from_slice(&chunk_flag(false, 92, 7).to_le_bytes());
    chunks.extend_from_slice(&[0u8; 10]);
    assert!(parse(&one_stream_with_chunks(&chunks))
        .is_err_and(|e| e.is_chunk_err_kind(ChunkErrorKind::DspCoefficients)));
}

#[test]
fn vorbis_layers_multiply_channels() {
    let mut chunks = Vec::new();
    chunks.extend_from_slice(&chunk_flag(false, 4, 14).to_le_bytes());
    chunks.extend_from_slice(&3u32.to_le_bytes());
    let header = parse(&one_stream_with_chunks(&chunks)).unwrap();
    assert_eq!(header.stream_info[0].channels, 6);
}

#[test]
fn vorbis_layers_errors() {
    let mut chunks = Vec::new();
    chunks.extend_from_slice(&chunk_flag(false, 4, 14).to_le_bytes());
    chunks.extend_from_slice(&[0u8; 2]);
    assert!(parse(&one_stream_with_chunks(&chunks))
        .is_err_and(|e| e.is_chunk_err_kind(ChunkErrorKind::VorbisLayerCount)));

    let mut chunks = Vec::new();
    chunks.extend_from_slice(&chunk_flag(false, 4, 14).to_le_bytes());
    chunks.extend_from_slice(&256u32.to_le_bytes());
    assert!(parse(&one_stream_with_chunks(&chunks))
        .is_err_and(|e| e.is_chunk_err_kind(ChunkErrorKind::TooManyVorbisLayers { layers: 256 })));

    let mut chunks = Vec::new();
    chunks.extend_from_slice(&chunk_flag(false, 4, 14).to_le_bytes());
    chunks.extend_from_slice(&0u32.to_le_bytes());
    assert!(parse(&one_stream_with_chunks(&chunks))
        .is_err_and(|e| e.is_chunk_err_kind(ChunkErrorKind::ZeroVorbisLayers)));

    // Two channels times 128 layers overflows the 8-bit channel count to 0.
    let mut chunks = Vec::new();
    chunks.extend_from_slice(&chunk_flag(false, 4, 14).to_le_bytes());
    chunks.extend_from_slice(&128u32.to_le_bytes());
    assert!(parse(&one_stream_with_chunks(&chunks))
        .is_err_and(|e| e.is_chunk_err_kind(ChunkErrorKind::ZeroVorbisLayers)));
}

#[test]
fn wrong_chunk_size_carries_declared_and_measured() {
    let mut chunks = Vec::new();
    chunks.extend_from_slice(&chunk_flag(false, 3, 2).to_le_bytes());
    chunks.extend_from_slice(&22050u32.to_le_bytes());
    assert!(parse(&one_stream_with_chunks(&chunks)).is_err_and(
        |e| e.is_chunk_err_kind(ChunkErrorKind::WrongChunkSize { expected: 3, actual: 4 })
    ));
}

#[test]
fn name_offset_truncated() {
    let mut buf = container(1, 1, 8, 4, 32, 1);
    buf.extend_from_slice(&stream_word(false, 8, 0, 0, 10).to_le_bytes());
    buf.extend_from_slice(&[0u8; 2]);
    assert!(parse(&buf).is_err_and(|e| e.kind() == HeaderErrorKind::Name {
        error: NameError { index: 0, kind: NameErrorKind::NameOffset },
    }));
}

fn named_container(nts: u32, offset0: u32, blob: &[u8]) -> Vec<u8> {
    let mut buf = container(1, 1, 8, nts, 32, 1);
    buf.extend_from_slice(&stream_word(false, 8, 0, 0, 10).to_le_bytes());
    buf.extend_from_slice(&offset0.to_le_bytes());
    buf.extend_from_slice(blob);
    buf
}

#[test]
fn name_span_truncated() {
    let buf = named_container(8, 4, b"ab");
    assert!(parse(&buf).is_err_and(|e| e.kind() == HeaderErrorKind::Name {
        error: NameError { index: 0, kind: NameErrorKind::Name },
    }));
}

#[test]
fn name_without_nul_terminator() {
    let buf = named_container(8, 4, b"abcd");
    assert!(parse(&buf).is_err_and(|e| e.kind() == HeaderErrorKind::Name {
        error: NameError { index: 0, kind: NameErrorKind::Cstr },
    }));
}

#[test]
fn name_with_interior_nul() {
    let buf = named_container(8, 4, b"a\0b\0");
    assert!(parse(&buf).is_err_and(|e| e.kind() == HeaderErrorKind::Name {
        error: NameError { index: 0, kind: NameErrorKind::Cstr },
    }));
}

#[test]
fn name_with_invalid_utf8() {
    let buf = named_container(7, 4, &[0xFF, 0xFE, 0x00]);
    assert!(parse(&buf).is_err_and(|e| e.kind() == HeaderErrorKind::Name {
        error: NameError { index: 0, kind: NameErrorKind::Utf8 },
    }));
}

#[test]
fn name_with_multibyte_utf8() {
    let buf = named_container(10, 4, "caf\u{e9}\0".as_bytes());
    let header = parse(&buf).unwrap();
    assert_eq!(header.stream_info[0].name.as_deref(), Some("caf\u{e9}"));
}

#[test]
fn chunk_flag_fields_round_trip() {
    let flag = chunk_flag(true, 0xABCDE, 13);
    let raw = RawStreamChunk::from(flag);
    assert!(raw.more_chunks());
    assert_eq!(raw.size(), 0xABCDE);
    assert_eq!(raw.kind(), 13);

    let word = stream_word(true, 10, 3, 0x7FF_FFFF, 0x3FFF_FFFE);
    let raw = RawStreamHeader::from(word);
    assert!(raw.has_chunks());
    assert_eq!(raw.sample_rate(), 10);
    assert_eq!(raw.channels(), 3);
    assert_eq!(raw.data_offset(), 0x7FF_FFFF);
    assert_eq!(raw.num_samples(), 0x3FFF_FFFE);
}
