use lzzzz::lz4f;
use lzzzz::lz4f::{
    compress_bound, frame_preferences, header_size, max_compressed_size, message_code,
    optimal_block_size, result_from_code, AutoFlush, BlockChecksum, BlockMode, BlockSize,
    CompressionContext, CompressionLevel, Compressor, CompressorBuilder, ContentChecksum,
    DecompressStep, Decompressor, DecompressorBuilder, Dictionary, Error, ErrorKind,
    FavorDecSpeed, FrameInfo, FrameType, LZ4Buffer, OutputQueue, Preferences,
    PreferencesBuilder, RequestDecision, State, WriterRequest, WriterState, WriterStep,
};
use lzzzz::{Report, DEFAULT_BUF_SIZE};

const MAGIC: [u8; 4] = [0x04, 0x22, 0x4D, 0x18];

fn frame_of(data: &[u8], prefs: &Preferences) -> Vec<u8> {
    let mut out = Vec::new();
    lz4f::compress_to_vec(data, &mut out, prefs).unwrap();
    out
}

fn decompressed(frame: &[u8]) -> Vec<u8> {
    let mut out = Vec::new();
    lz4f::decompress_to_vec(frame, &mut out).unwrap();
    out
}

const ALL_KINDS: [ErrorKind; 19] = [
    ErrorKind::Generic,
    ErrorKind::MaxBlockSizeInvalid,
    ErrorKind::BlockModeInvalid,
    ErrorKind::ContentChecksumFlagInvalid,
    ErrorKind::CompressionLevelInvalid,
    ErrorKind::HeaderVersionWrong,
    ErrorKind::BlockChecksumInvalid,
    ErrorKind::ReservedFlagSet,
    ErrorKind::AllocationFailed,
    ErrorKind::SrcSizeTooLarge,
    ErrorKind::DstMaxSizeTooSmall,
    ErrorKind::FrameHeaderIncomplete,
    ErrorKind::FrameTypeUnknown,
    ErrorKind::FrameSizeWrong,
    ErrorKind::SrcPtrWrong,
    ErrorKind::DecompressionFailed,
    ErrorKind::HeaderChecksumInvalid,
    ErrorKind::ContentChecksumInvalid,
    ErrorKind::FrameDecodingAlreadyStarted,
];

#[test]
fn header_size_of_each_header_form() {
    assert_eq!(header_size(&[MAGIC[0], MAGIC[1], MAGIC[2], MAGIC[3], 0x60]), Ok(7));
    assert_eq!(header_size(&[MAGIC[0], MAGIC[1], MAGIC[2], MAGIC[3], 0x68]), Ok(15));
    assert_eq!(header_size(&[MAGIC[0], MAGIC[1], MAGIC[2], MAGIC[3], 0x61]), Ok(11));
    assert_eq!(header_size(&[MAGIC[0], MAGIC[1], MAGIC[2], MAGIC[3], 0x69, 0, 0]), Ok(19));
    assert_eq!(header_size(&[0x5A, 0x2A, 0x4D, 0x18, 0x00]), Ok(8));
    assert_eq!(
        header_size(&[0x00, 0x22, 0x4D, 0x18, 0x60]),
        Err(Error::Lz4f(ErrorKind::FrameTypeUnknown))
    );
    assert_eq!(header_size(&MAGIC), Err(Error::Lz4f(ErrorKind::FrameHeaderIncomplete)));
}

#[test]
fn header_size_of_written_frames() {
    let frame = frame_of(b"hello", &Preferences::default());
    assert_eq!(header_size(&frame), Ok(7));
    let with_size = PreferencesBuilder::new().build();
    let mut prefs = with_size;
    prefs.frame_info.content_size = 1;
    let frame = frame_of(b"hello", &prefs);
    assert_eq!(header_size(&frame), Ok(15));
}

#[test]
fn compress_bounds_exact_values() {
    let default = Preferences::default();
    assert_eq!(compress_bound(0, &default), 65543);
    assert_eq!(compress_bound(10, &default), 65544);
    assert_eq!(max_compressed_size(0, &default), 23);
    assert_eq!(max_compressed_size(100, &default), 127);
    let checked = PreferencesBuilder::new()
        .content_checksum(ContentChecksum::Enabled)
        .block_checksum(BlockChecksum::Enabled)
        .build();
    assert_eq!(max_compressed_size(100, &checked), 135);
    let flushing = PreferencesBuilder::new().auto_flush(AutoFlush::Enabled).build();
    assert_eq!(compress_bound(100, &flushing), 108);
    assert_eq!(CompressionContext::compress_bound(100, &flushing), 108);
}

#[test]
fn optimal_block_size_picks_smallest_that_holds() {
    assert_eq!(optimal_block_size(BlockSize::Default, 1 << 30), BlockSize::Default);
    assert_eq!(optimal_block_size(BlockSize::Max64KB, 1 << 30), BlockSize::Max64KB);
    assert_eq!(optimal_block_size(BlockSize::Max4MB, 100), BlockSize::Max64KB);
    assert_eq!(optimal_block_size(BlockSize::Max4MB, 0x10001), BlockSize::Max256KB);
    assert_eq!(optimal_block_size(BlockSize::Max4MB, 0x40001), BlockSize::Max1MB);
    assert_eq!(optimal_block_size(BlockSize::Max4MB, 0x100001), BlockSize::Max4MB);
    assert_eq!(optimal_block_size(BlockSize::Max256KB, 0x100001), BlockSize::Max256KB);
}

#[test]
fn frame_preferences_of_one_shot_frames() {
    let mut prefs = PreferencesBuilder::new().block_size(BlockSize::Max4MB).build();
    prefs.frame_info.content_size = 7;
    let p = frame_preferences(100, &prefs);
    assert_eq!(p.frame_info.content_size, 100);
    assert_eq!(p.frame_info.block_size, BlockSize::Max64KB);
    assert_eq!(p.frame_info.block_mode, BlockMode::Independent);
    assert_eq!(p.auto_flush, AutoFlush::Enabled);
    let p = frame_preferences(1 << 20, &Preferences::default());
    assert_eq!(p.frame_info.content_size, 0);
    assert_eq!(p.frame_info.block_mode, BlockMode::Linked);
}

#[test]
fn error_codes_round_trip() {
    for (i, kind) in ALL_KINDS.iter().enumerate() {
        assert_eq!(kind.code(), i + 1);
        assert_eq!(ErrorKind::from_code(kind.code()), *kind);
        assert_eq!(result_from_code(usize::MAX - kind.code() + 1), Err(Error::Lz4f(*kind)));
    }
    assert_eq!(ErrorKind::from_code(23), ErrorKind::Generic);
    assert_eq!(result_from_code(5), Ok(5));
    assert_eq!(result_from_code(usize::MAX - 23), Ok(usize::MAX - 23));
    assert_eq!(Error::new(ErrorKind::SrcPtrWrong), Error::Lz4f(ErrorKind::SrcPtrWrong));
    assert_eq!(
        Error::common(lzzzz::ErrorKind::FrameHeaderInvalid),
        Error::Common(lzzzz::ErrorKind::FrameHeaderInvalid)
    );
}

#[test]
fn error_messages_map_to_kinds() {
    assert_eq!(message_code(&"LZ4 error: ERROR_frameType_unknown".to_string()), 13);
    assert_eq!(message_code(&"LZ4 error: ERROR_dstMaxSize_tooSmall".to_string()), 11);
    assert_eq!(message_code(&"LZ4 error: ERROR_io_read".to_string()), 23);
    assert_eq!(message_code(&"something else".to_string()), 1);
    assert_eq!(
        Error::from_message(&"LZ4 error: ERROR_contentChecksum_invalid".to_string()),
        Error::Lz4f(ErrorKind::ContentChecksumInvalid)
    );
    assert_eq!(
        Error::from_message(&"LZ4 error: ERROR_parameter_null".to_string()),
        Error::Lz4f(ErrorKind::Generic)
    );
}

#[test]
fn compress_into_exact_and_short_destination() {
    let src = b"The quick brown fox jumps over the lazy dog.".repeat(20);
    let prefs = Preferences::default();
    let bound = max_compressed_size(src.len(), &frame_preferences(src.len(), &prefs));
    let mut dst = vec![0xAAu8; bound];
    let rep = lz4f::compress(&src, &mut dst, &prefs).unwrap();
    assert!(rep.dst_len() < src.len());
    assert!(dst[rep.dst_len()..].iter().all(|b| *b == 0xAA));
    assert_eq!(decompressed(&dst[..rep.dst_len()]), src);
    let mut short = vec![0xAAu8; bound - 1];
    assert_eq!(
        lz4f::compress(&src, &mut short, &prefs),
        Err(Error::Lz4f(ErrorKind::DstMaxSizeTooSmall))
    );
    assert!(short.iter().all(|b| *b == 0xAA));
}

#[test]
fn empty_input_round_trips() {
    let frame = frame_of(b"", &Preferences::default());
    assert!(frame.len() >= 7);
    assert_eq!(decompressed(&frame), Vec::<u8>::new());
}

#[test]
fn empty_or_cut_source_is_incomplete() {
    let mut out = b"keep".to_vec();
    assert_eq!(
        lz4f::decompress_to_vec(&[], &mut out),
        Err(Error::Common(lzzzz::ErrorKind::CompressedDataIncomplete))
    );
    assert_eq!(out, b"keep".to_vec());
    let frame = frame_of(b"hello hello hello", &Preferences::default());
    assert_eq!(
        lz4f::decompress_to_vec(&frame[..3], &mut out),
        Err(Error::Common(lzzzz::ErrorKind::CompressedDataIncomplete))
    );
    assert_eq!(out, b"keep".to_vec());
}

#[test]
fn corrupted_content_checksum_is_reported() {
    let prefs = PreferencesBuilder::new().content_checksum(ContentChecksum::Enabled).build();
    let mut frame = frame_of(b"checksummed content", &prefs);
    let last = frame.len() - 1;
    frame[last] ^= 0xFF;
    let mut out = Vec::new();
    assert_eq!(
        lz4f::decompress_to_vec(&frame, &mut out),
        Err(Error::Lz4f(ErrorKind::ContentChecksumInvalid))
    );
    assert!(out.is_empty());
}

#[test]
fn report_accessors() {
    let rep = Report::with_dst_len(5);
    assert_eq!(rep.dst_len(), 5);
    assert_eq!(rep.src_len(), None);
    assert_eq!(rep.expected_src_len(), None);
    assert_eq!(Report::default().dst_len(), 0);
}

#[test]
fn compression_context_streams_one_frame() {
    let mut ctx = CompressionContext::new(None).unwrap();
    let mut out = Vec::new();
    assert_eq!(ctx.update(&mut out, b"abc", false), Err(Error::Lz4f(ErrorKind::Generic)));
    assert_eq!(ctx.flush(&mut out, false), Ok(0));
    assert_eq!(ctx.end(&mut out, false), Err(Error::Lz4f(ErrorKind::Generic)));
    assert!(out.is_empty());
    let prefs = Preferences::default();
    let h = ctx.begin(&mut out, &prefs).unwrap();
    assert_eq!(h, out.len());
    let a = ctx.update(&mut out, b"hello, ", false).unwrap();
    let f = ctx.flush(&mut out, false).unwrap();
    let b = ctx.update(&mut out, b"world", true).unwrap();
    let e = ctx.end(&mut out, false).unwrap();
    assert_eq!(h + a + f + b + e, out.len());
    assert_eq!(decompressed(&out), b"hello, world".to_vec());
}

#[test]
fn compression_context_with_dictionary() {
    let dict = Dictionary::new(b"dictionary bytes").unwrap();
    let mut ctx = CompressionContext::new(Some(dict.clone())).unwrap();
    let mut out = Vec::new();
    ctx.begin(&mut out, &Preferences::default()).unwrap();
    ctx.update(&mut out, b"dictionary bytes and more", false).unwrap();
    ctx.end(&mut out, false).unwrap();
    assert_eq!(decompressed(&out), b"dictionary bytes and more".to_vec());
}

#[test]
fn compressor_read_steps_give_one_frame() {
    let data = b"streaming compression of a few pieces; ".repeat(50);
    let mut comp = Compressor::new(Preferences::default(), None).unwrap();
    let mut frame = Vec::new();
    let mut dst = [0u8; 7];
    for piece in data.chunks(100) {
        let n = comp.read_step(piece, &mut dst).unwrap();
        frame.extend_from_slice(&dst[..n]);
        loop {
            let n = comp.read_buf(&mut dst);
            if n == 0 {
                break;
            }
            frame.extend_from_slice(&dst[..n]);
        }
    }
    loop {
        let n = comp.read_step(&[], &mut dst).unwrap();
        if n == 0 {
            break;
        }
        frame.extend_from_slice(&dst[..n]);
    }
    assert_eq!(decompressed(&frame), data);
    assert!(comp.pending_slice().is_empty());
}

#[test]
fn compressor_buffer_holds_what_was_produced() {
    let mut comp = Compressor::new(Preferences::default(), None).unwrap();
    comp.update(b"first ", false).unwrap();
    comp.flush(false).unwrap();
    let mut frame = comp.buf().to_vec();
    comp.clear_buf();
    assert!(comp.buf().is_empty());
    comp.update(b"second", false).unwrap();
    comp.end(false).unwrap();
    assert_eq!(comp.end(false), Ok(()));
    assert_eq!(comp.update(b"late", false), Err(Error::Lz4f(ErrorKind::Generic)));
    frame.extend_from_slice(comp.buf());
    assert_eq!(decompressed(&frame), b"first second".to_vec());
    assert_eq!(*comp.prefs(), Preferences::default());
    let _ = State::Finished;
}

#[test]
fn compressor_consume_hands_out_in_order() {
    let mut comp = Compressor::new(Preferences::default(), None).unwrap();
    comp.update(b"abcabcabcabc", false).unwrap();
    comp.end(false).unwrap();
    let all = comp.buf().to_vec();
    let first = comp.pending_slice()[..3].to_vec();
    comp.consume(3);
    let rest = comp.pending_slice().to_vec();
    assert_eq!([first, rest.clone()].concat(), all);
    comp.consume(rest.len() + 10);
    assert!(comp.pending_slice().is_empty());
    assert!(comp.buf().is_empty());
}

#[test]
fn decompressor_gathers_header_in_pieces() {
    let frame = frame_of(b"some data to decompress", &Preferences::default());
    let mut whole = Decompressor::new(64);
    assert_eq!(whole.take_header(&frame), Ok(7));
    assert!(whole.header_complete());
    assert_eq!(whole.header_bytes(), &frame[..7]);

    let mut pieces = Decompressor::new(64);
    assert_eq!(pieces.take_header(&frame[..3]), Ok(3));
    assert!(!pieces.header_complete());
    assert_eq!(pieces.take_header(&frame[3..]), Ok(4));
    assert!(pieces.header_complete());
    assert_eq!(pieces.header_bytes(), whole.header_bytes());
}

#[test]
fn decompressor_rejects_invalid_header() {
    let mut d = Decompressor::new(64);
    assert_eq!(
        d.take_header(&[1, 2, 3, 4, 5, 6]),
        Err(Error::Common(lzzzz::ErrorKind::FrameHeaderInvalid))
    );
}

#[test]
fn decompressor_steps_and_dictionary_rule() {
    let frame = frame_of(b"abc", &Preferences::default());
    let mut d = Decompressor::new(DEFAULT_BUF_SIZE);
    assert_eq!(d.capacity(), DEFAULT_BUF_SIZE);
    assert_eq!(
        d.begin_step(&frame[..2]),
        Ok(DecompressStep { header_taken: 2, header_ready: false, decode_body: false })
    );
    assert_eq!(
        d.begin_step(&frame[2..]),
        Ok(DecompressStep { header_taken: 5, header_ready: true, decode_body: false })
    );
    assert!(!d.wants_body());
    d.set_frame_info(FrameInfo::default());
    assert_eq!(d.frame_info(), Some(FrameInfo::default()));
    assert!(d.wants_body());
    assert_eq!(
        d.begin_step(&frame[7..]),
        Ok(DecompressStep { header_taken: 0, header_ready: false, decode_body: true })
    );
    d.set_dict(b"dict");
    assert_eq!(d.enter_body(), Ok(()));
    d.set_dict(b"dict");
    assert_eq!(d.enter_body(), Ok(()));
    d.set_dict(b"other");
    assert_eq!(d.dict(), b"other");
    assert_eq!(
        d.enter_body(),
        Err(Error::Common(lzzzz::ErrorKind::DictionaryChangedDuringDecompression))
    );
    d.decode_header_only(true);
    assert!(d.is_header_only());
    assert!(!d.wants_body());
}

#[test]
fn decompressor_buffers_output() {
    let mut d = Decompressor::new(16);
    d.append_output(b"hello ");
    d.append_output(b"world");
    assert_eq!(d.buf(), b"hello world");
    let mut dst = [0u8; 4];
    assert_eq!(d.read_buf(&mut dst), 4);
    assert_eq!(&dst, b"hell");
    d.consume(2);
    assert_eq!(d.pending_slice(), b"world");
    d.clear_buf();
    assert!(d.pending_slice().is_empty());
}

#[test]
fn output_queue_hands_out_in_order() {
    let mut q = OutputQueue::new();
    q.extend(b"0123456789");
    let mut dst = [0u8; 4];
    assert_eq!(q.read_buf(&mut dst), 4);
    assert_eq!(&dst, b"0123");
    assert_eq!(q.pending_slice(), b"456789");
    q.consume(3);
    assert_eq!(q.pending_slice(), b"789");
    let mut big = [0u8; 8];
    assert_eq!(q.read_buf(&mut big), 3);
    assert_eq!(&big[..3], b"789");
    assert!(q.as_slice().is_empty());
    q.extend(b"x");
    q.clear();
    assert!(q.pending_slice().is_empty());
}

#[test]
fn writer_state_machine_sequences() {
    let idle = WriterState::Idle;
    assert_eq!(idle.decide(WriterRequest::Write), RequestDecision::Start);
    assert_eq!(idle.step(), WriterStep::Finished(0));

    let w = WriterState::started(WriterRequest::Write, 42, true);
    assert_eq!(w, WriterState::Write(42));
    assert_eq!(w.decide(WriterRequest::Write), RequestDecision::Resume);
    assert_eq!(w.decide(WriterRequest::Flush), RequestDecision::Invalid);
    assert_eq!(w.step(), WriterStep::WriteAll);
    assert_eq!(w.completed(), (WriterState::Idle, Some(42)));

    let mut s = WriterState::started(WriterRequest::Close, 0, true);
    let mut steps = Vec::new();
    loop {
        let step = s.step();
        if let WriterStep::Finished(_) = step {
            break;
        }
        steps.push(step);
        s = s.completed().0;
    }
    assert_eq!(steps, vec![WriterStep::WriteAll, WriterStep::FlushDevice, WriterStep::CloseDevice]);
    assert_eq!(s, WriterState::Shutdown);
    assert_eq!(s.decide(WriterRequest::Write), RequestDecision::Resume);
    assert_eq!(s.step(), WriterStep::Finished(0));

    let f = WriterState::started(WriterRequest::Flush, 0, false);
    assert_eq!(f, WriterState::Flush);
    assert_eq!(f.completed(), (WriterState::Idle, None));
    assert_eq!(WriterState::started(WriterRequest::Close, 0, false), WriterState::Close);
}

#[test]
fn lz4_buffer_grows_for_larger_inputs() {
    let prefs = Preferences::default();
    let mut buf = LZ4Buffer::new();
    assert!(buf.as_slice().is_empty());
    buf.grow(0, &prefs);
    assert_eq!(buf.as_slice().len(), 65543 + 19);
    buf.as_mut_slice()[0] = 7;
    buf.grow(0, &prefs);
    assert_eq!(buf.as_slice().len(), 65543 + 19);
    buf.grow(10, &prefs);
    assert_eq!(buf.as_slice().len(), 65544 + 19);
    assert_eq!(buf.as_slice()[0], 7);
    buf.grow(5, &prefs);
    assert_eq!(buf.as_slice().len(), 65544 + 19);
}

#[test]
fn frame_info_from_raw_numbers() {
    assert_eq!(BlockSize::from_id(6), Some(BlockSize::Max1MB));
    assert_eq!(BlockSize::from_id(3), None);
    assert_eq!(BlockSize::Max256KB.id(), 5);
    assert_eq!(BlockSize::Max256KB.bytes(), 0x40000);
    let info = FrameInfo::from_raw(7, 1, 1, 0, 99, 5, 1).unwrap();
    assert_eq!(info.block_size(), BlockSize::Max4MB);
    assert_eq!(info.block_mode(), BlockMode::Independent);
    assert_eq!(info.content_checksum(), ContentChecksum::Enabled);
    assert_eq!(info.frame_type(), FrameType::Frame);
    assert_eq!(info.content_size(), 99);
    assert_eq!(info.dict_id(), 5);
    assert_eq!(info.block_checksum(), BlockChecksum::Enabled);
    assert_eq!(FrameInfo::from_raw(0, 2, 0, 0, 0, 0, 0), None);
    assert_eq!(FrameInfo::from_raw(1, 0, 0, 0, 0, 0, 0), None);
    assert_eq!(FrameInfo::from_raw(0, 0, 0, 0, 0, 0, 0), Some(FrameInfo::default()));
}

#[test]
fn builders_set_one_field_each() {
    let (dev, prefs, dict) = CompressorBuilder::new(3u8)
        .block_size(BlockSize::Max1MB)
        .compression_level(CompressionLevel::High)
        .favor_dec_speed(FavorDecSpeed::Enabled)
        .into_parts();
    assert_eq!(dev, 3);
    assert_eq!(prefs.frame_info.block_size, BlockSize::Max1MB);
    assert_eq!(prefs.compression_level, CompressionLevel::High.as_i32());
    assert_eq!(prefs.favor_dec_speed, FavorDecSpeed::Enabled);
    assert_eq!(prefs.auto_flush, AutoFlush::Disabled);
    assert!(dict.is_none());
    let (dev, cap) = DecompressorBuilder::new("dev").capacity(10).into_parts();
    assert_eq!((dev, cap), ("dev", 10));
    assert_eq!(DecompressorBuilder::new(0u8).into_parts().1, DEFAULT_BUF_SIZE);
    assert_eq!(CompressionLevel::Custom(-3).as_i32(), -3);
    assert_eq!(CompressionLevel::Max.as_i32(), lz4f::COMPRESSION_LEVEL_MAX);
    assert_eq!(CompressionLevel::default().as_i32(), lz4f::COMPRESSION_LEVEL_DEFAULT);
}

#[test]
fn header_only_mode_takes_nothing_after_header() {
    let frame = frame_of(b"abc", &Preferences::default());
    let mut d = Decompressor::new(64);
    d.decode_header_only(true);
    assert_eq!(
        d.begin_step(&frame),
        Ok(DecompressStep { header_taken: 7, header_ready: true, decode_body: false })
    );
    d.set_frame_info(FrameInfo::default());
    assert_eq!(
        d.begin_step(&frame[7..]),
        Ok(DecompressStep { header_taken: 0, header_ready: false, decode_body: false })
    );
}

#[test]
fn invalid_header_keeps_its_first_bytes() {
    let mut d = Decompressor::new(64);
    assert_eq!(d.take_header(&[9, 9]), Ok(2));
    assert_eq!(
        d.begin_step(&[8, 8, 8, 8, 8, 8]),
        Err(Error::Common(lzzzz::ErrorKind::FrameHeaderInvalid))
    );
    assert_eq!(d.header_bytes(), &[9, 9, 8, 8, 8]);
}

#[test]
fn chunked_header_matches_whole_header() {
    let mut prefs = Preferences::default();
    prefs.frame_info.content_size = 1;
    prefs.frame_info.dict_id = 0;
    let frame = frame_of(b"chunked header", &prefs);
    for cut in 0..frame.len().min(20) {
        let mut whole = Decompressor::new(64);
        let w = whole.take_header(&frame).unwrap();
        let mut split = Decompressor::new(64);
        let a = split.take_header(&frame[..cut]).unwrap();
        let b = if split.header_complete() { 0 } else { split.take_header(&frame[a..]).unwrap() };
        assert_eq!(a + b, w);
        assert_eq!(split.header_bytes(), whole.header_bytes());
    }
}

#[test]
fn step_on_empty_input_inside_header_is_incomplete() {
    let mut d = Decompressor::new(64);
    assert_eq!(d.begin_step(&[0x04, 0x22, 0x4D, 0x18, 0x60]).map(|s| s.header_taken), Ok(5));
    assert_eq!(d.begin_step(&[]), Err(Error::Lz4f(ErrorKind::FrameHeaderIncomplete)));
    assert_eq!(d.header_bytes(), &[0x04, 0x22, 0x4D, 0x18, 0x60]);
    let mut fresh = Decompressor::new(64);
    assert_eq!(fresh.begin_step(&[]), Err(Error::Lz4f(ErrorKind::FrameHeaderIncomplete)));
}

#[test]
fn written_headers_carry_the_preferences() {
    let frame = frame_of(b"Hello world!", &Preferences::default());
    assert_eq!(&frame[..6], &[0x04, 0x22, 0x4D, 0x18, 0x60, 0x40]);
    assert_eq!(decompressed(&frame), b"Hello world!".to_vec());
    let mut prefs = PreferencesBuilder::new()
        .content_checksum(ContentChecksum::Enabled)
        .block_checksum(BlockChecksum::Enabled)
        .block_size(BlockSize::Max256KB)
        .build();
    prefs.frame_info.content_size = 1;
    let frame = frame_of(b"Hello world!", &prefs);
    assert_eq!(frame[4], 0x40 | 0x20 | 0x10 | 0x08 | 0x04);
    assert_eq!(frame[5], 0x40);
    assert_eq!(&frame[6..14], &12u64.to_le_bytes());
    let mut ctx = CompressionContext::new(None).unwrap();
    let mut out = Vec::new();
    let linked = PreferencesBuilder::new().block_size(BlockSize::Max4MB).build();
    assert_eq!(ctx.begin(&mut out, &linked), Ok(7));
    assert_eq!(&out[4..6], &[0x40, 0x70]);
}

#[test]
fn announced_content_size_must_match() {
    let mut prefs = Preferences::default();
    prefs.frame_info.content_size = 5;
    let mut ctx = CompressionContext::new(None).unwrap();
    let mut out = Vec::new();
    ctx.begin(&mut out, &prefs).unwrap();
    ctx.update(&mut out, b"abc", false).unwrap();
    let len = out.len();
    assert_eq!(ctx.end(&mut out, false), Err(Error::Lz4f(ErrorKind::FrameSizeWrong)));
    assert_eq!(out.len(), len);
    ctx.begin(&mut out, &prefs).unwrap();
    ctx.update(&mut out, b"abcde", false).unwrap();
    assert!(ctx.end(&mut out, false).is_ok());
    let mut c = Compressor::new(prefs, None).unwrap();
    assert_eq!(c.end(false), Err(Error::Lz4f(ErrorKind::FrameSizeWrong)));
}

#[test]
fn ending_a_new_compressor_gives_an_empty_frame() {
    let mut c = Compressor::new(Preferences::default(), None).unwrap();
    assert_eq!(c.end(false), Ok(()));
    assert!(c.buf().starts_with(&[0x04, 0x22, 0x4D, 0x18]));
    assert_eq!(decompressed(c.buf()), Vec::<u8>::new());
    let before = c.buf().to_vec();
    assert_eq!(c.update(b"late", false), Err(Error::Lz4f(ErrorKind::Generic)));
    assert_eq!(c.buf(), &before[..]);
    let mut dst = [0u8; 3];
    assert_eq!(c.read_step(b"more", &mut dst), Err(Error::Lz4f(ErrorKind::Generic)));
    assert_eq!(c.read_step(&[], &mut dst), Ok(3));
}

#[test]
fn decompress_to_vec_appends_whole_frame() {
    let frame = frame_of(b"Hello world!", &Preferences::default());
    let mut v1 = Vec::new();
    assert_eq!(
        lz4f::decompress_to_vec(&frame[..10], &mut v1),
        Err(Error::Common(lzzzz::ErrorKind::CompressedDataIncomplete))
    );
    let mut v2 = vec![b'x'];
    assert_eq!(lz4f::decompress_to_vec(&frame, &mut v2).map(|r| r.dst_len()), Ok(12));
    assert_eq!(v2, b"xHello world!".to_vec());
}

#[test]
fn recorded_frame_info_is_kept() {
    let frame = frame_of(b"abc", &Preferences::default());
    let mut d = Decompressor::new(DEFAULT_BUF_SIZE);
    d.begin_step(&frame).unwrap();
    assert_eq!(d.frame_info(), None);
    let first = FrameInfo::default();
    d.set_frame_info(first);
    assert_eq!(d.frame_info(), Some(first));
    let mut other = FrameInfo::default();
    other.content_size = 3;
    d.set_frame_info(other);
    assert_eq!(d.frame_info(), Some(first));
}

#[test]
fn read_run_with_varying_destinations_gives_one_frame() {
    let mut data = b"several blocks of streamed data; ".repeat(6000);
    data.extend((0..70_000u32).map(|i| (i.wrapping_mul(2_654_435_761) >> 13) as u8));
    let prefs = PreferencesBuilder::new().block_size(BlockSize::Max64KB).build();
    let mut comp = Compressor::new(prefs, None).unwrap();
    let sizes = [0usize, 1, 5, 4096, 17, 65_536, 3];
    let mut out = Vec::new();
    let mut step = 0usize;
    let mut pieces = data.chunks(10_000);
    loop {
        let input = pieces.next().unwrap_or(&[]);
        let mut dst = vec![0u8; sizes[step % sizes.len()]];
        step += 1;
        let n = comp.read_step(input, &mut dst).unwrap();
        assert!(n <= dst.len());
        out.extend_from_slice(&dst[..n]);
        if input.is_empty() && n == 0 && !dst.is_empty() {
            break;
        }
    }
    assert!(comp.pending_slice().is_empty());
    let mut dst = [0u8; 16];
    assert_eq!(comp.read_step(&[], &mut dst), Ok(0));
    assert_eq!(decompressed(&out), data);
}

#[test]
fn read_of_nonempty_input_never_gives_nothing() {
    let prefs = PreferencesBuilder::new().block_size(BlockSize::Max4MB).build();
    let mut comp = Compressor::new(prefs, None).unwrap();
    let mut dst = [0u8; 1];
    for piece in [&b"a"[..], b"bc", b"def", b"g"] {
        assert_eq!(comp.read_step(piece, &mut dst), Ok(1));
    }
    let mut out = Vec::new();
    loop {
        let mut big = [0u8; 64];
        let n = comp.read_step(&[], &mut big).unwrap();
        if n == 0 {
            break;
        }
        out.extend_from_slice(&big[..n]);
    }
    assert!(comp.pending_slice().is_empty());
}

#[test]
fn update_of_nonempty_input_adds_bytes() {
    let mut comp = Compressor::new(Preferences::default(), None).unwrap();
    comp.update(b"x", false).unwrap();
    let after_first = comp.buf().len();
    assert!(after_first > 0);
    comp.update(b"y", false).unwrap();
    assert!(comp.buf().len() > after_first);
}
