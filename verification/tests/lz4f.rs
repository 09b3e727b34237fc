use lzzzz::lz4f;
use lzzzz::lz4f::{
    AutoFlush, BlockChecksum, BlockMode, BlockSize, CompressionContext, ContentChecksum,
    Dictionary, Error, ErrorKind, FavorDecSpeed, Preferences, PreferencesBuilder,
    COMPRESSION_LEVEL_DEFAULT, COMPRESSION_LEVEL_HIGH, COMPRESSION_LEVEL_MAX,
};

/// Deterministic pseudo-random bytes (xorshift64*), seeded by `seed`.
fn random_bytes(seed: u64, len: usize) -> Vec<u8> {
    let mut state = seed.wrapping_mul(0x9E37_79B9_7F4A_7C15) | 1;
    let mut out = Vec::with_capacity(len);
    while out.len() < len {
        state ^= state >> 12;
        state ^= state << 25;
        state ^= state >> 27;
        let v = state.wrapping_mul(0x2545_F491_4F6C_DD1D);
        for b in v.to_le_bytes() {
            if out.len() < len {
                out.push(b);
            }
        }
    }
    out
}

/// Random data of sizes 16, 32, ..., 512 KiB bytes: the largest ones span
/// several blocks of every block size up to 256 KiB.
fn data_set() -> Vec<Vec<u8>> {
    (0..16u64).map(|n| random_bytes(n, 16usize << n)).collect()
}

fn preferences_set() -> Vec<Preferences> {
    vec![
        PreferencesBuilder::new().build(),
        PreferencesBuilder::new().block_size(BlockSize::Max64KB).build(),
        PreferencesBuilder::new().block_size(BlockSize::Max256KB).build(),
        PreferencesBuilder::new().block_size(BlockSize::Max1MB).build(),
        PreferencesBuilder::new().block_size(BlockSize::Max4MB).build(),
        PreferencesBuilder::new().block_mode(BlockMode::Independent).build(),
        PreferencesBuilder::new().content_checksum(ContentChecksum::Enabled).build(),
        PreferencesBuilder::new().dict_id(u32::MAX).build(),
        PreferencesBuilder::new().block_checksum(BlockChecksum::Enabled).build(),
        PreferencesBuilder::new().compression_level(COMPRESSION_LEVEL_HIGH).build(),
        PreferencesBuilder::new().compression_level(COMPRESSION_LEVEL_MAX).build(),
        PreferencesBuilder::new().compression_level(i32::MAX).build(),
        PreferencesBuilder::new().compression_level(i32::MIN).build(),
        PreferencesBuilder::new().favor_dec_speed(FavorDecSpeed::Enabled).build(),
        PreferencesBuilder::new().auto_flush(AutoFlush::Enabled).build(),
    ]
}

fn test_set() -> Vec<(Vec<u8>, Preferences)> {
    let mut set = Vec::new();
    for data in data_set() {
        for prefs in preferences_set() {
            set.push((data.clone(), prefs));
        }
    }
    set
}

#[test]
fn binding_call_c_api() {
    let ctx = CompressionContext::new(None);
    assert!(ctx.is_ok());
    let mut ctx = ctx.unwrap();
    let mut header = Vec::new();
    let n = ctx.begin(&mut header, &Preferences::default()).unwrap();
    assert!(n > 0 && n == header.len());
}

#[test]
fn call_c_api() {
    let ctx = CompressionContext::new(Some(Dictionary::new(b"dict").unwrap()));
    assert!(ctx.is_ok());
    let mut ctx = ctx.unwrap();
    let mut header = Vec::new();
    let n = ctx.begin(&mut header, &Preferences::default()).unwrap();
    assert!(n > 0 && n == header.len());
}

#[test]
fn create_dictionary() {
    assert!(Dictionary::new(&[]).is_ok());
    assert!(Dictionary::new(&b"quick brown fox jumps over the lazy dog"[..]).is_ok());
}

#[test]
fn preferences_builder() {
    assert_eq!(PreferencesBuilder::new().build(), Preferences::default());
    assert_eq!(
        PreferencesBuilder::new()
            .favor_dec_speed(FavorDecSpeed::Enabled)
            .build()
            .favor_dec_speed,
        FavorDecSpeed::Enabled
    );
    assert_eq!(
        PreferencesBuilder::new()
            .block_size(BlockSize::Max64KB)
            .build()
            .frame_info
            .block_size(),
        BlockSize::Max64KB
    );
    assert_eq!(
        PreferencesBuilder::new()
            .block_size(BlockSize::Max256KB)
            .build()
            .frame_info
            .block_size(),
        BlockSize::Max256KB
    );
    assert_eq!(
        PreferencesBuilder::new()
            .block_size(BlockSize::Max1MB)
            .build()
            .frame_info
            .block_size(),
        BlockSize::Max1MB
    );
    assert_eq!(
        PreferencesBuilder::new()
            .block_size(BlockSize::Max4MB)
            .build()
            .frame_info
            .block_size(),
        BlockSize::Max4MB
    );
    assert_eq!(
        PreferencesBuilder::new()
            .content_checksum(ContentChecksum::Enabled)
            .build()
            .frame_info
            .content_checksum(),
        ContentChecksum::Enabled
    );
    assert_eq!(
        PreferencesBuilder::new()
            .block_mode(BlockMode::Independent)
            .build()
            .frame_info
            .block_mode(),
        BlockMode::Independent
    );
    assert_eq!(
        PreferencesBuilder::new()
            .compression_level(i32::MAX)
            .build()
            .compression_level,
        i32::MAX
    );
    assert_eq!(
        PreferencesBuilder::new()
            .compression_level(COMPRESSION_LEVEL_DEFAULT)
            .build()
            .compression_level,
        COMPRESSION_LEVEL_DEFAULT
    );
    assert_eq!(
        PreferencesBuilder::new()
            .compression_level(COMPRESSION_LEVEL_HIGH)
            .build()
            .compression_level,
        COMPRESSION_LEVEL_HIGH
    );
    assert_eq!(
        PreferencesBuilder::new()
            .compression_level(COMPRESSION_LEVEL_MAX)
            .build()
            .compression_level,
        COMPRESSION_LEVEL_MAX
    );
    assert_eq!(
        PreferencesBuilder::new()
            .compression_level(i32::MIN)
            .build()
            .compression_level,
        i32::MIN
    );
    assert_eq!(
        PreferencesBuilder::new()
            .block_checksum(BlockChecksum::Enabled)
            .build()
            .frame_info
            .block_checksum(),
        BlockChecksum::Enabled
    );
    assert_eq!(
        PreferencesBuilder::new()
            .dict_id(u32::MAX)
            .build()
            .frame_info
            .dict_id(),
        u32::MAX
    );
}

#[test]
fn lz4f_default() {
    for (src, prefs) in test_set() {
        let header = Vec::from("hello!".as_bytes());
        let mut comp_buf = header.clone();
        let mut decomp_buf = header.clone();

        assert_eq!(
            lz4f::compress_to_vec(&src, &mut comp_buf, &prefs)
                .unwrap()
                .dst_len(),
            comp_buf.len() - header.len()
        );
        assert_eq!(
            lz4f::decompress_to_vec(&comp_buf[header.len()..], &mut decomp_buf)
                .unwrap()
                .dst_len(),
            decomp_buf.len() - header.len()
        );
        assert_eq!(&decomp_buf[header.len()..], &src[..]);
    }
}

#[test]
fn compress_default() {
    for (src, prefs) in test_set() {
        let mut comp_buf = vec![0; lz4f::max_compressed_size(src.len(), &prefs)];
        let mut decomp_buf = Vec::new();

        let len = lz4f::compress(&src, &mut comp_buf, &prefs)
            .unwrap()
            .dst_len();
        comp_buf.resize_with(len, Default::default);
        assert_eq!(
            lz4f::decompress_to_vec(&comp_buf, &mut decomp_buf)
                .unwrap()
                .dst_len(),
            decomp_buf.len()
        );
        assert_eq!(decomp_buf, src);
    }
}

#[test]
fn too_small_dst() {
    for (src, prefs) in test_set() {
        let mut comp_buf = Vec::new();
        assert_eq!(
            lz4f::compress(&src, &mut comp_buf, &prefs),
            Err(Error::Lz4f(ErrorKind::DstMaxSizeTooSmall))
        );
    }
}

#[test]
fn lz4f_invalid_header() {
    for (src, prefs) in test_set() {
        let header = Vec::from("hello!".as_bytes());
        let mut comp_buf = Vec::new();
        let mut decomp_buf = header.clone();
        assert_eq!(
            lz4f::compress_to_vec(&src, &mut comp_buf, &prefs)
                .unwrap()
                .dst_len(),
            comp_buf.len()
        );
        assert_eq!(
            lz4f::decompress_to_vec(&comp_buf[1..], &mut decomp_buf),
            Err(Error::Lz4f(ErrorKind::FrameTypeUnknown))
        );
        assert_eq!(decomp_buf, header);
    }
}

#[test]
fn incomplete_src() {
    for (src, prefs) in test_set() {
        let header = Vec::from("hello!".as_bytes());
        let mut comp_buf = Vec::new();
        let mut decomp_buf = header.clone();
        assert_eq!(
            lz4f::compress_to_vec(&src, &mut comp_buf, &prefs)
                .unwrap()
                .dst_len(),
            comp_buf.len()
        );
        assert_eq!(
            lz4f::decompress_to_vec(&comp_buf[..comp_buf.len() - 1], &mut decomp_buf),
            Err(Error::Common(lzzzz::ErrorKind::CompressedDataIncomplete))
        );
        assert_eq!(decomp_buf, header);
    }
}

#[test]
fn compress_to_vec() {
    let prefs = [
        PreferencesBuilder::new().build(),
        PreferencesBuilder::new().block_size(BlockSize::Max64KB).build(),
        PreferencesBuilder::new().block_size(BlockSize::Max256KB).build(),
        PreferencesBuilder::new().block_size(BlockSize::Max1MB).build(),
        PreferencesBuilder::new().block_size(BlockSize::Max4MB).build(),
        PreferencesBuilder::new().compression_level(COMPRESSION_LEVEL_HIGH).build(),
        PreferencesBuilder::new().compression_level(COMPRESSION_LEVEL_MAX).build(),
        PreferencesBuilder::new().compression_level(i32::MAX).build(),
        PreferencesBuilder::new().compression_level(i32::MIN).build(),
        PreferencesBuilder::new().favor_dec_speed(FavorDecSpeed::Enabled).build(),
        PreferencesBuilder::new().auto_flush(AutoFlush::Enabled).build(),
    ];
    for p in prefs.iter() {
        for n in 0..14u64 {
            let src = random_bytes(n, 2 << n);
            let mut comp_buf = Vec::new();
            let mut decomp_buf = Vec::new();
            lz4f::compress_to_vec(&src, &mut comp_buf, p).unwrap();
            lz4f::decompress_to_vec(&comp_buf, &mut decomp_buf).unwrap();
            assert_eq!(decomp_buf, src);
        }
    }
}

/// Preferences drawn from `state`, as the fuzzer draws them.
fn generate_preference(state: u64) -> Preferences {
    let bits = random_bytes(state.wrapping_add(1000), 16);
    let mut b = PreferencesBuilder::new();
    b.auto_flush(if bits[0] & 1 == 0 { AutoFlush::Disabled } else { AutoFlush::Enabled })
        .block_checksum(if bits[1] & 1 == 0 { BlockChecksum::Disabled } else { BlockChecksum::Enabled })
        .content_checksum(if bits[2] & 1 == 0 {
            ContentChecksum::Disabled
        } else {
            ContentChecksum::Enabled
        })
        .block_mode(if bits[3] & 1 == 0 { BlockMode::Independent } else { BlockMode::Linked })
        .block_size(match bits[4] % 5 {
            0 => BlockSize::Max1MB,
            1 => BlockSize::Max4MB,
            2 => BlockSize::Max64KB,
            3 => BlockSize::Max256KB,
            _ => BlockSize::Default,
        })
        .favor_dec_speed(if bits[5] & 1 == 0 { FavorDecSpeed::Disabled } else { FavorDecSpeed::Enabled })
        .compression_level(i32::from_le_bytes([bits[6], bits[7], bits[8], bits[9]]))
        .dict_id(u32::from_le_bytes([bits[10], bits[11], bits[12], bits[13]]));
    b.build()
}

#[test]
fn lz4f_parallel_compression_decompression() {
    let all_ok = (0..40usize)
        .map(|n| random_bytes(n as u64, n))
        .map(|plain| {
            let pref = generate_preference(0);
            let mut comp = Vec::new();
            lz4f::compress_to_vec(&plain, &mut comp, &pref).unwrap();
            (plain, comp)
        })
        .map(|(plain, comp)| {
            let mut decomp = Vec::new();
            lz4f::decompress_to_vec(&comp, &mut decomp).unwrap();
            (plain, decomp)
        })
        .all(|(plain, decomp)| plain == decomp);
    assert!(all_ok);
}

#[test]
fn random_preferences_round_trip() {
    for state in 0..300u64 {
        let len = (random_bytes(state, 2)[0] as usize) * 4 + (state as usize % 4);
        let data = random_bytes(state.wrapping_mul(7), len);
        let pref = generate_preference(state);
        let mut comp = Vec::new();
        lz4f::compress_to_vec(&data, &mut comp, &pref).unwrap();
        let mut decomp = Vec::new();
        lz4f::decompress_to_vec(&comp, &mut decomp).unwrap();
        assert_eq!(decomp, data);
    }
}

/// Compressible data: a text repeated with a counter woven in.
fn text_bytes(len: usize) -> Vec<u8> {
    let text = b"quick brown fox jumps over the lazy dog ";
    let mut v = Vec::with_capacity(len);
    let mut i = 0usize;
    while v.len() < len {
        v.push(text[i % text.len()]);
        if i % 97 == 0 {
            v.push((i / 97) as u8);
        }
        i += 1;
    }
    v.truncate(len);
    v
}

#[test]
fn multi_block_frames() {
    let prefs = [
        PreferencesBuilder::new().build(),
        PreferencesBuilder::new().block_size(BlockSize::Max64KB).build(),
        PreferencesBuilder::new()
            .block_size(BlockSize::Max64KB)
            .block_mode(BlockMode::Independent)
            .build(),
        PreferencesBuilder::new()
            .block_size(BlockSize::Max64KB)
            .block_checksum(BlockChecksum::Enabled)
            .content_checksum(ContentChecksum::Enabled)
            .build(),
        PreferencesBuilder::new().block_size(BlockSize::Max256KB).build(),
        PreferencesBuilder::new()
            .block_size(BlockSize::Max64KB)
            .compression_level(COMPRESSION_LEVEL_HIGH)
            .build(),
        PreferencesBuilder::new()
            .block_size(BlockSize::Max64KB)
            .auto_flush(AutoFlush::Enabled)
            .build(),
    ];
    let inputs = [
        random_bytes(77, 300_000),
        text_bytes(300_000),
        random_bytes(78, 64 * 1024 * 3),
        random_bytes(79, 64 * 1024 * 3 + 1),
    ];
    for p in prefs.iter() {
        for src in inputs.iter() {
            let bound = lz4f::max_compressed_size(src.len(), p);
            assert!(bound >= src.len());

            let mut comp = vec![0u8; bound];
            let n = lz4f::compress(src, &mut comp, p).unwrap().dst_len();
            assert!(n <= bound);
            let mut decomp = Vec::new();
            assert_eq!(lz4f::decompress_to_vec(&comp[..n], &mut decomp).unwrap().dst_len(), src.len());
            assert_eq!(&decomp, src);

            let header = b"prefix".to_vec();
            let mut comp_vec = header.clone();
            let r = lz4f::compress_to_vec(src, &mut comp_vec, p).unwrap();
            assert!(r.dst_len() <= bound);
            assert_eq!(r.dst_len(), comp_vec.len() - header.len());
            assert_eq!(&comp_vec[..header.len()], &header[..]);
            let mut decomp_vec = header.clone();
            lz4f::decompress_to_vec(&comp_vec[header.len()..], &mut decomp_vec).unwrap();
            assert_eq!(&decomp_vec[header.len()..], &src[..]);

            let mut too_small = vec![0u8; 8];
            assert_eq!(
                lz4f::compress(src, &mut too_small, p),
                Err(Error::Lz4f(ErrorKind::DstMaxSizeTooSmall))
            );
        }
    }
}

#[test]
fn max_compressed_size_grows_with_size() {
    for p in preferences_set() {
        let mut last = 0usize;
        for n in [0usize, 1, 15, 16, 1000, 65_535, 65_536, 65_537, 262_144, 300_000, 4 << 20] {
            let b = lz4f::max_compressed_size(n, &p);
            assert!(b >= n);
            assert!(b >= last);
            last = b;
        }
    }
}
