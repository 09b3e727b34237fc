//! Size arithmetic of the LZ4 frame format: how large a compressed frame or
//! a frame header can be.

use vstd::prelude::*;
use super::error::{Error, ErrorKind, Result};
use super::frame_info::{BlockChecksum, BlockMode, BlockSize, ContentChecksum, FrameInfo};
use super::preferences::{AutoFlush, Preferences};

verus! {

/// The largest size of a frame header.
pub const LZ4F_HEADER_SIZE_MAX: usize = 19;

/// The smallest size of a frame header.
pub const LZ4F_HEADER_SIZE_MIN: usize = 7;

/// The number of leading bytes from which the size of a frame header is known.
pub const LZ4F_MIN_SIZE_TO_KNOW_HEADER_LENGTH: usize = 5;

/// The size of a block header.
pub const LZ4F_BLOCK_HEADER_SIZE: usize = 4;

/// The size of a block checksum.
pub const LZ4F_BLOCK_CHECKSUM_SIZE: usize = 4;

/// The magic number that starts an LZ4 frame.
pub const LZ4F_MAGICNUMBER: u32 = 0x184D2204;

/// The magic number of skippable frames, without its last four bits.
pub const LZ4F_MAGIC_SKIPPABLE_START: u32 = 0x184D2A50;

/// The block size that liblz4 picks for a one-shot compression of
/// `src_size` bytes when `requested` was asked for: the smallest block size
/// from 64 KB up to `requested` that holds the whole input.
pub open spec fn optimal_block_size_spec(requested: BlockSize, src_size: nat) -> BlockSize {
    if requested.id_spec() <= 4 {
        requested
    } else if src_size <= 0x10000 {
        BlockSize::Max64KB
    } else if requested.id_spec() <= 5 {
        requested
    } else if src_size <= 0x40000 {
        BlockSize::Max256KB
    } else if requested.id_spec() <= 6 {
        requested
    } else if src_size <= 0x100000 {
        BlockSize::Max1MB
    } else {
        requested
    }
}

/// Return the block size that liblz4 picks for a one-shot compression.
pub fn optimal_block_size(requested: BlockSize, src_size: usize) -> (r: BlockSize)
    ensures
        r == optimal_block_size_spec(requested, src_size as nat),
        r.bytes_spec() <= requested.bytes_spec(),
{
    let id = requested.id();
    if id <= 4 {
        requested
    } else if src_size <= 0x10000 {
        BlockSize::Max64KB
    } else if id <= 5 {
        requested
    } else if src_size <= 0x40000 {
        BlockSize::Max256KB
    } else if id <= 6 {
        requested
    } else if src_size <= 0x100000 {
        BlockSize::Max1MB
    } else {
        requested
    }
}

/// The number of bytes that a checksum flag adds.
pub open spec fn block_checksum_size_spec(flag: BlockChecksum) -> nat {
    match flag {
        BlockChecksum::Disabled => 0,
        BlockChecksum::Enabled => 4,
    }
}

/// The number of bytes that a content checksum flag adds.
pub open spec fn content_checksum_size_spec(flag: ContentChecksum) -> nat {
    match flag {
        ContentChecksum::Disabled => 0,
        ContentChecksum::Enabled => 4,
    }
}

/// The largest number of bytes that liblz4 writes when it is given
/// `src_size` new bytes while `already_buffered` bytes wait in its internal
/// buffer, flushing a partial block when `flush` holds: a block header (and
/// checksum) per block, each full block, the partial block, and the end mark
/// with the optional content checksum.
pub open spec fn compress_bound_internal_spec(
    src_size: nat,
    prefs: Preferences,
    already_buffered: nat,
) -> nat {
    let flush = prefs.auto_flush == AutoFlush::Enabled || src_size == 0;
    let block_size = prefs.frame_info.block_size.bytes_spec();
    let max_buffered = (block_size - 1) as nat;
    let buffered = if already_buffered < max_buffered { already_buffered } else { max_buffered };
    let max_src_size = src_size + buffered;
    let full_blocks = max_src_size / block_size;
    let partial = max_src_size % block_size;
    let last_block = if flush { partial } else { 0 };
    let blocks = full_blocks + if last_block > 0 { 1nat } else { 0nat };
    let block_crc = block_checksum_size_spec(prefs.frame_info.block_checksum);
    let frame_end = 4 + content_checksum_size_spec(prefs.frame_info.content_checksum);
    (4 + block_crc) * blocks + block_size * full_blocks + last_block + frame_end
}

/// The capacity that a destination must have so that liblz4 can take
/// `src_size` more bytes of input (and flush, or end the frame) in the worst
/// case: with auto flush nothing stays buffered, else up to a block can.
pub open spec fn compress_bound_spec(src_size: nat, prefs: Preferences) -> nat {
    if prefs.auto_flush == AutoFlush::Enabled {
        compress_bound_internal_spec(src_size, prefs, 0)
    } else {
        compress_bound_internal_spec(src_size, prefs, usize::MAX as nat)
    }
}

/// The capacity that a destination must have to hold a whole frame of
/// `src_size` bytes of input: the largest header, then the blocks written
/// with auto flush.
pub open spec fn compress_frame_bound_spec(src_size: nat, prefs: Preferences) -> nat {
    (LZ4F_HEADER_SIZE_MAX as nat) + compress_bound_internal_spec(
        src_size,
        Preferences { auto_flush: AutoFlush::Enabled, ..prefs },
        0,
    )
}

proof fn lemma_div_mod_bound(m: nat, b: nat)
    requires
        b >= 0x10000,
    ensures
        b * (m / b) + m % b == m,
        m / b <= m / 0x10000,
        m % b < b,
{
    assert(b * (m / b) + m % b == m) by (nonlinear_arith)
        requires b > 0;
    assert(m / b <= m / 0x10000) by (nonlinear_arith)
        requires b >= 0x10000;
}

/// The internal bound is at most the input plus a small overhead: a whole
/// block of buffered bytes, eight bytes per 64 KB and some bytes for the end.
pub proof fn lemma_compress_bound_internal_le(src_size: nat, prefs: Preferences, already_buffered: nat)
    ensures
        compress_bound_internal_spec(src_size, prefs, already_buffered)
            <= src_size + 0x400000 + 8 * ((src_size + 0x400000) / 0x10000) + 16,
{
    let block_size = prefs.frame_info.block_size.bytes_spec();
    let max_buffered = (block_size - 1) as nat;
    let buffered = if already_buffered < max_buffered { already_buffered } else { max_buffered };
    let m = src_size + buffered;
    lemma_div_mod_bound(m, block_size);
    let full_blocks = m / block_size;
    let flush = prefs.auto_flush == AutoFlush::Enabled || src_size == 0;
    let last_block = if flush { m % block_size } else { 0 };
    let blocks = full_blocks + if last_block > 0 { 1nat } else { 0nat };
    let block_crc = block_checksum_size_spec(prefs.frame_info.block_checksum);
    assert(block_crc <= 4);
    assert((4 + block_crc) * blocks <= 8 * (m / 0x10000) + 8) by (nonlinear_arith)
        requires
            blocks <= full_blocks + 1,
            full_blocks <= m / 0x10000,
            block_crc <= 4,
    ;
    assert(m / 0x10000 <= (src_size + 0x400000) / 0x10000) by (nonlinear_arith)
        requires m <= src_size + 0x400000;
    assert(block_size * full_blocks + last_block <= m);
}

proof fn lemma_div_monotone(m1: nat, m2: nat, b: nat)
    requires
        m1 <= m2,
        b > 0,
    ensures
        m1 / b <= m2 / b,
        m1 / b == m2 / b ==> m1 % b <= m2 % b,
        b * (m1 / b) + m1 % b == m1,
        b * (m2 / b) + m2 % b == m2,
        m1 % b < b,
        m2 % b < b,
{
    assert(m1 / b <= m2 / b) by (nonlinear_arith)
        requires m1 <= m2, b > 0;
    assert(b * (m1 / b) + m1 % b == m1) by (nonlinear_arith)
        requires b > 0;
    assert(b * (m2 / b) + m2 % b == m2) by (nonlinear_arith)
        requires b > 0;
}

/// The capacity that liblz4 may need never shrinks when more input is to
/// be taken with the same preferences.
pub proof fn lemma_compress_bound_monotone(a: nat, b: nat, prefs: Preferences)
    requires
        a <= b,
    ensures
        compress_bound_spec(a, prefs) <= compress_bound_spec(b, prefs),
{
    let bs = prefs.frame_info.block_size.bytes_spec();
    let c = block_checksum_size_spec(prefs.frame_info.block_checksum);
    let fe = 4 + content_checksum_size_spec(prefs.frame_info.content_checksum);
    let auto = prefs.auto_flush == AutoFlush::Enabled;
    let buffered: nat = if auto { 0 } else { (bs - 1) as nat };
    let ma = a + buffered;
    let mb = b + buffered;
    lemma_div_monotone(ma, mb, bs);
    let qa = ma / bs;
    let qb = mb / bs;
    let fa = auto || a == 0;
    let fb = auto || b == 0;
    let la: nat = if fa { ma % bs } else { 0 };
    let lb: nat = if fb { mb % bs } else { 0 };
    let ba: nat = qa + if la > 0 { 1nat } else { 0nat };
    let bb: nat = qb + if lb > 0 { 1nat } else { 0nat };
    assert(compress_bound_spec(a, prefs) == (4 + c) * ba + bs * qa + la + fe);
    assert(compress_bound_spec(b, prefs) == (4 + c) * bb + bs * qb + lb + fe);
    if fa == fb {
        if qa < qb {
            assert(ba <= bb);
            assert(bs * qa + la <= bs * qb + lb) by (nonlinear_arith)
                requires qa < qb, la < bs, bs > 0;
        } else {
            assert(la <= lb);
            assert(ba <= bb);
        }
        assert((4 + c) * ba <= (4 + c) * bb) by (nonlinear_arith)
            requires ba <= bb;
    } else {
        assert(!auto && a == 0 && b > 0);
        assert(qa == 0) by (nonlinear_arith)
            requires qa == ma / bs, ma < bs, bs > 0;
        assert(qb >= 1) by (nonlinear_arith)
            requires qb == mb / bs, mb >= bs, bs > 0;
        assert(bs * qb >= bs) by (nonlinear_arith)
            requires qb >= 1, bs > 0;
        assert((4 + c) * qb >= 4 + c) by (nonlinear_arith)
            requires qb >= 1;
        assert(ba <= 1);
        assert((4 + c) * ba <= 4 + c) by (nonlinear_arith)
            requires ba <= 1;
    }
}

/// With every block flushed and nothing buffered, the internal bound is
/// the block headers and checksums of the blocks that the input fills, the
/// input itself, and the end of the frame.
proof fn lemma_flushed_bound(n: nat, prefs: Preferences)
    requires
        prefs.auto_flush == AutoFlush::Enabled,
    ensures
        ({
            let bs = prefs.frame_info.block_size.bytes_spec();
            let c = block_checksum_size_spec(prefs.frame_info.block_checksum);
            let fe = 4 + content_checksum_size_spec(prefs.frame_info.content_checksum);
            let blocks: nat = n / bs + if n % bs > 0 { 1nat } else { 0nat };
            &&& compress_bound_internal_spec(n, prefs, 0) == (4 + c) * blocks + n + fe
            &&& n > 0 ==> blocks >= 1
            &&& n <= bs ==> blocks <= 1
        }),
{
    let bs = prefs.frame_info.block_size.bytes_spec();
    lemma_div_monotone(n, n, bs);
    if n <= bs {
        assert(n / bs <= 1) by (nonlinear_arith)
            requires n <= bs, bs > 0;
        if n / bs == 1 {
            assert(n % bs == 0) by (nonlinear_arith)
                requires n / bs == 1, n <= bs, bs > 0, bs * (n / bs) + n % bs == n;
        }
    }
    if n > 0 && n / bs == 0 {
        assert(n % bs > 0);
    }
}

/// The bound of a one-shot frame with the preferences that liblz4 uses for
/// it (a block size that holds the input, every block flushed) is at most
/// the bound with the preferences asked for.
pub proof fn lemma_frame_preferences_bound(n: nat, prefs: Preferences)
    ensures
        compress_frame_bound_spec(n, frame_preferences_spec(n, prefs)) <= compress_frame_bound_spec(
            n,
            prefs,
        ),
{
    let q = frame_preferences_spec(n, prefs);
    let p1 = Preferences { auto_flush: AutoFlush::Enabled, ..q };
    let p2 = Preferences { auto_flush: AutoFlush::Enabled, ..prefs };
    lemma_flushed_bound(n, p1);
    lemma_flushed_bound(n, p2);
    let bs1 = p1.frame_info.block_size.bytes_spec();
    let bs2 = p2.frame_info.block_size.bytes_spec();
    let c = block_checksum_size_spec(prefs.frame_info.block_checksum);
    let b1: nat = n / bs1 + if n % bs1 > 0 { 1nat } else { 0nat };
    let b2: nat = n / bs2 + if n % bs2 > 0 { 1nat } else { 0nat };
    if p1.frame_info.block_size != p2.frame_info.block_size {
        assert(n <= bs1);
        assert(b1 <= 1);
        if n == 0 {
            assert(b1 == 0);
        } else {
            assert(b2 >= 1);
        }
    }
    assert(b1 <= b2);
    assert((4 + c) * b1 <= (4 + c) * b2) by (nonlinear_arith)
        requires b1 <= b2;
}

/// The capacity that a one-shot frame needs grows with the input, and is
/// never less than the input.
pub proof fn lemma_max_compressed_size_monotone(a: nat, b: nat, prefs: Preferences)
    requires
        a <= b,
    ensures
        compress_frame_bound_spec(a, prefs) <= compress_frame_bound_spec(b, prefs),
        a <= compress_frame_bound_spec(a, prefs),
{
    let p = Preferences { auto_flush: AutoFlush::Enabled, ..prefs };
    lemma_compress_bound_monotone(a, b, p);
    lemma_flushed_bound(a, p);
}

/// The bounds stay within `usize` for every input length that a slice can have.
pub proof fn lemma_bounds_fit(src_size: nat, prefs: Preferences)
    requires
        src_size <= isize::MAX,
    ensures
        compress_bound_spec(src_size, prefs) + LZ4F_HEADER_SIZE_MAX <= usize::MAX,
        compress_frame_bound_spec(src_size, prefs) <= usize::MAX,
{
    lemma_compress_bound_internal_le(src_size, prefs, 0);
    lemma_compress_bound_internal_le(src_size, prefs, usize::MAX as nat);
    lemma_compress_bound_internal_le(
        src_size,
        Preferences { auto_flush: AutoFlush::Enabled, ..prefs },
        0,
    );
    assert(src_size + 0x400000 + 8 * ((src_size + 0x400000) / 0x10000) + 16 + 19 <= usize::MAX)
        by (nonlinear_arith)
        requires
            src_size <= isize::MAX,
            isize::MAX == usize::MAX / 2,
            usize::MAX >= 0xffff_ffff,
    ;
}

#[verifier::spinoff_prover]
#[verifier::rlimit(40)]
fn compress_bound_internal(src_size: usize, prefs: &Preferences, already_buffered: usize) -> (r: usize)
    requires
        src_size <= isize::MAX,
    ensures
        r == compress_bound_internal_spec(src_size as nat, *prefs, already_buffered as nat),
{
    proof {
        lemma_compress_bound_internal_le(src_size as nat, *prefs, already_buffered as nat);
        assert(src_size + 0x400000 + 8 * ((src_size + 0x400000) / 0x10000) + 16 <= usize::MAX)
            by (nonlinear_arith)
            requires
                src_size <= isize::MAX,
                isize::MAX == usize::MAX / 2,
                usize::MAX >= 0xffff_ffff,
        ;
    }
    let ghost total = compress_bound_internal_spec(src_size as nat, *prefs, already_buffered as nat);
    let flush = match prefs.auto_flush {
        AutoFlush::Enabled => true,
        AutoFlush::Disabled => src_size == 0,
    };
    let block_size = prefs.frame_info.block_size.bytes();
    let max_buffered = block_size - 1;
    let buffered = if already_buffered < max_buffered { already_buffered } else { max_buffered };
    let max_src_size = src_size + buffered;
    let full_blocks = max_src_size / block_size;
    let partial = max_src_size % block_size;
    proof {
        lemma_div_mod_bound(max_src_size as nat, block_size as nat);
    }
    let last_block = if flush { partial } else { 0 };
    let blocks = full_blocks + if last_block > 0 { 1usize } else { 0usize };
    let block_headers: usize = match prefs.frame_info.block_checksum {
        BlockChecksum::Disabled => 4 * blocks,
        BlockChecksum::Enabled => 8 * blocks,
    };
    let frame_end: usize = match prefs.frame_info.content_checksum {
        ContentChecksum::Disabled => 4,
        ContentChecksum::Enabled => 8,
    };
    let full_bytes = block_size * full_blocks;
    assert(block_headers + full_bytes + last_block + frame_end == total);
    block_headers + full_bytes + last_block + frame_end
}

/// Return the capacity that a destination must have so that liblz4 can take
/// `src_size` more bytes of input in the worst case.
pub fn compress_bound(src_size: usize, prefs: &Preferences) -> (r: usize)
    requires
        src_size <= isize::MAX,
    ensures
        r == compress_bound_spec(src_size as nat, *prefs),
{
    match prefs.auto_flush {
        AutoFlush::Enabled => compress_bound_internal(src_size, prefs, 0),
        AutoFlush::Disabled => compress_bound_internal(src_size, prefs, usize::MAX),
    }
}

/// Calculate the maximum size of the compressed data from the size of the data.
pub fn max_compressed_size(src_size: usize, prefs: &Preferences) -> (r: usize)
    requires
        src_size <= isize::MAX,
    ensures
        r == compress_frame_bound_spec(src_size as nat, *prefs),
{
    let mut flushing = *prefs;
    flushing.auto_flush = AutoFlush::Enabled;
    proof {
        lemma_bounds_fit(src_size as nat, *prefs);
    }
    LZ4F_HEADER_SIZE_MAX + compress_bound_internal(src_size, &flushing, 0)
}

/// The preferences that liblz4 writes a one-shot frame of `src_size` bytes
/// with: the content size (when asked for) is the input's size, the block
/// size the smallest that holds the input, every block is flushed, and a
/// frame of one block has independent blocks.
pub open spec fn frame_preferences_spec(src_size: nat, prefs: Preferences) -> Preferences {
    let block_size = optimal_block_size_spec(prefs.frame_info.block_size, src_size);
    let content_size = if prefs.frame_info.content_size != 0 {
        src_size as u64
    } else {
        0
    };
    let block_mode = if src_size <= block_size.bytes_spec() {
        BlockMode::Independent
    } else {
        prefs.frame_info.block_mode
    };
    Preferences {
        frame_info: FrameInfo { block_size, block_mode, content_size, ..prefs.frame_info },
        auto_flush: AutoFlush::Enabled,
        ..prefs
    }
}

/// Return the preferences that liblz4 writes a one-shot frame with.
pub fn frame_preferences(src_size: usize, prefs: &Preferences) -> (r: Preferences)
    ensures
        r == frame_preferences_spec(src_size as nat, *prefs),
{
    let mut r = *prefs;
    if prefs.frame_info.content_size != 0 {
        r.frame_info.content_size = src_size as u64;
    }
    let block_size = optimal_block_size(prefs.frame_info.block_size, src_size);
    r.frame_info.block_size = block_size;
    r.auto_flush = AutoFlush::Enabled;
    if src_size <= block_size.bytes() {
        r.frame_info.block_mode = BlockMode::Independent;
    }
    r
}

/// The little-endian 32-bit number that the first four bytes of `s` give.
pub open spec fn read_le32_spec(s: Seq<u8>) -> u32
    recommends
        s.len() >= 4,
{
    (s[0] as u32) | ((s[1] as u32) << 8u32) | ((s[2] as u32) << 16u32) | ((s[3] as u32) << 24u32)
}

/// The size of the frame header that `src` starts with: 8 for a skippable
/// frame, else 7 and 8 more with a content size and 4 more with a dictionary
/// id; an error when fewer than 5 bytes are there or the magic number is
/// not LZ4's.
pub open spec fn header_size_spec(src: Seq<u8>) -> Result<usize> {
    if src.len() < LZ4F_MIN_SIZE_TO_KNOW_HEADER_LENGTH {
        Err(Error::Lz4f(ErrorKind::FrameHeaderIncomplete))
    } else if read_le32_spec(src) & 0xFFFF_FFF0u32 == LZ4F_MAGIC_SKIPPABLE_START {
        Ok(8)
    } else if read_le32_spec(src) != LZ4F_MAGICNUMBER {
        Err(Error::Lz4f(ErrorKind::FrameTypeUnknown))
    } else {
        let flg = src[4];
        Ok((LZ4F_HEADER_SIZE_MIN + (if (flg >> 3u8) & 1u8 == 1u8 { 8usize } else { 0usize }) + (
        if flg & 1u8 == 1u8 {
            4usize
        } else {
            0usize
        })) as usize)
    }
}

/// Return the size of the frame header that `src` starts with.
pub fn header_size(src: &[u8]) -> (r: Result<usize>)
    ensures
        r == header_size_spec(src@),
        r matches Ok(n) ==> LZ4F_HEADER_SIZE_MIN <= n <= LZ4F_HEADER_SIZE_MAX,
{
    if src.len() < LZ4F_MIN_SIZE_TO_KNOW_HEADER_LENGTH {
        return Err(Error::Lz4f(ErrorKind::FrameHeaderIncomplete));
    }
    let magic: u32 = (src[0] as u32) | ((src[1] as u32) << 8u32) | ((src[2] as u32) << 16u32) | (
    (src[3] as u32) << 24u32);
    if magic & 0xFFFF_FFF0u32 == LZ4F_MAGIC_SKIPPABLE_START {
        Ok(8)
    } else if magic != LZ4F_MAGICNUMBER {
        Err(Error::Lz4f(ErrorKind::FrameTypeUnknown))
    } else {
        let flg = src[4];
        let content_size_len: usize = if (flg >> 3u8) & 1u8 == 1u8 { 8 } else { 0 };
        let dict_id_len: usize = if flg & 1u8 == 1u8 { 4 } else { 0 };
        Ok(LZ4F_HEADER_SIZE_MIN + content_size_len + dict_id_len)
    }
}

/// The FLG byte that liblz4 writes for `prefs` (version 01, the block mode,
/// block checksum, content size and content checksum flags, and no
/// dictionary id, which the `lz4` crate never passes on).
pub open spec fn written_flags_spec(prefs: Preferences) -> u8 {
    (0x40 + (if prefs.frame_info.block_mode == BlockMode::Independent { 0x20int } else { 0int })
        + (if prefs.frame_info.block_checksum == BlockChecksum::Enabled { 0x10int } else { 0int })
        + (if prefs.frame_info.content_size != 0 { 0x08int } else { 0int })
        + (if prefs.frame_info.content_checksum == ContentChecksum::Enabled { 0x04int } else { 0int })) as u8
}

/// The BD byte that liblz4 writes for `prefs`: the block size identifier in
/// bits 4 to 6, where the default block size is written as 64 KB.
pub open spec fn written_block_byte_spec(prefs: Preferences) -> u8 {
    ((if prefs.frame_info.block_size == BlockSize::Default {
        4int
    } else {
        prefs.frame_info.block_size.id_spec() as int
    }) * 16) as u8
}

/// The number that eight bytes give, least significant first.
pub open spec fn read_le64_spec(s: Seq<u8>) -> int
    recommends
        s.len() >= 8,
{
    s[0] + 0x100 * (s[1] + 0x100 * (s[2] + 0x100 * (s[3] + 0x100 * (s[4] + 0x100 * (s[5] + 0x100 * (
    s[6] + 0x100 * s[7]))))))
}

/// The length of the frame header that liblz4 writes for `prefs`: 7 bytes,
/// and 8 more with a content size.
pub open spec fn written_header_len_spec(prefs: Preferences) -> nat {
    if prefs.frame_info.content_size != 0 {
        15
    } else {
        7
    }
}

/// `frame` starts with the frame header that liblz4 writes for `prefs`: the
/// magic number, the FLG and BD bytes, the content size when there is one,
/// then the header checksum byte (whose value is not spelled out here).
pub open spec fn written_header_spec(frame: Seq<u8>, prefs: Preferences) -> bool {
    &&& frame.len() >= written_header_len_spec(prefs)
    &&& frame[0] == 0x04 && frame[1] == 0x22 && frame[2] == 0x4D && frame[3] == 0x18
    &&& frame[4] == written_flags_spec(prefs)
    &&& frame[5] == written_block_byte_spec(prefs)
    &&& prefs.frame_info.content_size != 0 ==> read_le64_spec(frame.subrange(6, 14))
        == prefs.frame_info.content_size
}

/// A header that starts a frame keeps starting it as the frame grows.
pub proof fn lemma_written_header_prefix(frame: Seq<u8>, longer: Seq<u8>, prefs: Preferences)
    requires
        written_header_spec(frame, prefs),
        frame.is_prefix_of(longer),
    ensures
        written_header_spec(longer, prefs),
{
    if prefs.frame_info.content_size != 0 {
        assert(frame.subrange(6, 14) =~= longer.subrange(6, 14));
    }
    assert(frame[0] == longer[0] && frame[1] == longer[1] && frame[2] == longer[2]);
    assert(frame[3] == longer[3] && frame[4] == longer[4] && frame[5] == longer[5]);
}

} // verus!
