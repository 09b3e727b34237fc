//! The calls into liblz4 (through the `lz4` crate) that the library makes,
//! with what the library relies on of each.

use vstd::prelude::*;
use std::io::{Read, Write};
use lz4::liblz4::BlockChecksum as Lz4BlockCheck;
use lz4::{BlockMode as Lz4Mode, BlockSize as Lz4Size, ContentChecksum as Lz4Check};
use super::frame_info::{BlockChecksum, BlockMode, BlockSize, ContentChecksum};
use super::preferences::{AutoFlush, FavorDecSpeed, Preferences};
use super::bound::{
    compress_bound_internal_spec, content_checksum_size_spec, written_header_len_spec,
    written_header_spec,
};
use super::error::{Error, ErrorKind};

verus! {

#[verifier::external_type_specification]
#[verifier::external_body]
#[verifier::reject_recursive_types(W)]
pub struct ExEncoder<W>(lz4::Encoder<W>);

#[verifier::external_type_specification]
#[verifier::external_body]
#[verifier::reject_recursive_types(R)]
pub struct ExDecoder<R>(lz4::Decoder<R>);

/// What a frame encoder holds: the bytes it was given so far, the bytes of
/// the frame it has written to its `Vec` so far, the preferences it was
/// built with, and how many of the bytes given liblz4 holds back, not yet
/// written as a block (`tmpInSize` of its compression context).
pub uninterp spec fn encoder_contents(e: lz4::Encoder<Vec<u8>>) -> (Seq<u8>, Seq<u8>, Preferences, nat);

/// What liblz4's frame decoder makes of `src`: the bytes it yields before it
/// stops, whether it stopped at the end of a complete frame, and the message
/// of the error it stopped at, if it stopped at one.
pub uninterp spec fn lz4f_decode(src: Seq<u8>) -> (Seq<u8>, bool, Option<Seq<char>>);

/// What a frame decoder over a slice holds: the slice, the bytes it has
/// yielded so far, and whether it has reported that it yields no more.
pub uninterp spec fn decoder_contents(d: lz4::Decoder<&[u8]>) -> (Seq<u8>, Seq<u8>, bool);

/// The message of liblz4's `allocation_failed` error as the `lz4` crate gives it.
pub open spec fn allocation_failed_message() -> Seq<char> {
    "LZ4 error: ERROR_allocation_failed"@
}

/// The message of liblz4's `frameSize_wrong` error as the `lz4` crate gives it.
pub open spec fn frame_size_wrong_message() -> Seq<char> {
    "LZ4 error: ERROR_frameSize_wrong"@
}

/// Calls `lz4::EncoderBuilder::new`, sets the builder's block size, block
/// mode, content and block checksum flags (the `lz4` crate's flags of the
/// same names), compression level (its bits, which liblz4 reads back as the
/// `int` it is), auto flush, decompression speed flag and content size from
/// `prefs`, and calls `build` on a new `Vec`: it creates a liblz4 compression
/// context and writes the frame header (`LZ4F_compressBegin`) into the `Vec`.
/// Claimed: the only failure is liblz4's allocation failure (`build` sizes
/// its buffer by `LZ4F_compressBound` for a whole block, so the header always
/// fits, and a `Vec` takes every write); the encoder has taken no input, the
/// `Vec` holds just the header that liblz4 writes for these settings
/// (`lz4frame.c`, `LZ4F_compressBegin_internal`; the `lz4` crate passes a
/// dictionary id of 0 and a normal frame type), and the frame announces the
/// content size of `prefs`; the encoder keeps `prefs` as its settings and
/// holds nothing back (`LZ4F_compressBegin` sets `tmpInSize` to 0).
#[verifier::external_body]
fn encoder_build(prefs: &Preferences, auto_flush: bool, favor_dec_speed: bool) -> (r: Result<
    lz4::Encoder<Vec<u8>>,
    String,
>)
    requires
        auto_flush == (prefs.auto_flush == AutoFlush::Enabled),
        favor_dec_speed == (prefs.favor_dec_speed == FavorDecSpeed::Enabled),
    ensures
        r matches Err(m) ==> m@ == allocation_failed_message(),
        r matches Ok(e) ==> {
            &&& encoder_contents(e).0 == Seq::<u8>::empty()
            &&& encoder_contents(e).1.len() == written_header_len_spec(*prefs)
            &&& written_header_spec(encoder_contents(e).1, *prefs)
            &&& encoder_contents(e).2 == *prefs
            &&& encoder_contents(e).3 == 0
        },
{
    let f = &prefs.frame_info;
    lz4::EncoderBuilder::new()
        .block_size(match f.block_size { BlockSize::Default => Lz4Size::Default, BlockSize::Max64KB => Lz4Size::Max64KB, BlockSize::Max256KB => Lz4Size::Max256KB, BlockSize::Max1MB => Lz4Size::Max1MB, BlockSize::Max4MB => Lz4Size::Max4MB })
        .block_mode(match f.block_mode { BlockMode::Linked => Lz4Mode::Linked, BlockMode::Independent => Lz4Mode::Independent })
        .checksum(match f.content_checksum { ContentChecksum::Disabled => Lz4Check::NoChecksum, ContentChecksum::Enabled => Lz4Check::ChecksumEnabled })
        .block_checksum(match f.block_checksum { BlockChecksum::Disabled => Lz4BlockCheck::NoBlockChecksum, BlockChecksum::Enabled => Lz4BlockCheck::BlockChecksumEnabled })
        .level(prefs.compression_level as u32)
        .auto_flush(auto_flush)
        .favor_dec_speed(favor_dec_speed)
        .content_size(f.content_size)
        .build(Vec::new())
        .map_err(|e| e.to_string())
}

/// Create an encoder that writes a frame with the block size, block mode,
/// checksum flags, compression level, auto flush, decompression speed flag
/// and content size of `prefs`; the dictionary id and frame type of `prefs`
/// have no setter in the `lz4` crate and are not passed on. It fails only
/// when liblz4 cannot allocate its context.
pub(crate) fn encoder_new(prefs: &Preferences) -> (r: Result<lz4::Encoder<Vec<u8>>, Error>)
    ensures
        r matches Err(e) ==> e == Error::Lz4f(ErrorKind::AllocationFailed),
        r matches Ok(e) ==> {
            &&& encoder_contents(e).0 == Seq::<u8>::empty()
            &&& encoder_contents(e).1.len() == written_header_len_spec(*prefs)
            &&& written_header_spec(encoder_contents(e).1, *prefs)
            &&& encoder_contents(e).2 == *prefs
            &&& encoder_contents(e).3 == 0
        },
{
    let auto_flush = match prefs.auto_flush {
        AutoFlush::Enabled => true,
        AutoFlush::Disabled => false,
    };
    let favor_dec_speed = match prefs.favor_dec_speed {
        FavorDecSpeed::Enabled => true,
        FavorDecSpeed::Disabled => false,
    };
    match encoder_build(prefs, auto_flush, favor_dec_speed) {
        Ok(e) => Ok(e),
        Err(_) => Err(Error::new(ErrorKind::AllocationFailed)),
    }
}

/// Calls `Write::write_all` of `lz4::Encoder`, which hands `data` to
/// `LZ4F_compressUpdate` a block at a time and appends what comes out to the
/// encoder's `Vec`. Claimed: the call succeeds (each block of at most the
/// block size goes to a buffer that `build` sized by `LZ4F_compressBound`
/// for a whole block, so `LZ4F_compressUpdate` has no error to give, and a
/// `Vec` takes every write); the `Vec` only grows at its end; the encoder has
/// taken `data` after what it had; its settings stay. With auto flush,
/// nothing stays buffered between calls, and each piece of at most a block
/// becomes one block of at most a block header, the piece's length (a block
/// that does not shrink is stored raw) and a block checksum
/// (`lz4frame.c`, `LZ4F_compressUpdate` and `LZ4F_makeBlock`; the same count
/// as `LZ4F_compressBound_internal` with nothing buffered, less the end
/// mark and content checksum that it also counts). Each call of
/// `LZ4F_compressUpdate` on a non-empty piece either writes a block or
/// copies the piece into its held-back bytes (it "returns zero, meaning
/// input data was just buffered"), so after a non-empty `data` the `Vec`
/// has grown or liblz4 holds bytes back.
#[verifier::external_body]
pub(crate) fn encoder_write(e: &mut lz4::Encoder<Vec<u8>>, data: &[u8]) -> (r: Result<(), String>)
    ensures
        r is Ok,
        encoder_contents(*old(e)).1.is_prefix_of(encoder_contents(*final(e)).1),
        encoder_contents(*final(e)).0 == encoder_contents(*old(e)).0 + data@,
        encoder_contents(*final(e)).2 == encoder_contents(*old(e)).2,
        data@.len() > 0 ==> encoder_contents(*final(e)).1.len() > encoder_contents(*old(e)).1.len()
            || encoder_contents(*final(e)).3 > 0,
        encoder_contents(*old(e)).2.auto_flush == AutoFlush::Enabled ==> encoder_contents(
            *final(e),
        ).1.len() + 4 + content_checksum_size_spec(
            encoder_contents(*old(e)).2.frame_info.content_checksum,
        ) <= encoder_contents(*old(e)).1.len() + compress_bound_internal_spec(
            data@.len(),
            encoder_contents(*old(e)).2,
            0,
        ),
{
    e.write_all(data).map_err(|err| err.to_string())
}

/// Calls `Write::flush` of `lz4::Encoder` (`LZ4F_flush` until it writes
/// nothing). Claimed: the call succeeds (`LZ4F_flush` needs room for one
/// block, which the buffer `build` sized has, and a `Vec` takes every
/// write); the `Vec` only grows at its end; the input taken and the
/// announced content size do not change, and, as liblz4 documents for `LZ4F_flush` ("it
/// will immediately compress any data buffered"), the frame written so far
/// decodes, without error, to all of the input taken (whether the decoder
/// sees a complete frame is not claimed: the end mark is not written yet).
/// Bytes held back are written as a block (of at least a block header), so
/// the `Vec` grows when liblz4 held any, and afterwards it holds none back
/// (`LZ4F_flush` returns 0 only when `tmpInSize` is 0).
#[verifier::external_body]
pub(crate) fn encoder_flush(e: &mut lz4::Encoder<Vec<u8>>) -> (r: Result<(), String>)
    ensures
        r is Ok,
        encoder_contents(*old(e)).1.is_prefix_of(encoder_contents(*final(e)).1),
        encoder_contents(*final(e)).0 == encoder_contents(*old(e)).0,
        encoder_contents(*final(e)).2 == encoder_contents(*old(e)).2,
        lz4f_decode(encoder_contents(*final(e)).1).0 == encoder_contents(*final(e)).0,
        lz4f_decode(encoder_contents(*final(e)).1).2 is None,
        encoder_contents(*old(e)).3 > 0 ==> encoder_contents(*final(e)).1.len() > encoder_contents(
            *old(e),
        ).1.len(),
        encoder_contents(*final(e)).3 == 0,
{
    e.flush().map_err(|err| err.to_string())
}

/// Calls `lz4::Encoder::writer`. Claimed: it is the `Vec` the frame is
/// written to.
#[verifier::external_body]
pub(crate) fn encoder_output(e: &lz4::Encoder<Vec<u8>>) -> (r: &Vec<u8>)
    ensures
        r@ == encoder_contents(*e).1,
{
    e.writer()
}

/// Calls `lz4::Encoder::finish` (`LZ4F_compressEnd`), which writes the end
/// of the frame and gives the `Vec` back. Claimed: the `Vec` holds what the
/// encoder had written followed by the end, and when the end was written
/// the `Vec` holds one complete frame whose decoding gives back exactly the
/// input the encoder took, without error (the frame format is lossless).
/// The end fails only with `frameSize_wrong`, exactly when the header
/// announced a content size other than the number of bytes taken
/// (`lz4frame.c`, `LZ4F_compressEnd`; the buffer has room for the last
/// block and the end mark, and a `Vec` takes every write). With auto
/// flush nothing is buffered, so the end adds only the end mark and the
/// content checksum.
#[verifier::external_body]
pub(crate) fn encoder_finish(e: lz4::Encoder<Vec<u8>>) -> (r: (Vec<u8>, Result<(), String>))
    ensures
        encoder_contents(e).1.is_prefix_of(r.0@),
        r.1 is Ok <==> (encoder_contents(e).2.frame_info.content_size == 0
            || encoder_contents(e).2.frame_info.content_size == encoder_contents(e).0.len()),
        r.1 is Ok && encoder_contents(e).2.auto_flush == AutoFlush::Enabled ==> r.0@.len()
            <= encoder_contents(e).1.len() + 4 + content_checksum_size_spec(
            encoder_contents(e).2.frame_info.content_checksum,
        ),
        r.1 matches Err(m) ==> m@ == frame_size_wrong_message(),
        r.1 is Ok ==> lz4f_decode(r.0@) == (encoder_contents(e).0, true, None::<Seq<char>>),
{
    let (w, res) = e.finish();
    (w, res.map_err(|err| err.to_string()))
}

/// Calls `lz4::Decoder::new` on a slice, which creates a liblz4
/// decompression context. Claimed: it fails only when liblz4 cannot
/// allocate the context (`LZ4F_createDecompressionContext`); the decoder
/// reads from `src` and has yielded nothing yet.
#[verifier::external_body]
pub(crate) fn decoder_new<'a>(src: &'a [u8]) -> (r: Result<lz4::Decoder<&'a [u8]>, String>)
    ensures
        r matches Err(m) ==> m@ == allocation_failed_message(),
        r matches Ok(d) ==> decoder_contents(d) == (src@, Seq::<u8>::empty(), false),
{
    lz4::Decoder::new(src).map_err(|err| err.to_string())
}

/// Calls `Read::read` of `lz4::Decoder` (`LZ4F_decompress` on the slice).
/// Claimed: `buf` keeps its length and the slice read from stays the same; a
/// read of `n > 0` bytes gives the next `n` bytes of the decoding; a read of
/// nothing into a non-empty `buf` means that every byte of the decoding has
/// been yielded, that the decoding ended without error, and the decoder
/// notes that it stopped; an error gives the message of the decoding's error.
#[verifier::external_body]
pub(crate) fn decoder_read(d: &mut lz4::Decoder<&[u8]>, buf: &mut [u8]) -> (r: Result<usize, String>)
    ensures
        final(buf)@.len() == old(buf)@.len(),
        decoder_contents(*final(d)).0 == decoder_contents(*old(d)).0,
        r matches Ok(n) ==> {
            &&& n <= old(buf)@.len()
            &&& decoder_contents(*final(d)).1 == decoder_contents(*old(d)).1 + final(buf)@.take(n as int)
            &&& decoder_contents(*final(d)).1.is_prefix_of(lz4f_decode(decoder_contents(*old(d)).0).0)
            &&& (n == 0 && old(buf)@.len() > 0) ==> {
                &&& decoder_contents(*final(d)).1 == lz4f_decode(decoder_contents(*old(d)).0).0
                &&& lz4f_decode(decoder_contents(*old(d)).0).2 is None
                &&& decoder_contents(*final(d)).2
            }
        },
        r matches Err(m) ==> lz4f_decode(decoder_contents(*old(d)).0).2 == Some(m@),
{
    d.read(buf).map_err(|err| err.to_string())
}

/// Calls `lz4::Decoder::finish`. Claimed: once the decoder has reported that
/// it yields no more, the call succeeds exactly when the decoding ended at
/// the end of a complete frame.
#[verifier::external_body]
pub(crate) fn decoder_finish(d: lz4::Decoder<&[u8]>) -> (r: bool)
    ensures
        decoder_contents(d).2 ==> r == lz4f_decode(decoder_contents(d).0).1,
{
    d.finish().1.is_ok()
}

} // verus!
