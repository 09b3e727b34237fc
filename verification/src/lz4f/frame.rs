//! One-shot LZ4 frame compression and decompression.

use vstd::prelude::*;
use crate::common::{ErrorKind as CommonErrorKind, Report, DEFAULT_BUF_SIZE};
use super::bound::{
    compress_frame_bound_spec, frame_preferences, frame_preferences_spec, lemma_frame_preferences_bound,
    lemma_written_header_prefix,
    max_compressed_size, written_header_spec,
};
use super::codec::{
    decoder_contents, decoder_finish, decoder_new, decoder_read, encoder_contents, encoder_finish,
    encoder_new, encoder_write, lz4f_decode,
};
use super::error::{Error, ErrorKind, Result};
use super::preferences::{AutoFlush, Preferences};
use super::bytes::{append_all, append_range, copy_into};

verus! {

/// Compress all of `src` into one frame written with `prefs`. It fails when
/// liblz4 cannot allocate its context, or when `prefs` announce a content
/// size other than the length of `src`.
fn encode_frame(src: &[u8], prefs: &Preferences) -> (r: Result<Vec<u8>>)
    ensures
        r matches Ok(frame) ==> {
            &&& lz4f_decode(frame@) == (src@, true, None::<Seq<char>>)
            &&& written_header_spec(frame@, *prefs)
            &&& prefs.auto_flush == AutoFlush::Enabled ==> frame@.len() <= compress_frame_bound_spec(
                src@.len(),
                *prefs,
            )
        },
        r matches Err(e) ==> e == Error::Lz4f(ErrorKind::AllocationFailed) || (e == Error::Lz4f(
            ErrorKind::FrameSizeWrong,
        ) && prefs.frame_info.content_size != 0 && prefs.frame_info.content_size != src@.len()),
        prefs.frame_info.content_size == 0 || prefs.frame_info.content_size == src@.len() ==> r is Ok
            || r == Err::<Vec<u8>, Error>(Error::Lz4f(ErrorKind::AllocationFailed)),
{
    let mut enc = encoder_new(prefs)?;
    let ghost header = encoder_contents(enc).1;
    assert(header.len() <= 15);
    proof {
        if prefs.auto_flush == AutoFlush::Enabled {
            assert(Preferences { auto_flush: AutoFlush::Enabled, ..*prefs } == *prefs);
        }
    }
    let _ = encoder_write(&mut enc, src);
    assert(Seq::<u8>::empty() + src@ == src@);
    let ghost written = encoder_contents(enc).1;
    let (frame, res) = encoder_finish(enc);
    proof {
        assert(header.is_prefix_of(frame@)) by {
            assert(header.is_prefix_of(written));
            assert(written.is_prefix_of(frame@));
            assert forall|i: int| 0 <= i < header.len() implies header[i] == frame@[i] by {
                assert(header[i] == written[i]);
            }
        }
        lemma_written_header_prefix(header, frame@, *prefs);
    }
    match res {
        Ok(()) => Ok(frame),
        Err(_) => Err(Error::new(ErrorKind::FrameSizeWrong)),
    }
}

/// Read data from a slice and write compressed data into another slice.
///
/// `dst` must have room for `max_compressed_size(src.len(), ..)` bytes of
/// the preferences that liblz4 uses for a one-shot frame, else the call
/// fails with `DstMaxSizeTooSmall`. Past that it fails only when liblz4
/// cannot allocate its context. On success the first `dst_len()` bytes of `dst` hold one frame,
/// with the header that liblz4 writes for those preferences, that
/// decompresses to `src`.
pub fn compress(src: &[u8], dst: &mut [u8], prefs: &Preferences) -> (r: Result<Report>)
    ensures
        final(dst)@.len() == old(dst)@.len(),
        src@.len() > isize::MAX ==> r == Err::<Report, Error>(Error::Lz4f(ErrorKind::SrcSizeTooLarge)),
        src@.len() <= isize::MAX && old(dst)@.len() < compress_frame_bound_spec(
            src@.len(),
            frame_preferences_spec(src@.len(), *prefs),
        ) ==> r == Err::<Report, Error>(Error::Lz4f(ErrorKind::DstMaxSizeTooSmall)),
        src@.len() <= isize::MAX && old(dst)@.len() >= compress_frame_bound_spec(
            src@.len(),
            frame_preferences_spec(src@.len(), *prefs),
        ) ==> r is Ok || r == Err::<Report, Error>(Error::Lz4f(ErrorKind::AllocationFailed)),
        r matches Ok(rep) ==> {
            &&& rep == Report { src_len: None, dst_len: rep.dst_len, expected_src_len: None }
            &&& rep.dst_len <= old(dst)@.len()
            &&& rep.dst_len <= compress_frame_bound_spec(
                src@.len(),
                frame_preferences_spec(src@.len(), *prefs),
            )
            &&& lz4f_decode(final(dst)@.take(rep.dst_len as int)) == (src@, true, None::<Seq<char>>)
            &&& written_header_spec(
                final(dst)@.take(rep.dst_len as int),
                frame_preferences_spec(src@.len(), *prefs),
            )
            &&& final(dst)@.skip(rep.dst_len as int) == old(dst)@.skip(rep.dst_len as int)
        },
        r is Err ==> final(dst)@ == old(dst)@,
        r matches Err(e) ==> e is Lz4f,
{
    if src.len() > isize::MAX as usize {
        return Err(Error::new(ErrorKind::SrcSizeTooLarge));
    }
    let frame_prefs = frame_preferences(src.len(), prefs);
    let bound = max_compressed_size(src.len(), &frame_prefs);
    if dst.len() < bound {
        return Err(Error::new(ErrorKind::DstMaxSizeTooSmall));
    }
    let frame = encode_frame(src, &frame_prefs)?;
    let n = frame.len();
    copy_into(dst, frame.as_slice(), 0, n);
    assert(frame@.subrange(0, n as int) =~= frame@);
    Ok(Report::with_dst_len(n))
}

/// Read data from a slice and append compressed data to `Vec<u8>`.
///
/// The content already in `dst` stays; on success one frame that
/// decompresses to `src` follows it. It fails only when liblz4 cannot
/// allocate its context.
pub fn compress_to_vec(src: &[u8], dst: &mut Vec<u8>, prefs: &Preferences) -> (r: Result<Report>)
    ensures
        src@.len() > isize::MAX ==> r == Err::<Report, Error>(Error::Lz4f(ErrorKind::SrcSizeTooLarge)),
        r matches Ok(rep) ==> {
            &&& rep == Report { src_len: None, dst_len: rep.dst_len, expected_src_len: None }
            &&& final(dst)@.len() == old(dst)@.len() + rep.dst_len
            &&& final(dst)@.take(old(dst)@.len() as int) == old(dst)@
            &&& rep.dst_len <= compress_frame_bound_spec(src@.len(), *prefs)
            &&& lz4f_decode(final(dst)@.skip(old(dst)@.len() as int)) == (src@, true, None::<Seq<char>>)
            &&& written_header_spec(
                final(dst)@.skip(old(dst)@.len() as int),
                frame_preferences_spec(src@.len(), *prefs),
            )
        },
        src@.len() <= isize::MAX ==> r is Ok || r == Err::<Report, Error>(
            Error::Lz4f(ErrorKind::AllocationFailed),
        ),
        r is Err ==> final(dst)@ == old(dst)@,
        r matches Err(e) ==> e is Lz4f,
{
    if src.len() > isize::MAX as usize {
        return Err(Error::new(ErrorKind::SrcSizeTooLarge));
    }
    let frame_prefs = frame_preferences(src.len(), prefs);
    let frame = encode_frame(src, &frame_prefs)?;
    proof {
        lemma_frame_preferences_bound(src@.len(), *prefs);
    }
    let ghost d0 = dst@;
    let n = frame.len();
    append_all(dst, frame.as_slice());
    assert(dst@.take(d0.len() as int) =~= d0);
    assert(dst@.skip(d0.len() as int) =~= frame@);
    Ok(Report::with_dst_len(n))
}

/// The content of the frame that `src` starts with, when liblz4 decodes it
/// whole and without error.
pub open spec fn decoded_spec(src: Seq<u8>) -> Option<Seq<u8>> {
    if lz4f_decode(src).1 && lz4f_decode(src).2 is None {
        Some(lz4f_decode(src).0)
    } else {
        None
    }
}

/// A frame that `compress` or `compress_to_vec` wrote from `src` decodes
/// whole and without error to `src`: by the contract of
/// `decompress_to_vec`, decompressing it succeeds (unless liblz4 cannot
/// allocate its context) and appends exactly `src`.
pub proof fn lemma_compressed_frame_round_trip(src: Seq<u8>, frame: Seq<u8>)
    requires
        lz4f_decode(frame) == (src, true, None::<Seq<char>>),
    ensures
        decoded_spec(frame) == Some(src),
{
}

/// Read data from a slice and append decompressed data to `Vec<u8>`.
///
/// The content already in `dst` stays; on success the decompressed content
/// of the frame that `src` starts with follows it. A frame that `src` holds
/// only part of gives `CompressedDataIncomplete`, an error of liblz4's
/// decoder gives the kind that its message names, and a failed allocation
/// of liblz4's context gives `AllocationFailed`; on any error `dst` is left
/// as it was.
pub fn decompress_to_vec(src: &[u8], dst: &mut Vec<u8>) -> (r: Result<Report>)
    ensures
        r matches Ok(rep) ==> {
            &&& lz4f_decode(src@).1
            &&& lz4f_decode(src@).2 is None
            &&& final(dst)@ == old(dst)@ + lz4f_decode(src@).0
            &&& rep == Report { src_len: None, dst_len: lz4f_decode(src@).0.len() as usize, expected_src_len: None }
        },
        r is Ok ==> decoded_spec(src@) == Some(final(dst)@.skip(old(dst)@.len() as int)),
        decoded_spec(src@) is None ==> r is Err,
        r matches Err(Error::Common(k)) ==> k == CommonErrorKind::CompressedDataIncomplete
            && !lz4f_decode(src@).1 && lz4f_decode(src@).2 is None,
        decoded_spec(src@) is Some ==> r is Ok || r == Err::<Report, Error>(
            Error::Lz4f(ErrorKind::AllocationFailed),
        ),
        lz4f_decode(src@).2 matches Some(m) ==> r == Err::<Report, Error>(Error::from_message_spec(m))
            || r == Err::<Report, Error>(Error::Lz4f(ErrorKind::AllocationFailed)),
        !lz4f_decode(src@).1 && lz4f_decode(src@).2 is None ==> r == Err::<Report, Error>(
            Error::Common(CommonErrorKind::CompressedDataIncomplete),
        ) || r == Err::<Report, Error>(Error::Lz4f(ErrorKind::AllocationFailed)),
        r is Err ==> final(dst)@ == old(dst)@,
{
    let header_len = dst.len();
    let ghost d0 = dst@;
    let ghost out = lz4f_decode(src@).0;
    let mut decoder = match decoder_new(src) {
        Ok(d) => d,
        Err(_) => return Err(Error::new(ErrorKind::AllocationFailed)),
    };
    let mut chunk: Vec<u8> = vec![0u8; DEFAULT_BUF_SIZE];
    loop
        invariant_except_break
            decoder_contents(decoder).0 == src@,
            decoder_contents(decoder).1.is_prefix_of(out),
            dst@ == d0 + decoder_contents(decoder).1,
            chunk@.len() == DEFAULT_BUF_SIZE,
            header_len == d0.len(),
            d0 == old(dst)@,
            out == lz4f_decode(src@).0,
        ensures
            decoder_contents(decoder).0 == src@,
            decoder_contents(decoder).1 == out,
            decoder_contents(decoder).2,
            lz4f_decode(src@).2 is None,
            dst@ == d0 + out,
            header_len == d0.len(),
        decreases out.len() - decoder_contents(decoder).1.len(),
    {
        let ghost before = decoder_contents(decoder).1;
        match decoder_read(&mut decoder, chunk.as_mut_slice()) {
            Ok(n) => {
                if n == 0 {
                    break;
                }
                append_range(dst, chunk.as_slice(), 0, n);
                assert(chunk@.subrange(0, n as int) =~= chunk@.take(n as int));
                assert(d0 + before + chunk@.take(n as int) == d0 + (before + chunk@.take(n as int)));
            },
            Err(m) => {
                dst.truncate(header_len);
                assert(dst@ =~= d0);
                return Err(Error::from_message(&m));
            },
        }
    }
    if decoder_finish(decoder) {
        assert(dst@.len() == d0.len() + out.len());
        assert(dst@.skip(d0.len() as int) =~= out);
        Ok(Report::with_dst_len(dst.len() - header_len))
    } else {
        dst.truncate(header_len);
        assert(dst@ =~= d0);
        Err(Error::common(CommonErrorKind::CompressedDataIncomplete))
    }
}

} // verus!
