//! The streaming gzip encoder and the decoder that reads its output back.
//!
//! The encoder is `flate2`'s, writing into a byte vector that is emptied after
//! every write, so that memory use does not grow with the size of the upload.

use vstd::prelude::*;
use crate::level::DEFAULT_LEVEL;
use crate::level::MAX_LEVEL;

verus! {

/// A `flate2::write::GzEncoder` whose sink is a byte vector. Its inside is
/// known only through the functions below that take an `Encoder`.
#[verifier::external_body]
pub struct Encoder {
    inner: flate2::write::GzEncoder<Vec<u8>>,
}

#[verifier::external_type_specification]
#[verifier::external_body]
pub struct ExIoError(std::io::Error);

/// The compression level that the encoder was made with.
pub uninterp spec fn encoder_level(e: Encoder) -> u32;

/// Every byte written into the encoder since it was made, in order.
pub uninterp spec fn encoder_input(e: Encoder) -> Seq<u8>;

/// The encoder's logical output stream: every byte it has handed to its sink
/// since it was made, in order, whether or not the sink still holds it.
pub uninterp spec fn encoder_output(e: Encoder) -> Seq<u8>;

/// The bytes that the encoder's sink holds at this moment.
pub uninterp spec fn encoder_sink(e: Encoder) -> Seq<u8>;

/// Whether the encoder, as it stands, accepts the whole of `chunk` when it
/// is written to it. The sink is a vector and never refuses, so this rests
/// on the encoder and the chunk alone.
pub uninterp spec fn encoder_takes(e: Encoder, chunk: Seq<u8>) -> bool;

/// Whether the encoder, as it stands, can be finished.
pub uninterp spec fn encoder_closes(e: Encoder) -> bool;

/// What decoding one gzip member from the start of `bytes` yields, or `None`
/// where the decoder reports an error.
pub uninterp spec fn gzip_decoded(bytes: Seq<u8>) -> Option<Seq<u8>>;

/// `flate2::Compression::default`: the level that the encoder library itself
/// prefers, which is 6.
#[verifier::external_body]
pub(crate) fn encoder_default_level() -> (r: u32)
    ensures
        r == DEFAULT_LEVEL,
{
    flate2::Compression::default().level()
}

/// `flate2::write::GzEncoder::new` over an empty vector, at the level given:
/// a fresh encoder has consumed nothing, produced nothing, and its sink is
/// empty. Levels above 9 are kept out because the encoder's back end rejects
/// some of them.
#[verifier::external_body]
pub(crate) fn encoder_new(level: u32) -> (e: Encoder)
    requires
        level <= MAX_LEVEL,
    ensures
        encoder_level(e) == level,
        encoder_input(e) == Seq::<u8>::empty(),
        encoder_output(e) == Seq::<u8>::empty(),
        encoder_sink(e) == Seq::<u8>::empty(),
{
    Encoder { inner: flate2::write::GzEncoder::new(Vec::new(), flate2::Compression::new(level)) }
}

/// `write_all` on a `flate2::write::GzEncoder`. It succeeds exactly when the
/// encoder takes the chunk. The whole chunk has then become input, and what
/// the write added to the output stream is what now lies in the sink, which
/// was empty before. Nothing more is claimed of an encoder whose write
/// failed.
#[verifier::external_body]
pub(crate) fn encoder_write(e: &mut Encoder, chunk: &[u8]) -> (r: Result<(), std::io::Error>)
    requires
        encoder_sink(*old(e)) == Seq::<u8>::empty(),
    ensures
        (r is Ok) == encoder_takes(*old(e), chunk@),
        r is Ok ==> {
            &&& encoder_level(*final(e)) == encoder_level(*old(e))
            &&& encoder_input(*final(e)) == encoder_input(*old(e)) + chunk@
            &&& encoder_output(*final(e)) == encoder_output(*old(e)) + encoder_sink(*final(e))
        },
{
    std::io::Write::write_all(&mut e.inner, chunk)
}

/// `std::mem::take` on the sink that `flate2::write::GzEncoder::get_mut`
/// gives: the bytes that the sink held are returned and the sink is left
/// empty. The encoder itself is not touched: its level, its input and its
/// output stream are what they were.
#[verifier::external_body]
pub(crate) fn encoder_drain(e: &mut Encoder) -> (held: Vec<u8>)
    ensures
        held@ == encoder_sink(*old(e)),
        encoder_sink(*final(e)) == Seq::<u8>::empty(),
        encoder_level(*final(e)) == encoder_level(*old(e)),
        encoder_input(*final(e)) == encoder_input(*old(e)),
        encoder_output(*final(e)) == encoder_output(*old(e)),
{
    std::mem::take(e.inner.get_mut())
}

/// `flate2::write::GzEncoder::finish`: flushes what is left and writes the
/// checksum and length trailer, returning the sink. It succeeds exactly when
/// the encoder closes. The output stream, ended by the returned bytes, is
/// then a complete gzip member that decodes to exactly the input.
#[verifier::external_body]
pub(crate) fn encoder_finish(e: Encoder) -> (r: Result<Vec<u8>, std::io::Error>)
    requires
        encoder_sink(e) == Seq::<u8>::empty(),
    ensures
        (r is Ok) == encoder_closes(e),
        r matches Ok(tail) ==> gzip_decoded(encoder_output(e) + tail@) == Some(encoder_input(e)),
{
    e.inner.finish()
}

/// `flate2::read::GzDecoder` over a byte slice, read to its end: the bytes
/// of the first gzip member, or the decoder's error.
#[verifier::external_body]
pub(crate) fn decoder_read_all(bytes: &[u8]) -> (r: Result<Vec<u8>, std::io::Error>)
    ensures
        r matches Ok(plain) ==> gzip_decoded(bytes@) == Some(plain@),
        r is Err ==> gzip_decoded(bytes@) is None,
{
    let mut plain = Vec::new();
    match std::io::Read::read_to_end(&mut flate2::read::GzDecoder::new(bytes), &mut plain) {
        Ok(_) => Ok(plain),
        Err(err) => Err(err),
    }
}

} // verus!
