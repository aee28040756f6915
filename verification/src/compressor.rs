//! A push-style compressor: chunks go in, compressed bytes come out, and a
//! final call closes the stream.

use vstd::prelude::*;
use crate::failure::ErrorKind;
use crate::gzip::decoder_read_all;
use crate::gzip::encoder_closes;
use crate::gzip::encoder_drain;
use crate::gzip::encoder_finish;
use crate::gzip::encoder_input;
use crate::gzip::encoder_level;
use crate::gzip::encoder_new;
use crate::gzip::encoder_output;
use crate::gzip::encoder_sink;
use crate::gzip::encoder_takes;
use crate::gzip::encoder_write;
use crate::gzip::gzip_decoded;
use crate::gzip::Encoder;
use crate::level::MAX_LEVEL;

verus! {

/// A gzip stream under construction.
///
/// The compressor keeps no copy of what passes through it: each write hands
/// back the compressed bytes that it brought forth, and the caller forwards
/// them. Once a write has failed the stream is broken for good: every later
/// call fails too, so a broken stream can never be closed into something
/// that looks complete.
pub struct StreamCompressor {
    level: u32,
    encoder: Option<Encoder>,
}

impl StreamCompressor {
    #[verifier::type_invariant]
    spec fn well_formed(self) -> bool {
        &&& self.level <= MAX_LEVEL
        &&& self.encoder matches Some(e) ==> {
            &&& encoder_sink(e) == Seq::<u8>::empty()
            &&& encoder_level(e) == self.level
        }
    }

    /// The level the stream was opened at, which is the level that its
    /// encoder works at for as long as the stream is whole.
    pub closed spec fn spec_level(self) -> u32 {
        self.level
    }

    /// Whether the stream, as it stands, takes the chunk: it is not broken,
    /// and its encoder accepts the chunk.
    pub closed spec fn takes(self, chunk: Seq<u8>) -> bool {
        self.encoder matches Some(e) && encoder_takes(e, chunk)
    }

    /// Whether the stream, as it stands, can be closed: it is not broken,
    /// and its encoder can be finished.
    pub closed spec fn closes(self) -> bool {
        self.encoder matches Some(e) && encoder_closes(e)
    }

    /// A broken stream takes nothing and cannot be closed.
    pub proof fn lemma_broken_stream_refuses(self, chunk: Seq<u8>)
        requires
            self.is_broken(),
        ensures
            !self.takes(chunk),
            !self.closes(),
    {
    }

    /// Whether an earlier write failed.
    pub closed spec fn is_broken(self) -> bool {
        self.encoder is None
    }

    /// All bytes accepted so far, in order.
    pub closed spec fn consumed(self) -> Seq<u8> {
        match self.encoder {
            Some(e) => encoder_input(e),
            None => Seq::empty(),
        }
    }

    /// All compressed bytes handed out so far, in order.
    pub closed spec fn produced(self) -> Seq<u8> {
        match self.encoder {
            Some(e) => encoder_output(e),
            None => Seq::empty(),
        }
    }

    /// Opens a stream at the given level.
    pub fn new(level: u32) -> (c: Self)
        requires
            level <= MAX_LEVEL,
        ensures
            c.spec_level() == level,
            !c.is_broken(),
            c.consumed() == Seq::<u8>::empty(),
            c.produced() == Seq::<u8>::empty(),
    {
        StreamCompressor { level, encoder: Some(encoder_new(level)) }
    }

    /// The level the stream was opened at.
    pub fn level(&self) -> (l: u32)
        ensures
            l == self.spec_level(),
            l <= MAX_LEVEL,
    {
        proof {
            use_type_invariant(self);
        }
        self.level
    }

    /// Whether an earlier write failed.
    pub fn broken(&self) -> (b: bool)
        ensures
            b == self.is_broken(),
    {
        self.encoder.is_none()
    }

    /// Pushes one chunk through and returns the compressed bytes that this
    /// brought forth (possibly none: the encoder buffers).
    ///
    /// The write succeeds exactly when the stream takes the chunk. A write
    /// on a broken stream fails without touching it. A write that fails
    /// breaks the stream.
    pub fn write(&mut self, chunk: &[u8]) -> (r: Result<Vec<u8>, ErrorKind>)
        ensures
            final(self).spec_level() == old(self).spec_level(),
            r is Ok <==> old(self).takes(chunk@),
            old(self).is_broken() ==> r is Err,
            r is Err <==> final(self).is_broken(),
            r matches Err(kind) ==> kind == ErrorKind::StorageFailure,
            r matches Ok(out) ==> {
                &&& final(self).consumed() == old(self).consumed() + chunk@
                &&& final(self).produced() == old(self).produced() + out@
            },
    {
        proof {
            use_type_invariant(&*self);
        }
        let mut held: Option<Encoder> = None;
        core::mem::swap(&mut self.encoder, &mut held);
        match held {
            None => Err(ErrorKind::StorageFailure),
            Some(mut e) => {
                match encoder_write(&mut e, chunk) {
                    Ok(()) => {
                        let out = encoder_drain(&mut e);
                        self.encoder = Some(e);
                        Ok(out)
                    },
                    Err(_) => Err(ErrorKind::StorageFailure),
                }
            },
        }
    }

    /// Closes the stream and returns its last bytes: whatever the encoder
    /// still held, and the checksum and length trailer.
    ///
    /// Closing succeeds exactly when the stream can be closed. Everything
    /// handed out so far, followed by the returned bytes, is then a complete
    /// gzip member that decodes to exactly the bytes that went in. A broken
    /// stream cannot be closed.
    pub fn finish(self) -> (r: Result<Vec<u8>, ErrorKind>)
        ensures
            r is Ok <==> self.closes(),
            self.is_broken() ==> r is Err,
            r matches Err(kind) ==> kind == ErrorKind::StorageFailure,
            r matches Ok(tail) ==> gzip_decoded(self.produced() + tail@) == Some(self.consumed()),
    {
        proof {
            use_type_invariant(&self);
        }
        match self.encoder {
            None => Err(ErrorKind::StorageFailure),
            Some(e) => {
                match encoder_finish(e) {
                    Ok(tail) => Ok(tail),
                    Err(_) => Err(ErrorKind::StorageFailure),
                }
            },
        }
    }
}

/// The bytes of the given chunks, one after the other.
pub open spec fn joined(chunks: Seq<Vec<u8>>) -> Seq<u8>
    decreases chunks.len(),
{
    if chunks.len() == 0 {
        Seq::empty()
    } else {
        joined(chunks.drop_last()) + chunks.last()@
    }
}

/// Whether `stream` is where compressing `chunks` at `level` comes to a
/// halt: a whole stream of that level that has taken in the first `taken`
/// chunks and refuses the next, or has taken in all and cannot be closed.
pub open spec fn stalls_at(stream: StreamCompressor, chunks: Seq<Vec<u8>>, level: u32, taken: int) -> bool {
    &&& 0 <= taken <= chunks.len()
    &&& !stream.is_broken()
    &&& stream.spec_level() == level
    &&& stream.consumed() == joined(chunks.take(taken))
    &&& if taken < chunks.len() {
        !stream.takes(chunks[taken]@)
    } else {
        !stream.closes()
    }
}

/// Compresses an upload that arrives in chunks into one artifact: each
/// chunk is pushed through a stream opened at `level`, and the stream is
/// closed after the last.
///
/// Whatever the level and however the upload is cut into chunks, the
/// artifact decodes to exactly the bytes of the chunks in order. The call
/// fails only where the stream itself does: there is then a whole stream of
/// that level which has taken in some of the chunks, in order, and refuses
/// the next, or has taken in all of them and cannot be closed.
pub fn compress_chunks(chunks: &Vec<Vec<u8>>, level: u32) -> (r: Result<Vec<u8>, ErrorKind>)
    requires
        level <= MAX_LEVEL,
    ensures
        r matches Ok(artifact) ==> gzip_decoded(artifact@) == Some(joined(chunks@)),
        r matches Err(kind) ==> kind == ErrorKind::StorageFailure,
        r is Err ==> exists|stream: StreamCompressor, taken: int| #[trigger]
            stalls_at(stream, chunks@, level, taken),
{
    let mut stream = StreamCompressor::new(level);
    let mut artifact: Vec<u8> = Vec::new();
    let mut i: usize = 0;
    while i < chunks.len()
        invariant
            i <= chunks@.len(),
            !stream.is_broken(),
            stream.spec_level() == level,
            stream.consumed() == joined(chunks@.take(i as int)),
            stream.produced() == artifact@,
        decreases chunks@.len() - i,
    {
        let ghost before = stream;
        match stream.write(chunks[i].as_slice()) {
            Ok(out) => {
                let mut out = out;
                artifact.append(&mut out);
            },
            Err(kind) => {
                assert(stalls_at(before, chunks@, level, i as int));
                return Err(kind);
            },
        }
        proof {
            assert(chunks@.take(i + 1).drop_last() =~= chunks@.take(i as int));
        }
        i = i + 1;
    }
    proof {
        assert(chunks@.take(i as int) =~= chunks@);
    }
    let ghost last = stream;
    match stream.finish() {
        Ok(tail) => {
            let mut tail = tail;
            artifact.append(&mut tail);
            Ok(artifact)
        },
        Err(kind) => {
            assert(stalls_at(last, chunks@, level, i as int));
            Err(kind)
        },
    }
}

/// Reads a finished artifact back.
///
/// Returns the bytes that the artifact's gzip member decodes to, or
/// [`ErrorKind::StorageFailure`] where the artifact is cut short or corrupt.
pub fn decompress(artifact: &[u8]) -> (r: Result<Vec<u8>, ErrorKind>)
    ensures
        r matches Ok(plain) ==> gzip_decoded(artifact@) == Some(plain@),
        r matches Err(kind) ==> kind == ErrorKind::StorageFailure && gzip_decoded(artifact@) is None,
{
    match decoder_read_all(artifact) {
        Ok(plain) => Ok(plain),
        Err(_) => Err(ErrorKind::StorageFailure),
    }
}

} // verus!
