//! The pass-through pipeline stages that accumulate digests.
//!
//! `Sha1Reader` decorates an in-memory byte source: every byte handed out is
//! also fed to a digest accumulator, in read order, so the accumulator
//! always holds exactly the bytes consumed so far. `Sha1Writer` is the
//! synchronous output sink: every byte written is fed to its accumulator in
//! write order. A concurrent sink that forwards chunks to a worker over an
//! ordered channel computes the same digest, because the digest depends only
//! on the order in which the chunks arrive (`lemma_order_preservation`).

use crate::digest::{sha1_of, DigestAccumulator};
use crate::hex;
use vstd::prelude::*;
use vstd::slice::slice_subrange;

verus! {

/// A byte source decorator: hands out the source's bytes in order and feeds
/// every byte it hands out to a SHA-1 accumulator before returning it.
pub struct Sha1Reader<'a> {
    data: &'a [u8],
    pos: usize,
    hasher: DigestAccumulator,
}

impl<'a> Sha1Reader<'a> {
    /// The whole byte sequence of the underlying source.
    pub closed spec fn source(&self) -> Seq<u8> {
        self.data@
    }

    /// The bytes handed out so far, a prefix of the source.
    pub closed spec fn consumed(&self) -> Seq<u8> {
        self.data@.subrange(0, self.pos as int)
    }

    /// The reader's invariant: the accumulator has been fed exactly the
    /// consumed prefix.
    pub closed spec fn wf(&self) -> bool {
        &&& self.pos <= self.data@.len()
        &&& self.hasher@ == self.consumed()
    }

    /// Wraps a byte source; nothing is consumed or hashed yet.
    pub fn new(data: &'a [u8]) -> (r: Self)
        ensures
            r.wf(),
            r.source() == data@,
            r.consumed() == Seq::<u8>::empty(),
    {
        let r = Sha1Reader { data, pos: 0, hasher: DigestAccumulator::new() };
        proof {
            assert(r.consumed() =~= Seq::<u8>::empty());
        }
        r
    }

    /// Reads up to `max` bytes: returns the next bytes of the source, as
    /// many as remain but no more than `max`, and feeds exactly those bytes
    /// to the accumulator. An empty chunk means end-of-stream when `max` is
    /// positive.
    pub fn read(&mut self, max: usize) -> (chunk: Vec<u8>)
        requires
            old(self).wf(),
        ensures
            final(self).wf(),
            final(self).source() == old(self).source(),
            chunk@.len() == vstd::math::min(
                max as int,
                old(self).source().len() - old(self).consumed().len(),
            ),
            chunk@ == old(self).source().subrange(
                old(self).consumed().len() as int,
                old(self).consumed().len() + chunk@.len() as int,
            ),
            final(self).consumed() == old(self).consumed() + chunk@,
            max > 0 && chunk@.len() == 0 ==> final(self).consumed() == final(self).source(),
    {
        let remaining = self.data.len() - self.pos;
        let n = if max < remaining {
            max
        } else {
            remaining
        };
        let part = slice_subrange(self.data, self.pos, self.pos + n);
        self.hasher.update(part);
        let mut chunk: Vec<u8> = Vec::new();
        let mut i: usize = 0;
        while i < part.len()
            invariant
                i <= part@.len(),
                chunk@ == part@.subrange(0, i as int),
            decreases part@.len() - i,
        {
            chunk.push(part[i]);
            proof {
                assert(chunk@ =~= part@.subrange(0, i + 1));
            }
            i = i + 1;
        }
        self.pos = self.pos + n;
        proof {
            assert(chunk@ =~= part@);
            assert(final(self).consumed() =~= old(self).consumed() + part@);
            if max > 0 && n == 0 {
                assert(final(self).consumed() =~= final(self).source());
            }
        }
        chunk
    }

    /// Finalizes the source digest: the lowercase hex SHA-1 digest of every
    /// byte handed out so far.
    pub fn to_hex_string(self) -> (r: String)
        requires
            self.wf(),
        ensures
            r@ == hex::hex_of(sha1_of(self.consumed())),
            r@.len() == 40,
    {
        self.hasher.to_hex_string()
    }
}

/// The synchronous output sink: accumulates a SHA-1 digest over every byte
/// written to it, in write order, on the caller's thread.
pub struct Sha1Writer {
    hasher: DigestAccumulator,
}

impl View for Sha1Writer {
    type V = Seq<u8>;

    /// The bytes written so far, in write order.
    closed spec fn view(&self) -> Seq<u8> {
        self.hasher@
    }
}

impl Sha1Writer {
    /// A fresh sink that has seen no bytes.
    pub fn new() -> (r: Self)
        ensures
            r@ == Seq::<u8>::empty(),
    {
        Sha1Writer { hasher: DigestAccumulator::new() }
    }

    /// Accumulates the whole chunk; the sink never partially accepts a
    /// write, so the count returned is the chunk's full length.
    pub fn write(&mut self, buf: &[u8]) -> (n: usize)
        ensures
            n == buf@.len(),
            final(self)@ == old(self)@ + buf@,
    {
        self.hasher.update(buf);
        buf.len()
    }

    /// Nothing is buffered, so there is nothing to flush.
    pub fn flush(&mut self)
        ensures
            final(self)@ == old(self)@,
    {
    }

    /// Finalizes the output digest: the lowercase hex SHA-1 digest of every
    /// byte written, in write order.
    pub fn to_hex_string(self) -> (r: String)
        ensures
            r@ == hex::hex_of(sha1_of(self@)),
            r@.len() == 40,
    {
        self.hasher.to_hex_string()
    }
}

/// The bytes an accumulator holds after being handed `chunks` one at a
/// time, in order: each chunk is appended after everything before it.
pub open spec fn fed_after(chunks: Seq<Seq<u8>>) -> Seq<u8>
    decreases chunks.len(),
{
    if chunks.len() == 0 {
        Seq::empty()
    } else {
        fed_after(chunks.drop_last()) + chunks.last()
    }
}

/// Feeding chunks one at a time, in order, feeds exactly their
/// concatenation.
pub proof fn lemma_fed_after_is_flatten(chunks: Seq<Seq<u8>>)
    ensures
        fed_after(chunks) == chunks.flatten(),
    decreases chunks.len(),
{
    if chunks.len() == 0 {
        assert(fed_after(chunks) =~= chunks.flatten());
    } else {
        lemma_fed_after_is_flatten(chunks.drop_last());
        chunks.drop_last().lemma_flatten_push(chunks.last());
        assert(chunks.drop_last().push(chunks.last()) =~= chunks);
    }
}

/// Order preservation: a sink that receives chunks in send order — the
/// concurrent worker draining an ordered channel — finalizes to the same
/// digest as a synchronous accumulator fed the concatenated stream at once.
pub proof fn lemma_order_preservation(chunks: Seq<Seq<u8>>)
    ensures
        sha1_of(fed_after(chunks)) == sha1_of(chunks.flatten()),
{
    lemma_fed_after_is_flatten(chunks);
}

/// Chunk-boundary invariance: two ways of splitting one byte stream into
/// chunks feed the same bytes, so both finalize to the same digest.
pub proof fn lemma_chunk_boundary_invariance(a: Seq<Seq<u8>>, b: Seq<Seq<u8>>)
    requires
        a.flatten() == b.flatten(),
    ensures
        sha1_of(fed_after(a)) == sha1_of(fed_after(b)),
{
    lemma_fed_after_is_flatten(a);
    lemma_fed_after_is_flatten(b);
}

/// Feeds every chunk, in order, to one fresh accumulator — the loop the
/// concurrent sink's worker runs — and returns the hex digest of the whole
/// stream the chunks carry.
pub fn digest_chunks(chunks: &Vec<Vec<u8>>) -> (r: String)
    ensures
        r@ == hex::hex_of(sha1_of(chunks@.map_values(|c: Vec<u8>| c@).flatten())),
{
    let ghost views = chunks@.map_values(|c: Vec<u8>| c@);
    let mut acc = DigestAccumulator::new();
    let mut i: usize = 0;
    while i < chunks.len()
        invariant
            i <= chunks@.len(),
            views == chunks@.map_values(|c: Vec<u8>| c@),
            acc@ == views.subrange(0, i as int).flatten(),
        decreases chunks@.len() - i,
    {
        acc.update(chunks[i].as_slice());
        proof {
            let prefix = views.subrange(0, i as int);
            prefix.lemma_flatten_push(views[i as int]);
            assert(prefix.push(views[i as int]) =~= views.subrange(0, i + 1));
        }
        i = i + 1;
    }
    proof {
        assert(views.subrange(0, views.len() as int) =~= views);
    }
    acc.to_hex_string()
}

} // verus!
