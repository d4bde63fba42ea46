//! The orchestrator: one pass over a compressed source, two digests out.
//!
//! The pipeline reads the source in chunks through a [`Sha1Reader`], hands
//! the bytes it gathered to the lz4 frame decoder, writes the decompressed
//! bytes in chunks to a [`Sha1Writer`], and joins the two finalized hex
//! digests into one result line. A malformed frame aborts the run with an
//! error and no line; nothing is retried.

use crate::digest::sha1_of;
use crate::hex::hex_of;
use crate::stream::{Sha1Reader, Sha1Writer};
use vstd::prelude::*;
use vstd::slice::slice_subrange;
use vstd::string::StringExecFns;

verus! {

/// How many bytes one copy step moves between pipeline stages. The digests
/// do not depend on it: chunk boundaries carry no meaning.
const CHUNK_SIZE: usize = 8192;

/// What the lz4 frame format expands a byte sequence to: `Some` of the
/// decompressed content when the sequence is a well-formed run of frames,
/// `None` when it is malformed. A function of the input bytes alone.
pub uninterp spec fn lz4_frame_decode(bytes: Seq<u8>) -> Option<Seq<u8>>;

/// Relies on `lz4_flex::frame::FrameDecoder`: reading it to the end yields
/// the decompressed content of the given bytes, which depends on those
/// bytes alone; a malformed frame is reported as an error; reading an empty
/// input ends at once with an empty output and no error.
#[verifier::external_body]
fn decode_frame(bytes: &[u8]) -> (r: Result<Vec<u8>, String>)
    ensures
        match r {
            Ok(v) => lz4_frame_decode(bytes@) == Some(v@),
            Err(_) => lz4_frame_decode(bytes@) is None,
        },
        bytes@.len() == 0 ==> r is Ok && r->Ok_0@ == Seq::<u8>::empty(),
{
    let mut decoder = lz4_flex::frame::FrameDecoder::new(bytes);
    let mut out: Vec<u8> = Vec::new();
    match std::io::Read::read_to_end(&mut decoder, &mut out) {
        Ok(_) => Ok(out),
        Err(e) => Err(e.to_string()),
    }
}

/// Why the pipeline aborted.
#[derive(Debug)]
pub enum PipelineError {
    /// The source is not a valid compressed frame sequence; the message
    /// carries the fault as the decompression filter reported it.
    InvalidFrame(String),
}

impl PipelineError {
    /// The human-readable account of the fault.
    pub fn message(self) -> (r: String)
        ensures
            r@ == self->InvalidFrame_0@,
    {
        match self {
            PipelineError::InvalidFrame(m) => m,
        }
    }
}

/// The result line for a source whose frames decode: the lowercase hex
/// SHA-1 digest of the raw source bytes, a comma, and the lowercase hex
/// SHA-1 digest of the decompressed bytes.
pub open spec fn hash_line(source: Seq<u8>) -> Seq<char>
    recommends
        lz4_frame_decode(source) is Some,
{
    hex_of(sha1_of(source)) + seq![','] + hex_of(sha1_of(lz4_frame_decode(source)->Some_0))
}

/// Runs the whole pipeline over a compressed source held in memory and
/// returns the result line, a function of the source bytes alone: the same
/// source always yields the same line, whatever chunking the copy loops
/// happen to use. A source that is not a valid frame sequence yields an
/// error and no line.
pub fn reader_to_hashes(source: &[u8]) -> (r: Result<String, PipelineError>)
    ensures
        r is Ok <==> lz4_frame_decode(source@) is Some,
        r is Ok ==> r->Ok_0@ == hash_line(source@),
{
    let mut reader = Sha1Reader::new(source);
    let mut raw: Vec<u8> = Vec::new();
    loop
        invariant
            reader.wf(),
            reader.source() == source@,
            raw@ == reader.consumed(),
        ensures
            reader.wf(),
            reader.consumed() == source@,
            raw@ == source@,
        decreases source@.len() - reader.consumed().len(),
    {
        let mut chunk = reader.read(CHUNK_SIZE);
        if chunk.len() == 0 {
            break;
        }
        raw.append(&mut chunk);
    }
    let decoded = match decode_frame(raw.as_slice()) {
        Ok(v) => v,
        Err(m) => {
            return Err(PipelineError::InvalidFrame(m));
        },
    };
    let mut writer = Sha1Writer::new();
    let mut pos: usize = 0;
    while pos < decoded.len()
        invariant
            pos <= decoded@.len(),
            writer@ == decoded@.subrange(0, pos as int),
        decreases decoded@.len() - pos,
    {
        let end = if decoded.len() - pos < CHUNK_SIZE {
            decoded.len()
        } else {
            pos + CHUNK_SIZE
        };
        let part = slice_subrange(decoded.as_slice(), pos, end);
        writer.write(part);
        proof {
            assert(decoded@.subrange(0, pos as int) + decoded@.subrange(pos as int, end as int)
                =~= decoded@.subrange(0, end as int));
        }
        pos = end;
    }
    proof {
        assert(decoded@.subrange(0, decoded@.len() as int) =~= decoded@);
    }
    let mut line = reader.to_hex_string();
    line.append(",");
    let out_hex = writer.to_hex_string();
    line.append(out_hex.as_str());
    proof {
        reveal_strlit(",");
        assert(","@ =~= seq![',']);
    }
    Ok(line)
}

/// Round-trip identity: a compressed frame sequence that decodes to a
/// plaintext yields an output digest equal to the digest of that plaintext
/// taken directly, so compressing and then running the pipeline leaves the
/// plaintext's digest unchanged.
pub proof fn lemma_round_trip(frame: Seq<u8>, plain: Seq<u8>)
    requires
        lz4_frame_decode(frame) == Some(plain),
    ensures
        hash_line(frame) == hex_of(sha1_of(frame)) + seq![','] + hex_of(sha1_of(plain)),
{
}

} // verus!
