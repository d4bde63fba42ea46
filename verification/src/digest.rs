//! The digest accumulator: a running SHA-1 hash state.
//!
//! The accumulator is the one place the library touches the hash
//! implementation. Its abstract state is the sequence of bytes it has been
//! fed so far, in arrival order; finalizing yields the SHA-1 digest of that
//! sequence. Finalization consumes the accumulator, so no update can follow
//! it.

use crate::hex;
use vstd::prelude::*;

verus! {

/// The SHA-1 digest of a byte sequence, as the `sha1` crate computes it:
/// twenty bytes, a function of the input bytes alone.
pub uninterp spec fn sha1_of(bytes: Seq<u8>) -> Seq<u8>;

#[verifier::external_type_specification]
#[verifier::external_body]
pub struct ExSha1(sha1::Sha1);

/// A running SHA-1 state together with the sequence of bytes fed so far.
pub struct DigestAccumulator {
    state: sha1::Sha1,
    fed: Ghost<Seq<u8>>,
}

impl View for DigestAccumulator {
    type V = Seq<u8>;

    /// The bytes fed so far, in arrival order.
    closed spec fn view(&self) -> Seq<u8> {
        self.fed@
    }
}

/// Relies on `sha1::Digest::new`: a fresh hasher that has processed no
/// bytes, so that feeding it a sequence of chunks hashes their
/// concatenation and nothing else.
#[verifier::external_body]
fn sha1_new() -> sha1::Sha1 {
    <sha1::Sha1 as sha1::Digest>::new()
}

impl DigestAccumulator {
    /// A fresh accumulator that has been fed nothing.
    pub fn new() -> (r: Self)
        ensures
            r@ == Seq::<u8>::empty(),
    {
        DigestAccumulator { state: sha1_new(), fed: Ghost(Seq::empty()) }
    }

    /// Relies on `sha1::Digest::update`: incorporates exactly the given
    /// bytes, after everything fed before them.
    #[verifier::external_body]
    pub fn update(&mut self, chunk: &[u8])
        ensures
            final(self)@ == old(self)@ + chunk@,
    {
        sha1::Digest::update(&mut self.state, chunk);
    }

    /// Relies on `sha1::Digest::finalize`: returns the twenty-byte SHA-1
    /// digest of all bytes fed, which depends on those bytes alone.
    #[verifier::external_body]
    pub fn finalize(self) -> (r: Vec<u8>)
        ensures
            r@ == sha1_of(self@),
            r@.len() == 20,
    {
        sha1::Digest::finalize(self.state).as_slice().to_vec()
    }

    /// Finalizes the accumulator and renders the digest as lowercase hex.
    pub fn to_hex_string(self) -> (r: String)
        ensures
            r@ == hex::hex_of(sha1_of(self@)),
            r@.len() == 40,
    {
        let ghost fed = self@;
        let raw = self.finalize();
        proof {
            hex::lemma_hex_of_len(sha1_of(fed));
        }
        hex::to_hex_string(raw.as_slice())
    }
}

} // verus!
