//! The MD5 hash accumulator.
//!
//! The digest itself is computed by the `md5` crate. This module states what
//! the library relies on from it and builds the accumulator type, `Digester`,
//! on those statements.

use md5::Digest;
use vstd::prelude::*;

verus! {

/// The number of bytes in an MD5 digest.
pub const DIGEST_LEN: usize = 16;

/// A hasher of the `md5` crate (`md5::Md5`) that may have taken in some bytes.
///
/// The type is opaque to the verifier: all that is known of a value is what
/// `absorbed` says of it.
#[verifier::external_body]
pub struct Md5State {
    inner: md5::Md5,
}

/// The bytes that a hasher has taken in since it was made, in the order in
/// which they came.
pub uninterp spec fn absorbed(state: Md5State) -> Seq<u8>;

/// The MD5 digest of a byte sequence: what `Digest::finalize` returns for an
/// `md5::Md5` hasher that has taken in exactly these bytes.
pub uninterp spec fn md5_digest(bytes: Seq<u8>) -> Seq<u8>;

/// Calls `Digest::new` for `md5::Md5`. Trusted: the new hasher has taken in
/// nothing.
#[verifier::external_body]
fn md5_new() -> (state: Md5State)
    ensures
        absorbed(state) == Seq::<u8>::empty(),
{
    Md5State { inner: md5::Md5::new() }
}

/// Calls `Digest::update` on the hasher. Trusted: the hasher has then taken in
/// `data` after all that it had taken in before, whatever the pieces in which
/// the bytes arrived.
#[verifier::external_body]
fn md5_update(state: &mut Md5State, data: &[u8])
    ensures
        absorbed(*final(state)) == absorbed(*old(state)) + data@,
{
    state.inner.update(data)
}

/// Calls `Digest::finalize` on the hasher. Trusted: the sixteen bytes that come
/// back depend only on the bytes taken in, and are their MD5 digest.
#[verifier::external_body]
fn md5_finalize(state: Md5State) -> (digest: [u8; 16])
    ensures
        digest@ == md5_digest(absorbed(state)),
{
    state.inner.finalize().into()
}

/// A hash accumulator for one input: it takes in byte chunks in order and
/// gives the digest of all of them together.
pub struct Digester {
    state: Md5State,
}

impl View for Digester {
    type V = Seq<u8>;

    /// All bytes taken in so far.
    closed spec fn view(&self) -> Seq<u8> {
        absorbed(self.state)
    }
}

impl Digester {
    /// An accumulator that has taken in nothing.
    pub fn new() -> (digester: Digester)
        ensures
            digester@ == Seq::<u8>::empty(),
    {
        Digester { state: md5_new() }
    }

    /// Takes in `chunk` after everything taken in before.
    pub fn update(&mut self, chunk: &[u8])
        ensures
            final(self)@ == old(self)@ + chunk@,
    {
        md5_update(&mut self.state, chunk);
    }

    /// Ends the accumulation: the MD5 digest of all bytes taken in.
    pub fn finalize(self) -> (digest: [u8; 16])
        ensures
            digest@ == md5_digest(self@),
    {
        md5_finalize(self.state)
    }
}

} // verus!
