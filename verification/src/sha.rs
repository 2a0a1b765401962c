//! The signing algorithm of MAVLink: the first 48 bits of SHA-256.

use vstd::prelude::*;
use sha2::{Digest, Sha256};
use crate::bytes::append;
use crate::signature::Sign;
use crate::types::SignatureValue;

verus! {

/// The SHA-256 digest of `data`: 32 bytes.
pub uninterp spec fn sha256(data: Seq<u8>) -> Seq<u8>;

/// The SHA-256 digest of `bytes`.
///
/// Calls `Sha256::digest` of `sha2`, which hashes the whole input at once. The digest is a
/// function of the input; it is given the name `sha256` and nothing else is claimed of it.
#[verifier::external_body]
fn sha256_of(bytes: &[u8]) -> (digest: [u8; 32])
    ensures
        digest@ == sha256(bytes@),
{
    Sha256::digest(bytes).into()
}

/// The signing algorithm `sha256_48`: the first six bytes of the SHA-256 digest of what was
/// taken.
///
/// The signer holds what it took, key bytes among it, so it has no text form.
pub struct MavSha256 {
    taken: Vec<u8>,
}

impl MavSha256 {
    /// A signer that has taken nothing yet.
    pub fn new() -> (signer: MavSha256)
        ensures
            signer.input() == Seq::<u8>::empty(),
    {
        MavSha256 { taken: Vec::new() }
    }
}

impl Default for MavSha256 {
    /// A signer that has taken nothing yet.
    fn default() -> (signer: MavSha256)
        ensures
            signer.input() == Seq::<u8>::empty(),
    {
        MavSha256 { taken: Vec::new() }
    }
}

impl Sign for MavSha256 {
    closed spec fn input(&self) -> Seq<u8> {
        self.taken@
    }

    open spec fn value_of(input: Seq<u8>) -> Seq<u8> {
        sha256(input).take(6)
    }

    fn reset(&mut self) {
        self.taken.clear();
    }

    fn digest(&mut self, bytes: &[u8]) {
        append(&mut self.taken, bytes);
    }

    fn produce(&self) -> (value: SignatureValue) {
        let digest = sha256_of(self.taken.as_slice());
        let value = [digest[0], digest[1], digest[2], digest[3], digest[4], digest[5]];
        assert(value@ =~= sha256(self.taken@).take(6));
        value
    }
}

} // verus!
