//! RedJubjub public keys and signatures, as they appear in Sapling spends.

use crate::bytes::{append_bytes, take_bytes};
use crate::curve::{jubjub_point_decodes, Point};
use crate::error::{outcome_matches, raw_failure, ReadError, ReadFailure};
use vstd::prelude::*;

verus! {

/// A RedJubjub public key: a point of the Jubjub curve.
#[derive(Clone, Copy, Debug, PartialEq, Eq)]
pub struct PublicKey(pub Point);

/// A RedJubjub signature: the encodings `rbar` and `sbar`.
#[derive(Clone, Copy, Debug, PartialEq, Eq)]
pub struct Signature {
    pub rbar: [u8; 32],
    pub sbar: [u8; 32],
}

/// The failure of reading a public key from the front of `s`.
pub open spec fn public_key_failure(s: Seq<u8>) -> Option<ReadFailure> {
    if s.len() < 32 {
        Some(ReadFailure::UnexpectedEof)
    } else if !jubjub_point_decodes(s.take(32)) {
        Some(ReadFailure::InvalidInput("invalid RedJubjub public key"@))
    } else {
        None
    }
}

impl PublicKey {
    /// The 32 bytes that encode the key.
    pub open spec fn encoding(self) -> Seq<u8> {
        self.0@
    }

    /// Reads a public key from the first 32 bytes of `input`.
    pub fn read(input: &[u8]) -> (r: Result<PublicKey, ReadError>)
        ensures
            outcome_matches(r, public_key_failure(input@)),
            r matches Ok(pk) ==> pk.encoding() == input@.take(32),
            r matches Ok(pk) ==> pk.0@ == input@.take(32),
    {
        if input.len() < 32 {
            return Err(ReadError::UnexpectedEof);
        }
        let bytes: [u8; 32] = take_bytes(input, 0);
        assert(bytes@ == input@.take(32));
        match Point::from_bytes(bytes) {
            Some(p) => Ok(PublicKey(p)),
            None => Err(ReadError::InvalidInput("invalid RedJubjub public key".to_owned())),
        }
    }

    /// Appends the encoding of the key to `writer`.
    pub fn write(&self, writer: &mut Vec<u8>)
        ensures
            final(writer)@ == old(writer)@ + self.encoding(),
            final(writer)@ == old(writer)@ + self.0@,
    {
        let bytes = self.0.to_bytes();
        append_bytes(writer, &bytes);
    }
}

impl Signature {
    /// The 64 bytes that encode the signature.
    pub open spec fn encoding(self) -> Seq<u8> {
        self.rbar@ + self.sbar@
    }

    /// Reads a signature from the first 64 bytes of `input`.
    pub fn read(input: &[u8]) -> (r: Result<Signature, ReadError>)
        ensures
            outcome_matches(r, raw_failure(input@, 64)),
            r matches Ok(sig) ==> sig.encoding() == input@.take(64),
            r matches Ok(sig) ==> {
                &&& input@.len() >= 64
                &&& sig.rbar@ == input@.subrange(0, 32)
                &&& sig.sbar@ == input@.subrange(32, 64)
            },
    {
        if input.len() < 64 {
            return Err(ReadError::UnexpectedEof);
        }
        let rbar: [u8; 32] = take_bytes(input, 0);
        let sbar: [u8; 32] = take_bytes(input, 32);
        let sig = Signature { rbar, sbar };
        assert(sig.encoding() =~= input@.take(64));
        Ok(sig)
    }

    /// Appends the encoding of the signature to `writer`.
    pub fn write(&self, writer: &mut Vec<u8>)
        ensures
            final(writer)@ == old(writer)@ + self.encoding(),
            final(writer)@ == old(writer)@ + self.rbar@ + self.sbar@,
    {
        append_bytes(writer, &self.rbar);
        append_bytes(writer, &self.sbar);
        assert(writer@ =~= old(writer)@ + self.encoding());
    }
}

} // verus!
