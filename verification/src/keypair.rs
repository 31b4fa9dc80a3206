//! The key-pair entity: a secret scalar with the public point and address
//! derived from it at construction. A key pair is fully determined by its
//! secret and never mutated.

use vstd::prelude::*;

use crate::error::Error;
use crate::error::GenerationFailureKind;
use crate::primitives::address_of;
use crate::primitives::derive_public;
use crate::primitives::keccak256;
use crate::primitives::public_of;
use crate::primitives::secret_valid;

verus! {

/// An immutable key pair: secret scalar, derived public point, derived
/// address.
#[derive(Debug)]
pub struct KeyPair {
    secret: Vec<u8>,
    public: Vec<u8>,
    address: Vec<u8>,
}

impl KeyPair {
    /// The secret scalar's bytes.
    pub closed spec fn secret_view(self) -> Seq<u8> {
        self.secret@
    }

    /// The serialized public point's bytes.
    pub closed spec fn public_view(self) -> Seq<u8> {
        self.public@
    }

    /// The address bytes.
    pub closed spec fn address_view(self) -> Seq<u8> {
        self.address@
    }

    /// Well-formedness: the secret is one the curve accepts, and the public
    /// point and address are the ones it determines.
    pub open spec fn wf(self) -> bool {
        &&& self.secret_view().len() == 32
        &&& secret_valid(self.secret_view())
        &&& self.public_view() == public_of(self.secret_view())
        &&& self.public_view().len() == 64
        &&& self.address_view() == address_of(self.public_view())
    }

    /// Construct the key pair a secret scalar determines, recomputing the
    /// public point and the address. Succeeds exactly when the curve accepts
    /// the scalar.
    pub fn from_secret(secret: &[u8]) -> (r: Result<KeyPair, Error>)
        requires
            secret@.len() == 32,
        ensures
            r is Ok <==> secret_valid(secret@),
            r matches Ok(k) ==> k.wf() && k.secret_view() == secret@,
            r matches Err(e) ==> e == Error::GenerationFailure(
                GenerationFailureKind::InvalidSecret,
            ),
    {
        match derive_public(secret) {
            Some(public) => {
                let digest = keccak256(public.as_slice());
                let mut address: Vec<u8> = Vec::new();
                let mut i: usize = 12;
                while i < 32
                    invariant
                        12 <= i <= 32,
                        digest@.len() == 32,
                        address@ == digest@.subrange(12, i as int),
                    decreases 32 - i,
                {
                    let b = digest[i];
                    address.push(b);
                    proof {
                        assert(address@ =~= digest@.subrange(12, i + 1));
                    }
                    i += 1;
                }
                Ok(KeyPair { secret: vstd::slice::slice_to_vec(secret), public, address })
            },
            None => Err(Error::GenerationFailure(GenerationFailureKind::InvalidSecret)),
        }
    }

    /// The secret scalar.
    pub fn secret(&self) -> (r: &Vec<u8>)
        ensures
            r@ == self.secret_view(),
    {
        &self.secret
    }

    /// The serialized public point.
    pub fn public(&self) -> (r: &Vec<u8>)
        ensures
            r@ == self.public_view(),
    {
        &self.public
    }

    /// The derived address.
    pub fn address(&self) -> (r: &Vec<u8>)
        ensures
            r@ == self.address_view(),
    {
        &self.address
    }
}

} // verus!
