//! The external primitives the generators consume: a randomness source, the
//! curve's scalar-to-point derivation, and the Keccak-256 digest. Each stands
//! behind one trusted wrapper; what a digest or a derived point is on given
//! bytes is named, never restated.

use vstd::prelude::*;

verus! {

/// The Keccak-256 digest of a byte run: a function of the input alone.
pub uninterp spec fn keccak_of(input: Seq<u8>) -> Seq<u8>;

/// The curve point derived from a valid secret scalar, in its uncompressed
/// 64-byte serialized form: a function of the scalar alone.
pub uninterp spec fn public_of(secret: Seq<u8>) -> Seq<u8>;

/// Whether the curve accepts 32 bytes as a secret scalar: a function of the
/// bytes alone.
pub uninterp spec fn secret_valid(secret: Seq<u8>) -> bool;

/// The address derived from a serialized public point: the last 20 bytes of
/// its Keccak-256 digest.
pub open spec fn address_of(public: Seq<u8>) -> Seq<u8> {
    keccak_of(public).subrange(12, 32)
}

/// Relies on tiny_keccak's Keccak::v256 with Hasher::update and
/// Hasher::finalize: the Keccak-256 digest of the input, 32 bytes, a
/// function of the input bytes alone.
#[verifier::external_body]
pub fn keccak256(input: &[u8]) -> (r: Vec<u8>)
    ensures
        r@ == keccak_of(input@),
        r@.len() == 32,
{
    let mut hasher = tiny_keccak::Keccak::v256();
    tiny_keccak::Hasher::update(&mut hasher, input);
    let mut out = [0u8; 32];
    tiny_keccak::Hasher::finalize(hasher, &mut out);
    out.to_vec()
}

/// Relies on libsecp256k1's SecretKey::parse_slice, which succeeds exactly
/// when the curve accepts the 32 bytes as a scalar, and on
/// PublicKey::from_secret_key with PublicKey::serialize: the derived point,
/// uncompressed and without its tag byte, a function of the scalar alone.
#[verifier::external_body]
pub fn derive_public(secret: &[u8]) -> (r: Option<Vec<u8>>)
    requires
        secret@.len() == 32,
    ensures
        r is Some <==> secret_valid(secret@),
        r matches Some(p) ==> p@ == public_of(secret@) && p@.len() == 64,
{
    match libsecp256k1::SecretKey::parse_slice(secret) {
        Ok(sk) => {
            let pk = libsecp256k1::PublicKey::from_secret_key(&sk);
            let ser = pk.serialize();
            Some(ser[1..].to_vec())
        },
        Err(_) => None,
    }
}

/// Relies on rand's SysRng through TryRng::try_fill_bytes: on success the
/// buffer holds 32 bytes of operating-system randomness. Nothing is claimed
/// of the bytes themselves.
#[verifier::external_body]
pub fn random_bytes_32() -> (r: Option<Vec<u8>>)
    ensures
        r matches Some(b) ==> b@.len() == 32,
{
    let mut buf = [0u8; 32];
    let mut rng = rand::rngs::SysRng;
    match rand::TryRng::try_fill_bytes(&mut rng, &mut buf) {
        Ok(()) => Some(buf.to_vec()),
        Err(_) => None,
    }
}

} // verus!
