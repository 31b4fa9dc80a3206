//! The three generation strategies. Random generation draws a scalar from
//! the randomness source; prefix generation repeats the random step until
//! the derived address starts with a target prefix, within an explicit
//! iteration budget; brain generation derives the scalar deterministically
//! from a passphrase, re-hashing while the curve rejects the candidate.

use vstd::prelude::*;
use vstd::string::StringSliceAdditionalSpecFns;

use crate::error::Error;
use crate::error::GenerationFailureKind;
use crate::keypair::KeyPair;
use crate::primitives::keccak_of;
use crate::primitives::keccak256;
use crate::primitives::random_bytes_32;
use crate::primitives::secret_valid;

verus! {

/// How many fresh draws the random strategy makes before it reports the
/// curve's rejection: a draw is rejected only with negligible probability,
/// so the bound is never met in practice.
pub const RANDOM_RETRY_LIMIT: usize = 64;

/// How many re-hashes the brain strategy tries before it gives up: a
/// candidate is rejected only with negligible probability, so the bound is
/// never met in practice.
pub const BRAIN_RETRY_LIMIT: usize = 16384;

/// Produces a uniformly random valid key pair.
pub struct RandomGenerator;

impl RandomGenerator {
    /// Draw a random scalar and construct the key pair it determines.
    ///
    /// Fails only when the randomness source fails, or in the negligible
    /// case that every draw in the retry budget is rejected by the curve.
    pub fn generate(&self) -> (r: Result<KeyPair, Error>)
        ensures
            r matches Ok(k) ==> k.wf(),
            r matches Err(e) ==> e == Error::GenerationFailure(
                GenerationFailureKind::RandomnessUnavailable,
            ) || e == Error::GenerationFailure(GenerationFailureKind::InvalidSecret),
    {
        let mut tries: usize = 0;
        while tries < RANDOM_RETRY_LIMIT
            invariant
                tries <= RANDOM_RETRY_LIMIT,
            decreases RANDOM_RETRY_LIMIT - tries,
        {
            let bytes = match random_bytes_32() {
                Some(b) => b,
                None => {
                    return Err(
                        Error::GenerationFailure(GenerationFailureKind::RandomnessUnavailable),
                    );
                },
            };
            match KeyPair::from_secret(bytes.as_slice()) {
                Ok(k) => {
                    return Ok(k);
                },
                Err(_) => {},
            }
            tries += 1;
        }
        Err(Error::GenerationFailure(GenerationFailureKind::InvalidSecret))
    }
}

/// True when `a` starts with `p`.
pub open spec fn starts_with_spec(a: Seq<u8>, p: Seq<u8>) -> bool {
    p.len() <= a.len() && a.take(p.len() as int) == p
}

/// Whether one byte run starts with another.
pub fn starts_with(a: &[u8], p: &[u8]) -> (r: bool)
    ensures
        r == starts_with_spec(a@, p@),
{
    let m = p.len();
    if m > a.len() {
        return false;
    }
    let mut i: usize = 0;
    while i < m
        invariant
            i <= m,
            m == p@.len(),
            m <= a@.len(),
            forall|j: int| 0 <= j < i ==> a@[j] == p@[j],
        decreases m - i,
    {
        if a[i] != p[i] {
            proof {
                assert(a@.take(p@.len() as int)[i as int] == a@[i as int]);
            }
            return false;
        }
        i += 1;
    }
    proof {
        assert(a@.take(p@.len() as int) =~= p@);
    }
    true
}

/// Repeats the random strategy until the derived address starts with a
/// target prefix, at most a caller-supplied number of times.
pub struct PrefixGenerator {
    prefix: Vec<u8>,
    iterations: usize,
}

impl PrefixGenerator {
    /// The target address prefix.
    pub closed spec fn prefix_view(self) -> Seq<u8> {
        self.prefix@
    }

    /// The iteration budget.
    pub closed spec fn iterations_spec(self) -> usize {
        self.iterations
    }

    /// A vanity search for `prefix`, bounded by `iterations` attempts.
    pub fn new(prefix: Vec<u8>, iterations: usize) -> (r: Self)
        ensures
            r.prefix_view() == prefix@,
            r.iterations_spec() == iterations,
    {
        PrefixGenerator { prefix, iterations }
    }

    /// Search for a key pair whose address starts with the prefix and return
    /// the first match in generation order.
    ///
    /// An empty prefix accepts the first key pair drawn; a zero budget is
    /// exhausted at once, and exhaustion within the budget is a failure of
    /// its own. A failure of the random step aborts the search.
    pub fn generate(&self) -> (r: Result<KeyPair, Error>)
        ensures
            r matches Ok(k) ==> k.wf() && starts_with_spec(k.address_view(), self.prefix_view()),
            r matches Err(e) ==> e == Error::GenerationFailure(
                GenerationFailureKind::PrefixExhausted,
            ) || e == Error::GenerationFailure(GenerationFailureKind::RandomnessUnavailable)
                || e == Error::GenerationFailure(GenerationFailureKind::InvalidSecret),
            self.iterations_spec() == 0 ==> r == Err::<KeyPair, Error>(
                Error::GenerationFailure(GenerationFailureKind::PrefixExhausted),
            ),
            self.prefix_view().len() == 0 && self.iterations_spec() > 0 ==> r != Err::<
                KeyPair,
                Error,
            >(Error::GenerationFailure(GenerationFailureKind::PrefixExhausted)),
    {
        let mut i: usize = 0;
        while i < self.iterations
            invariant
                i <= self.iterations,
                self.prefix_view().len() == 0 ==> i == 0,
            decreases self.iterations - i,
        {
            let kp = match RandomGenerator.generate() {
                Ok(k) => k,
                Err(e) => {
                    return Err(e);
                },
            };
            proof {
                if self.prefix_view().len() == 0 {
                    assert(kp.address_view().take(0) =~= self.prefix_view());
                }
            }
            if starts_with(kp.address().as_slice(), self.prefix.as_slice()) {
                return Ok(kp);
            }
            i += 1;
        }
        Err(Error::GenerationFailure(GenerationFailureKind::PrefixExhausted))
    }
}

/// The deterministic candidate chain of a passphrase: the digest of the
/// phrase's bytes, then repeated re-digests.
pub open spec fn brain_chain(seed: Seq<u8>, n: nat) -> Seq<u8>
    decreases n,
{
    if n == 0 {
        keccak_of(seed)
    } else {
        keccak_of(brain_chain(seed, (n - 1) as nat))
    }
}

/// What the brain strategy pins down for a seed: the key pair's secret is
/// the first candidate of the chain that the curve accepts.
pub open spec fn brain_result_ok(seed: Seq<u8>, k: KeyPair) -> bool {
    exists|n: nat|
        k.secret_view() == brain_chain(seed, n) && #[trigger] secret_valid(brain_chain(seed, n))
            && forall|m: nat| m < n ==> !secret_valid(#[trigger] brain_chain(seed, m))
}

/// Derives a key pair deterministically from a passphrase.
pub struct BrainGenerator {
    seed: Vec<u8>,
}

impl BrainGenerator {
    /// The passphrase's bytes.
    pub closed spec fn seed_view(self) -> Seq<u8> {
        self.seed@
    }

    /// A brain derivation from `phrase`, read as its UTF-8 bytes.
    pub fn new(phrase: &str) -> (r: Self)
        ensures
            r.seed_view() == phrase.spec_bytes(),
    {
        BrainGenerator { seed: vstd::slice::slice_to_vec(phrase.as_bytes()) }
    }

    /// Hash the phrase, re-hash while the curve rejects the candidate, and
    /// construct the key pair of the first accepted candidate: the same
    /// phrase always yields the same key pair, however many internal
    /// retries occurred.
    ///
    /// Fails only in the negligible case that every candidate in the retry
    /// budget is rejected by the curve.
    pub fn generate(&self) -> (r: Result<KeyPair, Error>)
        ensures
            r matches Ok(k) ==> k.wf() && brain_result_ok(self.seed_view(), k),
            r is Ok <==> exists|n: nat|
                n < BRAIN_RETRY_LIMIT && #[trigger] secret_valid(
                    brain_chain(self.seed_view(), n),
                ),
            r matches Err(e) ==> e == Error::GenerationFailure(
                GenerationFailureKind::InvalidSecret,
            ),
    {
        let ghost seed = self.seed_view();
        let mut candidate = keccak256(self.seed.as_slice());
        let mut tries: usize = 0;
        while tries < BRAIN_RETRY_LIMIT
            invariant
                tries <= BRAIN_RETRY_LIMIT,
                candidate@ == brain_chain(seed, tries as nat),
                candidate@.len() == 32,
                seed == self.seed_view(),
                forall|m: nat| m < tries ==> !secret_valid(#[trigger] brain_chain(seed, m)),
            decreases BRAIN_RETRY_LIMIT - tries,
        {
            match KeyPair::from_secret(candidate.as_slice()) {
                Ok(k) => {
                    proof {
                        assert(secret_valid(brain_chain(seed, tries as nat)));
                    }
                    return Ok(k);
                },
                Err(_) => {
                    candidate = keccak256(candidate.as_slice());
                },
            }
            tries += 1;
        }
        Err(Error::GenerationFailure(GenerationFailureKind::InvalidSecret))
    }
}

/// Determinism of brain derivation: two well-formed key pairs derived from
/// the same passphrase bytes agree byte for byte in secret, public point
/// and address.
pub proof fn lemma_brain_deterministic(seed: Seq<u8>, k1: KeyPair, k2: KeyPair)
    requires
        k1.wf(),
        k2.wf(),
        brain_result_ok(seed, k1),
        brain_result_ok(seed, k2),
    ensures
        k1.secret_view() == k2.secret_view(),
        k1.public_view() == k2.public_view(),
        k1.address_view() == k2.address_view(),
{
    let n1 = choose|n: nat|
        k1.secret_view() == brain_chain(seed, n) && #[trigger] secret_valid(brain_chain(seed, n))
            && forall|m: nat| m < n ==> !secret_valid(#[trigger] brain_chain(seed, m));
    let n2 = choose|n: nat|
        k2.secret_view() == brain_chain(seed, n) && #[trigger] secret_valid(brain_chain(seed, n))
            && forall|m: nat| m < n ==> !secret_valid(#[trigger] brain_chain(seed, m));
    if n1 < n2 {
        assert(!secret_valid(brain_chain(seed, n1)));
    } else if n2 < n1 {
        assert(!secret_valid(brain_chain(seed, n2)));
    }
    assert(n1 == n2);
}

} // verus!
