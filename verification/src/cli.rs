//! The command dispatcher and the display-mode selector: from a parsed
//! command to one line of output. The dispatcher decodes the vanity prefix
//! and the iteration count, constructs the matching generator, invokes it
//! once, and renders the result; the first failure aborts the pipeline and
//! stands in for the output.

use vstd::prelude::*;
use vstd::string::StringExecFns;

use crate::error::Error;
use crate::error::GenerationFailureKind;
use crate::generator::brain_result_ok;
use crate::generator::starts_with_spec;
use crate::generator::BrainGenerator;
use crate::generator::PrefixGenerator;
use crate::generator::RandomGenerator;
use crate::generator::BRAIN_RETRY_LIMIT;
use crate::hex::decode_hex;
use crate::hex::decode_spec;
use crate::hex::encode_hex;
use crate::hex::hex_str_of;
use crate::keypair::KeyPair;
use crate::numparse::parse_spec;
use crate::numparse::parse_usize;
use crate::primitives::secret_valid;

verus! {

/// The decoded form of one invocation: which sub-command was asked for,
/// its arguments, and the display flags.
pub struct Args {
    pub cmd_generate: bool,
    pub cmd_random: bool,
    pub cmd_prefix: bool,
    pub cmd_brain: bool,
    pub arg_prefix: String,
    pub arg_iterations: String,
    pub arg_seed: String,
    pub flag_secret: bool,
    pub flag_public: bool,
    pub flag_address: bool,
}

/// Which textual facet of a key pair is printed.
#[derive(Clone, Copy, Debug, PartialEq, Eq, Structural)]
pub enum DisplayMode {
    KeyPair,
    Secret,
    Public,
    Address,
}

/// The display mode the flags select, in precedence order: secret, then
/// public, then address, then the full pair.
pub open spec fn mode_of_args(args: Args) -> DisplayMode {
    if args.flag_secret {
        DisplayMode::Secret
    } else if args.flag_public {
        DisplayMode::Public
    } else if args.flag_address {
        DisplayMode::Address
    } else {
        DisplayMode::KeyPair
    }
}

impl DisplayMode {
    /// Select the display mode from the flags.
    pub fn new(args: &Args) -> (r: Self)
        ensures
            r == mode_of_args(*args),
    {
        if args.flag_secret {
            DisplayMode::Secret
        } else if args.flag_public {
            DisplayMode::Public
        } else if args.flag_address {
            DisplayMode::Address
        } else {
            DisplayMode::KeyPair
        }
    }
}

/// The text that rendering a key pair under a mode yields: one hex-encoded
/// field, or the labelled block of all three.
pub open spec fn render_spec(k: KeyPair, mode: DisplayMode) -> Seq<char> {
    match mode {
        DisplayMode::Secret => hex_str_of(k.secret_view()),
        DisplayMode::Public => hex_str_of(k.public_view()),
        DisplayMode::Address => hex_str_of(k.address_view()),
        DisplayMode::KeyPair => "secret:  "@ + hex_str_of(k.secret_view()) + "\npublic:  "@
            + hex_str_of(k.public_view()) + "\naddress: "@ + hex_str_of(k.address_view()),
    }
}

/// Render a key pair under a display mode: pure formatting over already
/// validated fields, no side effects.
pub fn display(keypair: KeyPair, mode: DisplayMode) -> (r: String)
    ensures
        r@ == render_spec(keypair, mode),
{
    match mode {
        DisplayMode::Secret => encode_hex(keypair.secret().as_slice()),
        DisplayMode::Public => encode_hex(keypair.public().as_slice()),
        DisplayMode::Address => encode_hex(keypair.address().as_slice()),
        DisplayMode::KeyPair => {
            let mut out = String::from_str("secret:  ");
            let secret_hex = encode_hex(keypair.secret().as_slice());
            out.append(secret_hex.as_str());
            out.append("\npublic:  ");
            let public_hex = encode_hex(keypair.public().as_slice());
            out.append(public_hex.as_str());
            out.append("\naddress: ");
            let address_hex = encode_hex(keypair.address().as_slice());
            out.append(address_hex.as_str());
            proof {
                assert(out@ =~= render_spec(keypair, DisplayMode::KeyPair));
            }
            out
        },
    }
}

/// What dispatching the random sub-command leaves of the result: a rendering
/// of some well-formed key pair, or the random step's own failure.
pub open spec fn random_outcome_ok(args: Args, r: Result<String, Error>) -> bool {
    match r {
        Ok(s) => exists|k: KeyPair|
            #[trigger] k.wf() && s@ == render_spec(k, mode_of_args(args)),
        Err(e) => e == Error::GenerationFailure(GenerationFailureKind::RandomnessUnavailable) || e
            == Error::GenerationFailure(GenerationFailureKind::InvalidSecret),
    }
}

/// What dispatching the prefix sub-command leaves of the result: the hex and
/// integer arguments are read first and their first failure is the result;
/// then a rendering of a matching key pair, exhaustion exactly on a zero
/// budget, and never exhaustion for an empty prefix within a positive
/// budget.
pub open spec fn prefix_outcome_ok(args: Args, r: Result<String, Error>) -> bool {
    match decode_spec(vstd::utf8::encode_utf8(args.arg_prefix@)) {
        Err(e) => r == Err::<String, Error>(e),
        Ok(prefix) => match parse_spec(vstd::utf8::encode_utf8(args.arg_iterations@)) {
            Err(e) => r == Err::<String, Error>(e),
            Ok(iters) => {
                &&& match r {
                    Ok(s) => exists|k: KeyPair|
                        #[trigger] k.wf() && starts_with_spec(k.address_view(), prefix) && s@
                            == render_spec(k, mode_of_args(args)),
                    Err(e) => e == Error::GenerationFailure(GenerationFailureKind::PrefixExhausted)
                        || e == Error::GenerationFailure(
                        GenerationFailureKind::RandomnessUnavailable,
                    ) || e == Error::GenerationFailure(GenerationFailureKind::InvalidSecret),
                }
                &&& (iters == 0 ==> r == Err::<String, Error>(
                    Error::GenerationFailure(GenerationFailureKind::PrefixExhausted),
                ))
                &&& (prefix.len() == 0 && iters > 0 ==> r != Err::<String, Error>(
                    Error::GenerationFailure(GenerationFailureKind::PrefixExhausted),
                ))
            },
        },
    }
}

/// What dispatching the brain sub-command leaves of the result: a rendering
/// of the key pair that the seed phrase determines, with success exactly
/// when some candidate in the retry budget is accepted.
pub open spec fn brain_outcome_ok(args: Args, r: Result<String, Error>) -> bool {
    &&& match r {
        Ok(s) => exists|k: KeyPair|
            #[trigger] k.wf() && brain_result_ok(vstd::utf8::encode_utf8(args.arg_seed@), k) && s@
                == render_spec(k, mode_of_args(args)),
        Err(e) => e == Error::GenerationFailure(GenerationFailureKind::InvalidSecret),
    }
    &&& (r is Ok <==> exists|n: nat|
        n < BRAIN_RETRY_LIMIT && #[trigger] secret_valid(
            crate::generator::brain_chain(vstd::utf8::encode_utf8(args.arg_seed@), n),
        ))
}

/// Dispatch one parsed invocation: select the generator, invoke it once,
/// and render the key pair under the selected display mode, or hand back
/// the first failure.
pub fn execute(args: &Args) -> (r: Result<String, Error>)
    requires
        args.cmd_generate,
        args.cmd_random || args.cmd_prefix || args.cmd_brain,
    ensures
        args.cmd_random ==> random_outcome_ok(*args, r),
        !args.cmd_random && args.cmd_prefix ==> prefix_outcome_ok(*args, r),
        !args.cmd_random && !args.cmd_prefix && args.cmd_brain ==> brain_outcome_ok(*args, r),
{
    let mode = DisplayMode::new(args);
    let keypair: KeyPair = if args.cmd_random {
        match (RandomGenerator).generate() {
            Ok(k) => k,
            Err(e) => {
                return Err(e);
            },
        }
    } else if args.cmd_prefix {
        let prefix = match decode_hex(args.arg_prefix.as_str()) {
            Ok(p) => p,
            Err(e) => {
                return Err(e);
            },
        };
        let iterations = match parse_usize(args.arg_iterations.as_str()) {
            Ok(n) => n,
            Err(e) => {
                return Err(e);
            },
        };
        match PrefixGenerator::new(prefix, iterations).generate() {
            Ok(k) => k,
            Err(e) => {
                return Err(e);
            },
        }
    } else {
        match BrainGenerator::new(args.arg_seed.as_str()).generate() {
            Ok(k) => k,
            Err(e) => {
                return Err(e);
            },
        }
    };
    Ok(display(keypair, mode))
}

/// Round-trip rendering: each one-field rendering decodes back to the field
/// it encodes, and the full block is exactly the three one-field renderings
/// under their labels.
pub proof fn lemma_render_roundtrip(k: KeyPair)
    requires
        k.wf(),
    ensures
        decode_spec(vstd::utf8::encode_utf8(render_spec(k, DisplayMode::Secret))) == Ok::<
            Seq<u8>,
            Error,
        >(k.secret_view()),
        decode_spec(vstd::utf8::encode_utf8(render_spec(k, DisplayMode::Public))) == Ok::<
            Seq<u8>,
            Error,
        >(k.public_view()),
        decode_spec(vstd::utf8::encode_utf8(render_spec(k, DisplayMode::Address))) == Ok::<
            Seq<u8>,
            Error,
        >(k.address_view()),
        render_spec(k, DisplayMode::KeyPair) == "secret:  "@ + render_spec(k, DisplayMode::Secret)
            + "\npublic:  "@ + render_spec(k, DisplayMode::Public) + "\naddress: "@ + render_spec(
            k,
            DisplayMode::Address,
        ),
{
    crate::hex::lemma_hex_roundtrip(k.secret_view());
    crate::hex::lemma_hex_roundtrip(k.public_view());
    crate::hex::lemma_hex_roundtrip(k.address_view());
}

} // verus!
