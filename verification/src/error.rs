//! The unified error taxonomy: generation failures, hex-decode failures and
//! integer-parse failures, each carrying what a human-readable message needs.
//! No variant ever carries secret material.

use vstd::prelude::*;
use vstd::string::StringExecFns;

verus! {

/// Why a generation attempt failed.
#[derive(Clone, Copy, Debug, PartialEq, Eq, Structural)]
pub enum GenerationFailureKind {
    /// The randomness source could not supply bytes.
    RandomnessUnavailable,
    /// A candidate secret was rejected by the curve's scalar-to-point derivation.
    InvalidSecret,
    /// A vanity search exhausted its iteration budget without a match.
    PrefixExhausted,
}

/// Why a hexadecimal literal was rejected.
#[derive(Clone, Copy, Debug, PartialEq, Eq, Structural)]
pub enum HexDecodeFailureKind {
    /// A byte that is neither a hex digit nor skippable whitespace, with its position.
    InvalidCharacter { byte: u8, index: usize },
    /// The literal held an odd number of hex digits.
    OddDigitCount,
}

/// Why the iteration count was rejected.
#[derive(Clone, Copy, Debug, PartialEq, Eq, Structural)]
pub enum IntegerParseFailureKind {
    /// The input held no characters at all.
    Empty,
    /// A character that is not a decimal digit, or a sign with no digits after it.
    InvalidDigit,
    /// The value does not fit the iteration counter's type.
    Overflow,
}

/// One failure of the pipeline: generation, hex decoding, or integer parsing.
#[derive(Clone, Copy, Debug, PartialEq, Eq, Structural)]
pub enum Error {
    GenerationFailure(GenerationFailureKind),
    HexDecodeFailure(HexDecodeFailureKind),
    IntegerParseFailure(IntegerParseFailureKind),
}

impl Error {
    /// The message that `message` returns, as a sequence of characters.
    pub open spec fn message_spec(self) -> Seq<char> {
        match self {
            Error::GenerationFailure(GenerationFailureKind::RandomnessUnavailable) =>
                "key generation failed: randomness source unavailable"@,
            Error::GenerationFailure(GenerationFailureKind::InvalidSecret) =>
                "key generation failed: secret rejected by the curve"@,
            Error::GenerationFailure(GenerationFailureKind::PrefixExhausted) =>
                "key generation failed: no matching address within the iteration limit"@,
            Error::HexDecodeFailure(HexDecodeFailureKind::InvalidCharacter { .. }) =>
                "invalid character in hex string"@,
            Error::HexDecodeFailure(HexDecodeFailureKind::OddDigitCount) =>
                "invalid length of hex string"@,
            Error::IntegerParseFailure(IntegerParseFailureKind::Empty) =>
                "cannot parse integer from empty string"@,
            Error::IntegerParseFailure(IntegerParseFailureKind::InvalidDigit) =>
                "invalid digit found in string"@,
            Error::IntegerParseFailure(IntegerParseFailureKind::Overflow) =>
                "number too large to fit in target type"@,
        }
    }

    /// The single human-readable line that stands in for a result on failure.
    pub fn message(&self) -> (r: String)
        ensures
            r@ == self.message_spec(),
    {
        match self {
            Error::GenerationFailure(GenerationFailureKind::RandomnessUnavailable) =>
                String::from_str("key generation failed: randomness source unavailable"),
            Error::GenerationFailure(GenerationFailureKind::InvalidSecret) =>
                String::from_str("key generation failed: secret rejected by the curve"),
            Error::GenerationFailure(GenerationFailureKind::PrefixExhausted) =>
                String::from_str("key generation failed: no matching address within the iteration limit"),
            Error::HexDecodeFailure(HexDecodeFailureKind::InvalidCharacter { .. }) =>
                String::from_str("invalid character in hex string"),
            Error::HexDecodeFailure(HexDecodeFailureKind::OddDigitCount) =>
                String::from_str("invalid length of hex string"),
            Error::IntegerParseFailure(IntegerParseFailureKind::Empty) =>
                String::from_str("cannot parse integer from empty string"),
            Error::IntegerParseFailure(IntegerParseFailureKind::InvalidDigit) =>
                String::from_str("invalid digit found in string"),
            Error::IntegerParseFailure(IntegerParseFailureKind::Overflow) =>
                String::from_str("number too large to fit in target type"),
        }
    }
}

} // verus!
