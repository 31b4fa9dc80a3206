//! Key-generation library for an elliptic-curve account identity scheme.
//!
//! A key pair is a secret scalar together with the public point derived from
//! it and the short address derived from that point. The library offers three
//! ways of producing one: uniformly random generation, vanity generation whose
//! address must start with a chosen byte prefix, and deterministic derivation
//! from a passphrase. Around the generators stand a hex codec, a decimal
//! parser for the iteration bound, a display-mode selector, and a dispatcher
//! that turns a parsed command into one line of output.

pub mod error;
pub mod hex;
pub mod numparse;
pub mod primitives;
pub mod keypair;
pub mod generator;
pub mod cli;
