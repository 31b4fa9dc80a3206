use std::collections::HashSet;

use ethkey_gen::cli::execute;
use ethkey_gen::cli::display;
use ethkey_gen::cli::Args;
use ethkey_gen::cli::DisplayMode;
use ethkey_gen::error::Error;
use ethkey_gen::error::GenerationFailureKind;
use ethkey_gen::error::HexDecodeFailureKind;
use ethkey_gen::generator::BrainGenerator;
use ethkey_gen::generator::PrefixGenerator;
use ethkey_gen::generator::RandomGenerator;
use ethkey_gen::hex::decode_hex;
use ethkey_gen::hex::encode_hex;
use ethkey_gen::keypair::KeyPair;

use tiny_keccak::Hasher;

fn args(cmd: &str) -> Args {
    Args {
        cmd_generate: true,
        cmd_random: cmd == "random",
        cmd_prefix: cmd == "prefix",
        cmd_brain: cmd == "brain",
        arg_prefix: String::new(),
        arg_iterations: String::new(),
        arg_seed: String::new(),
        flag_secret: false,
        flag_public: false,
        flag_address: false,
    }
}

fn keccak256(input: &[u8]) -> [u8; 32] {
    let mut hasher = tiny_keccak::Keccak::v256();
    hasher.update(input);
    let mut out = [0u8; 32];
    hasher.finalize(&mut out);
    out
}

#[test]
fn keypair_of_smallest_scalar_matches_known_vector() {
    let mut secret = [0u8; 32];
    secret[31] = 1;
    let kp = KeyPair::from_secret(&secret).unwrap();
    assert_eq!(
        encode_hex(kp.public()),
        "79be667ef9dcbbac55a06295ce870b07029bfcdb2dce28d959f2815b16f81798\
         483ada7726a3c4655da4fbfc0e1108a8fd17b448a68554199c47d08ffb10d4b8"
    );
    assert_eq!(encode_hex(kp.address()), "7e5f4552091a69125d5dfcb7b8c2659029395bdf");
}

#[test]
fn keypair_rejects_invalid_scalars() {
    let zero = [0u8; 32];
    assert_eq!(
        KeyPair::from_secret(&zero).unwrap_err(),
        Error::GenerationFailure(GenerationFailureKind::InvalidSecret)
    );
    let too_large = [0xffu8; 32];
    assert_eq!(
        KeyPair::from_secret(&too_large).unwrap_err(),
        Error::GenerationFailure(GenerationFailureKind::InvalidSecret)
    );
}

#[test]
fn keypair_address_is_keccak_tail_of_public() {
    let kp = RandomGenerator.generate().unwrap();
    let digest = keccak256(kp.public());
    assert_eq!(kp.address().as_slice(), &digest[12..32]);
    assert_ne!(kp.address().as_slice(), &kp.public()[44..64]);
}

#[test]
fn brain_generation_is_deterministic() {
    let first = BrainGenerator::new("correct horse battery staple").generate().unwrap();
    let second = BrainGenerator::new("correct horse battery staple").generate().unwrap();
    assert_eq!(first.secret(), second.secret());
    assert_eq!(first.public(), second.public());
    assert_eq!(first.address(), second.address());
    let other = BrainGenerator::new("correct horse battery staples").generate().unwrap();
    assert_ne!(first.secret(), other.secret());
}

#[test]
fn brain_secret_is_first_accepted_digest() {
    let kp = BrainGenerator::new("correct horse battery staple").generate().unwrap();
    let candidate = keccak256(b"correct horse battery staple");
    assert_eq!(kp.secret().as_slice(), &candidate[..]);
}

#[test]
fn random_generation_has_no_collisions() {
    let mut seen: HashSet<Vec<u8>> = HashSet::new();
    for _ in 0..2000 {
        let kp = RandomGenerator.generate().unwrap();
        assert!(seen.insert(kp.secret().clone()), "secret drawn twice");
    }
}

#[test]
fn prefix_empty_accepts_first_draw() {
    let kp = PrefixGenerator::new(Vec::new(), 1).generate().unwrap();
    assert_eq!(kp.secret().len(), 32);
}

#[test]
fn prefix_match_starts_with_target() {
    let kp = PrefixGenerator::new(vec![0xab], 100000).generate().unwrap();
    assert_eq!(kp.address()[0], 0xab);
}

#[test]
fn prefix_zero_budget_exhausts() {
    let err = PrefixGenerator::new(vec![0xab], 0).generate().unwrap_err();
    assert_eq!(err, Error::GenerationFailure(GenerationFailureKind::PrefixExhausted));
}

#[test]
fn render_round_trip() {
    let kp = BrainGenerator::new("round trip").generate().unwrap();
    let full = display(
        BrainGenerator::new("round trip").generate().unwrap(),
        DisplayMode::KeyPair,
    );
    let secret_hex = display(
        BrainGenerator::new("round trip").generate().unwrap(),
        DisplayMode::Secret,
    );
    let public_hex = display(
        BrainGenerator::new("round trip").generate().unwrap(),
        DisplayMode::Public,
    );
    let address_hex = display(kp, DisplayMode::Address);
    assert_eq!(
        full,
        format!(
            "secret:  {}\npublic:  {}\naddress: {}",
            secret_hex, public_hex, address_hex
        )
    );
    let again = BrainGenerator::new("round trip").generate().unwrap();
    assert_eq!(decode_hex(&secret_hex).unwrap(), *again.secret());
    assert_eq!(decode_hex(&public_hex).unwrap(), *again.public());
    assert_eq!(decode_hex(&address_hex).unwrap(), *again.address());
}

#[test]
fn display_mode_precedence_prefers_secret() {
    let mut a = args("random");
    a.flag_secret = true;
    a.flag_public = true;
    a.flag_address = true;
    assert!(matches!(DisplayMode::new(&a), DisplayMode::Secret));
    a.flag_secret = false;
    assert!(matches!(DisplayMode::new(&a), DisplayMode::Public));
    a.flag_public = false;
    assert!(matches!(DisplayMode::new(&a), DisplayMode::Address));
    a.flag_address = false;
    assert!(matches!(DisplayMode::new(&a), DisplayMode::KeyPair));
}

#[test]
fn scenario_random_address() {
    let mut a = args("random");
    a.flag_address = true;
    let first = execute(&a).unwrap();
    let second = execute(&a).unwrap();
    assert_eq!(first.len(), 40);
    assert!(first.chars().all(|c| c.is_ascii_hexdigit()));
    assert_ne!(first, second);
}

#[test]
fn scenario_brain_secret_is_reproducible() {
    let mut a = args("brain");
    a.arg_seed = String::from("correct horse battery staple");
    a.flag_secret = true;
    let first = execute(&a).unwrap();
    let second = execute(&a).unwrap();
    assert_eq!(first, second);
    assert_eq!(first.len(), 64);
    assert_eq!(first, encode_hex(&keccak256(b"correct horse battery staple")));
}

#[test]
fn scenario_prefix_search_succeeds_or_exhausts() {
    let mut a = args("prefix");
    a.arg_prefix = String::from("ab");
    a.arg_iterations = String::from("100000");
    a.flag_address = true;
    match execute(&a) {
        Ok(address_hex) => assert!(address_hex.starts_with("ab")),
        Err(e) => assert_eq!(
            e,
            Error::GenerationFailure(GenerationFailureKind::PrefixExhausted)
        ),
    }
}

#[test]
fn scenario_invalid_prefix_fails_before_generation() {
    let mut a = args("prefix");
    a.arg_prefix = String::from("zz");
    a.arg_iterations = String::from("10");
    let err = execute(&a).unwrap_err();
    assert_eq!(
        err,
        Error::HexDecodeFailure(HexDecodeFailureKind::InvalidCharacter { byte: b'z', index: 0 })
    );
}

#[test]
fn scenario_invalid_iterations_fail_after_prefix_decode() {
    let mut a = args("prefix");
    a.arg_prefix = String::from("ab");
    a.arg_iterations = String::from("ten");
    let err = execute(&a).unwrap_err();
    assert!(matches!(err, Error::IntegerParseFailure(_)));
}

#[test]
fn full_pair_output_is_three_labelled_lines() {
    let mut a = args("brain");
    a.arg_seed = String::from("label check");
    let out = execute(&a).unwrap();
    let lines: Vec<&str> = out.split('\n').collect();
    assert_eq!(lines.len(), 3);
    assert!(lines[0].starts_with("secret:  "));
    assert!(lines[1].starts_with("public:  "));
    assert!(lines[2].starts_with("address: "));
}
