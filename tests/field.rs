use starknet_crypto_napi::felt::Felt;
use starknet_crypto_napi::{Error, HexError, SignError, VerifyError};

const PRIME_HEX: &str = "0x800000000000011000000000000000000000000000000000000000000000001";
const PRIME_MINUS_ONE_HEX: &str = "0x800000000000011000000000000000000000000000000000000000000000000";

fn felt(s: &str) -> Felt {
    Felt::from_hex_be(s).unwrap()
}

#[test]
fn hex_round_trip_drops_prefix_and_leading_zeros() {
    assert_eq!(felt("0x1").to_hex(), "1");
    assert_eq!(felt("0x0000ff").to_hex(), "ff");
    assert_eq!(felt("ABCdef").to_hex(), "abcdef");
    assert_eq!(felt("0xABC").to_prefixed_hex(), "0xabc");
    assert_eq!(felt(PRIME_MINUS_ONE_HEX).to_prefixed_hex(), PRIME_MINUS_ONE_HEX);
}

#[test]
fn empty_digits_read_as_zero() {
    assert_eq!(felt("").to_hex(), "0");
    assert_eq!(felt("0x").to_hex(), "0");
    assert_eq!(felt("0x0").to_prefixed_hex(), "0x0");
}

#[test]
fn every_leading_prefix_is_stripped() {
    assert_eq!(felt("0x0x5").to_hex(), "5");
}

#[test]
fn full_width_input_is_accepted() {
    let s = "07ffffffffffffffffffffffffffffffffffffffffffffffffffffffffffffff";
    assert_eq!(s.len(), 64);
    assert_eq!(felt(s).to_hex(), "7ffffffffffffffffffffffffffffffffffffffffffffffffffffffffffffff");
}

#[test]
fn non_hex_character_is_refused() {
    assert!(matches!(Felt::from_hex_be("0x12g4"), Err(HexError::InvalidCharacter)));
    assert!(matches!(Felt::from_hex_be("0X12"), Err(HexError::InvalidCharacter)));
    assert!(matches!(Felt::from_hex_be(" 12"), Err(HexError::InvalidCharacter)));
}

#[test]
fn value_at_or_above_prime_is_refused() {
    assert!(matches!(Felt::from_hex_be(PRIME_HEX), Err(HexError::OutOfRange)));
    assert!(matches!(
        Felt::from_hex_be("0xffffffffffffffffffffffffffffffffffffffffffffffffffffffffffffffff"),
        Err(HexError::OutOfRange)
    ));
}

#[test]
fn more_than_sixty_four_digits_is_out_of_range() {
    let s = format!("0x{}", "0".repeat(65));
    assert!(matches!(Felt::from_hex_be(&s), Err(HexError::OutOfRange)));
}

#[test]
fn zero_and_one() {
    assert_eq!(Felt::zero().to_hex(), "0");
    assert_eq!(Felt::one().to_hex(), "1");
}

#[test]
fn addition_commutes_and_has_identity() {
    let a = felt("0x1234567890abcdef");
    let b = felt(PRIME_MINUS_ONE_HEX);
    assert_eq!(a.add(&b).to_hex(), b.add(&a).to_hex());
    assert_eq!(a.add(&Felt::zero()).to_hex(), a.to_hex());
    assert_eq!(a.add(&b).to_hex(), "1234567890abcdee");
}

#[test]
fn addition_wraps_at_the_prime() {
    assert_eq!(felt(PRIME_MINUS_ONE_HEX).add(&Felt::one()).to_hex(), "0");
    assert_eq!(felt("0x2").add(&felt("0x3")).to_hex(), "5");
}

#[test]
fn multiplication_is_exact() {
    assert_eq!(felt("0x3").mul(&felt("0x5")).to_hex(), "f");
    assert_eq!(felt(PRIME_MINUS_ONE_HEX).mul(&felt(PRIME_MINUS_ONE_HEX)).to_hex(), "1");
}

#[test]
fn element_times_inverse_is_one() {
    for s in ["0x1", "0x2", "0x1234", PRIME_MINUS_ONE_HEX] {
        let a = felt(s);
        let inv = a.inverse().unwrap();
        assert_eq!(a.mul(&inv).to_hex(), "1");
    }
    assert_eq!(felt("0x2").inverse().unwrap().to_hex(), "400000000000008800000000000000000000000000000000000000000000001");
}

#[test]
fn zero_has_no_inverse() {
    assert!(Felt::zero().inverse().is_none());
}

#[test]
fn error_messages() {
    assert_eq!(Error::FromHexError(HexError::InvalidCharacter).message(), "invalid character");
    assert_eq!(Error::FromHexError(HexError::OutOfRange).message(), "number out of range");
    assert_eq!(Error::SignError(SignError::InvalidMessageHash).message(), "Invalid message hash");
    assert_eq!(Error::SignError(SignError::InvalidK).message(), "Invalid k");
    assert_eq!(Error::VerifyError(VerifyError::InvalidPublicKey).message(), "Invalid public key");
    assert_eq!(Error::VerifyError(VerifyError::InvalidMessageHash).message(), "Invalid message hash");
    assert_eq!(Error::VerifyError(VerifyError::InvalidR).message(), "Invalid r");
    assert_eq!(Error::VerifyError(VerifyError::InvalidS).message(), "Invalid s");
}

#[test]
fn subtraction_and_negation() {
    assert_eq!(felt("0x5").sub(&felt("0x3")).to_hex(), "2");
    assert_eq!(felt("0x3").sub(&felt("0x5")).to_prefixed_hex(), "0x800000000000010ffffffffffffffffffffffffffffffffffffffffffffffff");
    assert_eq!(felt("0x1").neg().to_prefixed_hex(), PRIME_MINUS_ONE_HEX);
    assert_eq!(Felt::zero().neg().to_hex(), "0");
    let a = felt("0xabcdef");
    assert_eq!(a.add(&a.neg()).to_hex(), "0");
}

#[test]
fn non_ascii_input_counts_bytes() {
    assert!(matches!(Felt::from_hex_be("0x1\u{e9}"), Err(HexError::InvalidCharacter)));
    let long = "\u{e9}".repeat(33);
    assert!(matches!(Felt::from_hex_be(&long), Err(HexError::OutOfRange)));
}
