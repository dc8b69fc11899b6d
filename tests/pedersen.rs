use starknet_crypto_napi::{pedersen_stark, Error, HexError};

fn hash(x: &str, y: &str) -> String {
    pedersen_stark(x.to_string(), y.to_string()).unwrap()
}

const X1: &str = "03d937c035c878245caf64531a5756109c53068da139362728feb561405371cb";
const Y1: &str = "0208a0a10250e382e1e4bbe2880906c2791bf6275695e02fbbc6aeff9cd8b31a";
const X2: &str = "058f580910a6ca59b28927c08fe6c43e2e303ca384badc365795fc645d479d45";
const Y2: &str = "078734f65a067be9bdb39de18434d71e79f7b6466a4b66bbd979ab9e7515fe0b";

#[test]
fn pedersen_known_vectors() {
    assert_eq!(hash(X1, Y1), "30e480bed5fe53fa909cc0f8c4d99b8f9f2c016be4c41e13a4848797979c662");
    assert_eq!(hash(X2, Y2), "68cc0b76cddd1dd4ed2301ada9b7c872b23875d5ff837b3a87993e0d9996b87");
}

#[test]
fn pedersen_accepts_prefixed_input() {
    assert_eq!(
        hash(&format!("0x{}", X1), &format!("0x{}", Y1)),
        "30e480bed5fe53fa909cc0f8c4d99b8f9f2c016be4c41e13a4848797979c662"
    );
}

#[test]
fn pedersen_is_deterministic() {
    let first = hash(X2, Y2);
    for _ in 0..3 {
        assert_eq!(hash(X2, Y2), first);
    }
}

#[test]
fn pedersen_is_not_commutative() {
    assert_ne!(hash(X1, Y1), hash(Y1, X1));
    assert_ne!(hash(X2, Y2), hash(Y2, X2));
}

#[test]
fn pedersen_output_has_no_prefix() {
    let h = hash("0x0", "0x0");
    assert!(!h.starts_with("0x"));
    assert!(h.chars().all(|c| c.is_ascii_hexdigit() && !c.is_ascii_uppercase()));
}

#[test]
fn pedersen_refuses_malformed_input() {
    assert!(matches!(
        pedersen_stark("0xzz".to_string(), "0x1".to_string()),
        Err(Error::FromHexError(HexError::InvalidCharacter))
    ));
    assert!(matches!(
        pedersen_stark(
            "0x1".to_string(),
            "0x800000000000011000000000000000000000000000000000000000000000001".to_string()
        ),
        Err(Error::FromHexError(HexError::OutOfRange))
    ));
}
