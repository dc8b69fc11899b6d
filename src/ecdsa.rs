use vstd::prelude::*;

use vstd::arithmetic::div_mod::lemma_small_mod;

use crate::error::{SignError, VerifyError};
use crate::felt::{field_prime, lemma_field_prime_large, two_64, Felt};

verus! {

/// 2^251: message hashes, r and s must lie below it.
pub open spec fn element_bound() -> nat {
    0x800_0000_0000_0000 * two_64() * two_64() * two_64()
}

/// The order of the curve's generator.
pub open spec fn curve_order() -> nat {
    0x0800_0000_0000_0010_ffff_ffff_ffff_ffff * two_64() * two_64()
        + 0xb781_126d_cae7_b232_1e66_a241_adc6_4d2f
}

/// The curve order lies above 2^251.
pub proof fn lemma_order_above_bound()
    ensures
        curve_order() > element_bound(),
{
    let t = two_64();
    assert(0x0800_0000_0000_0010_ffff_ffff_ffff_ffff * t * t > 0x800_0000_0000_0000 * t * t * t)
        by (nonlinear_arith)
        requires
            t == 0x1_0000_0000_0000_0000,
    ;
}

/// The most nonce candidates tried for one signature.
pub const MAX_SIGN_ATTEMPTS: u64 = 1000;

/// The nonce candidate that RFC 6979 derives from a message hash, a private
/// key and an optional retry seed.
pub uninterp spec fn rfc6979_k_of(message_hash: nat, private_key: nat, seed: Option<nat>) -> nat;

/// The (r, s) signature, or the refusal, for a private key, a message hash and
/// a nonce.
pub uninterp spec fn ecdsa_sign_of(private_key: nat, message_hash: nat, k: nat) -> Result<
    (nat, nat),
    SignError,
>;

/// Whether (r, s) is a signature of a message hash under a public key, or why
/// the inputs are refused.
pub uninterp spec fn ecdsa_verify_of(public_key: nat, message_hash: nat, r: nat, s: nat) -> Result<
    bool,
    VerifyError,
>;

/// The value of an optional element.
pub open spec fn opt_value(seed: Option<Felt>) -> Option<nat> {
    match seed {
        Some(f) => Some(f.value()),
        None => None,
    }
}

/// Relies on starknet_crypto::rfc6979_generate_k: the candidate depends on its
/// three arguments alone, and its loop only returns one in [1, curve order).
#[verifier::external_body]
fn generate_k(message_hash: &Felt, private_key: &Felt, seed: Option<Felt>) -> (k: Felt)
    ensures
        k.value() == rfc6979_k_of(message_hash.value(), private_key.value(), opt_value(seed)),
        0 < k.value() < curve_order(),
{
    let m = starknet_crypto::FieldElement::from_bytes_be(&message_hash.bytes).unwrap();
    let d = starknet_crypto::FieldElement::from_bytes_be(&private_key.bytes).unwrap();
    let s = seed.map(|f| starknet_crypto::FieldElement::from_bytes_be(&f.bytes).unwrap());
    let k = starknet_crypto::rfc6979_generate_k(&m, &d, s.as_ref());
    Felt { bytes: k.to_bytes_be() }
}

/// Relies on starknet_crypto::sign: the outcome depends on its three
/// arguments alone; it refuses a message hash not below 2^251 before anything
/// else; r and s of a signature lie in [1, 2^251). A k in [1, curve order) is
/// demanded, as its inverse modulo the order is taken.
#[verifier::external_body]
fn ecdsa_sign(private_key: &Felt, message_hash: &Felt, k: &Felt) -> (r: Result<(Felt, Felt), SignError>)
    requires
        0 < k.value() < curve_order(),
    ensures
        match r {
            Ok((sr, ss)) => ecdsa_sign_of(private_key.value(), message_hash.value(), k.value())
                == Ok::<(nat, nat), SignError>((sr.value(), ss.value())) && 0 < sr.value()
                < element_bound() && 0 < ss.value() < element_bound(),
            Err(e) => ecdsa_sign_of(private_key.value(), message_hash.value(), k.value()) == Err::<
                (nat, nat),
                SignError,
            >(e),
        },
        (r matches Err(SignError::InvalidMessageHash)) <==> message_hash.value() >= element_bound(),
{
    let d = starknet_crypto::FieldElement::from_bytes_be(&private_key.bytes).unwrap();
    let m = starknet_crypto::FieldElement::from_bytes_be(&message_hash.bytes).unwrap();
    let k = starknet_crypto::FieldElement::from_bytes_be(&k.bytes).unwrap();
    match starknet_crypto::sign(&d, &m, &k) {
        Ok(sig) => Ok((Felt { bytes: sig.r.to_bytes_be() }, Felt { bytes: sig.s.to_bytes_be() })),
        Err(starknet_crypto::SignError::InvalidMessageHash) => Err(SignError::InvalidMessageHash),
        Err(starknet_crypto::SignError::InvalidK) => Err(SignError::InvalidK),
    }
}

/// Relies on starknet_crypto::verify: the outcome depends on its four
/// arguments alone; it refuses a message hash not below 2^251 before anything
/// else, then an r, then an s that is zero or not below 2^251.
#[verifier::external_body]
fn ecdsa_verify(public_key: &Felt, message_hash: &Felt, r: &Felt, s: &Felt) -> (res: Result<bool, VerifyError>)
    ensures
        res == ecdsa_verify_of(public_key.value(), message_hash.value(), r.value(), s.value()),
        (res matches Err(VerifyError::InvalidMessageHash)) <==> message_hash.value()
            >= element_bound(),
        message_hash.value() < element_bound() && (r.value() == 0 || r.value() >= element_bound())
            ==> (res matches Err(VerifyError::InvalidR)),
        message_hash.value() < element_bound() && 0 < r.value() < element_bound() && (s.value()
            == 0 || s.value() >= element_bound()) ==> (res matches Err(VerifyError::InvalidS)),
{
    let q = starknet_crypto::FieldElement::from_bytes_be(&public_key.bytes).unwrap();
    let m = starknet_crypto::FieldElement::from_bytes_be(&message_hash.bytes).unwrap();
    let r = starknet_crypto::FieldElement::from_bytes_be(&r.bytes).unwrap();
    let s = starknet_crypto::FieldElement::from_bytes_be(&s.bytes).unwrap();
    match starknet_crypto::verify(&q, &m, &r, &s) {
        Ok(b) => Ok(b),
        Err(starknet_crypto::VerifyError::InvalidPublicKey) => Err(VerifyError::InvalidPublicKey),
        Err(starknet_crypto::VerifyError::InvalidMessageHash) => Err(VerifyError::InvalidMessageHash),
        Err(starknet_crypto::VerifyError::InvalidR) => Err(VerifyError::InvalidR),
        Err(starknet_crypto::VerifyError::InvalidS) => Err(VerifyError::InvalidS),
    }
}

/// The retry seed of attempt `i`: none for the first, `i` after that.
pub open spec fn attempt_seed(i: nat) -> Option<nat> {
    if i == 0 {
        None
    } else {
        Some(i)
    }
}

/// What attempt `i` of signing gives.
pub open spec fn sign_attempt(private_key: nat, message_hash: nat, i: nat) -> Result<
    (nat, nat),
    SignError,
> {
    ecdsa_sign_of(private_key, message_hash, rfc6979_k_of(message_hash, private_key, attempt_seed(i)))
}

/// The outcome of signing from attempt `i` on: the first attempt whose nonce
/// is not refused decides; past the last allowed attempt the nonce is refused.
pub open spec fn sign_from(private_key: nat, message_hash: nat, i: nat) -> Result<
    (nat, nat),
    SignError,
>
    decreases MAX_SIGN_ATTEMPTS - i,
{
    if i >= MAX_SIGN_ATTEMPTS {
        Err(SignError::InvalidK)
    } else {
        match sign_attempt(private_key, message_hash, i) {
            Err(SignError::InvalidK) => sign_from(private_key, message_hash, i + 1),
            other => other,
        }
    }
}

/// The retry seed that follows seed `i` is `i + 1`, whichever way round the
/// field sum with one is taken.
pub proof fn lemma_next_seed(i: nat)
    requires
        i < MAX_SIGN_ATTEMPTS,
    ensures
        crate::felt::field_add(i, 1) == i + 1,
        crate::felt::field_add(1, i) == i + 1,
        attempt_seed(i + 1) == Some(i + 1),
{
    lemma_field_prime_large();
    lemma_small_mod(i + 1, field_prime());
}

/// Signs a message hash, deriving the nonce deterministically and deriving a
/// fresh one with the next retry seed for as long as the nonce is refused.
pub fn sign_felts(private_key: &Felt, message_hash: &Felt) -> (r: Result<(Felt, Felt), SignError>)
    ensures
        match r {
            Ok((sr, ss)) => sign_from(private_key.value(), message_hash.value(), 0) == Ok::<
                (nat, nat),
                SignError,
            >((sr.value(), ss.value())) && 0 < sr.value() < element_bound() && 0 < ss.value()
                < element_bound(),
            Err(e) => sign_from(private_key.value(), message_hash.value(), 0) == Err::<
                (nat, nat),
                SignError,
            >(e),
        },
        (r matches Err(SignError::InvalidMessageHash)) <==> message_hash.value() >= element_bound(),
{
    let one = Felt::one();
    let mut seed: Option<Felt> = None;
    let mut attempt: u64 = 0;
    while attempt < MAX_SIGN_ATTEMPTS
        invariant
            attempt <= MAX_SIGN_ATTEMPTS,
            one.value() == 1,
            opt_value(seed) == attempt_seed(attempt as nat),
            sign_from(private_key.value(), message_hash.value(), attempt as nat) == sign_from(
                private_key.value(),
                message_hash.value(),
                0,
            ),
            attempt > 0 ==> message_hash.value() < element_bound(),
        decreases MAX_SIGN_ATTEMPTS - attempt,
    {
        let k = generate_k(message_hash, private_key, seed);
        match ecdsa_sign(private_key, message_hash, &k) {
            Ok(sig) => {
                return Ok(sig);
            },
            Err(SignError::InvalidK) => {
                seed = match seed {
                    Some(prev) => Some(prev.add(&one)),
                    None => Some(one),
                };
                proof {
                    lemma_next_seed(attempt as nat);
                }
                attempt += 1;
            },
            Err(e) => {
                return Err(e);
            },
        }
    }
    Err(SignError::InvalidK)
}

/// How a verification outcome is reported: any input that the curve
/// arithmetic refuses (a message hash, r or s out of range, a public key off
/// the curve) is a signature that does not verify.
pub open spec fn settle_verify_spec(outcome: Result<bool, VerifyError>) -> bool {
    match outcome {
        Ok(b) => b,
        Err(_) => false,
    }
}

/// Reports a verification outcome as `settle_verify_spec` says.
pub fn settle_verify(outcome: Result<bool, VerifyError>) -> (r: bool)
    ensures
        r == settle_verify_spec(outcome),
{
    match outcome {
        Ok(b) => b,
        Err(_) => false,
    }
}

/// Verifies a signature (r, s) of a message hash under a public key.
pub fn verify_felts(public_key: &Felt, message_hash: &Felt, r: &Felt, s: &Felt) -> (res: bool)
    ensures
        res == settle_verify_spec(
            ecdsa_verify_of(public_key.value(), message_hash.value(), r.value(), s.value()),
        ),
        r.value() == 0 || r.value() >= curve_order() || s.value() == 0 || s.value()
            >= curve_order() ==> !res,
{
    proof {
        lemma_order_above_bound();
    }
    settle_verify(ecdsa_verify(public_key, message_hash, r, s))
}

} // verus!
