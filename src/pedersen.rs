use vstd::prelude::*;

use crate::felt::{field_prime, Felt};

verus! {

/// The STARK Pedersen hash of two field elements.
pub uninterp spec fn pedersen_of(x: nat, y: nat) -> nat;

/// Relies on starknet_crypto::pedersen_hash: the hash depends on its two
/// arguments alone and is defined for every pair of field elements.
#[verifier::external_body]
fn pedersen_hash(x: &Felt, y: &Felt) -> (r: Felt)
    ensures
        r.value() == pedersen_of(x.value(), y.value()),
{
    let a = starknet_crypto::FieldElement::from_bytes_be(&x.bytes).unwrap();
    let b = starknet_crypto::FieldElement::from_bytes_be(&y.bytes).unwrap();
    Felt { bytes: starknet_crypto::pedersen_hash(&a, &b).to_bytes_be() }
}

/// The Pedersen hash of `x` and `y`, in that order.
pub fn pedersen_felts(x: &Felt, y: &Felt) -> (r: Felt)
    ensures
        r.value() == pedersen_of(x.value(), y.value()),
        r.value() < field_prime(),
{
    let r = pedersen_hash(x, y);
    proof {
        use_type_invariant(&r);
    }
    r
}

} // verus!
