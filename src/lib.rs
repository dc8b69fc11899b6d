//! Verified core of the STARK curve primitives: field elements, ECDSA-style
//! signing with deterministic nonces, verification and the Pedersen hash,
//! all over hex-encoded inputs and outputs.

pub mod ecdsa;
pub mod error;
pub mod felt;
pub mod pedersen;

use vstd::prelude::*;

use crate::ecdsa::{
    curve_order, ecdsa_verify_of, element_bound, lemma_order_above_bound, settle_verify_spec,
    sign_felts, sign_from, verify_felts,
};
pub use crate::error::{Error, HexError, SignError, VerifyError};
use crate::felt::{field_prime, hex_digits, parse_hex_spec, Felt};
use crate::pedersen::{pedersen_felts, pedersen_of};

verus! {

/// A signature as two `0x`-prefixed lowercase hex strings.
#[derive(Debug, Clone)]
pub struct Signature {
    pub r: String,
    pub s: String,
}

/// `0x` followed by the lowercase hex digits of `n`.
pub open spec fn prefixed_hex(n: nat) -> Seq<char> {
    seq!['0', 'x'] + hex_digits(n)
}

/// The value that a hex string stands for, where it reads as one.
pub open spec fn hex_arg(s: Seq<char>) -> nat {
    parse_hex_spec(s)->Ok_0
}

/// Whether every string reads as a field element.
pub open spec fn all_parse(args: Seq<Seq<char>>) -> bool {
    forall|i: int| 0 <= i < args.len() ==> (#[trigger] parse_hex_spec(args[i])) is Ok
}

/// Where the strings before `arg` read as field elements but `arg` does not,
/// the error that reading `arg` gives.
pub open spec fn hex_error_at<T>(before: Seq<Seq<char>>, arg: Seq<char>, res: Result<T, Error>) -> bool {
    all_parse(before) && (parse_hex_spec(arg) is Err) ==> res == Err::<
        T,
        Error,
    >(Error::FromHexError(parse_hex_spec(arg)->Err_0))
}

fn read_felt(s: &String) -> (r: Result<Felt, Error>)
    ensures
        r is Ok <==> parse_hex_spec(s@) is Ok,
        r matches Ok(f) ==> f.value() == hex_arg(s@),
        r is Err ==> (r matches Err(Error::FromHexError(_))),
        parse_hex_spec(s@) matches Err(e) ==> r == Err::<Felt, Error>(Error::FromHexError(e)),
{
    match Felt::from_hex_be(s.as_str()) {
        Ok(f) => Ok(f),
        Err(e) => Err(Error::FromHexError(e)),
    }
}

/// Checks a signature (r, s) of a message hash under a public key, all given
/// as hex. Only an input that is not a hex field element is an error; for
/// field elements the answer is a boolean, and a message hash, r or s out of
/// range, or a public key that is not on the curve, does not verify.
pub fn verify_stark(
    public_key: String,
    message_hash: String,
    signature_r: String,
    signature_s: String,
) -> (res: Result<bool, Error>)
    ensures
        res is Err <==> !all_parse(seq![public_key@, message_hash@, signature_r@, signature_s@]),
        res is Err ==> (res matches Err(Error::FromHexError(_))),
        all_parse(seq![public_key@, message_hash@, signature_r@, signature_s@]) ==> res == Ok::<
            bool,
            Error,
        >(
            settle_verify_spec(
                ecdsa_verify_of(
                    hex_arg(public_key@),
                    hex_arg(message_hash@),
                    hex_arg(signature_r@),
                    hex_arg(signature_s@),
                ),
            ),
        ),
        all_parse(seq![public_key@, message_hash@, signature_r@, signature_s@]) && (hex_arg(
            signature_r@,
        ) == 0 || hex_arg(signature_r@) >= curve_order() || hex_arg(signature_s@) == 0 || hex_arg(
            signature_s@,
        ) >= curve_order()) ==> (res matches Ok(false)),
        hex_error_at(seq![], public_key@, res),
        hex_error_at(seq![public_key@], message_hash@, res),
        hex_error_at(seq![public_key@, message_hash@], signature_r@, res),
        hex_error_at(seq![public_key@, message_hash@, signature_r@], signature_s@, res),
{
    let ghost args = seq![public_key@, message_hash@, signature_r@, signature_s@];
    let q = match read_felt(&public_key) {
        Ok(f) => f,
        Err(e) => {
            assert(!(parse_hex_spec(args[0]) is Ok));
            assert(seq![public_key@][0] == public_key@);
            return Err(e);
        },
    };
    let m = match read_felt(&message_hash) {
        Ok(f) => f,
        Err(e) => {
            assert(!(parse_hex_spec(args[1]) is Ok));
            return Err(e);
        },
    };
    let r = match read_felt(&signature_r) {
        Ok(f) => f,
        Err(e) => {
            assert(!(parse_hex_spec(args[2]) is Ok));
            return Err(e);
        },
    };
    let s = match read_felt(&signature_s) {
        Ok(f) => f,
        Err(e) => {
            assert(!(parse_hex_spec(args[3]) is Ok));
            return Err(e);
        },
    };
    assert(all_parse(args));
    Ok(verify_felts(&q, &m, &r, &s))
}

/// Signs a message hash with a private key, both given as hex. The nonce is
/// derived deterministically; while it gives a degenerate signature a new one
/// is derived with the next retry seed. r and s come back `0x`-prefixed.
pub fn sign_stark(private_key: String, message_hash: String) -> (res: Result<Signature, Error>)
    ensures
        (res matches Err(Error::FromHexError(_))) <==> !all_parse(
            seq![private_key@, message_hash@],
        ),
        all_parse(seq![private_key@, message_hash@]) ==> match sign_from(
            hex_arg(private_key@),
            hex_arg(message_hash@),
            0,
        ) {
            Ok((r, s)) => res matches Ok(sig) && sig.r@ == prefixed_hex(r) && sig.s@ == prefixed_hex(
                s,
            ) && 0 < r < element_bound() && 0 < s < element_bound() && r < curve_order() && s
                < curve_order(),
            Err(e) => res == Err::<Signature, Error>(Error::SignError(e)),
        },
        all_parse(seq![private_key@, message_hash@]) ==> ((res matches Err(
            Error::SignError(SignError::InvalidMessageHash),
        )) <==> hex_arg(message_hash@) >= element_bound()),
        hex_error_at(seq![], private_key@, res),
        hex_error_at(seq![private_key@], message_hash@, res),
{
    let ghost args = seq![private_key@, message_hash@];
    let d = match read_felt(&private_key) {
        Ok(f) => f,
        Err(e) => {
            assert(!(parse_hex_spec(args[0]) is Ok));
            assert(seq![private_key@][0] == private_key@);
            return Err(e);
        },
    };
    let m = match read_felt(&message_hash) {
        Ok(f) => f,
        Err(e) => {
            assert(!(parse_hex_spec(args[1]) is Ok));
            return Err(e);
        },
    };
    assert(all_parse(args));
    proof {
        lemma_order_above_bound();
    }
    match sign_felts(&d, &m) {
        Ok((r, s)) => Ok(Signature { r: r.to_prefixed_hex(), s: s.to_prefixed_hex() }),
        Err(e) => Err(Error::SignError(e)),
    }
}

/// The Pedersen entry point is deterministic: for the same two inputs, any
/// two results that its contract admits are the same string.
pub proof fn lemma_pedersen_deterministic(x: Seq<char>, y: Seq<char>, h1: Seq<char>, h2: Seq<char>)
    requires
        all_parse(seq![x, y]),
        h1 == hex_digits(pedersen_of(hex_arg(x), hex_arg(y))),
        h2 == hex_digits(pedersen_of(hex_arg(x), hex_arg(y))),
    ensures
        h1 == h2,
{
}

/// The Pedersen hash of two field elements given as hex, as lowercase hex
/// without a prefix.
pub fn pedersen_stark(x: String, y: String) -> (res: Result<String, Error>)
    ensures
        (res matches Err(Error::FromHexError(_))) <==> !all_parse(seq![x@, y@]),
        res is Err ==> (res matches Err(Error::FromHexError(_))),
        all_parse(seq![x@, y@]) ==> (res matches Ok(h) && h@ == hex_digits(
            pedersen_of(hex_arg(x@), hex_arg(y@)),
        )),
        all_parse(seq![x@, y@]) ==> pedersen_of(hex_arg(x@), hex_arg(y@)) < field_prime(),
        hex_error_at(seq![], x@, res),
        hex_error_at(seq![x@], y@, res),
{
    let ghost args = seq![x@, y@];
    let a = match read_felt(&x) {
        Ok(f) => f,
        Err(e) => {
            assert(!(parse_hex_spec(args[0]) is Ok));
            assert(seq![x@][0] == x@);
            return Err(e);
        },
    };
    let b = match read_felt(&y) {
        Ok(f) => f,
        Err(e) => {
            assert(!(parse_hex_spec(args[1]) is Ok));
            return Err(e);
        },
    };
    assert(all_parse(args));
    Ok(pedersen_felts(&a, &b).to_hex())
}

} // verus!
