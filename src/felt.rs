use vstd::prelude::*;

use vstd::arithmetic::div_mod::lemma_small_mod;
use vstd::utf8::encode_utf8;

use crate::error::HexError;

verus! {

/// 2^64.
pub open spec fn two_64() -> nat {
    0x1_0000_0000_0000_0000
}

/// The STARK field prime P = 2^251 + 17 * 2^192 + 1.
pub open spec fn field_prime() -> nat {
    0x800_0000_0000_0011 * two_64() * two_64() * two_64() + 1
}

/// The field prime exceeds 2^64.
pub proof fn lemma_field_prime_large()
    ensures
        field_prime() > two_64(),
{
    let t = two_64();
    assert(0x800_0000_0000_0011 * t * t * t > t) by (nonlinear_arith)
        requires
            t > 1,
    ;
}

/// The big-endian value of a byte sequence.
pub open spec fn be_value(s: Seq<u8>) -> nat
    decreases s.len(),
{
    if s.len() == 0 {
        0
    } else {
        be_value(s.drop_last()) * 256 + s.last() as nat
    }
}

proof fn lemma_be_value_zeros(s: Seq<u8>)
    requires
        forall|i: int| 0 <= i < s.len() ==> s[i] == 0,
    ensures
        be_value(s) == 0,
    decreases s.len(),
{
    if s.len() > 0 {
        lemma_be_value_zeros(s.drop_last());
    }
}

/// Whether `c` is a hex digit, in either case.
pub open spec fn is_hex_digit(c: char) -> bool {
    ('0' <= c && c <= '9') || ('a' <= c && c <= 'f') || ('A' <= c && c <= 'F')
}

/// The value of a hex digit.
pub open spec fn hex_digit_value(c: char) -> nat {
    if '0' <= c && c <= '9' {
        (c as u32 - '0' as u32) as nat
    } else if 'a' <= c && c <= 'f' {
        (c as u32 - 'a' as u32 + 10) as nat
    } else {
        (c as u32 - 'A' as u32 + 10) as nat
    }
}

/// The big-endian value of a string of hex digits; the empty string is zero.
pub open spec fn hex_value(s: Seq<char>) -> nat
    decreases s.len(),
{
    if s.len() == 0 {
        0
    } else {
        hex_value(s.drop_last()) * 16 + hex_digit_value(s.last())
    }
}

/// `s` with every leading `0x` removed, one after another.
pub open spec fn strip_hex_prefix(s: Seq<char>) -> Seq<char>
    decreases s.len(),
{
    if s.len() >= 2 && s[0] == '0' && s[1] == 'x' {
        strip_hex_prefix(s.subrange(2, s.len() as int))
    } else {
        s
    }
}

/// How a big-endian hex string reads as a field element: any number of
/// leading `0x`, then at most 64 bytes (in UTF-8), all hex digits of either
/// case, whose value is below the field prime.
pub open spec fn parse_hex_spec(s: Seq<char>) -> Result<nat, HexError> {
    let t = strip_hex_prefix(s);
    if encode_utf8(t).len() > 64 {
        Err(HexError::OutOfRange)
    } else if !(forall|i: int| 0 <= i < t.len() ==> is_hex_digit(#[trigger] t[i])) {
        Err(HexError::InvalidCharacter)
    } else if hex_value(t) >= field_prime() {
        Err(HexError::OutOfRange)
    } else {
        Ok(hex_value(t))
    }
}

/// A string that, after its leading `0x`, holds a character that is not a
/// hex digit, or hex digits whose value is not below the prime, does not read
/// as a field element; with at most 64 bytes left, the first is an invalid
/// character.
pub proof fn lemma_parse_rejects(s: Seq<char>, i: int)
    ensures
        0 <= i < strip_hex_prefix(s).len() && !is_hex_digit(strip_hex_prefix(s)[i])
            ==> parse_hex_spec(s) is Err,
        0 <= i < strip_hex_prefix(s).len() && !is_hex_digit(strip_hex_prefix(s)[i])
            && encode_utf8(strip_hex_prefix(s)).len() <= 64 ==> parse_hex_spec(s) == Err::<nat, HexError>(
            HexError::InvalidCharacter,
        ),
        hex_value(strip_hex_prefix(s)) >= field_prime() ==> parse_hex_spec(s) is Err,
{
}

/// The lowercase hex digit of `d < 16`.
pub open spec fn hex_char(d: nat) -> char {
    seq!['0', '1', '2', '3', '4', '5', '6', '7', '8', '9', 'a', 'b', 'c', 'd', 'e', 'f'][d as int]
}

/// The lowercase hex digits of `n` without leading zeros; zero is `"0"`.
pub open spec fn hex_digits(n: nat) -> Seq<char>
    decreases n,
{
    if n < 16 {
        seq![hex_char(n)]
    } else {
        hex_digits(n / 16).push(hex_char(n % 16))
    }
}

/// Sum in the field.
pub open spec fn field_add(a: nat, b: nat) -> nat {
    (a + b) % field_prime()
}

/// Difference in the field.
pub open spec fn field_sub(a: nat, b: nat) -> nat {
    ((a - b) % (field_prime() as int)) as nat
}

/// Negation in the field.
pub open spec fn field_neg(a: nat) -> nat {
    field_sub(0, a)
}

/// Product in the field.
pub open spec fn field_mul(a: nat, b: nat) -> nat {
    (a * b) % field_prime()
}

/// Whether `x` is a multiplicative inverse of `a` in the field.
pub open spec fn is_field_inverse(a: nat, x: nat) -> bool {
    (a * x) % field_prime() == 1
}

/// Addition in the field is commutative and has zero as its identity, and an
/// element times an inverse of it is one.
pub proof fn lemma_field_laws(a: nat, b: nat, a_inv: nat)
    requires
        a < field_prime(),
        b < field_prime(),
        a != 0 ==> is_field_inverse(a, a_inv),
    ensures
        field_add(a, b) == field_add(b, a),
        field_add(a, 0) == a,
        a != 0 ==> field_mul(a, a_inv) == 1,
{
    lemma_small_mod(a, field_prime());
}

/// An element of the STARK field, held as 32 big-endian bytes whose value is
/// below the field prime.
#[derive(Clone, Copy)]
pub struct Felt {
    pub(crate) bytes: [u8; 32],
}

/// Relies on starknet_ff::FieldElement::from_hex_be: strips every leading
/// `0x`, refuses more than 64 bytes as out of range, decodes hex digits of
/// either case (left-padded with zeros, any other byte an invalid character),
/// and refuses a value not below the prime.
#[verifier::external_body]
fn ff_from_hex_be(s: &str) -> (r: Result<Felt, HexError>)
    ensures
        match r {
            Ok(f) => parse_hex_spec(s@) == Ok::<nat, HexError>(f.value()),
            Err(e) => parse_hex_spec(s@) == Err::<nat, HexError>(e),
        },
{
    match starknet_ff::FieldElement::from_hex_be(s) {
        Ok(f) => Ok(Felt { bytes: f.to_bytes_be() }),
        Err(starknet_ff::FromStrError::InvalidCharacter) => Err(HexError::InvalidCharacter),
        Err(starknet_ff::FromStrError::OutOfRange) => Err(HexError::OutOfRange),
    }
}

/// Relies on starknet_ff's `LowerHex` for FieldElement: lowercase digits of
/// the value with leading zeros dropped, and `0` for zero.
#[verifier::external_body]
fn ff_lower_hex(a: &Felt) -> (r: String)
    ensures
        r@ == hex_digits(a.value()),
{
    format!("{:x}", starknet_ff::FieldElement::from_bytes_be(&a.bytes).unwrap())
}

/// Relies on `Add` for starknet_ff::FieldElement: the sum modulo the prime.
#[verifier::external_body]
fn ff_add(a: &Felt, b: &Felt) -> (r: Felt)
    ensures
        r.value() == field_add(a.value(), b.value()),
{
    let x = starknet_ff::FieldElement::from_bytes_be(&a.bytes).unwrap();
    let y = starknet_ff::FieldElement::from_bytes_be(&b.bytes).unwrap();
    Felt { bytes: (x + y).to_bytes_be() }
}

/// Relies on `Sub` for starknet_ff::FieldElement: the difference modulo the
/// prime.
#[verifier::external_body]
fn ff_sub(a: &Felt, b: &Felt) -> (r: Felt)
    ensures
        r.value() == field_sub(a.value(), b.value()),
{
    let x = starknet_ff::FieldElement::from_bytes_be(&a.bytes).unwrap();
    let y = starknet_ff::FieldElement::from_bytes_be(&b.bytes).unwrap();
    Felt { bytes: (x - y).to_bytes_be() }
}

/// Relies on `Neg` for starknet_ff::FieldElement: the additive inverse
/// modulo the prime.
#[verifier::external_body]
fn ff_neg(a: &Felt) -> (r: Felt)
    ensures
        r.value() == field_neg(a.value()),
{
    Felt { bytes: (-starknet_ff::FieldElement::from_bytes_be(&a.bytes).unwrap()).to_bytes_be() }
}

/// Relies on `Mul` for starknet_ff::FieldElement: the product modulo the prime.
#[verifier::external_body]
fn ff_mul(a: &Felt, b: &Felt) -> (r: Felt)
    ensures
        r.value() == field_mul(a.value(), b.value()),
{
    let x = starknet_ff::FieldElement::from_bytes_be(&a.bytes).unwrap();
    let y = starknet_ff::FieldElement::from_bytes_be(&b.bytes).unwrap();
    Felt { bytes: (x * y).to_bytes_be() }
}

/// Relies on starknet_ff::FieldElement::invert: no inverse for zero, and the
/// multiplicative inverse for any other element.
#[verifier::external_body]
fn ff_invert(a: &Felt) -> (r: Option<Felt>)
    ensures
        r is None <==> a.value() == 0,
        r matches Some(x) ==> x.value() < field_prime() && is_field_inverse(a.value(), x.value()),
{
    starknet_ff::FieldElement::from_bytes_be(&a.bytes).unwrap().invert().map(
        |x| Felt { bytes: x.to_bytes_be() },
    )
}

impl Felt {
    /// The integer this element stands for.
    pub closed spec fn value(&self) -> nat {
        be_value(self.bytes@)
    }

    /// The invariant: the value is below the field prime.
    #[verifier::type_invariant]
    pub open spec fn in_field(&self) -> bool {
        self.value() < field_prime()
    }

    /// Reads a big-endian hex string, case-insensitive, with or without `0x`.
    pub fn from_hex_be(s: &str) -> (r: Result<Felt, HexError>)
        ensures
            match r {
                Ok(f) => parse_hex_spec(s@) == Ok::<nat, HexError>(f.value()),
                Err(e) => parse_hex_spec(s@) == Err::<nat, HexError>(e),
            },
    {
        ff_from_hex_be(s)
    }

    /// Lowercase hex digits of the value, without a prefix or leading zeros.
    pub fn to_hex(&self) -> (r: String)
        ensures
            r@ == hex_digits(self.value()),
    {
        ff_lower_hex(self)
    }

    /// Lowercase hex digits of the value after `0x`, without leading zeros.
    pub fn to_prefixed_hex(&self) -> (r: String)
        ensures
            r@ == seq!['0', 'x'] + hex_digits(self.value()),
    {
        let digits = ff_lower_hex(self);
        let mut out = String::from_str("0x");
        out.append(digits.as_str());
        proof {
            reveal_strlit("0x");
            assert(out@ =~= seq!['0', 'x'] + hex_digits(self.value()));
        }
        out
    }

    /// The sum of two elements.
    pub fn add(&self, other: &Felt) -> (r: Felt)
        ensures
            r.value() == field_add(self.value(), other.value()),
    {
        ff_add(self, other)
    }

    /// The difference of two elements.
    pub fn sub(&self, other: &Felt) -> (r: Felt)
        ensures
            r.value() == field_sub(self.value(), other.value()),
    {
        ff_sub(self, other)
    }

    /// The additive inverse.
    pub fn neg(&self) -> (r: Felt)
        ensures
            r.value() == field_neg(self.value()),
    {
        ff_neg(self)
    }

    /// The product of two elements.
    pub fn mul(&self, other: &Felt) -> (r: Felt)
        ensures
            r.value() == field_mul(self.value(), other.value()),
    {
        ff_mul(self, other)
    }

    /// The multiplicative inverse; zero has none.
    pub fn inverse(&self) -> (r: Option<Felt>)
        ensures
            r is None <==> self.value() == 0,
            r matches Some(x) ==> is_field_inverse(self.value(), x.value()),
    {
        ff_invert(self)
    }

    /// The field element zero.
    pub fn zero() -> (r: Felt)
        ensures
            r.value() == 0,
    {
        let bytes = [0u8; 32];
        proof {
            lemma_be_value_zeros(bytes@);
        }
        Felt { bytes }
    }

    /// The field element one.
    pub fn one() -> (r: Felt)
        ensures
            r.value() == 1,
    {
        let mut bytes = [0u8; 32];
        bytes[31] = 1;
        proof {
            lemma_be_value_zeros(bytes@.drop_last());
            assert(be_value(bytes@) == 1);
            lemma_field_prime_large();
        }
        Felt { bytes }
    }
}

} // verus!
