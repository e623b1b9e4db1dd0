//! What holds of the codecs and of the two requests, on all inputs.

use crate::bridge::{
    direct_result, embedded_result, first_malformed, input_values, PUBLIC_INPUTS,
};
use crate::codec::{
    combined_parts, proof_decoding, proof_values_of, ProofValuesView, PROOF_BYTES,
    PROOF_VALUES_BYTES,
};
use crate::error::{BridgeError, ProofDecodeFailure};
use crate::field::{field_hex, fr_modulus, hex_field, low_order_32, strip_prefix};
use crate::hexadecimal::{
    hex_bytes, hex_failure, hex_string_bytes, is_hex, is_hex_digit, lemma_digit_char_round_trip,
    lemma_hex_round_trip, HexError,
};
use crate::invoker::{reply_texts, verdict_on};
use crate::radix::{
    be_digits, be_value, lemma_be_value_leading_zeros, lemma_be_value_of_digits,
    lemma_be_value_one_byte, zeros,
};
use vstd::arithmetic::div_mod::{lemma_fundamental_div_mod, lemma_mod_equivalence};
use vstd::arithmetic::power::{
    lemma_pow0, lemma_pow1, lemma_pow_adds, lemma_pow_increases, lemma_pow_positive, pow,
};
use vstd::prelude::*;
use vstd::utf8::{encode_utf8, is_ascii_chars, is_ascii_chars_encode_utf8};

verus! {

/// The number that `256^32` is.
pub proof fn lemma_pow_256_32()
    ensures
        pow(256, 32)
            == 0x1_0000_0000_0000_0000_0000_0000_0000_0000_0000_0000_0000_0000_0000_0000_0000_0000,
{
    assert(pow(256, 2) == 0x1_0000) by {
        reveal_with_fuel(pow, 3);
    }
    lemma_pow_adds(256, 2, 2);
    assert(pow(256, 4) == 0x1_0000_0000);
    lemma_pow_adds(256, 4, 4);
    assert(pow(256, 8) == 0x1_0000_0000_0000_0000);
    lemma_pow_adds(256, 8, 8);
    assert(pow(256, 16) == 0x1_0000_0000_0000_0000_0000_0000_0000_0000);
    lemma_pow_adds(256, 16, 16);
}

/// The modulus is below `256^32`: every element has a spelling in 32 bytes.
pub proof fn lemma_modulus_fits_32_bytes()
    ensures
        fr_modulus() < pow(256, 32),
{
    lemma_pow_256_32();
}

/// `text` behind the two bytes `0x`.
pub open spec fn prefixed(text: Seq<u8>) -> Seq<u8> {
    seq![0x30u8, 0x78u8] + text
}

/// Hexadecimal text reads the same with and without `0x` in front.
pub proof fn lemma_prefix_is_optional(digits: Seq<u8>)
    requires
        is_hex(digits),
    ensures
        hex_field(prefixed(digits)) == hex_field(digits),
{
    assert(strip_prefix(prefixed(digits)) =~= digits);
    if digits.len() >= 2 {
        assert(is_hex_digit(digits[1]));
    }
}

/// Spelling an element and reading the spelling gives the element back.
pub proof fn lemma_field_hex_round_trip(value: nat)
    requires
        value < fr_modulus(),
    ensures
        hex_field(encode_utf8(field_hex(value))) == Some(value),
{
    let digits = be_digits(value, 32);
    lemma_modulus_fits_32_bytes();
    lemma_be_value_of_digits(value, 32);
    let chars = field_hex(value);
    assert forall|i: int| 0 <= i < chars.len() implies '\0' <= #[trigger] chars[i]
        <= '\u{7f}' by {
        if i >= 2 {
            let b = digits[(i - 2) / 2];
            lemma_digit_char_round_trip((b / 16) as nat);
            lemma_digit_char_round_trip((b % 16) as nat);
        }
    }
    assert(is_ascii_chars(chars));
    is_ascii_chars_encode_utf8(chars);
    let text = encode_utf8(chars);
    assert(text =~= prefixed(hex_string_bytes(digits))) by {
        assert forall|i: int| 0 <= i < text.len() implies text[i] == prefixed(
            hex_string_bytes(digits),
        )[i] by {
            assert(text[i] == chars[i] as u8);
        }
    }
    lemma_hex_round_trip(digits);
    lemma_prefix_is_optional(hex_string_bytes(digits));
    assert(low_order_32(digits) =~= digits);
}

/// The five spellings in the reply to a combined buffer read back as the
/// values that the buffer carries, in the order in which a request for a
/// verdict takes its public inputs.
pub proof fn lemma_reply_reads_back(values: ProofValuesView)
    requires
        values.x < fr_modulus(),
        values.y < fr_modulus(),
        values.external_nullifier < fr_modulus(),
        values.root < fr_modulus(),
        values.nullifier < fr_modulus(),
    ensures
        hex_field(encode_utf8(reply_texts(values)[0])) == Some(values.x),
        hex_field(encode_utf8(reply_texts(values)[1])) == Some(values.y),
        hex_field(encode_utf8(reply_texts(values)[2])) == Some(values.external_nullifier),
        hex_field(encode_utf8(reply_texts(values)[3])) == Some(values.root),
        hex_field(encode_utf8(reply_texts(values)[4])) == Some(values.nullifier),
{
    lemma_field_hex_round_trip(values.x);
    lemma_field_hex_round_trip(values.y);
    lemma_field_hex_round_trip(values.external_nullifier);
    lemma_field_hex_round_trip(values.root);
    lemma_field_hex_round_trip(values.nullifier);
}

/// Of a spelling of more than 32 bytes only the low-order 32 count: it reads
/// the same without its leading byte, with `0x` in front or without.
pub proof fn lemma_truncation(digits: Seq<u8>)
    requires
        is_hex(digits),
        digits.len() >= 66,
    ensures
        hex_field(digits) == hex_field(digits.skip(2)),
        hex_field(prefixed(digits)) == hex_field(prefixed(digits.skip(2))),
{
    let rest = digits.skip(2);
    assert(is_hex(rest)) by {
        assert forall|i: int| 0 <= i < rest.len() implies is_hex_digit(#[trigger] rest[i]) by {
            assert(rest[i] == digits[i + 2]);
        }
    }
    lemma_prefix_is_optional(digits);
    lemma_prefix_is_optional(rest);
    assert(strip_prefix(digits) == digits) by {
        assert(is_hex_digit(digits[1]));
    }
    assert(strip_prefix(rest) == rest) by {
        assert(is_hex_digit(rest[1]));
    }
    assert(hex_bytes(rest) =~= hex_bytes(digits).skip(1)) by {
        assert forall|k: int| 0 <= k < hex_bytes(rest).len() implies hex_bytes(rest)[k]
            == hex_bytes(digits).skip(1)[k] by {
            assert(rest[2 * k] == digits[2 * (k + 1)]);
            assert(rest[2 * k + 1] == digits[2 * (k + 1) + 1]);
        }
    }
    assert(low_order_32(hex_bytes(rest)) =~= low_order_32(hex_bytes(digits)));
}

/// `n` digits `0`.
pub open spec fn zero_digits(n: nat) -> Seq<u8> {
    Seq::new(n, |i: int| 0x30u8)
}

/// A spelling of at most 32 bytes reads as the number that it spells, reduced
/// by the modulus, and so the same as when it is filled up to 64 digits with
/// `0` in front: short spellings are padded on the left.
pub proof fn lemma_padding(digits: Seq<u8>)
    requires
        is_hex(digits),
        digits.len() <= 64,
    ensures
        hex_field(digits) == Some(be_value(hex_bytes(digits)) % fr_modulus()),
        hex_field(zero_digits((64 - digits.len()) as nat) + digits) == hex_field(digits),
{
    let k = (64 - digits.len()) as nat;
    let padded = zero_digits(k) + digits;
    let bytes = hex_bytes(digits);
    assert(is_hex(padded)) by {
        assert forall|i: int| 0 <= i < padded.len() implies is_hex_digit(#[trigger] padded[i]) by {
            if i >= k {
                assert(padded[i] == digits[i - k]);
            }
        }
    }
    assert(strip_prefix(padded) == padded) by {
        assert(is_hex_digit(padded[1]));
    }
    assert(strip_prefix(digits) == digits) by {
        if digits.len() >= 2 {
            assert(is_hex_digit(digits[1]));
        }
    }
    assert(hex_bytes(padded) =~= zeros(k / 2) + bytes) by {
        assert forall|j: int| 0 <= j < 32 implies hex_bytes(padded)[j] == (zeros(k / 2)
            + bytes)[j] by {
            if j >= k / 2 {
                assert(padded[2 * j] == digits[2 * (j - k / 2)]);
                assert(padded[2 * j + 1] == digits[2 * (j - k / 2) + 1]);
            }
        }
    }
    assert(low_order_32(hex_bytes(padded)) =~= low_order_32(bytes));
    if bytes.len() < 32 {
        lemma_be_value_leading_zeros((32 - bytes.len()) as nat, bytes);
    } else {
        assert(low_order_32(bytes) =~= bytes);
    }
}

/// A failure names one text only as failing: a text that fails is no
/// hexadecimal spelling.
pub proof fn lemma_hex_failure_excludes_hex(text: Seq<u8>, e: HexError)
    requires
        hex_failure(text, e),
    ensures
        !is_hex(text),
{
}

/// At most one failure fits a text.
pub proof fn lemma_hex_failure_unique(text: Seq<u8>, e1: HexError, e2: HexError)
    requires
        hex_failure(text, e1),
        hex_failure(text, e2),
    ensures
        e1 == e2,
{
    match (e1, e2) {
        (
            HexError::InvalidCharacter { c: c1, index: i1 },
            HexError::InvalidCharacter { c: c2, index: i2 },
        ) => {
            if i1 < i2 {
                assert(text.take(i2 as int)[i1 as int] == text[i1 as int]);
            } else if i2 < i1 {
                assert(text.take(i1 as int)[i2 as int] == text[i2 as int]);
            }
        },
        _ => {},
    }
}

/// A request for a verdict with any number of public inputs but five ends in
/// the failure that names the number, whatever the proof and the inputs are.
pub proof fn lemma_count_is_checked_first(
    proof: Seq<u8>,
    inputs: Seq<String>,
    r: Result<bool, BridgeError>,
)
    requires
        direct_result(proof, inputs, r),
        inputs.len() != PUBLIC_INPUTS,
    ensures
        r == Err::<bool, BridgeError>(BridgeError::InputShape { got: inputs.len() as i128 }),
{
}

/// A request on a combined buffer whose values carry the epoch zero ends in
/// the failure for that, whatever the proof and the other values are.
pub proof fn lemma_zero_epoch_is_refused(buf: Seq<u8>, r: Result<Vec<String>, BridgeError>)
    requires
        embedded_result(buf, r),
        combined_parts(buf) matches Some((_, values)) && values.external_nullifier == 0,
    ensures
        r == Err::<Vec<String>, BridgeError>(BridgeError::InvalidEpoch),
{
}

/// In a buffer made of a proof and, right behind it, proof values, the values
/// are read from the byte where the proof ends.
pub proof fn lemma_values_follow_proof(proof: Seq<u8>, values: Seq<u8>)
    requires
        proof_decoding(proof + values) == Ok::<nat, ProofDecodeFailure>(proof.len()),
        values.len() >= PROOF_VALUES_BYTES,
    ensures
        combined_parts(proof + values) == Some((proof, proof_values_of(values))),
{
    let buf = proof + values;
    assert(buf.take(proof.len() as int) =~= proof);
    assert(buf.skip(proof.len() as int) =~= values);
}

/// The proof values behind a proof of `n` bytes depend on no byte of the
/// proof: two buffers that differ only in their first `n` bytes carry the
/// same values.
pub proof fn lemma_values_ignore_proof_bytes(a: Seq<u8>, b: Seq<u8>, n: nat)
    requires
        a.len() == b.len(),
        n + PROOF_VALUES_BYTES <= a.len(),
        forall|i: int| n <= i < a.len() ==> a[i] == b[i],
    ensures
        proof_values_of(a.skip(n as int)) == proof_values_of(b.skip(n as int)),
{
    assert(a.skip(n as int) =~= b.skip(n as int));
}

/// Whether two outcomes are one to the host: the same value, or failures with
/// the same message.
pub open spec fn same_verdict(a: Result<bool, BridgeError>, b: Result<bool, BridgeError>) -> bool {
    match (a, b) {
        (Ok(x), Ok(y)) => x == y,
        (Err(e), Err(f)) => e.text() == f.text(),
        _ => false,
    }
}

/// Whether two replies are one to the host: the same texts in the same
/// order, or failures with the same message.
pub open spec fn same_reply(
    a: Result<Vec<String>, BridgeError>,
    b: Result<Vec<String>, BridgeError>,
) -> bool {
    match (a, b) {
        (Ok(x), Ok(y)) => {
            &&& x@.len() == y@.len()
            &&& forall|i: int| 0 <= i < x@.len() ==> (#[trigger] x@[i])@ == y@[i]@
        },
        (Err(e), Err(f)) => e.text() == f.text(),
        _ => false,
    }
}

/// The outcome of a request for a verdict is settled by the proof and the
/// public inputs: nothing else that the host hands over, and nothing that an
/// earlier request left, has a part in it.
pub proof fn lemma_verdict_is_settled(
    proof: Seq<u8>,
    inputs: Seq<String>,
    a: Result<bool, BridgeError>,
    b: Result<bool, BridgeError>,
)
    requires
        direct_result(proof, inputs, a),
        direct_result(proof, inputs, b),
    ensures
        same_verdict(a, b),
{
    if inputs.len() == PUBLIC_INPUTS && proof_decoding(proof) is Ok {
        match first_malformed(inputs) {
            Some(i) => {
                let text = strip_prefix(encode_utf8(inputs[i]@));
                match (a, b) {
                    (Err(BridgeError::MalformedHex(e)), Err(BridgeError::MalformedHex(f))) => {
                        lemma_hex_failure_unique(text, e, f);
                    },
                    _ => {},
                }
            },
            None => {},
        }
    }
}

/// The outcome of a request on a combined buffer is settled by the buffer:
/// neither the verifying key nor the epoch that the host names has a part in
/// it.
pub proof fn lemma_reply_is_settled(
    buf: Seq<u8>,
    a: Result<Vec<String>, BridgeError>,
    b: Result<Vec<String>, BridgeError>,
)
    requires
        embedded_result(buf, a),
        embedded_result(buf, b),
    ensures
        same_reply(a, b),
{
}

/// A request for a verdict on a buffer that holds no proof ends in that
/// failure, in the words of this request: `Failed to deserialize Proof: ` and
/// the decoder's account.
pub proof fn lemma_verdict_request_names_its_refusal(
    proof: Seq<u8>,
    inputs: Seq<String>,
    r: Result<bool, BridgeError>,
)
    requires
        direct_result(proof, inputs, r),
        inputs.len() == PUBLIC_INPUTS,
        proof_decoding(proof) is Err,
    ensures
        r matches Err(e) && (proof_decoding(proof) matches Err(f) && e.text()
            == "Failed to deserialize Proof: "@ + f.account),
{
}

/// A request on a combined buffer that holds no proof ends in that failure,
/// in the words of this request: `Failed to deserialize proof: ` and the
/// decoder's account.
pub proof fn lemma_combined_request_names_its_refusal(
    buf: Seq<u8>,
    r: Result<Vec<String>, BridgeError>,
)
    requires
        embedded_result(buf, r),
        proof_decoding(buf) is Err,
    ensures
        r matches Err(e) && (proof_decoding(buf) matches Err(f) && e.text()
            == "Failed to deserialize proof: "@ + f.account),
{
}

/// A request for a verdict with a proof and five well-formed inputs is
/// answered by the verifier alone: its verdict on the values that the inputs
/// spell is handed on as it is, valid or not, and nothing but a failure of
/// the verifier itself is a failure of the request.
pub proof fn lemma_well_formed_request_is_judged(
    proof: Seq<u8>,
    inputs: Seq<String>,
    r: Result<bool, BridgeError>,
)
    requires
        direct_result(proof, inputs, r),
        inputs.len() == PUBLIC_INPUTS,
        proof_decoding(proof) is Ok,
        first_malformed(inputs) is None,
    ensures
        verdict_on(proof.take(PROOF_BYTES as int), input_values(inputs)) matches Ok(valid) ==> r
            == Ok::<bool, BridgeError>(valid),
        verdict_on(proof.take(PROOF_BYTES as int), input_values(inputs)) is Err ==> r matches Err(
            BridgeError::VerificationEngine(_),
        ),
{
}

/// Whether `b` is `a` with the bit `k` of the byte at `i` flipped.
pub open spec fn one_bit_apart(a: Seq<u8>, b: Seq<u8>, i: int, k: u8) -> bool {
    &&& a.len() == b.len()
    &&& 0 <= i < a.len()
    &&& k < 8
    &&& b[i] == a[i] ^ (1u8 << k)
    &&& forall|j: int| 0 <= j < a.len() && j != i ==> a[j] == b[j]
}

/// Whether `a` and `b` differ in one bit and in nothing else.
pub open spec fn differ_in_one_bit(a: Seq<u8>, b: Seq<u8>) -> bool {
    exists|i: int, k: u8| #[trigger] one_bit_apart(a, b, i, k)
}

/// Two spellings of 32 bytes that differ in one bit spell two elements: the
/// modulus is odd, and no power of two up to `2^255` is a multiple of it.
pub proof fn lemma_one_bit_changes_the_element(a: Seq<u8>, b: Seq<u8>)
    requires
        a.len() == 32,
        differ_in_one_bit(a, b),
    ensures
        be_value(a) % fr_modulus() != be_value(b) % fr_modulus(),
{
    let (i, k) = choose|i: int, k: u8| #[trigger] one_bit_apart(a, b, i, k);
    let m = (31 - i) as nat;
    let p = pow(256, m);
    let x = a[i];
    let y = b[i];
    let d = 1u8 << k;
    lemma_be_value_one_byte(a, b, i);
    assert((d == 1 || d == 2 || d == 4 || d == 8 || d == 16 || d == 32 || d == 64 || d == 128)
        && (y as u16 == x as u16 + d as u16 || y as u16 + d as u16 == x as u16)) by (bit_vector)
        requires
            k < 8,
            d == 1u8 << k,
            y == x ^ d,
    ;
    lemma_pow_256_32();
    assert(pow(256, 32) == 256 * pow(256, 31)) by {
        lemma_pow_adds(256, 1, 31);
        lemma_pow1(256);
    }
    lemma_pow_increases(256, m, 31);
    lemma_pow_positive(256, m);
    let n = d * p;
    assert(0 < n <= 128 * pow(256, 31)) by (nonlinear_arith)
        requires
            n == d * p,
            0 < d <= 128,
            0 < p <= pow(256, 31),
    ;
    assert(n % 4 == 0 || n == 1 || n == 2) by {
        if m > 0 {
            let q = pow(256, (m - 1) as nat);
            assert(p == 256 * q) by {
                lemma_pow_adds(256, 1, (m - 1) as nat);
                lemma_pow1(256);
            }
            assert(n == 4 * (64 * d * q)) by (nonlinear_arith)
                requires
                    n == d * p,
                    p == 256 * q,
            ;
        } else {
            lemma_pow0(256);
        }
    }
    let va = be_value(a) as int;
    let vb = be_value(b) as int;
    let r = fr_modulus() as int;
    assert(va - vb == n || vb - va == n) by (nonlinear_arith)
        requires
            va - vb == (x - y) * p,
            n == d * p,
            y == x + d || y + d == x,
    ;
    if va % r == vb % r {
        lemma_mod_equivalence(va, vb, r);
        lemma_mod_equivalence(vb, va, r);
        assert(n % r == 0);
        lemma_fundamental_div_mod(n, r);
        let c = n / r;
        assert(n == r * c);
        assert(c == 1 || c == 2) by (nonlinear_arith)
            requires
                n == r * c,
                0 < n < 3 * r,
                r > 0,
        ;
        assert(false);
    }
}

/// An input with one bit of its 32 bytes flipped spells another element than
/// the input did: what the verifier is asked about is not what it was asked
/// about before.
pub proof fn lemma_altered_input_spells_another_element(text: Seq<u8>, altered: Seq<u8>)
    requires
        hex_field(text) is Some,
        hex_field(altered) is Some,
        differ_in_one_bit(
            low_order_32(hex_bytes(strip_prefix(text))),
            low_order_32(hex_bytes(strip_prefix(altered))),
        ),
    ensures
        hex_field(text) != hex_field(altered),
{
    let a = low_order_32(hex_bytes(strip_prefix(text)));
    let b = low_order_32(hex_bytes(strip_prefix(altered)));
    assert(a.len() == 32);
    lemma_one_bit_changes_the_element(a, b);
}

} // verus!
