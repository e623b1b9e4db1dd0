//! Byte strings read as numbers in base 256.

use vstd::arithmetic::power::{lemma_pow0, lemma_pow1, lemma_pow_adds, pow};
use vstd::prelude::*;

verus! {

/// The number that `bytes` spell with the most significant byte first.
pub open spec fn be_value(bytes: Seq<u8>) -> nat
    decreases bytes.len(),
{
    if bytes.len() == 0 {
        0
    } else {
        be_value(bytes.drop_last()) * 256 + bytes.last() as nat
    }
}

/// The number that `bytes` spell with the least significant byte first.
pub open spec fn le_value(bytes: Seq<u8>) -> nat
    decreases bytes.len(),
{
    if bytes.len() == 0 {
        0
    } else {
        bytes.first() as nat + 256 * le_value(bytes.drop_first())
    }
}

/// `n` zero bytes.
pub open spec fn zeros(n: nat) -> Seq<u8> {
    Seq::new(n, |i: int| 0u8)
}

/// Zero bytes spell zero.
pub proof fn lemma_be_value_zeros(n: nat)
    ensures
        be_value(zeros(n)) == 0,
    decreases n,
{
    if n > 0 {
        assert(zeros(n).drop_last() =~= zeros((n - 1) as nat));
        lemma_be_value_zeros((n - 1) as nat);
    }
}

/// Bytes put in front of a big-endian number count for `256^len` each.
pub proof fn lemma_be_value_concat(high: Seq<u8>, low: Seq<u8>)
    ensures
        be_value(high + low) == be_value(high) * pow(256, low.len()) + be_value(low),
    decreases low.len(),
{
    let p = pow(256, low.len());
    if low.len() == 0 {
        assert(high + low =~= high);
        lemma_pow0(256);
    } else {
        let rest = low.drop_last();
        assert((high + low).drop_last() =~= high + rest);
        assert((high + low).last() == low.last());
        lemma_be_value_concat(high, rest);
        let q = pow(256, rest.len());
        assert(p == 256 * q) by {
            lemma_pow_adds(256, 1, rest.len());
            lemma_pow1(256);
        }
        assert(be_value(high) * p == be_value(high) * q * 256) by (nonlinear_arith)
            requires
                p == 256 * q,
        ;
    }
}

/// Leading zero bytes do not change a big-endian number.
pub proof fn lemma_be_value_leading_zeros(n: nat, bytes: Seq<u8>)
    ensures
        be_value(zeros(n) + bytes) == be_value(bytes),
{
    lemma_be_value_concat(zeros(n), bytes);
    lemma_be_value_zeros(n);
}

/// Two byte strings of one length that spell the same big-endian number are
/// the same string.
pub proof fn lemma_be_value_injective(a: Seq<u8>, b: Seq<u8>)
    requires
        a.len() == b.len(),
        be_value(a) == be_value(b),
    ensures
        a == b,
    decreases a.len(),
{
    if a.len() > 0 {
        lemma_be_value_injective(a.drop_last(), b.drop_last());
        assert(a =~= a.drop_last().push(a.last()));
        assert(b =~= b.drop_last().push(b.last()));
    } else {
        assert(a =~= b);
    }
}

/// A big-endian number is zero exactly when all its bytes are.
pub proof fn lemma_be_value_zero_iff(bytes: Seq<u8>)
    ensures
        be_value(bytes) == 0 <==> bytes == zeros(bytes.len()),
{
    lemma_be_value_zeros(bytes.len());
    if be_value(bytes) == 0 {
        lemma_be_value_injective(bytes, zeros(bytes.len()));
    }
}

/// The `n` low-order base-256 digits of `value`, most significant first.
pub open spec fn be_digits(value: nat, n: nat) -> Seq<u8>
    decreases n,
{
    if n == 0 {
        Seq::empty()
    } else {
        be_digits(value / 256, (n - 1) as nat).push((value % 256) as u8)
    }
}

/// The digits of the number that a byte string spells are the string.
pub proof fn lemma_be_digits_of_value(bytes: Seq<u8>)
    ensures
        be_digits(be_value(bytes), bytes.len()) == bytes,
    decreases bytes.len(),
{
    if bytes.len() > 0 {
        let rest = bytes.drop_last();
        lemma_be_digits_of_value(rest);
        let v = be_value(bytes);
        assert(v / 256 == be_value(rest) && v % 256 == bytes.last());
        assert(be_digits(v, bytes.len()) =~= bytes);
    } else {
        assert(be_digits(be_value(bytes), bytes.len()) =~= bytes);
    }
}

/// `n` digits spell a number below `256^n` back.
pub proof fn lemma_be_value_of_digits(value: nat, n: nat)
    requires
        value < pow(256, n),
    ensures
        be_digits(value, n).len() == n,
        be_value(be_digits(value, n)) == value,
    decreases n,
{
    if n > 0 {
        let m = (n - 1) as nat;
        assert(pow(256, n) == 256 * pow(256, m)) by {
            lemma_pow_adds(256, 1, m);
            lemma_pow1(256);
        }
        lemma_be_value_of_digits(value / 256, m);
        let d = be_digits(value, n);
        assert(d.drop_last() =~= be_digits(value / 256, m));
    } else {
        lemma_pow0(256);
    }
}

/// Two byte strings that differ in the byte at `i` only spell numbers that
/// differ by the difference of the two bytes, times 256 for each byte that
/// follows.
pub proof fn lemma_be_value_one_byte(a: Seq<u8>, b: Seq<u8>, i: int)
    requires
        a.len() == b.len(),
        0 <= i < a.len(),
        forall|j: int| 0 <= j < a.len() && j != i ==> a[j] == b[j],
    ensures
        be_value(a) - be_value(b) == (a[i] - b[i]) * pow(256, (a.len() - 1 - i) as nat),
{
    let post = a.skip(i + 1);
    let head_a = a.take(i + 1);
    let head_b = b.take(i + 1);
    assert(a =~= head_a + post);
    assert(b =~= head_b + post);
    lemma_be_value_concat(head_a, post);
    lemma_be_value_concat(head_b, post);
    assert(head_a.drop_last() =~= head_b.drop_last());
    let p = pow(256, post.len());
    let front = be_value(head_a.drop_last()) as int;
    let x = a[i] as int;
    let y = b[i] as int;
    assert(be_value(head_a) == front * 256 + x);
    assert(be_value(head_b) == front * 256 + y);
    assert((front * 256 + x) * p - (front * 256 + y) * p == (x - y) * p) by (nonlinear_arith);
}

} // verus!
