//! Numbers as byte strings, most significant byte first.
use vstd::arithmetic::power2::{lemma2_to64, lemma_pow2_unfold, pow2};
use vstd::prelude::*;

verus! {

/// The number that a byte string stands for.
pub open spec fn number_value(bytes: Seq<u8>) -> nat
    decreases bytes.len(),
{
    if bytes.len() == 0 {
        0
    } else {
        number_value(bytes.drop_last()) * 256 + bytes.last() as nat
    }
}

/// How many binary digits a number has, none where it is zero.
pub open spec fn binary_digits(n: nat) -> nat
    decreases n,
{
    if n == 0 {
        0
    } else {
        1 + binary_digits(n / 2)
    }
}

/// How many bits long the number in a byte string is.
pub open spec fn bit_length(bytes: Seq<u8>) -> nat {
    binary_digits(number_value(bytes))
}

/// `bytes` without its leading zeros.
pub open spec fn without_leading_zeros(bytes: Seq<u8>) -> Seq<u8>
    decreases bytes.len(),
{
    if bytes.len() > 0 && bytes[0] == 0 {
        without_leading_zeros(bytes.drop_first())
    } else {
        bytes
    }
}

/// A number has at most `k` binary digits exactly where it is less than the `k`th power of two.
pub proof fn law_binary_digits_bound_the_number(n: nat, k: nat)
    ensures
        binary_digits(n) <= k <==> n < pow2(k),
    decreases k,
{
    if k == 0 {
        lemma2_to64();
    } else {
        lemma_pow2_unfold(k);
        law_binary_digits_bound_the_number(n / 2, (k - 1) as nat);
        if n == 0 {
            law_binary_digits_bound_the_number(0, (k - 1) as nat);
        }
    }
}

proof fn lemma_doubled(n: nat, digit: nat)
    requires
        n > 0,
        digit < 2,
    ensures
        binary_digits(n * 2 + digit) == binary_digits(n) + 1,
{
    assert((n * 2 + digit) / 2 == n);
}

/// A byte more is eight digits more.
proof fn lemma_byte_more(n: nat, byte: u8)
    requires
        n > 0,
    ensures
        binary_digits(n * 256 + byte as nat) == binary_digits(n) + 8,
{
    let b = byte as nat;
    lemma_doubled(n, b / 128);
    lemma_doubled(n * 2 + b / 128, b / 64 % 2);
    lemma_doubled(n * 4 + b / 64, b / 32 % 2);
    lemma_doubled(n * 8 + b / 32, b / 16 % 2);
    lemma_doubled(n * 16 + b / 16, b / 8 % 2);
    lemma_doubled(n * 32 + b / 8, b / 4 % 2);
    lemma_doubled(n * 64 + b / 4, b / 2 % 2);
    lemma_doubled(n * 128 + b / 2, b % 2);
}

/// A leading zero changes nothing.
pub proof fn lemma_leading_zero(bytes: Seq<u8>)
    requires
        bytes.len() > 0,
        bytes[0] == 0,
    ensures
        number_value(bytes) == number_value(bytes.drop_first()),
    decreases bytes.len(),
{
    if bytes.len() == 1 {
        assert(number_value(bytes.drop_last()) == 0);
        assert(number_value(bytes.drop_first()) == 0);
    } else {
        assert(bytes.drop_first().last() == bytes.last());
        assert(bytes.drop_first().drop_last() =~= bytes.drop_last().drop_first());
        assert(bytes.drop_last()[0] == 0);
        lemma_leading_zero(bytes.drop_last());
    }
}

/// The length of a number without leading zeros: that of its first byte, and eight bits for each
/// other byte.
proof fn lemma_bit_length(bytes: Seq<u8>)
    requires
        bytes.len() > 0,
        bytes[0] != 0,
    ensures
        number_value(bytes) > 0,
        bit_length(bytes) == binary_digits(bytes[0] as nat) + (bytes.len() - 1) * 8,
    decreases bytes.len(),
{
    if bytes.len() == 1 {
        assert(bytes.drop_last() =~= Seq::<u8>::empty());
        assert(number_value(bytes) == bytes[0] as nat);
    } else {
        assert(bytes.drop_last()[0] == bytes[0]);
        lemma_bit_length(bytes.drop_last());
        lemma_byte_more(number_value(bytes.drop_last()), bytes.last());
    }
}

fn count_digits(byte: u8) -> (r: u32)
    ensures
        r == binary_digits(byte as nat),
        r <= 8,
{
    let mut rest: u8 = byte;
    let mut digits: u32 = 0;
    while rest > 0
        invariant
            digits + binary_digits(rest as nat) == binary_digits(byte as nat),
        decreases rest,
    {
        proof {
            lemma_byte_digits(byte);
        }
        rest = rest / 2;
        digits = digits + 1;
    }
    proof {
        lemma_byte_digits(byte);
    }
    digits
}

proof fn lemma_byte_digits(byte: u8)
    ensures
        binary_digits(byte as nat) <= 8,
{
    lemma2_to64();
    law_binary_digits_bound_the_number(byte as nat, 8);
}

/// The length of a number in bits, or the largest that the type holds where it is longer.
pub fn count_bits(bytes: &[u8]) -> (r: u32)
    ensures
        r == if bit_length(bytes@) < u32::MAX {
            bit_length(bytes@)
        } else {
            u32::MAX as nat
        },
{
    let mut start: usize = 0;
    assert(bytes@.skip(0) =~= bytes@);
    while start < bytes.len() && bytes[start] == 0
        invariant
            start <= bytes.len(),
            number_value(bytes@) == number_value(bytes@.skip(start as int)),
        decreases bytes.len() - start,
    {
        proof {
            lemma_leading_zero(bytes@.skip(start as int));
            assert(bytes@.skip(start as int).drop_first() =~= bytes@.skip(start + 1));
        }
        start = start + 1;
    }
    if start == bytes.len() {
        assert(bytes@.skip(start as int) =~= Seq::<u8>::empty());
        return 0;
    }
    proof {
        lemma_bit_length(bytes@.skip(start as int));
    }
    let others: usize = bytes.len() - start - 1;
    let total: u128 = others as u128 * 8 + count_digits(bytes[start]) as u128;
    if total < u32::MAX as u128 {
        total as u32
    } else {
        u32::MAX
    }
}

} // verus!
