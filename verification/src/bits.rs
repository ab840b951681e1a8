//! Mathematical model of bit lines: a sequence of booleans read most
//! significant bit first, and the number it stands for.
use vstd::prelude::*;

verus! {

/// `2` raised to the power `n`.
pub open spec fn p2(n: nat) -> nat
    decreases n,
{
    if n == 0 {
        1
    } else {
        2 * p2((n - 1) as nat)
    }
}

/// The numeric value of one line: 1 when it carries a signal, 0 otherwise.
pub open spec fn bit(b: bool) -> nat {
    if b {
        1
    } else {
        0
    }
}

/// The number that a sequence of lines stands for, the first line being the
/// most significant bit.
pub open spec fn bits_value(s: Seq<bool>) -> nat
    decreases s.len(),
{
    if s.len() == 0 {
        0
    } else {
        2 * bits_value(s.drop_last()) + bit(s.last())
    }
}

/// Whether bit `k` (counted from the least significant bit) of `v` is set.
pub open spec fn bit_of(v: u16, k: int) -> bool {
    (v >> (k as u16)) & 1u16 == 1u16
}

/// The sixteen lines that carry `v`, most significant bit first.
pub open spec fn word_bits(v: u16) -> Seq<bool> {
    Seq::new(16, |i: int| bit_of(v, 15 - i))
}

/// The value of a 16-line bus as a machine word.
pub open spec fn word_value(s: Seq<bool>) -> u16 {
    bits_value(s) as u16
}

pub proof fn lemma_p2_values()
    ensures
        p2(0) == 1,
        p2(1) == 2,
        p2(2) == 4,
        p2(3) == 8,
        p2(4) == 16,
        p2(5) == 32,
        p2(6) == 64,
        p2(7) == 128,
        p2(8) == 256,
        p2(9) == 512,
        p2(10) == 1024,
        p2(11) == 2048,
        p2(12) == 4096,
        p2(13) == 8192,
        p2(14) == 16384,
        p2(15) == 32768,
        p2(16) == 65536,
{
    reveal_with_fuel(p2, 17);
}

/// `2^32`, the bound of a 32-bit pattern.
pub proof fn lemma_p2_32()
    ensures
        p2(32) == 0x1_0000_0000,
{
    lemma_p2_values();
    assert(p2(24) == 0x100_0000) by {
        reveal_with_fuel(p2, 9);
    }
    assert(p2(32) == 0x1_0000_0000) by {
        reveal_with_fuel(p2, 9);
    }
}

pub proof fn lemma_p2_mono(a: nat, b: nat)
    requires
        a <= b,
    ensures
        p2(a) <= p2(b),
    decreases b,
{
    if a < b {
        lemma_p2_mono(a, (b - 1) as nat);
    }
}

pub proof fn lemma_bits_value_bound(s: Seq<bool>)
    ensures
        bits_value(s) < p2(s.len()),
    decreases s.len(),
{
    if s.len() > 0 {
        lemma_bits_value_bound(s.drop_last());
    }
}

/// Reading a sequence from its first line: the first line weighs
/// `2^(len - 1)`.
pub proof fn lemma_bits_value_prepend(s: Seq<bool>)
    requires
        s.len() > 0,
    ensures
        bits_value(s) == bit(s[0]) * p2((s.len() - 1) as nat) + bits_value(s.drop_first()),
    decreases s.len(),
{
    if s.len() == 1 {
        assert(s.drop_first() =~= Seq::<bool>::empty());
        assert(s.drop_last() =~= Seq::<bool>::empty());
        assert(bits_value(s) == 2 * bits_value(s.drop_last()) + bit(s.last()));
    } else {
        let n = s.len();
        let t = s.drop_last();
        lemma_bits_value_prepend(t);
        assert(t.drop_first() =~= s.drop_first().drop_last());
        assert(s.drop_first().last() == s.last());
        assert(t[0] == s[0]);
        assert(bits_value(s) == 2 * bits_value(t) + bit(s.last()));
        assert(bits_value(s.drop_first()) == 2 * bits_value(s.drop_first().drop_last()) + bit(
            s.drop_first().last(),
        ));
        assert(p2((n - 1) as nat) == 2 * p2((n - 2) as nat));
        if s[0] {
            assert(bit(s[0]) * p2((n - 1) as nat) == p2((n - 1) as nat));
            assert(bit(t[0]) * p2((n - 2) as nat) == p2((n - 2) as nat));
        } else {
            assert(bit(s[0]) * p2((n - 1) as nat) == 0);
            assert(bit(t[0]) * p2((n - 2) as nat) == 0);
        }
    }
}

/// The value of a concatenation.
pub proof fn lemma_bits_value_concat(a: Seq<bool>, b: Seq<bool>)
    ensures
        bits_value(a + b) == bits_value(a) * p2(b.len()) + bits_value(b),
    decreases b.len(),
{
    if b.len() == 0 {
        assert(a + b =~= a);
        assert(bits_value(b) == 0);
        assert(p2(b.len()) == 1);
        let va = bits_value(a);
        let one = p2(b.len());
        assert(va * one == va) by (nonlinear_arith)
            requires
                one == 1,
        ;
    } else {
        let n = b.len();
        let b1 = b.drop_last();
        lemma_bits_value_concat(a, b1);
        assert((a + b).drop_last() =~= a + b1);
        assert((a + b).last() == b.last());
        let va = bits_value(a);
        let m = p2((n - 1) as nat);
        assert(p2(n) == 2 * m);
        assert(bits_value(a + b1) == va * m + bits_value(b1));
        assert(bits_value(a + b) == 2 * bits_value(a + b1) + bit(b.last()));
        assert(bits_value(b) == 2 * bits_value(b1) + bit(b.last()));
        assert(va * p2(n) == 2 * (va * m)) by (nonlinear_arith)
            requires
                p2(n) == 2 * m,
        ;
    }
}

proof fn lemma_shift_step(v: u16, s: u16)
    requires
        s < 16,
    ensures
        (v >> ((s + 1) as u16)) * 2 + ((v >> s) & 1u16) == v >> s,
{
    assert((v >> ((s + 1) as u16)) * 2 + ((v >> s) & 1u16) == v >> s) by (bit_vector)
        requires
            s < 16,
    ;
}

proof fn lemma_word_bits_prefix(v: u16, k: int)
    requires
        0 <= k <= 16,
    ensures
        k < 16 ==> bits_value(word_bits(v).take(k)) == (v >> ((16 - k) as u16)),
        k == 16 ==> bits_value(word_bits(v).take(k)) == v,
    decreases k,
{
    if k == 0 {
        assert(word_bits(v).take(0) =~= Seq::<bool>::empty());
        assert(v >> 16u16 == 0u16) by (bit_vector);
    } else {
        lemma_word_bits_prefix(v, k - 1);
        let t = word_bits(v).take(k);
        assert(t.drop_last() =~= word_bits(v).take(k - 1));
        let s = (16 - k) as u16;
        assert(bits_value(t.drop_last()) == (v >> ((s + 1) as u16))) by {
            if k == 1 {
                assert(v >> 16u16 == 0u16) by (bit_vector);
            }
        }
        lemma_shift_step(v, s);
        assert(t.last() == bit_of(v, s as int));
        assert(((v >> s) & 1u16) == 0u16 || ((v >> s) & 1u16) == 1u16) by (bit_vector);
        assert(bit(t.last()) == ((v >> s) & 1u16));
        assert(bits_value(t) == 2 * bits_value(t.drop_last()) + bit(t.last()));
        assert(v >> 0u16 == v) by (bit_vector);
    }
}

/// The lines that carry `v` stand for `v`.
pub proof fn lemma_word_bits_value(v: u16)
    ensures
        bits_value(word_bits(v)) == v,
        word_value(word_bits(v)) == v,
{
    lemma_word_bits_prefix(v, 16);
    assert(word_bits(v).take(16) =~= word_bits(v));
}


/// Two rows of lines of one length that stand for the same number are the
/// same lines.
pub proof fn lemma_bits_value_injective(a: Seq<bool>, b: Seq<bool>)
    requires
        a.len() == b.len(),
        bits_value(a) == bits_value(b),
    ensures
        a == b,
    decreases a.len(),
{
    if a.len() > 0 {
        assert(bits_value(a) == 2 * bits_value(a.drop_last()) + bit(a.last()));
        assert(bits_value(b) == 2 * bits_value(b.drop_last()) + bit(b.last()));
        assert(a.last() == b.last());
        lemma_bits_value_injective(a.drop_last(), b.drop_last());
        assert(a =~= a.drop_last().push(a.last()));
        assert(b =~= b.drop_last().push(b.last()));
    } else {
        assert(a =~= b);
    }
}

/// Sixteen lines are the lines of the word they stand for.
pub proof fn lemma_word_bits_of_value(l: Seq<bool>)
    requires
        l.len() == 16,
    ensures
        word_bits(word_value(l)) == l,
{
    lemma_word_value_16(l);
    lemma_word_bits_value(word_value(l));
    lemma_bits_value_injective(word_bits(word_value(l)), l);
}

/// Line-by-line AND of two rows of lines.
pub open spec fn lines_and(a: Seq<bool>, b: Seq<bool>) -> Seq<bool> {
    Seq::new(a.len(), |i: int| a[i] && b[i])
}

/// Line-by-line OR of two rows of lines.
pub open spec fn lines_or(a: Seq<bool>, b: Seq<bool>) -> Seq<bool> {
    Seq::new(a.len(), |i: int| a[i] || b[i])
}

/// Line-by-line XOR of two rows of lines.
pub open spec fn lines_xor(a: Seq<bool>, b: Seq<bool>) -> Seq<bool> {
    Seq::new(a.len(), |i: int| a[i] != b[i])
}

/// Every line inverted.
pub open spec fn lines_not(a: Seq<bool>) -> Seq<bool> {
    Seq::new(a.len(), |i: int| !a[i])
}

proof fn lemma_bitwise_step(x: u16, y: u16, p: u16, q: u16)
    requires
        x < 32768,
        y < 32768,
        p <= 1,
        q <= 1,
    ensures
        ((2 * x + p) as u16 & (2 * y + q) as u16) == 2 * (x & y) + (p & q),
        ((2 * x + p) as u16 | (2 * y + q) as u16) == 2 * (x | y) + (p | q),
        ((2 * x + p) as u16 ^ (2 * y + q) as u16) == 2 * (x ^ y) + (p ^ q),
        (x & y) < 32768,
        (x | y) < 32768,
        (x ^ y) < 32768,
{
    assert(((2 * x + p) as u16 & (2 * y + q) as u16) == 2 * (x & y) + (p & q)) by (bit_vector)
        requires
            x < 32768,
            y < 32768,
            p <= 1,
            q <= 1,
    ;
    assert(((2 * x + p) as u16 | (2 * y + q) as u16) == 2 * (x | y) + (p | q)) by (bit_vector)
        requires
            x < 32768,
            y < 32768,
            p <= 1,
            q <= 1,
    ;
    assert(((2 * x + p) as u16 ^ (2 * y + q) as u16) == 2 * (x ^ y) + (p ^ q)) by (bit_vector)
        requires
            x < 32768,
            y < 32768,
            p <= 1,
            q <= 1,
    ;
    assert((x & y) < 32768 && (x | y) < 32768 && (x ^ y) < 32768) by (bit_vector)
        requires
            x < 32768,
            y < 32768,
    ;
}

proof fn lemma_bit_ops(a: bool, b: bool)
    ensures
        (bit(a) as u16 & bit(b) as u16) == bit(a && b),
        (bit(a) as u16 | bit(b) as u16) == bit(a || b),
        (bit(a) as u16 ^ bit(b) as u16) == bit(a != b),
{
    assert((0u16 & 0u16) == 0u16 && (0u16 & 1u16) == 0u16 && (1u16 & 0u16) == 0u16 && (1u16
        & 1u16) == 1u16) by (bit_vector);
    assert((0u16 | 0u16) == 0u16 && (0u16 | 1u16) == 1u16 && (1u16 | 0u16) == 1u16 && (1u16
        | 1u16) == 1u16) by (bit_vector);
    assert((0u16 ^ 0u16) == 0u16 && (0u16 ^ 1u16) == 1u16 && (1u16 ^ 0u16) == 1u16 && (1u16
        ^ 1u16) == 0u16) by (bit_vector);
}

/// The value of the line-by-line AND, OR and XOR of two rows of at most
/// sixteen lines is the bitwise AND, OR and XOR of their values.
pub proof fn lemma_bits_value_bitwise(a: Seq<bool>, b: Seq<bool>)
    requires
        a.len() == b.len(),
        a.len() <= 16,
    ensures
        bits_value(lines_and(a, b)) == (bits_value(a) as u16 & bits_value(b) as u16),
        bits_value(lines_or(a, b)) == (bits_value(a) as u16 | bits_value(b) as u16),
        bits_value(lines_xor(a, b)) == (bits_value(a) as u16 ^ bits_value(b) as u16),
    decreases a.len(),
{
    if a.len() == 0 {
        assert((0u16 & 0u16) == 0u16 && (0u16 | 0u16) == 0u16 && (0u16 ^ 0u16) == 0u16)
            by (bit_vector);
    } else {
        let n = a.len();
        let a1 = a.drop_last();
        let b1 = b.drop_last();
        lemma_bits_value_bitwise(a1, b1);
        assert(lines_and(a, b).drop_last() =~= lines_and(a1, b1));
        assert(lines_or(a, b).drop_last() =~= lines_or(a1, b1));
        assert(lines_xor(a, b).drop_last() =~= lines_xor(a1, b1));
        lemma_bits_value_bound(a1);
        lemma_bits_value_bound(b1);
        lemma_p2_mono((n - 1) as nat, 15);
        lemma_p2_values();
        let x = bits_value(a1) as u16;
        let y = bits_value(b1) as u16;
        let p = bit(a.last()) as u16;
        let q = bit(b.last()) as u16;
        lemma_bitwise_step(x, y, p, q);
        lemma_bit_ops(a.last(), b.last());
        assert(bits_value(a) == 2 * bits_value(a1) + bit(a.last()));
        assert(bits_value(b) == 2 * bits_value(b1) + bit(b.last()));
        assert(lines_and(a, b).last() == (a.last() && b.last()));
        assert(lines_or(a, b).last() == (a.last() || b.last()));
        assert(lines_xor(a, b).last() == (a.last() != b.last()));
    }
}

/// Inverting every line of a row of `n` lines turns its value `v` into
/// `2^n - 1 - v`.
pub proof fn lemma_bits_value_not(a: Seq<bool>)
    ensures
        bits_value(lines_not(a)) + bits_value(a) + 1 == p2(a.len()),
    decreases a.len(),
{
    if a.len() > 0 {
        lemma_bits_value_not(a.drop_last());
        assert(lines_not(a).drop_last() =~= lines_not(a.drop_last()));
    }
}


/// A row of lines stands for zero exactly when every line is off.
pub proof fn lemma_bits_value_zero(a: Seq<bool>)
    ensures
        (bits_value(a) == 0) == (forall|i: int| 0 <= i < a.len() ==> !a[i]),
    decreases a.len(),
{
    if a.len() > 0 {
        let a1 = a.drop_last();
        lemma_bits_value_zero(a1);
        if bits_value(a) == 0 {
            assert forall|i: int| 0 <= i < a.len() implies !a[i] by {
                if i < a.len() - 1 {
                    assert(a[i] == a1[i]);
                }
            }
        }
        if forall|i: int| 0 <= i < a.len() ==> !a[i] {
            assert forall|i: int| 0 <= i < a1.len() implies !a1[i] by {
                assert(a1[i] == a[i]);
            }
            assert(!a[a.len() - 1]);
        }
    }
}

/// A row of sixteen lines stands for a number below `2^16`, which is its
/// value as a machine word.
pub proof fn lemma_word_value_16(s: Seq<bool>)
    requires
        s.len() == 16,
    ensures
        bits_value(s) < 65536,
        word_value(s) == bits_value(s),
{
    lemma_bits_value_bound(s);
    lemma_p2_values();
}

/// Inverting every bit of a word `x` gives `2^16 - 1 - x`.
pub proof fn lemma_u16_not(x: u16)
    ensures
        !x == 65535 - x,
{
    assert(!x == 65535 - x) by (bit_vector);
}

/// The word zero has every line off.
pub proof fn lemma_word_bits_zero()
    ensures
        word_bits(0) == Seq::new(16, |i: int| false),
{
    assert forall|i: int| 0 <= i < 16 implies !#[trigger] word_bits(0)[i] by {
        let k = (15 - i) as u16;
        assert(bit_of(0u16, k as int) == false) by (bit_vector);
    }
    assert(word_bits(0) =~= Seq::new(16, |i: int| false));
}

/// A word is sixteen lines.
pub proof fn lemma_word_bits_shape(v: u16)
    ensures
        word_bits(v).len() == 16,
{
}

} // verus!
