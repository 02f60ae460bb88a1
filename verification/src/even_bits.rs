//! Interleaving of bits used by the even-bits lookup table: a word is split
//! into the bits at even positions and the bits at odd positions.

use vstd::prelude::*;

verus! {

/// The number whose binary digits are those of `i`, each moved from position
/// `k` to position `2k`: the sum of `4^k` over the set bits `k` of `i`.
pub open spec fn spread_bits(i: nat) -> nat
    decreases i,
{
    if i == 0 {
        0
    } else {
        (i % 2) + 4 * spread_bits(i / 2)
    }
}

/// `4^c`.
pub open spec fn pow4(c: nat) -> nat
    decreases c,
{
    if c == 0 {
        1
    } else {
        4 * pow4((c - 1) as nat)
    }
}

/// A number that is not zero spreads to its lowest bit plus four times the
/// spreading of its other bits, which is at least one.
proof fn lemma_spread_step(i: nat)
    requires
        i != 0,
    ensures
        spread_bits(i) == (i % 2) + 4 * spread_bits(i / 2),
        spread_bits(i) >= 1,
    decreases i,
{
    if i / 2 != 0 {
        lemma_spread_step(i / 2);
    }
}

/// A number below `2^bits` spreads to a number below `4^bits`: the rows of
/// the table for words of `2 * bits` bits fit such words.
pub proof fn lemma_spread_bits_bound(i: nat, bits: nat)
    requires
        i < pow2n(bits),
    ensures
        spread_bits(i) < pow4(bits),
    decreases bits,
{
    if i == 0 {
        lemma_pow4_positive(bits);
    } else if bits != 0 {
        lemma_spread_bits_bound(i / 2, (bits - 1) as nat);
    }
}

/// `2^c`.
pub open spec fn pow2n(c: nat) -> nat
    decreases c,
{
    if c == 0 {
        1
    } else {
        2 * pow2n((c - 1) as nat)
    }
}

proof fn lemma_pow4_positive(c: nat)
    ensures
        pow4(c) >= 1,
    decreases c,
{
    if c != 0 {
        lemma_pow4_positive((c - 1) as nat);
    }
}

/// One step of spreading under a weight: the lowest bit stays at the
/// weight, and what is left spreads under four times the weight.
proof fn lemma_weighted_step(weight: nat, rest: nat)
    ensures
        rest != 0 ==> weight * spread_bits(rest) == (rest % 2) * weight + (4 * weight)
            * spread_bits(rest / 2),
        rest != 0 && rest / 2 != 0 ==> 4 * weight <= (4 * weight) * spread_bits(rest / 2),
        rest == 0 ==> weight * spread_bits(rest) == 0,
{
    if rest != 0 {
        let tail = spread_bits(rest / 2);
        lemma_spread_step(rest);
        assert(weight * spread_bits(rest) == (rest % 2) * weight + (4 * weight) * tail)
            by (nonlinear_arith)
            requires
                spread_bits(rest) == (rest % 2) + 4 * tail,
        ;
        if rest / 2 != 0 {
            lemma_spread_step(rest / 2);
            assert(4 * weight <= (4 * weight) * tail) by (nonlinear_arith)
                requires
                    1 <= tail,
            ;
        }
    } else {
        assert(weight * spread_bits(0) == 0) by (nonlinear_arith)
            requires
                spread_bits(0) == 0,
        ;
    }
}

/// Row `i` of the even-bits table: the bits of `i` moved to the even
/// positions, all odd positions zero.
pub fn even_bits_at(i: usize) -> (r: usize)
    requires
        spread_bits(i as nat) <= usize::MAX,
    ensures
        r == spread_bits(i as nat),
{
    let mut rest: usize = i;
    let mut r: usize = 0;
    let mut weight: usize = 1;
    while rest != 0
        invariant
            spread_bits(i as nat) == r + weight * spread_bits(rest as nat),
            spread_bits(i as nat) <= usize::MAX,
        decreases rest,
    {
        let lower_bit: usize = rest % 2;
        let half: usize = rest >> 1;
        proof {
            assert(half == rest / 2) by (bit_vector)
                requires
                    half == rest >> 1,
            ;
            lemma_weighted_step(weight as nat, rest as nat);
            if half == 0 {
                lemma_weighted_step(weight as nat, 0);
                lemma_weighted_step(4 * weight as nat, 0);
            }
        }
        r = r + lower_bit * weight;
        rest = half;
        if rest != 0 {
            weight = weight * 4;
        }
    }
    proof {
        lemma_weighted_step(weight as nat, 0);
    }
    r
}

/// The rows of the even-bits table for words of `word_bits` bits: row `i`
/// holds the bits of `i` spread to the even positions, for every `i` below
/// `2^(word_bits / 2)`.
pub fn table_rows(word_bits: u32) -> (rows: Vec<usize>)
    requires
        pow4((word_bits / 2) as nat) - 1 <= usize::MAX,
    ensures
        rows@.len() == pow2n((word_bits / 2) as nat),
        forall|i: int| 0 <= i < rows@.len() ==> rows@[i] == spread_bits(i as nat),
{
    let half: u32 = word_bits / 2;
    let mut count: usize = 1;
    let mut k: u32 = 0;
    while k < half
        invariant
            k <= half,
            count == pow2n(k as nat),
            pow4(half as nat) - 1 <= usize::MAX,
        decreases half - k,
    {
        proof {
            lemma_pow2_monotone((k + 1) as nat, half as nat);
            lemma_pow2_le_pow4(half as nat);
        }
        count = count * 2;
        k = k + 1;
    }
    let mut rows: Vec<usize> = Vec::new();
    let mut i: usize = 0;
    while i < count
        invariant
            i <= count,
            count == pow2n(half as nat),
            pow4(half as nat) - 1 <= usize::MAX,
            rows@.len() == i,
            forall|j: int| 0 <= j < i ==> rows@[j] == spread_bits(j as nat),
        decreases count - i,
    {
        proof {
            lemma_spread_bits_bound(i as nat, half as nat);
        }
        rows.push(even_bits_at(i));
        i = i + 1;
    }
    rows
}

proof fn lemma_pow2_le_pow4(c: nat)
    ensures
        1 <= pow2n(c) <= pow4(c),
        c >= 1 ==> 2 * pow2n(c) <= pow4(c),
    decreases c,
{
    if c != 0 {
        lemma_pow2_le_pow4((c - 1) as nat);
    }
}

proof fn lemma_pow2_monotone(a: nat, b: nat)
    requires
        a <= b,
    ensures
        pow2n(a) <= pow2n(b),
    decreases b,
{
    if a < b {
        lemma_pow2_monotone(a, (b - 1) as nat);
    }
}

/// A word that holds only the bits that stood at the even positions of
/// another word.  All odd positions are zero.
#[derive(Clone, Copy, Debug)]
pub struct EvenBits<W>(pub W);

/// A word that holds only the bits that stood at the odd positions of
/// another word, moved one place down into the even positions.  All odd
/// positions are zero.
#[derive(Clone, Copy, Debug)]
pub struct OddBits<W>(pub W);

impl<W> core::ops::Deref for EvenBits<W> {
    type Target = W;

    fn deref(&self) -> (r: &W)
        ensures
            *r == self.0,
    {
        &self.0
    }
}

impl<W> core::ops::Deref for OddBits<W> {
    type Target = W;

    fn deref(&self) -> (r: &W)
        ensures
            *r == self.0,
    {
        &self.0
    }
}

/// The mask of the even positions of a 128-bit word.
pub const EVEN_MASK: u128 = 0x5555_5555_5555_5555_5555_5555_5555_5555;

/// The mask of the odd positions of a 128-bit word.
pub const ODD_MASK: u128 = 0xAAAA_AAAA_AAAA_AAAA_AAAA_AAAA_AAAA_AAAA;

/// Splits `word` into its even bits and its odd bits.  The odd bits are
/// moved one place down, so both parts have zeros at all odd positions, and
/// the word is the even part plus twice the odd part.
pub fn decompose(word: u128) -> (r: (EvenBits<u128>, OddBits<u128>))
    ensures
        r.0.0 == word & EVEN_MASK,
        r.1.0 == (word & ODD_MASK) >> 1,
        r.0.0 & ODD_MASK == 0,
        r.1.0 & ODD_MASK == 0,
        r.0.0 + 2 * r.1.0 == word,
{
    let even_only: u128 = word & 0x5555_5555_5555_5555_5555_5555_5555_5555;
    let odd_only: u128 = word & 0xAAAA_AAAA_AAAA_AAAA_AAAA_AAAA_AAAA_AAAA;
    let odds_in_even: u128 = odd_only >> 1;
    assert(even_only & 0xAAAA_AAAA_AAAA_AAAA_AAAA_AAAA_AAAA_AAAA == 0) by (bit_vector)
        requires
            even_only == word & 0x5555_5555_5555_5555_5555_5555_5555_5555,
    ;
    assert(odds_in_even & 0xAAAA_AAAA_AAAA_AAAA_AAAA_AAAA_AAAA_AAAA == 0) by (bit_vector)
        requires
            odds_in_even == (word & 0xAAAA_AAAA_AAAA_AAAA_AAAA_AAAA_AAAA_AAAA) >> 1,
    ;
    assert(even_only + 2 * odds_in_even == word) by (bit_vector)
        requires
            even_only == word & 0x5555_5555_5555_5555_5555_5555_5555_5555,
            odds_in_even == (word & 0xAAAA_AAAA_AAAA_AAAA_AAAA_AAAA_AAAA_AAAA) >> 1,
    ;
    (EvenBits(even_only), OddBits(odds_in_even))
}

/// Whether `e` has zeros at all odd positions.
pub open spec fn only_even_bits(e: nat) -> bool
    decreases e,
{
    e == 0 || (e % 4 < 2 && only_even_bits(e / 4))
}

/// The number whose bit at position `k` is the bit of `e` at position `2k`:
/// the inverse of spreading.
pub open spec fn gather_bits(e: nat) -> nat
    decreases e,
{
    if e == 0 {
        0
    } else {
        (e % 2) + 2 * gather_bits(e / 4)
    }
}

/// Spreading gives a word with zeros at all odd positions, and gathering
/// its bits gives the number back.
pub proof fn lemma_gather_spread(i: nat)
    ensures
        only_even_bits(spread_bits(i)),
        gather_bits(spread_bits(i)) == i,
    decreases i,
{
    if i != 0 {
        lemma_gather_spread(i / 2);
        let e = spread_bits(i);
        assert(e % 4 == i % 2 && e / 4 == spread_bits(i / 2) && e % 2 == i % 2);
    }
}

/// A word with zeros at all odd positions is the spreading of its gathered
/// bits, so it is a row of the table; below `4^k` its row is below `2^k`.
pub proof fn lemma_spread_gather(e: nat, k: nat)
    requires
        only_even_bits(e),
    ensures
        spread_bits(gather_bits(e)) == e,
        e < pow4(k) ==> gather_bits(e) < pow2n(k),
    decreases e,
{
    if e == 0 {
        lemma_pow2_le_pow4(k);
    } else {
        let g = gather_bits(e);
        assert(e % 2 == e % 4);
        assert(g % 2 == e % 2 && g / 2 == gather_bits(e / 4));
        if k == 0 {
            lemma_spread_gather(e / 4, 0);
        } else {
            lemma_spread_gather(e / 4, (k - 1) as nat);
        }
    }
}

/// A 128-bit word that has no bit in common with the odd mask has zeros at
/// all odd positions.
pub proof fn lemma_masked_is_even(e: u128)
    requires
        e & ODD_MASK == 0,
    ensures
        only_even_bits(e as nat),
    decreases e,
{
    if e != 0 {
        let q: u128 = e / 4;
        assert(e % 4 < 2 && q & 0xAAAA_AAAA_AAAA_AAAA_AAAA_AAAA_AAAA_AAAA == 0 && q < e)
            by (bit_vector)
            requires
                e & 0xAAAA_AAAA_AAAA_AAAA_AAAA_AAAA_AAAA_AAAA == 0,
                q == e / 4,
                e != 0,
        ;
        lemma_masked_is_even(q);
    }
}

/// Both parts of a decomposed word are rows of the even-bits table: for a
/// word below `4^k`, each part is the spreading of a row number below
/// `2^k`.  This is what lets a lookup in the table stand for "has zeros at
/// all odd positions".
pub proof fn lemma_parts_are_rows(word: u128, k: nat)
    requires
        word < pow4(k),
    ensures
        ({
            let even = (word & EVEN_MASK) as nat;
            let odd = ((word & ODD_MASK) >> 1) as nat;
            &&& gather_bits(even) < pow2n(k)
            &&& gather_bits(odd) < pow2n(k)
            &&& spread_bits(gather_bits(even)) == even
            &&& spread_bits(gather_bits(odd)) == odd
        }),
{
    let even: u128 = word & EVEN_MASK;
    let odd: u128 = (word & ODD_MASK) >> 1;
    assert(even & 0xAAAA_AAAA_AAAA_AAAA_AAAA_AAAA_AAAA_AAAA == 0 && odd
        & 0xAAAA_AAAA_AAAA_AAAA_AAAA_AAAA_AAAA_AAAA == 0 && even <= word && odd <= word)
        by (bit_vector)
        requires
            even == word & 0x5555_5555_5555_5555_5555_5555_5555_5555,
            odd == (word & 0xAAAA_AAAA_AAAA_AAAA_AAAA_AAAA_AAAA_AAAA) >> 1,
    ;
    lemma_masked_is_even(even);
    lemma_masked_is_even(odd);
    lemma_spread_gather(even as nat, k);
    lemma_spread_gather(odd as nat, k);
}

} // verus!
