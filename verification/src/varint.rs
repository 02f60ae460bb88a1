//! Variable-length integers: the length prefixes of the wire format.
//!
//! Values up to `0xFC` take one byte.  Larger values take a tag byte
//! (`0xFD`, `0xFE`, `0xFF`) followed by 2, 4 or 8 little-endian bytes.  Only
//! the shortest encoding of a value is accepted.

use crate::wire::{Parsed, Read};
use vstd::prelude::*;

verus! {

/// The `n` low bytes of `x`, least significant first.
pub open spec fn le_bytes(x: nat, n: nat) -> Seq<u8>
    decreases n,
{
    if n == 0 {
        Seq::empty()
    } else {
        seq![(x % 256) as u8] + le_bytes(x / 256, (n - 1) as nat)
    }
}

/// The number that `s` writes, least significant byte first.
pub open spec fn le_value(s: Seq<u8>) -> nat
    decreases s.len(),
{
    if s.len() == 0 {
        0
    } else {
        s[0] as nat + 256 * le_value(s.drop_first())
    }
}

/// How many bytes follow a tag byte.
pub open spec fn tag_width(tag: u8) -> nat {
    if tag == 0xFF {
        8
    } else if tag == 0xFE {
        4
    } else if tag == 0xFD {
        2
    } else {
        0
    }
}

/// The smallest value that may be written with `tag`.
pub open spec fn tag_floor(tag: u8) -> nat {
    if tag == 0xFF {
        0x1_0000_0000
    } else if tag == 0xFE {
        0x1_0000
    } else if tag == 0xFD {
        0xFD
    } else {
        0
    }
}

/// The encoding of `x`.
pub open spec fn encode_varint(x: u64) -> Seq<u8> {
    if x <= 0xFC {
        seq![x as u8]
    } else if x <= 0xFFFF {
        seq![0xFDu8] + le_bytes(x as nat, 2)
    } else if x <= 0xFFFF_FFFF {
        seq![0xFEu8] + le_bytes(x as nat, 4)
    } else {
        seq![0xFFu8] + le_bytes(x as nat, 8)
    }
}

/// The length of the encoding of `x`: 1, 3, 5 or 9.
pub open spec fn varint_size(x: u64) -> nat {
    if x <= 0xFC {
        1
    } else if x <= 0xFFFF {
        3
    } else if x <= 0xFFFF_FFFF {
        5
    } else {
        9
    }
}

/// Reading a variable-length integer from the front of `s`.
pub open spec fn parse_varint(s: Seq<u8>) -> Parsed<u64> {
    if s.len() == 0 {
        Parsed::Incomplete { needed: 1 }
    } else {
        let width = tag_width(s[0]);
        if width == 0 {
            Parsed::Done { value: s[0] as u64, consumed: 1 }
        } else if s.len() < 1 + width {
            Parsed::Incomplete { needed: (1 + width - s.len()) as nat }
        } else {
            let v = le_value(s.subrange(1, 1 + width as int));
            if v < tag_floor(s[0]) {
                Parsed::Malformed
            } else {
                Parsed::Done { value: v as u64, consumed: 1 + width }
            }
        }
    }
}

/// `width` little-endian bytes write a number below `256^width`.
pub proof fn lemma_le_value_bound(s: Seq<u8>)
    requires
        s.len() <= 8,
    ensures
        s.len() == 2 ==> le_value(s) <= 0xFFFF,
        s.len() == 4 ==> le_value(s) <= 0xFFFF_FFFF,
        s.len() == 8 ==> le_value(s) <= 0xFFFF_FFFF_FFFF_FFFF,
        s.len() == 2 ==> le_value(s) == s[0] + 256 * s[1],
        s.len() == 4 ==> le_value(s) == s[0] + 256 * (s[1] + 256 * (s[2] + 256 * s[3])),
        s.len() == 8 ==> le_value(s) == s[0] + 256 * (s[1] + 256 * (s[2] + 256 * (s[3] + 256 * (
            s[4] + 256 * (s[5] + 256 * (s[6] + 256 * s[7])))))),
{
    reveal_with_fuel(le_value, 9);
}

/// Writing `x` in `n` little-endian bytes and reading them back gives `x`,
/// provided `x` fits.
pub proof fn lemma_le_roundtrip(x: nat, n: nat)
    ensures
        le_bytes(x, n).len() == n,
        n == 2 && x <= 0xFFFF ==> le_value(le_bytes(x, n)) == x,
        n == 4 && x <= 0xFFFF_FFFF ==> le_value(le_bytes(x, n)) == x,
        n == 8 && x <= 0xFFFF_FFFF_FFFF_FFFF ==> le_value(le_bytes(x, n)) == x,
    decreases n,
{
    lemma_le_len(x, n);
    if n == 2 || n == 4 || n == 8 {
        lemma_le_value_of_bytes(x, n);
        lemma_mod_pow(x, n);
    }
}

/// `256^n` for the widths in use.
pub open spec fn pow256(n: nat) -> nat
    decreases n,
{
    if n == 0 {
        1
    } else {
        256 * pow256((n - 1) as nat)
    }
}

proof fn lemma_le_len(x: nat, n: nat)
    ensures
        le_bytes(x, n).len() == n,
    decreases n,
{
    if n != 0 {
        lemma_le_len(x / 256, (n - 1) as nat);
    }
}

proof fn lemma_le_value_of_bytes(x: nat, n: nat)
    ensures
        le_value(le_bytes(x, n)) == x % pow256(n),
    decreases n,
{
    if n != 0 {
        let s = le_bytes(x, n);
        let tail = le_bytes(x / 256, (n - 1) as nat);
        assert(s.drop_first() =~= tail);
        lemma_le_value_of_bytes(x / 256, (n - 1) as nat);
        let p = pow256((n - 1) as nat);
        lemma_pow256_positive((n - 1) as nat);
        assert(x % (256 * p) == x % 256 + 256 * ((x / 256) % p)) by {
            vstd::arithmetic::div_mod::lemma_breakdown(x as int, 256, p as int);
        }
    }
}

proof fn lemma_pow256_positive(n: nat)
    ensures
        pow256(n) >= 1,
    decreases n,
{
    if n != 0 {
        lemma_pow256_positive((n - 1) as nat);
    }
}

proof fn lemma_mod_pow(x: nat, n: nat)
    requires
        n == 2 || n == 4 || n == 8,
    ensures
        pow256(2) == 0x1_0000,
        pow256(4) == 0x1_0000_0000,
        pow256(8) == 0x1_0000_0000_0000_0000,
        x < pow256(n) ==> x % pow256(n) == x,
{
    reveal_with_fuel(pow256, 9);
    if x < pow256(n) {
        vstd::arithmetic::div_mod::lemma_small_mod(x, pow256(n));
    }
}

/// Reading what was written gives the value back, whatever follows it.
pub proof fn lemma_varint_roundtrip(x: u64, rest: Seq<u8>)
    ensures
        encode_varint(x).len() == varint_size(x),
        parse_varint(encode_varint(x) + rest) == (Parsed::Done {
            value: x,
            consumed: varint_size(x),
        }),
{
    let e = encode_varint(x);
    let s = e + rest;
    if x > 0xFC {
        let n: nat = if x <= 0xFFFF {
            2
        } else if x <= 0xFFFF_FFFF {
            4
        } else {
            8
        };
        lemma_le_roundtrip(x as nat, n);
        assert(s.subrange(1, 1 + n as int) =~= le_bytes(x as nat, n));
    }
}

/// Reading bytes as a number and writing the number in as many bytes gives
/// the bytes back.
pub proof fn lemma_le_bytes_of_value(s: Seq<u8>)
    ensures
        le_bytes(le_value(s), s.len()) == s,
    decreases s.len(),
{
    if s.len() != 0 {
        let tail = s.drop_first();
        lemma_le_bytes_of_value(tail);
        let x = le_value(s);
        assert(x % 256 == s[0] as nat && x / 256 == le_value(tail));
    }
}

/// Every value has one encoding only: what the reader accepts is what the
/// writer writes.
pub proof fn lemma_varint_canonical(s: Seq<u8>)
    ensures
        parse_varint(s) matches Parsed::Done { value, consumed } ==> consumed <= s.len()
            && s.subrange(0, consumed as int) == encode_varint(value) && consumed == varint_size(
            value,
        ),
{
    if let Parsed::Done { value, consumed } = parse_varint(s) {
        let width = tag_width(s[0]);
        if width != 0 {
            let field = s.subrange(1, 1 + width as int);
            lemma_le_value_bound(field);
            lemma_le_bytes_of_value(field);
        }
    }
}

/// A reader never changes its mind when more bytes arrive: a value that was
/// read stays read, a malformed prefix stays malformed, and a reader that
/// asked for `needed` bytes and got fewer asks for the rest.
pub proof fn lemma_varint_extends(s: Seq<u8>, more: Seq<u8>)
    ensures
        match parse_varint(s) {
            Parsed::Done { value, consumed } => 1 <= consumed <= s.len() && parse_varint(s + more)
                == (Parsed::Done { value, consumed }),
            Parsed::Malformed => parse_varint(s + more) == Parsed::<u64>::Malformed,
            Parsed::Incomplete { needed } => 1 <= needed <= 8 && (more.len() < needed
                ==> parse_varint(s + more) == (Parsed::<u64>::Incomplete {
                needed: (needed - more.len()) as nat,
            })),
        },
{
    let t = s + more;
    if s.len() != 0 {
        let width = tag_width(s[0]);
        if width != 0 && s.len() >= 1 + width {
            assert(t.subrange(1, 1 + width as int) =~= s.subrange(1, 1 + width as int));
        }
    }
}

/// A variable-length integer.
#[derive(Clone, Copy, Debug, PartialEq, Eq, Structural)]
pub struct VarInt(pub u64);

impl VarInt {
    /// Appends the encoding to `out` and returns its length.
    pub fn encode(&self, out: &mut Vec<u8>) -> (written: usize)
        ensures
            final(out)@ == old(out)@ + encode_varint(self.0),
            written == varint_size(self.0),
    {
        let x = self.0;
        if x <= 0xFC {
            out.push(x as u8);
            1
        } else if x <= 0xFFFF {
            out.push(0xFD);
            Self::push_le(out, x, 2);
            3
        } else if x <= 0xFFFF_FFFF {
            out.push(0xFE);
            Self::push_le(out, x, 4);
            5
        } else {
            out.push(0xFF);
            Self::push_le(out, x, 8);
            9
        }
    }

    /// Appends the `n` low bytes of `x`, least significant first.
    fn push_le(out: &mut Vec<u8>, x: u64, n: usize)
        ensures
            final(out)@ == old(out)@ + le_bytes(x as nat, n as nat),
    {
        let mut rest: u64 = x;
        let mut i: usize = 0;
        while i < n
            invariant
                i <= n,
                out@ + le_bytes(rest as nat, (n - i) as nat) == old(out)@ + le_bytes(
                    x as nat,
                    n as nat,
                ),
            decreases n - i,
        {
            out.push((rest % 256) as u8);
            rest = rest / 256;
            i = i + 1;
        }
    }

    /// Reads a value from the front of `bytes`.
    pub fn decode(bytes: &[u8]) -> (r: Read<u64>)
        ensures
            r.stands_for(parse_varint(bytes@)),
    {
        if bytes.len() == 0 {
            return Read::Incomplete { needed: 1 };
        }
        let tag = bytes[0];
        let (width, floor): (usize, u64) = if tag == 0xFF {
            (8, 0x1_0000_0000)
        } else if tag == 0xFE {
            (4, 0x1_0000)
        } else if tag == 0xFD {
            (2, 0xFD)
        } else {
            return Read::Done { value: tag as u64, consumed: 1 };
        };
        if bytes.len() - 1 < width {
            return Read::Incomplete { needed: (width - (bytes.len() - 1)) as u64 };
        }
        let ghost field = bytes@.subrange(1, 1 + width as int);
        let mut value: u64 = 0;
        let mut i: usize = width;
        while i > 0
            invariant
                i <= width,
                width <= 8,
                1 + width <= bytes.len(),
                field == bytes@.subrange(1, 1 + width as int),
                value == le_value(field.subrange(i as int, width as int)),
                value < pow256((width - i) as nat),
            decreases i,
        {
            i = i - 1;
            let b = bytes[1 + i];
            proof {
                let cur = field.subrange(i as int, width as int);
                assert(cur.drop_first() =~= field.subrange(i + 1, width as int));
                lemma_pow256_values();
                assert(pow256((width - i) as nat) <= 0x1_0000_0000_0000_0000) by {
                    lemma_pow256_monotone((width - i) as nat, 8);
                }
            }
            value = value * 256 + b as u64;
        }
        proof {
            assert(field.subrange(0, width as int) =~= field);
        }
        if value < floor {
            Read::Malformed
        } else {
            Read::Done { value, consumed: 1 + width }
        }
    }
}

proof fn lemma_pow256_values()
    ensures
        pow256(0) == 1,
        pow256(8) == 0x1_0000_0000_0000_0000,
{
    reveal_with_fuel(pow256, 9);
}

proof fn lemma_pow256_monotone(a: nat, b: nat)
    requires
        a <= b,
    ensures
        pow256(a) <= pow256(b),
    decreases b,
{
    if a < b {
        lemma_pow256_monotone(a, (b - 1) as nat);
    }
}

} // verus!
