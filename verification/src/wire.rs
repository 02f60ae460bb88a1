//! What a reader reports after looking at the front of a buffer.

use vstd::prelude::*;

verus! {

/// What reading one item from the front of a byte sequence gives.
pub enum Parsed<V> {
    /// The item, and the number of bytes it took.
    Done { value: V, consumed: nat },
    /// The bytes so far are the start of an item; `needed` more bytes must
    /// be read before the next decision.
    Incomplete { needed: nat },
    /// No continuation of the bytes is an item.
    Malformed,
}

/// The outcome of an executable reader.
#[derive(Debug)]
pub enum Read<T> {
    /// The item, and the number of bytes it took.
    Done { value: T, consumed: usize },
    /// This many more bytes have to arrive before the reader can go on.
    Incomplete { needed: u64 },
    /// The bytes are not the start of any item.
    Malformed,
}

impl<T: View> Read<T> {
    /// The outcome `self` stands for the mathematical outcome `p`.
    pub open spec fn stands_for(self, p: Parsed<T::V>) -> bool {
        match self {
            Read::Done { value, consumed } => p == (Parsed::Done {
                value: value@,
                consumed: consumed as nat,
            }),
            Read::Incomplete { needed } => p == (Parsed::<T::V>::Incomplete {
                needed: needed as nat,
            }),
            Read::Malformed => p == Parsed::<T::V>::Malformed,
        }
    }
}

/// Appends `bytes` to `out`.
pub fn append(out: &mut Vec<u8>, bytes: &[u8])
    ensures
        final(out)@ == old(out)@ + bytes@,
{
    let mut i: usize = 0;
    while i < bytes.len()
        invariant
            i <= bytes.len(),
            out@ == old(out)@ + bytes@.subrange(0, i as int),
        decreases bytes.len() - i,
    {
        out.push(bytes[i]);
        i = i + 1;
    }
    assert(bytes@.subrange(0, bytes.len() as int) =~= bytes@);
}

/// A copy of `bytes[from..to]`.
pub fn copy_range(bytes: &[u8], from: usize, to: usize) -> (out: Vec<u8>)
    requires
        from <= to <= bytes.len(),
    ensures
        out@ == bytes@.subrange(from as int, to as int),
{
    let mut out: Vec<u8> = Vec::new();
    let mut i: usize = from;
    while i < to
        invariant
            from <= i <= to,
            to <= bytes.len(),
            out@ == bytes@.subrange(from as int, i as int),
        decreases to - i,
    {
        out.push(bytes[i]);
        i = i + 1;
    }
    out
}

} // verus!
