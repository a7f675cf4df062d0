//! Byte-wise fill and copy on buffers.

use vstd::prelude::*;

verus! {

/// The byte that a fill value stands for: its remainder modulo 256, which
/// is what its low eight bits hold.
pub open spec fn low_byte(c: i32) -> u8 {
    (c as int % 256) as u8
}

/// Masking with `0xff` computes the remainder modulo 256, for negative values
/// too.
proof fn lemma_mask_is_remainder(c: i32)
    ensures
        0 <= c & 0xff <= 0xff,
        (c & 0xff) as u8 == low_byte(c),
{
    assert(0 <= c & 0xff <= 0xff) by (bit_vector);
    assert(c >= 0 ==> (c & 0xff) == c % 256) by (bit_vector);
    assert(c < 0 ==> (c & 0xff) as i64 == (c as i64 + 0x8000_0000i64) % 256) by (bit_vector);
}

/// Sets the first `n` bytes of `dest` to the low byte of `c` and leaves
/// the rest of the buffer as it was.
pub fn memset(dest: &mut Vec<u8>, c: i32, n: usize)
    requires
        n <= old(dest).len(),
    ensures
        final(dest)@ == Seq::new(n as nat, |i: int| low_byte(c)) + old(dest)@.skip(n as int),
{
    proof {
        lemma_mask_is_remainder(c);
    }
    let byte: u8 = (c & 0xff) as u8;
    let mut i: usize = 0;
    while i < n
        invariant
            i <= n <= dest.len(),
            dest.len() == old(dest).len(),
            byte == low_byte(c),
            forall|k: int| 0 <= k < i ==> dest@[k] == byte,
            forall|k: int| i <= k < dest.len() ==> dest@[k] == old(dest)@[k],
        decreases n - i,
    {
        dest.set(i, byte);
        i += 1;
    }
    assert(dest@ =~= Seq::new(n as nat, |i: int| low_byte(c)) + old(dest)@.skip(n as int));
}

/// Copies the first `n` bytes of `src` over the first `n` bytes of `dest` and
/// leaves the rest of `dest` as it was.
pub fn memcpy(dest: &mut Vec<u8>, src: &[u8], n: usize)
    requires
        n <= old(dest).len(),
        n <= src.len(),
    ensures
        final(dest)@ == src@.take(n as int) + old(dest)@.skip(n as int),
{
    let mut i: usize = 0;
    while i < n
        invariant
            i <= n <= dest.len(),
            n <= src.len(),
            dest.len() == old(dest).len(),
            forall|k: int| 0 <= k < i ==> dest@[k] == src@[k],
            forall|k: int| i <= k < dest.len() ==> dest@[k] == old(dest)@[k],
        decreases n - i,
    {
        dest.set(i, src[i]);
        i += 1;
    }
    assert(dest@ =~= src@.take(n as int) + old(dest)@.skip(n as int));
}

} // verus!
