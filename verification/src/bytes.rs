//! Byte-string helpers: comparison in constant time and the little-endian
//! reading of a byte string as a number.

use vstd::prelude::*;

verus! {

/// The number that a byte string denotes when read in little-endian order:
/// the first byte is the least significant one.
pub open spec fn le_value(bytes: Seq<u8>) -> nat
    decreases bytes.len(),
{
    if bytes.len() == 0 {
        0
    } else {
        bytes[0] as nat + 256 * le_value(bytes.skip(1))
    }
}

/// Byte strings of one length that denote the same number are the same
/// string: a number has one little-endian encoding of a given length.
pub proof fn lemma_le_value_injective(a: Seq<u8>, b: Seq<u8>)
    requires
        a.len() == b.len(),
        le_value(a) == le_value(b),
    ensures
        a == b,
    decreases a.len(),
{
    if a.len() == 0 {
        assert(a =~= b);
    } else {
        let rest_a = a.skip(1);
        let rest_b = b.skip(1);
        assert(a[0] == b[0] && le_value(rest_a) == le_value(rest_b));
        lemma_le_value_injective(rest_a, rest_b);
        assert(a =~= seq![a[0]] + rest_a);
        assert(b =~= seq![b[0]] + rest_b);
    }
}

proof fn lemma_fold_difference(acc: u8, x: u8, y: u8)
    ensures
        (acc | (x ^ y)) == 0 <==> (acc == 0 && x == y),
{
    assert((acc | (x ^ y)) == 0 <==> (acc == 0 && x == y)) by (bit_vector);
}

/// Compares two 32-byte strings byte for byte.
///
/// Every byte pair is visited whatever the contents, so the running time
/// does not depend on where the first difference stands.
pub fn constant_time_eq(a: &[u8; 32], b: &[u8; 32]) -> (same: bool)
    ensures
        same == (a@ == b@),
{
    let mut acc: u8 = 0;
    let mut i: usize = 0;
    while i < 32
        invariant
            i <= 32,
            acc == 0 <==> a@.take(i as int) =~= b@.take(i as int),
        decreases 32 - i,
    {
        proof {
            lemma_fold_difference(acc, a[i as int], b[i as int]);
            let next: int = i + 1;
            assert(a@.take(next) =~= a@.take(i as int).push(a[i as int]));
            assert(b@.take(next) =~= b@.take(i as int).push(b[i as int]));
            if a@.take(next) == b@.take(next) {
                assert(a@.take(next)[i as int] == b@.take(next)[i as int]);
                assert(a@.take(i as int) =~= a@.take(next).take(i as int));
                assert(b@.take(i as int) =~= b@.take(next).take(i as int));
            }
        }
        acc = acc | (a[i] ^ b[i]);
        i = i + 1;
    }
    proof {
        assert(a@.take(32) =~= a@);
        assert(b@.take(32) =~= b@);
    }
    acc == 0
}

} // verus!
