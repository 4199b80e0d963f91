//! A basic uniformity sanity check over an entropy stream: bucket the bytes
//! by value and ask whether every bucket count sits within a tolerance of
//! the uniform expectation.

use vstd::prelude::*;

verus! {

/// How many distinct byte values there are, and so how many buckets.
pub const BYTE_BUCKETS: usize = 256;

/// How often `v` occurs in `s`.
pub open spec fn occurrences(s: Seq<u8>, v: u8) -> nat
    decreases s.len(),
{
    if s.len() == 0 {
        0
    } else {
        occurrences(s.drop_last(), v) + (if s.last() == v {
            1nat
        } else {
            0nat
        })
    }
}

/// A value cannot occur more often than the sequence is long.
proof fn lemma_occurrences_bound(s: Seq<u8>, v: u8)
    ensures
        occurrences(s, v) <= s.len(),
    decreases s.len(),
{
    if s.len() > 0 {
        lemma_occurrences_bound(s.drop_last(), v);
    }
}

/// Buckets `data` by byte value: one count per possible value, each the
/// number of occurrences of that value.
pub fn byte_value_histogram(data: &Vec<u8>) -> (h: Vec<usize>)
    ensures
        h@.len() == BYTE_BUCKETS,
        forall|v: int| 0 <= v < BYTE_BUCKETS ==> h@[v] == occurrences(data@, v as u8),
{
    let mut h: Vec<usize> = Vec::new();
    let ghost empty = Seq::<u8>::empty();
    for _k in 0..BYTE_BUCKETS
        invariant
            h@.len() == _k,
            forall|j: int| 0 <= j < _k ==> h@[j] == 0,
    {
        h.push(0);
    }
    proof {
        assert forall|v: int| 0 <= v < BYTE_BUCKETS implies h@[v] == occurrences(
            data@.take(0),
            v as u8,
        ) by {
            assert(data@.take(0) =~= empty);
        }
    }
    let n = data.len();
    for i in 0..n
        invariant
            n == data@.len(),
            h@.len() == BYTE_BUCKETS,
            forall|v: int| 0 <= v < BYTE_BUCKETS ==> h@[v] == occurrences(
                data@.take(i as int),
                v as u8,
            ),
    {
        let ghost prefix = data@.take(i as int);
        let b = data[i];
        proof {
            lemma_occurrences_bound(prefix, b);
        }
        let c = h[b as usize];
        h.set(b as usize, c + 1);
        proof {
            assert forall|v: int| 0 <= v < BYTE_BUCKETS implies h@[v] == occurrences(
                data@.take(i + 1),
                v as u8,
            ) by {
                assert(data@.take(i + 1).drop_last() =~= prefix);
                assert(data@.take(i + 1).last() == data@[i as int]);
            }
        }
    }
    proof {
        assert(data@.take(n as int) =~= data@);
    }
    h
}

/// Whether every bucket count sits within `tolerance` of `expected`.
pub fn within_tolerance(hist: &Vec<usize>, expected: usize, tolerance: usize) -> (r: bool)
    requires
        expected + tolerance <= usize::MAX,
    ensures
        r <==> forall|i: int|
            0 <= i < hist@.len() ==> expected - tolerance <= #[trigger] hist@[i] <= expected
                + tolerance,
{
    let n = hist.len();
    for i in 0..n
        invariant
            n == hist@.len(),
            expected + tolerance <= usize::MAX,
            forall|j: int| 0 <= j < i ==> expected - tolerance <= #[trigger] hist@[j] <= expected
                + tolerance,
    {
        let c = hist[i];
        if c > expected + tolerance {
            return false;
        }
        if c < expected && expected - c > tolerance {
            return false;
        }
    }
    true
}

} // verus!
