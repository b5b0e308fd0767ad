//! Churn-engine planning: the randomized sweep order over a plant's files
//! and the shape of each single-kilobyte read or write operation.
//!
//! The surrounding binary enumerates the files and performs the actual
//! seeks, reads and writes; everything decided here — which files, in what
//! order, how many operations, at which offsets, with what contents — is
//! verified.

use vstd::prelude::*;
use vstd::multiset::Multiset;
use crate::KILOBYTE;
use crate::rng::rng_range_u64;
use crate::rng::rng_range_usize;
use crate::rng::rng_ratio;
use crate::data::fill_block;

verus! {

/// The sequence `0, 1, ..., n - 1` in its natural order.
pub open spec fn index_sequence(n: nat) -> Seq<usize> {
    Seq::new(n, |i: int| i as usize)
}

/// A sweep order over `n` files is sound when it is a rearrangement of
/// `0 .. n`: every file index occurs in it, as often as in `0 .. n`,
/// namely once.
pub open spec fn is_index_permutation(s: Seq<usize>, n: nat) -> bool {
    s.to_multiset() == index_sequence(n).to_multiset()
}

/// Each index below `n` occurs exactly once in `0, 1, ..., n - 1`.
proof fn lemma_index_sequence_counts(n: nat, f: usize)
    requires
        n <= usize::MAX,
    ensures
        f < n ==> index_sequence(n).to_multiset().count(f) == 1,
        f >= n ==> index_sequence(n).to_multiset().count(f) == 0,
    decreases n,
{
    broadcast use vstd::seq_lib::group_to_multiset_ensures;

    if n == 0 {
        assert(index_sequence(0) =~= Seq::<usize>::empty());
        assert(index_sequence(0).to_multiset() =~= Multiset::<usize>::empty());
    } else {
        let prev = index_sequence((n - 1) as nat);
        let last = (n - 1) as usize;
        lemma_index_sequence_counts((n - 1) as nat, f);
        assert(index_sequence(n) =~= prev.push(last));
        assert(prev.push(last).to_multiset() =~= prev.to_multiset().insert(last));
        assert(index_sequence(n).to_multiset() == prev.to_multiset().insert(last));
    }
}

/// Every sweep visits each of the `n` files exactly once and no others:
/// an order that is a permutation of `0 .. n` holds each index below `n`
/// with multiplicity one, nothing else, and has length `n`.
pub proof fn lemma_sweep_visits_each_file_once(s: Seq<usize>, n: nat)
    requires
        n <= usize::MAX,
        is_index_permutation(s, n),
    ensures
        s.len() == n,
        forall|f: usize| f < n ==> s.to_multiset().count(f) == 1,
        forall|f: usize| f >= n ==> s.to_multiset().count(f) == 0,
{
    broadcast use vstd::seq_lib::group_to_multiset_ensures;

    assert forall|f: usize| true implies (f < n ==> s.to_multiset().count(f) == 1)
        && (f >= n ==> s.to_multiset().count(f) == 0) by {
        lemma_index_sequence_counts(n, f);
    }
    assert(s.len() == s.to_multiset().len());
    assert(index_sequence(n).len() == index_sequence(n).to_multiset().len());
    assert(index_sequence(n).len() == n);
}

/// Draw the order in which one sweep visits `n` files: a Fisher–Yates
/// shuffle of the indices `0 .. n`.  The result is always a permutation
/// of `0 .. n`; which permutation depends on the generator.
pub fn sweep_order(n: usize, rng: &mut rand_chacha::ChaCha20Rng) -> (order: Vec<usize>)
    ensures
        order@.len() == n,
        is_index_permutation(order@, n as nat),
{
    broadcast use vstd::seq_lib::group_to_multiset_ensures;

    let mut order: Vec<usize> = Vec::new();
    let mut k: usize = 0;
    while k < n
        invariant
            k <= n,
            order@ == index_sequence(k as nat),
        decreases n - k,
    {
        order.push(k);
        assert(order@ =~= index_sequence((k + 1) as nat));
        k = k + 1;
    }
    assert(order@ == index_sequence(n as nat));

    if n > 1 {
        let mut i: usize = n - 1;
        while i >= 1
            invariant
                i < n,
                order@.len() == n,
                is_index_permutation(order@, n as nat),
            decreases i,
        {
            let j = rng_range_usize(rng, 0, i + 1);
            let a = order[i];
            let b = order[j];
            let ghost before = order@;
            order.set(i, b);
            order.set(j, a);
            proof {
                broadcast use vstd::seq_lib::group_to_multiset_ensures;
                broadcast use vstd::seq_lib::to_multiset_update;

                assert(before.contains(a)) by {
                    assert(before[i as int] == a);
                }
                assert(before.contains(b)) by {
                    assert(before[j as int] == b);
                }
                let m = before.to_multiset();
                let s1 = before.update(i as int, b);
                assert(s1[j as int] == b);
                assert(s1.to_multiset() == m.insert(b).remove(a));
                assert(order@ == s1.update(j as int, a));
                assert(order@.to_multiset() == s1.to_multiset().insert(a).remove(b));
                assert(before[i as int] == a);
                assert(m.count(a) >= 1);
                assert(m.count(b) >= 1);
                assert(order@.to_multiset() =~= m);
            }
            i = i - 1;
        }
    }
    order
}

/// A single churn operation: either write one kilobyte at a block-aligned
/// offset, or read one kilobyte from one.
pub enum ChurnOp {
    Write { offset: u64, data: Vec<u8> },
    Read { offset: u64 },
}

/// The file offset at which an operation acts.
pub open spec fn op_offset(op: ChurnOp) -> u64 {
    match op {
        ChurnOp::Write { offset, data } => offset,
        ChurnOp::Read { offset } => offset,
    }
}

/// A file is too small to churn when it cannot absorb a one-kilobyte
/// operation short of its final block.
#[derive(Clone, Copy, PartialEq, Eq, Structural, Debug)]
pub enum ChurnError {
    FileTooSmall,
}

/// An offset is safe for a file of `size` bytes when it is block-aligned
/// and a whole kilobyte fits strictly before the final partial block.
pub open spec fn safe_churn_offset(offset: u64, size: u64) -> bool {
    &&& offset % crate::KILOBYTE == 0
    &&& offset + crate::KILOBYTE < size
}

/// Draw a random operation offset for a file of `size` bytes.  Every
/// offset handed out is kilobyte-aligned and leaves the final partial
/// block untouched; a file without room for that (under two kilobytes)
/// is refused rather than overrun.
pub fn churn_offset(size: u64, rng: &mut rand_chacha::ChaCha20Rng) -> (r: Result<
    u64,
    ChurnError,
>)
    ensures
        r is Ok <==> size >= 2 * crate::KILOBYTE,
        r is Err ==> r == Err::<u64, ChurnError>(ChurnError::FileTooSmall),
        r matches Ok(offset) ==> safe_churn_offset(offset, size),
{
    if size < 2 * KILOBYTE {
        return Err(ChurnError::FileTooSmall);
    }
    let blocks = size / KILOBYTE;
    let idx = rng_range_u64(rng, 0, blocks - 1);
    proof {
        let s = size as int;
        let b = blocks as int;
        let x = idx as int;
        assert(b * 1024 <= s) by (nonlinear_arith)
            requires
                b == s / 1024,
                s >= 0,
        ;
        assert(x * 1024 + 2048 <= b * 1024) by (nonlinear_arith)
            requires
                x < b - 1,
        ;
        assert((x * 1024) % 1024 == 0) by (nonlinear_arith);
    }
    Ok(idx * KILOBYTE)
}

/// How many operations one visit of a file performs: a draw from
/// `[1, 10000)`.
pub fn churn_iops(rng: &mut rand_chacha::ChaCha20Rng) -> (r: u64)
    ensures
        1 <= r < 10000,
{
    rng_range_u64(rng, 1, 10000)
}

/// Plan one operation against a file of `size` bytes: a 40% chance of a
/// write, else a read, at a freshly drawn safe offset.  A write carries
/// exactly one kilobyte of payload, drawn by the corpus rule (75% random
/// bytes, else a repeated compressible byte).  Files under two kilobytes
/// are refused.
pub fn churn_op(size: u64, rng: &mut rand_chacha::ChaCha20Rng) -> (r: Result<
    ChurnOp,
    ChurnError,
>)
    ensures
        r is Ok <==> size >= 2 * crate::KILOBYTE,
        r is Err ==> r == Err::<ChurnOp, ChurnError>(ChurnError::FileTooSmall),
        r matches Ok(op) ==> safe_churn_offset(op_offset(op), size),
        r matches Ok(op) ==> (op matches ChurnOp::Write { offset, data } ==> data@.len()
            == crate::KILOBYTE),
{
    let offset = match churn_offset(size, rng) {
        Ok(o) => o,
        Err(e) => {
            return Err(e);
        },
    };
    let write = rng_ratio(rng, 2, 5);
    if write {
        let random = rng_ratio(rng, 3, 4);
        let mut data: Vec<u8> = Vec::new();
        fill_block(&mut data, KILOBYTE as usize, random, rng);
        Ok(ChurnOp::Write { offset, data })
    } else {
        Ok(ChurnOp::Read { offset })
    }
}

} // verus!
