//! Snapshot-lifecycle decisions of a backup cycle: the cycle snapshot
//! name, retention trimming, and the rule that admits a dataset to
//! incremental-transfer validation.
//!
//! A cycle snapshots every child dataset under one shared name, then ages
//! out the oldest snapshots while a dataset holds `maxsnaps` or more, and
//! finally validates an incremental transfer between the two most recent
//! snapshots — but only where at least two remain.  Snapshot lists are
//! always ordered oldest first, as the engine reports them.

use vstd::prelude::*;
use crate::names::valid_snapshot_name;
use crate::render::dec_chars;
use crate::render::dec_string;
use crate::render::is_dec_char;
use crate::render::lemma_dec_chars_value;

verus! {

/// The retention bound: after trimming, a dataset holds fewer than this
/// many snapshots.
pub const MAXSNAPS: usize = 5;

/// How many workers share one cycle's work queue.
pub const CYCLE_WORKERS: usize = 4;

/// The pause between two backup cycles, in milliseconds.
pub const CYCLE_SLEEP_MS: u64 = 5000;

/// One retention decision: given a dataset's current snapshot list,
/// oldest first, either the list is already below the bound and trimming
/// is done, or the single oldest snapshot is to be destroyed.  Destroying
/// one at a time, re-listing in between, never removes more than needed
/// to cross the threshold.
pub fn retention_step(snaps: &Vec<String>, maxsnaps: usize) -> (r: Option<String>)
    requires
        1 <= maxsnaps,
    ensures
        r is None <==> snaps@.len() < maxsnaps,
        r matches Some(oldest) ==> oldest@ == snaps@[0]@,
{
    if snaps.len() < maxsnaps {
        None
    } else {
        Some(snaps[0].clone())
    }
}

/// Trim a snapshot list, oldest first, until fewer than `maxsnaps`
/// remain.  Returns the names destroyed, in destruction order, and the
/// names kept.  The destroyed names are exactly the oldest prefix, the
/// kept ones the newest suffix; when the list was at or over the bound,
/// exactly `maxsnaps - 1` remain — one destruction per step is enough,
/// and no step destroys more than needed.
pub fn retention_trim(snaps: Vec<String>, maxsnaps: usize) -> (r: (Vec<String>, Vec<String>))
    requires
        1 <= maxsnaps,
    ensures
        r.0@.len() + r.1@.len() == snaps@.len(),
        r.1@.len() < maxsnaps,
        r.0@ == snaps@.subrange(0, r.0@.len() as int),
        r.1@ == snaps@.subrange(r.0@.len() as int, snaps@.len() as int),
        snaps@.len() < maxsnaps ==> r.0@.len() == 0,
        snaps@.len() >= maxsnaps ==> r.1@.len() == maxsnaps - 1,
{
    let mut kept = snaps;
    let mut destroyed: Vec<String> = Vec::new();
    proof {
        assert(destroyed@ =~= kept@.subrange(0, 0));
        assert(kept@ =~= kept@.subrange(0, kept@.len() as int));
    }
    let ghost all = kept@;
    while kept.len() >= maxsnaps
        invariant
            1 <= maxsnaps,
            destroyed@.len() + kept@.len() == all.len(),
            destroyed@ == all.subrange(0, destroyed@.len() as int),
            kept@ == all.subrange(destroyed@.len() as int, all.len() as int),
            all.len() < maxsnaps ==> destroyed@.len() == 0,
            all.len() >= maxsnaps ==> kept@.len() >= maxsnaps - 1,
        decreases kept@.len(),
    {
        let ghost d = destroyed@.len() as int;
        let oldest = kept.remove(0);
        destroyed.push(oldest);
        proof {
            assert(destroyed@ =~= all.subrange(0, d + 1));
            assert(kept@ =~= all.subrange(d + 1, all.len() as int));
        }
    }
    (destroyed, kept)
}

/// The transfer-validation rule: with fewer than two snapshots nothing is
/// validated this cycle; with two or more, the transfer runs from the
/// second-most-recent snapshot (the base) to the most recent one.
pub fn transfer_pair(snaps: &Vec<String>) -> (r: Option<(String, String)>)
    ensures
        r is None <==> snaps@.len() < 2,
        r matches Some(pair) ==> pair.0@ == snaps@[snaps@.len() - 2]@ && pair.1@ == snaps@[snaps@.len()
            - 1]@,
{
    if snaps.len() < 2 {
        None
    } else {
        let base = snaps[snaps.len() - 2].clone();
        let newest = snaps[snaps.len() - 1].clone();
        Some((base, newest))
    }
}

/// The snapshot name of one backup cycle: `backup-` followed by the
/// wall-clock seconds at which the cycle started, so every dataset
/// snapshotted in the cycle shares the name.  The name never holds `@`
/// or `/`, so it is always a valid snapshot name.
pub fn cycle_snapshot_name(seconds: u64) -> (r: String)
    ensures
        r@ == "backup-"@ + dec_chars(seconds as int),
        valid_snapshot_name(r@),
{
    proof {
        reveal_strlit("backup-");
    }
    let mut s = String::new();
    s.append("backup-");
    let digits = dec_string(seconds);
    s.append(digits.as_str());
    proof {
        assert(s@ =~= "backup-"@ + dec_chars(seconds as int));
        assert forall|i: int| 0 <= i < s@.len() implies s@[i] != '@' && s@[i] != '/' by {
            if i >= 7 {
                assert(is_dec_char(dec_chars(seconds as int)[i - 7]));
            }
        }
        assert(!s@.contains('@'));
        assert(!s@.contains('/'));
    }
    s
}

/// Cycles that start at different seconds never share a snapshot name:
/// the decimal rendering of the seconds is injective, and the fixed
/// prefix adds nothing.  Cycle names therefore never collide across
/// cycles, whose start times strictly increase.
pub proof fn lemma_cycle_names_never_collide(a: u64, b: u64)
    requires
        a != b,
    ensures
        "backup-"@ + dec_chars(a as int) != "backup-"@ + dec_chars(b as int),
{
    lemma_dec_chars_value(a as int);
    lemma_dec_chars_value(b as int);
    let p = "backup-"@;
    let na = p + dec_chars(a as int);
    let nb = p + dec_chars(b as int);
    if na == nb {
        assert(dec_chars(a as int) =~= na.skip(p.len() as int));
        assert(dec_chars(b as int) =~= nb.skip(p.len() as int));
        assert(dec_chars(a as int) == dec_chars(b as int));
    }
}

} // verus!
