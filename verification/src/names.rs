//! Character-level helpers shared by the naming and parsing code: character
//! search, substring search, and fixed-width rendering of numbers.

use vstd::prelude::*;

verus! {

/// True when `c` occurs somewhere in the character sequence `s`.
pub open spec fn has_char(s: Seq<char>, c: char) -> bool {
    s.contains(c)
}

/// Whether `c` occurs in `s`.
pub fn contains_char(s: &str, c: char) -> (r: bool)
    ensures
        r == has_char(s@, c),
{
    let n = s.unicode_len();
    let mut i: usize = 0;
    while i < n
        invariant
            n == s@.len(),
            i <= n,
            forall|j: int| 0 <= j < i ==> s@[j] != c,
        decreases n - i,
    {
        if s.get_char(i) == c {
            assert(s@[i as int] == c);
            return true;
        }
        i = i + 1;
    }
    false
}

/// A dataset name is acceptable when it holds no snapshot delimiter `@`.
pub open spec fn valid_dataset_name(s: Seq<char>) -> bool {
    !has_char(s, '@')
}

/// A snapshot name is acceptable when it holds neither the delimiter `@`
/// nor a path separator `/`.
pub open spec fn valid_snapshot_name(s: Seq<char>) -> bool {
    !has_char(s, '@') && !has_char(s, '/')
}

/// Reject a dataset name that contains `@`, before it can reach any
/// engine invocation.
pub fn validate_dataset_name(n: &str) -> (r: bool)
    ensures
        r == valid_dataset_name(n@),
{
    !contains_char(n, '@')
}

/// Reject a snapshot name that contains `@` or `/`, before it can reach
/// any engine invocation.
pub fn validate_snapshot_name(n: &str) -> (r: bool)
    ensures
        r == valid_snapshot_name(n@),
{
    !contains_char(n, '@') && !contains_char(n, '/')
}

/// A character occurs in a concatenation exactly when it occurs in one of
/// the parts.
pub proof fn lemma_has_char_concat(a: Seq<char>, b: Seq<char>, c: char)
    ensures
        has_char(a + b, c) <==> has_char(a, c) || has_char(b, c),
{
    if has_char(a, c) {
        let i = choose|i: int| 0 <= i < a.len() && a[i] == c;
        assert((a + b)[i] == c);
    }
    if has_char(b, c) {
        let i = choose|i: int| 0 <= i < b.len() && b[i] == c;
        assert((a + b)[a.len() + i] == c);
    }
    if has_char(a + b, c) {
        let i = choose|i: int| 0 <= i < (a + b).len() && (a + b)[i] == c;
        if i < a.len() {
            assert(a[i] == c);
        } else {
            assert(b[i - a.len()] == c);
        }
    }
}

/// The full name of a snapshot: `dataset@snapshot`.
pub open spec fn snapshot_full_chars(dataset: Seq<char>, snap: Seq<char>) -> Seq<char> {
    dataset + seq!['@'] + snap
}

/// Join a dataset name and a snapshot name with the `@` delimiter.
pub fn snapshot_full_name(dataset: &str, snap: &str) -> (r: String)
    ensures
        r@ == snapshot_full_chars(dataset@, snap@),
{
    proof {
        reveal_strlit("@");
    }
    let mut s = String::new();
    s.append(dataset);
    s.append("@");
    s.append(snap);
    proof {
        assert(s@ =~= snapshot_full_chars(dataset@, snap@));
    }
    s
}

/// Append `part` to `base` below a path separator: `base/part`.
pub fn child_dataset_name(base: &str, part: &str) -> (r: String)
    ensures
        r@ == base@ + seq!['/'] + part@,
{
    proof {
        reveal_strlit("/");
    }
    let mut s = String::new();
    s.append(base);
    s.append("/");
    s.append(part);
    proof {
        assert(s@ =~= base@ + seq!['/'] + part@);
    }
    s
}

/// The seed container under a pool: `pool/seed`.
pub fn seed_root_name(pool: &str) -> (r: String)
    ensures
        r@ == pool@ + seq!['/', 's', 'e', 'e', 'd'],
{
    proof {
        reveal_strlit("/seed");
    }
    let mut s = String::new();
    s.append(pool);
    s.append("/seed");
    proof {
        assert(s@ =~= pool@ + seq!['/', 's', 'e', 'e', 'd']);
    }
    s
}

/// The plant container under a pool: `pool/plant`.
pub fn plant_root_name(pool: &str) -> (r: String)
    ensures
        r@ == pool@ + seq!['/', 'p', 'l', 'a', 'n', 't'],
{
    proof {
        reveal_strlit("/plant");
    }
    let mut s = String::new();
    s.append(pool);
    s.append("/plant");
    proof {
        assert(s@ =~= pool@ + seq!['/', 'p', 'l', 'a', 'n', 't']);
    }
    s
}

} // verus!
