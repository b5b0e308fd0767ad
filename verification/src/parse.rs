//! Parsing of engine output: line splitting, trailing-newline trimming,
//! and extraction of a snapshot name from a `dataset@snapshot` listing
//! line.

use vstd::prelude::*;
use crate::names::has_char;

verus! {

/// The index of the first occurrence of `c` in `s`, or `s.len()` when
/// `c` does not occur.
pub open spec fn first_index_of(s: Seq<char>, c: char) -> int
    decreases s.len(),
{
    if s.len() == 0 {
        0
    } else if s[0] == c {
        0
    } else {
        1 + first_index_of(s.drop_first(), c)
    }
}

/// The characterization of `first_index_of`: it lies in `[0, len]`, it
/// points at `c` when `c` occurs, and nothing before it is `c`.
pub proof fn lemma_first_index_of(s: Seq<char>, c: char)
    ensures
        0 <= first_index_of(s, c) <= s.len(),
        first_index_of(s, c) < s.len() ==> s[first_index_of(s, c)] == c,
        forall|j: int| 0 <= j < first_index_of(s, c) ==> s[j] != c,
        first_index_of(s, c) == s.len() ==> !has_char(s, c),
    decreases s.len(),
{
    if s.len() == 0 {
    } else if s[0] == c {
    } else {
        lemma_first_index_of(s.drop_first(), c);
        let k = first_index_of(s, c);
        assert forall|j: int| 0 <= j < k implies s[j] != c by {
            if j > 0 {
                assert(s.drop_first()[j - 1] != c);
            }
        }
        if k == s.len() {
            assert(!has_char(s, c)) by {
                if has_char(s, c) {
                    let i = choose|i: int| 0 <= i < s.len() && s[i] == c;
                }
            }
        }
    }
}

/// The index of the first occurrence of `c` in `s`, or the length of `s`
/// when `c` does not occur.
pub fn index_of_char(s: &str, c: char) -> (r: usize)
    ensures
        r as int == first_index_of(s@, c),
{
    proof {
        lemma_first_index_of(s@, c);
    }
    let n = s.unicode_len();
    let mut i: usize = 0;
    while i < n
        invariant
            n == s@.len(),
            i <= n,
            forall|j: int| 0 <= j < i ==> s@[j] != c,
            0 <= first_index_of(s@, c) <= s@.len(),
            first_index_of(s@, c) < s@.len() ==> s@[first_index_of(s@, c)] == c,
            forall|j: int| 0 <= j < first_index_of(s@, c) ==> s@[j] != c,
            first_index_of(s@, c) == s@.len() ==> !has_char(s@, c),
        decreases n - i,
    {
        if s.get_char(i) == c {
            proof {
                let k = first_index_of(s@, c);
                if k < i {
                    assert(s@[k] != c);
                } else if k > i {
                    assert(s@[i as int] != c);
                }
            }
            return i;
        }
        i = i + 1;
    }
    proof {
        let k = first_index_of(s@, c);
        if k < s@.len() {
            assert(s@[k] != c);
        }
    }
    n
}

/// How often `c` occurs in `s`.
pub open spec fn count_char(s: Seq<char>, c: char) -> nat
    decreases s.len(),
{
    if s.len() == 0 {
        0
    } else {
        count_char(s.drop_first(), c) + if s[0] == c {
            1nat
        } else {
            0nat
        }
    }
}

/// No occurrences means a count of zero.
pub proof fn lemma_count_char_zero(s: Seq<char>, c: char)
    ensures
        count_char(s, c) == 0 <==> !has_char(s, c),
    decreases s.len(),
{
    if s.len() == 0 {
        assert(!has_char(s, c)) by {
            if has_char(s, c) {
                let i = choose|i: int| 0 <= i < s.len() && s[i] == c;
            }
        }
    } else {
        lemma_count_char_zero(s.drop_first(), c);
        if s[0] == c {
            assert(has_char(s, c));
        } else {
            assert(has_char(s, c) <==> has_char(s.drop_first(), c)) by {
                if has_char(s, c) {
                    let i = choose|i: int| 0 <= i < s.len() && s[i] == c;
                    assert(s.drop_first()[i - 1] == c);
                }
                if has_char(s.drop_first(), c) {
                    let i = choose|i: int|
                        0 <= i < s.drop_first().len() && s.drop_first()[i] == c;
                    assert(s[i + 1] == c);
                }
            }
        }
    }
}

/// The count decomposes at the first occurrence: past it there remain
/// `count - 1` occurrences, and before it none.
pub proof fn lemma_count_char_at_first(s: Seq<char>, c: char)
    ensures
        first_index_of(s, c) < s.len() ==> count_char(s, c) == 1 + count_char(
            s.skip(first_index_of(s, c) + 1),
            c,
        ),
        first_index_of(s, c) == s.len() ==> count_char(s, c) == 0,
    decreases s.len(),
{
    lemma_first_index_of(s, c);
    if s.len() == 0 {
    } else if s[0] == c {
        assert(s.skip(1) =~= s.drop_first());
    } else {
        lemma_count_char_at_first(s.drop_first(), c);
        let k = first_index_of(s, c);
        if k < s.len() {
            assert(s.skip(k + 1) =~= s.drop_first().skip(k));
        }
    }
}

/// `s` with every trailing newline removed.
pub open spec fn spec_trim_newlines(s: Seq<char>) -> Seq<char>
    decreases s.len(),
{
    if s.len() > 0 && s.last() == '\n' {
        spec_trim_newlines(s.drop_last())
    } else {
        s
    }
}

/// Remove every trailing newline, as the engine terminates its output
/// with one.
pub fn trim_newlines(s: &str) -> (r: String)
    ensures
        r@ == spec_trim_newlines(s@),
{
    let n = s.unicode_len();
    let mut end: usize = n;
    proof {
        assert(s@.take(n as int) =~= s@);
    }
    while end > 0 && s.get_char(end - 1) == '\n'
        invariant
            n == s@.len(),
            end <= n,
            spec_trim_newlines(s@) == spec_trim_newlines(s@.take(end as int)),
        decreases end,
    {
        proof {
            assert(s@.take(end as int).last() == s@[end - 1]);
            assert(s@.take(end as int).drop_last() =~= s@.take(end - 1));
        }
        end = end - 1;
    }
    let r = s.substring_char(0, end);
    proof {
        if end > 0 {
            assert(s@.take(end as int).last() == s@[end - 1]);
        }
        assert(spec_trim_newlines(s@.take(end as int)) == s@.take(end as int));
        assert(r@ =~= s@.take(end as int));
    }
    String::from_str(r)
}

/// The output split at newlines: every maximal newline-free run, with a
/// terminating newline producing no empty final piece.
pub open spec fn spec_lines(s: Seq<char>) -> Seq<Seq<char>>
    decreases s.len(),
{
    if s.len() == 0 {
        Seq::empty()
    } else {
        let k = first_index_of(s, '\n');
        if 0 <= k < s.len() {
            seq![s.take(k)] + spec_lines(s.skip(k + 1))
        } else {
            seq![s]
        }
    }
}

/// Split engine output into lines.
pub fn split_lines(s: &str) -> (r: Vec<String>)
    ensures
        r.deep_view() == spec_lines(s@),
    decreases s@.len(),
{
    proof {
        lemma_first_index_of(s@, '\n');
    }
    let n = s.unicode_len();
    if n == 0 {
        let r: Vec<String> = Vec::new();
        proof {
            assert(r.deep_view() =~~= spec_lines(s@));
        }
        return r;
    }
    let k = index_of_char(s, '\n');
    if k < n {
        let line = s.substring_char(0, k);
        let rest = s.substring_char(k + 1, n);
        proof {
            assert(rest@ =~= s@.skip(k + 1));
        }
        let mut r = split_lines(rest);
        r.insert(0, String::from_str(line));
        proof {
            assert(line@ =~= s@.take(k as int));
            assert(r.deep_view() =~~= spec_lines(s@));
        }
        r
    } else {
        let mut r: Vec<String> = Vec::new();
        r.push(String::from_str(s));
        proof {
            assert(r.deep_view() =~~= spec_lines(s@));
        }
        r
    }
}

/// The snapshot name within a listing line `dataset@snapshot`: what
/// follows the line's single `@`.
pub open spec fn spec_snapshot_suffix(line: Seq<char>) -> Seq<char> {
    line.skip(first_index_of(line, '@') + 1)
}

/// Whether a listing line is well-formed: it holds exactly one `@`.
pub open spec fn wf_snapshot_line(line: Seq<char>) -> bool {
    count_char(line, '@') == 1
}

/// Extract the snapshot name from one listing line, which must hold
/// exactly one `@`; anything else is unexpected engine output.
pub fn snapshot_name_of_line(line: &str) -> (r: Option<String>)
    ensures
        r is Some <==> wf_snapshot_line(line@),
        r matches Some(name) ==> name@ == spec_snapshot_suffix(line@),
{
    proof {
        lemma_first_index_of(line@, '@');
        lemma_count_char_at_first(line@, '@');
        lemma_count_char_zero(line@.skip(first_index_of(line@, '@') + 1), '@');
    }
    let n = line.unicode_len();
    let k = index_of_char(line, '@');
    if k == n {
        return None;
    }
    let suffix = line.substring_char(k + 1, n);
    proof {
        assert(suffix@ =~= line@.skip(k + 1));
    }
    if crate::names::contains_char(suffix, '@') {
        return None;
    }
    Some(String::from_str(suffix))
}

} // verus!
