//! Fixed-width decimal and hexadecimal rendering for dataset ids, fan-out
//! directory names and cycle snapshot names.

use vstd::prelude::*;

verus! {

/// The character for the decimal digit `d`.
pub open spec fn dec_char(d: int) -> char {
    if d == 0 {
        '0'
    } else if d == 1 {
        '1'
    } else if d == 2 {
        '2'
    } else if d == 3 {
        '3'
    } else if d == 4 {
        '4'
    } else if d == 5 {
        '5'
    } else if d == 6 {
        '6'
    } else if d == 7 {
        '7'
    } else if d == 8 {
        '8'
    } else {
        '9'
    }
}

/// The character for the hexadecimal digit `d`, upper case.
pub open spec fn hex_char(d: int) -> char {
    if d < 10 {
        dec_char(d)
    } else if d == 10 {
        'A'
    } else if d == 11 {
        'B'
    } else if d == 12 {
        'C'
    } else if d == 13 {
        'D'
    } else if d == 14 {
        'E'
    } else {
        'F'
    }
}

/// Whether `c` is a decimal digit character.
pub open spec fn is_dec_char(c: char) -> bool {
    c == '0' || c == '1' || c == '2' || c == '3' || c == '4' || c == '5' || c == '6' || c == '7'
        || c == '8' || c == '9'
}

/// Whether `c` is an upper-case hexadecimal digit character.
pub open spec fn is_hex_char(c: char) -> bool {
    is_dec_char(c) || c == 'A' || c == 'B' || c == 'C' || c == 'D' || c == 'E' || c == 'F'
}

/// A one-character string slice for the decimal digit `d`.
fn dec_digit_str(d: u64) -> (r: &'static str)
    requires
        d < 10,
    ensures
        r@ == seq![dec_char(d as int)],
{
    proof {
        reveal_strlit("0");
        reveal_strlit("1");
        reveal_strlit("2");
        reveal_strlit("3");
        reveal_strlit("4");
        reveal_strlit("5");
        reveal_strlit("6");
        reveal_strlit("7");
        reveal_strlit("8");
        reveal_strlit("9");
    }
    let r = match d {
        0 => "0",
        1 => "1",
        2 => "2",
        3 => "3",
        4 => "4",
        5 => "5",
        6 => "6",
        7 => "7",
        8 => "8",
        _ => "9",
    };
    proof {
        assert(r@ =~= seq![dec_char(d as int)]);
    }
    r
}

/// A one-character string slice for the hexadecimal digit `d`.
fn hex_digit_str(d: u64) -> (r: &'static str)
    requires
        d < 16,
    ensures
        r@ == seq![hex_char(d as int)],
{
    if d < 10 {
        dec_digit_str(d)
    } else {
        proof {
            reveal_strlit("A");
            reveal_strlit("B");
            reveal_strlit("C");
            reveal_strlit("D");
            reveal_strlit("E");
            reveal_strlit("F");
        }
        let r = match d {
            10 => "A",
            11 => "B",
            12 => "C",
            13 => "D",
            14 => "E",
            _ => "F",
        };
        proof {
            assert(r@ =~= seq![hex_char(d as int)]);
        }
        r
    }
}

/// The four characters of a dataset id, zero padded: ids run below 10000.
pub open spec fn id4_chars(id: int) -> Seq<char> {
    seq![
        dec_char(id / 1000 % 10),
        dec_char(id / 100 % 10),
        dec_char(id / 10 % 10),
        dec_char(id % 10),
    ]
}

/// Render a dataset id as exactly four decimal digits.
pub fn id4_string(id: u64) -> (r: String)
    requires
        id < 10000,
    ensures
        r@ == id4_chars(id as int),
        r@.len() == 4,
        forall|i: int| 0 <= i < r@.len() ==> is_dec_char(r@[i]),
{
    let mut s = String::new();
    s.append(dec_digit_str(id / 1000 % 10));
    s.append(dec_digit_str(id / 100 % 10));
    s.append(dec_digit_str(id / 10 % 10));
    s.append(dec_digit_str(id % 10));
    proof {
        assert(s@ =~= id4_chars(id as int));
    }
    s
}

/// Nibble `i` of `v`, counted from the most significant of sixteen.
pub open spec fn nibble(v: u64, i: int) -> u64 {
    (v >> ((4 * (15 - i)) as u64)) & 0xf
}

/// The sixteen hexadecimal characters of a 64-bit value, most significant
/// first.
pub open spec fn hex16_chars(v: u64) -> Seq<char> {
    Seq::new(16, |i: int| hex_char(nibble(v, i) as int))
}

/// Render a 64-bit value as exactly sixteen upper-case hexadecimal digits.
pub fn hex16_string(v: u64) -> (r: String)
    ensures
        r@ == hex16_chars(v),
        r@.len() == 16,
        forall|i: int| 0 <= i < r@.len() ==> is_hex_char(r@[i]),
{
    let mut s = String::new();
    let mut k: usize = 0;
    while k < 16
        invariant
            k <= 16,
            s@ == hex16_chars(v).take(k as int),
        decreases 16 - k,
    {
        let shift: u64 = 4 * (15 - k as u64);
        let d: u64 = (v >> shift) & 0xf;
        proof {
            assert(d < 16) by (bit_vector)
                requires
                    d == (v >> shift) & 0xf,
            ;
        }
        s.append(hex_digit_str(d));
        proof {
            assert(nibble(v, k as int) == d);
            assert(s@ =~= hex16_chars(v).take(k as int + 1));
        }
        k = k + 1;
    }
    proof {
        assert(s@ =~= hex16_chars(v));
        assert forall|i: int| 0 <= i < s@.len() implies is_hex_char(s@[i]) by {
            assert(s@[i] == hex_char(nibble(v, i) as int));
        }
    }
    s
}

/// The four hexadecimal characters of a fan-out directory name; the draw
/// is below 16, so three leading zeroes pad it.
pub open spec fn hex4_chars(v: int) -> Seq<char> {
    seq!['0', '0', '0', hex_char(v)]
}

/// Render a fan-out level draw (below 16) as exactly four hexadecimal
/// digits.
pub fn hex4_string(v: u64) -> (r: String)
    requires
        v < 16,
    ensures
        r@ == hex4_chars(v as int),
        r@.len() == 4,
        forall|i: int| 0 <= i < r@.len() ==> is_hex_char(r@[i]),
{
    let mut s = String::new();
    s.append(dec_digit_str(0));
    s.append(dec_digit_str(0));
    s.append(dec_digit_str(0));
    s.append(hex_digit_str(v));
    proof {
        assert(s@ =~= hex4_chars(v as int));
    }
    s
}

/// The decimal digits of `v`, most significant first, without leading
/// zeroes (a lone zero for zero).
pub open spec fn dec_chars(v: int) -> Seq<char>
    decreases v,
{
    if v < 10 {
        seq![dec_char(v)]
    } else {
        dec_chars(v / 10).push(dec_char(v % 10))
    }
}

/// Render a 64-bit value in decimal.
pub fn dec_string(v: u64) -> (r: String)
    ensures
        r@ == dec_chars(v as int),
        forall|i: int| 0 <= i < r@.len() ==> is_dec_char(r@[i]),
    decreases v,
{
    let r = if v < 10 {
        let mut s = String::new();
        s.append(dec_digit_str(v));
        s
    } else {
        let mut s = dec_string(v / 10);
        s.append(dec_digit_str(v % 10));
        s
    };
    proof {
        assert(r@ =~= dec_chars(v as int));
        lemma_dec_chars_are_digits(v as int);
    }
    r
}

/// The numeric value of a decimal digit character.
pub open spec fn digit_val(c: char) -> int {
    if c == '0' {
        0
    } else if c == '1' {
        1
    } else if c == '2' {
        2
    } else if c == '3' {
        3
    } else if c == '4' {
        4
    } else if c == '5' {
        5
    } else if c == '6' {
        6
    } else if c == '7' {
        7
    } else if c == '8' {
        8
    } else {
        9
    }
}

/// The number a digit string denotes, most significant digit first.
pub open spec fn dec_value(s: Seq<char>) -> int
    decreases s.len(),
{
    if s.len() == 0 {
        0
    } else {
        dec_value(s.drop_last()) * 10 + digit_val(s.last())
    }
}

/// A decimal rendering denotes the value it was rendered from, so the
/// rendering is injective: different values never share a rendering.
pub proof fn lemma_dec_chars_value(v: int)
    requires
        v >= 0,
    ensures
        dec_value(dec_chars(v)) == v,
    decreases v,
{
    let s = dec_chars(v);
    assert(s.len() > 0);
    assert(dec_value(s) == dec_value(s.drop_last()) * 10 + digit_val(s.last()));
    if v < 10 {
        assert(s =~= seq![dec_char(v)]);
        assert(s.drop_last() =~= Seq::<char>::empty());
        assert(dec_value(s.drop_last()) == 0);
        assert(s.last() == dec_char(v));
        assert(digit_val(dec_char(v)) == v);
    } else {
        lemma_dec_chars_value(v / 10);
        assert(s.drop_last() =~= dec_chars(v / 10));
        assert(dec_value(s.drop_last()) == v / 10);
        assert(s.last() == dec_char(v % 10));
        assert(digit_val(dec_char(v % 10)) == v % 10);
        assert((v / 10) * 10 + v % 10 == v) by {
            vstd::arithmetic::div_mod::lemma_fundamental_div_mod(v, 10);
        }
    }
}

/// Every character of a decimal rendering is a digit.
proof fn lemma_dec_chars_are_digits(v: int)
    ensures
        forall|i: int| 0 <= i < dec_chars(v).len() ==> is_dec_char(dec_chars(v)[i]),
    decreases v,
{
    if v >= 10 {
        lemma_dec_chars_are_digits(v / 10);
    }
    assert forall|i: int| 0 <= i < dec_chars(v).len() implies is_dec_char(dec_chars(v)[i]) by {
        if v >= 10 {
            if i < dec_chars(v / 10).len() {
                assert(dec_chars(v)[i] == dec_chars(v / 10)[i]);
            } else {
                assert(dec_chars(v)[i] == dec_char(v % 10));
            }
        }
    }
}

} // verus!
