//! Verified text utilities.
//!
//! Error messages and classification predicates are stated over character
//! sequences, so the library carries its own verified equality, substring
//! search, decimal formatting and whitespace classification.

use vstd::prelude::*;
use vstd::string::*;

verus! {

/// Whether `c` has the Unicode `White_Space` property, the classification
/// `str::trim` and `char::is_whitespace` use.
pub open spec fn is_ws_char(c: char) -> bool {
    let u = c as u32;
    (0x09 <= u && u <= 0x0D) || u == 0x20 || u == 0x85 || u == 0xA0 || u == 0x1680 || (0x2000 <= u
        && u <= 0x200A) || u == 0x2028 || u == 0x2029 || u == 0x202F || u == 0x205F || u == 0x3000
}

/// Whether `s` consists of whitespace alone (an empty `s` qualifies).
pub open spec fn is_ws_only(s: Seq<char>) -> bool {
    forall|i: int| 0 <= i < s.len() ==> is_ws_char(s[i])
}

/// Whether `c` has the Unicode `White_Space` property.
pub fn is_whitespace_char(c: char) -> (r: bool)
    ensures
        r == is_ws_char(c),
{
    let u = c as u32;
    (0x09 <= u && u <= 0x0D) || u == 0x20 || u == 0x85 || u == 0xA0 || u == 0x1680 || (0x2000 <= u
        && u <= 0x200A) || u == 0x2028 || u == 0x2029 || u == 0x202F || u == 0x205F || u == 0x3000
}

/// Whether `s` consists of whitespace alone.
pub fn is_blank(s: &str) -> (r: bool)
    ensures
        r == is_ws_only(s@),
{
    let len = s.unicode_len();
    let mut i: usize = 0;
    while i < len
        invariant
            i <= len,
            len == s@.len(),
            forall|j: int| 0 <= j < i ==> is_ws_char(s@[j]),
        decreases len - i,
    {
        if !is_whitespace_char(s.get_char(i)) {
            return false;
        }
        i = i + 1;
    }
    true
}

/// Character-for-character equality of two string slices.
pub fn str_eq(a: &str, b: &str) -> (r: bool)
    ensures
        r == (a@ == b@),
{
    let alen = a.unicode_len();
    let blen = b.unicode_len();
    if alen != blen {
        return false;
    }
    let mut i: usize = 0;
    while i < alen
        invariant
            i <= alen,
            alen == a@.len(),
            alen == b@.len(),
            forall|j: int| 0 <= j < i ==> a@[j] == b@[j],
        decreases alen - i,
    {
        if a.get_char(i) != b.get_char(i) {
            return false;
        }
        i = i + 1;
    }
    proof {
        assert(a@ =~= b@);
    }
    true
}

/// Whether `needle` occurs as a contiguous subsequence of `hay`.
pub open spec fn seq_contains(hay: Seq<char>, needle: Seq<char>) -> bool {
    exists|i: int|
        0 <= i && i + needle.len() <= hay.len() && #[trigger] hay.subrange(
            i,
            i + needle.len() as int,
        ) == needle
}

/// Substring search: whether `needle` occurs inside `hay`.
pub fn str_contains(hay: &str, needle: &str) -> (r: bool)
    ensures
        r == seq_contains(hay@, needle@),
{
    let hlen = hay.unicode_len();
    let nlen = needle.unicode_len();
    if nlen > hlen {
        return false;
    }
    if nlen == 0 {
        proof {
            assert(hay@.subrange(0, 0 + needle@.len() as int) =~= needle@);
        }
        return true;
    }
    let mut i: usize = 0;
    while i <= hlen - nlen
        invariant
            0 < nlen <= hlen,
            hlen == hay@.len(),
            nlen == needle@.len(),
            i <= hlen - nlen + 1,
            forall|k: int|
                0 <= k < i ==> #[trigger] hay@.subrange(k, k + needle@.len() as int) != needle@,
        decreases hlen - nlen + 1 - i,
    {
        let mut j: usize = 0;
        let mut mismatch = false;
        while j < nlen
            invariant
                i + nlen <= hlen,
                hlen == hay@.len(),
                nlen == needle@.len(),
                j <= nlen,
                !mismatch ==> forall|m: int| 0 <= m < j ==> hay@[i + m] == needle@[m],
                mismatch ==> hay@.subrange(i as int, i + needle@.len() as int) != needle@,
            decreases nlen - j,
        {
            if hay.get_char(i + j) != needle.get_char(j) {
                proof {
                    assert(hay@.subrange(i as int, i + needle@.len() as int)[j as int] == hay@[i
                        + j]);
                }
                mismatch = true;
                j = nlen;
            } else {
                j = j + 1;
            }
        }
        if !mismatch {
            proof {
                assert(hay@.subrange(i as int, i + needle@.len() as int) =~= needle@);
            }
            return true;
        }
        i = i + 1;
    }
    false
}

/// The decimal digit character for `d`.
pub open spec fn digit_char(d: nat) -> char {
    if d == 0 {
        '0'
    } else if d == 1 {
        '1'
    } else if d == 2 {
        '2'
    } else if d == 3 {
        '3'
    } else if d == 4 {
        '4'
    } else if d == 5 {
        '5'
    } else if d == 6 {
        '6'
    } else if d == 7 {
        '7'
    } else if d == 8 {
        '8'
    } else {
        '9'
    }
}

/// The decimal rendering of `n`, without sign or padding.
pub open spec fn dec_of(n: nat) -> Seq<char>
    decreases n,
{
    if n < 10 {
        seq![digit_char(n)]
    } else {
        dec_of(n / 10) + seq![digit_char(n % 10)]
    }
}

/// The decimal rendering of a signed value.
pub open spec fn dec_of_int(n: int) -> Seq<char> {
    if n >= 0 {
        dec_of(n as nat)
    } else {
        seq!['-'] + dec_of((-n) as nat)
    }
}

fn digit_str(d: u64) -> (r: &'static str)
    requires
        d < 10,
    ensures
        r@ == seq![digit_char(d as nat)],
{
    if d == 0 {
        let s = "0";
        proof {
            reveal_strlit("0");
            assert(s@ =~= seq![digit_char(0)]);
        }
        s
    } else if d == 1 {
        let s = "1";
        proof {
            reveal_strlit("1");
            assert(s@ =~= seq![digit_char(1)]);
        }
        s
    } else if d == 2 {
        let s = "2";
        proof {
            reveal_strlit("2");
            assert(s@ =~= seq![digit_char(2)]);
        }
        s
    } else if d == 3 {
        let s = "3";
        proof {
            reveal_strlit("3");
            assert(s@ =~= seq![digit_char(3)]);
        }
        s
    } else if d == 4 {
        let s = "4";
        proof {
            reveal_strlit("4");
            assert(s@ =~= seq![digit_char(4)]);
        }
        s
    } else if d == 5 {
        let s = "5";
        proof {
            reveal_strlit("5");
            assert(s@ =~= seq![digit_char(5)]);
        }
        s
    } else if d == 6 {
        let s = "6";
        proof {
            reveal_strlit("6");
            assert(s@ =~= seq![digit_char(6)]);
        }
        s
    } else if d == 7 {
        let s = "7";
        proof {
            reveal_strlit("7");
            assert(s@ =~= seq![digit_char(7)]);
        }
        s
    } else if d == 8 {
        let s = "8";
        proof {
            reveal_strlit("8");
            assert(s@ =~= seq![digit_char(8)]);
        }
        s
    } else {
        let s = "9";
        proof {
            reveal_strlit("9");
            assert(s@ =~= seq![digit_char(9)]);
        }
        s
    }
}

/// The Unicode-lowercased form of `s`. Lowercasing is a function of the
/// characters alone, so the result carries a name rather than a definition.
pub uninterp spec fn lower_of(s: Seq<char>) -> Seq<char>;

/// Relies on `str::to_lowercase`: the result depends on the characters alone.
#[verifier::external_body]
pub(crate) fn lowercase(s: &str) -> (r: String)
    ensures
        r@ == lower_of(s@),
{
    s.to_lowercase()
}

/// Render `n` in decimal.
pub fn u64_to_dec(n: u64) -> (r: String)
    ensures
        r@ == dec_of(n as nat),
    decreases n,
{
    if n < 10 {
        String::from_str(digit_str(n))
    } else {
        proof {
            assert(n / 10 < n) by (nonlinear_arith)
                requires
                    n >= 10,
            ;
        }
        let mut s = u64_to_dec(n / 10);
        s.append(digit_str(n % 10));
        s
    }
}

/// Render a `usize` in decimal.
pub fn usize_to_dec(n: usize) -> (r: String)
    ensures
        r@ == dec_of(n as nat),
{
    u64_to_dec(n as u64)
}

/// Render a signed value in decimal, with a leading minus sign if negative.
pub fn i64_to_dec(n: i64) -> (r: String)
    ensures
        r@ == dec_of_int(n as int),
{
    if n >= 0 {
        u64_to_dec(n as u64)
    } else {
        let magnitude: u64 = ((-(n + 1)) as u64) + 1;
        proof {
            assert(magnitude as int == -(n as int));
        }
        let mut s = String::from_str("-");
        proof {
            reveal_strlit("-");
            assert(s@ =~= seq!['-']);
        }
        s.append(u64_to_dec(magnitude).as_str());
        s
    }
}

} // verus!
