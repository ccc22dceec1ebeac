//! Decimal text as it appears in kernel attribute files and in user input.

use vstd::prelude::*;

verus! {

/// An ASCII digit byte.
pub open spec fn is_digit(b: u8) -> bool {
    48 <= b && b <= 57
}

pub open spec fn all_digits(s: Seq<u8>) -> bool {
    forall|i: int| 0 <= i < s.len() ==> is_digit(#[trigger] s[i])
}

/// The number that a string of digits denotes (most significant first).
pub open spec fn digits_value(s: Seq<u8>) -> nat
    decreases s.len(),
{
    if s.len() == 0 {
        0
    } else {
        digits_value(s.drop_last()) * 10 + (s.last() - 48) as nat
    }
}

/// `s` with every trailing newline removed.
pub open spec fn without_newlines(s: Seq<u8>) -> Seq<u8>
    decreases s.len(),
{
    if s.len() > 0 && s.last() == 10 {
        without_newlines(s.drop_last())
    } else {
        s
    }
}

/// The value of a non-empty run of digits that fits in `u64`.
pub open spec fn decimal_u64(s: Seq<u8>) -> Option<u64> {
    if s.len() > 0 && all_digits(s) && digits_value(s) <= u64::MAX {
        Some(digits_value(s) as u64)
    } else {
        None
    }
}

/// The number held by an attribute file: digits, then any newlines.
pub open spec fn attribute_u64(s: Seq<u8>) -> Option<u64> {
    decimal_u64(without_newlines(s))
}

/// `t[p]` is a decimal point.
pub open spec fn is_point_at(t: Seq<u8>, p: int) -> bool {
    0 <= p < t.len() && t[p] == 46
}

/// The value of `t` read as digits, a point at `p`, then digits, rounded to
/// the nearest integer with halves rounded up.
pub open spec fn rounded_at(t: Seq<u8>, p: int) -> Option<u64> {
    let whole = t.subrange(0, p);
    let frac = t.subrange(p + 1, t.len() as int);
    let up: nat = if frac.len() > 0 && frac[0] >= 53 { 1 } else { 0 };
    if whole.len() > 0 && all_digits(whole) && all_digits(frac) && digits_value(whole) + up <= u64::MAX {
        Some((digits_value(whole) + up) as u64)
    } else {
        None
    }
}

/// The number in an attribute file that may hold a fraction, rounded to the
/// nearest integer (halves up): digits, optionally a point and more digits,
/// then any newlines.
pub open spec fn attribute_rounded(s: Seq<u8>) -> Option<u64> {
    let t = without_newlines(s);
    if exists|p: int| is_point_at(t, p) {
        rounded_at(t, choose|p: int| is_point_at(t, p))
    } else {
        decimal_u64(t)
    }
}

/// The value of text in the form Rust's `i32` parser takes: an optional sign,
/// then at least one digit, in range.
pub open spec fn decimal_i32(s: Seq<u8>) -> Option<i32> {
    if s.len() > 0 && s[0] == 45 {
        let m = s.subrange(1, s.len() as int);
        if m.len() > 0 && all_digits(m) && digits_value(m) <= 0x8000_0000 {
            Some((0 - digits_value(m)) as i32)
        } else {
            None
        }
    } else {
        let m = if s.len() > 0 && s[0] == 43 {
            s.subrange(1, s.len() as int)
        } else {
            s
        };
        if m.len() > 0 && all_digits(m) && digits_value(m) <= 0x7fff_ffff {
            Some(digits_value(m) as i32)
        } else {
            None
        }
    }
}

proof fn lemma_digits_value_grows(s: Seq<u8>, i: int, j: int)
    requires
        0 <= i <= j <= s.len(),
    ensures
        digits_value(s.subrange(0, i)) <= digits_value(s.subrange(0, j)),
    decreases j - i,
{
    if i < j {
        lemma_digits_value_grows(s, i, j - 1);
        assert(s.subrange(0, j).drop_last() =~= s.subrange(0, j - 1));
    }
}

/// Length of `b` once its trailing newlines are cut off.
pub fn trimmed_len(b: &[u8]) -> (n: usize)
    ensures
        n <= b@.len(),
        b@.subrange(0, n as int) == without_newlines(b@),
{
    let mut n: usize = b.len();
    assert(b@.subrange(0, n as int) =~= b@);
    while n > 0 && b[n - 1] == 10
        invariant
            n <= b@.len(),
            without_newlines(b@.subrange(0, n as int)) == without_newlines(b@),
        decreases n,
    {
        assert(b@.subrange(0, n as int).drop_last() =~= b@.subrange(0, n - 1));
        n = n - 1;
    }
    n
}

/// Reads `b[start..end]` as a run of digits.
fn digits_in(b: &[u8], start: usize, end: usize) -> (r: Option<u64>)
    requires
        start <= end <= b@.len(),
    ensures
        r == decimal_u64(b@.subrange(start as int, end as int)),
{
    let ghost s = b@.subrange(start as int, end as int);
    if start == end {
        return None;
    }
    let mut v: u64 = 0;
    let mut i: usize = start;
    while i < end
        invariant
            start <= i <= end <= b@.len(),
            s == b@.subrange(start as int, end as int),
            all_digits(s.subrange(0, i - start)),
            v as nat == digits_value(s.subrange(0, i - start)),
        decreases end - i,
    {
        let d = b[i];
        if d < 48 || d > 57 {
            assert(s[i - start] == d);
            return None;
        }
        let w: u128 = v as u128 * 10 + (d - 48) as u128;
        proof {
            let k = i - start;
            assert(s.subrange(0, k + 1).drop_last() =~= s.subrange(0, k));
            assert(s.subrange(0, k + 1).last() == d);
        }
        if w > u64::MAX as u128 {
            proof {
                lemma_digits_value_grows(s, i + 1 - start, s.len() as int);
                assert(s.subrange(0, s.len() as int) =~= s);
            }
            return None;
        }
        v = w as u64;
        i = i + 1;
        proof {
            let k = i - start;
            assert forall|j: int| 0 <= j < k implies is_digit(#[trigger] s.subrange(0, k)[j]) by {
                if j < k - 1 {
                    assert(s.subrange(0, k)[j] == s.subrange(0, k - 1)[j]);
                }
            }
        }
    }
    assert(s.subrange(0, end - start) =~= s);
    Some(v)
}

/// Reads the number in an attribute file's text: digits, then newlines.
pub fn parse_attribute(b: &[u8]) -> (r: Option<u64>)
    ensures
        r == attribute_u64(b@),
{
    let n = trimmed_len(b);
    digits_in(b, 0, n)
}

/// Whether `b[start..end]` holds digits only.
fn only_digits(b: &[u8], start: usize, end: usize) -> (r: bool)
    requires
        start <= end <= b@.len(),
    ensures
        r == all_digits(b@.subrange(start as int, end as int)),
{
    let mut i: usize = start;
    while i < end
        invariant
            start <= i <= end <= b@.len(),
            all_digits(b@.subrange(start as int, i as int)),
        decreases end - i,
    {
        if b[i] < 48 || b[i] > 57 {
            assert(b@.subrange(start as int, end as int)[i - start] == b[i as int]);
            return false;
        }
        i = i + 1;
        assert forall|j: int| 0 <= j < i - start implies is_digit(#[trigger] b@.subrange(start as int, i as int)[j]) by {
            if j < i - 1 - start {
                assert(b@.subrange(start as int, i as int)[j] == b@.subrange(start as int, i - 1)[j]);
            }
        }
    }
    true
}

/// Reads the number in an attribute file that may hold a fraction, rounded
/// to the nearest integer with halves rounded up.
pub fn parse_attribute_rounded(b: &[u8]) -> (r: Option<u64>)
    ensures
        r == attribute_rounded(b@),
{
    let n = trimmed_len(b);
    let ghost t = b@.subrange(0, n as int);
    let mut p: usize = 0;
    while p < n && b[p] != 46
        invariant
            p <= n <= b@.len(),
            t == b@.subrange(0, n as int),
            forall|j: int| 0 <= j < p ==> t[j] != 46,
        decreases n - p,
    {
        p = p + 1;
    }
    if p == n {
        assert(!exists|q: int| is_point_at(t, q));
        return digits_in(b, 0, n);
    }
    assert(is_point_at(t, p as int));
    let whole = digits_in(b, 0, p);
    let frac_ok = only_digits(b, p + 1, n);
    assert(b@.subrange(0, p as int) =~= t.subrange(0, p as int));
    assert(b@.subrange(p + 1, n as int) =~= t.subrange(p + 1, t.len() as int));
    let r = match whole {
        Some(w) => {
            if !frac_ok {
                None
            } else {
                let up: u64 = if p + 1 < n && b[p + 1] >= 53 { 1 } else { 0 };
                if w == u64::MAX && up == 1 {
                    None
                } else {
                    Some(w + up)
                }
            }
        },
        None => None,
    };
    proof {
        let q = choose|q: int| is_point_at(t, q);
        if q != p {
            assert(q > p);
            assert(t.subrange(0, q)[p as int] == 46);
            assert(!all_digits(t.subrange(0, q)));
            if r is Some {
                assert(all_digits(t.subrange(p + 1, t.len() as int)));
                assert(t.subrange(p + 1, t.len() as int)[q - p - 1] == 46);
            }
        }
    }
    r
}

/// Reads text as an `i32`, the way Rust's integer parser does.
pub fn parse_i32(b: &[u8]) -> (r: Option<i32>)
    ensures
        r == decimal_i32(b@),
{
    let len = b.len();
    if len > 0 && b[0] == 45 {
        let m = digits_in(b, 1, len);
        match m {
            Some(v) => {
                if v <= 0x8000_0000 {
                    Some((0 - v as i64) as i32)
                } else {
                    None
                }
            },
            None => None,
        }
    } else {
        let start: usize = if len > 0 && b[0] == 43 {
            1
        } else {
            0
        };
        assert(b@.subrange(0, len as int) =~= b@);
        match digits_in(b, start, len) {
            Some(v) => {
                if v <= 0x7fff_ffff {
                    Some(v as i32)
                } else {
                    None
                }
            },
            None => None,
        }
    }
}

} // verus!
