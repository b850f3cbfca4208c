//! The memory-limit argument: a decimal count of bytes with an optional
//! `K`, `M` or `G` suffix, surrounded by optional whitespace. Parsed here
//! into bytes; every other shape, and every value that does not fit in 64
//! bits, is rejected.

use vstd::prelude::*;
use vstd::string::*;

verus! {

/// The characters `str::trim` removes: the Unicode whitespace set.
pub open spec fn is_space_char(c: char) -> bool {
    let u = c as int;
    ||| u == 0x20
    ||| u == 0x09
    ||| u == 0x0A
    ||| u == 0x0B
    ||| u == 0x0C
    ||| u == 0x0D
    ||| u == 0x85
    ||| u == 0xA0
    ||| u == 0x1680
    ||| (0x2000 <= u && u <= 0x200A)
    ||| u == 0x2028
    ||| u == 0x2029
    ||| u == 0x202F
    ||| u == 0x205F
    ||| u == 0x3000
}

/// An ASCII decimal digit.
pub open spec fn is_digit_char(c: char) -> bool {
    0x30 <= c as int && c as int <= 0x39
}

/// The numeric value of an ASCII decimal digit.
pub open spec fn digit_value(c: char) -> int {
    c as int - 0x30
}

/// How many leading characters of `s` are whitespace.
pub open spec fn leading_spaces(s: Seq<char>) -> int
    decreases s.len(),
{
    if s.len() == 0 || !is_space_char(s[0]) {
        0
    } else {
        1 + leading_spaces(s.drop_first())
    }
}

/// How many trailing characters of `s` are whitespace.
pub open spec fn trailing_spaces(s: Seq<char>) -> int
    decreases s.len(),
{
    if s.len() == 0 || !is_space_char(s.last()) {
        0
    } else {
        1 + trailing_spaces(s.drop_last())
    }
}

/// `s` without its leading and trailing whitespace, as `str::trim` leaves
/// it.
pub open spec fn trimmed(s: Seq<char>) -> Seq<char> {
    if leading_spaces(s) == s.len() {
        Seq::empty()
    } else {
        s.subrange(leading_spaces(s), s.len() - trailing_spaces(s))
    }
}

/// How many leading characters of `s` are decimal digits.
pub open spec fn leading_digits(s: Seq<char>) -> int
    decreases s.len(),
{
    if s.len() == 0 || !is_digit_char(s[0]) {
        0
    } else {
        1 + leading_digits(s.drop_first())
    }
}

/// The number a sequence of decimal digits denotes, most significant
/// digit first.
pub open spec fn digits_val(s: Seq<char>) -> int
    decreases s.len(),
{
    if s.len() == 0 {
        0
    } else {
        digits_val(s.drop_last()) * 10 + digit_value(s.last())
    }
}

/// The byte multiplier a unit suffix denotes: none is bytes, `K`, `M` and
/// `G` — upper or lower case — are the binary thousand, million and
/// billion; anything else is rejected.
pub open spec fn unit_multiplier(u: Seq<char>) -> Option<int> {
    if u.len() == 0 {
        Some(1int)
    } else if u.len() == 1 && (u[0] == 'K' || u[0] == 'k') {
        Some(1024int)
    } else if u.len() == 1 && (u[0] == 'M' || u[0] == 'm') {
        Some(0x100000int)
    } else if u.len() == 1 && (u[0] == 'G' || u[0] == 'g') {
        Some(0x40000000int)
    } else {
        None
    }
}

/// What `parse_memory_limit` returns: trim the input, split it at the
/// first non-digit, read the digits as a number and scale it by the unit
/// suffix. Rejected: an empty digit part, a digit part beyond `u64`, an
/// unknown suffix, and a scaled value beyond `u64`.
pub open spec fn parse_memory_limit_spec(s: Seq<char>) -> Option<u64> {
    let t = trimmed(s);
    let d = leading_digits(t);
    if d == 0 {
        None
    } else if digits_val(t.take(d)) > u64::MAX {
        None
    } else {
        match unit_multiplier(t.skip(d)) {
            Option::None => None,
            Option::Some(m) => if digits_val(t.take(d)) * m > u64::MAX {
                None
            } else {
                Some((digits_val(t.take(d)) * m) as u64)
            },
        }
    }
}

fn is_space(c: char) -> (b: bool)
    ensures
        b == is_space_char(c),
{
    let u = c as u32;
    u == 0x20 || u == 0x09 || u == 0x0A || u == 0x0B || u == 0x0C || u == 0x0D || u == 0x85 || u
        == 0xA0 || u == 0x1680 || (0x2000 <= u && u <= 0x200A) || u == 0x2028 || u == 0x2029 || u
        == 0x202F || u == 0x205F || u == 0x3000
}

fn is_digit(c: char) -> (b: bool)
    ensures
        b == is_digit_char(c),
{
    let u = c as u32;
    0x30 <= u && u <= 0x39
}

proof fn lemma_leading_spaces_count(s: Seq<char>, k: int)
    requires
        0 <= k <= s.len(),
        forall|i: int| 0 <= i < k ==> is_space_char(s[i]),
        k < s.len() ==> !is_space_char(s[k]),
    ensures
        leading_spaces(s) == k,
    decreases k,
{
    if s.len() == 0 || k == 0 {
    } else {
        assert(is_space_char(s[0]));
        assert forall|i: int| 0 <= i < k - 1 implies is_space_char(s.drop_first()[i]) by {
            assert(s.drop_first()[i] == s[i + 1]);
        }
        assert(k - 1 < s.drop_first().len() ==> !is_space_char(s.drop_first()[k - 1]));
        lemma_leading_spaces_count(s.drop_first(), k - 1);
    }
}

proof fn lemma_trailing_spaces_count(s: Seq<char>, h: int)
    requires
        0 <= h <= s.len(),
        forall|i: int| h <= i < s.len() ==> is_space_char(s[i]),
        h > 0 ==> !is_space_char(s[h - 1]),
    ensures
        trailing_spaces(s) == s.len() - h,
    decreases s.len() - h,
{
    if h == s.len() {
    } else {
        assert(is_space_char(s.last()));
        assert forall|i: int| h <= i < s.drop_last().len() implies is_space_char(
            s.drop_last()[i],
        ) by {
            assert(s.drop_last()[i] == s[i]);
        }
        lemma_trailing_spaces_count(s.drop_last(), h);
    }
}

proof fn lemma_leading_digits_count(s: Seq<char>, k: int)
    requires
        0 <= k <= s.len(),
        forall|i: int| 0 <= i < k ==> is_digit_char(s[i]),
        k < s.len() ==> !is_digit_char(s[k]),
    ensures
        leading_digits(s) == k,
    decreases k,
{
    if s.len() == 0 || k == 0 {
    } else {
        assert(is_digit_char(s[0]));
        assert forall|i: int| 0 <= i < k - 1 implies is_digit_char(s.drop_first()[i]) by {
            assert(s.drop_first()[i] == s[i + 1]);
        }
        assert(k - 1 < s.drop_first().len() ==> !is_digit_char(s.drop_first()[k - 1]));
        lemma_leading_digits_count(s.drop_first(), k - 1);
    }
}

proof fn lemma_digits_val_nonneg(s: Seq<char>)
    requires
        forall|i: int| 0 <= i < s.len() ==> is_digit_char(s[i]),
    ensures
        digits_val(s) >= 0,
    decreases s.len(),
{
    if s.len() > 0 {
        assert forall|i: int| 0 <= i < s.drop_last().len() implies is_digit_char(
            s.drop_last()[i],
        ) by {
            assert(s.drop_last()[i] == s[i]);
        }
        lemma_digits_val_nonneg(s.drop_last());
        assert(is_digit_char(s.last()));
    }
}

/// A prefix of a digit string never denotes more than the whole string.
proof fn lemma_digits_val_prefix_le(s: Seq<char>, k: int)
    requires
        0 <= k <= s.len(),
        forall|i: int| 0 <= i < s.len() ==> is_digit_char(s[i]),
    ensures
        digits_val(s.take(k)) <= digits_val(s),
    decreases s.len() - k,
{
    if k == s.len() {
        assert(s.take(k) =~= s);
    } else {
        assert(s.take(k + 1).drop_last() =~= s.take(k));
        assert forall|i: int| 0 <= i < s.take(k).len() implies is_digit_char(s.take(k)[i]) by {
            assert(s.take(k)[i] == s[i]);
        }
        lemma_digits_val_nonneg(s.take(k));
        assert(is_digit_char(s[k]));
        assert(digits_val(s.take(k + 1)) == digits_val(s.take(k)) * 10 + digit_value(s.take(
            k + 1,
        ).last()));
        lemma_digits_val_prefix_le(s, k + 1);
    }
}

/// Parse a memory-limit argument such as `512M` into a byte count, as
/// `parse_memory_limit_spec` lays it down: `Some` exactly for optional
/// whitespace around digits with at most one `K`/`M`/`G` suffix, whose
/// scaled value fits in 64 bits.
pub fn parse_memory_limit(s: &str) -> (r: Option<u64>)
    ensures
        r == parse_memory_limit_spec(s@),
{
    let ghost sv = s@;
    let n = s.unicode_len();
    let mut lo: usize = 0;
    while lo < n && is_space(s.get_char(lo))
        invariant
            0 <= lo <= n,
            n == sv.len(),
            sv == s@,
            forall|i: int| 0 <= i < lo ==> is_space_char(sv[i]),
        decreases n - lo,
    {
        lo = lo + 1;
    }
    proof {
        lemma_leading_spaces_count(sv, lo as int);
    }
    if lo == n {
        proof {
            assert(trimmed(sv) =~= Seq::<char>::empty());
        }
        return None;
    }
    let mut hi: usize = n;
    while hi > lo + 1 && is_space(s.get_char(hi - 1))
        invariant
            lo < hi <= n,
            n == sv.len(),
            sv == s@,
            !is_space_char(sv[lo as int]),
            forall|i: int| hi <= i < n ==> is_space_char(sv[i]),
        decreases hi,
    {
        hi = hi - 1;
    }
    proof {
        lemma_trailing_spaces_count(sv, hi as int);
    }
    let ghost t = trimmed(sv);
    proof {
        assert(t =~= sv.subrange(lo as int, hi as int));
    }
    let mut de: usize = lo;
    while de < hi && is_digit(s.get_char(de))
        invariant
            lo <= de <= hi <= n,
            n == sv.len(),
            sv == s@,
            forall|i: int| lo <= i < de ==> is_digit_char(sv[i]),
        decreases hi - de,
    {
        de = de + 1;
    }
    proof {
        assert forall|j: int| 0 <= j < de - lo implies is_digit_char(t[j]) by {
            assert(t[j] == sv[lo + j]);
        }
        assert(de - lo < t.len() ==> !is_digit_char(t[de - lo]));
        lemma_leading_digits_count(t, de as int - lo as int);
    }
    if de == lo {
        return None;
    }
    let ghost digits = t.take(de as int - lo as int);
    proof {
        assert(digits =~= sv.subrange(lo as int, de as int));
    }
    let mut v: u64 = 0;
    let mut i: usize = lo;
    proof {
        assert(sv.subrange(lo as int, lo as int) =~= Seq::<char>::empty());
    }
    while i < de
        invariant
            lo < de <= hi <= n,
            lo <= i <= de,
            n == sv.len(),
            sv == s@,
            t == trimmed(sv),
            leading_digits(t) == de as int - lo as int,
            digits == t.take(de as int - lo as int),
            digits =~= sv.subrange(lo as int, de as int),
            forall|j: int| lo <= j < de ==> is_digit_char(sv[j]),
            v as int == digits_val(sv.subrange(lo as int, i as int)),
        decreases de - i,
    {
        let c = s.get_char(i);
        let d = (c as u32) - 0x30;
        let ghost prefix = sv.subrange(lo as int, i as int);
        let ghost next = sv.subrange(lo as int, i as int + 1);
        proof {
            assert(next.drop_last() =~= prefix);
            assert(next.last() == sv[i as int]);
            assert(digits_val(next) == (v as int) * 10 + digit_value(sv[i as int]));
        }
        let mut overflowed: bool = true;
        let mut nv: u64 = 0;
        match v.checked_mul(10) {
            Some(v10) => {
                match v10.checked_add(d as u64) {
                    Some(x) => {
                        nv = x;
                        overflowed = false;
                    },
                    None => {},
                }
            },
            None => {},
        }
        if overflowed {
            proof {
                assert(digits_val(next) > u64::MAX);
                assert forall|j: int| 0 <= j < digits.len() implies is_digit_char(digits[j]) by {
                    assert(digits[j] == sv[lo + j]);
                }
                assert(next =~= digits.take(i as int + 1 - lo as int));
                lemma_digits_val_prefix_le(digits, i as int + 1 - lo as int);
                assert(digits_val(digits) > u64::MAX);
            }
            return None;
        }
        v = nv;
        i = i + 1;
    }
    proof {
        assert(v as int == digits_val(digits));
    }
    let m: u64;
    let ghost unit = t.skip(de as int - lo as int);
    proof {
        assert(unit =~= sv.subrange(de as int, hi as int));
    }
    if hi - de == 0 {
        m = 1;
        proof {
            assert(unit.len() == 0);
        }
    } else if hi - de == 1 {
        let c = s.get_char(de);
        proof {
            assert(unit =~= seq![sv[de as int]]);
        }
        if c == 'K' || c == 'k' {
            m = 1024;
        } else if c == 'M' || c == 'm' {
            m = 0x100000;
        } else if c == 'G' || c == 'g' {
            m = 0x40000000;
        } else {
            return None;
        }
    } else {
        proof {
            assert(unit.len() >= 2);
        }
        return None;
    }
    proof {
        assert(unit_multiplier(unit) == Some(m as int));
    }
    v.checked_mul(m)
}

} // verus!
