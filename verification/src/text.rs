//! Text helpers: whitespace trimming, decimal integers and zero padding.

use vstd::prelude::*;
use vstd::string::*;

verus! {

/// Unicode `White_Space`: the characters that `str::trim` removes.
pub open spec fn is_white_space(c: char) -> bool {
    let u = c as u32;
    ||| (0x9 <= u && u <= 0xd)
    ||| u == 0x20
    ||| u == 0x85
    ||| u == 0xa0
    ||| u == 0x1680
    ||| (0x2000 <= u && u <= 0x200a)
    ||| u == 0x2028
    ||| u == 0x2029
    ||| u == 0x202f
    ||| u == 0x205f
    ||| u == 0x3000
}

/// Index of the first character at or after `i` that is not whitespace
/// (or the length of `s` when there is none).
pub open spec fn skip_white_from(s: Seq<char>, i: int) -> int
    decreases s.len() - i,
{
    if 0 <= i < s.len() && is_white_space(s[i]) {
        skip_white_from(s, i + 1)
    } else {
        i
    }
}

/// Index just past the last character before `j` (and not before `lo`) that is
/// not whitespace.
pub open spec fn skip_white_back(s: Seq<char>, j: int, lo: int) -> int
    decreases j - lo,
{
    if lo < j && is_white_space(s[j - 1]) {
        skip_white_back(s, j - 1, lo)
    } else {
        j
    }
}

/// `s` without its leading and trailing whitespace.
pub open spec fn trimmed(s: Seq<char>) -> Seq<char> {
    let a = skip_white_from(s, 0);
    let b = skip_white_back(s, s.len() as int, a);
    s.subrange(a, b)
}

proof fn lemma_skip_white_from(s: Seq<char>, i: int)
    requires
        0 <= i <= s.len(),
    ensures
        i <= skip_white_from(s, i) <= s.len(),
        forall|k: int| i <= k < skip_white_from(s, i) ==> is_white_space(s[k]),
        skip_white_from(s, i) < s.len() ==> !is_white_space(s[skip_white_from(s, i)]),
    decreases s.len() - i,
{
    if i < s.len() && is_white_space(s[i]) {
        lemma_skip_white_from(s, i + 1);
    }
}

proof fn lemma_skip_white_back(s: Seq<char>, j: int, lo: int)
    requires
        0 <= lo <= j <= s.len(),
    ensures
        lo <= skip_white_back(s, j, lo) <= j,
        forall|k: int| skip_white_back(s, j, lo) <= k < j ==> is_white_space(s[k]),
        lo < skip_white_back(s, j, lo) ==> !is_white_space(s[skip_white_back(s, j, lo) - 1]),
    decreases j - lo,
{
    if lo < j && is_white_space(s[j - 1]) {
        lemma_skip_white_back(s, j - 1, lo);
    }
}

/// What trimming removes: `trimmed(s)` is the part of `s` between a run of
/// whitespace at the front and a run of whitespace at the back, and it neither
/// starts nor ends with whitespace.
pub proof fn lemma_trimmed_shape(s: Seq<char>)
    ensures
        exists|a: int, b: int|
            #![trigger s.subrange(a, b)]
            0 <= a <= b <= s.len() && trimmed(s) == s.subrange(a, b) && (forall|k: int|
                0 <= k < a ==> is_white_space(s[k])) && (forall|k: int|
                b <= k < s.len() ==> is_white_space(s[k])),
        trimmed(s).len() > 0 ==> !is_white_space(trimmed(s)[0]) && !is_white_space(
            trimmed(s)[trimmed(s).len() - 1],
        ),
{
    lemma_skip_white_from(s, 0);
    let a = skip_white_from(s, 0);
    lemma_skip_white_back(s, s.len() as int, a);
    let b = skip_white_back(s, s.len() as int, a);
    assert(trimmed(s) == s.subrange(a, b));
}

/// `str::trim`: drops leading and trailing Unicode whitespace.
pub fn trim(s: &str) -> (r: &str)
    ensures
        r@ == trimmed(s@),
{
    let n = s.unicode_len();
    let mut a: usize = 0;
    while a < n && is_white_char(s.get_char(a))
        invariant
            n == s@.len(),
            a <= n,
            skip_white_from(s@, a as int) == skip_white_from(s@, 0),
        decreases n - a,
    {
        a = a + 1;
    }
    let mut b: usize = n;
    while a < b && is_white_char(s.get_char(b - 1))
        invariant
            n == s@.len(),
            a <= b <= n,
            a == skip_white_from(s@, 0),
            skip_white_back(s@, b as int, a as int) == skip_white_back(s@, n as int, a as int),
        decreases b - a,
    {
        b = b - 1;
    }
    s.substring_char(a, b)
}

/// Whether `c` is Unicode whitespace.
pub fn is_white_char(c: char) -> (r: bool)
    ensures
        r == is_white_space(c),
{
    let u = c as u32;
    (0x9 <= u && u <= 0xd) || u == 0x20 || u == 0x85 || u == 0xa0 || u == 0x1680 || (0x2000
        <= u && u <= 0x200a) || u == 0x2028 || u == 0x2029 || u == 0x202f || u == 0x205f || u
        == 0x3000
}


/// Whether `c` is one of `0`..`9`.
pub open spec fn is_digit(c: char) -> bool {
    '0' as u32 <= c as u32 && c as u32 <= '9' as u32
}

/// The value of a decimal digit character.
pub open spec fn digit_value(c: char) -> int {
    c as u32 - '0' as u32
}

/// The digit character for `d` (`0 <= d < 10`).
pub open spec fn digit_char(d: int) -> char {
    ('0' as u32 + d) as char
}

/// Every character of `s` is a decimal digit.
pub open spec fn all_digits(s: Seq<char>) -> bool {
    forall|i: int| 0 <= i < s.len() ==> is_digit(#[trigger] s[i])
}

/// The number written by the decimal digits `s` (most significant first).
pub open spec fn digits_value(s: Seq<char>) -> int
    decreases s.len(),
{
    if s.len() == 0 {
        0
    } else {
        digits_value(s.drop_last()) * 10 + digit_value(s.last())
    }
}

/// The decimal writing of `n`, without sign or leading zeros.
pub open spec fn decimal(n: nat) -> Seq<char>
    decreases n,
{
    if n < 10 {
        seq![digit_char(n as int)]
    } else {
        decimal(n / 10).push(digit_char((n % 10) as int))
    }
}

/// What `str::parse` gives for a signed integer, before the range check: an
/// optional `+` or `-` followed by at least one decimal digit.
pub open spec fn signed_text_value(s: Seq<char>) -> Option<int> {
    if s.len() == 0 {
        None
    } else {
        let neg = s[0] == '-';
        let digits = if s[0] == '-' || s[0] == '+' {
            s.drop_first()
        } else {
            s
        };
        if digits.len() == 0 || !all_digits(digits) {
            None
        } else if neg {
            Some(-digits_value(digits))
        } else {
            Some(digits_value(digits))
        }
    }
}

/// What `str::parse` gives for an unsigned integer, before the range check:
/// an optional `+` followed by at least one decimal digit.
pub open spec fn unsigned_text_value(s: Seq<char>) -> Option<int> {
    if s.len() == 0 {
        None
    } else {
        let digits = if s[0] == '+' {
            s.drop_first()
        } else {
            s
        };
        if digits.len() == 0 || !all_digits(digits) {
            None
        } else {
            Some(digits_value(digits))
        }
    }
}

/// `s.parse::<i64>()`, as an option.
pub open spec fn i64_from_text(s: Seq<char>) -> Option<i64> {
    match signed_text_value(s) {
        Some(v) => if i64::MIN <= v <= i64::MAX {
            Some(v as i64)
        } else {
            None
        },
        None => None,
    }
}

/// `s.parse::<usize>()`, as an option.
pub open spec fn usize_from_text(s: Seq<char>) -> Option<usize> {
    match unsigned_text_value(s) {
        Some(v) => if v <= usize::MAX {
            Some(v as usize)
        } else {
            None
        },
        None => None,
    }
}

proof fn lemma_digits_value_nonneg(s: Seq<char>)
    requires
        all_digits(s),
    ensures
        digits_value(s) >= 0,
    decreases s.len(),
{
    if s.len() > 0 {
        lemma_digits_value_nonneg(s.drop_last());
    }
}

/// A longer digit string is worth at least as much as any of its prefixes.
proof fn lemma_digits_value_prefix(s: Seq<char>, k: int)
    requires
        all_digits(s),
        0 <= k <= s.len(),
    ensures
        digits_value(s.take(k)) <= digits_value(s),
    decreases s.len() - k,
{
    if k < s.len() {
        lemma_digits_value_prefix(s, k + 1);
        let t = s.take(k + 1);
        assert(t.drop_last() =~= s.take(k));
        lemma_digits_value_nonneg(s.take(k));
    } else {
        assert(s.take(k) =~= s);
    }
}

/// Reads the magnitude written by the characters of `s` from `start` on,
/// which must all be digits and at least one; `None` when a character is not a
/// digit or the value exceeds `limit`.
fn read_magnitude(s: &str, start: usize, limit: u64) -> (r: Option<u64>)
    requires
        start <= s@.len(),
    ensures
        ({
            let digits = s@.skip(start as int);
            match r {
                Some(v) => digits.len() > 0 && all_digits(digits) && v == digits_value(digits)
                    && v <= limit,
                None => digits.len() == 0 || !all_digits(digits) || digits_value(digits)
                    > limit,
            }
        }),
{
    let n = s.unicode_len();
    let ghost digits = s@.skip(start as int);
    if start == n {
        return None;
    }
    let mut acc: u64 = 0;
    let mut i: usize = start;
    while i < n
        invariant
            n == s@.len(),
            start <= i <= n,
            digits == s@.skip(start as int),
            all_digits(digits.take(i - start)),
            acc == digits_value(digits.take(i - start)),
            acc <= limit,
        decreases n - i,
    {
        let c = s.get_char(i);
        let ghost pre = digits.take(i - start);
        let ghost next = digits.take(i + 1 - start);
        assert(next.drop_last() =~= pre);
        assert(next.last() == c);
        if !is_digit_char(c) {
            assert(!is_digit(digits[i - start]));
            return None;
        }
        let d = (c as u32 - '0' as u32) as u64;
        assert(all_digits(next)) by {
            assert forall|j: int| 0 <= j < next.len() implies is_digit(#[trigger] next[j]) by {
                if j < pre.len() {
                    assert(next[j] == pre[j]);
                }
            }
        }
        if d > limit || acc > (limit - d) / 10 {
            proof {
                assert(digits_value(next) == acc * 10 + d);
                if d <= limit {
                    assert(acc * 10 + d > limit) by (nonlinear_arith)
                        requires
                            acc > (limit - d) / 10,
                            d <= limit,
                    ;
                }
                if all_digits(digits) {
                    lemma_digits_value_prefix(digits, i + 1 - start);
                }
            }
            return None;
        }
        proof {
            assert(acc * 10 + d <= limit) by (nonlinear_arith)
                requires
                    acc <= (limit - d) / 10,
                    d <= limit,
            ;
        }
        acc = acc * 10 + d;
        i = i + 1;
    }
    assert(digits.take(n - start) =~= digits);
    Some(acc)
}

/// `s.parse::<i64>()`: an optional sign and decimal digits, in range.
pub fn parse_i64(s: &str) -> (r: Option<i64>)
    ensures
        r == i64_from_text(s@),
{
    let n = s.unicode_len();
    if n == 0 {
        return None;
    }
    let c = s.get_char(0);
    assert(s@.drop_first() =~= s@.skip(1));
    assert(s@ =~= s@.skip(0));
    if c == '-' {
        match read_magnitude(s, 1, 0x8000_0000_0000_0000u64) {
            Some(v) => {
                if v == 0x8000_0000_0000_0000u64 {
                    Some(i64::MIN)
                } else {
                    Some(-(v as i64))
                }
            },
            None => None,
        }
    } else if c == '+' {
        match read_magnitude(s, 1, i64::MAX as u64) {
            Some(v) => Some(v as i64),
            None => None,
        }
    } else {
        match read_magnitude(s, 0, i64::MAX as u64) {
            Some(v) => Some(v as i64),
            None => None,
        }
    }
}

/// `s.parse::<usize>()`: an optional `+` and decimal digits, in range.
pub fn parse_usize(s: &str) -> (r: Option<usize>)
    ensures
        r == usize_from_text(s@),
{
    let n = s.unicode_len();
    if n == 0 {
        return None;
    }
    let c = s.get_char(0);
    assert(s@.drop_first() =~= s@.skip(1));
    assert(s@ =~= s@.skip(0));
    let start: usize = if c == '+' {
        1
    } else {
        0
    };
    match read_magnitude(s, start, usize::MAX as u64) {
        Some(v) => Some(v as usize),
        None => None,
    }
}

/// `v` written as `format!("{:0w$}", v)` does for an integer of width `w`:
/// a `-` for negative values, then zeros up to the width, then the digits.
pub open spec fn zero_padded(v: int, width: nat) -> Seq<char> {
    let digits = if v < 0 {
        decimal((-v) as nat)
    } else {
        decimal(v as nat)
    };
    let sign: Seq<char> = if v < 0 {
        seq!['-']
    } else {
        seq![]
    };
    let fill = width - sign.len() - digits.len();
    sign + Seq::new(if fill > 0 {
        fill as nat
    } else {
        0
    }, |_i: int| '0') + digits
}

fn digit_str(d: u64) -> (r: &'static str)
    requires
        d < 10,
    ensures
        r@ == seq![digit_char(d as int)],
{
    if d == 0 {
        proof {
            reveal_strlit("0");
        }
        "0"
    } else if d == 1 {
        proof {
            reveal_strlit("1");
        }
        "1"
    } else if d == 2 {
        proof {
            reveal_strlit("2");
        }
        "2"
    } else if d == 3 {
        proof {
            reveal_strlit("3");
        }
        "3"
    } else if d == 4 {
        proof {
            reveal_strlit("4");
        }
        "4"
    } else if d == 5 {
        proof {
            reveal_strlit("5");
        }
        "5"
    } else if d == 6 {
        proof {
            reveal_strlit("6");
        }
        "6"
    } else if d == 7 {
        proof {
            reveal_strlit("7");
        }
        "7"
    } else if d == 8 {
        proof {
            reveal_strlit("8");
        }
        "8"
    } else {
        proof {
            reveal_strlit("9");
        }
        "9"
    }
}

/// The decimal writing of `n`.
pub fn decimal_string(n: u64) -> (r: String)
    ensures
        r@ == decimal(n as nat),
    decreases n,
{
    if n < 10 {
        String::from_str(digit_str(n))
    } else {
        let mut r = decimal_string(n / 10);
        r.append(digit_str(n % 10));
        r
    }
}

/// `format!("{:0width$}", v)`.
pub fn zero_pad(v: i64, width: usize) -> (r: String)
    ensures
        r@ == zero_padded(v as int, width as nat),
{
    let magnitude: u64 = if v < 0 {
        (0i128 - v as i128) as u64
    } else {
        v as u64
    };
    let digits = decimal_string(magnitude);
    let mut r = if v < 0 {
        proof {
            reveal_strlit("-");
        }
        String::from_str("-")
    } else {
        String::new()
    };
    let used = r.as_str().unicode_len();
    let len = digits.as_str().unicode_len();
    let mut k: usize = 0;
    let ghost sign = r@;
    let fill: usize = if width > used && width - used > len {
        width - used - len
    } else {
        0
    };
    while k < fill
        invariant
            k <= fill,
            r@ == sign + Seq::new(k as nat, |_i: int| '0'),
        decreases fill - k,
    {
        proof {
            reveal_strlit("0");
        }
        r.append("0");
        k = k + 1;
        assert(r@ =~= sign + Seq::new(k as nat, |_i: int| '0'));
    }
    r.append(digits.as_str());
    assert(r@ =~= zero_padded(v as int, width as nat));
    r
}

/// Whether `a` and `b` hold the same characters.
pub fn same_text(a: &str, b: &str) -> (r: bool)
    ensures
        r == (a@ == b@),
{
    let n = a.unicode_len();
    if n != b.unicode_len() {
        return false;
    }
    let mut i: usize = 0;
    while i < n
        invariant
            n == a@.len(),
            n == b@.len(),
            i <= n,
            forall|j: int| 0 <= j < i ==> a@[j] == b@[j],
        decreases n - i,
    {
        if a.get_char(i) != b.get_char(i) {
            return false;
        }
        i = i + 1;
    }
    assert(a@ =~= b@);
    true
}

/// Whether `c` is a decimal digit.
pub fn is_digit_char(c: char) -> (r: bool)
    ensures
        r == is_digit(c),
{
    '0' as u32 <= c as u32 && c as u32 <= '9' as u32
}

} // verus!
