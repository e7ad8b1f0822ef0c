//! What a field with a validation rule accepts while it is typed: whole numbers
//! within a range (checked by sign and number of digits), or text up to a length.

use vstd::prelude::*;
use crate::text::{chars_of, utf8_len, utf8_width, utf8_width_exec, decimal, first_index};

verus! {

/// A rule for what may be typed into a field.
#[derive(Debug, Clone, Copy, PartialEq, Eq, Structural)]
pub enum FieldValidation {
    /// A whole number in `min..=max`.
    Int { min: i64, max: i64 },
    /// At most this many characters.
    MaxLen(usize),
}

/// Index of the first character of `s` that is not `-`.
pub open spec fn dash_prefix(s: Seq<char>) -> int
    decreases s.len(),
{
    if s.len() > 0 && s[0] == '-' {
        1 + dash_prefix(s.drop_first())
    } else {
        0
    }
}

proof fn lemma_dash_prefix(s: Seq<char>)
    ensures
        0 <= dash_prefix(s) <= s.len(),
        forall|k: int| 0 <= k < dash_prefix(s) ==> s[k] == '-',
        dash_prefix(s) < s.len() ==> s[dash_prefix(s)] != '-',
    decreases s.len(),
{
    if s.len() > 0 && s[0] == '-' {
        lemma_dash_prefix(s.drop_first());
        assert forall|k: int| 0 <= k < dash_prefix(s) implies s[k] == '-' by {
            if k > 0 {
                assert(s[k] == s.drop_first()[k - 1]);
            }
        }
    }
}

/// Whether typing `c` into a field holding `current` is accepted under `v`. For a
/// number: a minus sign only as the first character and only when negatives are
/// allowed; a digit only while the digits (after any minus signs, counted in bytes)
/// are fewer than those of the larger bound's magnitude; nothing else.
pub open spec fn accepts(v: FieldValidation, current: Seq<char>, c: char) -> bool {
    match v {
        FieldValidation::Int { min, max } => {
            if c == '-' {
                min < 0 && current.len() == 0
            } else if '0' <= c <= '9' {
                let digits = current.skip(dash_prefix(current));
                let bound: int = if (if min < 0 { -min } else { min as int }) >= (if max < 0 { -max } else { max as int }) {
                    if min < 0 { -min } else { min as int }
                } else {
                    if max < 0 { -max } else { max as int }
                };
                utf8_len(digits) < decimal(bound as nat).len()
            } else {
                false
            }
        },
        FieldValidation::MaxLen(max) => current.len() < max,
    }
}

spec fn pow10(k: nat) -> nat
    decreases k,
{
    if k == 0 { 1 } else { 10 * pow10((k - 1) as nat) }
}

proof fn lemma_pow10_grows(a: nat, b: nat)
    requires
        a <= b,
    ensures
        pow10(a) <= pow10(b),
    decreases b,
{
    if a < b {
        lemma_pow10_grows(a, (b - 1) as nat);
    }
}

proof fn lemma_decimal_len(n: nat)
    ensures
        decimal(n).len() >= 1,
        decimal(n).len() == 1 || pow10((decimal(n).len() - 1) as nat) <= n,
    decreases n,
{
    if n >= 10 {
        lemma_decimal_len(n / 10);
        let r = decimal(n / 10).len();
        assert(decimal(n).len() == r + 1);
        if r > 1 {
            assert(pow10(r as nat) == 10 * pow10((r - 1) as nat));
        } else {
            reveal_with_fuel(pow10, 2);
        }
    }
}

/// A `u64` has at most 20 decimal digits.
pub proof fn lemma_decimal_len_u64(n: u64)
    ensures
        decimal(n as nat).len() <= 20,
{
    lemma_decimal_len(n as nat);
    let d = decimal(n as nat).len();
    if d > 20 {
        lemma_pow10_grows(20, (d - 1) as nat);
        reveal_with_fuel(pow10, 21);
        assert(pow10(20) == 100000000000000000000nat);
    }
}

/// The number of decimal digits of `n`.
pub fn max_digits(n: u64) -> (d: usize)
    ensures
        d == decimal(n as nat).len(),
        1 <= d <= 20,
{
    let d = digit_count(n);
    proof {
        if d > 20 {
            lemma_pow10_grows(20, (d - 1) as nat);
            reveal_with_fuel(pow10, 21);
            assert(pow10(20) == 100000000000000000000nat);
        }
    }
    d
}

fn digit_count(n: u64) -> (d: usize)
    ensures
        d == decimal(n as nat).len(),
        d >= 1,
        pow10((d - 1) as nat) <= n || d == 1,
        d <= 64,
    decreases n,
{
    if n < 10 {
        1
    } else {
        proof {
            assert(decimal(n as nat) == decimal((n / 10) as nat).push(crate::text::digit_char((n % 10) as nat)));
        }
        let r = digit_count(n / 10);
        proof {
            if r > 1 {
                assert(pow10(r as nat) == 10 * pow10((r - 1) as nat));
            } else {
                reveal_with_fuel(pow10, 2);
                assert(pow10(1) == 10);
            }
            if r >= 64 {
                lemma_pow10_grows(20, (r - 1) as nat);
                reveal_with_fuel(pow10, 21);
            }
        }
        r + 1
    }
}

/// Whether the UTF-8 length of `s[lo..]` is below `limit`.
fn bytes_below(s: &Vec<char>, lo: usize, limit: usize) -> (b: bool)
    requires
        lo <= s@.len(),
        limit <= 64,
    ensures
        b == (utf8_len(s@.skip(lo as int)) < limit),
{
    let ghost d = s@.skip(lo as int);
    if limit == 0 {
        return false;
    }
    assert(d.take(0) =~= Seq::<char>::empty());
    let mut total: usize = 0;
    let mut i: usize = lo;
    while i < s.len()
        invariant
            lo <= i <= s@.len(),
            limit <= 64,
            d == s@.skip(lo as int),
            total == utf8_len(d.take(i - lo)),
            total < limit || (total == 0 && limit == 0),
        decreases s.len() - i,
    {
        proof {
            assert(d.take(i - lo + 1).drop_last() =~= d.take(i - lo));
            assert(d[i - lo] == s@[i as int]);
        }
        total = total + utf8_width_exec(s[i]);
        if total >= limit {
            proof {
                lemma_utf8_len_take_le(d, i - lo + 1);
            }
            return false;
        }
        i = i + 1;
    }
    assert(d.take(i - lo) =~= d);
    true
}

proof fn lemma_utf8_len_take_le(s: Seq<char>, i: int)
    requires
        0 <= i <= s.len(),
    ensures
        utf8_len(s.take(i)) <= utf8_len(s),
{
    crate::text::lemma_utf8_len_prefix(s, i);
}

impl FieldValidation {
    /// Whether typing `c` into a field holding `current` is accepted.
    pub fn accepts_char(&self, current: &str, c: char) -> (b: bool)
        ensures
            b == accepts(*self, current@, c),
    {
        match *self {
            FieldValidation::Int { min, max } => {
                if c == '-' {
                    return min < 0 && char_is_empty(current);
                }
                if '0' <= c && c <= '9' {
                    let v = chars_of(current);
                    let mut k: usize = 0;
                    proof { lemma_dash_prefix(v@); }
                    while k < v.len() && v[k] == '-'
                        invariant
                            k <= v@.len(),
                            forall|j: int| 0 <= j < k ==> v@[j] == '-',
                            0 <= dash_prefix(v@) <= v@.len(),
                            forall|j: int| 0 <= j < dash_prefix(v@) ==> v@[j] == '-',
                            dash_prefix(v@) < v@.len() ==> v@[dash_prefix(v@)] != '-',
                        decreases v.len() - k,
                    {
                        k = k + 1;
                    }
                    proof {
                        if k < dash_prefix(v@) {
                            assert(v@[k as int] == '-');
                        }
                        if k > dash_prefix(v@) {
                            assert(v@[dash_prefix(v@)] == '-');
                        }
                    }
                    let min_abs: u64 = if min < 0 {
                        if min == i64::MIN { 9223372036854775808u64 } else { (-min) as u64 }
                    } else {
                        min as u64
                    };
                    let max_abs: u64 = if max < 0 {
                        if max == i64::MIN { 9223372036854775808u64 } else { (-max) as u64 }
                    } else {
                        max as u64
                    };
                    let bound = if min_abs >= max_abs { min_abs } else { max_abs };
                    let limit = max_digits(bound);
                    return bytes_below(&v, k, limit);
                }
                false
            },
            FieldValidation::MaxLen(max) => crate::text::char_count(current) < max,
        }
    }
}

fn char_is_empty(s: &str) -> (b: bool)
    ensures
        b == (s@.len() == 0),
{
    crate::text::char_count(s) == 0
}


/// Whether `c` may be typed after `current` into a decimal field: a minus only into an
/// empty field and only when negatives are allowed; one decimal point; at most two
/// bytes from the point on; and, before any point, fewer bytes of whole digits (after
/// the leading minus signs) than `max_whole_digits`.
pub open spec fn decimal_accepts(allow_negative: bool, max_whole_digits: nat, current: Seq<char>, c: char) -> bool {
    if c == '-' {
        allow_negative && current.len() == 0
    } else if c == '.' {
        !current.contains('.')
    } else if !('0' <= c && c <= '9') {
        false
    } else {
        let d = current.skip(dash_prefix(current));
        if d.contains('.') {
            utf8_len(d) - utf8_len(d.take(first_index(d, '.'))) <= 2
        } else {
            utf8_len(d) < max_whole_digits
        }
    }
}

/// Whether typing `c` into a decimal field holding `current` is accepted (see
/// `decimal_accepts`). `allow_negative` is whether the field's minimum is below zero,
/// and `max_whole_digits` the number of whole digits of its maximum.
pub fn decimal_accepts_char(allow_negative: bool, max_whole_digits: usize, current: &str, c: char) -> (r: bool)
    requires
        utf8_len(current@) <= usize::MAX,
    ensures
        r == decimal_accepts(allow_negative, max_whole_digits as nat, current@, c),
{
    let v = chars_of(current);
    if c == '-' {
        return allow_negative && v.len() == 0;
    }
    if c == '.' {
        let mut j: usize = 0;
        while j < v.len()
            invariant
                j <= v@.len(),
                v@ == current@,
                c == '.',
                forall|t: int| 0 <= t < j ==> v@[t] != '.',
            decreases v.len() - j,
        {
            if v[j] == '.' {
                assert(current@[j as int] == '.');
                assert(current@.contains('.'));
                return false;
            }
            j = j + 1;
        }
        return true;
    }
    if !('0' <= c && c <= '9') {
        return false;
    }
    let mut k: usize = 0;
    proof { lemma_dash_prefix(v@); }
    while k < v.len() && v[k] == '-'
        invariant
            k <= v@.len(),
            forall|j: int| 0 <= j < k ==> v@[j] == '-',
            0 <= dash_prefix(v@) <= v@.len(),
            forall|j: int| 0 <= j < dash_prefix(v@) ==> v@[j] == '-',
            dash_prefix(v@) < v@.len() ==> v@[dash_prefix(v@)] != '-',
        decreases v.len() - k,
    {
        k = k + 1;
    }
    proof {
        if k < dash_prefix(v@) {
            assert(v@[k as int] == '-');
        }
        if k > dash_prefix(v@) {
            assert(v@[dash_prefix(v@)] == '-');
        }
    }
    let d = crate::text::sub_chars(v.as_slice(), k, v.len());
    assert(d@ =~= v@.skip(k as int));
    proof {
        crate::text::lemma_utf8_len_prefix(v@, k as int);
        assert(v@ =~= v@.take(k as int) + d@);
        lemma_utf8_len_concat(v@.take(k as int), d@);
    }
    let total = crate::text::utf8_len_exec(d.as_slice());
    let mut j: usize = 0;
    while j < d.len() && d[j] != '.'
        invariant
            j <= d@.len(),
            forall|t: int| 0 <= t < j ==> d@[t] != '.',
        decreases d.len() - j,
    {
        j = j + 1;
    }
    proof {
        crate::text::lemma_first_index(d@, '.');
    }
    if j < d.len() {
        proof {
            let f = first_index(d@, '.');
            if f < j {
                assert(d@[f] == '.');
            }
            if f > j {
                assert(d@[j as int] != '.');
            }
            crate::text::lemma_utf8_len_prefix(d@, j as int);
        }
        let before = crate::text::sub_chars(d.as_slice(), 0, j);
        assert(before@ =~= d@.take(j as int));
        let b = crate::text::utf8_len_exec(before.as_slice());
        total - b <= 2
    } else {
        proof {
            if d@.contains('.') {
                let t = choose|t: int| 0 <= t < d@.len() && d@[t] == '.';
                assert(d@[t] != '.');
            }
        }
        total < max_whole_digits
    }
}

proof fn lemma_utf8_len_concat(a: Seq<char>, b: Seq<char>)
    ensures
        utf8_len(a + b) == utf8_len(a) + utf8_len(b),
    decreases b.len(),
{
    if b.len() == 0 {
        assert(a + b =~= a);
    } else {
        lemma_utf8_len_concat(a, b.drop_last());
        assert((a + b).drop_last() =~= a + b.drop_last());
    }
}

} // verus!
