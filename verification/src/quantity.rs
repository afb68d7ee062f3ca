//! Coercion of a line-item quantity string to a day count.
//!
//! The receipt encoder never fails: a quantity that does not parse as a
//! decimal number is treated as zero days, and a negative quantity is
//! clamped to zero. The accepted shape is an optional sign, decimal
//! digits, and at most one decimal point; the fractional part rounds to
//! the nearest whole day (half rounds up). A quantity whose integer part
//! has more than [`MAX_DAY_DIGITS`] significant digits is treated as
//! malformed, which keeps the count within a machine word.

use vstd::prelude::*;

verus! {

/// Most significant digits a well-formed day count may carry.
pub const MAX_DAY_DIGITS: usize = 19;

/// Whether `c` is a decimal digit.
pub open spec fn is_digit(c: char) -> bool {
    48 <= c as int && c as int <= 57
}

/// The numeric value of a digit character; non-digits count as zero.
pub open spec fn digit_val(c: char) -> nat {
    if is_digit(c) {
        (c as int - 48) as nat
    } else {
        0
    }
}

/// The value of a digit string read most-significant first.
pub open spec fn digits_val(s: Seq<char>) -> nat
    decreases s.len(),
{
    if s.len() == 0 {
        0
    } else {
        digits_val(s.drop_last()) * 10 + digit_val(s.last())
    }
}

/// Index of the first decimal point, or the length when there is none.
pub open spec fn first_dot(s: Seq<char>) -> int
    decreases s.len(),
{
    if s.len() == 0 {
        0
    } else if s[0] == '.' {
        0
    } else {
        1 + first_dot(s.drop_first())
    }
}

/// The digits before the first decimal point.
pub open spec fn int_part(s: Seq<char>) -> Seq<char> {
    s.take(first_dot(s))
}

/// The digits after the first decimal point; empty when there is none.
pub open spec fn frac_part(s: Seq<char>) -> Seq<char> {
    if first_dot(s) < s.len() {
        s.skip(first_dot(s) + 1)
    } else {
        Seq::empty()
    }
}

/// Whether every character is a decimal digit.
pub open spec fn all_digits(s: Seq<char>) -> bool {
    forall|i: int| 0 <= i < s.len() ==> is_digit(s[i])
}

/// An unsigned decimal body: digits around at most one decimal point,
/// with at least one digit somewhere.
pub open spec fn is_decimal_body(s: Seq<char>) -> bool {
    &&& all_digits(int_part(s))
    &&& all_digits(frac_part(s))
    &&& int_part(s).len() + frac_part(s).len() >= 1
}

/// The digit string with leading zeros removed.
pub open spec fn strip_zeros(s: Seq<char>) -> Seq<char>
    decreases s.len(),
{
    if s.len() > 0 && s[0] == '0' {
        strip_zeros(s.drop_first())
    } else {
        s
    }
}

/// One extra day when the fraction rounds up (first fractional digit is
/// five or more).
pub open spec fn round_up(fp: Seq<char>) -> nat {
    if fp.len() > 0 && fp[0] as int >= 53 {
        1
    } else {
        0
    }
}

/// Day count of an unsigned decimal body; zero when malformed or too wide.
pub open spec fn decimal_day_count(body: Seq<char>) -> nat {
    if !is_decimal_body(body) {
        0
    } else if strip_zeros(int_part(body)).len() > MAX_DAY_DIGITS {
        0
    } else {
        digits_val(int_part(body)) + round_up(frac_part(body))
    }
}

/// Day count of a quantity field: malformed input counts as zero and a
/// negative quantity is clamped to zero, so the count is never negative.
pub open spec fn day_count_of(q: Seq<char>) -> nat {
    if q.len() == 0 {
        0
    } else if q[0] == '-' {
        0
    } else if q[0] == '+' {
        decimal_day_count(q.drop_first())
    } else {
        decimal_day_count(q)
    }
}

/// Powers of ten.
pub open spec fn pow10(n: nat) -> nat
    decreases n,
{
    if n == 0 {
        1
    } else {
        10 * pow10((n - 1) as nat)
    }
}

proof fn lemma_pow10_monotone(a: nat, b: nat)
    requires
        a <= b,
    ensures
        pow10(a) <= pow10(b),
    decreases b,
{
    if a < b {
        lemma_pow10_monotone(a, (b - 1) as nat);
        assert(pow10(b) == 10 * pow10((b - 1) as nat));
        assert(pow10((b - 1) as nat) >= 1) by {
            lemma_pow10_pos((b - 1) as nat);
        }
    }
}

proof fn lemma_pow10_pos(n: nat)
    ensures
        pow10(n) >= 1,
    decreases n,
{
    if n > 0 {
        lemma_pow10_pos((n - 1) as nat);
    }
}

/// A digit string's value is below ten to its length.
proof fn lemma_digits_val_bound(s: Seq<char>)
    ensures
        digits_val(s) < pow10(s.len()),
    decreases s.len(),
{
    if s.len() > 0 {
        lemma_digits_val_bound(s.drop_last());
        assert(digit_val(s.last()) <= 9);
        assert(pow10(s.len()) == 10 * pow10((s.len() - 1) as nat));
    }
}

/// A leading zero does not change a digit string's value.
proof fn lemma_digits_val_leading_zero(s: Seq<char>)
    requires
        s.len() > 0,
        s[0] == '0',
    ensures
        digits_val(s) == digits_val(s.drop_first()),
    decreases s.len(),
{
    if s.len() == 1 {
        assert(s.drop_first().len() == 0);
        assert(digit_val(s.last()) == 0);
        assert(digits_val(s.drop_last()) == 0);
    } else {
        lemma_digits_val_leading_zero(s.drop_last());
        assert(s.drop_last().drop_first() =~= s.drop_first().drop_last());
        assert(s.drop_first().last() == s.last());
    }
}

/// Stripping leading zeros keeps the value.
proof fn lemma_digits_val_strip_zeros(s: Seq<char>)
    ensures
        digits_val(strip_zeros(s)) == digits_val(s),
    decreases s.len(),
{
    if s.len() > 0 && s[0] == '0' {
        lemma_digits_val_strip_zeros(s.drop_first());
        lemma_digits_val_leading_zero(s);
    }
}

/// Stripping the first `k` characters, all zeros and maximal, is what
/// `strip_zeros` does.
proof fn lemma_strip_zeros_skip(s: Seq<char>, k: int)
    requires
        0 <= k <= s.len(),
        forall|i: int| 0 <= i < k ==> s[i] == '0',
        k < s.len() ==> s[k] != '0',
    ensures
        strip_zeros(s) =~= s.skip(k),
    decreases s.len(),
{
    if k == 0 {
        if s.len() > 0 {
            assert(s[0] != '0');
        }
        assert(s.skip(0) =~= s);
    } else {
        assert(s[0] == '0');
        lemma_strip_zeros_skip(s.drop_first(), k - 1);
        assert(s.drop_first().skip(k - 1) =~= s.skip(k));
    }
}

/// A prefix never exceeds the whole digit string in value.
proof fn lemma_digits_val_prefix(s: Seq<char>, j: int)
    requires
        0 <= j <= s.len(),
    ensures
        digits_val(s.take(j)) <= digits_val(s),
    decreases s.len(),
{
    if j < s.len() {
        assert(s.drop_last().take(j) =~= s.take(j));
        lemma_digits_val_prefix(s.drop_last(), j);
        assert(digits_val(s) == digits_val(s.drop_last()) * 10 + digit_val(s.last()));
    } else {
        assert(s.take(j) =~= s);
    }
}

/// The index the scan stopped at is `first_dot`.
proof fn lemma_first_dot_at(s: Seq<char>, d: int)
    requires
        0 <= d <= s.len(),
        forall|i: int| 0 <= i < d ==> s[i] != '.',
        d < s.len() ==> s[d] == '.',
    ensures
        first_dot(s) == d,
    decreases s.len(),
{
    if s.len() > 0 && s[0] != '.' {
        assert(d > 0);
        lemma_first_dot_at(s.drop_first(), d - 1);
    }
}

/// The digit value of a digit character, as executable code.
fn char_digit(c: char) -> (d: u64)
    requires
        is_digit(c),
    ensures
        d as nat == digit_val(c),
{
    (c as u32 - 48) as u64
}

/// Whether `c` is a decimal digit, as executable code.
fn is_digit_exec(c: char) -> (r: bool)
    ensures
        r == is_digit(c),
{
    let u = c as u32;
    48 <= u && u <= 57
}

/// Day count of an unsigned decimal body string.
fn decimal_days(body: &str) -> (n: u64)
    ensures
        n as nat == decimal_day_count(body@),
{
    let blen = body.unicode_len();
    // Locate the first decimal point.
    let mut d: usize = 0;
    while d < blen && body.get_char(d) != '.'
        invariant
            0 <= d <= blen,
            blen == body@.len(),
            forall|j: int| 0 <= j < d ==> body@[j] != '.',
        decreases blen - d,
    {
        d += 1;
    }
    proof {
        lemma_first_dot_at(body@, d as int);
        assert(first_dot(body@) == d as int);
    }
    // Validate: digits before the point, digits after it, one digit somewhere.
    let frac_len: usize = if d < blen {
        blen - d - 1
    } else {
        0
    };
    if d + frac_len == 0 {
        proof {
            assert(int_part(body@).len() + frac_part(body@).len() == 0);
        }
        return 0;
    }
    let mut j: usize = 0;
    while j < d
        invariant
            0 <= j <= d <= blen,
            blen == body@.len(),
            first_dot(body@) == d as int,
            forall|k: int| 0 <= k < j ==> is_digit(body@[k]),
        decreases d - j,
    {
        if !is_digit_exec(body.get_char(j)) {
            proof {
                assert(int_part(body@)[j as int] == body@[j as int]);
                assert(!all_digits(int_part(body@)));
            }
            return 0;
        }
        j += 1;
    }
    if d < blen {
        let mut k: usize = d + 1;
        while k < blen
            invariant
                d + 1 <= k <= blen,
                d < blen,
                blen == body@.len(),
                first_dot(body@) == d as int,
                forall|m: int| d + 1 <= m < k ==> is_digit(body@[m]),
            decreases blen - k,
        {
            if !is_digit_exec(body.get_char(k)) {
                proof {
                    assert(frac_part(body@)[k - d - 1] == body@[k as int]);
                    assert(!all_digits(frac_part(body@)));
                }
                return 0;
            }
            k += 1;
        }
    }
    proof {
        assert(int_part(body@) =~= body@.take(d as int));
        assert(all_digits(int_part(body@)));
        if d < blen {
            assert(forall|m: int| 0 <= m < frac_part(body@).len() ==> frac_part(body@)[m]
                == body@[m + d + 1]);
        }
        assert(all_digits(frac_part(body@)));
        assert(is_decimal_body(body@));
    }
    // Count significant digits of the integer part.
    let mut lz: usize = 0;
    while lz < d && body.get_char(lz) == '0'
        invariant
            0 <= lz <= d <= blen,
            blen == body@.len(),
            forall|m: int| 0 <= m < lz ==> body@[m] == '0',
        decreases d - lz,
    {
        lz += 1;
    }
    proof {
        let ip = int_part(body@);
        assert(forall|m: int| 0 <= m < lz ==> ip[m] == '0');
        if (lz as int) < ip.len() {
            assert(ip[lz as int] == body@[lz as int]);
        }
        lemma_strip_zeros_skip(ip, lz as int);
        assert(strip_zeros(ip).len() == d - lz);
    }
    if d - lz > MAX_DAY_DIGITS {
        return 0;
    }
    // Accumulate the integer part; it fits a machine word because at most
    // MAX_DAY_DIGITS significant digits survive.
    proof {
        let ip = int_part(body@);
        lemma_digits_val_strip_zeros(ip);
        lemma_digits_val_bound(strip_zeros(ip));
        lemma_pow10_monotone(strip_zeros(ip).len(), MAX_DAY_DIGITS as nat);
        assert(pow10(19) == 10000000000000000000) by {
            reveal_with_fuel(pow10, 20);
        }
        assert(digits_val(ip) < 10000000000000000000);
    }
    let mut val: u64 = 0;
    let mut j2: usize = 0;
    while j2 < d
        invariant
            0 <= j2 <= d <= blen,
            blen == body@.len(),
            first_dot(body@) == d as int,
            val as nat == digits_val(body@.take(j2 as int)),
            digits_val(int_part(body@)) < 10000000000000000000,
            all_digits(int_part(body@)),
        decreases d - j2,
    {
        let c = body.get_char(j2);
        proof {
            assert(int_part(body@)[j2 as int] == body@[j2 as int]);
            assert(is_digit(c));
            assert(body@.take(j2 + 1).drop_last() =~= body@.take(j2 as int));
            assert(body@.take(j2 + 1).last() == c);
            lemma_digits_val_prefix(int_part(body@), j2 + 1);
            assert(int_part(body@).take(j2 + 1) =~= body@.take(j2 + 1));
            assert(digits_val(body@.take(j2 + 1)) < 10000000000000000000);
        }
        let dgt = char_digit(c);
        val = val * 10 + dgt;
        j2 += 1;
    }
    proof {
        assert(body@.take(d as int) =~= int_part(body@));
        assert(val as nat == digits_val(int_part(body@)));
    }
    // Round on the first fractional digit.
    if d < blen && d + 1 < blen {
        let fc = body.get_char(d + 1);
        proof {
            assert(frac_part(body@)[0] == body@[d + 1]);
            assert(frac_part(body@).len() > 0);
        }
        if fc as u32 >= 53 {
            val = val + 1;
        }
    } else {
        proof {
            assert(frac_part(body@).len() == 0);
        }
    }
    val
}

/// Day count of a quantity field. Never negative: malformed and negative
/// quantities both yield zero days.
pub fn day_count(q: &str) -> (n: u64)
    ensures
        n as nat == day_count_of(q@),
{
    let len = q.unicode_len();
    if len == 0 {
        return 0;
    }
    let c0 = q.get_char(0);
    if c0 == '-' {
        return 0;
    }
    if c0 == '+' {
        let body = q.substring_char(1, len);
        proof {
            assert(body@ =~= q@.drop_first());
        }
        decimal_days(body)
    } else {
        decimal_days(q)
    }
}

/// Clamping law: a quantity beginning with a minus sign counts zero
/// days, whatever follows the sign — the rendered day count is never
/// negative.
pub proof fn lemma_negative_quantity_clamped(q: Seq<char>)
    requires
        q.len() > 0,
        q[0] == '-',
    ensures
        day_count_of(q) == 0,
{
}

/// Decimal rendering of a day count, most significant digit first.
pub open spec fn dec_bytes(n: nat) -> Seq<u8>
    decreases n,
{
    if n < 10 {
        seq![(48 + n) as u8]
    } else {
        dec_bytes(n / 10) + seq![(48 + n % 10) as u8]
    }
}

/// Append the decimal rendering of `n`.
pub fn push_dec(out: &mut Vec<u8>, n: u64)
    ensures
        final(out)@ == old(out)@ + dec_bytes(n as nat),
    decreases n,
{
    if n >= 10 {
        push_dec(out, n / 10);
    }
    out.push((n % 10) as u8 + 48);
    proof {
        assert(out@ =~= old(out)@ + dec_bytes(n as nat));
    }
}

} // verus!
