//! The numeric normalizer.
//!
//! Locale-formatted quantity strings use either a comma or a period as
//! decimal separator.  The policy is: replace every comma with a period,
//! then read the text as an unsigned decimal number.  The value is held
//! exactly, as a count of nano-gigabytes, so the model keeps at most nine
//! fractional digits and a whole part below a billion; texts outside those
//! bounds are rejected rather than rounded.
//!
//! Known limitation (deliberate): a comma is always read as a decimal
//! separator, never as a thousands separator, so `"1,234"` means one point
//! two three four.

use vstd::prelude::*;

use crate::error::DatapassError;
use crate::error::NumberFault;
use crate::text;
use crate::types::GbQuantity;

verus! {

/// Whether `c` is a decimal digit.
pub open spec fn is_digit(c: char) -> bool {
    48 <= c as int && c as int <= 57
}

/// The numeric value of a decimal digit.
pub open spec fn digit_val(c: char) -> int {
    c as int - 48
}

/// Whether every character is a decimal digit.
pub open spec fn all_digits(s: Seq<char>) -> bool {
    forall|i: int| 0 <= i < s.len() ==> is_digit(s[i])
}

/// The value of a digit string, most significant digit first.
pub open spec fn digits_val(s: Seq<char>) -> int
    decreases s.len(),
{
    if s.len() == 0 {
        0
    } else {
        digits_val(s.drop_last()) * 10 + digit_val(s.last())
    }
}

/// Ten to the power `e`.
pub open spec fn pow10(e: nat) -> int
    decreases e,
{
    if e == 0 {
        1
    } else {
        10 * pow10((e - 1) as nat)
    }
}

/// The input with every comma replaced by a period.
pub open spec fn comma_to_dot(s: Seq<char>) -> Seq<char> {
    s.map_values(|c: char| if c == ',' { '.' } else { c })
}

/// The digits before the first period of the normalized text.
pub open spec fn int_part(s: Seq<char>) -> Seq<char> {
    match text::first_index_of(s, '.') {
        Some(d) => s.subrange(0, d),
        None => s,
    }
}

/// The text after the first period of the normalized text (empty when
/// there is none).
pub open spec fn frac_part(s: Seq<char>) -> Seq<char> {
    match text::first_index_of(s, '.') {
        Some(d) => s.subrange(d + 1, s.len() as int),
        None => Seq::<char>::empty(),
    }
}

/// The exact nano-gigabyte value of a whole part and a fractional part of
/// at most nine digits.
pub open spec fn parts_nanos(ip: Seq<char>, fp: Seq<char>) -> int {
    digits_val(ip) * 1_000_000_000 + digits_val(fp) * pow10((9 - fp.len()) as nat)
}

/// What a quantity text denotes: `Some` exactly when, after normalizing
/// commas to periods, the text is digits with at most one period, holds at
/// least one digit, and fits the exact decimal model (at most nine
/// fractional digits, whole part below a billion).
pub open spec fn quantity_nanos(raw: Seq<char>) -> Option<int> {
    let s = comma_to_dot(raw);
    let ip = int_part(s);
    let fp = frac_part(s);
    if all_digits(ip) && all_digits(fp) && ip.len() + fp.len() >= 1 && fp.len() <= 9
        && digits_val(ip) <= 999_999_999 {
        Some(parts_nanos(ip, fp))
    } else {
        None
    }
}

/// Which fault a rejected quantity text is reported with.
pub open spec fn quantity_fault(raw: Seq<char>) -> NumberFault {
    let s = comma_to_dot(raw);
    let ip = int_part(s);
    let fp = frac_part(s);
    if !(all_digits(ip) && all_digits(fp)) {
        NumberFault::InvalidChar
    } else if ip.len() + fp.len() == 0 {
        NumberFault::Empty
    } else if fp.len() > 9 {
        NumberFault::TooManyFractionDigits
    } else {
        NumberFault::TooLarge
    }
}

pub proof fn lemma_pow10_pos(e: nat)
    ensures
        pow10(e) >= 1,
    decreases e,
{
    if e > 0 {
        lemma_pow10_pos((e - 1) as nat);
    }
}

pub proof fn lemma_pow10_mono(a: nat, b: nat)
    requires
        a <= b,
    ensures
        pow10(a) <= pow10(b),
    decreases b,
{
    if a < b {
        lemma_pow10_mono(a, (b - 1) as nat);
        lemma_pow10_pos((b - 1) as nat);
    }
}

pub proof fn lemma_pow10_nine()
    ensures
        pow10(9) == 1_000_000_000,
{
    reveal_with_fuel(pow10, 11);
}

/// A digit string's value is bounded by ten to its length.
pub proof fn lemma_digits_val_bounds(s: Seq<char>)
    requires
        all_digits(s),
    ensures
        0 <= digits_val(s) < pow10(s.len()),
    decreases s.len(),
{
    if s.len() > 0 {
        let t = s.drop_last();
        assert(forall|i: int| 0 <= i < t.len() ==> is_digit(t[i]));
        lemma_digits_val_bounds(t);
        assert(is_digit(s.last()));
    }
}

/// A string of zero digits has value zero.
pub proof fn lemma_all_zeros(s: Seq<char>)
    requires
        forall|j: int| 0 <= j < s.len() ==> digit_val(#[trigger] s[j]) == 0,
    ensures
        digits_val(s) == 0,
    decreases s.len(),
{
    if s.len() > 0 {
        lemma_all_zeros(s.drop_last());
    }
}

/// Leading zeros do not change a digit string's value.
pub proof fn lemma_digits_leading_zeros(s: Seq<char>, k: int)
    requires
        0 <= k <= s.len(),
        forall|j: int| 0 <= j < k ==> digit_val(#[trigger] s[j]) == 0,
    ensures
        digits_val(s) == digits_val(s.subrange(k, s.len() as int)),
    decreases s.len(),
{
    if s.len() == k {
        lemma_all_zeros(s);
    } else {
        let t = s.drop_last();
        lemma_digits_leading_zeros(t, k);
        let sub = s.subrange(k, s.len() as int);
        assert(sub.len() > 0);
        assert(sub.drop_last() =~= t.subrange(k, t.len() as int));
        assert(sub.last() == s.last());
    }
}

/// A digit string that starts with a nonzero digit is at least ten to one
/// less than its length.
pub proof fn lemma_digits_first_nonzero(s: Seq<char>)
    requires
        all_digits(s),
        s.len() >= 1,
        digit_val(s[0]) >= 1,
    ensures
        digits_val(s) >= pow10((s.len() - 1) as nat),
    decreases s.len(),
{
    if s.len() == 1 {
        lemma_all_zeros(s.drop_last());
        assert(digits_val(s) == digit_val(s[0]));
    } else {
        let t = s.drop_last();
        assert(forall|i: int| 0 <= i < t.len() ==> is_digit(t[i]));
        lemma_digits_first_nonzero(t);
        assert(is_digit(s.last()));
    }
}

/// Extending a digit range by one character multiplies by ten and adds the
/// new digit.
pub proof fn lemma_digits_step(s: Seq<char>, a: int, k: int)
    requires
        0 <= a <= k < s.len(),
    ensures
        digits_val(s.subrange(a, k + 1)) == digits_val(s.subrange(a, k)) * 10 + digit_val(s[k]),
{
    let t = s.subrange(a, k + 1);
    assert(t.drop_last() =~= s.subrange(a, k));
    assert(t.last() == s[k]);
}

/// Replaces every comma with a period.
fn map_comma(v: &Vec<char>) -> (r: Vec<char>)
    ensures
        r@ == comma_to_dot(v@),
{
    let mut r: Vec<char> = Vec::new();
    let mut i: usize = 0;
    while i < v.len()
        invariant
            0 <= i <= v@.len(),
            r@.len() == i,
            forall|j: int|
                0 <= j < i ==> r@[j] == (if v@[j] == ',' {
                    '.'
                } else {
                    v@[j]
                }),
        decreases v@.len() - i,
    {
        let c = v[i];
        if c == ',' {
            r.push('.');
        } else {
            r.push(c);
        }
        i = i + 1;
    }
    proof {
        assert(r@ =~= comma_to_dot(v@));
    }
    r
}

/// The numeric value of a digit character, or nothing.
fn digit_of(c: char) -> (r: Option<u8>)
    ensures
        match r {
            Some(d) => is_digit(c) && d as int == digit_val(c),
            None => !is_digit(c),
        },
{
    let u = c as u32;
    if 48 <= u && u <= 57 {
        Some((u - 48) as u8)
    } else {
        None
    }
}

/// The rejection of `text` with the given fault, carrying the original,
/// untranslated text.
fn number_error(text: &str, fault: NumberFault) -> (r: DatapassError)
    ensures
        r matches DatapassError::NumberFormat { text: t, fault: f } && t@ == text@ && f == fault,
{
    DatapassError::NumberFormat { text: String::from_str(text), fault }
}

/// Reads a locale-formatted quantity: every comma is treated as a decimal
/// period, then the text must be an unsigned decimal number that fits the
/// exact model.  The caller trims whitespace beforehand.  On failure the
/// error carries the original text, so users recognize their own page
/// content.
pub fn parse_quantity(s: &str) -> (r: Result<GbQuantity, DatapassError>)
    ensures
        match r {
            Ok(q) => quantity_nanos(s@) == Some(q.nanos as int) && q.wf(),
            Err(e) => quantity_nanos(s@) is None && (e matches DatapassError::NumberFormat {
                text,
                fault,
            } && text@ == s@ && fault == quantity_fault(s@)),
        },
{
    let v = text::chars_of(s);
    let w = map_comma(&v);
    let n = w.len();
    let dot = text::find_char(&w, '.');
    let ip_end: usize;
    let fp_start: usize;
    match dot {
        Some(d) => {
            ip_end = d;
            fp_start = d + 1;
            proof {
                text::lemma_first_index_at(w@, '.', d as int);
            }
        },
        None => {
            ip_end = n;
            fp_start = n;
            proof {
                text::lemma_first_index_none(w@, '.');
            }
        },
    }
    let ghost ip = int_part(w@);
    let ghost fp = frac_part(w@);
    proof {
        assert(ip =~= w@.subrange(0, ip_end as int));
        assert(fp =~= w@.subrange(fp_start as int, n as int));
    }

    // Every character outside the one separator must be a digit.
    let mut i: usize = 0;
    while i < ip_end
        invariant
            ip_end <= n == w@.len(),
            w@ == comma_to_dot(s@),
            ip == int_part(w@),
            fp == frac_part(w@),
            ip == w@.subrange(0, ip_end as int),
            0 <= i <= ip_end,
            forall|j: int| 0 <= j < i ==> is_digit(#[trigger] w@[j]),
        decreases ip_end - i,
    {
        if digit_of(w[i]).is_none() {
            proof {
                assert(ip[i as int] == w@[i as int]);
                assert(!is_digit(ip[i as int]));
                assert(!all_digits(ip));
                assert(quantity_fault(s@) == NumberFault::InvalidChar);
                assert(quantity_nanos(s@) is None);
            }
            return Err(number_error(s, NumberFault::InvalidChar));
        }
        i = i + 1;
    }
    let mut i: usize = fp_start;
    while i < n
        invariant
            fp_start <= n == w@.len(),
            w@ == comma_to_dot(s@),
            ip == int_part(w@),
            fp == frac_part(w@),
            fp == w@.subrange(fp_start as int, n as int),
            fp_start <= i <= n,
            forall|j: int| fp_start <= j < i ==> is_digit(#[trigger] w@[j]),
        decreases n - i,
    {
        if digit_of(w[i]).is_none() {
            proof {
                assert(fp[i - fp_start] == w@[i as int]);
                assert(!is_digit(fp[i - fp_start]));
                assert(!all_digits(fp));
                assert(quantity_fault(s@) == NumberFault::InvalidChar);
                assert(quantity_nanos(s@) is None);
            }
            return Err(number_error(s, NumberFault::InvalidChar));
        }
        i = i + 1;
    }
    proof {
        assert(all_digits(ip)) by {
            assert(forall|j: int|
                0 <= j < ip.len() ==> is_digit(#[trigger] ip[j]) == is_digit(w@[j]));
        }
        assert(all_digits(fp)) by {
            assert(forall|j: int|
                0 <= j < fp.len() ==> is_digit(#[trigger] fp[j]) == is_digit(w@[j + fp_start]));
        }
    }

    // At least one digit overall.
    if ip_end == 0 && fp_start == n {
        return Err(number_error(s, NumberFault::Empty));
    }

    // At most nine fractional digits.
    if n - fp_start > 9 {
        return Err(number_error(s, NumberFault::TooManyFractionDigits));
    }

    // Skip leading zeros of the whole part; what remains must fit.
    let mut z: usize = 0;
    let mut stop = false;
    while z < ip_end && !stop
        invariant
            ip_end <= n == w@.len(),
            0 <= z <= ip_end,
            forall|j: int| 0 <= j < ip_end ==> is_digit(#[trigger] w@[j]),
            forall|j: int| 0 <= j < z ==> digit_val(#[trigger] w@[j]) == 0,
            stop ==> z < ip_end && digit_val(w@[z as int]) >= 1,
        decreases ip_end - z + (if stop {
            0int
        } else {
            1int
        }),
    {
        let d = match digit_of(w[z]) {
            Some(d) => d,
            None => {
                proof {
                    assert(false);
                }
                0
            },
        };
        if d == 0 {
            z = z + 1;
        } else {
            stop = true;
        }
    }
    proof {
        assert(forall|j: int| 0 <= j < z ==> digit_val(#[trigger] ip[j]) == 0);
        lemma_digits_leading_zeros(ip, z as int);
        assert(ip.subrange(z as int, ip.len() as int) =~= w@.subrange(z as int, ip_end as int));
    }
    let ghost eff = w@.subrange(z as int, ip_end as int);
    if ip_end - z > 9 {
        proof {
            assert(eff[0] == w@[z as int]);
            assert(is_digit(w@[z as int]));
            assert(digit_val(eff[0]) >= 1);
            assert(all_digits(eff)) by {
                assert(forall|j: int|
                    0 <= j < eff.len() ==> is_digit(#[trigger] eff[j]) == is_digit(w@[j + z]));
            }
            lemma_digits_first_nonzero(eff);
            lemma_pow10_mono(9, (eff.len() - 1) as nat);
            lemma_pow10_nine();
            assert(quantity_fault(s@) == NumberFault::TooLarge);
            assert(quantity_nanos(s@) is None);
        }
        return Err(number_error(s, NumberFault::TooLarge));
    }

    // Value of the whole part.
    proof {
        assert(all_digits(eff)) by {
            assert(forall|j: int|
                0 <= j < eff.len() ==> is_digit(#[trigger] eff[j]) == is_digit(w@[j + z]));
        }
        lemma_pow10_nine();
    }
    let mut acc: u64 = 0;
    let mut k: usize = z;
    while k < ip_end
        invariant
            z <= k <= ip_end <= n == w@.len(),
            ip_end - z <= 9,
            eff == w@.subrange(z as int, ip_end as int),
            all_digits(eff),
            forall|j: int| z <= j < ip_end ==> is_digit(#[trigger] w@[j]),
            acc == digits_val(w@.subrange(z as int, k as int)),
            acc < pow10((k - z) as nat),
            pow10(9) == 1_000_000_000,
        decreases ip_end - k,
    {
        let d = match digit_of(w[k]) {
            Some(d) => d,
            None => {
                proof {
                    assert(false);
                }
                0
            },
        };
        proof {
            lemma_digits_step(w@, z as int, k as int);
            lemma_pow10_mono(((k - z) + 1) as nat, 9);
        }
        acc = acc * 10 + (d as u64);
        k = k + 1;
    }
    proof {
        lemma_pow10_mono((ip_end - z) as nat, 9);
        assert(digits_val(ip) == acc);
        assert(acc <= 999_999_999);
    }

    // Value of the fractional part, scaled to nine places.
    let mut fval: u64 = 0;
    let mut k: usize = fp_start;
    while k < n
        invariant
            fp_start <= k <= n == w@.len(),
            n - fp_start <= 9,
            fp == w@.subrange(fp_start as int, n as int),
            forall|j: int| fp_start <= j < n ==> is_digit(#[trigger] w@[j]),
            fval == digits_val(w@.subrange(fp_start as int, k as int)),
            fval < pow10((k - fp_start) as nat),
            pow10(9) == 1_000_000_000,
        decreases n - k,
    {
        let d = match digit_of(w[k]) {
            Some(d) => d,
            None => {
                proof {
                    assert(false);
                }
                0
            },
        };
        proof {
            lemma_digits_step(w@, fp_start as int, k as int);
            lemma_pow10_mono(((k - fp_start) + 1) as nat, 9);
        }
        fval = fval * 10 + (d as u64);
        k = k + 1;
    }
    let frac_len = n - fp_start;
    proof {
        assert(digits_val(fp) == fval);
        assert(pow10(0) == 1);
        assert(fval == digits_val(fp) * pow10(0));
    }
    let mut e: usize = frac_len;
    while e < 9
        invariant
            frac_len <= e <= 9,
            frac_len == fp.len(),
            fval == digits_val(fp) * pow10((e - frac_len) as nat),
            fval < pow10(e as nat),
            pow10(9) == 1_000_000_000,
        decreases 9 - e,
    {
        proof {
            lemma_pow10_mono((e + 1) as nat, 9);
            let b = pow10((e - frac_len) as nat);
            assert(digits_val(fp) * (10 * b) == (digits_val(fp) * b) * 10) by (nonlinear_arith);
            assert(pow10((e + 1 - frac_len) as nat) == 10 * pow10((e - frac_len) as nat));
        }
        fval = fval * 10;
        e = e + 1;
    }
    proof {
        assert(fval == digits_val(fp) * pow10((9 - fp.len()) as nat));
        assert(fval <= 999_999_999);
    }

    let nanos: u64 = acc * 1_000_000_000 + fval;
    proof {
        assert(nanos as int == parts_nanos(ip, fp));
        assert(nanos <= crate::types::MAX_GB_NANOS);
    }
    Ok(GbQuantity { nanos })
}

} // verus!
