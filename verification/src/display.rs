//! Presentation values, computed exactly.
//!
//! Quantities are shown with two decimal places and percentages likewise;
//! the progress bar is forty cells wide with the filled part rounded from
//! the exact usage fraction.  Rounding is half-up (away from zero), stated
//! here over the exact decimal model.  Writing to a terminal and coloring
//! are not done here; this module only computes the texts.

use vstd::prelude::*;

use crate::types::DataUsage;
use crate::types::GbQuantity;
use crate::types::MAX_GB_NANOS;
use crate::types::Percent;

verus! {

/// How the record is to be presented.
#[derive(Debug, Clone, Copy, PartialEq, Eq, Structural)]
pub enum OutputFormat {
    /// Human-readable block with a progress bar.
    Human,
    /// Machine-readable, field for field.
    Json,
    /// Only the used volume.
    Used,
    /// Only the total volume.
    Total,
    /// Only the remaining volume.
    Remaining,
    /// Only the usage percentage.
    Percentage,
    /// Only the plan name.
    Plan,
}

/// The character of a single decimal digit.
pub open spec fn digit_char(d: int) -> char {
    if d == 0 {
        '0'
    } else if d == 1 {
        '1'
    } else if d == 2 {
        '2'
    } else if d == 3 {
        '3'
    } else if d == 4 {
        '4'
    } else if d == 5 {
        '5'
    } else if d == 6 {
        '6'
    } else if d == 7 {
        '7'
    } else if d == 8 {
        '8'
    } else {
        '9'
    }
}

/// The decimal digits of `n`, most significant first.
pub open spec fn dec_of(n: nat) -> Seq<char>
    decreases n,
{
    if n < 10 {
        seq![digit_char(n as int)]
    } else {
        dec_of(n / 10).push(digit_char((n % 10) as int))
    }
}

/// `h` hundredths shown with two decimal places.
pub open spec fn two_dec_of(h: nat) -> Seq<char> {
    dec_of(h / 100) + seq!['.', digit_char(((h / 10) % 10) as int), digit_char((h % 10) as int)]
}

/// A nano-gigabyte count rounded (half-up) to hundredths of a gigabyte.
pub open spec fn gb_hundredths(nanos: nat) -> nat {
    (nanos + 5_000_000) / 10_000_000
}

/// A volume shown with two decimal places.
pub open spec fn gb_two_dec(nanos: nat) -> Seq<char> {
    two_dec_of(gb_hundredths(nanos))
}

/// A signed nano-gigabyte count shown with two decimal places.
pub open spec fn signed_gb_two_dec(nanos: int) -> Seq<char> {
    if nanos < 0 {
        seq!['-'] + gb_two_dec((-nanos) as nat)
    } else {
        gb_two_dec(nanos as nat)
    }
}

/// A nonnegative exact percentage rounded (half-up) to hundredths.
pub open spec fn pct_hundredths(num: int, den: int) -> int {
    (200 * num + den) / (2 * den)
}

/// An exact percentage shown with two decimal places.
pub open spec fn pct_two_dec(num: int, den: int) -> Seq<char> {
    if num < 0 {
        seq!['-'] + two_dec_of(pct_hundredths(-num, den) as nat)
    } else {
        two_dec_of(pct_hundredths(num, den) as nat)
    }
}

/// The filled cells of a forty-cell bar showing `num / den` percent:
/// the exact fraction of forty, rounded half-up and clamped to the bar.
pub open spec fn bar_filled_of(num: int, den: int) -> int {
    let scaled = if num <= 0 {
        0
    } else {
        (4 * num + 5 * den) / (10 * den)
    };
    if scaled > 40 {
        40
    } else {
        scaled
    }
}

/// `n` copies of `c`.
pub open spec fn seq_repeat(c: char, n: int) -> Seq<char> {
    Seq::new(n as nat, |i: int| c)
}

/// A bar of `filled` full-block cells and `empty` light-shade cells.
pub open spec fn bar_glyphs(filled: int, empty: int) -> Seq<char> {
    seq_repeat('\u{2588}', filled) + seq_repeat('\u{2591}', empty)
}

/// How urgent the remaining volume is; drives the bar color.
#[derive(Debug, Clone, Copy, PartialEq, Eq, Structural)]
pub enum RemainingLevel {
    /// More than half the plan is left.
    Plenty,
    /// More than a fifth, at most half, is left.
    Low,
    /// A fifth or less is left.
    Critical,
}

/// Appends the decimal digits of `n`.
fn push_dec(n: u128, out: &mut Vec<char>)
    ensures
        final(out)@ == old(out)@ + dec_of(n as nat),
    decreases n,
{
    if n < 10 {
        let d = digit_char_of((n % 10) as u8);
        out.push(d);
        proof {
            assert(out@ =~= old(out)@ + dec_of(n as nat));
        }
    } else {
        push_dec(n / 10, out);
        let d = digit_char_of((n % 10) as u8);
        out.push(d);
        proof {
            assert(out@ =~= old(out)@ + dec_of(n as nat));
        }
    }
}

/// The character of a digit value.
fn digit_char_of(d: u8) -> (r: char)
    requires
        d < 10,
    ensures
        r == digit_char(d as int),
{
    match d {
        0 => '0',
        1 => '1',
        2 => '2',
        3 => '3',
        4 => '4',
        5 => '5',
        6 => '6',
        7 => '7',
        8 => '8',
        _ => '9',
    }
}

/// `h` hundredths as a two-decimal string.
fn fmt_hundredths(h: u128) -> (r: String)
    ensures
        r@ == two_dec_of(h as nat),
{
    let mut cs: Vec<char> = Vec::new();
    push_dec(h / 100, &mut cs);
    cs.push('.');
    cs.push(digit_char_of(((h / 10) % 10) as u8));
    cs.push(digit_char_of((h % 10) as u8));
    proof {
        assert(cs@ =~= two_dec_of(h as nat));
    }
    crate::text::string_from_chars(&cs)
}

/// A volume as a two-decimal gigabyte string.
pub fn fmt_gb(q: &GbQuantity) -> (r: String)
    requires
        q.wf(),
    ensures
        r@ == gb_two_dec(q.nanos as nat),
{
    let h = (q.nanos + 5_000_000) / 10_000_000;
    fmt_hundredths(h as u128)
}

/// A signed volume (the used field) as a two-decimal gigabyte string.
pub fn fmt_signed_gb(nanos: i64) -> (r: String)
    requires
        -(MAX_GB_NANOS as int) <= nanos <= MAX_GB_NANOS as int,
    ensures
        r@ == signed_gb_two_dec(nanos as int),
{
    if nanos < 0 {
        let mut cs: Vec<char> = Vec::new();
        cs.push('-');
        let pos = (-nanos) as u64;
        let h = (pos + 5_000_000) / 10_000_000;
        let mut tail: Vec<char> = Vec::new();
        push_dec((h / 100) as u128, &mut tail);
        tail.push('.');
        tail.push(digit_char_of(((h / 10) % 10) as u8));
        tail.push(digit_char_of((h % 10) as u8));
        let mut j: usize = 0;
        while j < tail.len()
            invariant
                0 <= j <= tail@.len(),
                cs@ == seq!['-'] + tail@.subrange(0, j as int),
        decreases tail@.len() - j,
        {
            cs.push(tail[j]);
            proof {
                assert(cs@ =~= seq!['-'] + tail@.subrange(0, j + 1 as int));
            }
            j = j + 1;
        }
        proof {
            assert(tail@.subrange(0, tail@.len() as int) =~= tail@);
            assert(tail@ =~= two_dec_of(gb_hundredths(pos as nat)));
            assert(cs@ =~= signed_gb_two_dec(nanos as int));
        }
        crate::text::string_from_chars(&cs)
    } else {
        let h = ((nanos as u64) + 5_000_000) / 10_000_000;
        fmt_hundredths(h as u128)
    }
}

/// An exact percentage as a two-decimal string.
pub fn fmt_percent(p: &Percent) -> (r: String)
    requires
        p.wf(),
    ensures
        r@ == pct_two_dec(p.num as int, p.den as int),
{
    let den = p.den as i128;
    if p.num < 0 {
        let m = -p.num;
        let h = (200 * m + den) / (2 * den);
        let mut cs: Vec<char> = Vec::new();
        cs.push('-');
        let mut tail: Vec<char> = Vec::new();
        push_dec((h / 100) as u128, &mut tail);
        tail.push('.');
        tail.push(digit_char_of((((h / 10) % 10)) as u8));
        tail.push(digit_char_of((h % 10) as u8));
        let mut j: usize = 0;
        while j < tail.len()
            invariant
                0 <= j <= tail@.len(),
                cs@ == seq!['-'] + tail@.subrange(0, j as int),
        decreases tail@.len() - j,
        {
            cs.push(tail[j]);
            proof {
                assert(cs@ =~= seq!['-'] + tail@.subrange(0, j + 1 as int));
            }
            j = j + 1;
        }
        proof {
            assert(tail@.subrange(0, tail@.len() as int) =~= tail@);
            assert(tail@ =~= two_dec_of(pct_hundredths(m as int, den as int) as nat));
            assert(cs@ =~= pct_two_dec(p.num as int, p.den as int));
        }
        crate::text::string_from_chars(&cs)
    } else {
        let h = (200 * p.num + den) / (2 * den);
        fmt_hundredths(h as u128)
    }
}

/// The filled and empty cell counts of the forty-cell progress bar.
pub fn bar_cells(p: &Percent) -> (r: (usize, usize))
    requires
        p.wf(),
    ensures
        r.0 == bar_filled_of(p.num as int, p.den as int),
        r.0 + r.1 == 40,
{
    let den = p.den as i128;
    let scaled: i128 = if p.num <= 0 {
        0
    } else {
        (4 * p.num + 5 * den) / (10 * den)
    };
    let filled: usize = if scaled > 40 {
        40
    } else {
        scaled as usize
    };
    (filled, 40 - filled)
}

/// The urgency of the remaining volume: the thresholds are half and a
/// fifth of the plan.
pub fn remaining_level(p: &Percent) -> (r: RemainingLevel)
    requires
        p.wf(),
    ensures
        (r == RemainingLevel::Plenty) == (p.num < 50 * p.den),
        (r == RemainingLevel::Low) == (50 * p.den <= p.num < 80 * p.den),
        (r == RemainingLevel::Critical) == (p.num >= 80 * p.den),
{
    let den = p.den as i128;
    if p.num < 50 * den {
        RemainingLevel::Plenty
    } else if p.num < 80 * den {
        RemainingLevel::Low
    } else {
        RemainingLevel::Critical
    }
}

/// A bar of `filled` full blocks and `empty` light shades.
pub fn bar_text(filled: usize, empty: usize) -> (r: String)
    ensures
        r@ == bar_glyphs(filled as int, empty as int),
{
    let mut cs: Vec<char> = Vec::new();
    let mut i: usize = 0;
    while i < filled
        invariant
            0 <= i <= filled,
            cs@ =~= seq_repeat('\u{2588}', i as int),
        decreases filled - i,
    {
        cs.push('\u{2588}');
        i = i + 1;
    }
    let mut j: usize = 0;
    while j < empty
        invariant
            0 <= j <= empty,
            cs@ =~= seq_repeat('\u{2588}', filled as int) + seq_repeat('\u{2591}', j as int),
        decreases empty - j,
    {
        cs.push('\u{2591}');
        j = j + 1;
    }
    proof {
        assert(cs@ =~= bar_glyphs(filled as int, empty as int));
    }
    crate::text::string_from_chars(&cs)
}

/// The header of the human-readable block: the plan line and the validity
/// line, each present exactly when the record carries the field.
pub open spec fn header_lines(d: DataUsage) -> Seq<Seq<char>> {
    (match d.plan_name {
        Some(p) => seq!["Plan: "@ + p@],
        None => Seq::<Seq<char>>::empty(),
    }) + (match d.valid_until {
        Some(v) => seq!["Valid until: "@ + v@],
        None => Seq::<Seq<char>>::empty(),
    })
}

/// The volume lines of the human-readable block: a full green-able bar
/// for an unlimited plan, else used, total and remaining with their
/// percentages and the progress bar.
pub open spec fn volume_lines(d: DataUsage) -> Seq<Seq<char>> {
    if d.is_unlimited {
        seq!["Data:      unlimited"@, bar_glyphs(40, 0) + " unlimited"@]
    } else {
        let pct = pct_two_dec(d.percentage.num as int, d.percentage.den as int);
        let rpct = pct_two_dec(
            100 * (d.percentage.den as int) - d.percentage.num,
            d.percentage.den as int,
        );
        let filled = bar_filled_of(d.percentage.num as int, d.percentage.den as int);
        seq![
            "Used:      "@ + signed_gb_two_dec(d.used_nanos as int) + " GB ("@ + pct + "%)"@,
            "Total:     "@ + gb_two_dec(d.total.nanos as nat) + " GB (100%)"@,
            "Remaining: "@ + gb_two_dec(d.remaining.nanos as nat) + " GB ("@ + rpct + "%)"@,
            bar_glyphs(filled, 40 - filled) + " "@ + pct + "%"@,
        ]
    }
}

/// All lines of the human-readable block, in order.
pub open spec fn human_lines_spec(d: DataUsage) -> Seq<Seq<char>> {
    header_lines(d) + volume_lines(d)
}

/// The human-readable block, uncolored: optional plan and validity lines,
/// then the volume lines and the progress bar.
pub fn human_lines(data: &DataUsage) -> (r: Vec<String>)
    requires
        data.wf(),
    ensures
        r.deep_view() == human_lines_spec(*data),
{
    let mut lines: Vec<String> = Vec::new();
    match &data.plan_name {
        Some(p) => {
            lines.push(String::from_str("Plan: ").concat(p.as_str()));
        },
        None => {},
    }
    match &data.valid_until {
        Some(v) => {
            lines.push(String::from_str("Valid until: ").concat(v.as_str()));
        },
        None => {},
    }
    let ghost header = lines.deep_view();
    proof {
        assert(header =~= header_lines(*data));
    }
    if data.is_unlimited {
        lines.push(String::from_str("Data:      unlimited"));
        lines.push(bar_text(40, 0).concat(" unlimited"));
    } else {
        let used_s = fmt_signed_gb(data.used_nanos);
        let pct_s = fmt_percent(&data.percentage);
        let rp = data.remaining_percentage();
        let rpct_s = fmt_percent(&rp);
        let tot_s = fmt_gb(&data.total);
        let rem_s = fmt_gb(&data.remaining);
        let cells = bar_cells(&data.percentage);
        let l1 = String::from_str("Used:      ").concat(used_s.as_str()).concat(
            " GB (",
        ).concat(pct_s.as_str()).concat("%)");
        let l2 = String::from_str("Total:     ").concat(tot_s.as_str()).concat(" GB (100%)");
        let l3 = String::from_str("Remaining: ").concat(rem_s.as_str()).concat(
            " GB (",
        ).concat(rpct_s.as_str()).concat("%)");
        let l4 = bar_text(cells.0, cells.1).concat(" ").concat(pct_s.as_str()).concat("%");
        lines.push(l1);
        lines.push(l2);
        lines.push(l3);
        lines.push(l4);
    }
    proof {
        assert(lines.deep_view() =~= human_lines_spec(*data));
    }
    lines
}

/// The single-value output of the record under the given format, when the
/// format asks for one: the bare number (or `unlimited`), or the bare plan
/// name.
pub fn single_value_text(data: &DataUsage, format: OutputFormat) -> (r: Option<String>)
    requires
        data.wf(),
    ensures
        match format {
            OutputFormat::Used => r matches Some(s) && s@ == (if data.is_unlimited {
                "unlimited"@
            } else {
                signed_gb_two_dec(data.used_nanos as int)
            }),
            OutputFormat::Total => r matches Some(s) && s@ == (if data.is_unlimited {
                "unlimited"@
            } else {
                gb_two_dec(data.total.nanos as nat)
            }),
            OutputFormat::Remaining => r matches Some(s) && s@ == (if data.is_unlimited {
                "unlimited"@
            } else {
                gb_two_dec(data.remaining.nanos as nat)
            }),
            OutputFormat::Percentage => r matches Some(s) && s@ == (if data.is_unlimited {
                "unlimited"@
            } else {
                pct_two_dec(data.percentage.num as int, data.percentage.den as int)
            }),
            OutputFormat::Plan => match data.plan_name {
                Some(p) => r matches Some(s) && s@ == p@,
                None => r is None,
            },
            OutputFormat::Human => r is None,
            OutputFormat::Json => r is None,
        },
{
    match format {
        OutputFormat::Used => {
            if data.is_unlimited {
                Some(String::from_str("unlimited"))
            } else {
                Some(fmt_signed_gb(data.used_nanos))
            }
        },
        OutputFormat::Total => {
            if data.is_unlimited {
                Some(String::from_str("unlimited"))
            } else {
                Some(fmt_gb(&data.total))
            }
        },
        OutputFormat::Remaining => {
            if data.is_unlimited {
                Some(String::from_str("unlimited"))
            } else {
                Some(fmt_gb(&data.remaining))
            }
        },
        OutputFormat::Percentage => {
            if data.is_unlimited {
                Some(String::from_str("unlimited"))
            } else {
                Some(fmt_percent(&data.percentage))
            }
        },
        OutputFormat::Plan => {
            match &data.plan_name {
                Some(p) => Some(p.clone()),
                None => None,
            }
        },
        OutputFormat::Human => None,
        OutputFormat::Json => None,
    }
}

} // verus!
