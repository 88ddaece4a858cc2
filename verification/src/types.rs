//! The usage record and its derived fields.
//!
//! Volumes are exact decimal quantities, held as a count of nano-gigabytes
//! (billionths of a gigabyte), so that the derived fields can be pinned
//! down exactly: the used volume is the total minus the remaining volume,
//! and the usage percentage is the exact rational
//! `used / total * 100` (or zero when the total is zero).

use vstd::prelude::*;

verus! {

/// Nano-gigabytes per gigabyte: quantities carry nine decimal places.
pub const NANOS_PER_GB: u64 = 1_000_000_000;

/// The largest representable volume: just under a billion gigabytes.
pub const MAX_GB_NANOS: u64 = 999_999_999_999_999_999;

/// An exact decimal volume in gigabytes, counted in nano-gigabytes.
#[derive(Debug, Clone, Copy, PartialEq, Eq, Structural)]
pub struct GbQuantity {
    pub nanos: u64,
}

impl GbQuantity {
    /// A representable volume.
    pub open spec fn wf(&self) -> bool {
        self.nanos <= MAX_GB_NANOS
    }

    /// The volume of exactly `gb` gigabytes.
    pub fn from_gb(gb: u32) -> (r: GbQuantity)
        requires
            gb * NANOS_PER_GB <= MAX_GB_NANOS,
        ensures
            r.nanos == gb * NANOS_PER_GB,
            r.wf(),
    {
        GbQuantity { nanos: (gb as u64) * NANOS_PER_GB }
    }
}

/// An exact rational percentage: the value is `num / den` percent.
///
/// The numerator may be negative (a page reporting more remaining than
/// total volume yields a negative used percentage); the denominator is
/// always positive.
#[derive(Debug, Clone, Copy, PartialEq, Eq, Structural)]
pub struct Percent {
    pub num: i128,
    pub den: u64,
}

impl Percent {
    /// Bounds under which all derived arithmetic stays exact in `i128`.
    pub open spec fn wf(&self) -> bool {
        &&& 1 <= self.den <= MAX_GB_NANOS
        &&& -200_000_000_000_000_000_000 <= self.num <= 200_000_000_000_000_000_000
    }
}

/// The used volume derived from a remaining and a total volume.
pub open spec fn used_nanos_of(remaining: GbQuantity, total: GbQuantity) -> int {
    total.nanos - remaining.nanos
}

/// The numerator of the derived usage percentage.
pub open spec fn percent_num_of(remaining: GbQuantity, total: GbQuantity) -> int {
    if total.nanos > 0 {
        100 * (total.nanos - remaining.nanos)
    } else {
        0
    }
}

/// The denominator of the derived usage percentage.
pub open spec fn percent_den_of(total: GbQuantity) -> int {
    if total.nanos > 0 {
        total.nanos as int
    } else {
        1
    }
}

/// Mobile data usage: the sole entity the extraction pipeline produces.
///
/// A record is only ever constructed with remaining and total already
/// resolved; partial extractions are failures, never placeholder records.
/// When `is_unlimited` holds, the numeric fields are zeroed and carry no
/// meaning.
#[derive(Debug, Clone)]
pub struct DataUsage {
    /// Volume left in the current period.
    pub remaining: GbQuantity,
    /// Plan ceiling.
    pub total: GbQuantity,
    /// Derived: total minus remaining, in nano-gigabytes (negative when a
    /// page reports more remaining than total).
    pub used_nanos: i64,
    /// Derived: exact usage fraction times one hundred.
    pub percentage: Percent,
    /// Human label of the plan, whitespace-normalized.
    pub plan_name: Option<String>,
    /// Free-form validity date, kept opaque.
    pub valid_until: Option<String>,
    /// True when the plan has no metered ceiling.
    pub is_unlimited: bool,
}

impl DataUsage {
    /// The derived fields agree with the primary ones.
    pub open spec fn wf(&self) -> bool {
        &&& self.remaining.wf()
        &&& self.total.wf()
        &&& self.used_nanos == used_nanos_of(self.remaining, self.total)
        &&& self.percentage.num == percent_num_of(self.remaining, self.total)
        &&& self.percentage.den == percent_den_of(self.total)
        &&& self.is_unlimited ==> self.remaining.nanos == 0 && self.total.nanos == 0
    }

    /// Builds a metered usage record; the derived fields are computed here
    /// and nowhere else.  Never fails: the inputs were already validated by
    /// the extractors that produced them.
    pub fn new(
        remaining: GbQuantity,
        total: GbQuantity,
        plan_name: Option<String>,
        valid_until: Option<String>,
    ) -> (r: DataUsage)
        requires
            remaining.wf(),
            total.wf(),
        ensures
            r.remaining == remaining,
            r.total == total,
            r.used_nanos == used_nanos_of(remaining, total),
            r.percentage.num == percent_num_of(remaining, total),
            r.percentage.den == percent_den_of(total),
            r.plan_name == plan_name,
            r.valid_until == valid_until,
            !r.is_unlimited,
            r.wf(),
            r.percentage.wf(),
    {
        let used_nanos: i64 = (total.nanos as i64) - (remaining.nanos as i64);
        let percentage = if total.nanos > 0 {
            Percent { num: 100 * (used_nanos as i128), den: total.nanos }
        } else {
            Percent { num: 0, den: 1 }
        };
        DataUsage {
            remaining,
            total,
            used_nanos,
            percentage,
            plan_name,
            valid_until,
            is_unlimited: false,
        }
    }

    /// Builds the record of an unlimited plan: no metered ceiling, zeroed
    /// quantities that presentation must not show.
    pub fn unlimited(plan_name: Option<String>, valid_until: Option<String>) -> (r: DataUsage)
        ensures
            r.remaining.nanos == 0,
            r.total.nanos == 0,
            r.used_nanos == 0,
            r.percentage.num == 0,
            r.percentage.den == 1,
            r.plan_name == plan_name,
            r.valid_until == valid_until,
            r.is_unlimited,
            r.wf(),
            r.percentage.wf(),
    {
        DataUsage {
            remaining: GbQuantity { nanos: 0 },
            total: GbQuantity { nanos: 0 },
            used_nanos: 0,
            percentage: Percent { num: 0, den: 1 },
            plan_name,
            valid_until,
            is_unlimited: true,
        }
    }

    /// Decides `wf` at run time, for callers outside the proof (the
    /// presentation layer guards its inputs with this before formatting).
    pub fn is_consistent(&self) -> (r: bool)
        ensures
            r == self.wf(),
    {
        let derived = if self.total.nanos > 0 {
            self.percentage.num == 100 * ((self.total.nanos as i128) - (self.remaining.nanos
                as i128)) && self.percentage.den == self.total.nanos
        } else {
            self.percentage.num == 0 && self.percentage.den == 1
        };
        self.remaining.nanos <= MAX_GB_NANOS && self.total.nanos <= MAX_GB_NANOS && (
        self.used_nanos as i128) == (self.total.nanos as i128) - (self.remaining.nanos as i128)
            && derived && (!self.is_unlimited || (self.remaining.nanos == 0 && self.total.nanos
            == 0))
    }

    /// The percentage still available: exactly one hundred minus the usage
    /// percentage, over the same denominator.
    pub fn remaining_percentage(&self) -> (r: Percent)
        requires
            self.wf(),
        ensures
            r.num == 100 * (self.percentage.den as int) - self.percentage.num,
            r.den == self.percentage.den,
            r.wf(),
    {
        Percent {
            num: 100 * (self.percentage.den as i128) - self.percentage.num,
            den: self.percentage.den,
        }
    }
}

/// Law: in every well-formed record the used and remaining volumes
/// partition the total exactly.
pub proof fn lemma_volume_partition(d: DataUsage)
    requires
        d.wf(),
    ensures
        d.used_nanos + d.remaining.nanos == d.total.nanos,
{
}

/// Law: the usage percentage and the remaining percentage of a well-formed
/// record sum to exactly one hundred, as rationals over their common
/// denominator.
pub proof fn lemma_percentage_partition(d: DataUsage, r: Percent)
    requires
        d.wf(),
        r.num == 100 * (d.percentage.den as int) - d.percentage.num,
        r.den == d.percentage.den,
    ensures
        d.percentage.num + r.num == 100 * (d.percentage.den as int),
{
}

/// Law: a zero total yields a zero percentage, whatever the remaining
/// volume says — the deliberate division-by-zero guard.
pub proof fn lemma_zero_total_percentage(d: DataUsage)
    requires
        d.wf(),
        d.total.nanos == 0,
    ensures
        d.percentage.num == 0,
        d.percentage.den == 1,
{
}

} // verus!
