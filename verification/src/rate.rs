//! The rate model: four interchangeable units (nanosecond interval,
//! millisecond interval, second interval, clicks per second) converging on a
//! single canonical `(cps, wait_ns)` pair. An edit that would drive either
//! field to zero is rejected before it reaches the pair.

use vstd::prelude::*;
use vstd::arithmetic::div_mod::{
    lemma_basic_div, lemma_div_by_multiple, lemma_div_non_zero, lemma_fundamental_div_mod,
    lemma_mod_bound,
};

verus! {

/// Nanoseconds in one second.
pub const NANOS_PER_SECOND: u64 = 1_000_000_000;

/// Nanoseconds in one millisecond.
pub const NANOS_PER_MILLISECOND: u64 = 1_000_000;

/// The unit a rate edit is expressed in.
#[derive(Clone, Copy, Debug, PartialEq, Eq, Structural)]
pub enum RateUnit {
    Nanos,
    Millis,
    Secs,
    Cps,
}

/// A rejected rate edit: the raw value was zero, or truncation would have
/// driven one side of the canonical pair to zero.
#[derive(Clone, Copy, Debug, PartialEq, Eq, Structural)]
pub struct InvalidRate;

/// The canonical pair: clicks per second and the wait interval between
/// clicks, in nanoseconds.
#[derive(Clone, Copy, Debug, PartialEq, Eq, Structural)]
pub struct RateSpecification {
    pub cps: u64,
    pub wait_ns: u64,
}

/// The wait interval, in nanoseconds, that an edit of `raw` in `unit`
/// denotes, before any range check.
pub open spec fn spec_wait_of(unit: RateUnit, raw: u64) -> int {
    match unit {
        RateUnit::Nanos => raw as int,
        RateUnit::Millis => raw as int * NANOS_PER_MILLISECOND as int,
        RateUnit::Secs => raw as int * NANOS_PER_SECOND as int,
        RateUnit::Cps => NANOS_PER_SECOND as int / raw as int,
    }
}

/// The clicks-per-second value that an edit of `raw` in `unit` denotes,
/// before any range check.
pub open spec fn spec_cps_of(unit: RateUnit, raw: u64) -> int {
    match unit {
        RateUnit::Cps => raw as int,
        _ => NANOS_PER_SECOND as int / spec_wait_of(unit, raw),
    }
}

/// An edit is accepted exactly when it is non-zero and neither derived field
/// of the canonical pair truncates to zero.
pub open spec fn accepts(unit: RateUnit, raw: u64) -> bool {
    &&& 1 <= raw
    &&& 1 <= spec_wait_of(unit, raw)
    &&& 1 <= spec_cps_of(unit, raw)
}

/// The canonical pair that an accepted edit of `raw` in `unit` produces.
pub open spec fn spec_pair_of(unit: RateUnit, raw: u64) -> RateSpecification {
    RateSpecification {
        cps: spec_cps_of(unit, raw) as u64,
        wait_ns: spec_wait_of(unit, raw) as u64,
    }
}

/// The value displayed for `unit`, recomputed from the canonical pair alone.
pub open spec fn spec_display_of(pair: RateSpecification, unit: RateUnit) -> u64 {
    match unit {
        RateUnit::Nanos => pair.wait_ns,
        RateUnit::Millis => pair.wait_ns / NANOS_PER_MILLISECOND,
        RateUnit::Secs => pair.wait_ns / NANOS_PER_SECOND,
        RateUnit::Cps => pair.cps,
    }
}

impl RateSpecification {
    /// Well-formed canonical pair: neither field is zero, the product does
    /// not exceed one second of nanoseconds, and the pair is tight: the
    /// shortfall below one second is smaller than one of the two fields
    /// (the one the pair was derived against).
    pub open spec fn wf(self) -> bool {
        &&& 1 <= self.cps <= NANOS_PER_SECOND
        &&& 1 <= self.wait_ns <= NANOS_PER_SECOND
        &&& self.cps * self.wait_ns <= NANOS_PER_SECOND
        &&& (NANOS_PER_SECOND < self.cps * self.wait_ns + self.wait_ns
            || NANOS_PER_SECOND < self.cps * self.wait_ns + self.cps)
    }

    /// Recompute the display value of `unit` from the canonical pair.
    pub fn display_value(&self, unit: RateUnit) -> (r: u64)
        ensures
            r == spec_display_of(*self, unit),
    {
        match unit {
            RateUnit::Nanos => self.wait_ns,
            RateUnit::Millis => self.wait_ns / NANOS_PER_MILLISECOND,
            RateUnit::Secs => self.wait_ns / NANOS_PER_SECOND,
            RateUnit::Cps => self.cps,
        }
    }
}

/// Dividing one second by a wait interval of at most one second gives a
/// rate of at least one, and the product of the two lands within one wait
/// interval below one second.
proof fn lemma_quotient_pair(wait: int)
    requires
        1 <= wait <= NANOS_PER_SECOND,
    ensures
        ({
            let q = NANOS_PER_SECOND as int / wait;
            &&& 1 <= q <= NANOS_PER_SECOND
            &&& q * wait <= NANOS_PER_SECOND
            &&& NANOS_PER_SECOND < q * wait + wait
        }),
{
    let n = NANOS_PER_SECOND as int;
    let q = n / wait;
    lemma_div_non_zero(n, wait);
    lemma_fundamental_div_mod(n, wait);
    lemma_mod_bound(n, wait);
    assert(q * wait == n - n % wait) by (nonlinear_arith)
        requires n == wait * q + n % wait;
    assert(q <= q * wait) by (nonlinear_arith)
        requires 1 <= q, 1 <= wait;
}

/// An accepted edit keeps both derived fields within one second's worth of
/// nanoseconds; per unit, the raw value is bounded accordingly.
pub proof fn lemma_accepts_bounds(unit: RateUnit, raw: u64)
    requires
        accepts(unit, raw),
    ensures
        1 <= spec_wait_of(unit, raw) <= NANOS_PER_SECOND,
        1 <= spec_cps_of(unit, raw) <= NANOS_PER_SECOND,
        unit is Nanos ==> raw <= NANOS_PER_SECOND,
        unit is Millis ==> raw <= 1000,
        unit is Secs ==> raw == 1,
        unit is Cps ==> raw <= NANOS_PER_SECOND,
{
    let n = NANOS_PER_SECOND as int;
    let wait = spec_wait_of(unit, raw);
    match unit {
        RateUnit::Cps => {
            if raw > NANOS_PER_SECOND {
                lemma_basic_div(n, raw as int);
            }
            lemma_quotient_pair(raw as int);
        }
        _ => {
            if wait > n {
                lemma_basic_div(n, wait);
            }
            lemma_quotient_pair(wait);
        }
    }
}

/// Convert one rate edit into the canonical pair. Returns the derived pair
/// exactly when the edit is accepted: the raw value is non-zero and neither
/// derived field truncates to zero. Every returned pair is well formed.
pub fn set(unit: RateUnit, raw: u64) -> (r: Result<RateSpecification, InvalidRate>)
    ensures
        r is Ok <==> accepts(unit, raw),
        r matches Ok(pair) ==> pair == spec_pair_of(unit, raw) && pair.wf(),
{
    let n = NANOS_PER_SECOND;
    match unit {
        RateUnit::Nanos => {
            if raw == 0 || raw > n {
                proof {
                    if raw > n {
                        lemma_basic_div(n as int, raw as int);
                    }
                }
                Err(InvalidRate)
            } else {
                let cps = n / raw;
                proof {
                    lemma_quotient_pair(raw as int);
                }
                Ok(RateSpecification { cps, wait_ns: raw })
            }
        }
        RateUnit::Millis => {
            if raw == 0 || raw > 1000 {
                proof {
                    if raw > 1000 {
                        lemma_basic_div(n as int, raw as int * NANOS_PER_MILLISECOND as int);
                    }
                }
                Err(InvalidRate)
            } else {
                let wait = raw * NANOS_PER_MILLISECOND;
                let cps = n / wait;
                proof {
                    lemma_quotient_pair(wait as int);
                }
                Ok(RateSpecification { cps, wait_ns: wait })
            }
        }
        RateUnit::Secs => {
            if raw != 1 {
                proof {
                    if raw >= 2 {
                        lemma_basic_div(n as int, raw as int * NANOS_PER_SECOND as int);
                    }
                }
                Err(InvalidRate)
            } else {
                let wait = raw * n;
                let cps = n / wait;
                proof {
                    lemma_quotient_pair(wait as int);
                }
                Ok(RateSpecification { cps, wait_ns: wait })
            }
        }
        RateUnit::Cps => {
            if raw == 0 || raw > n {
                proof {
                    if raw > n {
                        lemma_basic_div(n as int, raw as int);
                    }
                }
                Err(InvalidRate)
            } else {
                let wait = n / raw;
                proof {
                    lemma_quotient_pair(raw as int);
                }
                Ok(RateSpecification { cps: raw, wait_ns: wait })
            }
        }
    }
}

/// Round trip: after an accepted edit, recomputing the edited unit's display
/// value from the resulting canonical pair gives back the edited value
/// exactly — not merely within the unit's granularity.
pub proof fn lemma_unit_round_trip(unit: RateUnit, raw: u64)
    requires
        accepts(unit, raw),
    ensures
        spec_display_of(spec_pair_of(unit, raw), unit) == raw,
{
    lemma_accepts_bounds(unit, raw);
    match unit {
        RateUnit::Nanos => {}
        RateUnit::Millis => {
            lemma_div_by_multiple(raw as int, NANOS_PER_MILLISECOND as int);
        }
        RateUnit::Secs => {
            lemma_div_by_multiple(raw as int, NANOS_PER_SECOND as int);
        }
        RateUnit::Cps => {}
    }
}

/// Integer-division rounding bound: the product of an accepted pair lies in
/// `[NANOS_PER_SECOND - wait_ns, NANOS_PER_SECOND]`. For the three interval
/// units this holds of every accepted edit; for a clicks-per-second edit it
/// holds when the division's remainder does not exceed its quotient (a
/// clicks-per-second edit always satisfies the symmetric bound with `cps` in
/// place of `wait_ns`, stated separately below).
pub proof fn lemma_rounding_bound(unit: RateUnit, raw: u64)
    requires
        accepts(unit, raw),
        unit is Cps ==> NANOS_PER_SECOND as int % raw as int <= NANOS_PER_SECOND as int / raw as int,
    ensures
        ({
            let pair = spec_pair_of(unit, raw);
            &&& NANOS_PER_SECOND - pair.wait_ns <= pair.cps * pair.wait_ns
            &&& pair.cps * pair.wait_ns <= NANOS_PER_SECOND
        }),
{
    let n = NANOS_PER_SECOND as int;
    lemma_accepts_bounds(unit, raw);
    match unit {
        RateUnit::Cps => {
            let wait = n / raw as int;
            lemma_quotient_pair(raw as int);
            lemma_fundamental_div_mod(n, raw as int);
            lemma_mod_bound(n, raw as int);
            assert(raw as int * wait == n - n % raw as int) by (nonlinear_arith)
                requires n == raw as int * (n / raw as int) + n % raw as int, wait == n / raw as int;
        }
        _ => {
            let wait = spec_wait_of(unit, raw);
            lemma_quotient_pair(wait);
        }
    }
}

/// The symmetric rounding bound for clicks-per-second edits: the product of
/// the pair lies in `[NANOS_PER_SECOND - cps, NANOS_PER_SECOND]` for every
/// accepted clicks-per-second edit.
pub proof fn lemma_cps_rounding_bound(raw: u64)
    requires
        accepts(RateUnit::Cps, raw),
    ensures
        ({
            let pair = spec_pair_of(RateUnit::Cps, raw);
            &&& NANOS_PER_SECOND - pair.cps <= pair.cps * pair.wait_ns
            &&& pair.cps * pair.wait_ns <= NANOS_PER_SECOND
        }),
{
    let n = NANOS_PER_SECOND as int;
    lemma_accepts_bounds(RateUnit::Cps, raw);
    lemma_quotient_pair(raw as int);
    let wait = n / raw as int;
    assert(raw as int * wait == wait * raw as int) by (nonlinear_arith);
}

} // verus!
