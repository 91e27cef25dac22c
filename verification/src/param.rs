//! Parameter ranges and the normalized/plain value mapping.
//!
//! A parameter's *plain* value lives in its natural domain, described by an
//! integer range of units; it is carried as fixed-point ticks, one unit being
//! [`NORM_ONE`] ticks. A continuous range maps a normalized value linearly
//! onto the domain; a stepped range snaps it to the nearest whole unit.

use vstd::prelude::*;
use vstd::arithmetic::div_mod::{
    lemma_div_multiples_vanish, lemma_multiply_divide_le, lemma_multiply_divide_lt,
};
use vstd::arithmetic::mul::{lemma_mul_inequality, lemma_mul_is_commutative};
use crate::units::{NORM_ONE, is_normalized};

verus! {

/// Largest magnitude, in plain units, that a range endpoint may have.
pub const UNIT_BOUND: i32 = 1_000_000;

/// How a range maps normalized values onto its domain.
#[derive(Clone, Copy, PartialEq, Eq, Structural, Debug)]
pub enum RangeKind {
    /// Every point of the domain is representable.
    Continuous,
    /// Only whole units are representable; values snap to the nearest one.
    Stepped,
}

/// The immutable description of one parameter's domain: its unit range and
/// whether it is stepped. Supplied at construction time and never changed.
#[derive(Clone, Copy, PartialEq, Eq, Structural, Debug)]
pub struct ParamRange {
    /// Smallest plain value, in units.
    pub min: i32,
    /// Largest plain value, in units.
    pub max: i32,
    /// Continuous or stepped mapping.
    pub kind: RangeKind,
}

impl ParamRange {
    /// A well-formed range is non-degenerate and small enough that all
    /// fixed-point arithmetic on it stays well within `i64`.
    pub open spec fn wf(self) -> bool {
        -UNIT_BOUND <= self.min && self.min < self.max && self.max <= UNIT_BOUND
    }

    /// Runtime check for [`ParamRange::wf`], for callers outside verified code.
    pub fn is_wf(&self) -> (r: bool)
        ensures
            r == self.wf(),
    {
        -UNIT_BOUND <= self.min && self.min < self.max && self.max <= UNIT_BOUND
    }

    /// The bipolar continuous range `[-1, +1]` that the XY surface binds its
    /// two axes to by default.
    pub fn bipolar() -> (r: ParamRange)
        ensures
            r.min == -1 && r.max == 1 && r.kind is Continuous,
            r.wf(),
    {
        ParamRange { min: -1, max: 1, kind: RangeKind::Continuous }
    }
}

/// The step, counted from `r.min`, nearest to normalized value `n`
/// (ties round up).
pub open spec fn spec_step_index(r: ParamRange, n: u32) -> int {
    (n as int * (r.max as int - r.min as int) + NORM_ONE as int / 2) / NORM_ONE as int
}

/// The plain value, in ticks, that writing normalized value `n` would give a
/// parameter of range `r`: the linear image for a continuous range, the
/// nearest whole unit for a stepped one.
pub open spec fn spec_preview_plain(r: ParamRange, n: u32) -> int {
    match r.kind {
        RangeKind::Continuous => {
            r.min as int * NORM_ONE as int + n as int * (r.max as int - r.min as int)
        },
        RangeKind::Stepped => (r.min as int + spec_step_index(r, n)) * NORM_ONE as int,
    }
}

/// The normalized value corresponding to plain value `p` (in ticks) under
/// range `r`.
pub open spec fn spec_normalized_of_plain(r: ParamRange, p: int) -> int {
    (p - r.min as int * NORM_ONE as int) / (r.max as int - r.min as int)
}

/// Compute the plain value (in ticks) that writing normalized value `n`
/// would produce, without writing anything.
pub fn preview_plain(r: &ParamRange, n: u32) -> (p: i64)
    requires
        r.wf(),
        is_normalized(n),
    ensures
        p == spec_preview_plain(*r, n),
        r.min as int * NORM_ONE as int <= p <= r.max as int * NORM_ONE as int,
{
    let span: i64 = r.max as i64 - r.min as i64;
    proof {
        assert(n as int * span as int <= NORM_ONE as int * span as int) by {
            lemma_mul_inequality(n as int, NORM_ONE as int, span as int);
        }
        assert(0 <= n as int * span as int) by {
            lemma_mul_inequality(0, n as int, span as int);
        }
    }
    match r.kind {
        RangeKind::Continuous => r.min as i64 * NORM_ONE as i64 + n as i64 * span,
        RangeKind::Stepped => {
            let num: u64 = n as u64 * span as u64 + (NORM_ONE / 2) as u64;
            let idx: u64 = num / NORM_ONE as u64;
            proof {
                assert((num as int) < NORM_ONE as int * (span as int + 1));
                assert((num as int / NORM_ONE as int) < span as int + 1) by {
                    lemma_multiply_divide_lt(num as int, NORM_ONE as int, span as int + 1);
                }
            }
            (r.min as i64 + idx as i64) * NORM_ONE as i64
        },
    }
}

/// Recover the normalized value from a plain value (in ticks) lying within
/// range `r`.
pub fn normalized_of_plain(r: &ParamRange, p: i64) -> (n: u32)
    requires
        r.wf(),
        r.min as int * NORM_ONE as int <= p <= r.max as int * NORM_ONE as int,
    ensures
        n == spec_normalized_of_plain(*r, p as int),
        is_normalized(n),
{
    let d: u64 = (p - r.min as i64 * NORM_ONE as i64) as u64;
    let span: u64 = (r.max as i64 - r.min as i64) as u64;
    let q: u64 = d / span;
    proof {
        assert(d as int <= span as int * NORM_ONE as int);
        assert(d as int / span as int <= NORM_ONE as int) by {
            lemma_multiply_divide_le(d as int, span as int, NORM_ONE as int);
        }
    }
    q as u32
}

/// Mapping idempotence: for a continuous range, previewing a normalized
/// value as plain and mapping the plain value back returns the original
/// normalized value exactly.
pub proof fn lemma_continuous_round_trip(r: ParamRange, n: u32)
    requires
        r.wf(),
        r.kind is Continuous,
        is_normalized(n),
    ensures
        spec_normalized_of_plain(r, spec_preview_plain(r, n)) == n as int,
{
    let span = r.max as int - r.min as int;
    assert(spec_preview_plain(r, n) - r.min as int * NORM_ONE as int == n as int * span);
    assert(n as int * span == span * n as int) by {
        lemma_mul_is_commutative(n as int, span);
    }
    assert((span * n as int) / span == n as int) by {
        lemma_div_multiples_vanish(n as int, span);
    }
}

/// Snap stability: the plain preview is a function of the range and the
/// normalized input alone, so repeated previews of one and the same input
/// return one and the same plain value.
pub proof fn lemma_preview_plain_stable(r: ParamRange, n1: u32, n2: u32)
    requires
        r.wf(),
        is_normalized(n1),
        n1 == n2,
    ensures
        spec_preview_plain(r, n1) == spec_preview_plain(r, n2),
{
}

/// One parameter as the control surface sees it: a stable identity, the
/// immutable range, and a snapshot of the current effective (post-modulation)
/// plain value in ticks, owned and refreshed by the host.
#[derive(Clone, Copy, PartialEq, Eq, Structural, Debug)]
pub struct ParamHandle {
    /// Stable, comparable identity of the parameter.
    pub id: u32,
    /// The parameter's domain.
    pub range: ParamRange,
    /// The current effective plain value, in ticks.
    pub current_plain: i64,
}

impl ParamHandle {
    pub open spec fn wf(self) -> bool {
        self.range.wf()
    }

    /// Runtime check for [`ParamHandle::wf`], for callers outside verified code.
    pub fn is_wf(&self) -> (r: bool)
        ensures
            r == self.wf(),
    {
        self.range.is_wf()
    }
}

} // verus!
