use vstd::prelude::*;

verus! {

/// Number of nano-units in one unit.
///
/// Every real-valued tuning constant of the objective layer is an exact
/// multiple of one nano-unit, so each is stored here as an integer count of
/// nano-units. That keeps the constants inside the verified crate, where
/// their values are stated in contracts and checked, while the
/// floating-point evaluation layer divides by this factor to recover the
/// working value.
pub const NANOS_PER_UNIT: i64 = 1_000_000_000;

/// Tuning tuple `(t, d, c, f, g)` of the groove loss
/// `-exp(-(x - t)^d / (2 c^2)) + f * (x - t)^g`: a smooth bowl with minimum
/// `-1` at `x == t` when `f == 0`, widened or narrowed by `c`, plus a
/// polynomial trend term that keeps the function informative far from the
/// target so the optimizer never loses gradient signal at large errors.
#[derive(Clone, Copy, Debug, PartialEq, Eq, Structural)]
pub struct GrooveParams {
    /// `t`, the target input value, in nano-units.
    pub target_nanos: i64,
    /// `d`, the exponent of the bowl term; a non-negative integer.
    pub power: u32,
    /// `c`, the bowl width, in nano-units; never zero, since the bowl term
    /// divides by `2 c^2`.
    pub width_nanos: i64,
    /// `f`, the coefficient of the trend term, in nano-units.
    pub trend_nanos: i64,
    /// `g`, the exponent of the trend term; a non-negative integer.
    pub trend_power: u32,
}

/// A groove tuple is well formed when its width `c` is non-zero, so the
/// division inside the bowl term is defined.
pub open spec fn groove_wf(p: GrooveParams) -> bool {
    p.width_nanos != 0
}

/// The narrow, steep shape shared by the goal-matching and
/// temporal-smoothness terms: `(t, d, c, f, g) = (0, 2, 0.1, 10.0, 2)`.
pub open spec fn goal_groove() -> GrooveParams {
    GrooveParams {
        target_nanos: 0,
        power: 2,
        width_nanos: 100_000_000,
        trend_nanos: 10_000_000_000,
        trend_power: 2,
    }
}

/// The much wider, gentler shape shared by the two collision terms, a soft
/// safety margin rather than a hard goal:
/// `(t, d, c, f, g) = (0, 2, 2.1, 0.0002, 4)`.
pub open spec fn collision_groove() -> GrooveParams {
    GrooveParams {
        target_nanos: 0,
        power: 2,
        width_nanos: 2_100_000_000,
        trend_nanos: 200_000,
        trend_power: 4,
    }
}

/// The shape of the joint-limit term:
/// `(t, d, c, f, g) = (0, 2, 0.3295, 0.1, 2)`.
pub open spec fn limit_groove() -> GrooveParams {
    GrooveParams {
        target_nanos: 0,
        power: 2,
        width_nanos: 329_500_000,
        trend_nanos: 100_000_000,
        trend_power: 2,
    }
}

} // verus!
