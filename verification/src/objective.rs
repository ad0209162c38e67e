use vstd::prelude::*;
use crate::shaping::{GrooveParams, groove_wf, goal_groove, collision_groove, limit_groove};

verus! {

/// Which gradient strategy a cost term uses. The optimizer batches
/// finite-difference terms differently from analytic ones, so every term
/// advertises its strategy as an explicit enumerated property.
#[derive(Clone, Copy, Debug, PartialEq, Eq, Structural)]
pub enum GradientKind {
    /// The term supplies a closed-form gradient of its own.
    Analytic,
    /// The term falls back on the generic forward-difference engine.
    FiniteDifference,
}

/// Perturbation step of the generic forward-difference gradient on the full
/// evaluation path, in nano-units: `1e-9`.
///
/// The full path and the lite path use steps two orders of magnitude apart;
/// the asymmetry is deliberate, so the two steps are kept as separate
/// constants rather than unified.
pub fn finite_difference_step_nanos() -> (r: i64)
    ensures
        r == 1,
{
    1
}

/// Perturbation step of the generic forward-difference gradient on the lite
/// (end-effector-only) evaluation path, in nano-units: `1e-7`.
pub fn finite_difference_step_lite_nanos() -> (r: i64)
    ensures
        r == 100,
{
    100
}

/// The goal-groove tuple as a runtime value.
fn goal_groove_value() -> (r: GrooveParams)
    ensures
        r == goal_groove(),
        groove_wf(r),
{
    GrooveParams {
        target_nanos: 0,
        power: 2,
        width_nanos: 100_000_000,
        trend_nanos: 10_000_000_000,
        trend_power: 2,
    }
}

/// The collision-groove tuple as a runtime value.
fn collision_groove_value() -> (r: GrooveParams)
    ensures
        r == collision_groove(),
        groove_wf(r),
{
    GrooveParams {
        target_nanos: 0,
        power: 2,
        width_nanos: 2_100_000_000,
        trend_nanos: 200_000,
        trend_power: 4,
    }
}

/// The joint-limit-groove tuple as a runtime value.
fn limit_groove_value() -> (r: GrooveParams)
    ensures
        r == limit_groove(),
        groove_wf(r),
{
    GrooveParams {
        target_nanos: 0,
        power: 2,
        width_nanos: 329_500_000,
        trend_nanos: 100_000_000,
        trend_power: 2,
    }
}

/// Cost term matching an arm's end-effector position against its goal
/// position: the raw error is the Euclidean distance between the two, fed
/// through the goal groove shape.
pub struct MatchEEPosGoals {
    /// Index of the kinematic chain this term scores; must be a valid index
    /// into the goal and frame lists.
    pub arm_idx: usize,
}

impl MatchEEPosGoals {
    pub fn new(arm_idx: usize) -> (r: Self)
        ensures
            r.arm_idx == arm_idx,
    {
        Self { arm_idx }
    }

    /// Groove shape this term feeds its raw error through.
    pub fn groove_params(&self) -> (r: GrooveParams)
        ensures
            r == goal_groove(),
            groove_wf(r),
    {
        goal_groove_value()
    }

    pub fn gradient_kind(&self) -> (r: GradientKind)
        ensures
            r == GradientKind::FiniteDifference,
    {
        GradientKind::FiniteDifference
    }
}

/// Cost term matching an arm's end-effector orientation against its goal
/// orientation. A unit quaternion and its negation encode the same rotation,
/// so the raw error is the smaller of the angular distances measured against
/// the orientation and against its component-wise negation; the minimum is
/// then fed through the goal groove shape.
pub struct MatchEEQuatGoals {
    /// Index of the kinematic chain this term scores; must be a valid index
    /// into the goal and frame lists.
    pub arm_idx: usize,
}

impl MatchEEQuatGoals {
    pub fn new(arm_idx: usize) -> (r: Self)
        ensures
            r.arm_idx == arm_idx,
    {
        Self { arm_idx }
    }

    /// Groove shape this term feeds its raw error through.
    pub fn groove_params(&self) -> (r: GrooveParams)
        ensures
            r == goal_groove(),
            groove_wf(r),
    {
        goal_groove_value()
    }

    pub fn gradient_kind(&self) -> (r: GradientKind)
        ensures
            r == GradientKind::FiniteDifference,
    {
        GradientKind::FiniteDifference
    }
}

/// Cost term over a learned self-collision proxy distance. The external
/// predictor estimates how close the robot is to intersecting itself; the
/// estimate is fed through the wide collision groove shape. The predictor
/// also supplies a cheap raw gradient, so this is the one term with an
/// analytic gradient: the chain rule multiplies the predictor's per-joint
/// gradient by the groove derivative at the predicted value, bypassing the
/// forward-difference engine entirely.
pub struct NNSelfCollision;

impl NNSelfCollision {
    /// Groove shape this term feeds the predicted proxy distance through.
    pub fn groove_params(&self) -> (r: GrooveParams)
        ensures
            r == collision_groove(),
            groove_wf(r),
    {
        collision_groove_value()
    }

    pub fn gradient_kind(&self) -> (r: GradientKind)
        ensures
            r == GradientKind::Analytic,
    {
        GradientKind::Analytic
    }
}

/// Inverse-power barrier placed around each static obstacle by the
/// environment-collision term: a per-link penalty
/// `a / distance^exponent` with `a = scale * cutoff^exponent` and
/// `cutoff = link_radius / cutoff_divisor`. The barrier explodes as the
/// clearance approaches zero and vanishes once clear of the cutoff radius.
#[derive(Clone, Copy, Debug, PartialEq, Eq, Structural)]
pub struct BarrierParams {
    /// Coefficient applied to `cutoff^exponent`, in nano-units: `0.005`.
    pub scale_nanos: i64,
    /// The cutoff radius is the robot link radius divided by this.
    pub cutoff_divisor: u32,
    /// Exponent of the inverse-power barrier.
    pub exponent: u32,
}

/// Cost term penalizing encroachment of one arm's links on the static
/// obstacles of the scene. Per obstacle, an inverse-power barrier penalty is
/// summed over every consecutive pair of link frames; the worst single
/// obstacle dominates (maximum across obstacles, not a sum), and that value
/// is fed through the wide collision groove shape.
pub struct EnvCollision {
    /// Index of the kinematic chain this term scores; must be a valid index
    /// into the frame lists.
    pub arm_idx: usize,
}

impl EnvCollision {
    pub fn new(arm_idx: usize) -> (r: Self)
        ensures
            r.arm_idx == arm_idx,
    {
        Self { arm_idx }
    }

    /// Groove shape the summed-then-maxed barrier value is fed through.
    pub fn groove_params(&self) -> (r: GrooveParams)
        ensures
            r == collision_groove(),
            groove_wf(r),
    {
        collision_groove_value()
    }

    /// Barrier placed around each obstacle:
    /// `a / d^10` with `a = 0.005 * (link_radius / 2)^10`.
    pub fn barrier_params(&self) -> (r: BarrierParams)
        ensures
            r == (BarrierParams { scale_nanos: 5_000_000, cutoff_divisor: 2, exponent: 10 }),
    {
        BarrierParams { scale_nanos: 5_000_000, cutoff_divisor: 2, exponent: 10 }
    }

    /// The link segments scored against each obstacle: one segment per
    /// consecutive pair of link frames, in chain order from base to tip, so
    /// a chain of `num_frames` frames contributes `num_frames - 1` segments.
    pub fn link_segments(&self, num_frames: usize) -> (r: Vec<(usize, usize)>)
        ensures
            num_frames == 0 ==> r@.len() == 0,
            num_frames > 0 ==> r@.len() == num_frames - 1,
            forall|k: int| 0 <= k < r@.len() ==> r@[k].0 == k && r@[k].1 == k + 1,
    {
        let mut r: Vec<(usize, usize)> = Vec::new();
        if num_frames == 0 {
            return r;
        }
        let mut j: usize = 0;
        while j + 1 < num_frames
            invariant
                num_frames >= 1,
                j <= num_frames - 1,
                r@.len() == j,
                forall|k: int| 0 <= k < j ==> r@[k].0 == k && r@[k].1 == k + 1,
            decreases num_frames - j,
        {
            r.push((j, j + 1));
            j = j + 1;
        }
        r
    }

    /// Floor applied to every link-to-obstacle clearance before the
    /// inverse-power barrier, in nano-units: `1e-6`. A link touching or
    /// penetrating an obstacle would otherwise feed the barrier a zero or
    /// negative distance and hand the optimizer a non-finite cost, the
    /// single most damaging failure mode for the surrounding search.
    pub fn distance_floor_nanos(&self) -> (r: i64)
        ensures
            r == 1000,
    {
        1000
    }

    /// Raw input the lite path feeds the groove shape, in nano-units: the
    /// constant `1.0`. Link-level geometry is unavailable without full
    /// frames, so the lite path returns a constant stand-in cost; a caller
    /// relying exclusively on the lite path is never steered around
    /// obstacles.
    pub fn lite_stand_in_nanos(&self) -> (r: i64)
        ensures
            r == 1_000_000_000,
    {
        1_000_000_000
    }

    pub fn gradient_kind(&self) -> (r: GradientKind)
        ensures
            r == GradientKind::FiniteDifference,
    {
        GradientKind::FiniteDifference
    }
}

/// Inner penalty of the joint-limit term, applied per degree of freedom
/// before the groove shape. The coordinate is normalized to `[-1, 1]` over
/// its bounds, then `a * n^exponent` accumulates with
/// `a = scale / cutoff^exponent`: near zero deep inside the range, rising
/// sharply within the outer `1 - cutoff` fraction near either bound.
#[derive(Clone, Copy, Debug, PartialEq, Eq, Structural)]
pub struct LimitPenaltyParams {
    /// Fraction of the half-range where the penalty engages, in nano-units.
    pub cutoff_nanos: i64,
    /// Numerator of the coefficient `a`, in nano-units: `0.05`.
    pub scale_nanos: i64,
    /// Exponent of the normalized coordinate.
    pub exponent: u32,
}

/// Cost term keeping every joint coordinate away from its bounds: a steep
/// polynomial penalty per degree of freedom, summed and fed through the
/// joint-limit groove shape.
pub struct JointLimits;

impl JointLimits {
    /// Groove shape the accumulated penalty is fed through.
    pub fn groove_params(&self) -> (r: GrooveParams)
        ensures
            r == limit_groove(),
            groove_wf(r),
    {
        limit_groove_value()
    }

    /// Penalty parameters of the full evaluation path: cutoff `0.9`.
    ///
    /// The lite path uses the stricter cutoff `0.85`; the asymmetry is
    /// deliberate, so the two parameter sets are kept separate.
    pub fn penalty_params(&self) -> (r: LimitPenaltyParams)
        ensures
            r == (LimitPenaltyParams { cutoff_nanos: 900_000_000, scale_nanos: 50_000_000, exponent: 50 }),
    {
        LimitPenaltyParams { cutoff_nanos: 900_000_000, scale_nanos: 50_000_000, exponent: 50 }
    }

    /// Penalty parameters of the lite evaluation path: cutoff `0.85`.
    pub fn penalty_params_lite(&self) -> (r: LimitPenaltyParams)
        ensures
            r == (LimitPenaltyParams { cutoff_nanos: 850_000_000, scale_nanos: 50_000_000, exponent: 50 }),
    {
        LimitPenaltyParams { cutoff_nanos: 850_000_000, scale_nanos: 50_000_000, exponent: 50 }
    }

    pub fn gradient_kind(&self) -> (r: GradientKind)
        ensures
            r == GradientKind::FiniteDifference,
    {
        GradientKind::FiniteDifference
    }
}

/// Smoothness term penalizing the first difference between the candidate
/// configuration and the last accepted optimum: the Euclidean norm of the
/// per-joint differences, fed through the goal groove shape.
pub struct MinimizeVelocity;

impl MinimizeVelocity {
    /// Groove shape this term feeds the difference norm through.
    pub fn groove_params(&self) -> (r: GrooveParams)
        ensures
            r == goal_groove(),
            groove_wf(r),
    {
        goal_groove_value()
    }

    pub fn gradient_kind(&self) -> (r: GradientKind)
        ensures
            r == GradientKind::FiniteDifference,
    {
        GradientKind::FiniteDifference
    }
}

/// Smoothness term penalizing the second difference across the candidate,
/// the last accepted optimum, and the optimum before it: the Euclidean norm
/// of the per-joint second differences, fed through the goal groove shape.
pub struct MinimizeAcceleration;

impl MinimizeAcceleration {
    /// Groove shape this term feeds the difference norm through.
    pub fn groove_params(&self) -> (r: GrooveParams)
        ensures
            r == goal_groove(),
            groove_wf(r),
    {
        goal_groove_value()
    }

    pub fn gradient_kind(&self) -> (r: GradientKind)
        ensures
            r == GradientKind::FiniteDifference,
    {
        GradientKind::FiniteDifference
    }
}

/// Smoothness term penalizing the third difference across the candidate and
/// the last three accepted states: the Euclidean norm of the per-joint third
/// differences, fed through the goal groove shape.
pub struct MinimizeJerk;

impl MinimizeJerk {
    /// Groove shape this term feeds the difference norm through.
    pub fn groove_params(&self) -> (r: GrooveParams)
        ensures
            r == goal_groove(),
            groove_wf(r),
    {
        goal_groove_value()
    }

    pub fn gradient_kind(&self) -> (r: GradientKind)
        ensures
            r == GradientKind::FiniteDifference,
    {
        GradientKind::FiniteDifference
    }
}

} // verus!
