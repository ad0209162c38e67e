use vstd::prelude::*;

verus! {

/// A caller-contract violation caught at setup time, before the evaluation
/// hot path. None of these is recoverable per call: each marks a
/// configuration that would make evaluation meaningless or divide by zero.
#[derive(Clone, Copy, Debug, PartialEq, Eq, Structural)]
pub enum SetupError {
    /// The candidate joint vector's length differs from the robot's
    /// degree-of-freedom count.
    DofMismatch { expected: usize, actual: usize },
    /// Degree of freedom `index` has a lower bound that is not strictly
    /// below its upper bound, so the joint-limit normalization would divide
    /// by zero.
    DegenerateBounds { index: usize },
    /// The cost term at `position` in the active list scores arm `arm_idx`,
    /// which is not a valid index into the goal and frame lists.
    ArmIndexOutOfRange { position: usize, arm_idx: usize },
}

/// A setup is acceptable when the joint vector matches the
/// degree-of-freedom count, every degree of freedom has strictly ordered
/// bounds, and every arm index scored by an active cost term is in range.
pub open spec fn setup_ok(
    num_dof: int,
    x_len: int,
    bounds_ordered: Seq<bool>,
    num_arms: int,
    arm_indices: Seq<usize>,
) -> bool {
    &&& x_len == num_dof
    &&& forall|i: int| 0 <= i < bounds_ordered.len() ==> bounds_ordered[i]
    &&& forall|j: int| 0 <= j < arm_indices.len() ==> arm_indices[j] < num_arms
}

/// Checks a configuration once, at setup time. `bounds_ordered[i]` reports
/// whether degree of freedom `i` has its lower bound strictly below its
/// upper bound; `arm_indices` lists the arm index of every active
/// goal-matching or collision term. Violations are reported in a fixed
/// order: joint-vector length first, then the first degenerate bound, then
/// the first out-of-range arm index.
#[verifier::loop_isolation(false)]
pub fn validate_setup(
    num_dof: usize,
    x_len: usize,
    bounds_ordered: &Vec<bool>,
    num_arms: usize,
    arm_indices: &Vec<usize>,
) -> (r: Result<(), SetupError>)
    requires
        bounds_ordered@.len() == num_dof,
    ensures
        r is Ok <==> setup_ok(num_dof as int, x_len as int, bounds_ordered@, num_arms as int, arm_indices@),
        x_len != num_dof ==> r == Result::<(), SetupError>::Err(SetupError::DofMismatch { expected: num_dof, actual: x_len }),
        (r matches Err(SetupError::DegenerateBounds { index }) ==> {
            &&& x_len == num_dof
            &&& 0 <= index < num_dof
            &&& !bounds_ordered@[index as int]
            &&& forall|k: int| 0 <= k < index ==> bounds_ordered@[k]
        }),
        (x_len == num_dof && (exists|i: int| 0 <= i < num_dof && !bounds_ordered@[i]))
            ==> (r matches Err(SetupError::DegenerateBounds { .. })),
        (r matches Err(SetupError::ArmIndexOutOfRange { position, arm_idx }) ==> {
            &&& x_len == num_dof
            &&& forall|i: int| 0 <= i < num_dof ==> bounds_ordered@[i]
            &&& 0 <= position < arm_indices@.len()
            &&& arm_indices@[position as int] == arm_idx
            &&& arm_idx >= num_arms
            &&& forall|k: int| 0 <= k < position ==> arm_indices@[k] < num_arms
        }),
{
    if x_len != num_dof {
        return Err(SetupError::DofMismatch { expected: num_dof, actual: x_len });
    }
    let mut i: usize = 0;
    while i < bounds_ordered.len()
        invariant
            i <= bounds_ordered@.len(),
            bounds_ordered@.len() == num_dof,
            forall|k: int| 0 <= k < i ==> bounds_ordered@[k],
        decreases bounds_ordered@.len() - i,
    {
        if !bounds_ordered[i] {
            return Err(SetupError::DegenerateBounds { index: i });
        }
        i = i + 1;
    }
    let mut j: usize = 0;
    while j < arm_indices.len()
        invariant
            j <= arm_indices@.len(),
            forall|k: int| 0 <= k < j ==> arm_indices@[k] < num_arms,
        decreases arm_indices@.len() - j,
    {
        if arm_indices[j] >= num_arms {
            return Err(SetupError::ArmIndexOutOfRange { position: j, arm_idx: arm_indices[j] });
        }
        j = j + 1;
    }
    Ok(())
}

} // verus!
