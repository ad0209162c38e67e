use relaxed_ik::objective::{
    EnvCollision, GradientKind, JointLimits, MatchEEPosGoals, MatchEEQuatGoals,
    MinimizeAcceleration, MinimizeJerk, MinimizeVelocity, NNSelfCollision,
    finite_difference_step_lite_nanos, finite_difference_step_nanos,
};
use relaxed_ik::shaping::NANOS_PER_UNIT;

#[test]
fn one_nano_unit_is_a_billionth() {
    assert_eq!(NANOS_PER_UNIT, 1_000_000_000);
}

#[test]
fn constructors_store_the_arm_index() {
    assert_eq!(MatchEEPosGoals::new(0).arm_idx, 0);
    assert_eq!(MatchEEPosGoals::new(3).arm_idx, 3);
    assert_eq!(MatchEEQuatGoals::new(1).arm_idx, 1);
    assert_eq!(EnvCollision::new(2).arm_idx, 2);
}

#[test]
fn only_the_self_collision_term_is_analytic() {
    assert_eq!(NNSelfCollision.gradient_kind(), GradientKind::Analytic);
    assert_eq!(MatchEEPosGoals::new(0).gradient_kind(), GradientKind::FiniteDifference);
    assert_eq!(MatchEEQuatGoals::new(0).gradient_kind(), GradientKind::FiniteDifference);
    assert_eq!(EnvCollision::new(0).gradient_kind(), GradientKind::FiniteDifference);
    assert_eq!(JointLimits.gradient_kind(), GradientKind::FiniteDifference);
    assert_eq!(MinimizeVelocity.gradient_kind(), GradientKind::FiniteDifference);
    assert_eq!(MinimizeAcceleration.gradient_kind(), GradientKind::FiniteDifference);
    assert_eq!(MinimizeJerk.gradient_kind(), GradientKind::FiniteDifference);
}

#[test]
fn goal_groove_exact_values() {
    let p = MatchEEPosGoals::new(0).groove_params();
    assert_eq!(p.target_nanos, 0);
    assert_eq!(p.power, 2);
    assert_eq!(p.width_nanos, 100_000_000);
    assert_eq!(p.trend_nanos, 10_000_000_000);
    assert_eq!(p.trend_power, 2);
}

#[test]
fn goal_matching_and_smoothness_share_one_groove() {
    let p = MatchEEPosGoals::new(0).groove_params();
    assert_eq!(MatchEEQuatGoals::new(0).groove_params(), p);
    assert_eq!(MinimizeVelocity.groove_params(), p);
    assert_eq!(MinimizeAcceleration.groove_params(), p);
    assert_eq!(MinimizeJerk.groove_params(), p);
}

#[test]
fn collision_groove_exact_values() {
    let p = NNSelfCollision.groove_params();
    assert_eq!(p.target_nanos, 0);
    assert_eq!(p.power, 2);
    assert_eq!(p.width_nanos, 2_100_000_000);
    assert_eq!(p.trend_nanos, 200_000);
    assert_eq!(p.trend_power, 4);
}

#[test]
fn both_collision_terms_share_one_groove() {
    assert_eq!(EnvCollision::new(0).groove_params(), NNSelfCollision.groove_params());
}

#[test]
fn joint_limit_groove_exact_values() {
    let p = JointLimits.groove_params();
    assert_eq!(p.target_nanos, 0);
    assert_eq!(p.power, 2);
    assert_eq!(p.width_nanos, 329_500_000);
    assert_eq!(p.trend_nanos, 100_000_000);
    assert_eq!(p.trend_power, 2);
}

#[test]
fn joint_limit_cutoffs_keep_their_asymmetry() {
    let full = JointLimits.penalty_params();
    let lite = JointLimits.penalty_params_lite();
    assert_eq!(full.cutoff_nanos, 900_000_000);
    assert_eq!(lite.cutoff_nanos, 850_000_000);
    assert!(lite.cutoff_nanos < full.cutoff_nanos);
    assert_eq!(full.scale_nanos, 50_000_000);
    assert_eq!(lite.scale_nanos, 50_000_000);
    assert_eq!(full.exponent, 50);
    assert_eq!(lite.exponent, 50);
}

#[test]
fn finite_difference_steps_keep_their_asymmetry() {
    assert_eq!(finite_difference_step_nanos(), 1);
    assert_eq!(finite_difference_step_lite_nanos(), 100);
    assert_eq!(finite_difference_step_lite_nanos(), 100 * finite_difference_step_nanos());
}

#[test]
fn collision_barrier_exact_values() {
    let b = EnvCollision::new(0).barrier_params();
    assert_eq!(b.scale_nanos, 5_000_000);
    assert_eq!(b.cutoff_divisor, 2);
    assert_eq!(b.exponent, 10);
}

#[test]
fn one_segment_per_consecutive_frame_pair() {
    let term = EnvCollision::new(0);
    assert_eq!(term.link_segments(5), vec![(0, 1), (1, 2), (2, 3), (3, 4)]);
    assert_eq!(term.link_segments(2), vec![(0, 1)]);
    assert_eq!(term.link_segments(1), Vec::<(usize, usize)>::new());
    assert_eq!(term.link_segments(0), Vec::<(usize, usize)>::new());
}

#[test]
fn collision_distances_have_a_positive_floor() {
    assert_eq!(EnvCollision::new(0).distance_floor_nanos(), 1000);
}

#[test]
fn collision_lite_path_uses_a_constant_stand_in() {
    assert_eq!(EnvCollision::new(0).lite_stand_in_nanos(), 1_000_000_000);
}
