//! Configuration and dispatch core of an inverse-kinematics objective layer.
//!
//! An outer numerical optimizer evaluates a list of cost terms (goal matching,
//! collision avoidance, joint limits, temporal smoothness) for each candidate
//! joint configuration. This crate owns the discrete, exactly-checkable part of
//! that layer: the cost-term types themselves, the gradient strategy each term
//! advertises, every tuning constant (stored as exact integer counts of
//! nano-units so their values are stated and proved here rather than scattered
//! through the evaluation code), and the setup-time validation rules that keep
//! degenerate configurations out of the evaluation hot path.

pub mod objective;
pub mod shaping;
pub mod validation;
