//! Verified core of a two-pass ball-settling simulation.
//!
//! A batch "settle pass" drives a physics integrator until every dynamic
//! body sleeps, freezes the resulting poses into an immutable `PoseIndex`,
//! and a later interactive pass pairs each spawn event with the next
//! unconsumed body id and projects the stored pose into the consumer's
//! coordinate space.
//!
//! All coordinates in this crate are fixed-point: positions in thousandths
//! of a simulation unit, angles in thousandths of a radian. The floating
//! point integrator itself lives outside the verified library; callers feed
//! its per-step observations (the set of still-active bodies) and its final
//! poses into the types defined here.

pub mod conditions;
pub mod geometry;
pub mod mapper;
pub mod pose_index;
pub mod settle;
pub mod spawn;
pub mod world;
