//! Decision logic of a small real-time model viewer: frame pacing, input
//! decoding, camera mode, mesh bookkeeping and the policy applied to render
//! failures.

pub mod camera;
pub mod data;
pub mod frame;
pub mod input;
pub mod time;
