//! Boundary layer for a long-lived robot inverse-kinematics solver:
//! validated translation between flat boundary buffers and the solver's
//! structured per-chain goal state, plus the named objective weights and
//! the dynamic-obstacle registry.

pub mod chains;
pub mod goals;
pub mod obstacles;
pub mod state;
pub mod weights;
