//! Zero-delay-feedback virtual-analog filter core.
//!
//! The library models two analog filter circuits — a two-pole state-variable
//! filter and a four-pole ladder filter — discretized with the trapezoidal
//! rule and no unit delay in the feedback path.  Each output sample satisfies
//! an implicit nonlinear equation; two solver strategies resolve it: a
//! single-pass fixed-pivot linearization and a bounded Newton-Raphson
//! refinement.  All signal arithmetic is saturating fixed-point (Q24), so
//! every tick is proved free of overflow and every output is proved bounded.

pub mod fixed;
pub mod sat;
pub mod coeff;
pub mod solver;
pub mod svf;
pub mod ladder;
pub mod smooth;
pub mod engine;
pub mod store;
pub mod laws;


