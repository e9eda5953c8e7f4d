//! The light-transport core of a path tracer: the eight-wide ray used for
//! batched intersection tests, the depth-bounded radiance estimator's control
//! flow, and the shared material pool with its scattering policy.

mod lanes;
pub mod integrator;
pub mod material;
pub mod rayx8;
