//! Discrete core of a Monte Carlo path tracer: the per-path integrator state
//! machine, the choice of scattering event at a surface, the nearest-hit
//! selection of a scene, and the per-pixel grid the sampler accumulates into.
//! The floating-point optics that feed these decisions stay with the caller.

pub mod grid;
pub mod sampler;
pub mod scatter;
pub mod scene;
