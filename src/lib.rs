//! Core of a smoothed-particle-hydrodynamics simulation: the smoothing
//! kernels, the particle state, the per-tick integration schedule and the producer side of the snapshot
//! stream.
//!
//! The scalar, point and vector types are parameters. The arithmetic on them
//! is handed in as functions, so that what is proved here is the schedule:
//! which values each update reads, in which order, and what it leaves alone.
pub mod integrator;
pub mod kernel;
pub mod particles;
pub mod stream;

pub use integrator::TickOutput;
pub use kernel::{Poly6Kernel, SpikyKernel};
pub use particles::{check_smoothing_radius, ConfigError, Simulation};
pub use stream::{LoopAction, Producer, SendOutcome};
