//! Orchestration of a Gray-Scott reaction-diffusion simulation: the ping-pong
//! buffer pair and step scheduler, the parameter mirror and its uniform block,
//! the view transform and gradient, and the field initializer. Kernels and the
//! device are the host's; the engine says what to upload and dispatch.
use vstd::prelude::*;

pub mod field;
pub mod params;
pub mod view;
pub mod gradient;
pub mod engine;

verus! {

} // verus!
