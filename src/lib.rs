//! Cross-thread work offload onto a single host thread, and a poll-driven
//! sequence engine that automates multi-step cockpit procedures on top of it.
use vstd::prelude::*;

pub mod offload;
pub mod timer;
pub mod indication;
pub mod sequence;
pub mod aircraft;
pub mod f16c50;
pub mod mig21bis;
pub mod cockpit;
pub mod orchestrator;

verus! {

} // verus!
