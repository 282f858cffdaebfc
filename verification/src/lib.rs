//! Execution-cost estimation for cross-chain messages.
//!
//! Before an incoming message runs, each of its instructions is assigned a
//! [`weight::Weight`]: the resources it may consume at worst. Estimates are
//! never too low; an instruction that cannot be priced safely is given the
//! largest weight there is.

pub mod assets;
pub mod estimator;
pub mod hooks;
pub mod instruction;
pub mod policy;
pub mod weight;
