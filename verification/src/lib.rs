//! A multiplexer for the lifecycle events of an EVM run.
//!
//! While a transaction executes, the engine reports interpreter start-up, every
//! step, logs, calls, creations and self-destructs. An [`InspectorStack`]
//! forwards each of these events to the observers installed in its slots, in a
//! fixed order, and combines what they answer. A [`Hook`] decides beforehand
//! whether a transaction is to be observed at all.
//!
//! * [`hook`]: the activation policy.
//! * [`observer`]: what an observer has to offer, and the optional slot.
//! * [`chain`]: two observers in a fixed order, with the rules that combine
//!   their answers.
//! * [`stack`]: the configured stack itself.
//! * [`laws`]: what holds of every stack and every chain.
//! * [`evm`]: the engine's types and the few calls made into its crates.
pub mod chain;
pub mod evm;
pub mod hook;
pub mod laws;
pub mod observer;
pub mod stack;

pub use crate::chain::Chain;
pub use crate::hook::Hook;
pub use crate::observer::Observer;
pub use crate::stack::{InspectorStack, InspectorStackConfig};
