//! Bytecode construction for a fee-sweeping contract on the FuelVM.
//!
//! A block producer can designate a contract as its coinbase recipient:
//! transaction fees then accumulate as a balance held by that contract. This
//! crate builds, byte for byte, the machine code of such a contract — a
//! program that transfers its entire balance of one asset to a recipient
//! address fixed at generation time — together with the caller-side script
//! and script-data blob needed to invoke the withdrawal.

pub mod isa;
pub mod program;
pub mod semantics;
pub mod invocation;

pub use program::generate;
pub use invocation::build_invocation;
