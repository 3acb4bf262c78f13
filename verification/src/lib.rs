//! Signal-delivery emulation for a discrete-event simulator.
//!
//! The crate reproduces POSIX signal semantics — dispositions, masks,
//! pending sets, delivery targeting, alternate stacks and syscall
//! interruption — for simulated processes that run without a kernel
//! underneath them. Every rule a kernel would enforce is implemented
//! here and stated as a verified contract.

pub mod abi;
pub mod sigset;
pub mod sinfo;
pub mod pending;
pub mod errors;
pub mod altstack;
pub mod dispositions;
pub mod engine;
pub mod laws;
pub mod numfmt;
pub mod simtime;
pub mod logging;
pub mod format;
