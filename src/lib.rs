//! Verified core of a container task shim: the per-process lifecycle state
//! machine, the process-exit monitor, the stdio relay plan, the runtime CLI
//! command lines and the snapshot event messages.
pub mod error;
pub mod text;
pub mod exit_signal;
pub mod process;
pub mod runtime;
pub mod relay;
pub mod lifecycle;
pub mod monitor;
pub mod container;
pub mod snapshot;
