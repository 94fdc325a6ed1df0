//! Typed command-line configuration for a lightweight virtual machine
//! monitor.
//!
//! The crate turns flat, comma/equals-delimited argument strings into a
//! closed set of validated device and bootloader descriptions, and exposes
//! a binding protocol that translates each description into the single
//! boundary call the hypervisor context expects, mapping failure statuses
//! back into structured errors.

pub mod bootloader;
pub mod cmdline;
pub mod device;
pub mod error;
pub mod grammar;
