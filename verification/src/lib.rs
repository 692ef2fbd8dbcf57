//! Device-access control core for a container runtime's cgroup v1 devices
//! controller.
//!
//! The library computes, as verified data, everything the controller writes
//! to the kernel's virtual filesystem: the rule lines for `devices.allow` and
//! `devices.deny`, the built-in safe-allow table, and the full ordered plan of
//! filesystem actions (create the cgroup directory, write each rule, attach
//! the process). An unverified executor performs the actions in order.

pub mod laws;
pub mod plan;
pub mod rule;
