//! Verified core of an Arch-Linux-on-ZFS provisioning pipeline.
//!
//! The library computes everything the installer decides: validated
//! installation parameters, derived partition device paths, the ordered
//! plans of external commands and file writes that each stage performs,
//! and the text transformations (version extraction, fstab filtering)
//! that feed those plans. Executing the plans — spawning processes,
//! touching disks and files — is left to a thin unverified driver.

pub mod action;
pub mod cli;
pub mod conf;
pub mod parse;
pub mod sail;
pub mod setup;
pub mod string_res;
pub mod text;
