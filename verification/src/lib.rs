//! Orchestration of Debian package builds inside cached chroot environments.
//!
//! The library decides; it never touches the file system and never starts a
//! process.  Every operation is a small state machine: it hands out a
//! [`machine::Request`] for the caller to perform and continues from the
//! [`machine::Reply`] that the caller hands back.
//!
//! - [`pkg_config`]: what a package asks of its build environment.
//! - [`provisioning`]: the shell steps that install a toolchain in the chroot.
//! - [`artifacts`]: the file names of chroots, packages and test images.
//! - [`commands`]: the command lines of the external tools.
//! - [`process`]: how a command can end, and which failure that is.
//! - [`machine`]: requests, replies, and what an operation remembers.
//! - [`pipeline`]: the operations on a cached chroot, as mathematics.
//! - [`sbuild`], [`sbuild_zig`]: the two build environments.
//! - [`packager`]: the choice of a packager by release.
//! - [`laws`]: what holds of every configuration and every course of events.
//! - [`hygiene`]: that every helper package is removed from the chroot again.
//! - [`platform`]: what is taken on trust from outside.
//! - [`text`]: strings with known contents.

pub mod artifacts;
pub mod commands;
pub mod hygiene;
pub mod laws;
pub mod machine;
pub mod packager;
pub mod pipeline;
pub mod pkg_config;
pub mod platform;
pub mod process;
pub mod provisioning;
pub mod sbuild;
pub mod sbuild_zig;
pub mod text;
