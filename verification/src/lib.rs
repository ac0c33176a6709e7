//! Verified core of a desktop backend that drives a local Stable Diffusion
//! toolchain: composing the shell command that runs inside the right virtual
//! environment, picking the most recently created image out of a directory
//! listing, and assembling the report of which Python interpreter is present.
//!
//! All process and filesystem access lives outside this crate; the functions
//! here work on plain values (strings, timestamps, directory entries) and
//! carry contracts that pin their results down exactly.

pub mod command;
pub mod filename;
pub mod images;
pub mod python;
pub mod strutil;
