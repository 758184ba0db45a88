//! A read-only virtual filesystem that exposes the decoded guest content of a
//! disk-image container as a single regular file inside a synthetic directory.
//!
//! The library holds the verified core: the request handlers of the
//! filesystem adapter, attribute synthesis, error-code translation, the
//! derivation of the virtual file's name, the command-line decision logic,
//! and the mount lifecycle state machine. Everything that talks to the
//! kernel, the terminal or the image decoder lives outside, and hands this
//! library plain values.

pub mod fs;
pub mod fuse_util;
pub mod opts;
pub mod source;
pub mod util;
