//! Provisioning of versioned Yarn distributions.
//!
//! The crate decides what has to happen for a distribution to be provisioned
//! and installed: whether the cached archive can be used, what is fetched from
//! where, which failure is reported, and when the unpacked tree is promoted to
//! its final place. It touches neither the network nor the file system; the
//! caller performs each requested action and reports how it went.

pub mod archive;
pub mod distro;
pub mod error;
pub mod install;
pub mod inventory;
pub mod laws;
pub mod paths;
pub mod version;
