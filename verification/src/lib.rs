//! Binary provisioner for the `mcp-relay` helper executable.
//!
//! Given the host's operating system and CPU architecture, the library
//! resolves the platform-specific release asset name, locates that asset in a
//! release, and decides how to bring a matching executable onto local disk:
//! reuse a cached copy when one is present, otherwise sweep stale version
//! directories, download the new archive, and mark the unpacked binary
//! executable. All I/O is performed by a driver outside this crate; the
//! library supplies the decisions as a verified step-by-step state machine.

pub mod command;
pub mod error;
pub mod laws;
pub mod machine;
pub mod plan;
pub mod platform;
pub mod release;
