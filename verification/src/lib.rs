//! Resolution and provisioning of the `neocmakelsp` language-server binary.
//!
//! The library decides where a usable binary comes from (a cached path, the
//! host's executable search path, or a fresh download from the release feed),
//! computes the release asset name for the host platform, plans the cleanup of
//! stale installed versions, and drives the whole cycle as a verified state
//! machine of decisions. The host glue performs the actions the machine
//! requests (network fetches, filesystem reads and removals, status display)
//! and hands the outcomes back as events.

pub mod cleanup;
pub mod errors;
pub mod laws;
pub mod machine;
pub mod platform;
pub mod release;
pub mod session;
