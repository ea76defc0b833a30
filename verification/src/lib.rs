//! Locating or provisioning a Node.js runtime for a bundled language server.
//!
//! The library is the decision core of an editor plugin: given the host's
//! platform, it works out which release asset to fetch, where the runtime
//! binary must live, and in what order the host should probe the PATH, the
//! in-memory cache, the release index and the filesystem.  All I/O is the
//! host's; the host drives a [`resolver::Resolver`] by performing each
//! requested [`resolver::Action`] and feeding the outcome back as an
//! [`resolver::Event`].

pub mod command;
pub mod platform;
pub mod resolver;
