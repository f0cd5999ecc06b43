//! Verified control core for a dynamically loaded media-playback engine.
//!
//! The engine is reached through a C-style ABI that is discovered at run
//! time: a shared library is located on disk, a fixed set of entry points is
//! bound by name, and a playback handle drives the engine through option,
//! property and command calls that answer with signed status codes.  The
//! raw foreign calls themselves live outside this crate; everything that
//! decides — which file to try next, which entry point is missing, how a
//! status code turns into a structured error, how the handle's lifecycle
//! advances — is verified here, stated over the plain values (names, paths,
//! status codes, lookup outcomes) that cross the boundary.

pub mod text;
pub mod errors;
pub mod symbols;
pub mod cache;
pub mod resolver;
pub mod handle;
