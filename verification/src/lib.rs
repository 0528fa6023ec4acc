//! A small virtual filesystem for game assets.
//!
//! A [`filesystem::Filesystem`] resolves logical asset paths such as
//! `/images/foo.png` to in-memory files. It looks first at what the host read
//! below an optional physical root directory and then at a read-only cache
//! that was filled from a bundled tar archive when the filesystem was built.

pub mod archive;
pub mod cache;
pub mod conf;
pub mod context;
pub mod error;
pub mod filesystem;
pub mod laws;
pub mod path;
