//! The state that an application carries around.

use crate::filesystem::Filesystem;
use vstd::prelude::*;

verus! {

/// The part of an application's context that this library reads: the
/// filesystem that lookups go to.
pub struct Context {
    /// The filesystem of the application.
    pub filesystem: Filesystem,
}

} // verus!
