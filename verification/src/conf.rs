//! What a filesystem is built from.

use vstd::prelude::*;

verus! {

/// Where the cache of a filesystem comes from.
#[derive(Debug, Clone)]
pub enum Cache {
    /// There is no cache.
    No,
    /// The cache is filled from these bytes, a tar archive.
    Tar(Vec<u8>),
}

/// The part of an application's configuration that the filesystem reads.
#[derive(Debug, Clone)]
pub struct Conf {
    /// The source of the cache.
    pub cache: Cache,
    /// A directory of the host whose files go before the cache. It is taken
    /// as it is written: nobody looks whether it exists.
    pub physical_root_dir: Option<String>,
}

impl Cache {
    /// The archive bytes, if there are any.
    pub open spec fn archive(self) -> Option<Seq<u8>> {
        match self {
            Cache::No => None,
            Cache::Tar(bytes) => Some(bytes@),
        }
    }
}

impl Conf {
    /// The configured root directory, as text.
    pub open spec fn root(self) -> Option<Seq<char>> {
        match self.physical_root_dir {
            Some(dir) => Some(dir@),
            None => None,
        }
    }
}

} // verus!
