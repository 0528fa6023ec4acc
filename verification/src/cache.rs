//! The cache of a filesystem: files by their relative path.

use vstd::hash_map::StringHashMap;
use vstd::prelude::*;

verus! {

/// What storing `data` under `path` makes of a cache: content replaces what
/// the path had, and no content leaves the cache as it was.
pub open spec fn stored(files: Map<Seq<char>, Seq<u8>>, path: Seq<char>, data: Seq<u8>) -> Map<
    Seq<char>,
    Seq<u8>,
> {
    if data.len() > 0 {
        files.insert(path, data)
    } else {
        files
    }
}

/// No path of `files` has empty content.
pub open spec fn no_empty_file(files: Map<Seq<char>, Seq<u8>>) -> bool {
    forall|path: Seq<char>| files.contains_key(path) ==> (#[trigger] files[path]).len() > 0
}

/// Files by relative path. A file without content is never kept, so it
/// cannot be told from one that is not there.
pub struct CachedFiles {
    files: StringHashMap<Vec<u8>>,
}

impl View for CachedFiles {
    type V = Map<Seq<char>, Seq<u8>>;

    closed spec fn view(&self) -> Map<Seq<char>, Seq<u8>> {
        self.files@.map_values(|bytes: Vec<u8>| bytes@)
    }
}

impl CachedFiles {
    #[verifier::type_invariant]
    spec fn kept_files_have_content(self) -> bool {
        no_empty_file(self@)
    }

    /// A cache without files.
    pub fn new() -> (cache: CachedFiles)
        ensures
            cache@ == Map::<Seq<char>, Seq<u8>>::empty(),
    {
        let cache = CachedFiles { files: StringHashMap::new() };
        assert(cache@ =~= Map::<Seq<char>, Seq<u8>>::empty());
        cache
    }

    /// The cache with `data` stored under `path`, in place of what the path
    /// had. Empty `data` is dropped, and the path keeps what it had.
    pub fn with_file(self, path: String, data: Vec<u8>) -> (cache: CachedFiles)
        ensures
            cache@ == stored(self@, path@, data@),
            no_empty_file(cache@),
    {
        proof {
            use_type_invariant(&self);
        }
        if data.len() > 0 {
            let mut files = self.files;
            files.insert(path, data);
            proof {
                let kept = files@.map_values(|bytes: Vec<u8>| bytes@);
                assert(kept =~= self@.insert(path@, data@));
                assert(no_empty_file(kept));
            }
            CachedFiles { files }
        } else {
            self
        }
    }

    /// The content stored under `path`, if there is any.
    pub fn get(&self, path: &str) -> (found: Option<&Vec<u8>>)
        ensures
            no_empty_file(self@),
            match found {
                Some(bytes) => self@.contains_key(path@) && bytes@ == self@[path@],
                None => !self@.contains_key(path@),
            },
    {
        proof {
            use_type_invariant(self);
        }
        self.files.get(path)
    }
}

} // verus!
