//! Files held in memory and the filesystem that hands them out.

use crate::archive::{load, loaded_from};
use crate::cache::CachedFiles;
use crate::conf::Conf;
use crate::context::Context;
use crate::error::{missing_text, GameError, GameErrorView, GameResult};
use crate::path::{join, joined_path, normalize, normalized};
use vstd::prelude::*;

verus! {

/// What a [`File`] stands for: its whole content and how far it has been read.
pub struct FileView {
    pub bytes: Seq<u8>,
    pub pos: nat,
}

/// An open, fully buffered, read-only file.
///
/// The content never changes. Reading starts at the first byte and moves the
/// cursor forward, never past the end.
#[derive(Debug)]
pub struct File {
    bytes: Vec<u8>,
    pos: usize,
}

impl View for File {
    type V = FileView;

    closed spec fn view(&self) -> FileView {
        FileView { bytes: self.bytes@, pos: self.pos as nat }
    }
}

impl File {
    #[verifier::type_invariant]
    spec fn cursor_in_bounds(self) -> bool {
        self.pos <= self.bytes@.len()
    }

    /// A file with the given content, positioned at its first byte.
    pub fn new(bytes: Vec<u8>) -> (file: File)
        ensures
            file@ == (FileView { bytes: bytes@, pos: 0 }),
    {
        File { bytes, pos: 0 }
    }

    /// Reads as many of the unread bytes as fit into `buf`, from the cursor
    /// on, and moves the cursor past them. Returns how many bytes were read;
    /// the rest of `buf` keeps what it held.
    pub fn read(&mut self, buf: &mut [u8]) -> (n: usize)
        ensures
            final(self)@.bytes == old(self)@.bytes,
            final(self)@.pos == old(self)@.pos + n,
            final(self)@.pos <= final(self)@.bytes.len(),
            n == if old(buf)@.len() <= old(self)@.bytes.len() - old(self)@.pos {
                old(buf)@.len() as int
            } else {
                old(self)@.bytes.len() - old(self)@.pos
            },
            final(buf)@ == old(self)@.bytes.subrange(
                old(self)@.pos as int,
                old(self)@.pos + n,
            ) + old(buf)@.subrange(n as int, old(buf)@.len() as int),
    {
        proof {
            use_type_invariant(&*self);
        }
        let left: usize = self.bytes.len() - self.pos;
        let n: usize = if buf.len() <= left { buf.len() } else { left };
        let mut i: usize = 0;
        while i < n
            invariant
                i <= n,
                n <= buf@.len(),
                buf@.len() == old(buf)@.len(),
                self.pos + n <= self.bytes.len(),
                *self == *old(self),
                forall|k: int| 0 <= k < i ==> buf@[k] == self.bytes@[self.pos + k],
                forall|k: int| i <= k < buf@.len() ==> buf@[k] == old(buf)@[k],
            decreases n - i,
        {
            buf[i] = self.bytes[self.pos + i];
            i = i + 1;
        }
        self.pos = self.pos + n;
        n
    }

    /// The whole content, whatever has been read.
    pub fn bytes(&self) -> (bytes: &Vec<u8>)
        ensures
            bytes@ == self@.bytes,
    {
        &self.bytes
    }

    /// How many bytes have been read.
    pub fn position(&self) -> (pos: usize)
        ensures
            pos == self@.pos,
            pos <= self@.bytes.len(),
    {
        proof {
            use_type_invariant(self);
        }
        self.pos
    }
}

impl Clone for File {
    /// A second handle on the same content, at the same position.
    fn clone(&self) -> (file: File)
        ensures
            file@ == self@,
    {
        proof {
            use_type_invariant(self);
        }
        File { bytes: self.bytes.clone(), pos: self.pos }
    }
}

/// What a [`Filesystem`] stands for: the root directory of the host, if one
/// is configured, and the content of the cache by relative path.
pub struct FilesystemView {
    pub root: Option<Seq<char>>,
    pub files: Map<Seq<char>, Seq<u8>>,
}

/// The state of the filesystem: an optional physical root and the cache.
/// Neither changes once the filesystem is built.
pub struct Filesystem {
    root: Option<String>,
    files: CachedFiles,
}

impl View for Filesystem {
    type V = FilesystemView;

    closed spec fn view(&self) -> FilesystemView {
        FilesystemView {
            root: match self.root {
                Some(dir) => Some(dir@),
                None => None,
            },
            files: self.files@,
        }
    }
}

/// The filesystem that a configuration asks for, or the error that building
/// it ends with.
pub open spec fn built(root: Option<Seq<char>>, archive: Option<Seq<u8>>) -> Result<
    FilesystemView,
    GameErrorView,
> {
    match loaded_from(archive) {
        Ok(files) => Ok(FilesystemView { root, files }),
        Err(fault) => Err(GameErrorView::ArchiveError(fault)),
    }
}

/// The path of the host that is read for a logical path before the cache is
/// asked: the relative path below the root, if a root is configured.
pub open spec fn probed(fs: FilesystemView, path: Seq<char>) -> Option<Seq<char>> {
    match fs.root {
        Some(root) => Some(joined_path(root, normalized(path))),
        None => None,
    }
}

/// What reading the host for a lookup gave: `None` where nothing was read,
/// else the content or the error of the read.
pub type HostRead = Option<std::io::Result<Vec<u8>>>;

/// The content that the host read, if it read any. A read that failed
/// counts as none, whatever its error.
pub open spec fn host_bytes(physical: HostRead) -> Option<Seq<u8>> {
    match physical {
        Some(Ok(bytes)) => Some(bytes@),
        _ => None,
    }
}

/// What a lookup gives. `physical` is what the host read at the probed path,
/// `None` if it read nothing. With a root configured, what the host read goes
/// first. Otherwise the cache is asked for the relative path, and a path
/// that it does not hold is an error that names it.
pub open spec fn resolved(fs: FilesystemView, path: Seq<char>, physical: Option<Seq<u8>>) -> Result<
    FileView,
    GameErrorView,
> {
    let rel = normalized(path);
    if fs.root is Some && physical is Some {
        Ok(FileView { bytes: physical->0, pos: 0 })
    } else if fs.files.contains_key(rel) {
        Ok(FileView { bytes: fs.files[rel], pos: 0 })
    } else {
        Err(GameErrorView::FilesystemError(missing_text(rel)))
    }
}

impl Filesystem {
    /// Builds the filesystem of a configuration: the cache is loaded from the
    /// configured archive, and the root directory is taken as it is written.
    /// Only a broken archive makes this fail.
    pub fn new(conf: &Conf) -> (made: GameResult<Filesystem>)
        ensures
            match made {
                Ok(fs) => built(conf.root(), conf.cache.archive()) == Ok::<_, GameErrorView>(fs@),
                Err(error) => built(conf.root(), conf.cache.archive()) == Err::<FilesystemView, _>(
                    error@,
                ),
            },
    {
        match load(&conf.cache) {
            Ok(files) => Ok(Filesystem::from_cache(conf.physical_root_dir.clone(), files)),
            Err(fault) => Err(GameError::ArchiveError(fault)),
        }
    }

    /// The filesystem with this root and this cache.
    pub fn from_cache(root: Option<String>, files: CachedFiles) -> (fs: Filesystem)
        ensures
            fs@ == (FilesystemView {
                root: match root {
                    Some(dir) => Some(dir@),
                    None => None,
                },
                files: files@,
            }),
    {
        Filesystem { root, files }
    }

    /// The path of the host to read before [`Filesystem::open`] is called
    /// for `path`, if a root is configured. What the read gives is handed
    /// to `open`.
    pub fn physical_path(&self, path: &str) -> (probe: Option<String>)
        ensures
            match probe {
                Some(at) => probed(self@, path@) == Some(at@),
                None => probed(self@, path@) is None,
            },
    {
        match &self.root {
            Some(root) => {
                let rel = normalize(path);
                Some(join(root.as_str(), rel.as_str()))
            },
            None => None,
        }
    }

    /// Opens the given `path` and returns the resulting `File` in read-only
    /// mode, positioned at its first byte.
    ///
    /// `physical` is what reading the host at [`Filesystem::physical_path`]
    /// gave, or `None` where nothing was read: no root is configured, or
    /// the environment has no disk to read. A read that failed is passed
    /// over in silence, whatever its error, and the cache is asked.
    /// The filesystem stays as it was.
    pub fn open(&mut self, path: &str, physical: HostRead) -> (opened: GameResult<File>)
        ensures
            final(self)@ == old(self)@,
            match opened {
                Ok(file) => resolved(old(self)@, path@, host_bytes(physical)) == Ok::<
                    _,
                    GameErrorView,
                >(file@),
                Err(error) => resolved(old(self)@, path@, host_bytes(physical)) == Err::<
                    FileView,
                    _,
                >(error@),
            },
    {
        let rel = normalize(path);
        if self.root.is_some() {
            match physical {
                Some(Ok(bytes)) => {
                    return Ok(File::new(bytes));
                },
                Some(Err(_)) => {},
                None => {},
            }
        }
        match self.files.get(rel.as_str()) {
            Some(bytes) => Ok(File::new(bytes.clone())),
            None => Err(GameError::missing(rel.as_str())),
        }
    }
}

/// Opens the given path in the filesystem of `ctx` and returns the resulting
/// `File` in read-only mode: [`Filesystem::open`] on `ctx.filesystem`.
pub fn open(ctx: &mut Context, path: &str, physical: HostRead) -> (opened: GameResult<File>)
    ensures
        final(ctx).filesystem@ == old(ctx).filesystem@,
        match opened {
            Ok(file) => resolved(old(ctx).filesystem@, path@, host_bytes(physical)) == Ok::<
                _,
                GameErrorView,
            >(file@),
            Err(error) => resolved(old(ctx).filesystem@, path@, host_bytes(physical)) == Err::<
                FileView,
                _,
            >(error@),
        },
{
    ctx.filesystem.open(path, physical)
}

} // verus!
