use asset_fs::cache::CachedFiles;
use asset_fs::conf::{Cache, Conf};
use asset_fs::context::Context;
use asset_fs::error::{ArchiveFault, GameError};
use asset_fs::filesystem::{open, File, Filesystem};
use asset_fs::path::normalize;
use std::io::{Error, ErrorKind};

fn cache_of(files: &[(&str, &[u8])]) -> CachedFiles {
    let mut cache = CachedFiles::new();
    for (path, data) in files {
        cache = cache.with_file(String::from(*path), data.to_vec());
    }
    cache
}

fn filesystem(root: Option<&str>, files: &[(&str, &[u8])]) -> Filesystem {
    Filesystem::from_cache(root.map(String::from), cache_of(files))
}

fn message_of(result: Result<File, GameError>) -> String {
    match result {
        Err(GameError::FilesystemError(message)) => message,
        Err(other) => panic!("another error: {:?}", other),
        Ok(_) => panic!("a file was found"),
    }
}

#[test]
fn normalize_strips_one_leading_separator() {
    assert_eq!(normalize("/images/foo.png"), "images/foo.png");
    assert_eq!(normalize("/a"), "a");
    assert_eq!(normalize("/"), "");
}

#[test]
fn normalize_keeps_a_relative_path() {
    assert_eq!(normalize("images/foo.png"), "images/foo.png");
    assert_eq!(normalize("a/"), "a/");
    assert_eq!(normalize(""), "");
}

#[test]
fn normalize_strips_exactly_one_separator() {
    assert_eq!(normalize("//a/b"), "/a/b");
    assert_eq!(normalize("///"), "//");
}

#[test]
fn normalize_counts_letters_not_bytes() {
    assert_eq!(normalize("/\u{e9}t\u{e9}/\u{1f600}.png"), "\u{e9}t\u{e9}/\u{1f600}.png");
    assert_eq!(normalize("\u{e9}/a"), "\u{e9}/a");
}

#[test]
fn both_spellings_find_the_same_entry() {
    let mut fs = filesystem(None, &[("a/b", b"content")]);
    let with = fs.open("/a/b", None).unwrap();
    let without = fs.open("a/b", None).unwrap();
    assert_eq!(with.bytes(), without.bytes());
    assert_eq!(with.bytes().as_slice(), b"content");
}

#[test]
fn both_spellings_miss_alike() {
    let mut fs = filesystem(None, &[("a/b", b"content")]);
    let with = message_of(fs.open("/a/c", None));
    let without = message_of(fs.open("a/c", None));
    assert_eq!(with, without);
}

#[test]
fn physical_file_goes_before_the_cache() {
    let mut fs = filesystem(Some("/srv/assets"), &[("x", b"cached")]);
    let file = fs.open("/x", Some(Ok(b"on disk".to_vec()))).unwrap();
    assert_eq!(file.bytes().as_slice(), b"on disk");
    assert_eq!(file.position(), 0);
}

#[test]
fn physical_file_is_found_without_a_cache_entry() {
    let mut fs = filesystem(Some("/srv/assets"), &[]);
    let file = fs.open("/only/on/disk", Some(Ok(vec![1, 2, 3]))).unwrap();
    assert_eq!(file.bytes().as_slice(), &[1, 2, 3]);
}

#[test]
fn empty_physical_file_is_a_file() {
    let mut fs = filesystem(Some("/srv/assets"), &[("x", b"cached")]);
    let file = fs.open("/x", Some(Ok(Vec::new()))).unwrap();
    assert!(file.bytes().is_empty());
}

#[test]
fn physical_miss_falls_back_to_the_cache() {
    let mut fs = filesystem(Some("/srv/assets"), &[("y", b"from cache")]);
    let missing = Error::new(ErrorKind::NotFound, "no such file");
    let file = fs.open("/y", Some(Err(missing))).unwrap();
    assert_eq!(file.bytes().as_slice(), b"from cache");
}

#[test]
fn any_physical_error_falls_back_to_the_cache() {
    let mut fs = filesystem(Some("/srv/assets"), &[("y", b"from cache")]);
    let denied = Error::new(ErrorKind::PermissionDenied, "denied");
    assert_eq!(fs.open("y", Some(Err(denied))).unwrap().bytes().as_slice(), b"from cache");
    let odd = Error::new(ErrorKind::Other, "odd");
    assert_eq!(fs.open("/y", Some(Err(odd))).unwrap().bytes().as_slice(), b"from cache");
}

#[test]
fn physical_miss_and_cache_miss_is_not_found() {
    let mut fs = filesystem(Some("/srv/assets"), &[("y", b"from cache")]);
    let missing = Error::new(ErrorKind::NotFound, "no such file");
    assert_eq!(message_of(fs.open("/z", Some(Err(missing)))), "No such file: \"z\"");
}

#[test]
fn nothing_read_falls_back_to_the_cache() {
    let mut fs = filesystem(Some("/srv/assets"), &[("y", b"from cache")]);
    assert_eq!(fs.open("/y", None).unwrap().bytes().as_slice(), b"from cache");
}

#[test]
fn without_a_root_the_host_is_not_heard() {
    let mut fs = filesystem(None, &[("x", b"cached")]);
    let file = fs.open("/x", Some(Ok(b"on disk".to_vec()))).unwrap();
    assert_eq!(file.bytes().as_slice(), b"cached");
    assert_eq!(message_of(fs.open("/q", Some(Ok(b"on disk".to_vec())))), "No such file: \"q\"");
}

#[test]
fn clean_miss_names_the_path() {
    let conf = Conf { cache: Cache::No, physical_root_dir: None };
    let mut fs = Filesystem::new(&conf).unwrap();
    for path in ["a", "images/foo.png", "", "with space/and \"quote\""] {
        let message = message_of(fs.open(path, None));
        assert!(message.contains(path));
        assert_eq!(message, format!("No such file: \"{}\"", path));
    }
    let message = message_of(fs.open("/images/foo.png", None));
    assert_eq!(message, "No such file: \"images/foo.png\"");
    assert!(message.contains("images/foo.png"));
}

#[test]
fn lookup_leaves_the_filesystem_as_it_was() {
    let mut fs = filesystem(Some("/srv/assets"), &[("x", b"cached")]);
    let _ = fs.open("/x", Some(Ok(b"on disk".to_vec())));
    let _ = fs.open("/nothing", None);
    assert_eq!(fs.open("/x", None).unwrap().bytes().as_slice(), b"cached");
    assert!(fs.physical_path("/x").is_some());
}

#[test]
fn files_are_handed_out_as_copies() {
    let mut fs = filesystem(None, &[("x", b"cached")]);
    let mut first = fs.open("/x", None).unwrap();
    let mut buf = [0u8; 4];
    assert_eq!(first.read(&mut buf), 4);
    let second = fs.open("/x", None).unwrap();
    assert_eq!(second.position(), 0);
    assert_eq!(first.position(), 4);
}

#[test]
fn physical_path_is_below_the_root() {
    let fs = filesystem(Some("/srv/assets"), &[]);
    let expected = std::path::Path::new("/srv/assets").join("images/foo.png");
    assert_eq!(fs.physical_path("/images/foo.png").unwrap(), expected.to_str().unwrap());
    assert_eq!(fs.physical_path("images/foo.png").unwrap(), expected.to_str().unwrap());
    assert_ne!(fs.physical_path("/images/foo.png").unwrap(), "/srv/assets");
    assert_ne!(fs.physical_path("/images/foo.png").unwrap(), "images/foo.png");
}

#[test]
fn physical_path_needs_a_root() {
    let fs = filesystem(None, &[("images/foo.png", b"x")]);
    assert_eq!(fs.physical_path("/images/foo.png"), None);
}

#[test]
fn open_through_the_context() {
    let mut ctx = Context { filesystem: filesystem(Some("/srv/assets"), &[("x", b"cached")]) };
    assert_eq!(open(&mut ctx, "/x", None).unwrap().bytes().as_slice(), b"cached");
    let disk = open(&mut ctx, "/x", Some(Ok(b"on disk".to_vec()))).unwrap();
    assert_eq!(disk.bytes().as_slice(), b"on disk");
    assert_eq!(message_of(open(&mut ctx, "/y", None)), "No such file: \"y\"");
}

#[test]
fn cache_keeps_the_last_content() {
    let cache = cache_of(&[("a", b"1"), ("b", b"2"), ("a", b"3")]);
    assert_eq!(cache.get("a"), Some(&b"3".to_vec()));
    assert_eq!(cache.get("b"), Some(&b"2".to_vec()));
    assert_eq!(cache.get("c"), None);
}

#[test]
fn cache_drops_empty_content() {
    let cache = cache_of(&[("a", b""), ("b", b"2"), ("b", b"")]);
    assert_eq!(cache.get("a"), None);
    assert_eq!(cache.get("b"), Some(&b"2".to_vec()));
}

#[test]
fn messages_of_errors() {
    assert_eq!(GameError::missing("a/b").message(), "No such file: \"a/b\"");
    assert_eq!(GameError::missing("").message(), "No such file: \"\"");
    for fault in [ArchiveFault::Iteration, ArchiveFault::Path, ArchiveFault::Payload] {
        let text = GameError::ArchiveError(fault).message();
        assert!(text.starts_with("The bundled archive is broken: "));
    }
    assert_ne!(
        GameError::ArchiveError(ArchiveFault::Path).message(),
        GameError::ArchiveError(ArchiveFault::Payload).message()
    );
}
