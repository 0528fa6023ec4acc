//! Loading the cache from a bundled tar archive.
//!
//! The archive is read by the `tar` crate, front to back, one member at a
//! time. Nothing of that crate is verified here. What this module believes of
//! it is written down in the contracts of the items marked
//! `external_body` and in the four functions without a body below; the
//! loader itself, [`load`], is verified against them.

use crate::cache::{stored, CachedFiles};
use crate::conf::Cache;
use crate::error::ArchiveFault;
use std::io::Read;
use vstd::prelude::*;

verus! {

/// What reading one member of an archive gives.
pub enum Record {
    /// The reader failed on its way to the member.
    Broken,
    /// The reader got to the member. `path` is `None` where the path could
    /// not be read or is not text, `data` is `None` where the content could
    /// not be read.
    Member { path: Option<Seq<char>>, data: Option<Seq<u8>> },
}

/// A tar archive over bytes in memory: `tar::Archive<&[u8]>`.
#[verifier::external_body]
pub struct Bundle<'a> {
    archive: tar::Archive<&'a [u8]>,
}

/// The members of a [`Bundle`], from the first on: `tar::Entries`, together
/// with the `tar::Entry` that it gave last. The two are kept in one place
/// because a member has to be read before the reader moves on.
#[verifier::external_body]
pub struct Members<'a> {
    entries: tar::Entries<'a, &'a [u8]>,
    current: Option<tar::Entry<'a, &'a [u8]>>,
}

/// The error type of the reader.
#[verifier::external_type_specification]
#[verifier::external_body]
pub struct ExIoError(std::io::Error);

/// The bytes that an archive was made over, for as long as nothing has been
/// read from it.
pub uninterp spec fn untouched(bundle: Bundle<'_>) -> Option<Seq<u8>>;

/// What the `tar` crate reads from an archive of these bytes, member by
/// member, when each member is read before the next is asked for. After a
/// `Broken` record nothing follows.
pub uninterp spec fn tar_records(bytes: Seq<u8>) -> Seq<Record>;

/// The records of the members that have not been reached yet, in order.
pub uninterp spec fn pending(members: Members<'_>) -> Seq<Record>;

/// The record of the member that was reached last, until the reader moves on.
pub uninterp spec fn current(members: Members<'_>) -> Option<Record>;

/// `tar::Archive::new` on a byte slice. Making an archive reads nothing.
#[verifier::external_body]
fn open_archive(bytes: &[u8]) -> (bundle: Bundle<'_>)
    ensures
        untouched(bundle) == Some(bytes@),
{
    Bundle { archive: tar::Archive::new(bytes) }
}

/// `tar::Archive::entries`. It fails only on an archive that has been read
/// from, so on an untouched one it succeeds; the members it will give are
/// those of the archive's bytes, and none has been reached.
#[verifier::external_body]
fn list_members<'a>(bundle: &'a mut Bundle<'a>) -> (listing: Result<Members<'a>, std::io::Error>)
    requires
        untouched(*old(bundle)) is Some,
    ensures
        listing is Ok,
        listing matches Ok(members) ==> pending(members) == tar_records(
            untouched(*old(bundle))->0,
        ) && current(members) is None,
{
    bundle.archive.entries().map(|entries| Members { entries, current: None })
}

/// `Iterator::next` of `tar::Entries`. It gives `None` when no member is
/// left, an error where the next record is `Broken`, and otherwise reaches the
/// next member. Either way the next record is no longer pending.
#[verifier::external_body]
fn advance(members: &mut Members<'_>) -> (step: Option<Result<(), std::io::Error>>)
    ensures
        match step {
            None => pending(*old(members)).len() == 0 && pending(*final(members)).len() == 0,
            Some(reached) => {
                &&& pending(*old(members)).len() > 0
                &&& pending(*final(members)) == pending(*old(members)).drop_first()
                &&& match reached {
                    Ok(()) => pending(*old(members))[0] is Member && current(*final(members))
                        == Some(pending(*old(members))[0]),
                    Err(_) => pending(*old(members))[0] is Broken,
                }
            },
        },
{
    members.current = None;
    match members.entries.next() {
        None => None,
        Some(Err(error)) => Some(Err(error)),
        Some(Ok(entry)) => {
            members.current = Some(entry);
            Some(Ok(()))
        },
    }
}

/// `tar::Entry::path` of the member reached last, as text
/// (`std::path::Path::to_str`). It gives the path of the member's record, and
/// an error or `None` where that record has none.
#[verifier::external_body]
fn member_path(members: &Members<'_>) -> (path: Result<Option<String>, std::io::Error>)
    requires
        current(*members) matches Some(record) && record is Member,
    ensures
        match path {
            Ok(Some(text)) => current(*members)->0->path == Some(text@),
            Ok(None) => current(*members)->0->path is None,
            Err(_) => current(*members)->0->path is None,
        },
{
    members.current.as_ref().unwrap().path().map(|path| path.to_str().map(String::from))
}

/// `std::io::Read::read_to_end` of the member reached last, on a member
/// that has not been read. It appends the content of the member's record to
/// `buf` and returns its length, and fails where that record has no content.
/// The members that follow stay as they were.
#[verifier::external_body]
fn member_data(members: &mut Members<'_>, buf: &mut Vec<u8>) -> (read: Result<
    usize,
    std::io::Error,
>)
    requires
        current(*old(members)) matches Some(record) && record is Member,
    ensures
        pending(*final(members)) == pending(*old(members)),
        match read {
            Ok(n) => current(*old(members))->0->data == Some(
                final(buf)@.skip(old(buf)@.len() as int),
            ) && final(buf)@.take(old(buf)@.len() as int) == old(buf)@ && old(buf)@.len() + n
                == final(buf)@.len(),
            Err(_) => current(*old(members))->0->data is None,
        },
{
    members.current.as_mut().unwrap().read_to_end(buf)
}

/// Why a record stops the loading, if it does.
pub open spec fn fault_of(record: Record) -> Option<ArchiveFault> {
    match record {
        Record::Broken => Some(ArchiveFault::Iteration),
        Record::Member { path: None, .. } => Some(ArchiveFault::Path),
        Record::Member { path: Some(_), data: None } => Some(ArchiveFault::Payload),
        Record::Member { path: Some(_), data: Some(_) } => None,
    }
}

/// The cache that a sequence of records fills, or the fault of the first
/// record that has one. Records are taken in order: a later member replaces
/// an earlier one of the same path, and a member without content changes
/// nothing.
pub open spec fn loaded(records: Seq<Record>) -> Result<Map<Seq<char>, Seq<u8>>, ArchiveFault>
    decreases records.len(),
{
    if records.len() == 0 {
        Ok(Map::empty())
    } else {
        match loaded(records.drop_last()) {
            Err(fault) => Err(fault),
            Ok(files) => match records.last() {
                Record::Member { path: Some(path), data: Some(data) } => Ok(
                    stored(files, path, data),
                ),
                faulty => Err(fault_of(faulty)->0),
            },
        }
    }
}

/// What [`load`] gives for a cache source: nothing to read fills nothing.
pub open spec fn loaded_from(source: Option<Seq<u8>>) -> Result<
    Map<Seq<char>, Seq<u8>>,
    ArchiveFault,
> {
    match source {
        None => Ok(Map::empty()),
        Some(bytes) => loaded(tar_records(bytes)),
    }
}

/// A fault stays: records after the first faulty one change nothing.
pub proof fn lemma_fault_stays(records: Seq<Record>, more: Seq<Record>)
    requires
        loaded(records) is Err,
    ensures
        loaded(records + more) == loaded(records),
    decreases more.len(),
{
    if more.len() == 0 {
        assert(records + more =~= records);
    } else {
        lemma_fault_stays(records, more.drop_last());
        assert((records + more).drop_last() =~= records + more.drop_last());
    }
}

/// Fills a cache from its source. Without an archive the cache is empty. With
/// one, every member is read in archive order and stored under its path; the
/// first member that cannot be reached or read ends the loading with its
/// fault, and nothing of the archive is kept.
pub fn load(source: &Cache) -> (outcome: Result<CachedFiles, ArchiveFault>)
    ensures
        match outcome {
            Ok(files) => loaded_from(source.archive()) == Ok::<_, ArchiveFault>(files@),
            Err(fault) => loaded_from(source.archive()) == Err::<Map<Seq<char>, Seq<u8>>, _>(
                fault,
            ),
        },
{
    let mut files = CachedFiles::new();
    let bytes = match source {
        Cache::No => {
            return Ok(files);
        },
        Cache::Tar(bytes) => bytes,
    };
    let mut bundle = open_archive(bytes.as_slice());
    let mut members = match list_members(&mut bundle) {
        Ok(members) => members,
        // Listing an archive that nothing was read from does not fail.
        Err(_) => {
            return Err(ArchiveFault::Iteration);
        },
    };
    let ghost all = tar_records(bytes@);
    let ghost done: Seq<Record> = Seq::empty();
    assert(done + pending(members) =~= all);
    loop
        invariant
            all == tar_records(bytes@),
            done + pending(members) == all,
            loaded(done) == Ok::<_, ArchiveFault>(files@),
            source.archive() == Some(bytes@),
        decreases pending(members).len(),
    {
        let ghost rest = pending(members);
        let ghost record = rest[0];
        match advance(&mut members) {
            None => {
                assert(done + rest =~= done);
                return Ok(files);
            },
            Some(Err(_)) => {
                proof {
                    assert(done.push(record) + rest.drop_first() =~= all);
                    assert(done.push(record).drop_last() =~= done);
                    lemma_fault_stays(done.push(record), rest.drop_first());
                }
                return Err(ArchiveFault::Iteration);
            },
            Some(Ok(())) => {},
        }
        proof {
            assert(done.push(record) + rest.drop_first() =~= all);
            assert(done.push(record).drop_last() =~= done);
        }
        let path = match member_path(&members) {
            Ok(Some(path)) => path,
            // A path that is not text is as bad as one that cannot be read.
            Ok(None) | Err(_) => {
                proof {
                    lemma_fault_stays(done.push(record), rest.drop_first());
                }
                return Err(ArchiveFault::Path);
            },
        };
        let mut data: Vec<u8> = Vec::new();
        match member_data(&mut members, &mut data) {
            Ok(_) => {},
            Err(_) => {
                proof {
                    lemma_fault_stays(done.push(record), rest.drop_first());
                }
                return Err(ArchiveFault::Payload);
            },
        }
        assert(data@.skip(0) =~= data@);
        files = files.with_file(path, data);
        proof {
            done = done.push(record);
        }
    }
}

} // verus!
