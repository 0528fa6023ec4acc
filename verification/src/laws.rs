//! What holds of loading and lookup, whatever the archive and the path.
//!
//! The laws speak of the spec functions that the contracts of
//! [`crate::archive::load`], [`crate::filesystem::Filesystem::new`] and
//! [`crate::filesystem::Filesystem::open`] are written in.

use crate::archive::{fault_of, lemma_fault_stays, loaded, tar_records, Record};
use crate::cache::no_empty_file;
use crate::error::{missing_lead, missing_text, GameErrorView};
use crate::filesystem::{built, probed, resolved, FileView, FilesystemView};
use crate::path::{normalized, SEPARATOR};
use vstd::prelude::*;

verus! {

/// The record is a member that was read whole and has content under `path`.
pub open spec fn fills(record: Record, path: Seq<char>) -> bool {
    record matches Record::Member { path: Some(at), data: Some(data) } && at == path && data.len()
        > 0
}

/// The record is a member that was read whole and has content.
pub open spec fn has_content(record: Record) -> bool {
    record matches Record::Member { path: Some(_), data: Some(data) } && data.len() > 0
}

/// No record has a fault.
pub open spec fn sound(records: Seq<Record>) -> bool {
    forall|i: int| 0 <= i < records.len() ==> fault_of(#[trigger] records[i]) is None
}

/// A lookup with a separator in front of a relative path asks for that
/// relative path.
pub proof fn lemma_separator_is_stripped(rel: Seq<char>)
    ensures
        normalized(seq![SEPARATOR] + rel) == rel,
{
    assert((seq![SEPARATOR] + rel).subrange(1, (seq![SEPARATOR] + rel).len() as int) =~= rel);
}

/// Only one separator is stripped: normalizing what is already relative
/// changes nothing.
pub proof fn lemma_relative_is_kept(rel: Seq<char>)
    requires
        rel.len() == 0 || rel[0] != SEPARATOR,
    ensures
        normalized(rel) == rel,
{
}

/// A path written with a leading separator and the same path written
/// without it resolve alike: the host is asked for the same path, and the
/// lookup gives the same file or the same error.
pub proof fn lemma_leading_separator_makes_no_difference(
    fs: FilesystemView,
    rel: Seq<char>,
    physical: Option<Seq<u8>>,
)
    requires
        rel.len() == 0 || rel[0] != SEPARATOR,
    ensures
        probed(fs, seq![SEPARATOR] + rel) == probed(fs, rel),
        resolved(fs, seq![SEPARATOR] + rel, physical) == resolved(fs, rel, physical),
{
    lemma_separator_is_stripped(rel);
}

/// Loading succeeds exactly when no record has a fault.
pub proof fn lemma_loading_succeeds_iff_sound(records: Seq<Record>)
    ensures
        loaded(records) is Ok <==> sound(records),
    decreases records.len(),
{
    if records.len() > 0 {
        let front = records.drop_last();
        lemma_loading_succeeds_iff_sound(front);
        if sound(records) {
            assert forall|i: int| 0 <= i < front.len() implies fault_of(#[trigger] front[i])
                is None by {
                assert(front[i] == records[i]);
            }
            assert(fault_of(records[records.len() - 1]) is None);
        } else if sound(front) {
            let i = choose|i: int| 0 <= i < records.len() && !(fault_of(#[trigger] records[i])
                is None);
            if i < front.len() {
                assert(front[i] == records[i]);
            }
        }
    }
}

/// Loading fails with the fault of the first record that has one, whatever
/// comes after it.
pub proof fn lemma_first_fault_ends_loading(records: Seq<Record>, i: int)
    requires
        0 <= i < records.len(),
        fault_of(records[i]) is Some,
        forall|j: int| 0 <= j < i ==> fault_of(#[trigger] records[j]) is None,
    ensures
        loaded(records) == Err::<Map<Seq<char>, Seq<u8>>, _>(fault_of(records[i])->0),
{
    let upto = records.subrange(0, i + 1);
    let front = records.subrange(0, i);
    assert(upto.drop_last() =~= front);
    assert(sound(front));
    lemma_loading_succeeds_iff_sound(front);
    lemma_fault_stays(upto, records.subrange(i + 1, records.len() as int));
    assert(upto + records.subrange(i + 1, records.len() as int) =~= records);
}

/// A cache that was loaded holds no file without content.
pub proof fn lemma_loaded_files_have_content(records: Seq<Record>)
    requires
        loaded(records) is Ok,
    ensures
        no_empty_file(loaded(records)->Ok_0),
    decreases records.len(),
{
    if records.len() > 0 {
        lemma_loaded_files_have_content(records.drop_last());
    }
}

/// A path is in the loaded cache exactly when some member fills it.
pub proof fn lemma_cached_iff_filled(records: Seq<Record>, path: Seq<char>)
    requires
        loaded(records) is Ok,
    ensures
        loaded(records)->Ok_0.contains_key(path) <==> exists|i: int|
            0 <= i < records.len() && fills(#[trigger] records[i], path),
    decreases records.len(),
{
    if records.len() > 0 {
        let front = records.drop_last();
        lemma_cached_iff_filled(front, path);
        if loaded(records)->Ok_0.contains_key(path) {
            if fills(records.last(), path) {
                assert(fills(records[records.len() - 1], path));
            } else {
                let i = choose|i: int| 0 <= i < front.len() && fills(#[trigger] front[i], path);
                assert(fills(records[i], path));
            }
        } else if exists|i: int| 0 <= i < records.len() && fills(#[trigger] records[i], path) {
            let i = choose|i: int| 0 <= i < records.len() && fills(#[trigger] records[i], path);
            if i < front.len() {
                assert(fills(front[i], path));
            }
        }
    }
}

/// The loaded cache holds, under each path, the content of the last member
/// that fills it.
pub proof fn lemma_last_content_is_kept(records: Seq<Record>, i: int)
    requires
        loaded(records) is Ok,
        0 <= i < records.len(),
        has_content(records[i]),
        forall|j: int| i < j < records.len() ==> !fills(#[trigger] records[j], records[i]->path->0),
    ensures
        loaded(records)->Ok_0.contains_key(records[i]->path->0),
        loaded(records)->Ok_0[records[i]->path->0] == records[i]->data->0,
    decreases records.len(),
{
    let front = records.drop_last();
    if i < records.len() - 1 {
        assert(front[i] == records[i]);
        assert forall|j: int| i < j < front.len() implies !fills(
            #[trigger] front[j],
            front[i]->path->0,
        ) by {
            assert(front[j] == records[j]);
        }
        lemma_last_content_is_kept(front, i);
        assert(!fills(records[records.len() - 1], records[i]->path->0));
    }
}

/// Round trip: where every member of an archive has content and no two
/// share a path, a filesystem built from the archive alone gives, for each
/// member's path with a separator in front, exactly that member's content.
pub proof fn lemma_archive_round_trip(bytes: Seq<u8>, i: int, physical: Option<Seq<u8>>)
    requires
        forall|j: int|
            0 <= j < tar_records(bytes).len() ==> has_content(#[trigger] tar_records(bytes)[j]),
        forall|j: int, k: int|
            0 <= j < k < tar_records(bytes).len() ==> (#[trigger] tar_records(bytes)[j])->path->0
                != (#[trigger] tar_records(bytes)[k])->path->0,
        0 <= i < tar_records(bytes).len(),
    ensures
        built(None, Some(bytes)) is Ok,
        resolved(
            built(None, Some(bytes))->Ok_0,
            seq![SEPARATOR] + tar_records(bytes)[i]->path->0,
            physical,
        ) == Ok::<_, GameErrorView>(FileView { bytes: tar_records(bytes)[i]->data->0, pos: 0 }),
{
    let records = tar_records(bytes);
    assert(sound(records)) by {
        assert forall|j: int| 0 <= j < records.len() implies fault_of(#[trigger] records[j])
            is None by {
            assert(has_content(records[j]));
        }
    }
    lemma_loading_succeeds_iff_sound(records);
    lemma_last_content_is_kept(records, i);
    lemma_separator_is_stripped(records[i]->path->0);
}

/// Empty content is left out: a path that only members without content
/// have is not found, with or without a root, as long as the host read
/// nothing.
pub proof fn lemma_empty_member_is_not_found(
    root: Option<Seq<char>>,
    bytes: Seq<u8>,
    i: int,
)
    requires
        built(root, Some(bytes)) is Ok,
        0 <= i < tar_records(bytes).len(),
        tar_records(bytes)[i] matches Record::Member { path: Some(_), data: Some(data) }
            && data.len() == 0,
        forall|j: int|
            0 <= j < tar_records(bytes).len() ==> !fills(
                #[trigger] tar_records(bytes)[j],
                tar_records(bytes)[i]->path->0,
            ),
    ensures
        resolved(
            built(root, Some(bytes))->Ok_0,
            seq![SEPARATOR] + tar_records(bytes)[i]->path->0,
            None,
        ) == Err::<FileView, _>(
            GameErrorView::FilesystemError(missing_text(tar_records(bytes)[i]->path->0)),
        ),
{
    let records = tar_records(bytes);
    let path = records[i]->path->0;
    lemma_cached_iff_filled(records, path);
    lemma_separator_is_stripped(path);
}

/// The later member wins: of two members with content under one path, the
/// cache keeps the content of the later, unless a member after it fills the
/// path again.
pub proof fn lemma_later_member_wins(root: Option<Seq<char>>, bytes: Seq<u8>, i: int, j: int)
    requires
        built(root, Some(bytes)) is Ok,
        0 <= i < j < tar_records(bytes).len(),
        has_content(tar_records(bytes)[i]),
        has_content(tar_records(bytes)[j]),
        tar_records(bytes)[i]->path->0 == tar_records(bytes)[j]->path->0,
        forall|k: int|
            j < k < tar_records(bytes).len() ==> !fills(
                #[trigger] tar_records(bytes)[k],
                tar_records(bytes)[j]->path->0,
            ),
    ensures
        built(root, Some(bytes))->Ok_0.files.contains_key(tar_records(bytes)[i]->path->0),
        built(root, Some(bytes))->Ok_0.files[tar_records(bytes)[i]->path->0] == tar_records(
            bytes,
        )[j]->data->0,
{
    lemma_last_content_is_kept(tar_records(bytes), j);
}

/// What the host read goes first: with a root configured, a lookup gives
/// what the host read, whatever path was asked for and whatever the cache
/// holds.
pub proof fn lemma_physical_goes_first(fs: FilesystemView, path: Seq<char>, content: Seq<u8>)
    requires
        fs.root is Some,
    ensures
        resolved(fs, path, Some(content)) == Ok::<_, GameErrorView>(
            FileView { bytes: content, pos: 0 },
        ),
{
}

/// Where the host read nothing, or no root is configured, a lookup gives
/// what the cache holds under the relative path.
pub proof fn lemma_cache_is_the_fallback(
    fs: FilesystemView,
    path: Seq<char>,
    physical: Option<Seq<u8>>,
)
    requires
        fs.root is None || physical is None,
        fs.files.contains_key(normalized(path)),
    ensures
        resolved(fs, path, physical) == Ok::<_, GameErrorView>(
            FileView { bytes: fs.files[normalized(path)], pos: 0 },
        ),
{
}

/// The message for a missing file holds the relative path, letter for
/// letter, right after its lead.
pub proof fn lemma_message_names_the_path(rel: Seq<char>)
    ensures
        missing_text(rel).subrange(
            missing_lead().len() as int,
            missing_lead().len() as int + rel.len(),
        ) == rel,
{
    assert(missing_text(rel).subrange(
        missing_lead().len() as int,
        missing_lead().len() as int + rel.len(),
    ) =~= rel);
}

/// A clean miss: without a root and without an archive every lookup fails,
/// and the error names the relative path that was asked for.
pub proof fn lemma_clean_miss(path: Seq<char>, physical: Option<Seq<u8>>)
    ensures
        built(None, None) is Ok,
        resolved(built(None, None)->Ok_0, path, physical) == Err::<FileView, _>(
            GameErrorView::FilesystemError(missing_text(normalized(path))),
        ),
        missing_text(normalized(path)).subrange(
            missing_lead().len() as int,
            missing_lead().len() as int + normalized(path).len(),
        ) == normalized(path),
{
    lemma_message_names_the_path(normalized(path));
}

/// A broken archive builds nothing: where a record of the archive has a
/// fault, building fails with the fault of the first such record, and no
/// filesystem with a part of the archive comes out.
pub proof fn lemma_broken_archive_builds_nothing(root: Option<Seq<char>>, bytes: Seq<u8>, i: int)
    requires
        0 <= i < tar_records(bytes).len(),
        fault_of(tar_records(bytes)[i]) is Some,
        forall|j: int| 0 <= j < i ==> fault_of(#[trigger] tar_records(bytes)[j]) is None,
    ensures
        built(root, Some(bytes)) == Err::<FilesystemView, _>(
            GameErrorView::ArchiveError(fault_of(tar_records(bytes)[i])->0),
        ),
{
    lemma_first_fault_ends_loading(tar_records(bytes), i);
}

/// Building fails only on a broken archive: without an archive, and with
/// one whose records have no fault, a filesystem comes out, with the root as
/// it was configured and a cache without empty files.
pub proof fn lemma_sound_archive_builds(root: Option<Seq<char>>, archive: Option<Seq<u8>>)
    requires
        archive matches Some(bytes) ==> sound(tar_records(bytes)),
    ensures
        built(root, archive) is Ok,
        built(root, archive)->Ok_0.root == root,
        no_empty_file(built(root, archive)->Ok_0.files),
        archive is None ==> built(root, archive)->Ok_0.files == Map::<Seq<char>, Seq<u8>>::empty(),
{
    if let Some(bytes) = archive {
        lemma_loading_succeeds_iff_sound(tar_records(bytes));
        lemma_loaded_files_have_content(tar_records(bytes));
    }
}

} // verus!
