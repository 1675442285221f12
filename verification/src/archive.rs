//! Packing several compressed documents into one ZIP archive.
//!
//! The archive is written by the `zip` crate, every entry stored as it is.
//! This module decides which entries can be packed at all and in which order
//! they are written.

use vstd::prelude::*;
use vstd::utf8::encode_utf8;

verus! {

/// An archive in the making: the writer of the `zip` crate over a target in
/// memory.
#[verifier::external_body]
pub struct ArchiveWriter {
    writer: zip::ZipWriter<std::io::Cursor<Vec<u8>>>,
}

/// The error of the `zip` crate.
#[verifier::external_type_specification]
#[verifier::external_body]
pub struct ExZipError(zip::result::ZipError);

/// The error of an input or output operation.
#[verifier::external_type_specification]
#[verifier::external_body]
pub struct ExIoError(std::io::Error);

/// The entries that were put into an archive writer so far, each with its
/// name and its content, in the order in which they were started.
pub uninterp spec fn zip_entries(writer: ArchiveWriter) -> Seq<(Seq<char>, Seq<u8>)>;

/// Whether every call made on an archive writer so far has succeeded.
pub uninterp spec fn zip_sound(writer: ArchiveWriter) -> bool;

/// The bytes of the archive that the `zip` crate writes for a list of stored
/// entries.
pub uninterp spec fn stored_archive(entries: Seq<(Seq<char>, Seq<u8>)>) -> Seq<u8>;

/// Whether an archive writer that holds `entries`, and on which no call has
/// failed, starts a new entry under `name`.
pub uninterp spec fn zip_takes_name(entries: Seq<(Seq<char>, Seq<u8>)>, name: Seq<char>) -> bool;

/// Whether an archive writer that holds `entries`, and on which no call has
/// failed, writes `content` behind the content of its last entry.
pub uninterp spec fn zip_takes_bytes(entries: Seq<(Seq<char>, Seq<u8>)>, content: Seq<u8>) -> bool;

/// Whether an archive writer that holds `entries`, and on which no call has
/// failed, closes its archive.
pub uninterp spec fn zip_closes(entries: Seq<(Seq<char>, Seq<u8>)>) -> bool;

/// The longest name, in bytes, that an entry of an archive can have.
pub const MAX_NAME_BYTES: usize = 65535;

/// Whether a name is short enough for an entry of an archive.
pub open spec fn name_fits(name: Seq<char>) -> bool {
    encode_utf8(name).len() <= MAX_NAME_BYTES
}

/// Calls `zip::ZipWriter::new` on an empty in-memory target: the writer
/// starts without entries.
#[verifier::external_body]
fn zip_new() -> (writer: ArchiveWriter)
    ensures
        zip_entries(writer) == Seq::<(Seq<char>, Seq<u8>)>::empty(),
        zip_sound(writer),
{
    ArchiveWriter { writer: zip::ZipWriter::new(std::io::Cursor::new(Vec::new())) }
}

/// Calls `zip::ZipWriter::start_file` with the default options and the
/// method `Stored`. Whether it succeeds depends on the entries that the
/// writer holds and on the name, and is named. Where it succeeds, a new entry
/// of that name, still empty, follows the entries that were there. The crate
/// cannot write a name of more than 65535 bytes, so such a name is not handed
/// to it.
#[verifier::external_body]
fn zip_start_file(writer: &mut ArchiveWriter, name: &str) -> (r: Result<(), zip::result::ZipError>)
    requires
        name_fits(name@),
        zip_sound(*old(writer)),
    ensures
        r is Ok <==> zip_takes_name(zip_entries(*old(writer)), name@),
        r is Ok ==> zip_sound(*final(writer)) && zip_entries(*final(writer)) == zip_entries(
            *old(writer),
        ).push((name@, Seq::<u8>::empty())),
{
    let options = zip::write::FileOptions::<'_, ()>::default().compression_method(
        zip::CompressionMethod::Stored,
    );
    writer.writer.start_file(name, options)
}

/// Calls `write_all` on the archive writer. Whether it succeeds depends on
/// the entries that the writer holds and on the bytes, and is named. Where it
/// succeeds, the bytes follow the content of the entry that was started last.
#[verifier::external_body]
fn zip_write_all(writer: &mut ArchiveWriter, content: &[u8]) -> (r: Result<(), std::io::Error>)
    requires
        zip_sound(*old(writer)),
        zip_entries(*old(writer)).len() > 0,
    ensures
        r is Ok <==> zip_takes_bytes(zip_entries(*old(writer)), content@),
        r is Ok ==> zip_sound(*final(writer)) && zip_entries(*final(writer)) == zip_entries(
            *old(writer),
        ).update(
            zip_entries(*old(writer)).len() - 1,
            (zip_entries(*old(writer)).last().0, zip_entries(*old(writer)).last().1 + content@),
        ),
{
    std::io::Write::write_all(&mut writer.writer, content)
}

/// Calls `zip::ZipWriter::finish` and takes the bytes out of the target.
/// Whether it succeeds depends on the entries that the writer holds, and is
/// named. Where it succeeds, the bytes are the archive of those entries.
#[verifier::external_body]
fn zip_finish(writer: ArchiveWriter) -> (r: Result<Vec<u8>, zip::result::ZipError>)
    requires
        zip_sound(writer),
    ensures
        r is Ok <==> zip_closes(zip_entries(writer)),
        r matches Ok(bytes) ==> bytes@ == stored_archive(zip_entries(writer)),
{
    match writer.writer.finish() {
        Ok(target) => Ok(target.into_inner()),
        Err(e) => Err(e),
    }
}

/// Why an archive was not made.
#[derive(Clone, Copy, Debug, PartialEq, Eq, Structural)]
pub enum PackError {
    /// The name of an entry is longer than an archive can hold.
    NameTooLong,
    /// Two entries have the same name.
    DuplicateName,
    /// The archive writer did not start an entry.
    Rejected,
    /// The archive writer started an entry and did not write its content.
    Write,
    /// The archive writer took every entry and did not close the archive.
    Finish,
}

/// The entries of an archive of `files` under `file_names`: the two lists are
/// paired off in order, and what one list has more than the other is left out.
pub open spec fn archive_entries(files: Seq<Vec<u8>>, file_names: Seq<String>) -> Seq<
    (Seq<char>, Seq<u8>),
> {
    Seq::new(
        if files.len() <= file_names.len() {
            files.len()
        } else {
            file_names.len()
        },
        |i: int| (file_names[i]@, files[i]@),
    )
}

/// Whether every entry has a name that an archive can hold.
pub open spec fn names_fit(entries: Seq<(Seq<char>, Seq<u8>)>) -> bool {
    forall|i: int| 0 <= i < entries.len() ==> name_fits(#[trigger] entries[i].0)
}

/// Whether no two entries have the same name.
pub open spec fn names_distinct(entries: Seq<(Seq<char>, Seq<u8>)>) -> bool {
    forall|i: int, j: int|
        0 <= i < j < entries.len() ==> #[trigger] entries[i].0 != #[trigger] entries[j].0
}

/// Whether the archive writer, holding the entries before the one at `i`,
/// starts that entry.
pub open spec fn takes_name_at(entries: Seq<(Seq<char>, Seq<u8>)>, i: int) -> bool {
    zip_takes_name(entries.take(i), entries[i].0)
}

/// Whether the archive writer, having started the entry at `i`, writes its
/// content.
pub open spec fn takes_bytes_at(entries: Seq<(Seq<char>, Seq<u8>)>, i: int) -> bool {
    zip_takes_bytes(entries.take(i).push((entries[i].0, Seq::empty())), entries[i].1)
}

/// The first step at which the archive writer fails while the first `n`
/// entries are written one after the other: `Rejected` where it does not
/// start an entry, `Write` where it does not write the content of an entry
/// that it started. `None` where it takes all `n`.
pub open spec fn writer_failure(entries: Seq<(Seq<char>, Seq<u8>)>, n: nat) -> Option<PackError>
    decreases n,
{
    if n == 0 {
        None
    } else {
        match writer_failure(entries, (n - 1) as nat) {
            Some(e) => Some(e),
            None => if !takes_name_at(entries, n - 1) {
                Some(PackError::Rejected)
            } else if !takes_bytes_at(entries, n - 1) {
                Some(PackError::Write)
            } else {
                None
            },
        }
    }
}

/// Whether the archive writer takes the first `n` entries, one after the
/// other.
pub open spec fn packs(entries: Seq<(Seq<char>, Seq<u8>)>, n: nat) -> bool {
    writer_failure(entries, n) is None
}

/// Why no archive of `entries` is made, if none is: a name that does not fit
/// comes before a name that occurs twice, and both come before anything that
/// the archive writer refuses.
pub open spec fn pack_failure(entries: Seq<(Seq<char>, Seq<u8>)>) -> Option<PackError> {
    if !names_fit(entries) {
        Some(PackError::NameTooLong)
    } else if !names_distinct(entries) {
        Some(PackError::DuplicateName)
    } else {
        match writer_failure(entries, entries.len()) {
            Some(e) => Some(e),
            None => if zip_closes(entries) {
                None
            } else {
                Some(PackError::Finish)
            },
        }
    }
}

/// A failure of the archive writer stays the first failure, however many
/// entries follow.
proof fn lemma_writer_failure_stays(entries: Seq<(Seq<char>, Seq<u8>)>, m: nat, n: nat)
    requires
        m <= n,
        writer_failure(entries, m) is Some,
    ensures
        writer_failure(entries, n) == writer_failure(entries, m),
    decreases n,
{
    if m < n {
        lemma_writer_failure_stays(entries, m, (n - 1) as nat);
    }
}

/// An archive is made of exactly those entries whose names fit and differ,
/// which the archive writer takes one after the other, and whose archive it
/// closes.
pub proof fn lemma_archive_is_owed(entries: Seq<(Seq<char>, Seq<u8>)>)
    ensures
        pack_failure(entries) is None <==> names_fit(entries) && names_distinct(entries) && packs(
            entries,
            entries.len(),
        ) && zip_closes(entries),
{
}

/// Whether the first `count` names are all short enough for an archive.
fn all_names_fit(file_names: &Vec<String>, count: usize) -> (r: bool)
    requires
        count <= file_names.len(),
    ensures
        r == forall|i: int| 0 <= i < count ==> name_fits(#[trigger] file_names[i]@),
{
    let mut i: usize = 0;
    while i < count
        invariant
            i <= count <= file_names.len(),
            forall|k: int| 0 <= k < i ==> name_fits(#[trigger] file_names[k]@),
        decreases count - i,
    {
        if file_names[i].as_str().as_bytes().len() > MAX_NAME_BYTES {
            return false;
        }
        i = i + 1;
    }
    true
}

/// Whether the first `count` names differ from one another.
fn all_names_differ(file_names: &Vec<String>, count: usize) -> (r: bool)
    requires
        count <= file_names.len(),
    ensures
        r == forall|i: int, j: int|
            0 <= i < j < count ==> #[trigger] file_names[i]@ != #[trigger] file_names[j]@,
{
    let mut j: usize = 0;
    while j < count
        invariant
            j <= count <= file_names.len(),
            forall|a: int, b: int|
                0 <= a < b < j ==> #[trigger] file_names[a]@ != #[trigger] file_names[b]@,
        decreases count - j,
    {
        let mut i: usize = 0;
        while i < j
            invariant
                i <= j < count <= file_names.len(),
                forall|a: int| 0 <= a < i ==> #[trigger] file_names[a]@ != file_names[j as int]@,
            decreases j - i,
        {
            if file_names[i] == file_names[j] {
                return false;
            }
            i = i + 1;
        }
        j = j + 1;
    }
    true
}

/// Packs `files` into one archive, each stored as it is under the name at the
/// same place of `file_names`.
///
/// A name that an archive cannot hold and a name that occurs twice are
/// refused before anything is written. After that the archive is made unless
/// the archive writer fails, and the error says at which step it did.
pub fn create_zip(files: Vec<Vec<u8>>, file_names: Vec<String>) -> (r: Result<Vec<u8>, PackError>)
    ensures
        match pack_failure(archive_entries(files@, file_names@)) {
            Some(e) => r == Err::<Vec<u8>, PackError>(e),
            None => r matches Ok(bytes) && bytes@ == stored_archive(
                archive_entries(files@, file_names@),
            ),
        },
{
    let ghost entries = archive_entries(files@, file_names@);
    let count = if files.len() <= file_names.len() {
        files.len()
    } else {
        file_names.len()
    };
    let fit = all_names_fit(&file_names, count);
    proof {
        if fit {
            assert forall|i: int| 0 <= i < entries.len() implies name_fits(
                #[trigger] entries[i].0,
            ) by {
                assert(name_fits(file_names[i]@));
            }
        }
        if names_fit(entries) {
            assert forall|i: int| 0 <= i < count implies name_fits(#[trigger] file_names[i]@) by {
                assert(name_fits(entries[i].0));
            }
        }
    }
    if !fit {
        return Err(PackError::NameTooLong);
    }
    let differ = all_names_differ(&file_names, count);
    proof {
        if differ {
            assert forall|i: int, j: int| 0 <= i < j < entries.len() implies #[trigger] entries[i].0
                != #[trigger] entries[j].0 by {
                assert(file_names[i]@ != file_names[j]@);
            }
        }
        if names_distinct(entries) {
            assert forall|i: int, j: int| 0 <= i < j < count implies #[trigger] file_names[i]@
                != #[trigger] file_names[j]@ by {
                assert(entries[i].0 != entries[j].0);
            }
        }
    }
    if !differ {
        return Err(PackError::DuplicateName);
    }
    let mut writer = zip_new();
    let mut i: usize = 0;
    assert(zip_entries(writer) =~= entries.take(0));
    while i < count
        invariant
            i <= count,
            count == entries.len(),
            count <= files.len(),
            count <= file_names.len(),
            entries == archive_entries(files@, file_names@),
            names_fit(entries),
            names_distinct(entries),
            zip_sound(writer),
            zip_entries(writer) == entries.take(i as int),
            packs(entries, i as nat),
        decreases count - i,
    {
        assert(entries[i as int].0 == file_names[i as int]@);
        match zip_start_file(&mut writer, file_names[i].as_str()) {
            Ok(_) => {},
            Err(_) => {
                proof {
                    assert(!takes_name_at(entries, i as int));
                    assert(writer_failure(entries, (i + 1) as nat) == Some(PackError::Rejected));
                    lemma_writer_failure_stays(entries, (i + 1) as nat, count as nat);
                }
                return Err(PackError::Rejected);
            },
        }
        match zip_write_all(&mut writer, files[i].as_slice()) {
            Ok(_) => {},
            Err(_) => {
                proof {
                    assert(!takes_bytes_at(entries, i as int));
                    assert(writer_failure(entries, (i + 1) as nat) == Some(PackError::Write));
                    lemma_writer_failure_stays(entries, (i + 1) as nat, count as nat);
                }
                return Err(PackError::Write);
            },
        }
        assert(zip_entries(writer) =~= entries.take(i + 1)) by {
            assert(Seq::<u8>::empty() + files[i as int]@ =~= files[i as int]@);
        }
        i = i + 1;
    }
    assert(entries.take(count as int) =~= entries);
    match zip_finish(writer) {
        Ok(bytes) => Ok(bytes),
        Err(_) => Err(PackError::Finish),
    }
}

} // verus!
