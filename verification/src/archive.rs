//! The zip archive under construction.

use vstd::prelude::*;
use std::io::Cursor;
use std::io::Write;
use zip::result::ZipError;
use zip::ZipWriter;

verus! {

/// Lets `zip::result::ZipError` stand in signatures. Nothing is known of a
/// value of it.
#[verifier::external_type_specification]
#[verifier::external_body]
pub struct ExZipError(ZipError);

/// A `zip::ZipWriter` over a buffer in memory. Nothing is known of a value
/// of it but what the functions below say of [`archive_members`].
#[verifier::external_body]
pub struct Archive {
    writer: ZipWriter<Cursor<Vec<u8>>>,
}

/// The files that an archive holds, in the order in which they were
/// started: the name and the bytes written so far of each.
pub uninterp spec fn archive_members(archive: Archive) -> Seq<(Seq<char>, Seq<u8>)>;

/// The bytes that `ZipWriter::finish` leaves in the buffer after `members`
/// were written, each stored without compression and dated 1980-01-01.
pub uninterp spec fn stored_archive(members: Seq<(Seq<char>, Seq<u8>)>) -> Seq<u8>;

/// Whether an archive still takes files: its writer is not closed, and
/// where a file was started, that file is the one being written.
pub uninterp spec fn archive_open(archive: Archive) -> bool;

/// The most bytes that one file of an archive can hold. The writer refuses
/// a file that grows beyond it, since its option for large files is left
/// unset.
pub const MAX_FILE_LEN: u64 = 0xFFFF_FFFF;

/// Whether each of `members` is small enough for an archive.
pub open spec fn files_fit(members: Seq<(Seq<char>, Seq<u8>)>) -> bool {
    forall|i: int| 0 <= i < members.len() ==> (#[trigger] members[i]).1.len() <= MAX_FILE_LEN
}

/// Files fit together where they fit apart.
pub proof fn lemma_files_fit_concat(
    first: Seq<(Seq<char>, Seq<u8>)>,
    second: Seq<(Seq<char>, Seq<u8>)>,
)
    ensures
        files_fit(first + second) <==> files_fit(first) && files_fit(second),
{
    let both = first + second;
    if files_fit(both) {
        assert forall|i: int| 0 <= i < first.len() implies (#[trigger] first[i]).1.len()
            <= MAX_FILE_LEN by {
            assert(both[i] == first[i]);
        }
        assert forall|i: int| 0 <= i < second.len() implies (#[trigger] second[i]).1.len()
            <= MAX_FILE_LEN by {
            assert(both[first.len() + i] == second[i]);
        }
    }
}

/// Calls `ZipWriter::new` on an empty buffer. Trusted: the new writer holds
/// no file and is open.
#[verifier::external_body]
pub(crate) fn new_archive() -> (archive: Archive)
    ensures
        archive_members(archive) == Seq::<(Seq<char>, Seq<u8>)>::empty(),
        archive_open(archive),
{
    Archive { writer: ZipWriter::new(Cursor::new(Vec::new())) }
}

/// Calls `ZipWriter::start_file` with the options for a stored file dated
/// 1980-01-01. Trusted: where it succeeds, the writer holds one more file,
/// named `name` and empty; and on an open writer it succeeds and leaves the
/// writer open, since over a buffer in memory it refuses only when closed.
#[verifier::external_body]
pub(crate) fn start_stored_file(archive: &mut Archive, name: &str) -> (r: Result<(), ZipError>)
    ensures
        r is Ok ==> archive_members(*final(archive)) == archive_members(*old(archive)).push(
            (name@, Seq::<u8>::empty()),
        ),
        archive_open(*old(archive)) ==> r is Ok && archive_open(*final(archive)),
{
    let options = zip::write::FileOptions::default()
        .compression_method(zip::CompressionMethod::Stored)
        .last_modified_time(zip::DateTime::default());
    archive.writer.start_file(name, options)
}

/// Calls `std::io::Write::write_all` on the writer. Trusted: where it
/// succeeds on a writer that holds a file, `data` is added to the end of
/// the last file and the others are as before; and on an open writer that
/// holds a file it succeeds, and leaves the writer open, if and only if the
/// last file stays within [`MAX_FILE_LEN`].
#[verifier::external_body]
pub(crate) fn write_to_last_file(archive: &mut Archive, data: &[u8]) -> (r: Result<(), ZipError>)
    ensures
        r is Ok && archive_members(*old(archive)).len() > 0 ==> archive_members(*final(archive))
            == archive_members(*old(archive)).drop_last().push(
            (
                archive_members(*old(archive)).last().0,
                archive_members(*old(archive)).last().1 + data@,
            ),
        ),
        archive_open(*old(archive)) && archive_members(*old(archive)).len() > 0
            && archive_members(*old(archive)).last().1.len() + data@.len() <= MAX_FILE_LEN
            ==> r is Ok && archive_open(*final(archive)),
        archive_open(*old(archive)) && archive_members(*old(archive)).len() > 0
            && archive_members(*old(archive)).last().1.len() + data@.len() > MAX_FILE_LEN
            ==> r is Err,
{
    archive.writer.write_all(data).map_err(ZipError::Io)
}

/// Makes the `ZipError::InvalidArchive` that stands for a file name which
/// the archive holds already. Nothing is claimed of the value.
#[verifier::external_body]
pub(crate) fn duplicate_name_error() -> ZipError {
    ZipError::InvalidArchive("Duplicate filename")
}

/// Calls `ZipWriter::finish` and takes the buffer out of the cursor.
/// Trusted: where it succeeds, the bytes depend on nothing but the files
/// that the writer held: their names, their bytes and their order; and on
/// an open writer it succeeds.
#[verifier::external_body]
pub(crate) fn finish_archive(archive: Archive) -> (r: Result<Vec<u8>, ZipError>)
    ensures
        r matches Ok(bytes) ==> bytes@ == stored_archive(archive_members(archive)),
        archive_open(archive) ==> r is Ok,
{
    let mut writer = archive.writer;
    writer.finish().map(Cursor::into_inner)
}

} // verus!
