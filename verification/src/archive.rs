//! The archive writer of the zip crate, as the package assembler uses it:
//! an in-memory writer, filled entry by entry and finished into the bytes
//! of the archive. The writer and its methods are outside code; what Verus
//! knows of them is stated here and believed, so each contract states no
//! more than the crate's source shows.

use vstd::prelude::*;

verus! {

/// Relies on zip::result::ZipError, the zip crate's error type.
#[verifier::external_type_specification]
#[verifier::external_body]
pub struct ExZipError(zip::result::ZipError);

/// An archive being assembled in memory: the zip crate's writer over an
/// in-memory buffer. The writer's generic type cannot be named to Verus
/// (its bounds are outside traits), so the struct is opaque; its contents
/// are modeled by `archive_closed` and `archive_open`.
#[verifier::external_body]
pub struct ArchiveWriter {
    inner: zip::ZipWriter<std::io::Cursor<Vec<u8>>>,
}

/// The entries already written whole to the writer: each a name and its
/// raw (uncompressed) contents, oldest first.
pub uninterp spec fn archive_closed(w: ArchiveWriter) -> Seq<(Seq<char>, Seq<u8>)>;

/// The entry the writer is currently filling, if any.
pub uninterp spec fn archive_open(w: ArchiveWriter) -> Option<(Seq<char>, Seq<u8>)>;

/// All entries held by the writer, the one still being filled last.
pub open spec fn archive_entries(w: ArchiveWriter) -> Seq<(Seq<char>, Seq<u8>)> {
    match archive_open(w) {
        Some(e) => archive_closed(w).push(e),
        None => archive_closed(w),
    }
}

/// The bytes of the finished archive holding the given entries in order,
/// each deflate-compressed under a fixed timestamp. With those options
/// pinned, the bytes are a function of the entries alone.
pub uninterp spec fn archive_encoding(entries: Seq<(Seq<char>, Seq<u8>)>) -> Seq<u8>;

/// Relies on zip::ZipWriter::new: a fresh writer over an empty in-memory
/// buffer holds no entries.
#[verifier::external_body]
pub(crate) fn archive_new() -> (w: ArchiveWriter)
    ensures
        archive_closed(w) == Seq::<(Seq<char>, Seq<u8>)>::empty(),
        archive_open(w) is None,
{
    ArchiveWriter { inner: zip::ZipWriter::new(std::io::Cursor::new(Vec::new())) }
}

/// Relies on zip::ZipWriter::start_file: finishes the entry being filled,
/// if any, and starts an empty one under the given name. The options pin
/// deflate compression and a constant timestamp, so the finished archive
/// depends on the entries alone. On an error nothing is promised of the
/// writer's state.
#[verifier::external_body]
pub(crate) fn archive_start_entry(w: &mut ArchiveWriter, name: &str) -> (r: Result<
    (),
    zip::result::ZipError,
>)
    ensures
        r is Ok ==> archive_closed(*final (w)) == archive_entries(*old(w)),
        r is Ok ==> archive_open(*final (w)) == Some((name@, Seq::<u8>::empty())),
{
    let options: zip::write::FileOptions<'_, ()> = zip::write::FileOptions::default()
        .compression_method(zip::CompressionMethod::Deflated)
        .last_modified_time(zip::DateTime::DEFAULT);
    w.inner.start_file(name, options)
}

/// Relies on the std::io::Write implementation of zip::ZipWriter:
/// write_all appends the given bytes to the entry being filled. On an
/// error nothing is promised of the writer's state.
#[verifier::external_body]
pub(crate) fn archive_append_data(w: &mut ArchiveWriter, data: &[u8]) -> (r: Result<
    (),
    zip::result::ZipError,
>)
    requires
        archive_open(*old(w)) is Some,
    ensures
        r is Ok ==> archive_closed(*final (w)) == archive_closed(*old(w)),
        r is Ok ==> archive_open(*final (w)) == Some(
            (archive_open(*old(w))->Some_0.0, archive_open(*old(w))->Some_0.1 + data@),
        ),
{
    match std::io::Write::write_all(&mut w.inner, data) {
        Ok(()) => Ok(()),
        Err(e) => Err(zip::result::ZipError::Io(e)),
    }
}

/// Relies on zip::ZipWriter::finish: completes the archive and hands back
/// the underlying buffer, whose bytes are the archive encoding of the
/// entries written.
#[verifier::external_body]
pub(crate) fn archive_finish(w: ArchiveWriter) -> (r: Result<Vec<u8>, zip::result::ZipError>)
    ensures
        r is Ok ==> r->Ok_0@ == archive_encoding(archive_entries(w)),
{
    match w.inner.finish() {
        Ok(cursor) => Ok(cursor.into_inner()),
        Err(e) => Err(e),
    }
}

/// Relies on the Display implementation of zip::result::ZipError for a
/// human-readable description of the failure.
#[verifier::external_body]
pub(crate) fn zip_error_text(e: &zip::result::ZipError) -> String {
    e.to_string()
}

} // verus!
