//! Building the bytes of a single-entry container.
//!
//! The ZIP encoding and the compression codecs are the `zip` crate's. This
//! module decides what is handed to its writer, in which order, and how
//! what comes back is classified. The writer is trusted; that exactly one
//! entry is begun, that it is filled once with the data, and that every
//! failure becomes a `WriteFailed`, is proved.
//!
//! A writer that is dropped after a failure tries to seal what it has; if
//! that fails too, `zip` says so on standard error.

use crate::error::ArchiveError;
use crate::method::CompressionMethod;
use crate::stamp::Timestamp;
use vstd::prelude::*;

verus! {

/// Permission bits of the entry: owner may read and write, group and
/// others may read.
pub const ENTRY_MODE: u32 = 0o644;

/// The bits of a mode that are permission bits. A writer keeps no others.
pub const PERMISSION_BITS: u32 = 0o777;

/// One entry as a writer holds it.
pub struct Entry {
    pub name: Seq<char>,
    pub method: CompressionMethod,
    /// The permission bits, none outside `PERMISSION_BITS`.
    pub mode: u32,
    pub stamp: Timestamp,
    pub data: Seq<u8>,
}

impl Entry {
    /// An entry that has been begun and holds no data yet.
    pub open spec fn begun(
        name: Seq<char>,
        method: CompressionMethod,
        mode: u32,
        stamp: Timestamp,
    ) -> Entry {
        Entry { name, method, mode, stamp, data: Seq::empty() }
    }

    /// The same entry, holding `data`.
    pub open spec fn holding(self, data: Seq<u8>) -> Entry {
        Entry { data, ..self }
    }
}

/// The error type of the `zip` crate, carried but never inspected.
#[verifier::external_type_specification]
#[verifier::external_body]
pub struct ExZipError(zip::result::ZipError);

/// A `zip::ZipWriter` that writes into memory, through a `Cursor` on a
/// vector. It is made by `open_writer` and touched by nothing but the
/// functions below.
#[verifier::external_body]
pub struct ContainerWriter {
    inner: zip::ZipWriter<std::io::Cursor<Vec<u8>>>,
}

/// The entries that a writer holds, oldest first: of each its name, its
/// method, its permission bits and its time stamp as the writer keeps them,
/// and the data written into it.
pub uninterp spec fn staged(writer: ContainerWriter) -> Seq<Entry>;

/// Whether `start_file` accepts a new entry after those staged before.
pub uninterp spec fn entry_begins(before: Seq<Entry>, entry: Entry) -> bool;

/// Whether `write_all` accepts `data` for the newest of the entries.
pub uninterp spec fn entry_takes(entries: Seq<Entry>, data: Seq<u8>) -> bool;

/// What `finish` makes of the entries: the bytes of the sealed container,
/// or `None` where it reports a failure.
pub uninterp spec fn sealed_image(entries: Seq<Entry>) -> Option<Seq<u8>>;

/// `zip::ZipWriter::new` over a `Cursor` on an empty vector. Trusted: the
/// new writer has been handed no entry.
#[verifier::external_body]
fn open_writer() -> (writer: ContainerWriter)
    ensures
        staged(writer) == Seq::<Entry>::empty(),
{
    ContainerWriter { inner: zip::ZipWriter::new(std::io::Cursor::new(Vec::new())) }
}

/// `ZipWriter::start_file` with the name and with `FileOptions::default()`
/// on which `compression_method`, `unix_permissions` and
/// `last_modified_time` are set from the arguments, the time through
/// `DateTime::from_date_and_time`, which refuses no valid stamp. Of a mode
/// `unix_permissions` keeps the permission bits only, so no other bit may
/// be set in `mode`.
///
/// Trusted: whether the call succeeds is determined by what was staged and
/// by the new entry; where it succeeds the entry is staged, empty, after
/// the others. The time that `default()` takes from the clock is replaced,
/// so nothing but the arguments reaches the writer.
#[verifier::external_body]
fn begin_entry(
    writer: ContainerWriter,
    name: &str,
    method: CompressionMethod,
    mode: u32,
    stamp: Timestamp,
) -> (r: Result<ContainerWriter, zip::result::ZipError>)
    requires
        mode <= PERMISSION_BITS,
        stamp.valid(),
    ensures
        r is Ok <==> entry_begins(staged(writer), Entry::begun(name@, method, mode, stamp)),
        r matches Ok(next) ==> staged(next) == staged(writer).push(
            Entry::begun(name@, method, mode, stamp),
        ),
{
    let codec = match method {
        CompressionMethod::Deflate => zip::CompressionMethod::Deflated,
        CompressionMethod::Store => zip::CompressionMethod::Stored,
        CompressionMethod::Bzip2 => zip::CompressionMethod::Bzip2,
        CompressionMethod::Zstandard => zip::CompressionMethod::Zstd,
    };
    let modified = zip::DateTime::from_date_and_time(
        stamp.year, stamp.month, stamp.day, stamp.hour, stamp.minute, stamp.second,
    ).unwrap_or_default();
    let options = zip::write::FileOptions::default().compression_method(codec)
        .unix_permissions(mode).last_modified_time(modified);
    let mut writer = writer;
    writer.inner.start_file(name, options)?;
    Ok(writer)
}

/// `std::io::Write::write_all` on the writer, its error turned into zip's
/// by `ZipError::from`.
///
/// Trusted: whether the call succeeds is determined by what was staged and
/// by the data; where it succeeds the newest entry holds the data. Asked
/// only of an entry that holds nothing yet, so that an entry is written in
/// one piece.
#[verifier::external_body]
fn fill_entry(writer: ContainerWriter, data: &[u8]) -> (r: Result<
    ContainerWriter,
    zip::result::ZipError,
>)
    requires
        staged(writer).len() > 0,
        staged(writer).last().data.len() == 0,
    ensures
        r is Ok <==> entry_takes(staged(writer), data@),
        r matches Ok(next) ==> staged(next) == staged(writer).drop_last().push(
            staged(writer).last().holding(data@),
        ),
{
    let mut writer = writer;
    std::io::Write::write_all(&mut writer.inner, data)?;
    Ok(writer)
}

/// `ZipWriter::finish`, and `Cursor::into_inner` on the cursor it returns.
///
/// Trusted: the outcome, the bytes of the container or a failure, is
/// determined by the staged entries.
#[verifier::external_body]
fn seal_writer(writer: ContainerWriter) -> (r: Result<Vec<u8>, zip::result::ZipError>)
    ensures
        r matches Ok(image) ==> sealed_image(staged(writer)) == Some(image@),
        r is Err ==> sealed_image(staged(writer)) is None,
{
    let mut writer = writer;
    Ok(writer.inner.finish()?.into_inner())
}

/// The container of one entry: what the writer makes of an entry that is
/// begun on a new writer, filled with `data` and sealed, or `None` where
/// one of the three steps fails.
pub open spec fn container_image(
    name: Seq<char>,
    data: Seq<u8>,
    method: CompressionMethod,
    mode: u32,
    stamp: Timestamp,
) -> Option<Seq<u8>> {
    let entry = Entry::begun(name, method, mode, stamp);
    if entry_begins(Seq::empty(), entry) && entry_takes(seq![entry], data) {
        sealed_image(seq![entry.holding(data)])
    } else {
        None
    }
}

/// The container that holds `data` as its only entry, named `name`, stored
/// with `method`, with permission bits `ENTRY_MODE` and modified at `stamp`
/// (at the epoch, if `stamp` cannot be recorded). Every failure of the
/// writer is a `WriteFailed`.
pub fn build_container(name: &str, data: &[u8], method: CompressionMethod, stamp: Timestamp) -> (r:
    Result<Vec<u8>, ArchiveError>)
    ensures
        r matches Ok(image) ==> container_image(
            name@,
            data@,
            method,
            ENTRY_MODE,
            stamp.normalized(),
        ) == Some(image@),
        r matches Err(e) ==> e == ArchiveError::WriteFailed && container_image(
            name@,
            data@,
            method,
            ENTRY_MODE,
            stamp.normalized(),
        ) is None,
{
    let writer = open_writer();
    let writer = match begin_entry(writer, name, method, ENTRY_MODE, stamp.normalize()) {
        Ok(writer) => writer,
        Err(_) => {
            return Err(ArchiveError::WriteFailed);
        },
    };
    let writer = match fill_entry(writer, data) {
        Ok(writer) => writer,
        Err(_) => {
            return Err(ArchiveError::WriteFailed);
        },
    };
    proof {
        let entry = Entry::begun(name@, method, ENTRY_MODE, stamp.normalized());
        assert(staged(writer) =~= seq![entry.holding(data@)]);
    }
    match seal_writer(writer) {
        Ok(image) => Ok(image),
        Err(_) => Err(ArchiveError::WriteFailed),
    }
}

/// A container that can be built is the sealed image of exactly one entry,
/// which bears the given name and holds the given data.
pub proof fn lemma_one_entry(
    name: Seq<char>,
    data: Seq<u8>,
    method: CompressionMethod,
    mode: u32,
    stamp: Timestamp,
)
    requires
        container_image(name, data, method, mode, stamp) is Some,
    ensures
        container_image(name, data, method, mode, stamp) == sealed_image(
            seq![(Entry { name, method, mode, stamp, data })],
        ),
{
    let entry = Entry::begun(name, method, mode, stamp);
    assert(entry.holding(data) == (Entry { name, method, mode, stamp, data }));
}

} // verus!
