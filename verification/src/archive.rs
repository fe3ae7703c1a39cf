//! Assembly of the ZIP archive that a directory download sends, through
//! the `async_zip` crate, and the final file-name component of a path.
use vstd::prelude::*;
use async_zip::base::write::ZipFileWriter;
use crate::paths::file_path_of;
use crate::responses::prefixed;

verus! {

/// `async_zip`'s ZIP writer, held opaque.
#[verifier::external_type_specification]
#[verifier::external_body]
#[verifier::reject_recursive_types(W)]
pub struct ExZipFileWriter<W>(ZipFileWriter<W>);

/// The entries (file name, uncompressed content) written so far into a ZIP
/// writer, in writing order.
pub uninterp spec fn zip_entries(w: ZipFileWriter<Vec<u8>>) -> Seq<(Seq<char>, Seq<u8>)>;

/// Whether the writer has the default settings of
/// `ZipFileWriter::new` (ZIP64 neither forced nor forbidden, no archive
/// comment) and no write into it has failed.
pub uninterp spec fn zip_writer_default(w: ZipFileWriter<Vec<u8>>) -> bool;

/// The archive bytes that `async_zip` produces when it closes a writer with
/// default settings into which these entries were written, each
/// deflate-compressed with default entry options.
pub uninterp spec fn deflate_zip_archive(entries: Seq<(Seq<char>, Seq<u8>)>) -> Seq<u8>;

/// The number of bytes of `c` in UTF-8.
pub open spec fn utf8_char_len(c: char) -> nat {
    if (c as u32) < 0x80 {
        1
    } else if (c as u32) < 0x800 {
        2
    } else if (c as u32) < 0x10000 {
        3
    } else {
        4
    }
}

/// The number of bytes of `s` in UTF-8.
pub open spec fn utf8_len(s: Seq<char>) -> nat
    decreases s.len(),
{
    if s.len() == 0 {
        0
    } else {
        utf8_len(s.drop_last()) + utf8_char_len(s.last())
    }
}

/// The longest entry name a ZIP header can record, in UTF-8 bytes.
pub open spec fn max_entry_name_bytes() -> nat {
    65535
}

/// The final component of a path, as text (`None` when there is none).
pub uninterp spec fn path_file_name(path: Seq<char>) -> Option<Seq<char>>;

/// A single plain path component: not empty, no `/`, and neither `.` nor
/// `..`.
pub open spec fn plain_component(n: Seq<char>) -> bool {
    &&& n.len() > 0
    &&& forall|j: int| 0 <= j < n.len() ==> n[j] != '/'
    &&& n != "."@
    &&& n != ".."@
}

/// The display text of `async_zip`'s `ZipError::FileNameTooLarge`.
pub open spec fn file_name_too_large_text() -> Seq<char> {
    "filename exceeded maximum size"@
}

/// The text that the write of an archive entry with a too long name fails
/// with.
pub open spec fn entry_name_too_long_failure() -> Seq<char> {
    "i/o error: 无法写入文件: "@ + file_name_too_large_text()
}

/// `async_zip::base::write::ZipFileWriter::new` over an empty `Vec<u8>`:
/// a writer with default settings and no entry yet.
#[verifier::external_body]
fn new_zip_writer() -> (w: ZipFileWriter<Vec<u8>>)
    ensures
        zip_entries(w).len() == 0,
        zip_writer_default(w),
{
    ZipFileWriter::new(Vec::new())
}

/// `ZipFileWriter::write_entry_whole` with an entry built by
/// `ZipEntryBuilder::new(name, Compression::Deflate)`, run to completion
/// with `futures_lite::future::block_on` (the writer only writes into
/// memory). Into a writer with default settings and no failed write, the
/// write fails exactly when the name is longer than a header's 16-bit name
/// length (`ZipError::FileNameTooLarge`, displayed as "filename exceeded
/// maximum size"): the name is stored as its UTF-8 bytes with no extra
/// field of its own, the entry has no comment, and large sizes or offsets
/// only switch ZIP64 on. On success the entry is appended to the writer's
/// entries and the writer keeps its settings. Of a writer that does not
/// have default settings, or after a failure, nothing is stated.
#[verifier::external_body]
fn write_deflate_entry(w: &mut ZipFileWriter<Vec<u8>>, name: &str, data: &[u8]) -> (r: Result<(), String>)
    ensures
        zip_writer_default(*old(w)) ==> (r is Ok <==> utf8_len(name@) <= max_entry_name_bytes()),
        zip_writer_default(*old(w)) ==> (r matches Err(m) ==> m@ == file_name_too_large_text()),
        r is Ok && zip_writer_default(*old(w)) ==> zip_writer_default(*final(w)),
        r is Ok && zip_writer_default(*old(w)) ==> zip_entries(*final(w)) == zip_entries(*old(w)).push((name@, data@)),
{
    let entry = async_zip::ZipEntryBuilder::new(name.to_string().into(), async_zip::Compression::Deflate);
    match futures_lite::future::block_on(w.write_entry_whole(entry, data)) {
        Ok(()) => Ok(()),
        Err(e) => Err(e.to_string()),
    }
}

/// `ZipFileWriter::close`, run to completion with
/// `futures_lite::future::block_on`. A writer with default settings and no
/// failed write that writes into memory closes without error (its only
/// other errors are `Zip64Needed` under `force_no_zip64` and failed writes
/// into the inner writer), giving `deflate_zip_archive` of its entries. Of
/// another writer nothing is stated.
#[verifier::external_body]
fn close_zip_writer(w: ZipFileWriter<Vec<u8>>) -> (r: Result<Vec<u8>, String>)
    ensures
        zip_writer_default(w) ==> r is Ok,
        r matches Ok(b) ==> (zip_writer_default(w) ==> b@ == deflate_zip_archive(zip_entries(w))),
{
    match futures_lite::future::block_on(w.close()) {
        Ok(bytes) => Ok(bytes),
        Err(e) => Err(e.to_string()),
    }
}

/// The display text of the `std::io::Error` that `zip` makes
/// (`From<zip::result::ZipError>`) of `ZipError::Io` around an
/// `io::Error` of kind `Other` holding `detail`: the `zip` crate displays
/// `ZipError::Io(e)` as `"i/o error: {e}"`, and an `io::Error` made from a
/// message or an error displays that message or error.
#[verifier::external_body]
fn zip_io_error_text(detail: String) -> (r: String)
    ensures
        r@ == "i/o error: "@ + detail@,
{
    std::io::Error::from(zip::result::ZipError::Io(std::io::Error::new(std::io::ErrorKind::Other, detail))).to_string()
}

/// `std::path::Path::file_name` of `path`, as text. A path that ends in
/// `/` and a plain component has that component as its file name; of other
/// paths only the name `path_file_name` is stated.
#[verifier::external_body]
pub(crate) fn path_final_component(path: &str) -> (r: Option<String>)
    ensures
        r is Some <==> path_file_name(path@) is Some,
        r matches Some(n) ==> path_file_name(path@) == Some(n@),
        r matches Some(s) ==> forall|d: Seq<char>, n: Seq<char>|
            #[trigger] file_path_of(d, n) == path@ && plain_component(n) ==> s@ == n,
        r is None ==> forall|d: Seq<char>, n: Seq<char>|
            #[trigger] file_path_of(d, n) == path@ ==> !plain_component(n),
{
    match std::path::Path::new(path).file_name() {
        Some(n) => match n.to_str() {
            Some(t) => Some(t.to_string()),
            None => None,
        },
        None => None,
    }
}

/// A ZIP archive being assembled in memory.
pub struct ArchiveBuilder {
    writer: ZipFileWriter<Vec<u8>>,
}

impl View for ArchiveBuilder {
    type V = Seq<(Seq<char>, Seq<u8>)>;

    /// The entries added so far.
    closed spec fn view(&self) -> Seq<(Seq<char>, Seq<u8>)> {
        zip_entries(self.writer)
    }
}

impl ArchiveBuilder {
    /// The writer has default settings and no write into it failed.
    #[verifier::type_invariant]
    spec fn writer_default(self) -> bool {
        zip_writer_default(self.writer)
    }

    /// An archive with no entry.
    pub fn new() -> (b: ArchiveBuilder)
        ensures
            b@ == Seq::<(Seq<char>, Seq<u8>)>::empty(),
    {
        ArchiveBuilder { writer: new_zip_writer() }
    }

    /// Adds the deflate-compressed entry `name` holding `data`. This
    /// succeeds exactly when the name is at most 65535 bytes long in UTF-8.
    /// A failure consumes the archive and is reported as the
    /// `std::io::Error` text that the service reports it with.
    pub fn add_entry(self, name: &str, data: &[u8]) -> (r: Result<ArchiveBuilder, String>)
        ensures
            r is Ok <==> utf8_len(name@) <= max_entry_name_bytes(),
            r matches Ok(b) ==> b@ == self@.push((name@, data@)),
            r matches Err(m) ==> m@ == entry_name_too_long_failure(),
    {
        proof {
            use_type_invariant(&self);
        }
        let ArchiveBuilder { writer } = self;
        let mut writer = writer;
        match write_deflate_entry(&mut writer, name, data) {
            Ok(()) => Ok(ArchiveBuilder { writer }),
            Err(e) => {
                let inner = prefixed("无法写入文件: ", e.as_str());
                let text = zip_io_error_text(inner);
                proof {
                    reveal_strlit("i/o error: ");
                    reveal_strlit("无法写入文件: ");
                    reveal_strlit("i/o error: 无法写入文件: ");
                    assert(text@ =~= entry_name_too_long_failure());
                }
                Err(text)
            },
        }
    }

    /// Closes the archive: the archive bytes of the entries added, in order.
    pub fn finish(self) -> (bytes: Vec<u8>)
        ensures
            bytes@ == deflate_zip_archive(self@),
    {
        proof {
            use_type_invariant(&self);
        }
        let ArchiveBuilder { writer } = self;
        match close_zip_writer(writer) {
            Ok(bytes) => bytes,
            Err(_) => {
                proof {
                    assert(false);
                }
                Vec::new()
            },
        }
    }
}

} // verus!
