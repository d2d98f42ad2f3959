//! The package container, opened from the bytes of an APK file.
//!
//! Two readers look at the same bytes. The `zip` crate enumerates the entries
//! and reads them by position; `apk_info`'s reader, which tolerates tampered
//! headers, reads a file by its path. Nothing here is proved of either: each
//! call stands behind a wrapper whose contract says what is taken on trust.

use vstd::prelude::*;

verus! {

/// `std::io::Cursor`, the in-memory reader that the `zip` crate reads from.
#[verifier::external_type_specification]
#[verifier::external_body]
#[verifier::reject_recursive_types(T)]
pub struct ExCursor<T>(std::io::Cursor<T>);

/// `zip::ZipArchive`, the parsed central directory together with its reader.
#[verifier::external_type_specification]
#[verifier::external_body]
#[verifier::reject_recursive_types(R)]
pub struct ExZipArchive<R>(zip::ZipArchive<R>);

/// `apk_info::ZipEntry`, the same for `apk_info`'s reader.
#[verifier::external_type_specification]
#[verifier::external_body]
pub struct ExZipEntry(apk_info::ZipEntry);

/// Why a file could not be read from the container.
#[derive(Clone, Copy, PartialEq, Eq, Structural, Debug)]
pub enum ReadFailure {
    /// The container has no such file.
    NotFound,
    /// The file is there, but its bytes could not be read or decompressed.
    ReadError,
}

/// The container cannot be opened: the bytes are no valid archive.
#[derive(Clone, Copy, PartialEq, Eq, Structural, Debug)]
pub struct ArchiveOpenError;

/// One enumerated entry: its path, where the stored name can be read as
/// text, and its bytes, where reading it succeeds.
pub struct ArchiveEntry {
    pub path: Option<Seq<char>>,
    pub data: Option<Seq<u8>>,
}

/// What reading each file by its path gives. Paths outside the map are not
/// in the container.
pub type Files = Map<Seq<char>, Result<Seq<u8>, ReadFailure>>;

/// What an opened container holds.
pub struct Contents {
    /// The entries in enumeration order, as the `zip` crate sees them.
    pub entries: Seq<ArchiveEntry>,
    /// The files by path, as `apk_info` sees them.
    pub files: Files,
}

/// The entries of a parsed `zip::ZipArchive`, in the order of its indices.
pub uninterp spec fn zip_entries(archive: zip::ZipArchive<std::io::Cursor<Vec<u8>>>) -> Seq<
    ArchiveEntry,
>;

/// The entries that `zip::ZipArchive::new` finds in `bytes`, or `None` where
/// it rejects them.
pub uninterp spec fn zip_directory(bytes: Seq<u8>) -> Option<Seq<ArchiveEntry>>;

/// The files of a parsed `apk_info::ZipEntry`.
pub uninterp spec fn apk_files(reader: apk_info::ZipEntry) -> Files;

/// The files that `apk_info::ZipEntry::new` finds in `bytes`, or `None` where
/// it rejects them.
pub uninterp spec fn apk_directory(bytes: Seq<u8>) -> Option<Files>;

/// What opening `bytes` gives: both readers must accept them.
pub open spec fn parsed(bytes: Seq<u8>) -> Option<Contents> {
    match (zip_directory(bytes), apk_directory(bytes)) {
        (Some(entries), Some(files)) => Some(Contents { entries, files }),
        _ => None,
    }
}

/// The paths of the entries, in enumeration order.
pub open spec fn listing(entries: Seq<ArchiveEntry>) -> Seq<Option<Seq<char>>> {
    Seq::new(entries.len(), |i: int| entries[i].path)
}

/// What reading `path` gives.
pub open spec fn file_at(files: Files, path: Seq<char>) -> Result<Seq<u8>, ReadFailure> {
    if files.dom().contains(path) {
        files[path]
    } else {
        Err(ReadFailure::NotFound)
    }
}

/// Calls `zip::ZipArchive::new` on an in-memory reader over `bytes`. Trusted:
/// whether the bytes are accepted, and the entries found, depend on the bytes
/// alone.
#[verifier::external_body]
fn zip_open(bytes: Vec<u8>) -> (opened: Option<zip::ZipArchive<std::io::Cursor<Vec<u8>>>>)
    ensures
        match opened {
            Some(archive) => zip_directory(bytes@) == Some(zip_entries(archive)),
            None => zip_directory(bytes@) is None,
        },
{
    zip::ZipArchive::new(std::io::Cursor::new(bytes)).ok()
}

/// Calls `zip::ZipArchive::len`. Trusted: it is the number of entries.
#[verifier::external_body]
fn zip_len(archive: &zip::ZipArchive<std::io::Cursor<Vec<u8>>>) -> (n: usize)
    ensures
        n == zip_entries(*archive).len(),
{
    archive.len()
}

/// Calls `zip::ZipArchive::name_for_index`. Trusted: for an index in range it
/// gives the entry's path, and `None` only where the stored name cannot be
/// decoded.
#[verifier::external_body]
fn zip_name(archive: &zip::ZipArchive<std::io::Cursor<Vec<u8>>>, index: usize) -> (name: Option<
    String,
>)
    requires
        index < zip_entries(*archive).len(),
    ensures
        match name {
            Some(text) => zip_entries(*archive)[index as int].path == Some(text@),
            None => zip_entries(*archive)[index as int].path is None,
        },
{
    archive.name_for_index(index).and_then(|name| name.ok()).map(|name| name.into_owned())
}

/// Calls `zip::ZipArchive::by_index` and copies the entry it opens into a
/// buffer with `std::io::copy`. Trusted: the archive holds the same entries
/// afterwards, and the bytes that come out, or the failure to get them, are
/// the entry's own.
#[verifier::external_body]
fn zip_read(archive: &mut zip::ZipArchive<std::io::Cursor<Vec<u8>>>, index: usize) -> (data:
    Option<Vec<u8>>)
    requires
        index < zip_entries(*old(archive)).len(),
    ensures
        zip_entries(*final(archive)) == zip_entries(*old(archive)),
        match data {
            Some(bytes) => zip_entries(*old(archive))[index as int].data == Some(bytes@),
            None => zip_entries(*old(archive))[index as int].data is None,
        },
{
    let mut data = Vec::new();
    let mut file = archive.by_index(index).ok()?;
    std::io::copy(&mut file, &mut data).ok()?;
    Some(data)
}

/// Calls `apk_info::ZipEntry::new`. Trusted: whether the bytes are accepted,
/// and the files found, depend on the bytes alone.
#[verifier::external_body]
fn apk_open(bytes: Vec<u8>) -> (opened: Option<apk_info::ZipEntry>)
    ensures
        match opened {
            Some(reader) => apk_directory(bytes@) == Some(apk_files(reader)),
            None => apk_directory(bytes@) is None,
        },
{
    apk_info::ZipEntry::new(bytes).ok()
}

/// Calls `apk_info::ZipEntry::read`. Trusted: the outcome is the one that the
/// reader's files hold for `path`; its `FileNotFound` is reported as
/// `NotFound` and every other error as `ReadError`.
#[verifier::external_body]
fn apk_read(reader: &apk_info::ZipEntry, path: &str) -> (read: Result<Vec<u8>, ReadFailure>)
    ensures
        match (read, file_at(apk_files(*reader), path@)) {
            (Ok(bytes), Ok(held)) => bytes@ == held,
            (Err(failure), Err(held)) => failure == held,
            _ => false,
        },
{
    match reader.read(path) {
        Ok((data, _)) => Ok(data),
        Err(apk_info::ZipError::FileNotFound) => Err(ReadFailure::NotFound),
        Err(_) => Err(ReadFailure::ReadError),
    }
}

/// An opened package container.
pub struct Package {
    archive: zip::ZipArchive<std::io::Cursor<Vec<u8>>>,
    reader: apk_info::ZipEntry,
}

impl View for Package {
    type V = Contents;

    closed spec fn view(&self) -> Contents {
        Contents { entries: zip_entries(self.archive), files: apk_files(self.reader) }
    }
}

impl Package {
    /// Opens the container held in `bytes`. It fails exactly where one of the
    /// two readers rejects the bytes.
    pub fn open(bytes: Vec<u8>) -> (opened: Result<Package, ArchiveOpenError>)
        ensures
            match opened {
                Ok(package) => parsed(bytes@) == Some(package@),
                Err(_) => parsed(bytes@) is None,
            },
    {
        let copy = bytes.clone();
        assert(copy@ =~= bytes@);
        let archive = match zip_open(copy) {
            Some(archive) => archive,
            None => {
                return Err(ArchiveOpenError);
            },
        };
        match apk_open(bytes) {
            Some(reader) => Ok(Package { archive, reader }),
            None => Err(ArchiveOpenError),
        }
    }

    /// The number of entries.
    pub fn len(&self) -> (n: usize)
        ensures
            n == self@.entries.len(),
    {
        zip_len(&self.archive)
    }

    /// The path of entry `index`: `None` past the last entry, and where the
    /// entry's name cannot be read as text.
    pub fn path_at(&self, index: usize) -> (path: Option<String>)
        ensures
            match path {
                Some(text) => {
                    &&& index < self@.entries.len()
                    &&& self@.entries[index as int].path == Some(text@)
                },
                None => index < self@.entries.len() ==> self@.entries[index as int].path is None,
            },
    {
        if index < zip_len(&self.archive) {
            zip_name(&self.archive, index)
        } else {
            None
        }
    }

    /// The paths of all entries, in enumeration order.
    pub fn list(&self) -> (paths: Vec<Option<String>>)
        ensures
            paths.deep_view() == listing(self@.entries),
    {
        let n = zip_len(&self.archive);
        let mut paths: Vec<Option<String>> = Vec::new();
        let mut i: usize = 0;
        while i < n
            invariant
                i <= n,
                n == self@.entries.len(),
                paths.len() == i,
                forall|k: int|
                    0 <= k < i ==> (#[trigger] paths@[k]).deep_view() == self@.entries[k].path,
            decreases n - i,
        {
            let name = zip_name(&self.archive, i);
            paths.push(name);
            i += 1;
        }
        assert(paths.deep_view() =~= listing(self@.entries));
        paths
    }

    /// Reads the bytes of entry `index`. The container holds the same
    /// afterwards.
    pub fn read_at(&mut self, index: usize) -> (read: Result<Vec<u8>, ReadFailure>)
        ensures
            final(self)@ == old(self)@,
            match read {
                Ok(bytes) => {
                    &&& index < old(self)@.entries.len()
                    &&& old(self)@.entries[index as int].data == Some(bytes@)
                },
                Err(ReadFailure::NotFound) => index >= old(self)@.entries.len(),
                Err(ReadFailure::ReadError) => {
                    &&& index < old(self)@.entries.len()
                    &&& old(self)@.entries[index as int].data is None
                },
            },
    {
        if index >= zip_len(&self.archive) {
            return Err(ReadFailure::NotFound);
        }
        match zip_read(&mut self.archive, index) {
            Some(bytes) => Ok(bytes),
            None => Err(ReadFailure::ReadError),
        }
    }

    /// Reads the file at `path`.
    pub fn read_by_path(&self, path: &str) -> (read: Result<Vec<u8>, ReadFailure>)
        ensures
            match (read, file_at(self@.files, path@)) {
                (Ok(bytes), Ok(held)) => bytes@ == held,
                (Err(failure), Err(held)) => failure == held,
                _ => false,
            },
    {
        apk_read(&self.reader, path)
    }
}

} // verus!
