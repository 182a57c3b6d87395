//! The in-memory file system that backs a directory, reached through the
//! `virtual_fs` crate.
//!
//! The file system's state lives behind a shared, lock-protected handle:
//! every clone of a handle sees the same tree, and any holder may change it.
//! So the calls below promise nothing about what they find or whether they
//! succeed; the verified code states, through `call_ensures`, which calls it
//! made with which arguments, and what it does with every answer. A
//! directory listing, once taken, is a plain sequence of entries, and that
//! sequence is what its contents name stands for.
use vstd::prelude::*;

verus! {

/// An in-memory file system (a cheap, shared handle).
#[verifier::external_type_specification]
#[verifier::external_body]
pub struct ExMemFs(virtual_fs::mem_fs::FileSystem);

/// The error a file-system operation reports.
#[verifier::external_type_specification]
#[verifier::external_body]
pub struct ExFsError(virtual_fs::FsError);

/// A directory listing, handed out entry by entry.
#[verifier::external_type_specification]
#[verifier::external_body]
pub struct ExReadDir(virtual_fs::ReadDir);

/// One entry of a listing, as the file system hands it out.
#[verifier::external_type_specification]
#[verifier::external_body]
pub struct ExDirEntry(virtual_fs::DirEntry);

/// The bytes of a read-only file.
#[verifier::external_type_specification]
#[verifier::external_body]
pub struct ExOwnedBuffer(shared_buffer::OwnedBuffer);

/// The kind flags of a directory entry, as the file system reports them.
#[derive(Clone, Copy, Debug, PartialEq, Eq, Structural)]
pub struct FileTypeFlags {
    pub dir: bool,
    pub file: bool,
    pub symlink: bool,
}

/// One entry of a listing: its name, and its kind flags when the file
/// system could tell them.
#[derive(Clone, Debug)]
pub struct RawEntry {
    pub name: String,
    pub file_type: Option<FileTypeFlags>,
}

/// The entries that a listing has yet to hand out, in order, each as its
/// name and kind flags.
pub uninterp spec fn read_dir_entries(rd: virtual_fs::ReadDir) -> Seq<(Seq<char>, Option<FileTypeFlags>)>;

/// `mem_fs::FileSystem::default`: a new, empty in-memory file system.
#[verifier::external_body]
pub(crate) fn memfs_new() -> virtual_fs::mem_fs::FileSystem {
    virtual_fs::mem_fs::FileSystem::default()
}

/// `mem_fs::FileSystem::clone`: the derived clone copies the one pointer to
/// the shared tree, so the clone is the same handle as the original.
pub assume_specification[ <virtual_fs::mem_fs::FileSystem as std::clone::Clone>::clone ](
    fs: &virtual_fs::mem_fs::FileSystem,
) -> (r: virtual_fs::mem_fs::FileSystem)
    ensures
        r == *fs,
;

/// `FileSystem::read_dir` on the in-memory file system: the listing of
/// directory `path`, or why there is none.
#[verifier::external_body]
pub(crate) fn memfs_read_dir(
    fs: &virtual_fs::mem_fs::FileSystem,
    path: &str,
) -> Result<virtual_fs::ReadDir, virtual_fs::FsError> {
    virtual_fs::FileSystem::read_dir(fs, std::path::Path::new(path))
}

/// `FileSystem::create_dir` on the in-memory file system.
#[verifier::external_body]
pub(crate) fn memfs_create_dir(
    fs: &virtual_fs::mem_fs::FileSystem,
    path: &str,
) -> Result<(), virtual_fs::FsError> {
    virtual_fs::FileSystem::create_dir(fs, std::path::Path::new(path))
}

/// `FileSystem::remove_dir` on the in-memory file system.
#[verifier::external_body]
pub(crate) fn memfs_remove_dir(
    fs: &virtual_fs::mem_fs::FileSystem,
    path: &str,
) -> Result<(), virtual_fs::FsError> {
    virtual_fs::FileSystem::remove_dir(fs, std::path::Path::new(path))
}

/// `FileSystem::remove_file` on the in-memory file system.
#[verifier::external_body]
pub(crate) fn memfs_remove_file(
    fs: &virtual_fs::mem_fs::FileSystem,
    path: &str,
) -> Result<(), virtual_fs::FsError> {
    virtual_fs::FileSystem::remove_file(fs, std::path::Path::new(path))
}

/// `FileSystem::create_symlink` on the in-memory file system.
#[verifier::external_body]
pub(crate) fn memfs_create_symlink(
    fs: &virtual_fs::mem_fs::FileSystem,
    source: &str,
    target: &str,
) -> Result<(), virtual_fs::FsError> {
    virtual_fs::FileSystem::create_symlink(fs, std::path::Path::new(source), std::path::Path::new(target))
}

/// The bytes a read-only buffer holds (it never changes them).
pub uninterp spec fn owned_buffer_bytes(b: shared_buffer::OwnedBuffer) -> Seq<u8>;

/// `OwnedBuffer::from_bytes`: a read-only buffer holding a copy of `bytes`.
#[verifier::external_body]
pub(crate) fn owned_buffer_from(bytes: &[u8]) -> (r: shared_buffer::OwnedBuffer)
    ensures
        owned_buffer_bytes(r) == bytes@,
{
    shared_buffer::OwnedBuffer::from_bytes(bytes.to_vec())
}

/// `mem_fs::FileSystem::insert_ro_file`: places a read-only file holding
/// `contents` at `path`.
#[verifier::external_body]
pub(crate) fn memfs_insert_ro_file(
    fs: &virtual_fs::mem_fs::FileSystem,
    path: &str,
    contents: shared_buffer::OwnedBuffer,
) -> Result<(), virtual_fs::FsError> {
    fs.insert_ro_file(std::path::Path::new(path), contents)
}

/// `FileSystem::new_open_options().read(true).open(path)` on the
/// in-memory file system, then `VirtualFile::as_owned_buffer` on the file
/// opened: the bytes the file holds in memory as a whole (a copy of them),
/// nothing when it holds none that way, or why the file could not be
/// opened. The opened file is a trait object that verified code cannot
/// hold, so the two calls stand together.
#[verifier::external_body]
pub(crate) fn memfs_read_held(
    fs: &virtual_fs::mem_fs::FileSystem,
    path: &str,
) -> Result<Option<Vec<u8>>, virtual_fs::FsError> {
    match virtual_fs::FileSystem::new_open_options(fs).read(true).open(path) {
        Ok(f) => match f.as_owned_buffer() {
            Some(b) => Ok(Some(b.as_slice().to_vec())),
            None => Ok(None),
        },
        Err(e) => Err(e),
    }
}

/// `ReadDir::next`: hands out the first remaining entry, as its name (read
/// lossily) and its kind flags (none when its metadata is an error). The
/// listing never yields an error item (its `next` wraps every entry in
/// `Ok`), and once empty it stays empty.
#[verifier::external_body]
pub(crate) fn read_dir_next(rd: &mut virtual_fs::ReadDir) -> (r: Option<Result<RawEntry, virtual_fs::FsError>>)
    ensures
        !(r matches Some(Err(_))),
        match r {
            Some(Ok(e)) => read_dir_entries(*old(rd)) == seq![(e.name@, e.file_type)]
                + read_dir_entries(*final(rd)),
            _ => read_dir_entries(*old(rd)).len() == 0
                && read_dir_entries(*final(rd)) == read_dir_entries(*old(rd)),
        },
{
    match rd.next() {
        Some(Ok(entry)) => Some(Ok(RawEntry {
            name: entry.file_name().to_string_lossy().to_string(),
            file_type: match entry.file_type() {
                Ok(ft) => Some(FileTypeFlags { dir: ft.dir, file: ft.file, symlink: ft.symlink }),
                Err(_) => None,
            },
        })),
        Some(Err(e)) => Some(Err(e)),
        None => None,
    }
}

} // verus!
