//! A directory that the JavaScript host can list, fill and read, backed by
//! an in-memory file system.
//!
//! Every path it is given is first made rooted (see `crate::path`). Listing
//! the directory, opening a file in it, or probing for the directories on the
//! way to a path fires the one-shot `populate` hook first, so that the host
//! can fill the directory lazily.
use vstd::prelude::*;
use crate::fs::{
    memfs_create_dir, memfs_create_symlink, memfs_insert_ro_file, memfs_new,
    memfs_read_dir, memfs_read_held, memfs_remove_dir, memfs_remove_file, owned_buffer_bytes, owned_buffer_from,
    read_dir_entries, read_dir_next, FileTypeFlags,
};
use crate::hooks::{trigger_populate_post, Hooks};
use crate::path::{ancestor_chain, ancestors, is_rooted, lemma_relative_and_rooted_agree, path_parent, path_parent_of, slashified, slashify};

verus! {

/// Why a directory operation failed.
#[derive(Debug)]
pub enum DirError {
    /// The file system refused the operation.
    Fs(virtual_fs::FsError),
    /// Creating `path`, one of the directories on the way to the requested
    /// one, failed.
    CreateDir { path: String, source: virtual_fs::FsError },
    /// The file is not held in memory as a whole, so it cannot be read
    /// without waiting.
    NotSynchronous,
    /// The file's contents are not UTF-8 text.
    InvalidUtf8,
}

/// The kind of a directory entry, as the host sees it.
#[derive(Clone, Copy, Debug, PartialEq, Eq, Structural)]
pub enum EntryKind {
    File,
    Dir,
    Unknown,
}

/// One entry of a directory listing handed to the host.
#[derive(Clone, Debug)]
pub struct DirEntryInfo {
    /// The entry's name (the last component of its path).
    pub name: String,
    /// What the entry is.
    pub kind: EntryKind,
}

/// The kind reported for an entry: a directory first, then a file; unknown
/// for anything else (a symbolic link among them) or when the flags could
/// not be read. These are the three kinds the host's entry type knows.
pub open spec fn kind_of(ft: Option<FileTypeFlags>) -> EntryKind {
    match ft {
        Some(f) => if f.dir {
            EntryKind::Dir
        } else if f.file {
            EntryKind::File
        } else {
            EntryKind::Unknown
        },
        None => EntryKind::Unknown,
    }
}

/// The name the host uses for each kind.
pub open spec fn kind_name(k: EntryKind) -> Seq<char> {
    match k {
        EntryKind::File => "file"@,
        EntryKind::Dir => "dir"@,
        EntryKind::Unknown => "unknown"@,
    }
}

/// Whether `listing` describes the entries `entries` one for one, in order.
pub open spec fn describes(listing: Seq<DirEntryInfo>, entries: Seq<(Seq<char>, Option<FileTypeFlags>)>) -> bool {
    &&& listing.len() == entries.len()
    &&& forall|i: int| 0 <= i < listing.len() ==> {
        &&& (#[trigger] listing[i]).name@ == entries[i].0
        &&& listing[i].kind == kind_of(entries[i].1)
    }
}

/// Whether `e` reports a failure to create a directory on the way to `path`.
pub open spec fn fails_on_the_way_to(e: DirError, path: Seq<char>) -> bool {
    e matches DirError::CreateDir { path: p, .. } && p@.is_prefix_of(path)
}

impl EntryKind {
    /// The kind's name for the host: `file`, `dir` or `unknown`.
    pub fn as_str(&self) -> (s: &'static str)
        ensures
            s@ == kind_name(*self),
    {
        proof {
            reveal_strlit("file");
            reveal_strlit("dir");
            reveal_strlit("unknown");
        }
        match self {
            EntryKind::File => "file",
            EntryKind::Dir => "dir",
            EntryKind::Unknown => "unknown",
        }
    }
}

/// The kind of an entry with kind flags `ft`.
pub fn entry_kind(ft: Option<FileTypeFlags>) -> (k: EntryKind)
    ensures
        k == kind_of(ft),
{
    match ft {
        Some(f) => if f.dir {
            EntryKind::Dir
        } else if f.file {
            EntryKind::File
        } else {
            EntryKind::Unknown
        },
        None => EntryKind::Unknown,
    }
}

/// Describes every entry of a listing, in the order the listing hands them
/// out.
pub fn list_entries(rd: virtual_fs::ReadDir) -> (v: Vec<DirEntryInfo>)
    ensures
        describes(v@, read_dir_entries(rd)),
{
    let ghost all = read_dir_entries(rd);
    let mut rd = rd;
    let mut out: Vec<DirEntryInfo> = Vec::new();
    loop
        invariant_except_break
            out@.len() + read_dir_entries(rd).len() == all.len(),
            read_dir_entries(rd) == all.skip(out@.len() as int),
            describes(out@, all.take(out@.len() as int)),
        ensures
            describes(out@, all),
        decreases read_dir_entries(rd).len(),
    {
        let ghost before = read_dir_entries(rd);
        match read_dir_next(&mut rd) {
            Some(Ok(entry)) => {
                let kind = entry_kind(entry.file_type);
                let ghost n: int = out@.len() as int;
                assert(all[n] == before[0]) by {
                    assert(before[0] == all.skip(n)[0]);
                }
                assert(read_dir_entries(rd) == all.skip(n + 1)) by {
                    assert(read_dir_entries(rd) =~= before.skip(1));
                    assert(before.skip(1) =~= all.skip(n + 1));
                }
                out.push(DirEntryInfo { name: entry.name, kind });
                assert(describes(out@, all.take(out@.len() as int))) by {
                    assert forall|i: int| 0 <= i < out@.len() implies {
                        &&& (#[trigger] out@[i]).name@ == all.take(out@.len() as int)[i].0
                        &&& out@[i].kind == kind_of(all.take(out@.len() as int)[i].1)
                    } by {
                        if i < n {
                            assert(all.take(n)[i] == all[i]);
                        }
                    }
                }
            },
            Some(Err(_)) => {
                assert(false);
                break;
            },
            None => {
                assert(all.take(out@.len() as int) =~= all);
                break;
            },
        }
    }
    out
}

/// A listing hands the host one entry for every entry the file system's
/// listing held, whatever its name, in the same order: as many entries,
/// entry `i` named as the file system's entry `i`, and its kind a directory
/// when the file system flagged a directory, a file when it flagged a file
/// (and not a directory), unknown otherwise.
pub proof fn lemma_listing_keeps_every_entry(rd: virtual_fs::ReadDir, v: Vec<DirEntryInfo>)
    requires
        call_ensures(list_entries, (rd,), v),
    ensures
        v@.len() == read_dir_entries(rd).len(),
        forall|i: int| 0 <= i < v@.len() ==> (#[trigger] v@[i]).name@ == read_dir_entries(rd)[i].0,
        forall|i: int| 0 <= i < v@.len() ==> {
            let flags = read_dir_entries(rd)[i].1;
            &&& (flags matches Some(f) && f.dir) ==> (#[trigger] v@[i]).kind == EntryKind::Dir
            &&& (flags matches Some(f) && !f.dir && f.file) ==> v@[i].kind == EntryKind::File
            &&& (flags is None || (flags matches Some(f) && !f.dir && !f.file)) ==> v@[i].kind == EntryKind::Unknown
        },
        forall|name: Seq<char>, flags: Option<FileTypeFlags>|
            #[trigger] read_dir_entries(rd).contains((name, flags)) ==> exists|i: int| 0 <= i < v@.len() && (#[trigger] v@[i]).name@ == name,
{
    assert forall|name: Seq<char>, flags: Option<FileTypeFlags>|
        #[trigger] read_dir_entries(rd).contains((name, flags)) implies exists|i: int| 0 <= i < v@.len() && (#[trigger] v@[i]).name@ == name by {
        let i = choose|i: int| 0 <= i < read_dir_entries(rd).len() && read_dir_entries(rd)[i] == (name, flags);
        assert(v@[i].name@ == name);
    }
}

/// How a directory reports the outcome of one file-system step.
pub open spec fn lifted(res: Result<(), virtual_fs::FsError>) -> Result<(), DirError> {
    match res {
        Ok(_) => Ok(()),
        Err(e) => Err(DirError::Fs(e)),
    }
}

/// `r` is what the file system answered when asked to list `p` in `fs`.
pub open(crate) spec fn listed_at(
    fs: virtual_fs::mem_fs::FileSystem,
    p: Seq<char>,
    r: Result<virtual_fs::ReadDir, virtual_fs::FsError>,
) -> bool {
    exists|s: &str| s@ == p && #[trigger] call_ensures(memfs_read_dir, (&fs, s), r)
}

/// `r` is what the file system answered when asked to create directory `p`.
pub open(crate) spec fn dir_made(fs: virtual_fs::mem_fs::FileSystem, p: Seq<char>, r: Result<(), virtual_fs::FsError>) -> bool {
    exists|s: &str| s@ == p && #[trigger] call_ensures(memfs_create_dir, (&fs, s), r)
}

/// `r` is what the file system answered when asked to remove directory `p`.
pub open(crate) spec fn dir_removed(fs: virtual_fs::mem_fs::FileSystem, p: Seq<char>, r: Result<(), virtual_fs::FsError>) -> bool {
    exists|s: &str| s@ == p && #[trigger] call_ensures(memfs_remove_dir, (&fs, s), r)
}

/// `r` is what the file system answered when asked to remove file `p`.
pub open(crate) spec fn file_removed(fs: virtual_fs::mem_fs::FileSystem, p: Seq<char>, r: Result<(), virtual_fs::FsError>) -> bool {
    exists|s: &str| s@ == p && #[trigger] call_ensures(memfs_remove_file, (&fs, s), r)
}

/// `r` is what the file system answered when asked to create a symbolic
/// link at `target` pointing to `source`.
pub open(crate) spec fn symlink_made(
    fs: virtual_fs::mem_fs::FileSystem,
    source: Seq<char>,
    target: Seq<char>,
    r: Result<(), virtual_fs::FsError>,
) -> bool {
    exists|s: &str, t: &str|
        s@ == source && t@ == target && #[trigger] call_ensures(memfs_create_symlink, (&fs, s, t), r)
}

/// `r` is what the file system answered when asked to place a read-only
/// file holding `bytes` at `p`.
pub open(crate) spec fn file_placed(
    fs: virtual_fs::mem_fs::FileSystem,
    p: Seq<char>,
    bytes: Seq<u8>,
    r: Result<(), virtual_fs::FsError>,
) -> bool {
    exists|s: &str, b: shared_buffer::OwnedBuffer|
        s@ == p && owned_buffer_bytes(b) == bytes && #[trigger] call_ensures(memfs_insert_ro_file, (&fs, s, b), r)
}

/// `r` is what the file system answered when asked for the bytes that file
/// `p` holds in memory as a whole.
pub open(crate) spec fn held_at(
    fs: virtual_fs::mem_fs::FileSystem,
    p: Seq<char>,
    r: Result<Option<Vec<u8>>, virtual_fs::FsError>,
) -> bool {
    exists|s: &str| s@ == p && #[trigger] call_ensures(memfs_read_held, (&fs, s), r)
}

/// `fs` is a file system that was just made, empty.
pub open(crate) spec fn fresh_fs(fs: virtual_fs::mem_fs::FileSystem) -> bool {
    call_ensures(memfs_new, (), fs)
}

/// `r` is what a listing of `p` in `fs` answers: on success it describes the
/// listing the file system gave; on failure it is the file system's error.
pub open spec fn lists(fs: virtual_fs::mem_fs::FileSystem, p: Seq<char>, r: Result<Vec<DirEntryInfo>, DirError>) -> bool {
    match r {
        Ok(v) => exists|rd: virtual_fs::ReadDir| #[trigger] listed_at(fs, p, Ok(rd)) && describes(v@, read_dir_entries(rd)),
        Err(e) => exists|fe: virtual_fs::FsError| #[trigger] listed_at(fs, p, Err(fe)) && e == DirError::Fs(fe),
    }
}

/// A successful `read_dir` answers one entry for every entry of the listing
/// the file system gave for the path, whatever its name: as many entries,
/// in the same order, with the same names; and a failed one answers the
/// file system's own refusal.
pub proof fn lemma_read_dir_lists_every_entry(
    fs: virtual_fs::mem_fs::FileSystem,
    p: Seq<char>,
    r: Result<Vec<DirEntryInfo>, DirError>,
)
    requires
        lists(fs, p, r),
    ensures
        r matches Ok(v) ==> exists|rd: virtual_fs::ReadDir| #[trigger] listed_at(fs, p, Ok(rd)) && {
            &&& v@.len() == read_dir_entries(rd).len()
            &&& forall|i: int| 0 <= i < v@.len() ==> (#[trigger] v@[i]).name@ == read_dir_entries(rd)[i].0
        },
        r matches Err(e) ==> exists|fe: virtual_fs::FsError| #[trigger] listed_at(fs, p, Err(fe)) && e == DirError::Fs(fe),
{
}

/// `r` is what creating the directories of `chain` in `fs` answers, taken
/// from its last (outermost) element inwards: each is probed by listing it;
/// one that cannot be listed is created; the first creation that fails
/// ends the work with an error naming that directory.
pub open spec fn dirs_made(fs: virtual_fs::mem_fs::FileSystem, chain: Seq<Seq<char>>, r: Result<(), DirError>) -> bool
    decreases chain.len(),
{
    if chain.len() == 0 {
        r is Ok
    } else {
        let a = chain.last();
        exists|probe: Result<virtual_fs::ReadDir, virtual_fs::FsError>|
            #[trigger] listed_at(fs, a, probe) && if probe is Ok {
                dirs_made(fs, chain.drop_last(), r)
            } else {
                exists|c: Result<(), virtual_fs::FsError>|
                    #[trigger] dir_made(fs, a, c) && match c {
                        Ok(_) => dirs_made(fs, chain.drop_last(), r),
                        Err(e) => r matches Err(DirError::CreateDir { path, source }) && path@ == a && source == e,
                    }
            }
    }
}

/// Creates, from the root down, every directory on the way to `path` that
/// cannot be listed yet (see `dirs_made` over the ancestors of `path`). On
/// failure the error names the directory whose creation failed, which is a
/// prefix of `path`.
pub fn create_dir_all(fs: &virtual_fs::mem_fs::FileSystem, path: &str) -> (r: Result<(), DirError>)
    ensures
        dirs_made(*fs, ancestor_chain(path@), r),
        r matches Err(e) ==> fails_on_the_way_to(e, path@),
{
    let chain = ancestors(path);
    let ghost ac = ancestor_chain(path@);
    let mut i: usize = chain.len();
    assert(ac.take(i as int) =~= ac);
    while i > 0
        invariant
            i <= chain@.len(),
            ac == ancestor_chain(path@),
            chain@.len() == ac.len(),
            forall|k: int| 0 <= k < chain@.len() ==> (#[trigger] chain@[k])@ == ac[k],
            forall|k: int| 0 <= k < chain@.len() ==> (#[trigger] chain@[k])@.is_prefix_of(path@),
            forall|r: Result<(), DirError>| #[trigger] dirs_made(*fs, ac.take(i as int), r) ==> dirs_made(*fs, ac, r),
        decreases i,
    {
        let ghost t = ac.take(i as int);
        i = i - 1;
        let ghost a = ac[i as int];
        assert(t.last() == a);
        assert(t.drop_last() =~= ac.take(i as int));
        let probe = memfs_read_dir(fs, chain[i].as_str());
        assert(listed_at(*fs, a, probe));
        if probe.is_err() {
            let made = memfs_create_dir(fs, chain[i].as_str());
            assert(dir_made(*fs, a, made));
            match made {
                Ok(()) => {
                    assert forall|r: Result<(), DirError>| #[trigger] dirs_made(*fs, ac.take(i as int), r) implies dirs_made(*fs, ac, r) by {
                        assert(dirs_made(*fs, t, r));
                    }
                },
                Err(source) => {
                    let failed = chain[i].clone();
                    assert(failed@.is_prefix_of(path@)) by {
                        assert(chain@[i as int]@.is_prefix_of(path@));
                    }
                    let r = Err(DirError::CreateDir { path: failed, source });
                    assert(dirs_made(*fs, t, r));
                    assert(dirs_made(*fs, ac, r));
                    return r;
                },
            }
        } else {
            assert forall|r: Result<(), DirError>| #[trigger] dirs_made(*fs, ac.take(i as int), r) implies dirs_made(*fs, ac, r) by {
                assert(dirs_made(*fs, t, r));
            }
        }
    }
    assert(dirs_made(*fs, ac.take(0), Ok(())));
    Ok(())
}

/// `String::from_utf8` (std): the text that `bytes` encode, when they are
/// valid UTF-8, and nothing otherwise.
#[verifier::external_body]
pub(crate) fn string_from_utf8(bytes: Vec<u8>) -> (r: Option<String>)
    ensures
        r is Some <==> vstd::utf8::valid_utf8(bytes@),
        r matches Some(s) ==> s@ == vstd::utf8::decode_utf8(bytes@),
{
    String::from_utf8(bytes).ok()
}

/// The contents of a file read as text: its characters when they are valid
/// UTF-8, `InvalidUtf8` otherwise.
pub fn decode_text(bytes: Vec<u8>) -> (r: Result<String, DirError>)
    ensures
        match r {
            Ok(s) => vstd::utf8::valid_utf8(bytes@) && s@ == vstd::utf8::decode_utf8(bytes@),
            Err(e) => !vstd::utf8::valid_utf8(bytes@) && e is InvalidUtf8,
        },
{
    match string_from_utf8(bytes) {
        Some(s) => Ok(s),
        None => Err(DirError::InvalidUtf8),
    }
}

/// The contents of a file read without waiting: the bytes the file holds in
/// memory as a whole, or `NotSynchronous` when it holds none that way.
pub fn sync_contents(held: Option<Vec<u8>>) -> (r: Result<Vec<u8>, DirError>)
    ensures
        r == match held {
            Some(b) => Ok::<Vec<u8>, DirError>(b),
            None => Err(DirError::NotSynchronous),
        },
{
    match held {
        Some(b) => Ok(b),
        None => Err(DirError::NotSynchronous),
    }
}

/// Whether `e` reports a failure to create a directory on the way to the
/// rooted form of one of the record's paths.
pub open spec fn fails_on_the_way_to_some(e: DirError, record: Seq<(String, Vec<u8>)>) -> bool {
    exists|i: int| 0 <= i < record.len() && fails_on_the_way_to(e, slashified((#[trigger] record[i]).0@))
}

/// Places a read-only file holding `bytes` at the rooted path `path` of a
/// file system being built from a record. It asks that the directories on
/// the way to the path's parent, when it has one, were made first.
pub(crate) fn place_entry_file(fs: &virtual_fs::mem_fs::FileSystem, path: &str, bytes: &[u8]) -> (r: Result<(), virtual_fs::FsError>)
    requires
        path_parent_of(path@) matches Some(q) ==> dirs_made(*fs, ancestor_chain(q), Ok(())),
    ensures
        file_placed(*fs, path@, bytes@, r),
{
    let contents = owned_buffer_from(bytes);
    let ghost b = contents;
    let r = memfs_insert_ro_file(fs, path, contents);
    assert(file_placed(*fs, path@, bytes@, r));
    r
}

/// `r` is what the file system answered when a read-only file holding
/// `bytes` was placed at `p` through `place_entry_file`, which is only
/// called once the directories on the way to the parent of `p` were made.
pub open(crate) spec fn placed_after_parents(
    fs: virtual_fs::mem_fs::FileSystem,
    p: Seq<char>,
    bytes: Seq<u8>,
    r: Result<(), virtual_fs::FsError>,
) -> bool {
    exists|s: &str, b: &[u8]| s@ == p && b@ == bytes && #[trigger] call_ensures(place_entry_file, (&fs, s, b), r)
}

/// `out` is what placing one record entry (`key`, `bytes`) in `fs` answers:
/// the key is rooted; when the rooted path has a parent, the directories on
/// the way to it are created first (`dirs_made`), and a failure there is the
/// answer; then a read-only file holding `bytes` is placed at the rooted
/// path (`placed_after_parents`).
pub open spec fn entry_placed(fs: virtual_fs::mem_fs::FileSystem, key: Seq<char>, bytes: Seq<u8>, out: Result<(), DirError>) -> bool {
    let p = slashified(key);
    ||| path_parent_of(p) is None && exists|res: Result<(), virtual_fs::FsError>|
        #[trigger] placed_after_parents(fs, p, bytes, res) && out == lifted(res)
    ||| exists|q: Seq<char>, c: Result<(), DirError>|
        path_parent_of(p) == Some(q) && #[trigger] dirs_made(fs, ancestor_chain(q), c) && match c {
            Err(_) => out == c,
            Ok(_) => exists|res: Result<(), virtual_fs::FsError>| #[trigger] placed_after_parents(fs, p, bytes, res) && out == lifted(res),
        }
}

/// `r` is what placing the entries of `record` in `fs`, in order, answers:
/// the first entry that fails ends the work with its failure.
pub open spec fn all_placed(fs: virtual_fs::mem_fs::FileSystem, record: Seq<(String, Vec<u8>)>, r: Result<(), DirError>) -> bool
    decreases record.len(),
{
    if record.len() == 0 {
        r is Ok
    } else {
        exists|o: Result<(), DirError>|
            #[trigger] entry_placed(fs, record[0].0@, record[0].1@, o) && match o {
                Ok(_) => all_placed(fs, record.drop_first(), r),
                Err(_) => r == o,
            }
    }
}

/// `r` is what building a file system from `record` answers: a fresh
/// file system in which every entry was placed (see `all_placed`), or the
/// failure that stopped the placing in such a file system.
pub open spec fn built_from(record: Seq<(String, Vec<u8>)>, r: Result<virtual_fs::mem_fs::FileSystem, DirError>) -> bool {
    match r {
        Ok(fs) => fresh_fs(fs) && all_placed(fs, record, Ok(())),
        Err(e) => exists|fs: virtual_fs::mem_fs::FileSystem| #[trigger] fresh_fs(fs) && all_placed(fs, record, Err(e)),
    }
}

/// Builds an in-memory file system from a record of paths and contents:
/// each path is rooted, the directories on the way to it are created, and
/// a read-only file holding the contents is placed there, in record order.
/// A failure stops the construction; it is the file system's refusal to
/// place a file, or a failure to create a directory on the way to a path.
pub fn in_memory_filesystem(record: &Vec<(String, Vec<u8>)>) -> (r: Result<virtual_fs::mem_fs::FileSystem, DirError>)
    ensures
        built_from(record@, r),
        record@.len() == 0 ==> r is Ok,
        r matches Err(e) ==> e is Fs || fails_on_the_way_to_some(e, record@),
{
    let fs = memfs_new();
    assert(fresh_fs(fs));
    let mut i: usize = 0;
    assert(record@.skip(0) =~= record@);
    while i < record.len()
        invariant
            i <= record@.len(),
            fresh_fs(fs),
            forall|r: Result<(), DirError>| #[trigger] all_placed(fs, record@.skip(i as int), r) ==> all_placed(fs, record@, r),
        decreases record@.len() - i,
    {
        let ghost rest = record@.skip(i as int);
        assert(rest[0] == record@[i as int]);
        assert(rest.drop_first() =~= record@.skip(i + 1));
        let ghost key = record@[i as int].0@;
        let ghost bytes = record@[i as int].1@;
        let mut path = record[i].0.clone();
        slashify(&mut path);
        let parent = path_parent(path.as_str());
        match parent {
            Some(parent) => {
                let made = create_dir_all(&fs, parent.as_str());
                assert(dirs_made(fs, ancestor_chain(parent@), made));
                match made {
                    Ok(u) => {
                        assert(made == Ok::<(), DirError>(u));
                        assert(dirs_made(fs, ancestor_chain(parent@), Ok(())));
                    },
                    Err(e) => {
                        assert(fails_on_the_way_to(e, slashified(record@[i as int].0@))) by {
                            let p = e->CreateDir_path;
                            assert(p@.is_prefix_of(parent@));
                            assert forall|k: int| 0 <= k < p@.len() implies p@[k] == path@[k] by {
                                assert(p@[k] == parent@[k]);
                            }
                        }
                        let ghost o: Result<(), DirError> = Err(e);
                        assert(entry_placed(fs, key, bytes, o));
                        assert(all_placed(fs, rest, o));
                        return Err(e);
                    },
                }
            },
            None => {},
        }
        let placed = place_entry_file(&fs, path.as_str(), record[i].1.as_slice());
        assert(placed_after_parents(fs, path@, bytes, placed));
        match placed {
            Ok(()) => {
                assert(entry_placed(fs, key, bytes, Ok(())));
                assert forall|r: Result<(), DirError>| #[trigger] all_placed(fs, record@.skip(i + 1), r) implies all_placed(fs, record@, r) by {
                    assert(all_placed(fs, rest, r));
                }
            },
            Err(e) => {
                let ghost o: Result<(), DirError> = Err(DirError::Fs(e));
                assert(entry_placed(fs, key, bytes, o));
                assert(all_placed(fs, rest, o));
                return Err(DirError::Fs(e));
            },
        }
        i = i + 1;
    }
    assert(all_placed(fs, record@.skip(i as int), Ok(())));
    Ok(fs)
}

/// `r` is what `d` answered when asked to list the rooted path `p` through
/// `Directory::list_populated`, which is only called once no `populate` hook
/// is pending in `d`.
pub open(crate) spec fn listed_when_populated(d: Directory, p: Seq<char>, r: Result<Vec<DirEntryInfo>, DirError>) -> bool {
    exists|s: &str| s@ == p && #[trigger] call_ensures(Directory::list_populated, (&d, s), r)
}

/// `r` is what `d` answered when asked to read the file at the rooted path
/// `p` through `Directory::read_populated`, which is only called once no
/// `populate` hook is pending in `d`.
pub open(crate) spec fn read_when_populated(d: Directory, p: Seq<char>, r: Result<Vec<u8>, DirError>) -> bool {
    exists|s: &str| s@ == p && #[trigger] call_ensures(Directory::read_populated, (&d, s), r)
}

/// `r` is what `d` answered when asked to create the directories on the way
/// to the rooted path `p` through `Directory::create_dirs_populated`, which
/// is only called once no `populate` hook is pending in `d`.
pub open(crate) spec fn dirs_made_when_populated(d: Directory, p: Seq<char>, r: Result<(), DirError>) -> bool {
    exists|s: &str| s@ == p && #[trigger] call_ensures(Directory::create_dirs_populated, (&d, s), r)
}

/// A relative path and the same path with `/` in front of it are handed to
/// the file system as the same rooted path, by listing, by a read without
/// waiting and by the creation of directories: an answer that one of these
/// may give for the one path it may give for the other.
pub proof fn lemma_relative_and_rooted_requests_alike(
    d: Directory,
    fs: virtual_fs::mem_fs::FileSystem,
    p: Seq<char>,
    listing: Result<Vec<DirEntryInfo>, DirError>,
    contents: Result<Vec<u8>, DirError>,
    made: Result<(), DirError>,
)
    requires
        !is_rooted(p),
    ensures
        lists(fs, slashified(p), listing) <==> lists(fs, slashified(seq!['/'] + p), listing),
        listed_when_populated(d, slashified(p), listing) <==> listed_when_populated(d, slashified(seq!['/'] + p), listing),
        read_when_populated(d, slashified(p), contents) <==> read_when_populated(d, slashified(seq!['/'] + p), contents),
        dirs_made_when_populated(d, slashified(p), made) <==> dirs_made_when_populated(d, slashified(seq!['/'] + p), made),
{
    lemma_relative_and_rooted_agree(p);
}

/// A directory: an in-memory file system and the hooks that the host
/// attached to it. Clones share the file system; each has its own hooks.
pub struct Directory {
    fs: virtual_fs::mem_fs::FileSystem,
    hooks: Hooks,
}

impl Clone for Directory {
    /// Another directory on the same file system, with its own copy of the
    /// hooks.
    fn clone(&self) -> (c: Directory)
        ensures
            c.fs_view() == self.fs_view(),
            c.hooks_view() == self.hooks_view(),
    {
        Directory { fs: self.fs.clone(), hooks: Hooks { populate: self.hooks.populate } }
    }
}

impl Default for Directory {
    fn default() -> (d: Directory)
        ensures
            fresh_fs(d.fs_view()),
            d.hooks_view().populate is None,
    {
        Directory { fs: memfs_new(), hooks: Hooks::new() }
    }
}

impl Directory {
    /// The hooks attached to this directory.
    pub closed spec fn hooks_view(self) -> Hooks {
        self.hooks
    }

    /// The handle on this directory's file system.
    pub closed spec fn fs_view(self) -> virtual_fs::mem_fs::FileSystem {
        self.fs
    }

    /// A directory filled from `init` (see `in_memory_filesystem`), or an
    /// empty one. No hook is attached yet.
    pub fn new(init: Option<Vec<(String, Vec<u8>)>>) -> (r: Result<Directory, DirError>)
        ensures
            init is None ==> (r matches Ok(d) && fresh_fs(d.fs_view())),
            init matches Some(record) ==> match r {
                Ok(d) => built_from(record@, Ok(d.fs_view())),
                Err(e) => built_from(record@, Err(e)),
            },
            init matches Some(record) && record@.len() == 0 ==> r is Ok,
            r matches Ok(d) ==> d.hooks_view().populate is None,
            r matches Err(e) ==> e is Fs || fails_on_the_way_to_some(e, init->0@),
    {
        match init {
            Some(record) => {
                match in_memory_filesystem(&record) {
                    Ok(fs) => Ok(Directory { fs, hooks: Hooks::new() }),
                    Err(e) => Err(e),
                }
            },
            None => Ok(Directory::default()),
        }
    }

    /// Replaces the hooks attached to this directory.
    pub fn set_hooks(&mut self, hooks: Hooks)
        ensures
            final(self).hooks_view() == hooks,
            final(self).fs_view() == old(self).fs_view(),
    {
        self.hooks = hooks;
    }

    /// The hooks attached to this directory.
    pub fn hooks(&self) -> (h: &Hooks)
        ensures
            *h == self.hooks_view(),
    {
        &self.hooks
    }

    /// Fires the `populate` hook if it is still pending, as listing the
    /// directory or opening a file in it does, and answers what it answered.
    pub fn fire_populate(&mut self) -> (r: Option<bool>)
        ensures
            trigger_populate_post(old(self).hooks_view(), final(self).hooks_view(), r),
            final(self).fs_view() == old(self).fs_view(),
    {
        self.hooks.trigger_populate()
    }

    /// Another handle on this directory's file system, for the reads and
    /// writes of file contents that the host drives.
    pub fn filesystem(&self) -> (h: virtual_fs::mem_fs::FileSystem)
        ensures
            h == self.fs_view(),
    {
        self.fs.clone()
    }

    /// Lists the directory at the rooted path `path`. It asks that no
    /// `populate` hook be pending, so the host has had its chance to fill the
    /// directory before it is listed.
    pub(crate) fn list_populated(&self, path: &str) -> (r: Result<Vec<DirEntryInfo>, DirError>)
        requires
            self.hooks_view().populate is None,
        ensures
            lists(self.fs_view(), path@, r),
            r matches Err(e) ==> e is Fs,
    {
        let listing = memfs_read_dir(&self.fs, path);
        assert(listed_at(self.fs, path@, listing));
        match listing {
            Ok(rd) => {
                let ghost g = rd;
                let v = list_entries(rd);
                assert(listed_at(self.fs, path@, Ok(g)));
                Ok(v)
            },
            Err(e) => Err(DirError::Fs(e)),
        }
    }

    /// Lists the directory at `path` (rooted first), after firing the
    /// `populate` hook: the answer is the listing made once no hook was
    /// pending (`listed_when_populated`), and it describes what the file
    /// system gave (see `lists` and `list_entries`).
    pub fn read_dir(&mut self, path: String) -> (r: Result<Vec<DirEntryInfo>, DirError>)
        ensures
            exists|a: Option<bool>| #[trigger] trigger_populate_post(old(self).hooks_view(), final(self).hooks_view(), a),
            final(self).hooks_view().populate is None,
            final(self).fs_view() == old(self).fs_view(),
            listed_when_populated(*final(self), slashified(path@), r),
            lists(old(self).fs_view(), slashified(path@), r),
            r matches Err(e) ==> e is Fs,
    {
        let mut path = path;
        slashify(&mut path);
        let _ = self.fire_populate();
        let r = self.list_populated(path.as_str());
        assert(listed_when_populated(*self, path@, r));
        r
    }

    /// The rooted path of a file about to be opened, after firing the
    /// `populate` hook, as opening a file in the directory does.
    pub fn open_path(&mut self, path: String) -> (p: String)
        ensures
            p@ == slashified(path@),
            exists|a: Option<bool>| #[trigger] trigger_populate_post(old(self).hooks_view(), final(self).hooks_view(), a),
            final(self).hooks_view().populate is None,
            final(self).fs_view() == old(self).fs_view(),
    {
        let mut path = path;
        slashify(&mut path);
        let _ = self.fire_populate();
        path
    }

    /// Reads the contents of the file at the rooted path `path` without
    /// waiting (see `sync_contents`). It asks that no `populate` hook be
    /// pending, as opening a file does.
    pub(crate) fn read_populated(&self, path: &str) -> (r: Result<Vec<u8>, DirError>)
        requires
            self.hooks_view().populate is None,
        ensures
            exists|res: Result<Option<Vec<u8>>, virtual_fs::FsError>|
                #[trigger] held_at(self.fs_view(), path@, res) && r == match res {
                    Ok(Some(b)) => Ok::<Vec<u8>, DirError>(b),
                    Ok(None) => Err(DirError::NotSynchronous),
                    Err(e) => Err(DirError::Fs(e)),
                },
    {
        let res = memfs_read_held(&self.fs, path);
        let ghost answer = res;
        assert(held_at(self.fs_view(), path@, answer));
        match res {
            Ok(held) => {
                let r = sync_contents(held);
                assert(held_at(self.fs_view(), path@, answer));
                r
            },
            Err(e) => Err(DirError::Fs(e)),
        }
    }

    /// Reads the contents of the file at `path` (rooted first) without
    /// waiting, after firing the `populate` hook, as opening a file in the
    /// directory does: the answer is the read made once no hook was pending
    /// (`read_when_populated`). This is only possible when the file is held
    /// in memory as a whole (see `sync_contents`).
    pub fn read_file_sync(&mut self, path: String) -> (r: Result<Vec<u8>, DirError>)
        ensures
            exists|a: Option<bool>| #[trigger] trigger_populate_post(old(self).hooks_view(), final(self).hooks_view(), a),
            final(self).hooks_view().populate is None,
            final(self).fs_view() == old(self).fs_view(),
            read_when_populated(*final(self), slashified(path@), r),
            exists|res: Result<Option<Vec<u8>>, virtual_fs::FsError>|
                #[trigger] held_at(old(self).fs_view(), slashified(path@), res) && r == match res {
                    Ok(Some(b)) => Ok::<Vec<u8>, DirError>(b),
                    Ok(None) => Err(DirError::NotSynchronous),
                    Err(e) => Err(DirError::Fs(e)),
                },
    {
        let path = self.open_path(path);
        let r = self.read_populated(path.as_str());
        assert(read_when_populated(*self, path@, r));
        r
    }

    /// Creates the directory at `path` (rooted first); its parent must exist.
    pub fn create_dir(&mut self, path: String) -> (r: Result<(), DirError>)
        ensures
            *final(self) == *old(self),
            exists|res: Result<(), virtual_fs::FsError>|
                #[trigger] dir_made(old(self).fs_view(), slashified(path@), res) && r == lifted(res),
            r matches Err(e) ==> e is Fs,
    {
        let ghost p0 = path@;
        let mut path = path;
        slashify(&mut path);
        let res = memfs_create_dir(&self.fs, path.as_str());
        assert(dir_made(self.fs, path@, res));
        assert(dir_made(old(self).fs_view(), slashified(p0), res));
        match res {
            Ok(_) => Ok(()),
            Err(e) => Err(DirError::Fs(e)),
        }
    }

    /// Creates the directory at the rooted path `path` and every missing
    /// directory on the way to it (see `create_dir_all`). It asks that no
    /// `populate` hook be pending, so the probes see what the host filled in.
    pub(crate) fn create_dirs_populated(&self, path: &str) -> (r: Result<(), DirError>)
        requires
            self.hooks_view().populate is None,
        ensures
            dirs_made(self.fs_view(), ancestor_chain(path@), r),
            r matches Err(e) ==> fails_on_the_way_to(e, path@),
    {
        create_dir_all(&self.fs, path)
    }

    /// Creates the directory at `path` (rooted first) and every missing
    /// directory on the way to it (see `dirs_made`), after firing the
    /// `populate` hook, which probing for existing directories does: the
    /// answer is the work done once no hook was pending
    /// (`dirs_made_when_populated`).
    pub fn create_dirs(&mut self, path: String) -> (r: Result<(), DirError>)
        ensures
            exists|a: Option<bool>| #[trigger] trigger_populate_post(old(self).hooks_view(), final(self).hooks_view(), a),
            final(self).hooks_view().populate is None,
            final(self).fs_view() == old(self).fs_view(),
            dirs_made_when_populated(*final(self), slashified(path@), r),
            dirs_made(old(self).fs_view(), ancestor_chain(slashified(path@)), r),
            r matches Err(e) ==> fails_on_the_way_to(e, slashified(path@)),
    {
        let mut path = path;
        slashify(&mut path);
        let _ = self.fire_populate();
        let r = self.create_dirs_populated(path.as_str());
        assert(dirs_made_when_populated(*self, path@, r));
        r
    }

    /// Removes the (empty) directory at `path` (rooted first).
    pub fn remove_dir(&mut self, path: String) -> (r: Result<(), DirError>)
        ensures
            *final(self) == *old(self),
            exists|res: Result<(), virtual_fs::FsError>|
                #[trigger] dir_removed(old(self).fs_view(), slashified(path@), res) && r == lifted(res),
            r matches Err(e) ==> e is Fs,
    {
        let ghost p0 = path@;
        let mut path = path;
        slashify(&mut path);
        let res = memfs_remove_dir(&self.fs, path.as_str());
        assert(dir_removed(self.fs, path@, res));
        assert(dir_removed(old(self).fs_view(), slashified(p0), res));
        match res {
            Ok(_) => Ok(()),
            Err(e) => Err(DirError::Fs(e)),
        }
    }

    /// Removes the file at `path` (rooted first).
    pub fn remove_file(&mut self, path: String) -> (r: Result<(), DirError>)
        ensures
            *final(self) == *old(self),
            exists|res: Result<(), virtual_fs::FsError>|
                #[trigger] file_removed(old(self).fs_view(), slashified(path@), res) && r == lifted(res),
            r matches Err(e) ==> e is Fs,
    {
        let ghost p0 = path@;
        let mut path = path;
        slashify(&mut path);
        let res = memfs_remove_file(&self.fs, path.as_str());
        assert(file_removed(self.fs, path@, res));
        assert(file_removed(old(self).fs_view(), slashified(p0), res));
        match res {
            Ok(_) => Ok(()),
            Err(e) => Err(DirError::Fs(e)),
        }
    }

    /// Places a read-only file holding `contents` at `path` (rooted first),
    /// replacing a file that was there.
    pub fn write_file_ro(&mut self, path: String, contents: &[u8]) -> (r: Result<(), DirError>)
        ensures
            *final(self) == *old(self),
            exists|res: Result<(), virtual_fs::FsError>|
                #[trigger] file_placed(old(self).fs_view(), slashified(path@), contents@, res) && r == lifted(res),
            r matches Err(e) ==> e is Fs,
    {
        let ghost p0 = path@;
        let mut path = path;
        slashify(&mut path);
        let buffer = owned_buffer_from(contents);
        let ghost b = buffer;
        let res = memfs_insert_ro_file(&self.fs, path.as_str(), buffer);
        assert(file_placed(self.fs, path@, contents@, res));
        assert(file_placed(old(self).fs_view(), slashified(p0), contents@, res));
        match res {
            Ok(_) => Ok(()),
            Err(e) => Err(DirError::Fs(e)),
        }
    }

    /// Creates a symbolic link at `target` pointing to `source`, both rooted
    /// first.
    pub fn create_symlink(&mut self, source: String, target: String) -> (r: Result<(), DirError>)
        ensures
            *final(self) == *old(self),
            exists|res: Result<(), virtual_fs::FsError>|
                #[trigger] symlink_made(old(self).fs_view(), slashified(source@), slashified(target@), res) && r == lifted(res),
            r matches Err(e) ==> e is Fs,
    {
        let ghost s0 = source@;
        let ghost t0 = target@;
        let mut source = source;
        let mut target = target;
        slashify(&mut source);
        slashify(&mut target);
        let res = memfs_create_symlink(&self.fs, source.as_str(), target.as_str());
        assert(symlink_made(self.fs, source@, target@, res));
        assert(symlink_made(old(self).fs_view(), slashified(s0), slashified(t0), res));
        match res {
            Ok(_) => Ok(()),
            Err(e) => Err(DirError::Fs(e)),
        }
    }

    /// Mounting another directory at `path` only happens in a directory
    /// backed by a mount table; one backed by memory is none, so nothing is
    /// mounted and the call succeeds.
    pub fn mount_dir(&mut self, path: String, dir: &Directory) -> (r: Result<(), DirError>)
        ensures
            r is Ok,
            *final(self) == *old(self),
    {
        let mut path = path;
        slashify(&mut path);
        Ok(())
    }
}

} // verus!
