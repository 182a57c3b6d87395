use std::path::PathBuf;
use virtual_fs::{AsyncReadExt, AsyncWriteExt, DirEntry, FileSystem, FileType, FsError, Metadata, ReadDir};
use wasmer_js::directory::{
    create_dir_all, decode_text, entry_kind, in_memory_filesystem, list_entries, sync_contents,
    DirEntryInfo, DirError, Directory, EntryKind,
};
use wasmer_js::fs::FileTypeFlags;
use wasmer_js::hooks::Hooks;

fn names_and_kinds(v: &[DirEntryInfo]) -> Vec<(String, &'static str)> {
    let mut out: Vec<(String, &'static str)> =
        v.iter().map(|e| (e.name.clone(), e.kind.as_str())).collect();
    out.sort();
    out
}

fn flags(dir: bool, file: bool, symlink: bool) -> Option<FileTypeFlags> {
    Some(FileTypeFlags { dir, file, symlink })
}

#[test]
fn entry_kind_prefers_directory_then_file() {
    assert_eq!(entry_kind(flags(true, true, true)), EntryKind::Dir);
    assert_eq!(entry_kind(flags(false, true, true)), EntryKind::File);
    assert_eq!(entry_kind(flags(false, false, true)), EntryKind::Unknown);
    assert_eq!(entry_kind(flags(false, false, false)), EntryKind::Unknown);
    assert_eq!(entry_kind(None), EntryKind::Unknown);
}

#[test]
fn entry_kind_names_for_the_host() {
    assert_eq!(EntryKind::File.as_str(), "file");
    assert_eq!(EntryKind::Dir.as_str(), "dir");
    assert_eq!(EntryKind::Unknown.as_str(), "unknown");
}

fn entry(path: &str, ft: Option<FileType>) -> DirEntry {
    DirEntry {
        path: PathBuf::from(path),
        metadata: match ft {
            Some(ft) => Ok(Metadata { ft, accessed: 0, created: 0, modified: 0, len: 0 }),
            None => Err(FsError::IOError),
        },
    }
}

#[test]
fn list_entries_describes_each_entry_in_order() {
    let rd = ReadDir::new(vec![
        entry("/d/sub", Some(FileType::new_dir())),
        entry("/d/note.txt", Some(FileType::new_file())),
        entry("/d/broken", None),
    ]);
    let v = list_entries(rd);
    let got: Vec<(String, EntryKind)> = v.iter().map(|e| (e.name.clone(), e.kind)).collect();
    assert_eq!(
        got,
        vec![
            ("sub".to_string(), EntryKind::Dir),
            ("note.txt".to_string(), EntryKind::File),
            ("broken".to_string(), EntryKind::Unknown),
        ]
    );
}

#[test]
fn new_directory_without_init_is_empty() {
    let mut d = Directory::new(None).unwrap();
    assert_eq!(d.hooks().populate, None);
    assert!(d.read_dir("/".to_string()).unwrap().is_empty());
}

#[test]
fn directory_from_record_holds_its_files() {
    let record = vec![
        ("docs/readme.txt".to_string(), b"hello".to_vec()),
        ("/top.bin".to_string(), vec![1u8, 2, 3]),
    ];
    let mut d = Directory::new(Some(record)).unwrap();
    assert_eq!(
        names_and_kinds(&d.read_dir("".to_string()).unwrap()),
        vec![("docs".to_string(), "dir"), ("top.bin".to_string(), "file")]
    );
    assert_eq!(
        names_and_kinds(&d.read_dir("docs".to_string()).unwrap()),
        vec![("readme.txt".to_string(), "file")]
    );
}

#[test]
fn in_memory_filesystem_creates_deep_parents() {
    let record = vec![("a/b/c/d.txt".to_string(), b"x".to_vec())];
    let fs = in_memory_filesystem(&record).unwrap();
    let rd = FileSystem::read_dir(&fs, std::path::Path::new("/a/b/c")).unwrap();
    let v = list_entries(rd);
    assert_eq!(names_and_kinds(&v), vec![("d.txt".to_string(), "file")]);
}

#[test]
fn create_dir_then_list() {
    let mut d = Directory::default();
    d.create_dir("music".to_string()).unwrap();
    assert_eq!(
        names_and_kinds(&d.read_dir("/".to_string()).unwrap()),
        vec![("music".to_string(), "dir")]
    );
}

#[test]
fn create_dir_without_parent_fails() {
    let mut d = Directory::default();
    let r = d.create_dir("/no/such".to_string());
    assert!(matches!(r, Err(DirError::Fs(_))));
}

#[test]
fn create_dirs_makes_the_whole_chain() {
    let mut d = Directory::default();
    d.create_dirs("x/y/z".to_string()).unwrap();
    assert_eq!(
        names_and_kinds(&d.read_dir("/x/y".to_string()).unwrap()),
        vec![("z".to_string(), "dir")]
    );
    // Existing directories are kept as they are.
    d.create_dirs("/x/y/w".to_string()).unwrap();
    assert_eq!(
        names_and_kinds(&d.read_dir("/x/y".to_string()).unwrap()),
        vec![("w".to_string(), "dir"), ("z".to_string(), "dir")]
    );
}

#[test]
fn create_dir_all_on_existing_chain_succeeds() {
    let fs = virtual_fs::mem_fs::FileSystem::default();
    create_dir_all(&fs, "/p/q").unwrap();
    create_dir_all(&fs, "/p/q").unwrap();
    create_dir_all(&fs, "/").unwrap();
}

#[test]
fn create_dir_all_reports_the_failing_directory() {
    let fs = virtual_fs::mem_fs::FileSystem::default();
    match create_dir_all(&fs, "relative/dir") {
        Err(DirError::CreateDir { path, .. }) => assert_eq!(path, ""),
        other => panic!("unexpected: {:?}", other),
    }
}

#[test]
fn write_file_ro_then_list_and_remove() {
    let mut d = Directory::default();
    d.write_file_ro("data.bin".to_string(), &[9, 8, 7]).unwrap();
    assert_eq!(
        names_and_kinds(&d.read_dir("/".to_string()).unwrap()),
        vec![("data.bin".to_string(), "file")]
    );
    d.remove_file("/data.bin".to_string()).unwrap();
    assert!(d.read_dir("/".to_string()).unwrap().is_empty());
}

#[test]
fn write_file_ro_replaces_existing_file() {
    let mut d = Directory::default();
    d.write_file_ro("f".to_string(), b"one").unwrap();
    d.write_file_ro("f".to_string(), b"two").unwrap();
    assert_eq!(
        names_and_kinds(&d.read_dir("/".to_string()).unwrap()),
        vec![("f".to_string(), "file")]
    );
}

#[test]
fn remove_dir_removes_empty_directory() {
    let mut d = Directory::default();
    d.create_dir("tmp".to_string()).unwrap();
    d.remove_dir("tmp".to_string()).unwrap();
    assert!(d.read_dir("/".to_string()).unwrap().is_empty());
    assert!(matches!(d.remove_dir("tmp".to_string()), Err(DirError::Fs(_))));
}

#[test]
fn create_symlink_is_listed_as_unknown_kind() {
    let mut d = Directory::default();
    d.write_file_ro("target.txt".to_string(), b"t").unwrap();
    d.create_symlink("target.txt".to_string(), "link".to_string()).unwrap();
    assert_eq!(
        names_and_kinds(&d.read_dir("/".to_string()).unwrap()),
        vec![("link".to_string(), "unknown"), ("target.txt".to_string(), "file")]
    );
}

#[test]
fn mount_dir_on_memory_directory_succeeds() {
    let mut d = Directory::default();
    let other = Directory::default();
    assert!(d.mount_dir("mnt".to_string(), &other).is_ok());
}

#[test]
fn open_path_roots_the_path() {
    let mut d = Directory::default();
    assert_eq!(d.open_path("a/b".to_string()), "/a/b");
    assert_eq!(d.open_path("/c".to_string()), "/c");
}

#[test]
fn set_hooks_replaces_hooks_and_listing_consumes_populate() {
    let mut d = Directory::default();
    d.set_hooks(Hooks { populate: None });
    assert_eq!(d.hooks().populate, None);
    d.read_dir("/".to_string()).unwrap();
    assert_eq!(d.hooks().populate, None);
}

#[test]
fn read_dir_of_missing_path_fails() {
    let mut d = Directory::default();
    assert!(matches!(d.read_dir("/missing".to_string()), Err(DirError::Fs(_))));
}

#[test]
fn clone_keeps_hooks_of_its_own() {
    let mut d = Directory::default();
    d.set_hooks(Hooks { populate: None });
    let e = d.clone();
    assert_eq!(e.hooks().populate, None);
}

#[test]
fn new_directory_from_empty_record_is_empty() {
    let mut d = Directory::new(Some(Vec::new())).unwrap();
    assert!(d.read_dir("/".to_string()).unwrap().is_empty());
}

#[test]
fn in_memory_filesystem_refuses_file_under_file() {
    let record = vec![
        ("a".to_string(), b"file".to_vec()),
        ("a/b".to_string(), b"inner".to_vec()),
    ];
    assert!(in_memory_filesystem(&record).is_err());
}

#[test]
fn clones_share_the_file_system() {
    let mut d = Directory::default();
    let mut e = d.clone();
    d.create_dir("shared".to_string()).unwrap();
    assert_eq!(
        names_and_kinds(&e.read_dir("/".to_string()).unwrap()),
        vec![("shared".to_string(), "dir")]
    );
}

#[test]
fn decode_text_accepts_utf8() {
    assert_eq!(decode_text("héllo".as_bytes().to_vec()).unwrap(), "héllo");
    assert_eq!(decode_text(Vec::new()).unwrap(), "");
}

#[test]
fn decode_text_refuses_invalid_utf8() {
    assert!(matches!(decode_text(vec![0xff, 0xfe]), Err(DirError::InvalidUtf8)));
}

#[test]
fn sync_contents_of_held_bytes() {
    assert_eq!(sync_contents(Some(vec![1, 2])).unwrap(), vec![1, 2]);
    assert!(matches!(sync_contents(None), Err(DirError::NotSynchronous)));
}

#[test]
fn read_only_file_reads_back_synchronously() {
    let mut d = Directory::default();
    d.write_file_ro("blob".to_string(), &[5, 6, 7]).unwrap();
    assert_eq!(d.read_file_sync("blob".to_string()).unwrap(), vec![5, 6, 7]);
    assert_eq!(d.read_file_sync("/blob".to_string()).unwrap(), vec![5, 6, 7]);
}

#[test]
fn read_file_sync_of_missing_file_fails() {
    let mut d = Directory::default();
    assert!(matches!(d.read_file_sync("none".to_string()), Err(DirError::Fs(_))));
}

#[test]
fn read_file_sync_of_record_file() {
    let mut d = Directory::new(Some(vec![("etc/motd".to_string(), b"hi".to_vec())])).unwrap();
    assert_eq!(d.read_file_sync("etc/motd".to_string()).unwrap(), b"hi".to_vec());
}

#[test]
fn written_file_reads_back_as_text() {
    let mut d = Directory::default();
    let path = d.open_path("notes.txt".to_string());
    let fs = d.filesystem();
    let bytes = futures::executor::block_on(async {
        let mut w = fs.new_open_options().write(true).create(true).open(&path).unwrap();
        w.write_all("grüße".as_bytes()).await.unwrap();
        w.flush().await.unwrap();
        let mut r = fs.new_open_options().read(true).open(&path).unwrap();
        let mut buf = Vec::new();
        r.read_to_end(&mut buf).await.unwrap();
        buf
    });
    assert_eq!(decode_text(bytes).unwrap(), "grüße");
    assert_eq!(
        names_and_kinds(&d.read_dir("/".to_string()).unwrap()),
        vec![("notes.txt".to_string(), "file")]
    );
}

#[test]
fn read_dir_lists_nested_directory() {
    let mut d = Directory::default();
    d.create_dir("sub".to_string()).unwrap();
    d.create_dir("sub/inner".to_string()).unwrap();
    assert_eq!(
        names_and_kinds(&d.read_dir("sub".to_string()).unwrap()),
        vec![("inner".to_string(), "dir")]
    );
}

#[test]
fn read_dir_of_relative_and_rooted_path_agree() {
    let mut d = Directory::new(Some(vec![("x/y.txt".to_string(), b"1".to_vec())])).unwrap();
    let relative = names_and_kinds(&d.read_dir("x".to_string()).unwrap());
    let rooted = names_and_kinds(&d.read_dir("/x".to_string()).unwrap());
    assert_eq!(relative, rooted);
    assert!(d.read_dir("nope".to_string()).is_err());
    assert!(d.read_dir("/nope".to_string()).is_err());
}
