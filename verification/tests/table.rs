use memfs::{
    CleanupFlags, EntryKind, FileAttributes, FsError, Obj, Path, PathTable, SecurityDescriptor,
    WriteMode,
};

fn path(s: &str) -> Path {
    Path::from_str(s).unwrap()
}

fn units(s: &str) -> Vec<u16> {
    s.encode_utf16().collect()
}

fn text(units: &[u16]) -> String {
    String::from_utf16(units).unwrap()
}

fn descriptor() -> SecurityDescriptor {
    SecurityDescriptor::from_bytes(vec![1, 2, 3])
}

fn store() -> PathTable {
    PathTable::new(descriptor(), 1024, 16 * 1024 * 1024, false, 100)
}

fn folder(table: &mut PathTable, at: &str) {
    table
        .create(&path(at), EntryKind::Folder, descriptor(), FileAttributes::directory(), 0, 200)
        .unwrap();
}

fn file(table: &mut PathTable, at: &str) {
    table
        .create(&path(at), EntryKind::File, descriptor(), FileAttributes::normal(), 0, 200)
        .unwrap();
}

fn present(table: &PathTable, at: &str) -> bool {
    table.open(&path(at)).is_ok()
}

fn names(table: &PathTable, at: &str, marker: Option<&str>) -> Vec<String> {
    let marker = marker.map(units);
    table
        .list(&path(at), marker.as_deref())
        .unwrap()
        .iter()
        .map(|line| text(&line.name))
        .collect()
}

#[test]
fn a_fresh_store_holds_the_root_folder() {
    let table = store();
    let root = table.open(&Path::root()).unwrap();
    assert!(root.is_folder());
    assert!(root.info().file_attributes().is(FileAttributes::directory()));
    assert_eq!(root.info().creation_time(), 100);
    assert_eq!(root.security_descriptor().as_bytes(), &[1, 2, 3]);
    let counters = table.counters();
    assert_eq!(counters.used_nodes, 1);
    assert_eq!(counters.node_capacity, 1024);
    assert_eq!(counters.total_capacity_bytes, 1024 * 16 * 1024 * 1024);
    assert_eq!(table.max_file_size(), 16 * 1024 * 1024);
    assert!(!table.is_read_only());
}

#[test]
fn create_file_sets_metadata() {
    let mut table = store();
    let info = table
        .create(&path("/f"), EntryKind::File, descriptor(), FileAttributes::hidden(), 10, 300)
        .unwrap();
    assert_eq!(info.file_attributes(), FileAttributes::hidden() | FileAttributes::archive());
    assert_eq!(info.allocation_size(), 10);
    assert_eq!(info.file_size(), 0);
    assert_eq!(info.creation_time(), 300);
    assert_eq!(info.last_access_time(), 300);
    assert_eq!(info.last_write_time(), 300);
    assert_eq!(info.change_time(), 300);
    assert_eq!(table.get_file_info(&path("/f")), Ok(info));
    assert_eq!(table.counters().used_nodes, 2);
    match table.open(&path("/f")).unwrap() {
        Obj::File(f) => {
            assert_eq!(f.content.allocation_size(), 10);
            assert_eq!(f.path, path("/f"));
        }
        Obj::Folder(_) => panic!("a file was created"),
    }
}

#[test]
fn create_folder_sets_metadata() {
    let mut table = store();
    let info = table
        .create(&path("/d"), EntryKind::Folder, descriptor(), FileAttributes::directory(), 77, 300)
        .unwrap();
    assert_eq!(info.file_attributes(), FileAttributes::directory());
    assert_eq!(info.allocation_size(), 0);
    assert_eq!(info.creation_time(), 300);
    assert!(table.open(&path("/d")).unwrap().is_folder());
}

#[test]
fn create_fails_if_the_path_is_taken() {
    let mut table = store();
    file(&mut table, "/f");
    let again = table.create(
        &path("/f"),
        EntryKind::File,
        descriptor(),
        FileAttributes::normal(),
        0,
        1,
    );
    assert_eq!(again, Err(FsError::AlreadyExists));
    let root = table.create(
        &Path::root(),
        EntryKind::Folder,
        descriptor(),
        FileAttributes::directory(),
        0,
        1,
    );
    assert_eq!(root, Err(FsError::AlreadyExists));
    assert_eq!(table.counters().used_nodes, 2);
}

#[test]
fn create_fails_without_a_parent_folder() {
    let mut table = store();
    let orphan = table.create(
        &path("/no/f"),
        EntryKind::File,
        descriptor(),
        FileAttributes::normal(),
        0,
        1,
    );
    assert_eq!(orphan, Err(FsError::ParentNotFound));
    file(&mut table, "/f");
    let under_file = table.create(
        &path("/f/g"),
        EntryKind::File,
        descriptor(),
        FileAttributes::normal(),
        0,
        1,
    );
    assert_eq!(under_file, Err(FsError::NotADirectory));
    assert_eq!(table.counters().used_nodes, 2);
}

#[test]
fn create_fails_when_the_store_is_full() {
    let mut table = PathTable::new(descriptor(), 2, 100, false, 0);
    file(&mut table, "/a");
    let more = table.create(
        &path("/b"),
        EntryKind::File,
        descriptor(),
        FileAttributes::normal(),
        0,
        1,
    );
    assert_eq!(more, Err(FsError::QuotaExceeded));
    assert_eq!(table.remove(&path("/a")), Ok(()));
    file(&mut table, "/b");
}

#[test]
fn create_fails_when_the_allocation_is_too_large() {
    let mut table = PathTable::new(descriptor(), 10, 100, false, 0);
    let big = table.create(
        &path("/a"),
        EntryKind::File,
        descriptor(),
        FileAttributes::normal(),
        101,
        1,
    );
    assert_eq!(big, Err(FsError::QuotaExceeded));
    let fits = table.create(
        &path("/a"),
        EntryKind::File,
        descriptor(),
        FileAttributes::normal(),
        100,
        1,
    );
    assert!(fits.is_ok());
}

#[test]
fn a_read_only_store_rejects_every_change() {
    let mut table = store();
    folder(&mut table, "/d");
    file(&mut table, "/f");
    table.set_read_only(true);
    assert!(table.is_read_only());
    let f = path("/f");
    assert_eq!(
        table.create(&path("/g"), EntryKind::File, descriptor(), FileAttributes::normal(), 0, 1),
        Err(FsError::ReadOnly)
    );
    assert_eq!(table.write(&f, &[1], WriteMode::Normal { offset: 0 }), Err(FsError::ReadOnly));
    assert_eq!(table.set_size(&f, 1, false), Err(FsError::ReadOnly));
    assert_eq!(table.set_size(&f, 1, true), Err(FsError::ReadOnly));
    assert_eq!(
        table.overwrite(&f, FileAttributes::normal(), true, 0, 1),
        Err(FsError::ReadOnly)
    );
    assert_eq!(table.cleanup(&f, CleanupFlags::set_archive_bit(), 1), Err(FsError::ReadOnly));
    assert_eq!(
        table.set_basic_info(&f, FileAttributes::hidden(), 1, 1, 1, 1),
        Err(FsError::ReadOnly)
    );
    assert_eq!(table.rename(&f, &path("/g"), false), Err(FsError::ReadOnly));
    assert_eq!(table.remove(&f), Err(FsError::ReadOnly));
    assert_eq!(
        table.set_security(&f, 0, &[], |_, _, _| Ok(SecurityDescriptor::from_bytes(vec![]))),
        Err(FsError::ReadOnly)
    );
    // Reading and listing still work.
    assert!(table.open(&f).is_ok());
    assert_eq!(names(&table, "/", None), ["d", "f"]);
    assert_eq!(table.read(&f, 0, 1), Err(FsError::EndOfFile));
    table.set_read_only(false);
    assert_eq!(table.remove(&f), Ok(()));
}

#[test]
fn open_fails_for_a_missing_path() {
    let table = store();
    assert!(matches!(table.open(&path("/nothing")), Err(FsError::NotFound)));
    assert_eq!(table.get_file_info(&path("/nothing")), Err(FsError::NotFound));
    assert_eq!(table.get_security(&path("/nothing")), Err(FsError::NotFound));
}

#[test]
fn remove_and_can_delete_protect_a_folder_with_entries() {
    let mut table = store();
    folder(&mut table, "/d");
    folder(&mut table, "/d/e");
    file(&mut table, "/d/e/f");
    assert!(!table.can_delete(&path("/d")));
    assert!(!table.can_delete(&path("/d/e")));
    assert!(table.can_delete(&path("/d/e/f")));
    assert!(!table.can_delete(&Path::root()));
    assert!(table.can_delete(&path("/missing")));
    assert_eq!(table.remove(&path("/d")), Err(FsError::NotEmpty));
    assert_eq!(table.remove(&path("/d/e")), Err(FsError::NotEmpty));
    assert_eq!(table.remove(&Path::root()), Err(FsError::NotEmpty));
    assert_eq!(table.counters().used_nodes, 4);
    assert_eq!(table.remove(&path("/d/e/f")), Ok(()));
    assert!(table.can_delete(&path("/d/e")));
    assert!(!table.can_delete(&path("/d")));
    assert_eq!(table.remove(&path("/d/e")), Ok(()));
    assert_eq!(table.remove(&path("/d")), Ok(()));
    assert_eq!(table.counters().used_nodes, 1);
}

#[test]
fn a_grandchild_alone_does_not_protect() {
    // Only entries directly in a folder count; there is no way to have a
    // grandchild without a child, so the folder in between protects itself.
    let mut table = store();
    folder(&mut table, "/d");
    folder(&mut table, "/dd");
    file(&mut table, "/dd/f");
    assert!(table.can_delete(&path("/d")));
    assert_eq!(table.remove(&path("/d")), Ok(()));
}

#[test]
fn not_empty_comes_before_read_only() {
    let mut table = store();
    folder(&mut table, "/d");
    file(&mut table, "/d/f");
    table.set_read_only(true);
    assert_eq!(table.remove(&path("/d")), Err(FsError::NotEmpty));
    assert!(!table.can_delete(&path("/d")));
    assert_eq!(table.remove(&path("/d/f")), Err(FsError::ReadOnly));
}

#[test]
fn the_root_cannot_be_removed() {
    let mut table = store();
    assert!(table.can_delete(&Path::root()));
    assert_eq!(table.remove(&Path::root()), Err(FsError::AccessDenied));
    assert!(present(&table, "/"));
}

#[test]
fn remove_fails_for_a_missing_path() {
    let mut table = store();
    assert_eq!(table.remove(&path("/x")), Err(FsError::NotFound));
}

#[test]
fn read_fails_at_or_past_the_end() {
    let mut table = store();
    file(&mut table, "/f");
    folder(&mut table, "/d");
    let f = path("/f");
    assert_eq!(table.read(&f, 0, 10), Err(FsError::EndOfFile));
    table.write(&f, &[1, 2, 3], WriteMode::Normal { offset: 0 }).unwrap();
    assert_eq!(table.read(&f, 0, 10), Ok(&[1u8, 2, 3][..]));
    assert_eq!(table.read(&f, 2, 10), Ok(&[3u8][..]));
    assert_eq!(table.read(&f, 1, 1), Ok(&[2u8][..]));
    assert_eq!(table.read(&f, 3, 10), Err(FsError::EndOfFile));
    assert_eq!(table.read(&f, u64::MAX, 10), Err(FsError::EndOfFile));
    assert_eq!(table.read(&path("/d"), 0, 10), Err(FsError::NotAFile));
    assert_eq!(table.read(&path("/x"), 0, 10), Err(FsError::NotFound));
}

#[test]
fn write_in_the_three_modes() {
    let mut table = store();
    file(&mut table, "/f");
    let f = path("/f");
    let (n, info) = table.write(&f, &[1, 2, 3], WriteMode::Normal { offset: 2 }).unwrap();
    assert_eq!((n, info.file_size(), info.allocation_size()), (3, 5, 4096));
    let (n, info) = table.write(&f, &[4, 5], WriteMode::WriteToEOF).unwrap();
    assert_eq!((n, info.file_size(), info.allocation_size()), (2, 7, 4096));
    let (n, info) = table.write(&f, &[9, 9, 9], WriteMode::ConstrainedIO { offset: 5 }).unwrap();
    assert_eq!((n, info.file_size(), info.allocation_size()), (2, 7, 4096));
    let (n, info) = table.write(&f, &[9], WriteMode::ConstrainedIO { offset: 7 }).unwrap();
    assert_eq!((n, info.file_size()), (0, 7));
    assert_eq!(table.read(&f, 0, 100), Ok(&[0u8, 0, 1, 2, 3, 9, 9][..]));
    assert_eq!(table.get_file_info(&f).unwrap(), info);
}

#[test]
fn write_fails_on_folders_and_missing_paths() {
    let mut table = store();
    folder(&mut table, "/d");
    assert_eq!(
        table.write(&path("/d"), &[1], WriteMode::Normal { offset: 0 }),
        Err(FsError::NotAFile)
    );
    assert_eq!(
        table.write(&path("/x"), &[1], WriteMode::WriteToEOF),
        Err(FsError::NotFound)
    );
}

#[test]
fn write_fails_past_the_size_allowed_to_a_file() {
    let mut table = PathTable::new(descriptor(), 10, 100, false, 0);
    file(&mut table, "/f");
    let f = path("/f");
    assert_eq!(
        table.write(&f, &[0; 101], WriteMode::Normal { offset: 0 }),
        Err(FsError::QuotaExceeded)
    );
    assert_eq!(
        table.write(&f, &[0; 1], WriteMode::Normal { offset: 100 }),
        Err(FsError::QuotaExceeded)
    );
    assert_eq!(
        table.write(&f, &[], WriteMode::Normal { offset: u64::MAX }),
        Err(FsError::QuotaExceeded)
    );
    assert!(table.write(&f, &[0; 100], WriteMode::Normal { offset: 0 }).is_ok());
    assert_eq!(table.write(&f, &[0; 1], WriteMode::WriteToEOF), Err(FsError::QuotaExceeded));
    assert_eq!(
        table.write(&f, &[7; 200], WriteMode::ConstrainedIO { offset: 50 }).unwrap().0,
        50
    );
    assert_eq!(table.get_file_info(&f).unwrap().file_size(), 100);
}

#[test]
fn set_size_sets_the_size_or_the_allocation() {
    let mut table = store();
    file(&mut table, "/f");
    folder(&mut table, "/d");
    let f = path("/f");
    let info = table.set_size(&f, 5000, false).unwrap();
    assert_eq!((info.file_size(), info.allocation_size()), (5000, 8192));
    let info = table.set_size(&f, 6000, true).unwrap();
    assert_eq!((info.file_size(), info.allocation_size()), (5000, 6000));
    let info = table.set_size(&f, 10, true).unwrap();
    assert_eq!((info.file_size(), info.allocation_size()), (10, 10));
    let info = table.set_size(&f, 4, false).unwrap();
    assert_eq!((info.file_size(), info.allocation_size()), (4, 10));
    assert_eq!(table.set_size(&path("/d"), 1, false), Err(FsError::NotAFile));
    assert_eq!(table.set_size(&path("/x"), 1, false), Err(FsError::NotFound));
    assert_eq!(
        table.set_size(&f, 16 * 1024 * 1024 + 1, false),
        Err(FsError::QuotaExceeded)
    );
    assert_eq!(table.set_size(&f, u64::MAX, true), Err(FsError::QuotaExceeded));
    assert_eq!(table.get_file_info(&f).unwrap().file_size(), 4);
}

#[test]
fn overwrite_merges_or_replaces_attributes() {
    let mut table = store();
    table
        .create(&path("/f"), EntryKind::File, descriptor(), FileAttributes::hidden(), 0, 10)
        .unwrap();
    let f = path("/f");
    table.write(&f, &[1, 2, 3], WriteMode::Normal { offset: 0 }).unwrap();
    let info = table.overwrite(&f, FileAttributes::readonly(), false, 2, 20).unwrap();
    assert_eq!(
        info.file_attributes(),
        FileAttributes::readonly() | FileAttributes::hidden() | FileAttributes::archive()
    );
    assert_eq!((info.file_size(), info.allocation_size()), (2, 2));
    assert_eq!(info.creation_time(), 20);
    assert_eq!(info.last_access_time(), 20);
    assert_eq!(info.last_write_time(), 20);
    assert_eq!(info.change_time(), 20);
    let info = table.overwrite(&f, FileAttributes::system(), true, 0, 30).unwrap();
    assert_eq!(info.file_attributes(), FileAttributes::system() | FileAttributes::archive());
    assert_eq!((info.file_size(), info.allocation_size()), (0, 0));
    folder(&mut table, "/d");
    assert_eq!(
        table.overwrite(&path("/d"), FileAttributes::normal(), true, 0, 1),
        Err(FsError::NotAFile)
    );
    assert_eq!(
        table.overwrite(&path("/x"), FileAttributes::normal(), true, 0, 1),
        Err(FsError::NotFound)
    );
    assert_eq!(
        table.overwrite(&f, FileAttributes::normal(), true, u64::MAX, 1),
        Err(FsError::QuotaExceeded)
    );
}

#[test]
fn cleanup_flags_act_independently() {
    let mut table = store();
    table
        .create(&path("/f"), EntryKind::File, descriptor(), FileAttributes::normal(), 0, 10)
        .unwrap();
    let f = path("/f");
    table.set_size(&f, 9000, true).unwrap();
    table.write(&f, &[1; 10], WriteMode::Normal { offset: 0 }).unwrap();
    table.set_basic_info(&f, FileAttributes::hidden(), 0, 0, 0, 0).unwrap();

    table.cleanup(&f, CleanupFlags(0), 50).unwrap();
    let info = table.get_file_info(&f).unwrap();
    assert_eq!(info.allocation_size(), 9000);
    assert_eq!(info.file_attributes(), FileAttributes::hidden());
    assert_eq!(
        (info.creation_time(), info.last_access_time(), info.last_write_time(), info.change_time()),
        (10, 10, 10, 10)
    );

    table.cleanup(&f, CleanupFlags::set_allocation_size(), 50).unwrap();
    let info = table.get_file_info(&f).unwrap();
    assert_eq!((info.file_size(), info.allocation_size()), (10, 4096));
    assert_eq!(info.file_attributes(), FileAttributes::hidden());
    assert_eq!(info.last_write_time(), 10);

    table.cleanup(&f, CleanupFlags::set_archive_bit(), 50).unwrap();
    let info = table.get_file_info(&f).unwrap();
    assert_eq!(info.file_attributes(), FileAttributes::hidden() | FileAttributes::archive());
    assert_eq!(info.last_access_time(), 10);

    table.cleanup(&f, CleanupFlags::set_last_access_time(), 51).unwrap();
    table.cleanup(&f, CleanupFlags::set_last_write_time(), 52).unwrap();
    table.cleanup(&f, CleanupFlags::set_change_time(), 53).unwrap();
    let info = table.get_file_info(&f).unwrap();
    assert_eq!(
        (info.creation_time(), info.last_access_time(), info.last_write_time(), info.change_time()),
        (10, 51, 52, 53)
    );

    let all = CleanupFlags::set_allocation_size()
        | CleanupFlags::set_archive_bit()
        | CleanupFlags::set_last_access_time()
        | CleanupFlags::set_last_write_time()
        | CleanupFlags::set_change_time();
    table.set_size(&f, 5000, false).unwrap();
    table.set_size(&f, 5000, true).unwrap();
    table.cleanup(&f, all, 60).unwrap();
    let info = table.get_file_info(&f).unwrap();
    assert_eq!((info.file_size(), info.allocation_size()), (5000, 8192));
    assert_eq!(
        (info.creation_time(), info.last_access_time(), info.last_write_time(), info.change_time()),
        (10, 60, 60, 60)
    );
}

#[test]
fn cleanup_leaves_a_folder_as_it_is() {
    let mut table = store();
    folder(&mut table, "/d");
    let before = table.get_file_info(&path("/d")).unwrap();
    let all = CleanupFlags(0x01 | 0x02 | 0x10 | 0x20 | 0x40 | 0x80);
    assert_eq!(table.cleanup(&path("/d"), all, 999), Ok(()));
    assert_eq!(table.get_file_info(&path("/d")).unwrap(), before);
    assert_eq!(table.cleanup(&path("/x"), all, 999), Err(FsError::NotFound));
}

#[test]
fn set_basic_info_skips_invalid_attributes_and_zero_times() {
    let mut table = store();
    file(&mut table, "/f");
    folder(&mut table, "/d");
    let f = path("/f");
    let info = table.set_basic_info(&f, FileAttributes::invalid(), 0, 0, 0, 0).unwrap();
    assert_eq!(info.file_attributes(), FileAttributes::normal() | FileAttributes::archive());
    assert_eq!(info.creation_time(), 200);
    let info = table.set_basic_info(&f, FileAttributes::hidden(), 1, 0, 3, 0).unwrap();
    assert_eq!(info.file_attributes(), FileAttributes::hidden());
    assert_eq!(
        (info.creation_time(), info.last_access_time(), info.last_write_time(), info.change_time()),
        (1, 200, 3, 200)
    );
    let info = table.set_basic_info(&f, FileAttributes::invalid(), 0, 2, 0, 4).unwrap();
    assert_eq!(info.file_attributes(), FileAttributes::hidden());
    assert_eq!(
        (info.creation_time(), info.last_access_time(), info.last_write_time(), info.change_time()),
        (1, 2, 3, 4)
    );
    let info = table
        .set_basic_info(&path("/d"), FileAttributes::directory() | FileAttributes::hidden(), 9, 9, 9, 9)
        .unwrap();
    assert_eq!(info.file_attributes(), FileAttributes::directory() | FileAttributes::hidden());
    assert_eq!(info.change_time(), 9);
    assert_eq!(
        table.set_basic_info(&path("/x"), FileAttributes::hidden(), 1, 1, 1, 1),
        Err(FsError::NotFound)
    );
}

#[test]
fn security_is_kept_and_merged() {
    let mut table = store();
    file(&mut table, "/f");
    let f = path("/f");
    assert_eq!(table.get_security(&f).unwrap().as_bytes(), &[1, 2, 3]);
    let merged = table.set_security(&f, 4, &[9, 9], |current, mask, modification| {
        let mut bytes = current.as_bytes().to_vec();
        bytes.push(mask as u8);
        bytes.extend_from_slice(modification);
        Ok(SecurityDescriptor::from_bytes(bytes))
    });
    assert_eq!(merged, Ok(()));
    assert_eq!(table.get_security(&f).unwrap().as_bytes(), &[1, 2, 3, 4, 9, 9]);
    let failed = table.set_security(&f, 4, &[9, 9], |_, _, _| Err(-5));
    assert_eq!(failed, Err(FsError::SecurityMergeFailed { status: -5 }));
    assert_eq!(table.get_security(&f).unwrap().as_bytes(), &[1, 2, 3, 4, 9, 9]);
    assert_eq!(
        table.set_security(&path("/x"), 0, &[], |_, _, _| Ok(descriptor())),
        Err(FsError::NotFound)
    );
    assert_eq!(table.apply_security(&f, Ok(SecurityDescriptor::from_bytes(vec![7]))), Ok(()));
    assert_eq!(table.get_security(&f).unwrap().as_bytes(), &[7]);
    assert_eq!(
        table.apply_security(&f, Err(3)),
        Err(FsError::SecurityMergeFailed { status: 3 })
    );
    assert_eq!(table.apply_security(&path("/x"), Err(3)), Err(FsError::NotFound));
}

#[test]
fn rename_moves_a_whole_subtree() {
    let mut table = store();
    folder(&mut table, "/a");
    folder(&mut table, "/a/x");
    file(&mut table, "/a/x/y");
    folder(&mut table, "/ab");
    file(&mut table, "/ab/z");
    table.write(&path("/a/x/y"), &[1, 2, 3], WriteMode::Normal { offset: 0 }).unwrap();
    assert_eq!(table.rename(&path("/a"), &path("/b"), false), Ok(()));
    for gone in ["/a", "/a/x", "/a/x/y"] {
        assert!(!present(&table, gone), "{gone}");
    }
    for there in ["/b", "/b/x", "/b/x/y", "/ab", "/ab/z", "/"] {
        assert!(present(&table, there), "{there}");
        assert_eq!(table.open(&path(there)).unwrap().path(), &path(there));
    }
    assert_eq!(table.read(&path("/b/x/y"), 0, 10), Ok(&[1u8, 2, 3][..]));
    assert_eq!(table.counters().used_nodes, 6);
    assert_eq!(names(&table, "/", None), ["ab", "b"]);
    assert_eq!(names(&table, "/b", None), [".", "..", "x"]);
}

#[test]
fn rename_into_another_folder() {
    let mut table = store();
    folder(&mut table, "/a");
    file(&mut table, "/a/f");
    folder(&mut table, "/d");
    folder(&mut table, "/d/e");
    assert_eq!(table.rename(&path("/a"), &path("/d/e/a2"), false), Ok(()));
    assert!(present(&table, "/d/e/a2/f"));
    assert!(!present(&table, "/a"));
    assert_eq!(table.rename(&path("/d/e/a2/f"), &path("/f"), false), Ok(()));
    assert!(present(&table, "/f"));
    assert!(present(&table, "/d/e/a2"));
    assert!(table.can_delete(&path("/d/e/a2")));
}

#[test]
fn rename_never_replaces_a_folder() {
    let mut table = store();
    folder(&mut table, "/a");
    folder(&mut table, "/b");
    file(&mut table, "/f");
    assert_eq!(table.rename(&path("/a"), &path("/b"), true), Err(FsError::AccessDenied));
    assert_eq!(table.rename(&path("/a"), &path("/b"), false), Err(FsError::AccessDenied));
    assert_eq!(table.rename(&path("/f"), &path("/b"), true), Err(FsError::AccessDenied));
    assert_eq!(table.rename(&path("/a"), &path("/a"), true), Err(FsError::AccessDenied));
    assert_eq!(table.rename(&path("/a"), &Path::root(), true), Err(FsError::AccessDenied));
    assert!(present(&table, "/a") && present(&table, "/b") && present(&table, "/f"));
}

#[test]
fn rename_replaces_a_file_only_on_request() {
    let mut table = store();
    file(&mut table, "/f");
    file(&mut table, "/g");
    folder(&mut table, "/d");
    file(&mut table, "/d/h");
    table.write(&path("/f"), &[1], WriteMode::Normal { offset: 0 }).unwrap();
    table.write(&path("/g"), &[2, 2], WriteMode::Normal { offset: 0 }).unwrap();
    assert_eq!(table.rename(&path("/f"), &path("/g"), false), Err(FsError::AlreadyExists));
    assert_eq!(table.read(&path("/g"), 0, 10), Ok(&[2u8, 2][..]));
    assert_eq!(table.counters().used_nodes, 5);
    assert_eq!(table.rename(&path("/f"), &path("/g"), true), Ok(()));
    assert!(!present(&table, "/f"));
    assert_eq!(table.read(&path("/g"), 0, 10), Ok(&[1u8][..]));
    assert_eq!(table.counters().used_nodes, 4);
    // A folder takes the place of a file, with all that is in it.
    assert_eq!(table.rename(&path("/d"), &path("/g"), true), Ok(()));
    assert!(table.open(&path("/g")).unwrap().is_folder());
    assert!(present(&table, "/g/h"));
    assert_eq!(table.counters().used_nodes, 3);
}

#[test]
fn rename_of_a_file_to_itself_changes_nothing() {
    let mut table = store();
    file(&mut table, "/f");
    table.write(&path("/f"), &[1], WriteMode::Normal { offset: 0 }).unwrap();
    assert_eq!(table.rename(&path("/f"), &path("/f"), false), Err(FsError::AlreadyExists));
    assert_eq!(table.rename(&path("/f"), &path("/f"), true), Ok(()));
    assert_eq!(table.read(&path("/f"), 0, 10), Ok(&[1u8][..]));
    assert_eq!(table.counters().used_nodes, 2);
}

#[test]
fn rename_fails_for_missing_source_root_and_bad_targets() {
    let mut table = store();
    folder(&mut table, "/a");
    folder(&mut table, "/a/b");
    file(&mut table, "/f");
    assert_eq!(table.rename(&path("/x"), &path("/y"), false), Err(FsError::NotFound));
    assert_eq!(table.rename(&Path::root(), &path("/y"), false), Err(FsError::AccessDenied));
    assert_eq!(table.rename(&path("/a"), &path("/a/b/c"), false), Err(FsError::AccessDenied));
    assert_eq!(table.rename(&path("/a"), &path("/a/c"), false), Err(FsError::AccessDenied));
    assert_eq!(table.rename(&path("/a"), &path("/no/c"), false), Err(FsError::ParentNotFound));
    assert_eq!(table.rename(&path("/a"), &path("/f/c"), false), Err(FsError::NotADirectory));
    for there in ["/a", "/a/b", "/f"] {
        assert!(present(&table, there));
    }
    assert_eq!(table.counters().used_nodes, 4);
}

#[test]
fn rename_does_not_touch_names_that_share_a_string_prefix() {
    let mut table = store();
    folder(&mut table, "/foo");
    file(&mut table, "/foo/a");
    folder(&mut table, "/foobar");
    file(&mut table, "/foobar/b");
    file(&mut table, "/foo.txt");
    assert_eq!(table.rename(&path("/foo"), &path("/baz"), false), Ok(()));
    for there in ["/baz", "/baz/a", "/foobar", "/foobar/b", "/foo.txt"] {
        assert!(present(&table, there), "{there}");
    }
    for gone in ["/foo", "/foo/a", "/bazbar", "/baz.txt"] {
        assert!(!present(&table, gone), "{gone}");
    }
}

#[test]
fn listing_is_sorted_and_shows_only_direct_entries() {
    let mut table = store();
    for d in ["/d", "/d/sub", "/other"] {
        folder(&mut table, d);
    }
    for f in ["/d/b", "/d/a", "/d/c", "/d/sub/deep", "/d/B", "/dx"] {
        file(&mut table, f);
    }
    assert_eq!(names(&table, "/d", None), [".", "..", "B", "a", "b", "c", "sub"]);
    assert_eq!(names(&table, "/", None), ["d", "dx", "other"]);
    assert_eq!(names(&table, "/other", None), [".", ".."]);
    assert_eq!(names(&table, "/d/sub", None), [".", "..", "deep"]);
}

#[test]
fn listing_carries_the_metadata_of_each_entry() {
    let mut table = store();
    folder(&mut table, "/d");
    file(&mut table, "/d/f");
    table.write(&path("/d/f"), &[1; 42], WriteMode::Normal { offset: 0 }).unwrap();
    table.set_basic_info(&Path::root(), FileAttributes::invalid(), 11, 0, 0, 0).unwrap();
    table.set_basic_info(&path("/d"), FileAttributes::invalid(), 22, 0, 0, 0).unwrap();
    let lines = table.list(&path("/d"), None).unwrap();
    assert_eq!(lines.len(), 3);
    assert_eq!(lines[0].info, table.get_file_info(&path("/d")).unwrap());
    assert_eq!(lines[0].info.creation_time(), 22);
    assert_eq!(lines[1].info, table.get_file_info(&Path::root()).unwrap());
    assert_eq!(lines[1].info.creation_time(), 11);
    assert_eq!(lines[2].info, table.get_file_info(&path("/d/f")).unwrap());
    assert_eq!(lines[2].info.file_size(), 42);
}

#[test]
fn listing_resumes_after_any_line_in_the_root() {
    let mut table = store();
    for f in ["/m", "/a", "/z", "/-x", "/k", "/B"] {
        file(&mut table, f);
    }
    let all = names(&table, "/", None);
    assert_eq!(all, ["-x", "B", "a", "k", "m", "z"]);
    for i in 0..all.len() {
        assert_eq!(names(&table, "/", Some(&all[i])), all[i + 1..], "after {}", all[i]);
    }
}

#[test]
fn listing_resumes_after_any_line_from_dot_dot_on() {
    let mut table = store();
    folder(&mut table, "/d");
    for f in ["/d/m", "/d/a", "/d/z", "/d/k"] {
        file(&mut table, f);
    }
    let all = names(&table, "/d", None);
    assert_eq!(all, [".", "..", "a", "k", "m", "z"]);
    for i in 1..all.len() {
        assert_eq!(names(&table, "/d", Some(&all[i])), all[i + 1..], "after {}", all[i]);
    }
    // The two dot lines are shown from the start only: resumed after `.`, the
    // listing lacks `..`.
    assert_eq!(names(&table, "/d", Some(".")), ["a", "k", "m", "z"]);
}

#[test]
fn listing_after_a_marker_that_is_no_entry() {
    let mut table = store();
    for f in ["/a", "/c", "/e"] {
        file(&mut table, f);
    }
    assert_eq!(names(&table, "/", Some("b")), ["c", "e"]);
    assert_eq!(names(&table, "/", Some("")), ["a", "c", "e"]);
    assert_eq!(names(&table, "/", Some("e")), Vec::<String>::new());
    assert_eq!(names(&table, "/", Some("zzz")), Vec::<String>::new());
}

#[test]
fn listing_twice_gives_the_same_lines() {
    let mut table = store();
    folder(&mut table, "/d");
    for f in ["/d/3", "/d/1", "/d/2"] {
        file(&mut table, f);
    }
    let first = table.list(&path("/d"), None).unwrap();
    let second = table.list(&path("/d"), None).unwrap();
    assert_eq!(first, second);
    // The order of creation does not matter.
    let mut other = store();
    folder(&mut other, "/d");
    for f in ["/d/1", "/d/2", "/d/3"] {
        file(&mut other, f);
    }
    assert_eq!(names(&table, "/d", None), names(&other, "/d", None));
}

#[test]
fn listing_fails_on_files_and_missing_paths() {
    let mut table = store();
    file(&mut table, "/f");
    assert_eq!(table.list(&path("/f"), None), Err(FsError::NotADirectory));
    assert_eq!(table.list(&path("/x"), None), Err(FsError::NotFound));
}

#[test]
fn a_failed_operation_leaves_the_store_usable() {
    let mut table = store();
    folder(&mut table, "/d");
    assert_eq!(table.remove(&path("/x")), Err(FsError::NotFound));
    assert_eq!(table.rename(&path("/x"), &path("/y"), false), Err(FsError::NotFound));
    file(&mut table, "/d/f");
    assert_eq!(names(&table, "/d", None), [".", "..", "f"]);
    assert_eq!(table.counters().used_nodes, 3);
}

#[test]
fn listing_can_leave_out_names() {
    let mut table = store();
    folder(&mut table, "/d");
    for f in ["/d/a.txt", "/d/a.txt.meta", "/d/b.txt", "/d/b.txt.meta", "/d/c"] {
        file(&mut table, f);
    }
    let meta = units(".meta");
    let keep = |name: &[u16]| !name.ends_with(&meta);
    let shown = |marker: Option<&str>| -> Vec<String> {
        let marker = marker.map(units);
        table
            .list_where(&path("/d"), marker.as_deref(), keep)
            .unwrap()
            .iter()
            .map(|line| text(&line.name))
            .collect()
    };
    assert_eq!(shown(None), [".", "..", "a.txt", "b.txt", "c"]);
    assert_eq!(shown(Some("a.txt")), ["b.txt", "c"]);
    assert_eq!(shown(Some("b.txt.meta")), ["c"]);
    assert_eq!(names(&table, "/d", None).len(), 7);
    let none = table.list_where(&path("/d"), None, |_| false).unwrap();
    assert_eq!(none.iter().map(|l| text(&l.name)).collect::<Vec<_>>(), [".", ".."]);
    let all = table.list_where(&path("/d"), None, |_| true).unwrap();
    assert_eq!(all, table.list(&path("/d"), None).unwrap());
    assert_eq!(table.list_where(&path("/d/c"), None, keep), Err(FsError::NotADirectory));
    assert_eq!(table.list_where(&path("/x"), None, keep), Err(FsError::NotFound));
    let in_root = table.list_where(&Path::root(), None, |name| name != units("d").as_slice());
    assert_eq!(in_root, Ok(vec![]));
}
