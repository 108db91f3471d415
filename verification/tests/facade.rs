use memfs::fs::{FILE_NODES, MAX_FILE_NODES, MAX_FILE_SIZE};
use memfs::{
    CleanupFlags, CreateFileInfo, CreateOptions, FileAccessRights, FileAttributes, FsError, MemFs,
    Path, SecurityDescriptor, WriteMode,
};

fn path(s: &str) -> Path {
    Path::from_str(s).unwrap()
}

fn units(s: &str) -> Vec<u16> {
    s.encode_utf16().collect()
}

fn descriptor() -> SecurityDescriptor {
    SecurityDescriptor::from_bytes(vec![5, 6])
}

fn fs() -> MemFs {
    MemFs::new(&units("memfs"), false, descriptor(), 1000)
}

fn folder_request() -> CreateFileInfo {
    CreateFileInfo {
        create_options: CreateOptions::file_directory_file(),
        granted_access: FileAccessRights::file_all_access(),
        file_attributes: FileAttributes::directory(),
        allocation_size: 0,
    }
}

fn file_request(allocation_size: u64) -> CreateFileInfo {
    CreateFileInfo {
        create_options: CreateOptions::file_non_directory_file(),
        granted_access: FileAccessRights::file_all_access(),
        file_attributes: FileAttributes::normal(),
        allocation_size,
    }
}

fn listing(fs: &MemFs, at: &str, marker: Option<&str>) -> Vec<String> {
    let marker = marker.map(units);
    fs.read_directory(&path(at), marker.as_deref())
        .unwrap()
        .iter()
        .map(|d| String::from_utf16(&d.file_name).unwrap())
        .collect()
}

#[test]
fn a_fresh_file_system() {
    let fs = fs();
    assert_eq!((MAX_FILE_NODES, MAX_FILE_SIZE, FILE_NODES), (1024, 16 * 1024 * 1024, 1));
    let volume = fs.get_volume_info();
    assert_eq!(volume.total_size(), 1024 * 16 * 1024 * 1024);
    assert_eq!(volume.free_size(), 1023 * 16 * 1024 * 1024);
    assert_eq!(volume.volume_label(), units("memfs"));
    let root = fs.open(&Path::root()).unwrap();
    assert!(root.file_attributes().is(FileAttributes::directory()));
    assert_eq!(root.creation_time(), 1000);
    let (attributes, sd) = fs.get_security_by_name(&Path::root()).unwrap();
    assert_eq!(attributes, FileAttributes::directory());
    assert_eq!(sd.as_bytes(), &[5, 6]);
    assert_eq!(fs.get_security_by_name(&path("/x")).unwrap_err(), FsError::NotFound);
    assert_eq!(listing(&fs, "/", None), Vec::<String>::new());
}

#[test]
fn the_volume_label_can_be_changed() {
    let mut fs = fs();
    let info = fs.set_volume_label(&units("other")).unwrap();
    assert_eq!(info.volume_label(), units("other"));
    assert_eq!(fs.get_volume_info().volume_label(), units("other"));
    assert!(fs.set_volume_label(&units(&"l".repeat(33))).is_err());
    assert_eq!(fs.get_volume_info().volume_label(), units("other"));
    assert_eq!(fs.get_volume_info().total_size(), 1024 * 16 * 1024 * 1024);
}

#[test]
fn create_goes_by_the_create_options() {
    let mut fs = fs();
    let info = fs.create_ex(&path("/d"), folder_request(), descriptor(), 1).unwrap();
    assert_eq!(info.file_attributes(), FileAttributes::directory());
    let info = fs.create_ex(&path("/d/f"), file_request(3), descriptor(), 2).unwrap();
    assert_eq!(info.file_attributes(), FileAttributes::normal() | FileAttributes::archive());
    assert_eq!(info.allocation_size(), 3);
    assert_eq!(fs.open(&path("/d/f")), Ok(info));
    assert_eq!(fs.get_file_info(&path("/d/f")), Ok(info));
    assert_eq!(fs.flush(&path("/d/f")), Ok(info));
    assert_eq!(
        fs.create_ex(&path("/d/f"), file_request(0), descriptor(), 3),
        Err(FsError::AlreadyExists)
    );
    assert_eq!(
        fs.create_ex(&path("/e/f"), file_request(0), descriptor(), 3),
        Err(FsError::ParentNotFound)
    );
    assert_eq!(fs.open(&path("/e")), Err(FsError::NotFound));
    assert_eq!(fs.flush(&path("/e")), Err(FsError::NotFound));
}

#[test]
fn the_file_system_fills_up() {
    let mut fs = fs();
    for i in 1..MAX_FILE_NODES {
        let name = format!("/f{i}");
        fs.create_ex(&path(&name), file_request(0), descriptor(), 1).unwrap();
    }
    assert_eq!(
        fs.create_ex(&path("/more"), file_request(0), descriptor(), 1),
        Err(FsError::QuotaExceeded)
    );
    assert_eq!(fs.table.counters().used_nodes, MAX_FILE_NODES);
}

#[test]
fn files_are_bounded_in_size() {
    let mut fs = fs();
    assert_eq!(
        fs.create_ex(&path("/f"), file_request(MAX_FILE_SIZE + 1), descriptor(), 1),
        Err(FsError::QuotaExceeded)
    );
    fs.create_ex(&path("/f"), file_request(MAX_FILE_SIZE), descriptor(), 1).unwrap();
    assert_eq!(
        fs.write(&path("/f"), &[1], WriteMode::Normal { offset: MAX_FILE_SIZE }),
        Err(FsError::QuotaExceeded)
    );
    let (n, info) = fs.write(&path("/f"), &[1], WriteMode::Normal { offset: MAX_FILE_SIZE - 1 }).unwrap();
    assert_eq!((n, info.file_size()), (1, MAX_FILE_SIZE));
    assert_eq!(fs.set_file_size(&path("/f"), MAX_FILE_SIZE + 1, false), Err(FsError::QuotaExceeded));
}

#[test]
fn read_write_and_resize_through_the_file_system() {
    let mut fs = fs();
    fs.create_ex(&path("/f"), file_request(0), descriptor(), 1).unwrap();
    let f = path("/f");
    let (n, info) = fs.write(&f, b"hello world", WriteMode::Normal { offset: 0 }).unwrap();
    assert_eq!((n, info.file_size(), info.allocation_size()), (11, 11, 4096));
    assert_eq!(fs.read(&f, 6, 100), Ok(&b"world"[..]));
    assert_eq!(fs.read(&f, 11, 1), Err(FsError::EndOfFile));
    let info = fs.set_file_size(&f, 5, false).unwrap();
    assert_eq!((info.file_size(), info.allocation_size()), (5, 4096));
    let info = fs.set_file_size(&f, 3, true).unwrap();
    assert_eq!((info.file_size(), info.allocation_size()), (3, 3));
    assert_eq!(fs.read(&f, 0, 100), Ok(&b"hel"[..]));
    let info = fs.overwrite_ex(&f, FileAttributes::hidden(), true, 0, 50).unwrap();
    assert_eq!(info.file_attributes(), FileAttributes::hidden() | FileAttributes::archive());
    assert_eq!((info.file_size(), info.allocation_size()), (0, 0));
    assert_eq!(info.last_write_time(), 50);
    let info = fs.set_basic_info(&f, FileAttributes::system(), 0, 0, 60, 0).unwrap();
    assert_eq!(info.file_attributes(), FileAttributes::system());
    assert_eq!((info.last_write_time(), info.change_time()), (60, 50));
}

#[test]
fn cleanup_removes_on_request_unless_something_is_inside() {
    let mut fs = fs();
    fs.create_ex(&path("/d"), folder_request(), descriptor(), 1).unwrap();
    fs.create_ex(&path("/d/f"), file_request(0), descriptor(), 1).unwrap();
    fs.write(&path("/d/f"), &[1; 10], WriteMode::Normal { offset: 0 }).unwrap();
    fs.set_file_size(&path("/d/f"), 9000, true).unwrap();

    fs.cleanup(&path("/d"), CleanupFlags::delete(), 5);
    assert!(fs.open(&path("/d")).is_ok());

    fs.cleanup(&path("/d/f"), CleanupFlags::set_allocation_size() | CleanupFlags::set_change_time(), 6);
    let info = fs.open(&path("/d/f")).unwrap();
    assert_eq!((info.file_size(), info.allocation_size(), info.change_time()), (10, 4096, 6));

    fs.cleanup(&path("/d/f"), CleanupFlags::delete(), 7);
    assert_eq!(fs.open(&path("/d/f")), Err(FsError::NotFound));
    fs.cleanup(&path("/d"), CleanupFlags::delete(), 8);
    assert_eq!(fs.open(&path("/d")), Err(FsError::NotFound));
    assert_eq!(fs.table.counters().used_nodes, 1);

    fs.cleanup(&Path::root(), CleanupFlags::delete(), 9);
    assert!(fs.open(&Path::root()).is_ok());
    fs.cleanup(&path("/missing"), CleanupFlags::delete(), 9);
    assert_eq!(fs.table.counters().used_nodes, 1);
}

#[test]
fn cleanup_does_nothing_on_a_read_only_file_system() {
    let mut fs = MemFs::new(&units("ro"), false, descriptor(), 1);
    fs.create_ex(&path("/f"), file_request(0), descriptor(), 1).unwrap();
    fs.table.set_read_only(true);
    let before = fs.open(&path("/f")).unwrap();
    fs.cleanup(&path("/f"), CleanupFlags(0x01 | 0x02 | 0x10 | 0x20 | 0x40 | 0x80), 99);
    assert_eq!(fs.open(&path("/f")), Ok(before));
}

#[test]
fn set_delete_checks_for_entries_inside() {
    let mut fs = fs();
    fs.create_ex(&path("/d"), folder_request(), descriptor(), 1).unwrap();
    fs.create_ex(&path("/d/f"), file_request(0), descriptor(), 1).unwrap();
    assert_eq!(fs.set_delete(&path("/d"), true), Err(FsError::NotEmpty));
    assert_eq!(fs.set_delete(&path("/d"), false), Err(FsError::NotEmpty));
    assert_eq!(fs.set_delete(&path("/d/f"), true), Ok(()));
    assert!(fs.open(&path("/d/f")).is_ok());
    fs.table.set_read_only(true);
    assert_eq!(fs.set_delete(&path("/d"), true), Err(FsError::NotEmpty));
    assert_eq!(fs.set_delete(&path("/d/f"), true), Err(FsError::ReadOnly));
}

#[test]
fn rename_and_security_through_the_file_system() {
    let mut fs = fs();
    fs.create_ex(&path("/a"), folder_request(), descriptor(), 1).unwrap();
    fs.create_ex(&path("/a/f"), file_request(0), descriptor(), 1).unwrap();
    assert_eq!(fs.rename(&path("/a"), &path("/b"), false), Ok(()));
    assert!(fs.open(&path("/b/f")).is_ok());
    assert_eq!(fs.rename(&path("/a"), &path("/c"), false), Err(FsError::NotFound));
    assert_eq!(fs.get_security(&path("/b/f")).unwrap().as_bytes(), &[5, 6]);
    let reverse = |current: &SecurityDescriptor, _: u32, _: &[u8]| {
        let mut bytes = current.as_bytes().to_vec();
        bytes.reverse();
        Ok(SecurityDescriptor::from_bytes(bytes))
    };
    assert_eq!(fs.set_security(&path("/b/f"), 1, &[], reverse), Ok(()));
    assert_eq!(fs.get_security(&path("/b/f")).unwrap().as_bytes(), &[6, 5]);
    assert_eq!(
        fs.set_security(&path("/b/f"), 1, &[], |_, _, _| Err(-1)),
        Err(FsError::SecurityMergeFailed { status: -1 })
    );
    assert_eq!(fs.get_security(&path("/x")).unwrap_err(), FsError::NotFound);
}

#[test]
fn read_directory_gives_records_for_a_host() {
    let mut fs = fs();
    fs.create_ex(&path("/d"), folder_request(), descriptor(), 1).unwrap();
    for name in ["/d/bb", "/d/a", "/d/ccc"] {
        fs.create_ex(&path(name), file_request(0), descriptor(), 1).unwrap();
    }
    let records = fs.read_directory(&path("/d"), None).unwrap();
    let names: Vec<String> =
        records.iter().map(|d| String::from_utf16(&d.file_name).unwrap()).collect();
    assert_eq!(names, [".", "..", "a", "bb", "ccc"]);
    let sizes: Vec<u16> = records.iter().map(|d| d.size).collect();
    assert_eq!(sizes, [106, 108, 106, 108, 110]);
    assert_eq!(records[3].file_info, fs.open(&path("/d/bb")).unwrap());
    assert_eq!(listing(&fs, "/d", Some("a")), ["bb", "ccc"]);
    assert_eq!(listing(&fs, "/d", Some("..")), ["a", "bb", "ccc"]);
    assert_eq!(listing(&fs, "/d", Some("ccc")), Vec::<String>::new());
    assert_eq!(fs.read_directory(&path("/d/a"), None).unwrap_err(), FsError::NotADirectory);
    assert_eq!(fs.read_directory(&path("/x"), None).unwrap_err(), FsError::NotFound);
}
