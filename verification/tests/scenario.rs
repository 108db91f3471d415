use memfs::entry::EntryKind;
use memfs::error::FsError;
use memfs::extent::WriteMode;
use memfs::flags::FileAttributes;
use memfs::path::Path;
use memfs::security::SecurityDescriptor;
use memfs::table::PathTable;

fn path(s: &str) -> Path {
    Path::from_str(s).unwrap()
}

fn descriptor() -> SecurityDescriptor {
    SecurityDescriptor::from_bytes(vec![1, 0, 4, 128])
}

fn store() -> PathTable {
    PathTable::new(descriptor(), 1024, 16 * 1024 * 1024, false, 100)
}

#[test]
fn folder_file_write_read_rename_remove() {
    let mut table = store();
    let docs = path("/docs");
    let file = path("/docs/a.txt");
    table
        .create(&docs, EntryKind::Folder, descriptor(), FileAttributes::directory(), 0, 101)
        .unwrap();
    let info = table
        .create(&file, EntryKind::File, descriptor(), FileAttributes::normal(), 0, 102)
        .unwrap();
    assert_eq!(info.allocation_size(), 0);
    assert_eq!(info.file_size(), 0);

    let data = vec![7u8; 5000];
    let (written, info) = table.write(&file, &data, WriteMode::Normal { offset: 0 }).unwrap();
    assert_eq!(written, 5000);
    assert_eq!(info.allocation_size(), 8192);
    assert_eq!(info.file_size(), 5000);

    assert_eq!(table.read(&file, 5000, 10), Err(FsError::EndOfFile));

    let archive = path("/archive");
    assert_eq!(table.rename(&docs, &archive, false), Ok(()));
    let moved = path("/archive/a.txt");
    assert!(table.open(&moved).is_ok());
    assert_eq!(table.open(&moved).unwrap().path(), &moved);
    assert!(matches!(table.open(&file), Err(FsError::NotFound)));
    assert!(matches!(table.open(&docs), Err(FsError::NotFound)));

    assert_eq!(table.remove(&archive), Err(FsError::NotEmpty));
    assert_eq!(table.remove(&moved), Ok(()));
    assert_eq!(table.remove(&archive), Ok(()));
    assert_eq!(table.counters().used_nodes, 1);
}
