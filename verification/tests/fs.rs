use lib::c;
use lib::error::{Error, ErrorKind};
use lib::fs::{
    canonicalize, copy, copy_source_options, copy_target_options, link, open_result, path_call_result,
    path_exists, readdir, readlink, remove_dir_all, remove_entry_action, remove_entry_outcome,
    remove_listing_step, set_perm, set_times,
    set_times_nofollow, stat_result, symlink, DirBuilder, File, FileAttr, FilePermissions, FileTimes,
    FileType, ListingStep, OpenOptions, RemoveAction, SeekFrom, TryLockError,
};
use lib::time::SystemTime;

fn opts(read: bool, write: bool, append: bool, truncate: bool, create: bool, create_new: bool) -> OpenOptions {
    let mut o = OpenOptions::new();
    o.read(read);
    o.write(write);
    o.append(append);
    o.truncate(truncate);
    o.create(create);
    o.create_new(create_new);
    o
}

fn stat_record(node_type: u8, mode: u16) -> c::vespera_stat {
    c::vespera_stat {
        node_type,
        _pad0: [0; 3],
        flags: 0,
        dev_id: 1,
        block_size: 512,
        inode_id: 9,
        size: 4096,
        blocks: 8,
        atime: 100,
        mtime: 200,
        ctime: 300,
        crtime: 400,
        mode,
        links_count: 1,
        uid: 0,
        gid: 0,
    }
}

fn file_handle() -> File {
    open_result(3, 0).unwrap()
}

#[test]
fn flags_access_modes() {
    assert_eq!(opts(true, false, false, false, false, false).flags().unwrap(), 0);
    assert_eq!(opts(false, true, false, false, false, false).flags().unwrap(), 1);
    assert_eq!(opts(true, true, false, false, false, false).flags().unwrap(), 2);
    assert_eq!(opts(false, false, true, false, false, false).flags().unwrap(), 1 | 1024);
    assert_eq!(opts(false, true, true, false, false, false).flags().unwrap(), 1 | 1024);
    assert_eq!(opts(true, false, true, false, false, false).flags().unwrap(), 2 | 1024);
}

#[test]
fn flags_creation_and_truncation() {
    assert_eq!(opts(false, true, false, false, true, false).flags().unwrap(), 1 | 64);
    assert_eq!(opts(false, true, false, false, true, true).flags().unwrap(), 1 | 64 | 128);
    assert_eq!(opts(false, true, false, false, false, true).flags().unwrap(), 1 | 64 | 128);
    assert_eq!(opts(false, true, false, true, true, false).flags().unwrap(), 1 | 64 | 512);
    assert_eq!(opts(true, false, false, true, false, false).flags().unwrap(), 512);
}

#[test]
fn flags_without_access_fail() {
    let e = opts(false, false, false, true, true, true).flags().unwrap_err();
    assert_eq!(e.kind(), ErrorKind::InvalidInput);
    assert_eq!(e.message(), Some("OpenOptions: at least one of read/write/append must be set"));
}

#[test]
fn flags_decode_for_every_option_set() {
    for bits in 0u32..64 {
        let b = |i: u32| bits & (1 << i) != 0;
        let o = opts(b(0), b(1), b(2), b(3), b(4), b(5));
        match o.flags() {
            Err(_) => assert!(!o.read && !o.write && !o.append),
            Ok(f) => {
                let f = f as u32;
                assert_eq!(f & c::O_APPEND != 0, o.append);
                assert_eq!(f & c::O_CREAT != 0, o.create || o.create_new);
                assert_eq!(f & c::O_EXCL != 0, o.create_new);
                assert_eq!(f & c::O_TRUNC != 0, o.truncate);
                assert_eq!(f & 3 == c::O_RDWR, o.read && (o.write || o.append));
                assert_eq!(f & 3 == c::O_WRONLY, !o.read && (o.write || o.append));
                assert_eq!(f & 3 == c::O_RDONLY, o.read && !o.write && !o.append);
            }
        }
    }
}

#[test]
fn open_options_setters_touch_one_field() {
    let mut o = OpenOptions::new();
    o.truncate(true);
    assert!(o.truncate && !o.read && !o.write && !o.append && !o.create && !o.create_new);
}

#[test]
fn permissions_readonly() {
    assert!(FilePermissions::from_mode(0o444).readonly());
    assert!(!FilePermissions::from_mode(0o644).readonly());
    assert!(!FilePermissions::from_mode(0o002).readonly());
}

#[test]
fn set_readonly_clears_all_write_bits() {
    let mut p = FilePermissions::from_mode(0o40777);
    p.set_readonly(true);
    assert_eq!(p.mode(), 0o40555);
    assert!(p.readonly());
}

#[test]
fn set_readonly_false_sets_owner_write() {
    let mut p = FilePermissions::from_mode(0o444);
    p.set_readonly(false);
    assert_eq!(p.mode(), 0o644);
    assert!(!p.readonly());
}

#[test]
fn readonly_roundtrip_keeps_other_bits() {
    let mut p = FilePermissions::from_mode(0o1767);
    p.set_readonly(true);
    p.set_readonly(false);
    assert_eq!(p.mode() & !0o222, 0o1767 & !0o222);
    assert_eq!(p.mode() & 0o222, 0o200);
}

#[test]
fn file_type_predicates() {
    let dir = FileType::from_node_type(2);
    let file = FileType::from_node_type(1);
    let link = FileType::from_node_type(3);
    let dev = FileType::from_node_type(4);
    assert!(dir.is_dir() && !dir.is_file() && !dir.is_symlink());
    assert!(file.is_file() && !file.is_dir() && !file.is_symlink());
    assert!(link.is_symlink() && !link.is_dir() && !link.is_file());
    assert!(!dev.is_dir() && !dev.is_file() && !dev.is_symlink());
}

#[test]
fn file_attr_getters() {
    let a = FileAttr::from_stat(stat_record(2, 0o755));
    assert_eq!(a.size(), 4096);
    assert_eq!(a.perm().mode(), 0o755);
    assert!(a.file_type().is_dir());
    assert_eq!(a.modified().unwrap(), SystemTime::new(200, 0).unwrap());
    assert_eq!(a.accessed().unwrap(), SystemTime::new(100, 0).unwrap());
    assert_eq!(a.created().unwrap(), SystemTime::new(400, 0).unwrap());
}

#[test]
fn file_times_are_ignored() {
    let mut t = FileTimes::default();
    t.set_accessed(SystemTime::new(1, 0).unwrap());
    t.set_modified(SystemTime::new(2, 0).unwrap());
}

#[test]
fn open_result_max_handle_is_failure() {
    let e = open_result(u64::MAX, c::EACCES).unwrap_err();
    assert_eq!(e.raw_os_error(), Some(13));
    assert_eq!(open_result(7, 0).unwrap().as_raw_handle(), 7);
}

#[test]
fn file_operations_that_are_unsupported() {
    let f = file_handle();
    let msg = Some("operation not supported on this platform");
    assert_eq!(f.file_attr().unwrap_err().message(), msg);
    assert_eq!(f.lock().unwrap_err().message(), msg);
    assert_eq!(f.lock_shared().unwrap_err().message(), msg);
    assert_eq!(f.unlock().unwrap_err().message(), msg);
    assert_eq!(f.truncate(10).unwrap_err().message(), msg);
    assert_eq!(f.duplicate().unwrap_err().message(), msg);
    assert_eq!(f.set_permissions(FilePermissions::from_mode(0o644)).unwrap_err().message(), msg);
    assert_eq!(f.set_times(FileTimes::default()).unwrap_err().message(), msg);
}

#[test]
fn file_operations_that_succeed_trivially() {
    let f = file_handle();
    assert!(f.fsync().is_ok());
    assert!(f.datasync().is_ok());
    assert!(f.flush().is_ok());
    assert!(!f.is_read_vectored());
    assert!(!f.is_write_vectored());
    assert!(f.size().is_none());
}

#[test]
fn try_lock_reports_unsupported() {
    let f = file_handle();
    for r in [f.try_lock(), f.try_lock_shared()] {
        match r {
            Err(TryLockError::Error(e)) => {
                assert_eq!(e.kind(), ErrorKind::Unsupported);
                assert_eq!(e.message(), Some("file locking not supported on VesperaOS"));
            }
            _ => panic!("locking must fail"),
        }
    }
}

#[test]
fn seek_arguments() {
    assert_eq!(File::seek_args(SeekFrom::Start(10)), (10, c::SEEK_SET));
    assert_eq!(File::seek_args(SeekFrom::Start(u64::MAX)), (-1, c::SEEK_SET));
    assert_eq!(File::seek_args(SeekFrom::End(-4)), (-4, c::SEEK_END));
    assert_eq!(File::seek_args(SeekFrom::Current(3)), (3, c::SEEK_CUR));
    assert_eq!(File::tell_args(), (0, c::SEEK_CUR));
}

#[test]
fn seek_and_transfer_results() {
    assert_eq!(File::seek_result(99).unwrap(), 99);
    assert_eq!(File::seek_result(-29).unwrap_err().kind(), ErrorKind::NotSeekable);
    assert_eq!(File::transfer_result(5).unwrap(), 5);
    assert_eq!(File::transfer_result(-32).unwrap_err().kind(), ErrorKind::BrokenPipe);
}

#[test]
fn stat_result_interprets_the_record() {
    let a = stat_result(0, stat_record(1, 0o600)).unwrap();
    assert!(a.file_type().is_file());
    assert_eq!(stat_result(-2, stat_record(1, 0)).unwrap_err().kind(), ErrorKind::NotFound);
}

#[test]
fn path_exists_cases() {
    assert_eq!(path_exists(Ok(FileAttr::from_stat(stat_record(1, 0)))).unwrap(), true);
    assert_eq!(path_exists(Err(lib::error::Error::from_raw_os_error(c::ENOENT))).unwrap(), false);
    let e = path_exists(Err(lib::error::Error::from_raw_os_error(c::EACCES))).unwrap_err();
    assert_eq!(e.kind(), ErrorKind::PermissionDenied);
}

#[test]
fn path_call_result_cases() {
    assert!(path_call_result(0, 0).is_ok());
    assert_eq!(path_call_result(-1, c::ENOTEMPTY).unwrap_err().kind(), ErrorKind::DirectoryNotEmpty);
}

#[test]
fn path_operations_that_are_unsupported() {
    let p = b"/a".as_slice();
    assert_eq!(set_perm(p, FilePermissions::from_mode(0)).unwrap_err().kind(), ErrorKind::Unsupported);
    assert_eq!(set_times(p, FileTimes::default()).unwrap_err().kind(), ErrorKind::Unsupported);
    assert_eq!(set_times_nofollow(p, FileTimes::default()).unwrap_err().kind(), ErrorKind::Unsupported);
    assert_eq!(readlink(p).unwrap_err().kind(), ErrorKind::Unsupported);
    assert_eq!(symlink(p, p).unwrap_err().kind(), ErrorKind::Unsupported);
    assert_eq!(link(p, p).unwrap_err().kind(), ErrorKind::Unsupported);
    assert_eq!(canonicalize(p).unwrap_err().kind(), ErrorKind::Unsupported);
}

fn dirent(name: &[u8], type_: u32) -> c::dirent_t {
    let mut d = c::dirent_t { name: [0; 128], type_ };
    d.name[..name.len()].copy_from_slice(name);
    d
}

#[test]
fn readdir_and_entries() {
    assert_eq!(readdir(b"/x", u64::MAX, c::ENOENT).err().unwrap().kind(), ErrorKind::NotFound);
    let rd = readdir(b"/home/user", 5, 0).unwrap();
    assert_eq!(rd.as_raw_handle(), 5);
    let d = dirent(b"notes.txt", 1);
    assert!(rd.next_entry(0, &d).is_none());
    assert_eq!(rd.next_entry(-9, &d).unwrap().unwrap_err().raw_os_error(), Some(9));
    let e = rd.next_entry(1, &d).unwrap().unwrap();
    assert_eq!(e.file_name(), b"notes.txt".to_vec());
    assert_eq!(e.path(), b"/home/user/notes.txt".to_vec());
    assert!(e.file_type().unwrap().is_file());
}

#[test]
fn dir_entry_path_joins_without_doubling_the_separator() {
    let rd = readdir(b"/", 1, 0).unwrap();
    let e = rd.next_entry(1, &dirent(b"etc", 2)).unwrap().unwrap();
    assert_eq!(e.path(), b"/etc".to_vec());
    assert!(e.file_type().unwrap().is_dir());
}

#[test]
fn dir_entry_name_fills_the_whole_buffer() {
    let rd = readdir(b"d", 1, 0).unwrap();
    let e = rd.next_entry(1, &c::dirent_t { name: [b'a'; 128], type_: 1 }).unwrap().unwrap();
    assert_eq!(e.file_name().len(), 128);
}

#[test]
fn dir_entry_type_keeps_the_low_byte() {
    let rd = readdir(b"d", 1, 0).unwrap();
    let e = rd.next_entry(1, &dirent(b"x", 0x102)).unwrap().unwrap();
    assert!(e.file_type().unwrap().is_dir());
}

#[test]
fn remove_dir_all_decisions() {
    let dir = FileAttr::from_stat(stat_record(2, 0));
    let file = FileAttr::from_stat(stat_record(1, 0));
    match remove_dir_all(b"/t", &dir) {
        RemoveAction::RemoveTree(p) => assert_eq!(p, b"/t".to_vec()),
        _ => panic!("a directory is removed as a tree"),
    }
    match remove_dir_all(b"/t", &file) {
        RemoveAction::Unlink(p) => assert_eq!(p, b"/t".to_vec()),
        _ => panic!("a file is unlinked"),
    }
    let rd = readdir(b"/t", 1, 0).unwrap();
    match remove_entry_action(&rd.next_entry(1, &dirent(b"sub", 2)).unwrap().unwrap()) {
        RemoveAction::RemoveTree(p) => assert_eq!(p, b"/t/sub".to_vec()),
        _ => panic!("a subdirectory is removed as a tree"),
    }
    match remove_entry_action(&rd.next_entry(1, &dirent(b"f", 1)).unwrap().unwrap()) {
        RemoveAction::Unlink(p) => assert_eq!(p, b"/t/f".to_vec()),
        _ => panic!("a file entry is unlinked"),
    }
}

#[test]
fn copy_steps() {
    assert_eq!(copy(0, 8192), Some(8192));
    assert_eq!(copy(8192, 10), Some(8202));
    assert_eq!(copy(8202, 0), None);
    let s = copy_source_options();
    assert_eq!(s.flags().unwrap(), 0);
    let t = copy_target_options();
    assert_eq!(t.flags().unwrap() as u32, c::O_WRONLY | c::O_CREAT | c::O_TRUNC);
}

#[test]
fn dir_builder_new() {
    let _b = DirBuilder::new();
}

#[test]
fn listing_steps_of_a_removal() {
    let rd = readdir(b"/t", 1, 0).unwrap();
    assert_eq!(rd.dir_path(), b"/t".to_vec());
    match remove_listing_step(b"/t", None) {
        ListingStep::RemoveDir(p) => assert_eq!(p, b"/t".to_vec()),
        other => panic!("unexpected step {:?}", other),
    }
    match remove_listing_step(b"/t", Some(Err(Error::from_raw_os_error(5)))) {
        ListingStep::Fail(e) => assert_eq!(e.raw_os_error(), Some(5)),
        other => panic!("unexpected step {:?}", other),
    }
    match remove_listing_step(b"/t", rd.next_entry(1, &dirent(b"sub", 2))) {
        ListingStep::Act(RemoveAction::RemoveTree(p)) => assert_eq!(p, b"/t/sub".to_vec()),
        other => panic!("unexpected step {:?}", other),
    }
    match remove_listing_step(b"/t", rd.next_entry(1, &dirent(b"f", 1))) {
        ListingStep::Act(RemoveAction::Unlink(p)) => assert_eq!(p, b"/t/f".to_vec()),
        other => panic!("unexpected step {:?}", other),
    }
    assert!(matches!(remove_entry_outcome(Ok(())), ListingStep::ReadNext));
    match remove_entry_outcome(Err(Error::from_raw_os_error(39))) {
        ListingStep::Fail(e) => assert_eq!(e.raw_os_error(), Some(39)),
        other => panic!("unexpected step {:?}", other),
    }
}
