use lib::c;
use lib::error::{
    cvt_count, cvt_status, decode_error_kind, error_string, is_interrupted, map_err,
    unsupported_err, Error, ErrorKind,
};

#[test]
fn decode_error_kind_maps_each_number() {
    let cases = [
        (c::E2BIG, ErrorKind::ArgumentListTooLong),
        (c::EBUSY, ErrorKind::ResourceBusy),
        (c::EDEADLOCK, ErrorKind::Deadlock),
        (c::EEXIST, ErrorKind::AlreadyExists),
        (c::EFBIG, ErrorKind::FileTooLarge),
        (c::EINTR, ErrorKind::Interrupted),
        (c::EINVAL, ErrorKind::InvalidInput),
        (c::EISDIR, ErrorKind::IsADirectory),
        (c::ELOOP, ErrorKind::FilesystemLoop),
        (c::ENOENT, ErrorKind::NotFound),
        (c::ENOMEM, ErrorKind::OutOfMemory),
        (c::ENOSPC, ErrorKind::StorageFull),
        (c::ENOSYS, ErrorKind::Unsupported),
        (c::EMLINK, ErrorKind::TooManyLinks),
        (c::ENAMETOOLONG, ErrorKind::InvalidFilename),
        (c::ENOTDIR, ErrorKind::NotADirectory),
        (c::ENOTEMPTY, ErrorKind::DirectoryNotEmpty),
        (c::EPIPE, ErrorKind::BrokenPipe),
        (c::EROFS, ErrorKind::ReadOnlyFilesystem),
        (c::ESPIPE, ErrorKind::NotSeekable),
        (c::ETXTBSY, ErrorKind::ExecutableFileBusy),
        (c::EXDEV, ErrorKind::CrossesDevices),
        (c::EUNSUPPORTED, ErrorKind::Unsupported),
        (c::EBADH, ErrorKind::InvalidInput),
        (c::EACCES, ErrorKind::PermissionDenied),
        (c::EPERM, ErrorKind::PermissionDenied),
        (c::EAGAIN, ErrorKind::WouldBlock),
        (c::EWOULDBLOCK, ErrorKind::WouldBlock),
        (c::EIO, ErrorKind::Uncategorized),
        (c::EUNKNOWN, ErrorKind::Uncategorized),
        (0, ErrorKind::Uncategorized),
        (-1, ErrorKind::Uncategorized),
    ];
    for (errno, kind) in cases {
        assert_eq!(decode_error_kind(errno), kind, "errno {}", errno);
    }
}

#[test]
fn is_interrupted_only_for_eintr() {
    assert!(is_interrupted(4));
    assert!(!is_interrupted(5));
}

#[test]
fn os_error_kind_is_decoded() {
    let e = Error::from_raw_os_error(c::ENOENT);
    assert_eq!(e.kind(), ErrorKind::NotFound);
    assert_eq!(e.raw_os_error(), Some(2));
    assert_eq!(e.message(), None);
}

#[test]
fn unsupported_error_message() {
    let e = unsupported_err();
    assert_eq!(e.kind(), ErrorKind::Unsupported);
    assert_eq!(e.message(), Some("operation not supported on this platform"));
    assert_eq!(e.raw_os_error(), None);
}

#[test]
fn map_err_negates() {
    assert_eq!(map_err(-22).raw_os_error(), Some(22));
    assert_eq!(map_err(-22).kind(), ErrorKind::InvalidInput);
}

#[test]
fn cvt_count_splits_on_sign() {
    assert_eq!(cvt_count(17).unwrap(), 17);
    assert_eq!(cvt_count(0).unwrap(), 0);
    assert_eq!(cvt_count(-9).unwrap_err().raw_os_error(), Some(9));
}

#[test]
fn cvt_status_uses_errno() {
    assert!(cvt_status(0, 5).is_ok());
    assert_eq!(cvt_status(-1, 13).unwrap_err().kind(), ErrorKind::PermissionDenied);
}

#[test]
fn error_string_prefers_the_description() {
    assert_eq!(error_string(2, Some("No such file".to_string())), "No such file");
}

#[test]
fn error_string_falls_back_to_the_number() {
    assert_eq!(error_string(1234, None), "Unknown error 1234");
    assert_eq!(error_string(0, None), "Unknown error 0");
    assert_eq!(error_string(-7, None), "Unknown error -7");
    assert_eq!(error_string(i32::MIN, None), "Unknown error -2147483648");
    assert_eq!(error_string(i32::MAX, None), "Unknown error 2147483647");
}
