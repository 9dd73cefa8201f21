//! Error values of the platform layer and the decoding of VesperaOS error
//! numbers into error kinds.
use vstd::prelude::*;
use crate::c;

verus! {

/// The categories of error that the platform layer reports.
#[derive(Debug, Clone, Copy, PartialEq, Eq, Structural)]
pub enum ErrorKind {
    NotFound,
    PermissionDenied,
    AlreadyExists,
    WouldBlock,
    NotADirectory,
    IsADirectory,
    DirectoryNotEmpty,
    ReadOnlyFilesystem,
    FilesystemLoop,
    InvalidInput,
    InvalidData,
    StorageFull,
    NotSeekable,
    FileTooLarge,
    ResourceBusy,
    ExecutableFileBusy,
    Deadlock,
    CrossesDevices,
    TooManyLinks,
    InvalidFilename,
    ArgumentListTooLong,
    Interrupted,
    Unsupported,
    UnexpectedEof,
    OutOfMemory,
    BrokenPipe,
    Uncategorized,
}

/// An error: either a raw VesperaOS error number, or a kind with a fixed
/// message.
#[derive(Debug, Clone, Copy)]
pub enum Error {
    Os(i32),
    Simple { kind: ErrorKind, message: &'static str },
}

/// The error kind that an error number stands for.
pub open spec fn spec_decode_error_kind(errno: i32) -> ErrorKind {
    if errno == c::E2BIG { ErrorKind::ArgumentListTooLong }
    else if errno == c::EBUSY { ErrorKind::ResourceBusy }
    else if errno == c::EDEADLOCK { ErrorKind::Deadlock }
    else if errno == c::EEXIST { ErrorKind::AlreadyExists }
    else if errno == c::EFBIG { ErrorKind::FileTooLarge }
    else if errno == c::EINTR { ErrorKind::Interrupted }
    else if errno == c::EINVAL { ErrorKind::InvalidInput }
    else if errno == c::EISDIR { ErrorKind::IsADirectory }
    else if errno == c::ELOOP { ErrorKind::FilesystemLoop }
    else if errno == c::ENOENT { ErrorKind::NotFound }
    else if errno == c::ENOMEM { ErrorKind::OutOfMemory }
    else if errno == c::ENOSPC { ErrorKind::StorageFull }
    else if errno == c::ENOSYS { ErrorKind::Unsupported }
    else if errno == c::EMLINK { ErrorKind::TooManyLinks }
    else if errno == c::ENAMETOOLONG { ErrorKind::InvalidFilename }
    else if errno == c::ENOTDIR { ErrorKind::NotADirectory }
    else if errno == c::ENOTEMPTY { ErrorKind::DirectoryNotEmpty }
    else if errno == c::EPIPE { ErrorKind::BrokenPipe }
    else if errno == c::EROFS { ErrorKind::ReadOnlyFilesystem }
    else if errno == c::ESPIPE { ErrorKind::NotSeekable }
    else if errno == c::ETXTBSY { ErrorKind::ExecutableFileBusy }
    else if errno == c::EXDEV { ErrorKind::CrossesDevices }
    else if errno == c::EUNSUPPORTED { ErrorKind::Unsupported }
    else if errno == c::EBADH { ErrorKind::InvalidInput }
    else if errno == c::EACCES || errno == c::EPERM { ErrorKind::PermissionDenied }
    else if errno == c::EAGAIN || errno == c::EWOULDBLOCK { ErrorKind::WouldBlock }
    else { ErrorKind::Uncategorized }
}

/// Whether the decoding table names the error number.
pub open spec fn is_named_errno(errno: i32) -> bool {
    errno == c::E2BIG || errno == c::EBUSY || errno == c::EDEADLOCK || errno == c::EEXIST
        || errno == c::EFBIG || errno == c::EINTR || errno == c::EINVAL || errno == c::EISDIR
        || errno == c::ELOOP || errno == c::ENOENT || errno == c::ENOMEM || errno == c::ENOSPC
        || errno == c::ENOSYS || errno == c::EMLINK || errno == c::ENAMETOOLONG
        || errno == c::ENOTDIR || errno == c::ENOTEMPTY || errno == c::EPIPE || errno == c::EROFS
        || errno == c::ESPIPE || errno == c::ETXTBSY || errno == c::EXDEV
        || errno == c::EUNSUPPORTED || errno == c::EBADH || errno == c::EACCES
        || errno == c::EPERM || errno == c::EAGAIN || errno == c::EWOULDBLOCK
}

/// Each error kind is decoded from exactly the error numbers named for it,
/// and every error number the table does not name (such as `EMFILE`,
/// `ENXIO`, `ESRCH` or `ENOTTY`) decodes to `Uncategorized`. In particular
/// only `ENOENT` reports that something is not found.
pub proof fn lemma_decode_error_kind_preimages(errno: i32)
    ensures
        (spec_decode_error_kind(errno) == ErrorKind::NotFound) <==> errno == c::ENOENT,
        (spec_decode_error_kind(errno) == ErrorKind::PermissionDenied) <==> (errno == c::EACCES
            || errno == c::EPERM),
        (spec_decode_error_kind(errno) == ErrorKind::AlreadyExists) <==> errno == c::EEXIST,
        (spec_decode_error_kind(errno) == ErrorKind::WouldBlock) <==> (errno == c::EAGAIN
            || errno == c::EWOULDBLOCK),
        (spec_decode_error_kind(errno) == ErrorKind::NotADirectory) <==> errno == c::ENOTDIR,
        (spec_decode_error_kind(errno) == ErrorKind::IsADirectory) <==> errno == c::EISDIR,
        (spec_decode_error_kind(errno) == ErrorKind::DirectoryNotEmpty) <==> errno == c::ENOTEMPTY,
        (spec_decode_error_kind(errno) == ErrorKind::ReadOnlyFilesystem) <==> errno == c::EROFS,
        (spec_decode_error_kind(errno) == ErrorKind::FilesystemLoop) <==> errno == c::ELOOP,
        (spec_decode_error_kind(errno) == ErrorKind::InvalidInput) <==> (errno == c::EINVAL
            || errno == c::EBADH),
        (spec_decode_error_kind(errno) == ErrorKind::StorageFull) <==> errno == c::ENOSPC,
        (spec_decode_error_kind(errno) == ErrorKind::NotSeekable) <==> errno == c::ESPIPE,
        (spec_decode_error_kind(errno) == ErrorKind::FileTooLarge) <==> errno == c::EFBIG,
        (spec_decode_error_kind(errno) == ErrorKind::ResourceBusy) <==> errno == c::EBUSY,
        (spec_decode_error_kind(errno) == ErrorKind::ExecutableFileBusy) <==> errno == c::ETXTBSY,
        (spec_decode_error_kind(errno) == ErrorKind::Deadlock) <==> errno == c::EDEADLOCK,
        (spec_decode_error_kind(errno) == ErrorKind::CrossesDevices) <==> errno == c::EXDEV,
        (spec_decode_error_kind(errno) == ErrorKind::TooManyLinks) <==> errno == c::EMLINK,
        (spec_decode_error_kind(errno) == ErrorKind::InvalidFilename) <==> errno == c::ENAMETOOLONG,
        (spec_decode_error_kind(errno) == ErrorKind::ArgumentListTooLong) <==> errno == c::E2BIG,
        (spec_decode_error_kind(errno) == ErrorKind::Interrupted) <==> errno == c::EINTR,
        (spec_decode_error_kind(errno) == ErrorKind::Unsupported) <==> (errno == c::ENOSYS
            || errno == c::EUNSUPPORTED),
        (spec_decode_error_kind(errno) == ErrorKind::OutOfMemory) <==> errno == c::ENOMEM,
        (spec_decode_error_kind(errno) == ErrorKind::BrokenPipe) <==> errno == c::EPIPE,
        spec_decode_error_kind(errno) != ErrorKind::InvalidData,
        spec_decode_error_kind(errno) != ErrorKind::UnexpectedEof,
        (spec_decode_error_kind(errno) == ErrorKind::Uncategorized) <==> !is_named_errno(errno),
{
}

/// A raw OS error reports that something is not found (so that a lookup
/// answers "does not exist" rather than passing the error on) exactly when
/// its number is `ENOENT`.
pub proof fn lemma_os_error_not_found(errno: i32)
    ensures
        (Error::Os(errno).spec_kind() == ErrorKind::NotFound) <==> errno == c::ENOENT,
{
    lemma_decode_error_kind_preimages(errno);
}

/// Maps a VesperaOS error number to the kind of error it reports.
pub fn decode_error_kind(errno: i32) -> (kind: ErrorKind)
    ensures
        kind == spec_decode_error_kind(errno),
{
    match errno {
        c::E2BIG => ErrorKind::ArgumentListTooLong,
        c::EBUSY => ErrorKind::ResourceBusy,
        c::EDEADLOCK => ErrorKind::Deadlock,
        c::EEXIST => ErrorKind::AlreadyExists,
        c::EFBIG => ErrorKind::FileTooLarge,
        c::EINTR => ErrorKind::Interrupted,
        c::EINVAL => ErrorKind::InvalidInput,
        c::EISDIR => ErrorKind::IsADirectory,
        c::ELOOP => ErrorKind::FilesystemLoop,
        c::ENOENT => ErrorKind::NotFound,
        c::ENOMEM => ErrorKind::OutOfMemory,
        c::ENOSPC => ErrorKind::StorageFull,
        c::ENOSYS => ErrorKind::Unsupported,
        c::EMLINK => ErrorKind::TooManyLinks,
        c::ENAMETOOLONG => ErrorKind::InvalidFilename,
        c::ENOTDIR => ErrorKind::NotADirectory,
        c::ENOTEMPTY => ErrorKind::DirectoryNotEmpty,
        c::EPIPE => ErrorKind::BrokenPipe,
        c::EROFS => ErrorKind::ReadOnlyFilesystem,
        c::ESPIPE => ErrorKind::NotSeekable,
        c::ETXTBSY => ErrorKind::ExecutableFileBusy,
        c::EXDEV => ErrorKind::CrossesDevices,
        c::EUNSUPPORTED => ErrorKind::Unsupported,
        c::EBADH => ErrorKind::InvalidInput,
        c::EACCES | c::EPERM => ErrorKind::PermissionDenied,
        x if x == c::EAGAIN || x == c::EWOULDBLOCK => ErrorKind::WouldBlock,
        _ => ErrorKind::Uncategorized,
    }
}

/// Whether an error number reports an interrupted call.
pub fn is_interrupted(errno: i32) -> (r: bool)
    ensures
        r == (errno == c::EINTR),
{
    errno == c::EINTR
}

impl Error {
    /// The kind of this error: decoded from the error number for a raw OS
    /// error, stored for the others.
    pub open spec fn spec_kind(self) -> ErrorKind {
        match self {
            Error::Os(code) => spec_decode_error_kind(code),
            Error::Simple { kind, .. } => kind,
        }
    }

    /// Whether this is the error with the given kind and message.
    pub open spec fn is_simple(self, kind: ErrorKind, message: Seq<char>) -> bool {
        match self {
            Error::Simple { kind: k, message: m } => k == kind && m@ == message,
            Error::Os(_) => false,
        }
    }

    /// An error carrying a raw VesperaOS error number.
    pub fn from_raw_os_error(code: i32) -> (e: Error)
        ensures
            e == Error::Os(code),
    {
        Error::Os(code)
    }

    /// The kind of this error.
    pub fn kind(&self) -> (k: ErrorKind)
        ensures
            k == self.spec_kind(),
    {
        match self {
            Error::Os(code) => decode_error_kind(*code),
            Error::Simple { kind, .. } => *kind,
        }
    }

    /// The raw error number, for a raw OS error.
    pub fn raw_os_error(&self) -> (r: Option<i32>)
        ensures
            r == (match self {
                Error::Os(code) => Some(*code),
                _ => None::<i32>,
            }),
    {
        match self {
            Error::Os(code) => Some(*code),
            Error::Simple { .. } => None,
        }
    }

    /// The fixed message, for an error that is not a raw OS error.
    pub fn message(&self) -> (r: Option<&'static str>)
        ensures
            r == (match self {
                Error::Simple { message, .. } => Some(*message),
                _ => None::<&'static str>,
            }),
    {
        match self {
            Error::Os(_) => None,
            Error::Simple { message, .. } => Some(*message),
        }
    }
}

/// The message of the error that an unsupported operation reports.
pub open spec fn unsupported_message() -> Seq<char> {
    "operation not supported on this platform"@
}

/// Whether `e` is the error that an unsupported operation reports.
pub open spec fn is_unsupported_error(e: Error) -> bool {
    e.is_simple(ErrorKind::Unsupported, unsupported_message())
}

/// The error that an operation VesperaOS does not offer reports.
pub fn unsupported_err() -> (e: Error)
    ensures
        is_unsupported_error(e),
{
    let message = "operation not supported on this platform";
    proof {
        reveal_strlit("operation not supported on this platform");
    }
    Error::Simple { kind: ErrorKind::Unsupported, message }
}

/// Fails with the error that an operation VesperaOS does not offer reports.
pub fn unsupported<T>() -> (r: Result<T, Error>)
    ensures
        r matches Err(e) && is_unsupported_error(e),
{
    Err(unsupported_err())
}

/// The error for a negative return value `ret` of a system call that
/// reports failures as negated error numbers.
pub fn map_err(ret: i64) -> (e: Error)
    requires
        ret > i64::MIN,
    ensures
        e == Error::Os((-ret) as i32),
{
    Error::from_raw_os_error((-ret) as i32)
}

/// Converts the return value of a read or write call: a negative value is
/// a negated error number, any other value the number of bytes moved.
pub fn cvt_count(ret: isize) -> (r: Result<usize, Error>)
    requires
        ret > isize::MIN,
    ensures
        ret < 0 ==> r == Err::<usize, Error>(Error::Os((-ret) as i32)),
        ret >= 0 ==> r == Ok::<usize, Error>(ret as usize),
{
    if ret < 0 {
        Err(Error::from_raw_os_error((-ret) as i32))
    } else {
        Ok(ret as usize)
    }
}

/// Converts a status return value of a C library call that reports failure
/// as a nonzero value and leaves the error number in `errno`.
pub fn cvt_status(ret: i32, errno: i32) -> (r: Result<(), Error>)
    ensures
        ret == 0 ==> r == Ok::<(), Error>(()),
        ret != 0 ==> r == Err::<(), Error>(Error::Os(errno)),
{
    if ret == 0 { Ok(()) } else { Err(Error::from_raw_os_error(errno)) }
}

/// The description of an error number: the C library's description when
/// it has one (`strerror` gave `described`), otherwise `Unknown error`
/// followed by the number.
pub fn error_string(errno: i32, described: Option<String>) -> (r: String)
    ensures
        described matches Some(d) ==> r@ == d@,
        described is None ==> r@ == "Unknown error "@ + crate::decimal::decimal(errno as int),
{
    match described {
        Some(d) => d,
        None => {
            let mut s = "Unknown error ".to_owned();
            crate::decimal::push_decimal(&mut s, errno as i64);
            s
        },
    }
}

} // verus!
