//! Files, directories and their metadata: how the platform layer turns
//! open options into open flags, interprets the records and return values
//! of the file system calls, and which operations it does not offer.
use vstd::prelude::*;
use crate::c;
use crate::error::{Error, ErrorKind, cvt_count, is_unsupported_error, map_err, unsupported};
use crate::paths::{join_path, path_join};
use crate::time::SystemTime;
use crate::util::{copy_bytes, is_until_nul, until_nul};

verus! {

/// The write permission bits of all three classes (`0o222`).
pub const WRITE_BITS: u16 = 0o222;

/// The owner's write permission bit (`0o200`).
pub const OWNER_WRITE_BIT: u16 = 0o200;

/// The metadata of a file system node, as `sys_stat` reports it.
#[derive(Clone, Copy, Debug)]
pub struct FileAttr {
    stat: c::vespera_stat,
}

impl FileAttr {
    /// The record this metadata was read from.
    pub closed spec fn spec_stat(&self) -> c::vespera_stat {
        self.stat
    }

    /// Metadata read from a `sys_stat` record.
    pub fn from_stat(stat: c::vespera_stat) -> (a: FileAttr)
        ensures
            a.spec_stat() == stat,
    {
        FileAttr { stat }
    }

    /// The size in bytes.
    pub fn size(&self) -> (r: u64)
        ensures
            r == self.spec_stat().size,
    {
        self.stat.size
    }

    /// The permission bits.
    pub fn perm(&self) -> (r: FilePermissions)
        ensures
            r.spec_mode() == self.spec_stat().mode,
    {
        FilePermissions { mode: self.stat.mode }
    }

    /// The type of the node.
    pub fn file_type(&self) -> (r: FileType)
        ensures
            r.spec_node_type() == self.spec_stat().node_type,
    {
        FileType { node_type: self.stat.node_type }
    }

    /// The time of the last modification (whole seconds).
    pub fn modified(&self) -> (r: Result<SystemTime, Error>)
        ensures
            r matches Ok(t) && t.t.spec_sec() == self.spec_stat().mtime && t.t.spec_nsec() == 0,
    {
        SystemTime::new(self.stat.mtime as i64, 0)
    }

    /// The time of the last access (whole seconds).
    pub fn accessed(&self) -> (r: Result<SystemTime, Error>)
        ensures
            r matches Ok(t) && t.t.spec_sec() == self.spec_stat().atime && t.t.spec_nsec() == 0,
    {
        SystemTime::new(self.stat.atime as i64, 0)
    }

    /// The time of creation (whole seconds).
    pub fn created(&self) -> (r: Result<SystemTime, Error>)
        ensures
            r matches Ok(t) && t.t.spec_sec() == self.spec_stat().crtime && t.t.spec_nsec() == 0,
    {
        SystemTime::new(self.stat.crtime as i64, 0)
    }
}

/// The permission bits of a node.
#[derive(Clone, Copy, PartialEq, Eq, Debug, Structural)]
pub struct FilePermissions {
    mode: u16,
}

impl FilePermissions {
    /// The mode bits.
    pub closed spec fn spec_mode(&self) -> u16 {
        self.mode
    }

    /// Whether these bits forbid writing: no class may write.
    pub open spec fn spec_readonly(&self) -> bool {
        self.spec_mode() & WRITE_BITS == 0
    }

    /// Permissions with the given mode bits.
    pub fn from_mode(mode: u16) -> (p: FilePermissions)
        ensures
            p.spec_mode() == mode,
    {
        FilePermissions { mode }
    }

    /// The mode bits.
    pub fn mode(&self) -> (m: u16)
        ensures
            m == self.spec_mode(),
    {
        self.mode
    }

    /// Whether no class may write.
    pub fn readonly(&self) -> (r: bool)
        ensures
            r == self.spec_readonly(),
    {
        self.mode & WRITE_BITS == 0
    }

    /// Makes the permissions read-only by clearing every write bit, or
    /// writable by setting the owner's write bit. The change stays with this
    /// value; VesperaOS has no call that writes mode bits back.
    pub fn set_readonly(&mut self, readonly: bool)
        ensures
            readonly ==> final(self).spec_mode() == old(self).spec_mode() & !WRITE_BITS,
            !readonly ==> final(self).spec_mode() == old(self).spec_mode() | OWNER_WRITE_BIT,
            final(self).spec_readonly() == readonly,
    {
        let m = self.mode;
        if readonly {
            self.mode = m & !WRITE_BITS;
            assert((m & !0o222u16) & 0o222u16 == 0) by (bit_vector);
        } else {
            self.mode = m | OWNER_WRITE_BIT;
            assert((m | 0o200u16) & 0o222u16 != 0) by (bit_vector);
        }
    }
}

/// Making permissions read-only and then writable again leaves the owner
/// able to write and every bit other than the write bits as it was.
pub proof fn lemma_readonly_roundtrip(mode: u16)
    ensures
        ((mode & !WRITE_BITS) | OWNER_WRITE_BIT) & !WRITE_BITS == mode & !WRITE_BITS,
        ((mode & !WRITE_BITS) | OWNER_WRITE_BIT) & WRITE_BITS == OWNER_WRITE_BIT,
{
    assert(((mode & !0o222u16) | 0o200u16) & !0o222u16 == mode & !0o222u16) by (bit_vector);
    assert(((mode & !0o222u16) | 0o200u16) & 0o222u16 == 0o200u16) by (bit_vector);
}

/// The type of a node.
#[derive(Clone, Copy, PartialEq, Eq, Debug, Hash, Structural)]
pub struct FileType {
    node_type: u8,
}

impl FileType {
    /// The node type code.
    pub closed spec fn spec_node_type(&self) -> u8 {
        self.node_type
    }

    /// The type with the given node type code.
    pub fn from_node_type(node_type: u8) -> (t: FileType)
        ensures
            t.spec_node_type() == node_type,
    {
        FileType { node_type }
    }

    /// Whether the node is a directory.
    pub fn is_dir(&self) -> (r: bool)
        ensures
            r == (self.spec_node_type() == c::VSTAT_TYPE_DIR),
    {
        self.node_type as u32 == c::VSTAT_TYPE_DIR
    }

    /// Whether the node is a regular file.
    pub fn is_file(&self) -> (r: bool)
        ensures
            r == (self.spec_node_type() == c::VSTAT_TYPE_FILE),
    {
        self.node_type as u32 == c::VSTAT_TYPE_FILE
    }

    /// Whether the node is a symbolic link.
    pub fn is_symlink(&self) -> (r: bool)
        ensures
            r == (self.spec_node_type() == c::VSTAT_TYPE_SYMLINK),
    {
        self.node_type as u32 == c::VSTAT_TYPE_SYMLINK
    }
}

/// A node is at most one of directory, regular file and symbolic link.
pub proof fn lemma_file_type_exclusive(t: FileType)
    ensures
        !(t.spec_node_type() == c::VSTAT_TYPE_DIR && t.spec_node_type() == c::VSTAT_TYPE_FILE),
        !(t.spec_node_type() == c::VSTAT_TYPE_DIR && t.spec_node_type() == c::VSTAT_TYPE_SYMLINK),
        !(t.spec_node_type() == c::VSTAT_TYPE_FILE && t.spec_node_type() == c::VSTAT_TYPE_SYMLINK),
{
}

/// Times to set on a file; VesperaOS keeps none of them.
#[derive(Copy, Clone, Debug, Default)]
pub struct FileTimes {}

impl FileTimes {
    /// Records an access time; VesperaOS has nowhere to keep it.
    pub fn set_accessed(&mut self, _t: SystemTime)
        ensures
            *final(self) == *old(self),
    {
    }

    /// Records a modification time; VesperaOS has nowhere to keep it.
    pub fn set_modified(&mut self, _t: SystemTime)
        ensures
            *final(self) == *old(self),
    {
    }
}

/// How a file is to be opened.
#[derive(Clone, Copy, Debug)]
pub struct OpenOptions {
    pub read: bool,
    pub write: bool,
    pub append: bool,
    pub truncate: bool,
    pub create: bool,
    pub create_new: bool,
}

/// The access-mode flags for the options: appending opens for writing (and
/// for reading when asked) with `O_APPEND`; otherwise reading and writing
/// select read-only, write-only or read-write. `None` when the options ask
/// for no access at all.
pub open spec fn spec_access_flags(o: OpenOptions) -> Option<u32> {
    if o.append {
        if o.read { Some(c::O_RDWR | c::O_APPEND) } else { Some(c::O_WRONLY | c::O_APPEND) }
    } else if o.read && o.write {
        Some(c::O_RDWR)
    } else if o.read {
        Some(c::O_RDONLY)
    } else if o.write {
        Some(c::O_WRONLY)
    } else {
        None
    }
}

/// The creation flags for the options: `O_CREAT | O_EXCL` for a file that
/// must be new, `O_CREAT` for one that may be created, none otherwise.
pub open spec fn spec_creation_flags(o: OpenOptions) -> u32 {
    if o.create_new { c::O_CREAT | c::O_EXCL } else if o.create { c::O_CREAT } else { 0 }
}

/// The truncation flag for the options.
pub open spec fn spec_truncate_flags(o: OpenOptions) -> u32 {
    if o.truncate { c::O_TRUNC } else { 0 }
}

/// Whether `e` is the error for options that ask for no access.
pub open spec fn is_no_access_error(e: Error) -> bool {
    e.is_simple(
        ErrorKind::InvalidInput,
        "OpenOptions: at least one of read/write/append must be set"@,
    )
}

impl OpenOptions {
    /// Options that ask for nothing.
    pub fn new() -> (o: OpenOptions)
        ensures
            !o.read && !o.write && !o.append && !o.truncate && !o.create && !o.create_new,
    {
        OpenOptions {
            read: false,
            write: false,
            append: false,
            truncate: false,
            create: false,
            create_new: false,
        }
    }

    /// Sets whether the file is opened for reading.
    pub fn read(&mut self, read: bool)
        ensures
            *final(self) == (OpenOptions { read, ..*old(self) }),
    {
        self.read = read;
    }

    /// Sets whether the file is opened for writing.
    pub fn write(&mut self, write: bool)
        ensures
            *final(self) == (OpenOptions { write, ..*old(self) }),
    {
        self.write = write;
    }

    /// Sets whether writes go to the end of the file.
    pub fn append(&mut self, append: bool)
        ensures
            *final(self) == (OpenOptions { append, ..*old(self) }),
    {
        self.append = append;
    }

    /// Sets whether the file is cut to length zero on opening.
    pub fn truncate(&mut self, truncate: bool)
        ensures
            *final(self) == (OpenOptions { truncate, ..*old(self) }),
    {
        self.truncate = truncate;
    }

    /// Sets whether the file is created when it does not exist.
    pub fn create(&mut self, create: bool)
        ensures
            *final(self) == (OpenOptions { create, ..*old(self) }),
    {
        self.create = create;
    }

    /// Sets whether the file must not exist yet and is created.
    pub fn create_new(&mut self, create_new: bool)
        ensures
            *final(self) == (OpenOptions { create_new, ..*old(self) }),
    {
        self.create_new = create_new;
    }

    /// The flags for `open`: the access mode, then the creation and
    /// truncation flags. Fails with `InvalidInput` when none of read, write
    /// and append is set.
    pub fn flags(&self) -> (r: Result<i32, Error>)
        ensures
            spec_access_flags(*self) is None ==> (r matches Err(e) && is_no_access_error(e)),
            spec_access_flags(*self) matches Some(a) ==> r == Ok::<i32, Error>(
                ((a | spec_creation_flags(*self)) | spec_truncate_flags(*self)) as i32,
            ),
    {
        let mut flags: u32 = if self.append {
            if self.read {
                c::O_RDWR | c::O_APPEND
            } else {
                c::O_WRONLY | c::O_APPEND
            }
        } else if self.read && self.write {
            c::O_RDWR
        } else if self.read {
            c::O_RDONLY
        } else if self.write {
            c::O_WRONLY
        } else {
            let message = "OpenOptions: at least one of read/write/append must be set";
            proof {
                reveal_strlit("OpenOptions: at least one of read/write/append must be set");
            }
            return Err(Error::Simple { kind: ErrorKind::InvalidInput, message });
        };
        let ghost access = flags;
        if self.create_new {
            flags = flags | (c::O_CREAT | c::O_EXCL);
        } else if self.create {
            flags = flags | c::O_CREAT;
        } else {
            assert(flags | 0 == flags) by (bit_vector);
        }
        let ghost created = flags;
        assert(created == access | spec_creation_flags(*self));
        if self.truncate {
            flags = flags | c::O_TRUNC;
        } else {
            assert(flags | 0 == flags) by (bit_vector);
        }
        Ok(flags as i32)
    }
}

/// What the open flags say: `O_APPEND` is set exactly when appending,
/// `O_CREAT` exactly when the file may or must be created, `O_EXCL` exactly
/// when it must be new, `O_TRUNC` exactly when it is truncated, and the
/// access mode (the two lowest bits) is read-write exactly when reading
/// together with writing or appending, write-only exactly when writing or
/// appending without reading, and read-only otherwise.
pub proof fn lemma_flags_decode(o: OpenOptions)
    requires
        spec_access_flags(o) is Some,
    ensures
        ({
            let f = (spec_access_flags(o).unwrap() | spec_creation_flags(o)) | spec_truncate_flags(o);
            &&& (f & c::O_APPEND != 0) == o.append
            &&& (f & c::O_CREAT != 0) == (o.create || o.create_new)
            &&& (f & c::O_EXCL != 0) == o.create_new
            &&& (f & c::O_TRUNC != 0) == o.truncate
            &&& ((f & 3) == c::O_RDWR) == (o.read && (o.write || o.append))
            &&& ((f & 3) == c::O_WRONLY) == (!o.read && (o.write || o.append))
            &&& ((f & 3) == c::O_RDONLY) == (o.read && !o.write && !o.append)
        }),
{
    assert((2u32 | 1024u32) == 1026u32) by (bit_vector);
    assert((1u32 | 1024u32) == 1025u32) by (bit_vector);
    assert((64u32 | 128u32) == 192u32) by (bit_vector);
    let a = spec_access_flags(o).unwrap();
    let cr = spec_creation_flags(o);
    let t = spec_truncate_flags(o);
    assert(a == 2u32 || a == 1u32 || a == 0u32 || a == 1026u32 || a == 1025u32);
    assert(cr == 0u32 || cr == 64u32 || cr == 192u32);
    assert(t == 0u32 || t == 512u32);
    assert(
        (a == 2u32 || a == 1u32 || a == 0u32 || a == 1026u32 || a == 1025u32)
        && (cr == 0u32 || cr == 64u32 || cr == 192u32)
        && (t == 0u32 || t == 512u32)
        ==> {
            let f = (a | cr) | t;
            &&& (f & 1024u32 != 0) == (a == 1026u32 || a == 1025u32)
            &&& (f & 64u32 != 0) == (cr != 0u32)
            &&& (f & 128u32 != 0) == (cr == 192u32)
            &&& (f & 512u32 != 0) == (t == 512u32)
            &&& (a == 2u32 || a == 1026u32) ==> (f & 3u32) == 2u32
            &&& (a == 1u32 || a == 1025u32) ==> (f & 3u32) == 1u32
            &&& a == 0u32 ==> (f & 3u32) == 0u32
        }
    ) by (bit_vector);
}

/// Why an attempt to lock a file without waiting failed.
#[derive(Debug)]
pub enum TryLockError {
    Error(Error),
    WouldBlock,
}

/// Whether `e` is the error for file locking, which VesperaOS lacks.
pub open spec fn is_lock_unsupported_error(e: TryLockError) -> bool {
    e matches TryLockError::Error(inner) && inner.is_simple(
        ErrorKind::Unsupported,
        "file locking not supported on VesperaOS"@,
    )
}

/// Where a seek is measured from, and how far.
#[derive(Clone, Copy, Debug, PartialEq, Eq, Structural)]
pub enum SeekFrom {
    Start(u64),
    End(i64),
    Current(i64),
}

/// An open file.
#[derive(Debug)]
pub struct File {
    handle: c::HANDLE,
}

/// The outcome of `open`: the handle `u64::MAX` reports failure, with the
/// error left in `errno`.
pub fn open_result(handle: c::HANDLE, errno: i32) -> (r: Result<File, Error>)
    ensures
        handle == u64::MAX ==> r == Err::<File, Error>(Error::Os(errno)),
        handle != u64::MAX ==> (r matches Ok(f) && f.spec_handle() == handle),
{
    if handle == u64::MAX {
        return Err(Error::from_raw_os_error(errno));
    }
    Ok(File { handle })
}

impl File {
    /// The kernel handle of the file.
    pub closed spec fn spec_handle(&self) -> c::HANDLE {
        self.handle
    }

    /// The kernel handle of the file.
    pub fn as_raw_handle(&self) -> (h: c::HANDLE)
        ensures
            h == self.spec_handle(),
    {
        self.handle
    }

    /// The metadata of the open file: VesperaOS can only report metadata
    /// by path, so this is unsupported.
    pub fn file_attr(&self) -> (r: Result<FileAttr, Error>)
        ensures
            r matches Err(e) && is_unsupported_error(e),
    {
        unsupported()
    }

    /// Flushes file data to storage; VesperaOS writes through, so there is
    /// nothing to do.
    pub fn fsync(&self) -> (r: Result<(), Error>)
        ensures
            r is Ok,
    {
        Ok(())
    }

    /// Flushes file contents to storage; nothing to do, as for `fsync`.
    pub fn datasync(&self) -> (r: Result<(), Error>)
        ensures
            r is Ok,
    {
        Ok(())
    }

    /// Takes an exclusive lock: unsupported.
    pub fn lock(&self) -> (r: Result<(), Error>)
        ensures
            r matches Err(e) && is_unsupported_error(e),
    {
        unsupported()
    }

    /// Takes a shared lock: unsupported.
    pub fn lock_shared(&self) -> (r: Result<(), Error>)
        ensures
            r matches Err(e) && is_unsupported_error(e),
    {
        unsupported()
    }

    fn lock_unsupported() -> (r: Result<(), TryLockError>)
        ensures
            r matches Err(e) && is_lock_unsupported_error(e),
    {
        let message = "file locking not supported on VesperaOS";
        proof {
            reveal_strlit("file locking not supported on VesperaOS");
        }
        Err(TryLockError::Error(Error::Simple { kind: ErrorKind::Unsupported, message }))
    }

    /// Tries to take an exclusive lock: file locking is not supported.
    pub fn try_lock(&self) -> (r: Result<(), TryLockError>)
        ensures
            r matches Err(e) && is_lock_unsupported_error(e),
    {
        Self::lock_unsupported()
    }

    /// Tries to take a shared lock: file locking is not supported.
    pub fn try_lock_shared(&self) -> (r: Result<(), TryLockError>)
        ensures
            r matches Err(e) && is_lock_unsupported_error(e),
    {
        Self::lock_unsupported()
    }

    /// Releases a lock: unsupported.
    pub fn unlock(&self) -> (r: Result<(), Error>)
        ensures
            r matches Err(e) && is_unsupported_error(e),
    {
        unsupported()
    }

    /// Sets the length of the file: unsupported.
    pub fn truncate(&self, _size: u64) -> (r: Result<(), Error>)
        ensures
            r matches Err(e) && is_unsupported_error(e),
    {
        unsupported()
    }

    /// Vectored reads are not native: they read into one buffer at a time.
    pub fn is_read_vectored(&self) -> (r: bool)
        ensures
            !r,
    {
        false
    }

    /// Vectored writes are not native: they write one buffer at a time.
    pub fn is_write_vectored(&self) -> (r: bool)
        ensures
            !r,
    {
        false
    }

    /// Flushes buffered writes; files are not buffered here.
    pub fn flush(&self) -> (r: Result<(), Error>)
        ensures
            r is Ok,
    {
        Ok(())
    }

    /// The size of the file, when it is cheap to know: never.
    pub fn size(&self) -> (r: Option<Result<u64, Error>>)
        ensures
            r is None,
    {
        None
    }

    /// The arguments of the `lseek` call for a seek: the offset and the
    /// origin (`SEEK_SET`, `SEEK_END` or `SEEK_CUR`). An offset from the
    /// start is reinterpreted as a signed offset.
    pub fn seek_args(pos: SeekFrom) -> (r: (i64, u32))
        ensures
            pos matches SeekFrom::Start(off) ==> r == (off as i64, c::SEEK_SET),
            pos matches SeekFrom::End(off) ==> r == (off, c::SEEK_END),
            pos matches SeekFrom::Current(off) ==> r == (off, c::SEEK_CUR),
    {
        match pos {
            SeekFrom::Start(off) => (off as i64, c::SEEK_SET),
            SeekFrom::End(off) => (off, c::SEEK_END),
            SeekFrom::Current(off) => (off, c::SEEK_CUR),
        }
    }

    /// The outcome of `lseek`: the new position, or a negated error number.
    pub fn seek_result(ret: i64) -> (r: Result<u64, Error>)
        requires
            ret > i64::MIN,
        ensures
            ret < 0 ==> r == Err::<u64, Error>(Error::Os((-ret) as i32)),
            ret >= 0 ==> r == Ok::<u64, Error>(ret as u64),
    {
        if ret < 0 {
            Err(map_err(ret))
        } else {
            Ok(ret as u64)
        }
    }

    /// The arguments of the `lseek` call that reports the current position.
    pub fn tell_args() -> (r: (i64, u32))
        ensures
            r == (0i64, c::SEEK_CUR),
    {
        Self::seek_args(SeekFrom::Current(0))
    }

    /// The outcome of a `read` or `write` call on the file.
    pub fn transfer_result(ret: isize) -> (r: Result<usize, Error>)
        requires
            ret > isize::MIN,
        ensures
            ret < 0 ==> r == Err::<usize, Error>(Error::Os((-ret) as i32)),
            ret >= 0 ==> r == Ok::<usize, Error>(ret as usize),
    {
        cvt_count(ret)
    }

    /// Opens a second handle to the file: unsupported.
    pub fn duplicate(&self) -> (r: Result<File, Error>)
        ensures
            r matches Err(e) && is_unsupported_error(e),
    {
        unsupported()
    }

    /// Changes the permissions of the file: unsupported.
    pub fn set_permissions(&self, _perm: FilePermissions) -> (r: Result<(), Error>)
        ensures
            r matches Err(e) && is_unsupported_error(e),
    {
        unsupported()
    }

    /// Changes the times of the file: unsupported.
    pub fn set_times(&self, _times: FileTimes) -> (r: Result<(), Error>)
        ensures
            r matches Err(e) && is_unsupported_error(e),
    {
        unsupported()
    }
}

/// Creates directories.
#[derive(Debug)]
pub struct DirBuilder {}

impl DirBuilder {
    /// A directory builder.
    pub fn new() -> (b: DirBuilder) {
        DirBuilder {}
    }
}

/// The outcome of a C library call that reports success with `0` and
/// failure with any other value, the error left in `errno` (as `mkdir`,
/// `rmdir`, `unlink` and `rename` do).
pub fn path_call_result(ret: i32, errno: i32) -> (r: Result<(), Error>)
    ensures
        ret == 0 ==> r == Ok::<(), Error>(()),
        ret != 0 ==> r == Err::<(), Error>(Error::Os(errno)),
{
    crate::error::cvt_status(ret, errno)
}

/// An open directory being listed.
pub struct ReadDir {
    handle: c::DIR_HANDLE,
    dir_path: Vec<u8>,
}

/// The outcome of `opendir`: the handle `u64::MAX` reports failure, with
/// the error left in `errno`; otherwise the listing of `path` begins.
pub fn readdir(path: &[u8], handle: c::DIR_HANDLE, errno: i32) -> (r: Result<ReadDir, Error>)
    ensures
        handle == u64::MAX ==> r == Err::<ReadDir, Error>(Error::Os(errno)),
        handle != u64::MAX ==> (r matches Ok(d) && d.spec_handle() == handle
            && d.spec_dir_path() == path@),
{
    if handle == u64::MAX {
        return Err(Error::from_raw_os_error(errno));
    }
    Ok(ReadDir { handle, dir_path: copy_bytes(path) })
}

impl ReadDir {
    /// The kernel handle of the directory.
    pub closed spec fn spec_handle(&self) -> c::DIR_HANDLE {
        self.handle
    }

    /// The path of the directory being listed.
    pub closed spec fn spec_dir_path(&self) -> Seq<u8> {
        self.dir_path@
    }

    /// The kernel handle of the directory.
    pub fn as_raw_handle(&self) -> (h: c::DIR_HANDLE)
        ensures
            h == self.spec_handle(),
    {
        self.handle
    }

    /// The path of the directory being listed (the one field that the
    /// `Debug` output of a listing shows).
    pub fn dir_path(&self) -> (p: Vec<u8>)
        ensures
            p@ == self.spec_dir_path(),
    {
        copy_bytes(self.dir_path.as_slice())
    }

    /// The next entry, from the outcome of one `readdir` call that filled
    /// `entry`: `0` ends the listing, a negative value is a negated error
    /// number, and any other value means `entry` holds the next entry.
    pub fn next_entry(&self, ret: isize, entry: &c::dirent_t) -> (r: Option<Result<DirEntry, Error>>)
        requires
            ret > isize::MIN,
        ensures
            ret == 0 ==> r is None,
            ret < 0 ==> r == Some(Err::<DirEntry, Error>(Error::Os((-ret) as i32))),
            ret > 0 ==> (r matches Some(Ok(d)) && d.spec_dir_path() == self.spec_dir_path()
                && is_until_nul(entry.name@, d.spec_file_name()) && d.spec_node_type()
                == entry.type_),
    {
        if ret == 0 {
            return None;
        }
        if ret < 0 {
            return Some(Err(map_err(ret as i64)));
        }
        let file_name = until_nul(&entry.name);
        Some(Ok(DirEntry { dir_path: copy_bytes(self.dir_path.as_slice()), file_name, node_type: entry.type_ }))
    }
}

/// An entry of a directory listing.
#[derive(Debug)]
pub struct DirEntry {
    dir_path: Vec<u8>,
    file_name: Vec<u8>,
    node_type: u32,
}

impl DirEntry {
    /// The path of the listed directory.
    pub closed spec fn spec_dir_path(&self) -> Seq<u8> {
        self.dir_path@
    }

    /// The name of the entry.
    pub closed spec fn spec_file_name(&self) -> Seq<u8> {
        self.file_name@
    }

    /// The entry type code reported by `readdir`.
    pub closed spec fn spec_node_type(&self) -> u32 {
        self.node_type
    }

    /// The path of the entry: its name joined onto the directory's path.
    pub fn path(&self) -> (p: Vec<u8>)
        ensures
            p@ == path_join(self.spec_dir_path(), self.spec_file_name()),
    {
        join_path(self.dir_path.as_slice(), self.file_name.as_slice())
    }

    /// The name of the entry.
    pub fn file_name(&self) -> (n: Vec<u8>)
        ensures
            n@ == self.spec_file_name(),
    {
        copy_bytes(self.file_name.as_slice())
    }

    /// The type of the entry: the low byte of the entry type code.
    pub fn file_type(&self) -> (r: Result<FileType, Error>)
        ensures
            r matches Ok(t) && t.spec_node_type() == self.spec_node_type() as u8,
    {
        Ok(FileType { node_type: self.node_type as u8 })
    }
}

/// Changes the permissions of a path: unsupported.
pub fn set_perm(_p: &[u8], _perm: FilePermissions) -> (r: Result<(), Error>)
    ensures
        r matches Err(e) && is_unsupported_error(e),
{
    unsupported()
}

/// Changes the times of a path: unsupported.
pub fn set_times(_p: &[u8], _times: FileTimes) -> (r: Result<(), Error>)
    ensures
        r matches Err(e) && is_unsupported_error(e),
{
    unsupported()
}

/// Changes the times of a path without following a final link:
/// unsupported.
pub fn set_times_nofollow(_p: &[u8], _times: FileTimes) -> (r: Result<(), Error>)
    ensures
        r matches Err(e) && is_unsupported_error(e),
{
    unsupported()
}

/// Reads the target of a symbolic link: unsupported.
pub fn readlink(_p: &[u8]) -> (r: Result<Vec<u8>, Error>)
    ensures
        r matches Err(e) && is_unsupported_error(e),
{
    unsupported()
}

/// Creates a symbolic link: unsupported.
pub fn symlink(_original: &[u8], _link: &[u8]) -> (r: Result<(), Error>)
    ensures
        r matches Err(e) && is_unsupported_error(e),
{
    unsupported()
}

/// Creates a hard link: unsupported.
pub fn link(_src: &[u8], _dst: &[u8]) -> (r: Result<(), Error>)
    ensures
        r matches Err(e) && is_unsupported_error(e),
{
    unsupported()
}

/// Resolves a path to its canonical form: unsupported.
pub fn canonicalize(_p: &[u8]) -> (r: Result<Vec<u8>, Error>)
    ensures
        r matches Err(e) && is_unsupported_error(e),
{
    unsupported()
}

/// The outcome of `sys_stat`: a negative value is a negated error number;
/// otherwise the record holds the metadata.
pub fn stat_result(ret: i64, stat: c::vespera_stat) -> (r: Result<FileAttr, Error>)
    requires
        ret > i64::MIN,
    ensures
        ret < 0 ==> r == Err::<FileAttr, Error>(Error::Os((-ret) as i32)),
        ret >= 0 ==> (r matches Ok(a) && a.spec_stat() == stat),
{
    if ret < 0 {
        return Err(map_err(ret));
    }
    Ok(FileAttr { stat })
}

/// Whether a path exists, from the outcome of looking it up: it exists
/// when the lookup succeeded, does not when it failed with `NotFound`, and
/// any other failure is passed on.
pub fn path_exists(stat: Result<FileAttr, Error>) -> (r: Result<bool, Error>)
    ensures
        stat is Ok ==> r == Ok::<bool, Error>(true),
        stat matches Err(e) ==> (e.spec_kind() == ErrorKind::NotFound ==> r == Ok::<bool, Error>(false)),
        stat matches Err(e) ==> (e.spec_kind() != ErrorKind::NotFound ==> r == Err::<bool, Error>(e)),
{
    match stat {
        Ok(_) => Ok(true),
        Err(e) => {
            if e.kind() == ErrorKind::NotFound {
                Ok(false)
            } else {
                Err(e)
            }
        },
    }
}

/// The next action of a recursive removal.
#[derive(Debug)]
pub enum RemoveAction {
    /// Remove the node at this path, which is not a directory.
    Unlink(Vec<u8>),
    /// Remove everything below the directory at this path, then the
    /// directory itself.
    RemoveTree(Vec<u8>),
}

/// How a recursive removal of `path` begins, given the metadata of the
/// node there: a directory is emptied and removed, anything else unlinked.
pub fn remove_dir_all(path: &[u8], attr: &FileAttr) -> (r: RemoveAction)
    ensures
        attr.spec_stat().node_type == c::VSTAT_TYPE_DIR ==> (r matches RemoveAction::RemoveTree(p)
            && p@ == path@),
        attr.spec_stat().node_type != c::VSTAT_TYPE_DIR ==> (r matches RemoveAction::Unlink(p)
            && p@ == path@),
{
    if attr.file_type().is_dir() {
        RemoveAction::RemoveTree(copy_bytes(path))
    } else {
        RemoveAction::Unlink(copy_bytes(path))
    }
}

/// How a recursive removal treats one entry of a directory it empties: an
/// entry of directory type is removed recursively, any other unlinked.
pub fn remove_entry_action(entry: &DirEntry) -> (r: RemoveAction)
    ensures
        entry.spec_node_type() as u8 == c::VSTAT_TYPE_DIR ==> (r matches RemoveAction::RemoveTree(p)
            && p@ == path_join(entry.spec_dir_path(), entry.spec_file_name())),
        entry.spec_node_type() as u8 != c::VSTAT_TYPE_DIR ==> (r matches RemoveAction::Unlink(p)
            && p@ == path_join(entry.spec_dir_path(), entry.spec_file_name())),
{
    let p = entry.path();
    match entry.file_type() {
        Ok(t) => {
            if t.is_dir() {
                RemoveAction::RemoveTree(p)
            } else {
                RemoveAction::Unlink(p)
            }
        },
        Err(_) => RemoveAction::Unlink(p),
    }
}

/// What a recursive removal does next while it empties a directory.
#[derive(Debug)]
pub enum ListingStep {
    /// Remove this entry, then read the next one.
    Act(RemoveAction),
    /// Read the next entry of the listing.
    ReadNext,
    /// The listing has ended: close it and remove the emptied directory at
    /// this path.
    RemoveDir(Vec<u8>),
    /// Stop: close the listing and report this error.
    Fail(Error),
}

/// The step of a recursive removal of the directory `dir` after the
/// listing yielded `next`: its end removes the directory, an error stops
/// the removal, and an entry is removed as `remove_entry_action` says.
pub fn remove_listing_step(dir: &[u8], next: Option<Result<DirEntry, Error>>) -> (r: ListingStep)
    ensures
        next is None ==> (r matches ListingStep::RemoveDir(p) && p@ == dir@),
        next matches Some(Err(e)) ==> (r matches ListingStep::Fail(f) && f == e),
        next matches Some(Ok(en)) ==> (en.spec_node_type() as u8 == c::VSTAT_TYPE_DIR ==> (r matches ListingStep::Act(RemoveAction::RemoveTree(p))
            && p@ == path_join(en.spec_dir_path(), en.spec_file_name()))),
        next matches Some(Ok(en)) ==> (en.spec_node_type() as u8 != c::VSTAT_TYPE_DIR ==> (r matches ListingStep::Act(RemoveAction::Unlink(p))
            && p@ == path_join(en.spec_dir_path(), en.spec_file_name()))),
{
    match next {
        None => ListingStep::RemoveDir(copy_bytes(dir)),
        Some(Err(e)) => ListingStep::Fail(e),
        Some(Ok(entry)) => ListingStep::Act(remove_entry_action(&entry)),
    }
}

/// The step of a recursive removal after removing one entry gave `done`:
/// go on with the next entry, or stop with the error.
pub fn remove_entry_outcome(done: Result<(), Error>) -> (r: ListingStep)
    ensures
        done is Ok ==> r is ReadNext,
        done matches Err(e) ==> (r matches ListingStep::Fail(f) && f == e),
{
    match done {
        Ok(()) => ListingStep::ReadNext,
        Err(e) => ListingStep::Fail(e),
    }
}

/// The size of the copy buffer.
pub const COPY_BUF_SIZE: usize = 8192;

/// The options the source of a copy is opened with: reading only.
pub fn copy_source_options() -> (o: OpenOptions)
    ensures
        o.read && !o.write && !o.append && !o.truncate && !o.create && !o.create_new,
{
    let mut o = OpenOptions::new();
    o.read(true);
    o
}

/// The options the target of a copy is opened with: writing, created when
/// missing, truncated.
pub fn copy_target_options() -> (o: OpenOptions)
    ensures
        !o.read && o.write && !o.append && o.truncate && o.create && !o.create_new,
{
    let mut o = OpenOptions::new();
    o.write(true);
    o.create(true);
    o.truncate(true);
    o
}

/// One round of a copy: after a read of `n` bytes, `None` when the source
/// is exhausted (`n == 0`), otherwise the count of bytes copied so far once
/// those `n` bytes are written.
pub fn copy(total: u64, n: usize) -> (r: Option<u64>)
    requires
        total + n <= u64::MAX,
    ensures
        n == 0 ==> r is None,
        n != 0 ==> r == Some((total + n) as u64),
{
    if n == 0 {
        None
    } else {
        Some(total + n as u64)
    }
}

} // verus!
