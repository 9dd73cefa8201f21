//! Constants and plain data layouts of the VesperaOS C interface.
use vstd::prelude::*;

verus! {

/// A kernel handle identifier.
pub type HANDLE = u64;

/// A directory handle identifier.
pub type DIR_HANDLE = HANDLE;

/// Clock identifiers.
pub type clockid_t = i32;

// Open flags (fflags.h).
pub const O_RDONLY: u32 = 0;
pub const O_WRONLY: u32 = 1;
pub const O_RDWR: u32 = 2;
pub const O_CREAT: u32 = 64;
pub const O_EXCL: u32 = 128;
pub const O_TRUNC: u32 = 512;
pub const O_APPEND: u32 = 1024;
pub const O_DIRECTORY: u32 = 8192;

// Seek origins.
pub const SEEK_SET: u32 = 0;
pub const SEEK_CUR: u32 = 1;
pub const SEEK_END: u32 = 2;

// Node types reported by `sys_stat`.
pub const VSTAT_TYPE_UNKNOWN: u32 = 0;
pub const VSTAT_TYPE_FILE: u32 = 1;
pub const VSTAT_TYPE_DIR: u32 = 2;
pub const VSTAT_TYPE_CHARDEV: u32 = 4;
pub const VSTAT_TYPE_BLOCKDEV: u32 = 5;
pub const VSTAT_TYPE_SYMLINK: u32 = 3;

// Node flags reported by `sys_stat`.
pub const VSTAT_FLAG_READABLE: u32 = 1;
pub const VSTAT_FLAG_WRITABLE: u32 = 2;
pub const VSTAT_FLAG_EXEC: u32 = 4;
pub const VSTAT_FLAG_VIRTUAL: u32 = 8;
pub const VSTAT_FLAG_PERMANENT: u32 = 16;

// Directory entry types.
pub const DT_UNKNOWN: u32 = 0;
pub const DT_FILE: u32 = 1;
pub const DT_DIR: u32 = 2;
pub const DT_SYMLINK: u32 = 3;
pub const DT_CHARDEV: u32 = 4;
pub const DT_BLOCKDEV: u32 = 5;
pub const DT_FIFO: u32 = 6;
pub const DT_SOCKET: u32 = 7;
pub const DT_EXEC: u32 = 8;

// Clocks.
pub const CLOCK_REALTIME: u32 = 0;
pub const CLOCK_MONOTONIC: u32 = 1;
pub const CLOCK_PROCESS_CPUTIME_ID: u32 = 2;
pub const CLOCK_MONOTONIC_RAW: u32 = 4;
pub const CLOCK_BOOTTIME: u32 = 7;
pub const TIMER_ABSTIME: u32 = 1;

// Error numbers.
pub const SUCCESS_CODE: i32 = 0;
pub const EPERM: i32 = 1;
pub const ENOENT: i32 = 2;
pub const ESRCH: i32 = 3;
pub const EINTR: i32 = 4;
pub const EIO: i32 = 5;
pub const ENXIO: i32 = 6;
pub const E2BIG: i32 = 7;
pub const ENOEXEC: i32 = 8;
pub const EBADH: i32 = 9;
pub const ECHILD: i32 = 10;
pub const EAGAIN: i32 = 11;
pub const ENOMEM: i32 = 12;
pub const EACCES: i32 = 13;
pub const EFAULT: i32 = 14;
pub const EBUSY: i32 = 16;
pub const EEXIST: i32 = 17;
pub const EXDEV: i32 = 18;
pub const ENODEV: i32 = 19;
pub const ENOTDIR: i32 = 20;
pub const EISDIR: i32 = 21;
pub const EINVAL: i32 = 22;
pub const ENFILE: i32 = 23;
pub const EMFILE: i32 = 24;
pub const ENOTTY: i32 = 25;
pub const ETXTBSY: i32 = 26;
pub const EFBIG: i32 = 27;
pub const ENOSPC: i32 = 28;
pub const ESPIPE: i32 = 29;
pub const EROFS: i32 = 30;
pub const EMLINK: i32 = 31;
pub const EPIPE: i32 = 32;
pub const EDOM: i32 = 33;
pub const ERANGE: i32 = 34;
pub const ENAMETOOLONG: i32 = 36;
pub const ENOLCK: i32 = 37;
pub const ENOSYS: i32 = 38;
pub const ENOTEMPTY: i32 = 39;
pub const ELOOP: i32 = 40;
pub const ENOMSG: i32 = 42;
pub const EOVERFLOW: i32 = 75;
pub const EILSEQ: i32 = 84;
pub const EUNKNOWN: i32 = 1000;
pub const EUNSUPPORTED: i32 = 1001;
pub const EDEADLOCK: i32 = 1002;
pub const EWOULDBLOCK: i32 = 11;

/// The record that `sys_stat` fills in.
#[derive(Debug, Copy, Clone)]
pub struct vespera_stat {
    pub node_type: u8,
    pub _pad0: [u8; 3],
    pub flags: u32,
    pub dev_id: u32,
    pub block_size: u32,
    pub inode_id: u64,
    pub size: u64,
    pub blocks: u64,
    pub atime: u32,
    pub mtime: u32,
    pub ctime: u32,
    pub crtime: u32,
    pub mode: u16,
    pub links_count: u16,
    pub uid: u32,
    pub gid: u32,
}

/// A directory entry as `readdir` fills it in: a NUL-terminated name of up
/// to 127 bytes and the entry's type.
#[derive(Debug, Copy, Clone)]
pub struct dirent_t {
    pub name: [u8; 128],
    pub type_: u32,
}

/// A point in time as the clock system calls exchange it.
#[derive(Debug, Copy, Clone, Default)]
pub struct timespec_t {
    pub tv_sec: i64,
    pub tv_nsec: i64,
}

} // verus!
