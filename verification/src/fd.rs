//! Owned kernel handles: the operations VesperaOS offers on them and those
//! it does not.
use vstd::prelude::*;
use crate::c;
use crate::error::{Error, ErrorKind, cvt_count, is_unsupported_error, unsupported};

verus! {

/// An owned kernel handle.
#[derive(Debug)]
pub struct FileDesc(c::HANDLE);

/// The index of the first buffer with room, as the vectored reads and
/// writes use it (they move data through that one buffer), or `None` when
/// every buffer is empty.
pub fn first_nonempty(lens: &[usize]) -> (r: Option<usize>)
    ensures
        r matches Some(i) ==> i < lens@.len() && lens@[i as int] > 0 && forall|j: int|
            0 <= j < i ==> lens@[j] == 0,
        r is None ==> forall|j: int| 0 <= j < lens@.len() ==> lens@[j] == 0,
{
    let mut i: usize = 0;
    while i < lens.len()
        invariant
            i <= lens.len(),
            forall|j: int| 0 <= j < i ==> lens@[j] == 0,
        decreases lens.len() - i,
    {
        if lens[i] > 0 {
            return Some(i);
        }
        i = i + 1;
    }
    None
}

/// What reading a handle to its end does after one read.
#[derive(Debug)]
pub enum ReadToEndStep {
    /// The read found the end: stop, with the total read so far.
    Done(usize),
    /// Keep the `read` bytes just read and go on; `total` counts them too.
    Keep { read: usize, total: usize },
    /// The read was interrupted: read again.
    Retry,
    /// Any other error ends the reading.
    Fail(Error),
}

/// The step of reading to the end after a read that returned `r`, with
/// `total` bytes read before it.
pub fn read_to_end_step(total: usize, r: Result<usize, Error>) -> (s: ReadToEndStep)
    requires
        r matches Ok(n) ==> total + n <= usize::MAX,
    ensures
        r == Ok::<usize, Error>(0) ==> s == ReadToEndStep::Done(total),
        r matches Ok(n) ==> (n > 0 ==> s == (ReadToEndStep::Keep { read: n, total: (total + n) as usize })),
        r matches Err(e) ==> (e.spec_kind() == ErrorKind::Interrupted ==> s == ReadToEndStep::Retry),
        r matches Err(e) ==> (e.spec_kind() != ErrorKind::Interrupted ==> s == ReadToEndStep::Fail(e)),
{
    match r {
        Ok(0) => ReadToEndStep::Done(total),
        Ok(n) => ReadToEndStep::Keep { read: n, total: total + n },
        Err(e) => {
            let k = e.kind();
            match k {
                ErrorKind::Interrupted => ReadToEndStep::Retry,
                _ => ReadToEndStep::Fail(e),
            }
        },
    }
}

impl FileDesc {
    /// The handle this value owns.
    pub closed spec fn spec_handle(&self) -> c::HANDLE {
        self.0
    }

    /// Takes ownership of an open handle.
    pub fn from_raw_handle(handle: c::HANDLE) -> (fd: FileDesc)
        ensures
            fd.spec_handle() == handle,
    {
        FileDesc(handle)
    }

    /// The handle this value owns.
    pub fn as_raw_handle(&self) -> (h: c::HANDLE)
        ensures
            h == self.spec_handle(),
    {
        self.0
    }

    /// Gives up ownership of the handle without closing it.
    pub fn into_raw_handle(self) -> (h: c::HANDLE)
        ensures
            h == self.spec_handle(),
    {
        self.0
    }

    /// The outcome of `sys_dup` on this handle: a negative value is a
    /// negated error number, any other value the new handle.
    pub fn duplicate_result(ret: i64) -> (r: Result<FileDesc, Error>)
        requires
            ret > i64::MIN,
        ensures
            ret < 0 ==> r == Err::<FileDesc, Error>(Error::Os((-ret) as i32)),
            ret >= 0 ==> (r matches Ok(fd) && fd.spec_handle() == ret as u64),
    {
        if ret < 0 {
            return Err(Error::from_raw_os_error((-ret) as i32));
        }
        Ok(FileDesc(ret as u64))
    }

    /// The outcome of a `read` or `write` call on the handle.
    pub fn transfer_result(ret: isize) -> (r: Result<usize, Error>)
        requires
            ret > isize::MIN,
        ensures
            ret < 0 ==> r == Err::<usize, Error>(Error::Os((-ret) as i32)),
            ret >= 0 ==> r == Ok::<usize, Error>(ret as usize),
    {
        cvt_count(ret)
    }

    /// Vectored reads are not native.
    pub fn is_read_vectored(&self) -> (r: bool)
        ensures
            !r,
    {
        false
    }

    /// Vectored writes are not native.
    pub fn is_write_vectored(&self) -> (r: bool)
        ensures
            !r,
    {
        false
    }

    /// Reads at an offset without moving the cursor: VesperaOS has no such
    /// call, so this is unsupported.
    pub fn read_at(&self, _buf: &mut Vec<u8>, _offset: u64) -> (r: Result<usize, Error>)
        ensures
            r matches Err(e) && is_unsupported_error(e),
            final(_buf)@ == old(_buf)@,
    {
        unsupported()
    }

    /// Reads into a cursor at an offset: unsupported.
    pub fn read_buf_at(&self, _cursor: &mut Vec<u8>, _offset: u64) -> (r: Result<(), Error>)
        ensures
            r matches Err(e) && is_unsupported_error(e),
            final(_cursor)@ == old(_cursor)@,
    {
        unsupported()
    }

    /// Reads into several buffers at an offset: unsupported.
    pub fn read_vectored_at(&self, _bufs: &mut Vec<Vec<u8>>, _offset: u64) -> (r: Result<
        usize,
        Error,
    >)
        ensures
            r matches Err(e) && is_unsupported_error(e),
            final(_bufs)@ == old(_bufs)@,
    {
        unsupported()
    }

    /// Writes at an offset without moving the cursor: unsupported.
    pub fn write_at(&self, _buf: &[u8], _offset: u64) -> (r: Result<usize, Error>)
        ensures
            r matches Err(e) && is_unsupported_error(e),
    {
        unsupported()
    }

    /// Writes several buffers at an offset: unsupported.
    pub fn write_vectored_at(&self, _bufs: &Vec<Vec<u8>>, _offset: u64) -> (r: Result<
        usize,
        Error,
    >)
        ensures
            r matches Err(e) && is_unsupported_error(e),
    {
        unsupported()
    }

    /// Flushes buffered writes; handles are not buffered.
    pub fn flush(&self) -> (r: Result<(), Error>)
        ensures
            r is Ok,
    {
        Ok(())
    }

    /// Marks the handle to be closed in spawned programs. VesperaOS passes
    /// handles to a new program only when asked to explicitly, so there is
    /// nothing to do.
    pub fn set_cloexec(&self) -> (r: Result<(), Error>)
        ensures
            r is Ok,
    {
        Ok(())
    }

    /// Switches non-blocking mode: VesperaOS has no call for it.
    pub fn set_nonblocking(&self, _nonblocking: bool) -> (r: Result<(), Error>)
        ensures
            r matches Err(e) && is_unsupported_error(e),
    {
        unsupported()
    }
}

/// The outcome of `sys_pipe`: a negative value is a negated error
/// number; otherwise `handles` holds the read end and then the write end.
pub fn pipe_result(ret: i64, handles: [i64; 2]) -> (r: Result<(FileDesc, FileDesc), Error>)
    requires
        ret > i64::MIN,
    ensures
        ret < 0 ==> r == Err::<(FileDesc, FileDesc), Error>(Error::Os((-ret) as i32)),
        ret >= 0 ==> (r matches Ok(ends) && ends.0.spec_handle() == handles[0] as u64
            && ends.1.spec_handle() == handles[1] as u64),
{
    if ret < 0 {
        return Err(Error::from_raw_os_error((-ret) as i32));
    }
    Ok((FileDesc::from_raw_handle(handles[0] as u64), FileDesc::from_raw_handle(handles[1] as u64)))
}

} // verus!
