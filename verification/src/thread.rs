//! Threads (units of a realm): the values that the thread system calls
//! exchange.
use vstd::prelude::*;
use crate::c;
use crate::error::{Error, ErrorKind};
use crate::time::Duration;

verus! {

/// The smallest default stack size: 2 MiB.
pub const DEFAULT_MIN_STACK_SIZE: usize = 2 * 1024 * 1024;

/// A unit identifier.
pub type UnitID = u64;

/// A running thread (a unit of the current realm).
#[derive(Debug)]
pub struct Thread {
    id: UnitID,
}

impl Thread {
    /// The identifier of the unit.
    pub closed spec fn spec_id(&self) -> UnitID {
        self.id
    }

    /// The outcome of `spawn_unit`: a value that is negative as a signed
    /// number is a negated error number, any other value the new unit.
    pub fn from_spawn_result(unit_id: UnitID) -> (r: Result<Thread, Error>)
        requires
            unit_id as i64 > i64::MIN,
        ensures
            (unit_id as i64) < 0 ==> r == Err::<Thread, Error>(Error::Os((-(unit_id as i64)) as i32)),
            (unit_id as i64) >= 0 ==> (r matches Ok(t) && t.spec_id() == unit_id),
    {
        let signed = unit_id as i64;
        if signed < 0 {
            return Err(Error::from_raw_os_error((-signed) as i32));
        }
        Ok(Thread { id: unit_id })
    }

    /// The identifier of the unit.
    pub fn id(&self) -> (r: UnitID)
        ensures
            r == self.spec_id(),
    {
        self.id
    }
}

/// Names the current thread; VesperaOS keeps no thread names.
pub fn set_name(_name: &[u8]) {
}

/// The outcome of opening `/dev/cpuinfo`: a handle that is negative as a
/// signed number reports failure, with the error left in `errno`.
pub fn cpuinfo_open_result(handle: c::HANDLE, errno: i32) -> (r: Result<c::HANDLE, Error>)
    ensures
        (handle as isize) < 0 ==> r == Err::<c::HANDLE, Error>(Error::Os(errno)),
        (handle as isize) >= 0 ==> r == Ok::<c::HANDLE, Error>(handle),
{
    if (handle as isize) < 0 {
        return Err(Error::from_raw_os_error(errno));
    }
    Ok(handle)
}

/// The number of cores, from the outcome of reading the `cpu_info` record
/// of `expected` bytes whose core count is `cores`: a negative read reports
/// the error in `errno`, a short read fails with `UnexpectedEof`, and a
/// core count of zero with `InvalidData`.
pub fn available_parallelism(read_ret: isize, expected: usize, cores: usize, errno: i32) -> (r:
    Result<usize, Error>)
    ensures
        read_ret < 0 ==> r == Err::<usize, Error>(Error::Os(errno)),
        read_ret >= 0 && read_ret as usize != expected ==> (r matches Err(e) && e.is_simple(
            ErrorKind::UnexpectedEof,
            "short read"@,
        )),
        read_ret >= 0 && read_ret as usize == expected && cores == 0 ==> (r matches Err(e)
            && e.is_simple(ErrorKind::InvalidData, "zero cores"@)),
        read_ret >= 0 && read_ret as usize == expected && cores != 0 ==> r == Ok::<usize, Error>(
            cores,
        ),
{
    if read_ret < 0 {
        return Err(Error::from_raw_os_error(errno));
    }
    if read_ret as usize != expected {
        let message = "short read";
        proof {
            reveal_strlit("short read");
        }
        return Err(Error::Simple { kind: ErrorKind::UnexpectedEof, message });
    }
    if cores == 0 {
        let message = "zero cores";
        proof {
            reveal_strlit("zero cores");
        }
        return Err(Error::Simple { kind: ErrorKind::InvalidData, message });
    }
    Ok(cores)
}

/// The request `nanosleep` takes for a sleep of `dur`: the seconds
/// reinterpreted as a signed count and the sub-second nanoseconds.
pub fn sleep_request(dur: &Duration) -> (ts: c::timespec_t)
    ensures
        ts.tv_sec == dur.spec_secs() as i64,
        ts.tv_nsec == dur.spec_nanos() as i64,
{
    c::timespec_t { tv_sec: dur.as_secs() as i64, tv_nsec: dur.subsec_nanos() as i64 }
}

} // verus!
