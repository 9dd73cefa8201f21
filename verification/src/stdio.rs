//! The standard streams of a program.
use vstd::prelude::*;
use crate::error::{Error, map_err};

verus! {

/// The standard input stream.
#[derive(Debug, Clone, Copy)]
pub struct Stdin;

/// The standard output stream.
#[derive(Debug, Clone, Copy)]
pub struct Stdout;

/// The standard error stream.
#[derive(Debug, Clone, Copy)]
pub struct Stderr;

/// The buffer size for standard input.
pub const STDIN_BUF_SIZE: usize = 8 * 1024;

impl Stdin {
    /// The standard input stream.
    pub fn new() -> (s: Stdin) {
        Stdin
    }
}

impl Stdout {
    /// The standard output stream.
    pub fn new() -> (s: Stdout) {
        Stdout
    }
}

impl Stderr {
    /// The standard error stream.
    pub fn new() -> (s: Stderr) {
        Stderr
    }
}

/// The outcome of `sys_read` or `sys_write` on a standard stream: a
/// negative value is a negated error number, any other value the number of
/// bytes moved.
pub fn stream_result(ret: i64) -> (r: Result<usize, Error>)
    requires
        ret > i64::MIN,
    ensures
        ret < 0 ==> r == Err::<usize, Error>(Error::Os((-ret) as i32)),
        ret >= 0 ==> r == Ok::<usize, Error>(ret as usize),
{
    if ret < 0 {
        Err(map_err(ret))
    } else {
        Ok(ret as usize)
    }
}

/// Whether the error reports a closed standard stream: VesperaOS never
/// reports one, so no error is treated as such.
pub fn is_ebadf(_err: &Error) -> (r: bool)
    ensures
        !r,
{
    false
}

/// Where panic messages go: standard error.
pub fn panic_output() -> (r: Option<Stderr>)
    ensures
        r is Some,
{
    Some(Stderr::new())
}

} // verus!
