//! Platform layer of the standard library for VesperaOS: the decisions and
//! data conversions that sit between the portable `std` API and the
//! VesperaOS system calls, stated and proved with Verus.
//!
//! The system calls themselves are not made here; every function takes the
//! raw values that a call returned (or the values that it is to be handed)
//! and computes the result that the platform layer passes on.
use vstd::prelude::*;

pub mod args;
pub mod c;
pub mod command_env;
pub mod command_debug;
pub mod decimal;
pub mod env;
pub mod error;
pub mod time;
pub mod util;
pub mod paths;
pub mod process;
pub mod fs;
pub mod fd;
pub mod futex;
pub mod keys;
pub mod stdio;
pub mod target;
pub mod thread;

verus! {

} // verus!
