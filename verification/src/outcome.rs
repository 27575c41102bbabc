//! Reading what a kernel entry, or the in-process entry point, handed back.
//!
//! Both return one machine word: a failure is a small negative number seen
//! as an unsigned word, and anything else is a success.

use crate::timespec::Timespec;
use linux_syscalls::Errno;
use vstd::prelude::*;

verus! {

/// The largest error number that a return word can carry.
pub const MAX_ERRNO: usize = 4095;

/// A failed clock read or write, with the kernel's error number.
#[derive(Clone, Copy, Debug, PartialEq, Eq, Structural, Hash)]
pub struct KernelError {
    /// The error number, as the kernel defines it: positive, and at most
    /// [`MAX_ERRNO`] where it comes from a return word.
    pub code: i32,
}

/// Whether a return word reports a failure: the topmost [`MAX_ERRNO`] values
/// of a word do.
pub open spec fn is_failure(ret: usize) -> bool {
    ret > usize::MAX - MAX_ERRNO
}

/// The error number that a failing return word carries: its distance below
/// zero, the word read as a signed number.
pub open spec fn error_number(ret: usize) -> int {
    usize::MAX - ret + 1
}

/// A return word taken apart: the word itself on success, the error number
/// on failure.
pub open spec fn split_ret(ret: usize) -> Result<usize, i32> {
    if is_failure(ret) {
        Err(error_number(ret) as i32)
    } else {
        Ok(ret)
    }
}

/// What a clock read gives, from the return word and the buffer that the
/// call filled.
pub open spec fn read_result(ret: usize, filled: Timespec) -> Result<Timespec, KernelError> {
    match split_ret(ret) {
        Ok(_) => Ok(filled),
        Err(code) => Err(KernelError { code }),
    }
}

/// What a clock write gives, from the return word.
pub open spec fn write_result(ret: usize) -> Result<(), KernelError> {
    match split_ret(ret) {
        Ok(_) => Ok(()),
        Err(code) => Err(KernelError { code }),
    }
}

/// `linux_syscalls::Errno::from_ret`, with the error handed on as its number
/// (`Errno::into_raw`). Taken on trust from the crate's source: a word above
/// the word-sized image of -4096 is a failure whose error number is the
/// negated word; every other word is a success and comes back unchanged.
#[verifier::external_body]
fn errno_from_ret(ret: usize) -> (r: Result<usize, i32>)
    ensures
        r == split_ret(ret),
{
    match Errno::from_ret(ret) {
        Ok(word) => Ok(word),
        Err(errno) => Err(errno.into_raw()),
    }
}

/// The outcome of a clock read: the filled buffer where the return word
/// reports success, else the kernel's error.
pub fn read_outcome(ret: usize, filled: Timespec) -> (r: Result<Timespec, KernelError>)
    ensures
        r == read_result(ret, filled),
        r is Err <==> is_failure(ret),
{
    match errno_from_ret(ret) {
        Ok(_) => Ok(filled),
        Err(code) => Err(KernelError { code }),
    }
}

/// The outcome of a clock write: nothing where the return word reports
/// success, else the kernel's error.
pub fn write_outcome(ret: usize) -> (r: Result<(), KernelError>)
    ensures
        r == write_result(ret),
        r is Err <==> is_failure(ret),
{
    match errno_from_ret(ret) {
        Ok(_) => Ok(()),
        Err(code) => Err(KernelError { code }),
    }
}

/// A failure always carries an error number between one and [`MAX_ERRNO`].
pub proof fn lemma_error_number_range(ret: usize)
    requires
        is_failure(ret),
    ensures
        1 <= error_number(ret) <= MAX_ERRNO,
        split_ret(ret) == Err::<usize, i32>(error_number(ret) as i32),
        (error_number(ret) as i32) == error_number(ret),
{
}

} // verus!
