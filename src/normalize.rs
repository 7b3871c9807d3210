//! One result shape for the two ways of calling the kernel.
//!
//! Through the C library a call returns a negative value on failure and
//! leaves the error code in `errno`; through a raw system call the kernel
//! returns the negated error code itself, in `-4095..=-1`. Both become a
//! `Result` whose error keeps the code unchanged and whose success value is
//! never a failure sentinel.
use vstd::prelude::*;

verus! {

/// The largest error code a raw system call can return (negated).
pub const MAX_ERRNO: usize = 4095;

/// An error code reported by the operating system, kept as it came.
#[derive(Debug, Clone, Copy, PartialEq, Eq, Hash)]
pub struct Errno {
    pub raw: i32,
}

impl Errno {
    /// The error with code `raw`.
    pub fn from_raw_os_error(raw: i32) -> (r: Errno)
        ensures
            r.raw == raw,
    {
        Errno { raw }
    }

    /// The code of this error.
    pub fn raw_os_error(&self) -> (r: i32)
        ensures
            r == self.raw,
    {
        self.raw
    }
}

/// What a kernel call returned, in the convention of the path that made it.
#[derive(Debug, Clone, Copy, PartialEq, Eq, Hash)]
pub enum RawReturn {
    /// Through the C library: the function's return value, and `errno` as
    /// read right after the call.
    Libc { ret: i32, errno: i32 },
    /// Through a raw system call: the value left in the return register.
    Syscall { value: usize },
}

/// The normalized form of a raw return.
pub open spec fn check_spec(r: RawReturn) -> Result<usize, Errno> {
    match r {
        RawReturn::Libc { ret, errno } => if ret < 0 {
            Err(Errno { raw: errno })
        } else {
            Ok(ret as usize)
        },
        RawReturn::Syscall { value } => if value > usize::MAX - MAX_ERRNO {
            Err(Errno { raw: (usize::MAX - value + 1) as i32 })
        } else {
            Ok(value)
        },
    }
}

/// Normalizes a raw return into the call's non-negative success value or
/// the error code it reported.
pub fn check(r: RawReturn) -> (out: Result<usize, Errno>)
    ensures
        out == check_spec(r),
{
    match r {
        RawReturn::Libc { ret, errno } => {
            if ret < 0 {
                Err(Errno { raw: errno })
            } else {
                Ok(ret as usize)
            }
        },
        RawReturn::Syscall { value } => {
            if value > usize::MAX - MAX_ERRNO {
                Err(Errno { raw: (usize::MAX - value + 1) as i32 })
            } else {
                Ok(value)
            }
        },
    }
}

/// The two paths report the same outcome in their own conventions: a
/// success value `v` (any C `int` that is not negative) and an error code
/// `e` (within the kernel's range) normalize alike, whichever path carried
/// them.
pub proof fn lemma_paths_agree(v: i32, e: i32, errno: i32)
    requires
        0 <= v,
        1 <= e <= MAX_ERRNO,
    ensures
        check_spec(RawReturn::Libc { ret: v, errno }) == check_spec(
            RawReturn::Syscall { value: v as usize },
        ),
        check_spec(RawReturn::Libc { ret: -1i32, errno: e }) == check_spec(
            RawReturn::Syscall { value: (usize::MAX - e + 1) as usize },
        ),
        check_spec(RawReturn::Libc { ret: -1i32, errno: e }) == Err::<usize, Errno>(Errno { raw: e }),
{
}

} // verus!
