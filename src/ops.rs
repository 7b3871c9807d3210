//! What the socket operations make of the kernel's answers.
//!
//! Each operation hands the kernel its encoded arguments (the `as_raw` and
//! `encode` methods of the argument types), then turns the raw return, and
//! any buffer the kernel filled, into a typed result with the functions here.
use crate::addr::DecodeError;
use crate::flags::SocketType;
use crate::normalize::{check, check_spec, Errno, RawReturn};
use vstd::prelude::*;

verus! {

/// Size of the C `int` that `getsockopt(SOL_SOCKET, SO_TYPE)` writes.
pub const SOCKET_TYPE_LEN: usize = 4;

/// The largest descriptor number: a descriptor is a non-negative C `int`.
pub const FD_MAX: usize = 0x7fff_ffff;

/// Why a socket operation failed.
#[derive(Debug, Clone, Copy, PartialEq, Eq, Hash)]
pub enum Error {
    /// The kernel or the C library rejected the call, with this code.
    Os(Errno),
    /// The call succeeded but the address it returned cannot be decoded.
    Address(DecodeError),
    /// The call succeeded with a value that cannot be a descriptor.
    BadDescriptor { returned: usize },
    /// The call succeeded but wrote an option value of another size.
    OptionLen { len: usize },
    /// The call succeeded but reported a socket type with no variant.
    UnrecognizedValue { value: u32 },
}

/// The outcome of a call that creates a descriptor (`socket`, `accept`).
pub open spec fn fd_spec(r: RawReturn) -> Result<i32, Error> {
    match check_spec(r) {
        Err(e) => Err(Error::Os(e)),
        Ok(v) => if v <= FD_MAX {
            Ok(v as i32)
        } else {
            Err(Error::BadDescriptor { returned: v })
        },
    }
}

/// The outcome of a call whose success carries nothing (`bind`, `connect`,
/// `listen`, `shutdown`).
pub open spec fn done_spec(r: RawReturn) -> Result<(), Error> {
    match check_spec(r) {
        Err(e) => Err(Error::Os(e)),
        Ok(_) => Ok(()),
    }
}

/// The outcome of `getsockopt(SOL_SOCKET, SO_TYPE)` that wrote `len` bytes
/// of `value`.
pub open spec fn socket_type_spec(r: RawReturn, value: u32, len: usize) -> Result<
    SocketType,
    Error,
> {
    match check_spec(r) {
        Err(e) => Err(Error::Os(e)),
        Ok(_) => if len != SOCKET_TYPE_LEN {
            Err(Error::OptionLen { len })
        } else {
            match SocketType::from_code(value) {
                Some(t) => Ok(t),
                None => Err(Error::UnrecognizedValue { value }),
            }
        },
    }
}

/// The new descriptor that a `socket` or `accept` call returned.
///
/// The caller takes ownership of it at once, before it looks at anything
/// else the call returned, so that it is released exactly once.
pub fn new_fd(r: RawReturn) -> (out: Result<i32, Error>)
    ensures
        out == fd_spec(r),
{
    match check(r) {
        Err(e) => Err(Error::Os(e)),
        Ok(v) => {
            if v <= FD_MAX {
                Ok(v as i32)
            } else {
                Err(Error::BadDescriptor { returned: v })
            }
        },
    }
}

/// The result of a call whose success carries nothing.
pub fn done(r: RawReturn) -> (out: Result<(), Error>)
    ensures
        out == done_spec(r),
{
    match check(r) {
        Err(e) => Err(Error::Os(e)),
        Ok(_) => Ok(()),
    }
}

/// The socket type that `getsockopt(SOL_SOCKET, SO_TYPE)` reported.
///
/// The value is looked at only once the call has succeeded and written
/// exactly a C `int`, and becomes a `SocketType` only where one has that
/// number.
pub fn socket_type_from(r: RawReturn, value: u32, len: usize) -> (out: Result<SocketType, Error>)
    ensures
        out == socket_type_spec(r, value, len),
{
    match check(r) {
        Err(e) => Err(Error::Os(e)),
        Ok(_) => {
            if len != SOCKET_TYPE_LEN {
                Err(Error::OptionLen { len })
            } else {
                match SocketType::from_raw(value) {
                    Some(t) => Ok(t),
                    None => Err(Error::UnrecognizedValue { value }),
                }
            }
        },
    }
}

/// Querying the type of a socket gives back the type it was created with:
/// whenever the query succeeds and writes the number of type `t`, the
/// result is `t`.
pub proof fn lemma_socket_type_round_trip(r: RawReturn, t: SocketType)
    requires
        check_spec(r) is Ok,
    ensures
        socket_type_spec(r, t.code(), SOCKET_TYPE_LEN) == Ok::<SocketType, Error>(t),
{
    crate::flags::lemma_flag_codes_round_trip();
}

} // verus!
