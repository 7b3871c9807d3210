//! Safe, verified encoding layer beneath Linux socket system calls.
//!
//! The library turns typed socket arguments into the numbers and byte layouts
//! the kernel expects, and turns what the kernel hands back (return values,
//! error codes, filled address buffers, option values) into typed results.
//! The calls themselves are made by the caller, through either the C library
//! or raw system calls; both return conventions are normalized here.
use vstd::prelude::*;

pub mod addr;
pub mod flags;
pub mod normalize;
pub mod ops;

verus! {

} // verus!
