#![allow(non_camel_case_types)]

use vstd::prelude::*;

pub mod cli;
pub mod digit;
pub mod src_code;
pub mod x86_64;

verus! {

/// A Unicode scalar value.
pub type utf32 = char;

/// A single ASCII byte.
pub type ascii = u8;

/// An unsigned byte offset of 8 bits.
pub type uoffset8 = u8;

/// An unsigned byte offset of 16 bits.
pub type uoffset16 = u16;

/// An unsigned byte offset of 32 bits.
pub type uoffset32 = u32;

/// An unsigned byte offset of 64 bits.
pub type uoffset64 = u64;

/// An unsigned byte offset of pointer width.
pub type uoffset = usize;

/// A signed byte offset of 8 bits.
pub type ioffset8 = i8;

/// A signed byte offset of 16 bits.
pub type ioffset16 = i16;

/// A signed byte offset of 32 bits.
pub type ioffset32 = i32;

/// A signed byte offset of 64 bits.
pub type ioffset64 = i64;

/// A signed byte offset of pointer width.
pub type ioffset = isize;

} // verus!
