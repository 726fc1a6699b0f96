//! Rust-side types and logic of a small C interface: fallible vector
//! building, a NUL-terminated byte string, a colour enum shared with C,
//! an owned `i32` buffer handed to C for filling, and the bump allocator
//! used on targets without `std`.
#![allow(non_snake_case)]

pub mod bump_alloc;
pub mod enum_color;
pub mod fallible;
pub mod my_csting;
pub mod ptr_array;

pub use enum_color::{get_color, ColorRs, EColor};
pub use fallible::{try_build_vec, try_sum_vec};
pub use my_csting::CString;
pub use ptr_array::PtrArrayRs;

use vstd::prelude::*;

verus! {

/// The constant `FOO` of the C header (`#define FOO 123`), which the
/// linker never sees and which is therefore written out here.
pub const FOO: i32 = 123;

/// Returns the header constant [`FOO`].
pub fn get_FOO() -> (r: i32)
    ensures
        r == FOO,
        r == 123,
{
    FOO
}

} // verus!
