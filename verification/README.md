# lib_ffi

The Rust side of a small C interface, verified with Verus.

- `src/` is the verified library: fallible building and summing of a vector
  (`fallible`), a NUL-terminated byte string and its conversion to text
  (`my_csting`), the colour enum shared with C and its Rust mirror
  (`enum_color`), an owned `i32` buffer that C fills (`ptr_array`), and the
  bump allocator used by the `no_std` build (`bump_alloc`).
- `app/` is the program around it: the `extern "C"` declarations and
  `#[repr(C)]` types, the reads of C globals and pointers, the global
  allocator wrappers, and the parts that carry floating-point values.
- `tests/` runs the library on concrete values.
