use lib_ffi::bump_alloc::BumpAllocator;
use lib_ffi::enum_color::{get_color, ColorRs, EColor};
use lib_ffi::fallible::{fill_reserved, sum_built, try_build_vec, try_sum_vec, REQUIRED_SIZE};
use lib_ffi::my_csting::{lossy_string_from_bytes, CString};
use lib_ffi::ptr_array::PtrArrayRs;
use lib_ffi::{get_FOO, FOO};

#[test]
fn foo_is_123() {
    assert_eq!(FOO, 123);
    assert_eq!(get_FOO(), 123);
}

#[test]
fn ecolor_to_color() {
    assert_eq!(ColorRs::from(EColor::RED), ColorRs::Red);
    assert_eq!(ColorRs::from(EColor::GREEN), ColorRs::Green);
    assert_eq!(ColorRs::from(EColor::BLUE), ColorRs::Blue);
}

#[test]
fn color_to_ecolor() {
    assert_eq!(EColor::from(ColorRs::Red), EColor::RED);
    assert_eq!(EColor::from(ColorRs::Green), EColor::GREEN);
    assert_eq!(EColor::from(ColorRs::Blue), EColor::BLUE);
}

#[test]
fn get_color_matches_from() {
    assert_eq!(get_color(EColor::RED), ColorRs::Red);
    assert_eq!(get_color(EColor::GREEN), ColorRs::Green);
    assert_eq!(get_color(EColor::BLUE), ColorRs::Blue);
}

#[test]
fn color_round_trips() {
    for c in [EColor::RED, EColor::GREEN, EColor::BLUE] {
        assert_eq!(EColor::from(ColorRs::from(c)), c);
    }
    for c in [ColorRs::Red, ColorRs::Green, ColorRs::Blue] {
        assert_eq!(ColorRs::from(EColor::from(c)), c);
    }
}

#[test]
fn build_vec_gives_one_to_four() {
    assert_eq!(try_build_vec(), Ok(vec![1u32, 2, 3, 4]));
}

#[test]
fn sum_vec_is_ten() {
    assert_eq!(try_sum_vec(), Ok(10usize));
}

#[test]
fn fill_reserved_appends_on_success() {
    let mut v: Vec<u32> = vec![7];
    let reserved = v.try_reserve(REQUIRED_SIZE);
    assert_eq!(fill_reserved(v, reserved), Ok(vec![7u32, 1, 2, 3, 4]));
}

#[test]
fn fill_reserved_reports_refusal() {
    let mut v: Vec<u32> = Vec::new();
    let refused = v.try_reserve(usize::MAX);
    assert!(refused.is_err());
    assert_eq!(
        fill_reserved(v, refused),
        Err(String::from("Failed to allocate 4 items!"))
    );
}

#[test]
fn cstring_keeps_bytes_and_adds_nul() {
    let c = CString::new(b"hello");
    assert_eq!(c.as_bytes_with_nul(), b"hello\0");
    assert_eq!(c.to_rust_string(), "hello");
}

#[test]
fn cstring_empty() {
    let c = CString::new(b"");
    assert_eq!(c.as_bytes_with_nul(), b"\0");
    assert_eq!(c.to_rust_string(), "");
    assert_eq!(c.to_debug_string(), "CString()");
}

#[test]
fn cstring_keeps_interior_nul() {
    let c = CString::new(b"a\0b");
    assert_eq!(c.as_bytes_with_nul(), b"a\0b\0");
    assert_eq!(c.to_rust_string(), "a\u{0}b");
}

#[test]
fn cstring_decodes_utf8() {
    let c = CString::new("héllo ✓".as_bytes());
    assert_eq!(c.to_rust_string(), "héllo ✓");
}

#[test]
fn cstring_falls_back_to_latin1() {
    let c = CString::new(&[0x41, 0xff, 0xe9, 0x42]);
    assert_eq!(c.to_rust_string(), "A\u{ff}\u{e9}B");
}

#[test]
fn cstring_debug_string() {
    let c = CString::new(b"Hello from C");
    assert_eq!(c.to_debug_string(), "CString(Hello from C)");
}

#[test]
fn lossy_replaces_invalid_bytes() {
    assert_eq!(lossy_string_from_bytes(&[0x41, 0xff, 0x42]), "A\u{fffd}B");
}

#[test]
fn lossy_keeps_valid_text() {
    assert_eq!(lossy_string_from_bytes("grüße".as_bytes()), "grüße");
}

#[test]
fn ptr_array_holds_values() {
    let p = PtrArrayRs::new(vec![0i32; 10]);
    assert_eq!(p.values(), &[0i32; 10][..]);
}

#[test]
fn ptr_array_values_mut_writes_through() {
    let mut p = PtrArrayRs::new(vec![0i32; 3]);
    {
        let v = p.values_mut();
        v[0] = 5;
        v[2] = 9;
    }
    assert_eq!(p.values(), &[5, 0, 9][..]);
}

#[test]
fn bump_empty_refuses() {
    let mut a = BumpAllocator::empty();
    assert_eq!(a.alloc_block(1, 1), None);
    assert_eq!(a.alloc_block(0, 1), Some(0));
    assert_eq!(a.next(), 0);
}

#[test]
fn bump_init_sets_region() {
    let mut a = BumpAllocator::empty();
    a.init(1000, 4096);
    assert_eq!(a.heap_start(), 1000);
    assert_eq!(a.heap_end(), 5096);
    assert_eq!(a.next(), 1000);
}

#[test]
fn bump_aligns_and_advances() {
    let mut a = BumpAllocator::empty();
    a.init(1001, 100);
    assert_eq!(a.alloc_block(10, 8), Some(1008));
    assert_eq!(a.next(), 1018);
    assert_eq!(a.alloc_block(4, 16), Some(1024));
    assert_eq!(a.next(), 1028);
    assert_eq!(a.alloc_block(3, 1), Some(1028));
    assert_eq!(a.next(), 1031);
}

#[test]
fn bump_refusal_changes_nothing() {
    let mut a = BumpAllocator::empty();
    a.init(0, 64);
    assert_eq!(a.alloc_block(60, 4), Some(0));
    assert_eq!(a.alloc_block(8, 4), None);
    assert_eq!(a.next(), 60);
    assert_eq!(a.alloc_block(4, 4), Some(60));
    assert_eq!(a.next(), 64);
}

#[test]
fn bump_blocks_do_not_overlap() {
    let mut a = BumpAllocator::empty();
    a.init(4096, 4096);
    let mut prev_end = 4096usize;
    for (size, align) in [(3usize, 1usize), (8, 8), (1, 64), (100, 4), (7, 2)] {
        let p = a.alloc_block(size, align).unwrap();
        assert!(p >= prev_end);
        assert_eq!(p % align, 0);
        prev_end = p + size;
        assert!(prev_end <= 8192);
    }
}

#[test]
fn sum_built_sums_a_built_vector() {
    assert_eq!(sum_built(Ok(vec![1u32, 2, 3, 4])), Ok(10usize));
    assert_eq!(sum_built(Ok(vec![])), Ok(0usize));
    assert_eq!(sum_built(Ok(vec![u32::MAX])), Ok(u32::MAX as usize));
}

#[test]
fn sum_built_passes_the_error_on() {
    let e = String::from("Failed to allocate 4 items!");
    assert_eq!(sum_built(Err(e.clone())), Err(e));
}

#[test]
fn sum_built_of_try_build_vec() {
    assert_eq!(sum_built(try_build_vec()), Ok(10usize));
}
