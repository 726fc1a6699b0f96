//! Building and summing a small vector with fallible allocation: the
//! capacity is reserved first, and a refused reservation is reported as an
//! error message instead of aborting the program.
use vstd::prelude::*;
use vstd::string::StringExecFns;
use std::collections::TryReserveError;

verus! {

/// How many elements [`try_build_vec`] reserves room for.
pub const REQUIRED_SIZE: usize = 4;

/// The values that [`try_build_vec`] pushes, in order.
pub open spec fn built_values() -> Seq<u32> {
    seq![1u32, 2u32, 3u32, 4u32]
}

/// The message that reports a refused reservation of [`REQUIRED_SIZE`]
/// elements.
pub open spec fn alloc_failure_message() -> Seq<char> {
    "Failed to allocate 4 items!"@
}

/// The sum of a sequence of `u32`, as a mathematical integer.
pub open spec fn seq_sum(s: Seq<u32>) -> int
    decreases s.len(),
{
    if s.len() == 0 {
        0
    } else {
        seq_sum(s.drop_last()) + s.last()
    }
}

/// No prefix of a sequence of `u32` sums to more than the whole.
proof fn lemma_prefix_sum_le(s: Seq<u32>, i: int)
    requires
        0 <= i <= s.len(),
    ensures
        seq_sum(s.take(i)) <= seq_sum(s),
    decreases s.len() - i,
{
    if i < s.len() {
        lemma_prefix_sum_le(s, i + 1);
        assert(s.take(i + 1).drop_last() =~= s.take(i));
    } else {
        assert(s.take(i) =~= s);
    }
}

/// The sum of the elements of `v`, which must fit in a `u32`.
fn sum_u32(v: &Vec<u32>) -> (r: u32)
    requires
        seq_sum(v@) <= u32::MAX,
    ensures
        r == seq_sum(v@),
{
    let mut acc: u32 = 0;
    let mut i: usize = 0;
    assert(v@.take(0) =~= Seq::<u32>::empty());
    while i < v.len()
        invariant
            i <= v.len(),
            seq_sum(v@) <= u32::MAX,
            acc == seq_sum(v@.take(i as int)),
        decreases v.len() - i,
    {
        assert(v@.take(i + 1).drop_last() =~= v@.take(i as int));
        proof {
            lemma_prefix_sum_le(v@, i + 1);
        }
        acc = acc + v[i];
        i = i + 1;
    }
    assert(v@.take(i as int) =~= v@);
    acc
}

/// Finishes [`try_build_vec`] once the reservation has been answered: on
/// success pushes `1, 2, 3, 4` onto `v`; on failure reports
/// [`alloc_failure_message`].
pub fn fill_reserved(v: Vec<u32>, reserved: Result<(), TryReserveError>) -> (r: Result<
    Vec<u32>,
    String,
>)
    ensures
        reserved is Ok ==> (r matches Ok(w) && w@ == v@ + built_values()),
        reserved is Err ==> (r matches Err(e) && e@ == alloc_failure_message()),
{
    match reserved {
        Ok(()) => {
            let ghost v0 = v@;
            let mut v = v;
            v.push(1);
            v.push(2);
            v.push(3);
            v.push(4);
            assert(v@ =~= v0 + built_values());
            Ok(v)
        },
        Err(_) => Err(String::from_str("Failed to allocate 4 items!")),
    }
}

/// Builds the vector `[1, 2, 3, 4]`. This is the library's `std` build:
/// the vector grows through `push`, which never reports a refusal, so the
/// build always succeeds; a refused reservation of [`REQUIRED_SIZE`]
/// elements, and its [`alloc_failure_message`], belong to the `no_std`
/// build, whose outcome [`fill_reserved`] states.
pub fn try_build_vec() -> (r: Result<Vec<u32>, String>)
    ensures
        r matches Ok(v) ==> v@ == built_values(),
        r matches Err(e) ==> e@ == alloc_failure_message(),
        r is Ok,
{
    let v: Vec<u32> = Vec::new();
    let r = fill_reserved(v, Ok(()));
    assert(Seq::<u32>::empty() + built_values() =~= built_values());
    r
}

/// Finishes [`try_sum_vec`] once the build has been answered: the sum of
/// the built vector's elements, or the build's error passed on unchanged.
/// The sum is taken in `u32`, so it must fit there.
pub fn sum_built(built: Result<Vec<u32>, String>) -> (r: Result<usize, String>)
    requires
        built matches Ok(v) ==> seq_sum(v@) <= u32::MAX,
    ensures
        built matches Ok(v) ==> (r matches Ok(n) && n == seq_sum(v@)),
        built matches Err(e) ==> (r matches Err(f) && f@ == e@),
{
    match built {
        Ok(v) => {
            let total = sum_u32(&v);
            Ok(total as usize)
        },
        Err(e) => Err(e),
    }
}

/// Builds the vector of [`try_build_vec`] and returns the sum of its
/// elements: always `Ok(10)`, since the build always succeeds and summing
/// allocates nothing.
pub fn try_sum_vec() -> (r: Result<usize, String>)
    ensures
        r matches Ok(n) ==> n == seq_sum(built_values()) && n == 10,
        r matches Err(e) ==> e@ == alloc_failure_message(),
        r == Ok::<usize, String>(10),
{
    proof {
        lemma_built_values_sum();
    }
    sum_built(try_build_vec())
}

/// The sum of a concatenation is the sum of its parts.
pub proof fn lemma_seq_sum_concat(a: Seq<u32>, b: Seq<u32>)
    ensures
        seq_sum(a + b) == seq_sum(a) + seq_sum(b),
    decreases b.len(),
{
    if b.len() == 0 {
        assert(a + b =~= a);
    } else {
        lemma_seq_sum_concat(a, b.drop_last());
        assert((a + b).drop_last() =~= a + b.drop_last());
    }
}

/// The built values sum to `1 + 2 + 3 + 4 == 10`.
pub proof fn lemma_built_values_sum()
    ensures
        seq_sum(built_values()) == 10,
{
    reveal_with_fuel(seq_sum, 5);
}

/// Appending the built values to any vector adds exactly 10 to its sum:
/// what [`fill_reserved`] returns on a granted reservation sums to the
/// input's sum plus 10, whatever the input held.
pub proof fn lemma_filled_sum(v: Seq<u32>)
    ensures
        seq_sum(v + built_values()) == seq_sum(v) + 10,
{
    lemma_seq_sum_concat(v, built_values());
    lemma_built_values_sum();
}

} // verus!
