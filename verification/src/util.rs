//! Helpers that more than one part uses: the length of zero-terminated data,
//! and retrying an operation that may fail for a while.
use vstd::prelude::*;

verus! {

/// Whether the first `n` bytes are those before the first zero byte: none of
/// them is zero, and a zero byte follows them unless the bytes end there.
pub open spec fn ends_before_zero(bytes: Seq<u8>, n: int) -> bool {
    &&& 0 <= n <= bytes.len()
    &&& forall|i: int| 0 <= i < n ==> bytes[i] != 0
    &&& n < bytes.len() ==> bytes[n] == 0
}

/// The number of bytes strictly before the first zero byte; all of them where
/// there is no zero byte.
pub open spec fn len_before_zero(bytes: Seq<u8>) -> int {
    choose|n: int| ends_before_zero(bytes, n)
}

/// Only one count of bytes ends before the first zero byte.
pub proof fn lemma_len_before_zero(bytes: Seq<u8>, n: int)
    requires
        ends_before_zero(bytes, n),
    ensures
        len_before_zero(bytes) == n,
{
    let m = len_before_zero(bytes);
    assert(ends_before_zero(bytes, m));
    if m < n {
        assert(bytes[m] != 0);
    } else if n < m {
        assert(bytes[n] != 0);
    }
}

/// Counts the bytes before the first zero byte.
pub fn bytes_before_zero(bytes: &[u8]) -> (n: usize)
    ensures
        n == len_before_zero(bytes@),
        ends_before_zero(bytes@, n as int),
{
    let mut n: usize = 0;
    while n < bytes.len() && bytes[n] != 0
        invariant
            n <= bytes@.len(),
            forall|i: int| 0 <= i < n ==> bytes@[i] != 0,
        decreases bytes@.len() - n,
    {
        n = n + 1;
    }
    proof {
        lemma_len_before_zero(bytes@, n as int);
    }
    n
}

/// Whether an operation is to be tried again: its last outcome was a failure
/// and there are tries left.
pub fn should_retry<T, E>(outcome: &Result<T, E>, tries_left: usize) -> (again: bool)
    ensures
        again <==> outcome is Err && tries_left > 0,
{
    outcome.is_err() && tries_left > 0
}

/// Calls `f` until it succeeds, but `retries` more times after the first at
/// most, and hands back the outcome of the last call.
pub fn retry<F, T, E>(mut f: F, retries: usize) -> (r: Result<T, E>) where
    F: FnMut() -> Result<T, E>,

    requires
        call_requires(f, ()),
    ensures
        call_ensures(f, (), r),
{
    let ghost given = f;
    let mut result = f();
    let mut left = retries;
    while should_retry(&result, left)
        invariant
            f == given,
            call_requires(f, ()),
            call_ensures(f, (), result),
        decreases left,
    {
        left = left - 1;
        result = f();
    }
    result
}

} // verus!
