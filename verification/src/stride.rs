//! Where the elements of a strided vector lie.
//!
//! A vector of `n` elements with stride `inc` occupies `1 + (n - 1) * |inc|`
//! places of its buffer. With a positive stride its elements follow each other
//! from the start of the buffer; with a negative stride they run backwards from
//! the end, so that the first element lies last.

use vstd::prelude::*;
use crate::types::blasint;

verus! {

/// The distance between two successive elements, whatever the direction.
pub open spec fn stride_len(inc: int) -> int {
    if inc < 0 {
        -inc
    } else {
        inc
    }
}

/// The place in the buffer of element `i` of a vector of `n` elements with
/// stride `inc`.
pub open spec fn offset_of(n: int, i: int, inc: int) -> int {
    if inc < 0 {
        (n - 1 - i) * (-inc)
    } else {
        i * inc
    }
}

/// How many places of its buffer a vector of `n` elements with stride `inc`
/// spans: none if it has no element.
pub open spec fn span_of(n: int, inc: int) -> int {
    if n <= 0 {
        0
    } else {
        1 + (n - 1) * stride_len(inc)
    }
}

/// The stride of a vector that was gathered into a buffer of its own, element
/// after element.
pub const PACKED_STRIDE: blasint = 1;

/// Computes the place in the buffer of element `i` of a vector of `n` elements
/// with stride `inc`. The result is wide enough for every vector that a call
/// can describe.
pub fn element_offset(n: blasint, i: blasint, inc: blasint) -> (offset: i64)
    requires
        0 <= i < n,
    ensures
        offset == offset_of(n as int, i as int, inc as int),
        0 <= offset < span_of(n as int, inc as int) || (inc == 0 && offset == 0),
{
    let n_wide: i64 = n as i64;
    let i_wide: i64 = i as i64;
    let inc_wide: i64 = inc as i64;
    proof {
        lemma_offset_in_span(n as int, i as int, inc as int);
    }
    if inc < 0 {
        let back: i64 = n_wide - 1 - i_wide;
        let step: i64 = -inc_wide;
        assert(0 <= back * step <= 0x7fff_ffff * 0x8000_0000) by (nonlinear_arith)
            requires
                0 <= back <= 0x7fff_ffff,
                0 <= step <= 0x8000_0000,
        ;
        back * step
    } else {
        assert(0 <= i_wide * inc_wide <= 0x7fff_ffff * 0x7fff_ffff) by (nonlinear_arith)
            requires
                0 <= i_wide <= 0x7fff_ffff,
                0 <= inc_wide <= 0x7fff_ffff,
        ;
        i_wide * inc_wide
    }
}

/// Computes how many places of its buffer a vector of `n` elements with stride
/// `inc` spans.
pub fn vector_span(n: blasint, inc: blasint) -> (span: i64)
    ensures
        span == span_of(n as int, inc as int),
{
    if n <= 0 {
        0
    } else {
        let last: i64 = n as i64 - 1;
        let step: i64 = if inc < 0 {
            -(inc as i64)
        } else {
            inc as i64
        };
        assert(0 <= last * step <= 0x7fff_ffff * 0x8000_0000) by (nonlinear_arith)
            requires
                0 <= last <= 0x7fff_ffff,
                0 <= step <= 0x8000_0000,
        ;
        1 + last * step
    }
}

/// Every element lies inside the span of its vector.
pub proof fn lemma_offset_in_span(n: int, i: int, inc: int)
    requires
        0 <= i < n,
    ensures
        0 <= offset_of(n, i, inc),
        inc != 0 ==> offset_of(n, i, inc) < span_of(n, inc),
        inc == 0 ==> offset_of(n, i, inc) == 0,
{
    let step = stride_len(inc);
    if inc < 0 {
        assert(0 <= (n - 1 - i) * step <= (n - 1) * step) by (nonlinear_arith)
            requires
                0 <= n - 1 - i <= n - 1,
                0 <= step,
        ;
    } else {
        assert(0 <= i * step <= (n - 1) * step) by (nonlinear_arith)
            requires
                0 <= i <= n - 1,
                0 <= step,
        ;
    }
}

/// With a stride other than zero no two elements share a place, and a vector
/// with the opposite stride holds the same places in the opposite order.
pub proof fn offsets_are_distinct(n: int, i: int, j: int, inc: int)
    requires
        0 <= i < n,
        0 <= j < n,
        inc != 0,
    ensures
        offset_of(n, i, inc) == offset_of(n, j, inc) <==> i == j,
        offset_of(n, i, -inc) == offset_of(n, n - 1 - i, inc),
{
    let step = stride_len(inc);
    if i != j {
        assert(i * step != j * step) by (nonlinear_arith)
            requires
                i != j,
                step > 0,
        ;
        assert((n - 1 - i) * step != (n - 1 - j) * step) by (nonlinear_arith)
            requires
                i != j,
                step > 0,
        ;
    }
}

} // verus!
