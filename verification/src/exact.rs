//! Exact complex arithmetic, in which what a kernel computes can be written
//! down and compared: numbers whose two parts are integers, with sum, product
//! and conjugate, and finite sums of them.
//!
//! Everything proved here uses only that sum and product are commutative and
//! associative, that the product distributes over the sum, and that conjugation
//! respects both and undoes itself. A real number is a complex number whose
//! imaginary part is zero.

use vstd::prelude::*;

verus! {

/// A complex number with integer parts.
pub struct Scalar {
    pub re: int,
    pub im: int,
}

impl Scalar {
    /// The number zero.
    pub open spec fn zero() -> Scalar {
        Scalar { re: 0, im: 0 }
    }

    /// The number one.
    pub open spec fn one() -> Scalar {
        Scalar { re: 1, im: 0 }
    }

    /// The sum of two numbers.
    pub open spec fn plus(self, other: Scalar) -> Scalar {
        Scalar { re: self.re + other.re, im: self.im + other.im }
    }

    /// The product of two numbers.
    pub open spec fn times(self, other: Scalar) -> Scalar {
        Scalar {
            re: self.re * other.re - self.im * other.im,
            im: self.re * other.im + self.im * other.re,
        }
    }

    /// The conjugate: the imaginary part changes its sign.
    pub open spec fn conj(self) -> Scalar {
        Scalar { re: self.re, im: -self.im }
    }

    /// The conjugate if `wanted`, the number itself if not.
    pub open spec fn conj_if(self, wanted: bool) -> Scalar {
        if wanted {
            self.conj()
        } else {
            self
        }
    }

    /// The real part, as a complex number.
    pub open spec fn real_part(self) -> Scalar {
        Scalar { re: self.re, im: 0 }
    }

    /// Whether the number is real.
    pub open spec fn is_real(self) -> bool {
        self.im == 0
    }
}

/// The sum of `term(0)`, ..., `term(n - 1)`; zero if `n` is not positive.
pub open spec fn sum(term: spec_fn(int) -> Scalar, n: int) -> Scalar
    decreases n,
{
    if n <= 0 {
        Scalar::zero()
    } else {
        sum(term, n - 1).plus(term(n - 1))
    }
}

/// The product is commutative, and conjugation respects sum and product and
/// undoes itself; a real number is its own conjugate.
pub proof fn lemma_scalar_laws(a: Scalar, b: Scalar)
    ensures
        a.times(b) == b.times(a),
        a.plus(b) == b.plus(a),
        a.times(b).conj() == a.conj().times(b.conj()),
        a.plus(b).conj() == a.conj().plus(b.conj()),
        a.conj().conj() == a,
        a.is_real() ==> a.conj() == a,
        a.real_part().conj() == a.real_part(),
        a.conj().real_part() == a.real_part(),
        Scalar::zero().conj() == Scalar::zero(),
        Scalar::one().conj() == Scalar::one(),
{
    assert(a.re * b.re == b.re * a.re) by (nonlinear_arith);
    assert(a.im * b.im == b.im * a.im) by (nonlinear_arith);
    assert(a.re * b.im == b.im * a.re) by (nonlinear_arith);
    assert(a.im * b.re == b.re * a.im) by (nonlinear_arith);
    assert((-a.im) * (-b.im) == a.im * b.im) by (nonlinear_arith);
    assert(a.re * (-b.im) == -(a.re * b.im)) by (nonlinear_arith);
    assert((-a.im) * b.re == -(a.im * b.re)) by (nonlinear_arith);
}

/// Sums of terms that agree one by one are equal.
pub proof fn lemma_sum_of_equal_terms(f: spec_fn(int) -> Scalar, g: spec_fn(int) -> Scalar, n: int)
    requires
        forall|l: int| 0 <= l < n ==> #[trigger] f(l) == g(l),
    ensures
        sum(f, n) == sum(g, n),
    decreases n,
{
    if n > 0 {
        lemma_sum_of_equal_terms(f, g, n - 1);
    }
}

/// The conjugate of a sum is the sum of the conjugates.
pub proof fn lemma_sum_of_conjugates(f: spec_fn(int) -> Scalar, g: spec_fn(int) -> Scalar, n: int)
    requires
        forall|l: int| 0 <= l < n ==> #[trigger] g(l) == f(l).conj(),
    ensures
        sum(g, n) == sum(f, n).conj(),
    decreases n,
{
    if n > 0 {
        lemma_sum_of_conjugates(f, g, n - 1);
    }
}

} // verus!
