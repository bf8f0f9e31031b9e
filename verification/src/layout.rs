//! The rules by which a call on row-major data is restated as a call on
//! column-major data.
//!
//! A buffer that holds an `r` by `c` matrix by rows, with leading dimension
//! `ld`, holds a `c` by `r` matrix by columns with the same leading dimension:
//! the transpose. A column-major kernel handed the buffers of a row-major call
//! therefore sees every matrix operand transposed, and computes what the caller
//! asked for once the flags, dimensions and operand roles of the call are
//! rewritten to describe the transposed problem. Nothing is copied.
//!
//! The rewrite of an operation is a row of a table, [`Rewrite`], and one function
//! applies any row to the flags and dimensions of a call.

use vstd::prelude::*;
use crate::kernel::{Domain, Operation, ShapeClass};
use crate::types::{
    blasint, CBLAS_DIAG, CBLAS_ORDER, CBLAS_SIDE, CBLAS_TRANSPOSE, CBLAS_UPLO,
};

verus! {

/// Whether a transpose mode exchanges rows and columns.
pub open spec fn is_transposed(trans: CBLAS_TRANSPOSE) -> bool {
    trans == CBLAS_TRANSPOSE::CblasTrans || trans == CBLAS_TRANSPOSE::CblasConjTrans
}

/// Whether a transpose mode conjugates the elements.
pub open spec fn is_conjugated(trans: CBLAS_TRANSPOSE) -> bool {
    trans == CBLAS_TRANSPOSE::CblasConjTrans || trans == CBLAS_TRANSPOSE::CblasConjNoTrans
}

/// The transpose mode that transposes and conjugates as told.
pub open spec fn transpose_mode(transposed: bool, conjugated: bool) -> CBLAS_TRANSPOSE {
    if transposed {
        if conjugated {
            CBLAS_TRANSPOSE::CblasConjTrans
        } else {
            CBLAS_TRANSPOSE::CblasTrans
        }
    } else {
        if conjugated {
            CBLAS_TRANSPOSE::CblasConjNoTrans
        } else {
            CBLAS_TRANSPOSE::CblasNoTrans
        }
    }
}

/// The mode that transposes where `trans` does not and conjugates where `trans`
/// does.
pub open spec fn flipped_transpose(trans: CBLAS_TRANSPOSE) -> CBLAS_TRANSPOSE {
    transpose_mode(!is_transposed(trans), is_conjugated(trans))
}

/// The mode that transposes where `trans` does and never conjugates: on real
/// data it has the effect of `trans`.
pub open spec fn real_transpose(trans: CBLAS_TRANSPOSE) -> CBLAS_TRANSPOSE {
    transpose_mode(is_transposed(trans), false)
}

/// The other triangle.
pub open spec fn flipped_uplo(uplo: CBLAS_UPLO) -> CBLAS_UPLO {
    if uplo == CBLAS_UPLO::CblasUpper {
        CBLAS_UPLO::CblasLower
    } else {
        CBLAS_UPLO::CblasUpper
    }
}

/// The other side.
pub open spec fn flipped_side(side: CBLAS_SIDE) -> CBLAS_SIDE {
    if side == CBLAS_SIDE::CblasLeft {
        CBLAS_SIDE::CblasRight
    } else {
        CBLAS_SIDE::CblasLeft
    }
}

/// Flips the transposition of a mode and keeps its conjugation:
/// `NoTrans` and `Trans` change places, and so do `ConjNoTrans` and `ConjTrans`.
pub fn flip_transpose(trans: CBLAS_TRANSPOSE) -> (flipped: CBLAS_TRANSPOSE)
    ensures
        flipped == flipped_transpose(trans),
{
    match trans {
        CBLAS_TRANSPOSE::CblasNoTrans => CBLAS_TRANSPOSE::CblasTrans,
        CBLAS_TRANSPOSE::CblasTrans => CBLAS_TRANSPOSE::CblasNoTrans,
        CBLAS_TRANSPOSE::CblasConjTrans => CBLAS_TRANSPOSE::CblasConjNoTrans,
        CBLAS_TRANSPOSE::CblasConjNoTrans => CBLAS_TRANSPOSE::CblasConjTrans,
    }
}

/// Drops the conjugation of a mode, which has no effect on real data:
/// `ConjTrans` becomes `Trans` and `ConjNoTrans` becomes `NoTrans`.
pub fn normalize_transpose_real(trans: CBLAS_TRANSPOSE) -> (plain: CBLAS_TRANSPOSE)
    ensures
        plain == real_transpose(trans),
{
    match trans {
        CBLAS_TRANSPOSE::CblasNoTrans => CBLAS_TRANSPOSE::CblasNoTrans,
        CBLAS_TRANSPOSE::CblasTrans => CBLAS_TRANSPOSE::CblasTrans,
        CBLAS_TRANSPOSE::CblasConjTrans => CBLAS_TRANSPOSE::CblasTrans,
        CBLAS_TRANSPOSE::CblasConjNoTrans => CBLAS_TRANSPOSE::CblasNoTrans,
    }
}

/// Exchanges `Upper` and `Lower`.
pub fn flip_uplo(uplo: CBLAS_UPLO) -> (flipped: CBLAS_UPLO)
    ensures
        flipped == flipped_uplo(uplo),
{
    match uplo {
        CBLAS_UPLO::CblasUpper => CBLAS_UPLO::CblasLower,
        CBLAS_UPLO::CblasLower => CBLAS_UPLO::CblasUpper,
    }
}

/// Exchanges `Left` and `Right`.
pub fn flip_side(side: CBLAS_SIDE) -> (flipped: CBLAS_SIDE)
    ensures
        flipped == flipped_side(side),
{
    match side {
        CBLAS_SIDE::CblasLeft => CBLAS_SIDE::CblasRight,
        CBLAS_SIDE::CblasRight => CBLAS_SIDE::CblasLeft,
    }
}

/// What a rewrite does to the transpose modes of a call.
#[derive(Debug, Clone, Copy, PartialEq, Eq, Structural)]
pub enum TransposeRule {
    /// The modes stay as they are.
    Keep,
    /// The mode of the matrix flips its transposition and keeps its
    /// conjugation; on real data the conjugation is dropped.
    Flip,
    /// The mode becomes `NoTrans` where it transposed and `Trans` where it did
    /// not: the two modes of a symmetric rank-k update change places.
    FlipSymmetric,
    /// The mode becomes `NoTrans` where it transposed and `ConjTrans` where it
    /// did not: the two modes of a Hermitian rank-k update change places.
    FlipHermitian,
    /// The modes of the two matrices change places, each unchanged in itself.
    Exchange,
}

/// One row of the rule table: everything that restating a call for the other
/// storage order changes.
#[derive(Debug, Clone, Copy, PartialEq, Eq, Structural)]
pub struct Rewrite {
    /// The row count and the column count change places.
    pub swap_dims: bool,
    /// The counts of sub-diagonals and of super-diagonals change places.
    pub swap_bands: bool,
    /// `Upper` and `Lower` change places.
    pub flip_uplo: bool,
    /// `Left` and `Right` change places.
    pub flip_side: bool,
    /// What happens to the transpose modes.
    pub transpose: TransposeRule,
    /// The two input matrices change places, each with its leading dimension.
    pub swap_matrices: bool,
    /// The two vectors change places, each with its stride.
    pub swap_vectors: bool,
    /// The complex scalars of the call are conjugated.
    pub conj_scalars: bool,
    /// The vectors of the call are conjugated: an input vector is replaced by
    /// its conjugate, a vector that is also the result is conjugated before the
    /// kernel runs and again after it.
    pub conj_vectors: bool,
}

/// The flags and dimensions of a call. An operation reads the ones it has and
/// leaves the others alone.
#[derive(Debug, Clone, Copy, PartialEq, Eq, Structural)]
pub struct CallParams {
    pub side: CBLAS_SIDE,
    pub uplo: CBLAS_UPLO,
    /// The transpose mode of the matrix, or of the first of two matrices.
    pub transa: CBLAS_TRANSPOSE,
    /// The transpose mode of the second of two matrices.
    pub transb: CBLAS_TRANSPOSE,
    pub diag: CBLAS_DIAG,
    /// The row count.
    pub m: blasint,
    /// The column count.
    pub n: blasint,
    /// The count of sub-diagonals of a band matrix.
    pub kl: blasint,
    /// The count of super-diagonals of a band matrix.
    pub ku: blasint,
}

impl TransposeRule {
    /// The transpose modes after the rule, from the modes before it.
    pub open spec fn transposes(
        self,
        domain: Domain,
        transa: CBLAS_TRANSPOSE,
        transb: CBLAS_TRANSPOSE,
    ) -> (CBLAS_TRANSPOSE, CBLAS_TRANSPOSE) {
        match self {
            TransposeRule::Keep => (transa, transb),
            TransposeRule::Flip => (
                transpose_mode(
                    !is_transposed(transa),
                    domain == Domain::Complex && is_conjugated(transa),
                ),
                transb,
            ),
            TransposeRule::FlipSymmetric => (transpose_mode(!is_transposed(transa), false), transb),
            TransposeRule::FlipHermitian => (
                transpose_mode(!is_transposed(transa), !is_transposed(transa)),
                transb,
            ),
            TransposeRule::Exchange => (transb, transa),
        }
    }

    /// The modes that the rule can produce, which are the modes it can be undone
    /// on: applied twice, the rule gives back exactly these.
    pub open spec fn reversible_on(self, domain: Domain, transa: CBLAS_TRANSPOSE) -> bool {
        match self {
            TransposeRule::Keep => true,
            TransposeRule::Flip => domain == Domain::Complex || !is_conjugated(transa),
            TransposeRule::FlipSymmetric => !is_conjugated(transa),
            TransposeRule::FlipHermitian => is_transposed(transa) == is_conjugated(transa),
            TransposeRule::Exchange => true,
        }
    }

    /// Applies the rule to the transpose modes of a call.
    pub fn apply(self, domain: Domain, transa: CBLAS_TRANSPOSE, transb: CBLAS_TRANSPOSE) -> (out: (
        CBLAS_TRANSPOSE,
        CBLAS_TRANSPOSE,
    ))
        ensures
            out == self.transposes(domain, transa, transb),
    {
        match self {
            TransposeRule::Keep => (transa, transb),
            TransposeRule::Flip => match domain {
                Domain::Real => (flip_transpose(normalize_transpose_real(transa)), transb),
                Domain::Complex => (flip_transpose(transa), transb),
            },
            TransposeRule::FlipSymmetric => match transa {
                CBLAS_TRANSPOSE::CblasNoTrans => (CBLAS_TRANSPOSE::CblasTrans, transb),
                CBLAS_TRANSPOSE::CblasConjNoTrans => (CBLAS_TRANSPOSE::CblasTrans, transb),
                _ => (CBLAS_TRANSPOSE::CblasNoTrans, transb),
            },
            TransposeRule::FlipHermitian => match transa {
                CBLAS_TRANSPOSE::CblasNoTrans => (CBLAS_TRANSPOSE::CblasConjTrans, transb),
                CBLAS_TRANSPOSE::CblasConjNoTrans => (CBLAS_TRANSPOSE::CblasConjTrans, transb),
                _ => (CBLAS_TRANSPOSE::CblasNoTrans, transb),
            },
            TransposeRule::Exchange => (transb, transa),
        }
    }
}

impl CallParams {
    /// The parameters of a call with the given dimensions and no mode set: left
    /// side, upper triangle, no transposition, stored diagonal, no bands.
    pub fn plain(m: blasint, n: blasint) -> (p: CallParams)
        ensures
            p == (CallParams {
                side: CBLAS_SIDE::CblasLeft,
                uplo: CBLAS_UPLO::CblasUpper,
                transa: CBLAS_TRANSPOSE::CblasNoTrans,
                transb: CBLAS_TRANSPOSE::CblasNoTrans,
                diag: CBLAS_DIAG::CblasNonUnit,
                m,
                n,
                kl: 0,
                ku: 0,
            }),
    {
        CallParams {
            side: CBLAS_SIDE::CblasLeft,
            uplo: CBLAS_UPLO::CblasUpper,
            transa: CBLAS_TRANSPOSE::CblasNoTrans,
            transb: CBLAS_TRANSPOSE::CblasNoTrans,
            diag: CBLAS_DIAG::CblasNonUnit,
            m,
            n,
            kl: 0,
            ku: 0,
        }
    }
}

impl Rewrite {
    /// The rewrite that changes nothing.
    pub open spec fn identity() -> Rewrite {
        Rewrite {
            swap_dims: false,
            swap_bands: false,
            flip_uplo: false,
            flip_side: false,
            transpose: TransposeRule::Keep,
            swap_matrices: false,
            swap_vectors: false,
            conj_scalars: false,
            conj_vectors: false,
        }
    }

    /// The rewrite that restates a row-major call of `op` for a column-major
    /// kernel.
    ///
    /// Every Hermitian and conjugating form gets the full correction. The
    /// transpose of a Hermitian matrix is its conjugate, so a kernel that is
    /// handed the buffer of a row-major Hermitian matrix works on the conjugate
    /// of what the caller meant. A form that multiplies the matrix by a vector
    /// therefore conjugates scalars and vectors round the call, and a form that
    /// updates the matrix from vectors conjugates the vectors. Flipping the
    /// triangle alone is right only for data without imaginary parts.
    ///
    /// A transpose mode that the operation does not have is not rejected here:
    /// a rank-k rule sends any mode that transposes to `NoTrans` and any other
    /// to the operation's transposing mode.
    pub open spec fn row_major(op: Operation) -> Rewrite {
        Rewrite {
            swap_dims: op.is_rectangular(),
            swap_bands: op == Operation::Gbmv,
            flip_uplo: op.has_triangle(),
            flip_side: op.has_side(),
            transpose: match op.class_of() {
                ShapeClass::GeneralMatVec | ShapeClass::TriangularMatVec => TransposeRule::Flip,
                ShapeClass::GeneralMatMat => TransposeRule::Exchange,
                ShapeClass::RankK => if op.is_conjugating() {
                    TransposeRule::FlipHermitian
                } else {
                    TransposeRule::FlipSymmetric
                },
                _ => TransposeRule::Keep,
            },
            swap_matrices: op.class_of() == ShapeClass::GeneralMatMat,
            swap_vectors: op.has_two_update_vectors(),
            conj_scalars: op.is_conjugating() && (op.class_of() == ShapeClass::SymmetricMatVec
                || op == Operation::Her2k),
            conj_vectors: op.is_conjugating() && (op.class_of() == ShapeClass::SymmetricMatVec
                || op.class_of() == ShapeClass::RankUpdate),
        }
    }

    /// The rewrite for a call of `op` on data in storage order `order`: none for
    /// column-major data, the row-major rewrite of `op` for row-major data.
    pub open spec fn of(op: Operation, order: CBLAS_ORDER) -> Rewrite {
        match order {
            CBLAS_ORDER::CblasColMajor => Rewrite::identity(),
            CBLAS_ORDER::CblasRowMajor => Rewrite::row_major(op),
        }
    }

    /// The flags and dimensions after the rewrite, from those before it.
    pub open spec fn rewritten(self, domain: Domain, p: CallParams) -> CallParams {
        CallParams {
            side: if self.flip_side {
                flipped_side(p.side)
            } else {
                p.side
            },
            uplo: if self.flip_uplo {
                flipped_uplo(p.uplo)
            } else {
                p.uplo
            },
            transa: self.transpose.transposes(domain, p.transa, p.transb).0,
            transb: self.transpose.transposes(domain, p.transa, p.transb).1,
            diag: p.diag,
            m: if self.swap_dims {
                p.n
            } else {
                p.m
            },
            n: if self.swap_dims {
                p.m
            } else {
                p.n
            },
            kl: if self.swap_bands {
                p.ku
            } else {
                p.kl
            },
            ku: if self.swap_bands {
                p.kl
            } else {
                p.ku
            },
        }
    }

    /// Applies the rewrite to the flags and dimensions of a call.
    pub fn apply(&self, domain: Domain, p: CallParams) -> (out: CallParams)
        ensures
            out == self.rewritten(domain, p),
    {
        let mut out = p;
        if self.flip_side {
            out.side = flip_side(p.side);
        }
        if self.flip_uplo {
            out.uplo = flip_uplo(p.uplo);
        }
        let (transa, transb) = self.transpose.apply(domain, p.transa, p.transb);
        out.transa = transa;
        out.transb = transb;
        if self.swap_dims {
            out.m = p.n;
            out.n = p.m;
        }
        if self.swap_bands {
            out.kl = p.ku;
            out.ku = p.kl;
        }
        out
    }
}

/// Looks up the rewrite for a call of `op` on data in storage order `order`.
pub fn rewrite_for(op: Operation, order: CBLAS_ORDER) -> (rw: Rewrite)
    ensures
        rw == Rewrite::of(op, order),
{
    let none = Rewrite {
        swap_dims: false,
        swap_bands: false,
        flip_uplo: false,
        flip_side: false,
        transpose: TransposeRule::Keep,
        swap_matrices: false,
        swap_vectors: false,
        conj_scalars: false,
        conj_vectors: false,
    };
    match order {
        CBLAS_ORDER::CblasColMajor => none,
        CBLAS_ORDER::CblasRowMajor => match op {
            Operation::Gemv => Rewrite { swap_dims: true, transpose: TransposeRule::Flip, ..none },
            Operation::Gbmv => Rewrite {
                swap_dims: true,
                swap_bands: true,
                transpose: TransposeRule::Flip,
                ..none
            },
            Operation::Symv | Operation::Sbmv | Operation::Spmv => Rewrite {
                flip_uplo: true,
                ..none
            },
            Operation::Hemv | Operation::Hbmv | Operation::Hpmv => Rewrite {
                flip_uplo: true,
                conj_scalars: true,
                conj_vectors: true,
                ..none
            },
            Operation::Trmv | Operation::Trsv | Operation::Tbmv | Operation::Tbsv
            | Operation::Tpmv | Operation::Tpsv => Rewrite {
                flip_uplo: true,
                transpose: TransposeRule::Flip,
                ..none
            },
            Operation::Ger | Operation::Geru => Rewrite {
                swap_dims: true,
                swap_vectors: true,
                ..none
            },
            Operation::Gerc => Rewrite {
                swap_dims: true,
                swap_vectors: true,
                conj_vectors: true,
                ..none
            },
            Operation::Syr | Operation::Spr => Rewrite { flip_uplo: true, ..none },
            Operation::Her | Operation::Hpr => Rewrite {
                flip_uplo: true,
                conj_vectors: true,
                ..none
            },
            Operation::Syr2 | Operation::Spr2 => Rewrite {
                flip_uplo: true,
                swap_vectors: true,
                ..none
            },
            Operation::Her2 | Operation::Hpr2 => Rewrite {
                flip_uplo: true,
                swap_vectors: true,
                conj_vectors: true,
                ..none
            },
            Operation::Gemm => Rewrite {
                swap_dims: true,
                transpose: TransposeRule::Exchange,
                swap_matrices: true,
                ..none
            },
            Operation::Symm | Operation::Hemm | Operation::Trmm | Operation::Trsm => Rewrite {
                swap_dims: true,
                flip_side: true,
                flip_uplo: true,
                ..none
            },
            Operation::Syrk | Operation::Syr2k => Rewrite {
                flip_uplo: true,
                transpose: TransposeRule::FlipSymmetric,
                ..none
            },
            Operation::Herk => Rewrite {
                flip_uplo: true,
                transpose: TransposeRule::FlipHermitian,
                ..none
            },
            Operation::Her2k => Rewrite {
                flip_uplo: true,
                transpose: TransposeRule::FlipHermitian,
                conj_scalars: true,
                ..none
            },
            Operation::Swap | Operation::Copy | Operation::Axpy | Operation::Scal
            | Operation::RealScal | Operation::Rot | Operation::Rotg | Operation::Rotm
            | Operation::Rotmg | Operation::Cabs1 | Operation::Dot | Operation::Dotu
            | Operation::Dotc | Operation::Sdsdot | Operation::Dsdot | Operation::Nrm2
            | Operation::Asum | Operation::Iamax => none,
        },
    }
}

/// Restates the flags and dimensions of a call of `op` on data in storage order
/// `order` as the flags and dimensions to hand to the column-major kernel.
pub open spec fn native_params(
    op: Operation,
    domain: Domain,
    order: CBLAS_ORDER,
    p: CallParams,
) -> CallParams {
    Rewrite::of(op, order).rewritten(domain, p)
}

/// Restates the flags and dimensions of a call of `op` on data in storage order
/// `order` as the flags and dimensions to hand to the column-major kernel.
/// Column-major calls pass through unchanged. Nothing is validated.
pub fn to_native(op: Operation, domain: Domain, order: CBLAS_ORDER, p: CallParams) -> (out:
    CallParams)
    ensures
        out == native_params(op, domain, order, p),
{
    rewrite_for(op, order).apply(domain, p)
}

/// Two operands in the order the kernel takes them: exchanged if `swapped`.
pub open spec fn ordered_pair<P>(swapped: bool, first: P, second: P) -> (P, P) {
    if swapped {
        (second, first)
    } else {
        (first, second)
    }
}

/// Hands back two operands in the order the kernel takes them: exchanged if the
/// rewrite says so.
pub fn pick_pair<P>(swapped: bool, first: P, second: P) -> (out: (P, P))
    ensures
        out == ordered_pair(swapped, first, second),
{
    if swapped {
        (second, first)
    } else {
        (first, second)
    }
}

/// Each flip undoes itself; flipping a transpose mode changes whether it
/// transposes and keeps whether it conjugates; dropping the conjugation keeps
/// whether it transposes.
pub proof fn flips_are_involutions(trans: CBLAS_TRANSPOSE, uplo: CBLAS_UPLO, side: CBLAS_SIDE)
    ensures
        flipped_transpose(flipped_transpose(trans)) == trans,
        is_transposed(flipped_transpose(trans)) == !is_transposed(trans),
        is_conjugated(flipped_transpose(trans)) == is_conjugated(trans),
        flipped_transpose(trans) != trans,
        is_transposed(real_transpose(trans)) == is_transposed(trans),
        !is_conjugated(real_transpose(trans)),
        real_transpose(real_transpose(trans)) == real_transpose(trans),
        transpose_mode(is_transposed(trans), is_conjugated(trans)) == trans,
        flipped_uplo(flipped_uplo(uplo)) == uplo,
        flipped_uplo(uplo) != uplo,
        flipped_side(flipped_side(side)) == side,
        flipped_side(side) != side,
{
}

/// An operation on vectors alone is the same call whatever the storage order
/// that it is given: the order is accepted and has no effect.
pub proof fn vector_operations_have_no_order(
    op: Operation,
    domain: Domain,
    order: CBLAS_ORDER,
    p: CallParams,
)
    requires
        op.class_of() == ShapeClass::Vector,
    ensures
        Rewrite::of(op, order) == Rewrite::identity(),
        native_params(op, domain, order, p) == p,
{
}

/// How many elements the result vector of a matrix-vector product has: the
/// row count of `op(A)`.
pub open spec fn result_len(p: CallParams) -> int {
    if is_transposed(p.transa) {
        p.n as int
    } else {
        p.m as int
    }
}

/// How many elements the input vector of a matrix-vector product has: the
/// column count of `op(A)`.
pub open spec fn input_len(p: CallParams) -> int {
    if is_transposed(p.transa) {
        p.m as int
    } else {
        p.n as int
    }
}

/// A kernel is told the shape of the transposed problem. Where the operation
/// has a row and a column count, they change places, so that the kernel writes
/// row `j`, column `i` of its result exactly where the caller's has row `i`,
/// column `j`; elsewhere the order stays. The vectors of a general
/// matrix-vector product keep their lengths, and the kind of diagonal stays.
pub proof fn rewritten_call_has_the_transposed_shape(
    op: Operation,
    domain: Domain,
    p: CallParams,
    i: int,
    j: int,
)
    ensures
        ({
            let q = native_params(op, domain, CBLAS_ORDER::CblasRowMajor, p);
            &&& op.is_rectangular() ==> q.m == p.n && q.n == p.m
            &&& op.is_rectangular() ==> (0 <= j < q.m && 0 <= i < q.n <==> 0 <= i < p.m && 0 <= j
                < p.n)
            &&& !op.is_rectangular() ==> q.m == p.m && q.n == p.n
            &&& op.class_of() == ShapeClass::GeneralMatVec ==> result_len(q) == result_len(p)
                && input_len(q) == input_len(p)
            &&& op == Operation::Gbmv ==> q.kl == p.ku && q.ku == p.kl
            &&& op != Operation::Gbmv ==> q.kl == p.kl && q.ku == p.ku
            &&& q.diag == p.diag
        }),
{
}

/// The rule for column-major data changes nothing, and the rule for row-major
/// data is its own inverse on everything it can produce: the parameters that it
/// hands to a kernel are restored exactly by applying it twice more. On the
/// parameters of a caller it is its own inverse exactly where the transpose mode
/// is one the rule can be undone on, and exchanging operands twice restores
/// them.
pub proof fn row_major_rule_is_its_own_inverse<P>(
    op: Operation,
    domain: Domain,
    p: CallParams,
    first: P,
    second: P,
)
    ensures
        native_params(op, domain, CBLAS_ORDER::CblasColMajor, p) == p,
        ({
            let native = native_params(op, domain, CBLAS_ORDER::CblasRowMajor, p);
            let back = native_params(op, domain, CBLAS_ORDER::CblasRowMajor, native);
            let again = native_params(op, domain, CBLAS_ORDER::CblasRowMajor, back);
            let rule = Rewrite::row_major(op);
            &&& again == native
            &&& rule.transpose.reversible_on(domain, native.transa)
            &&& back == p <==> rule.transpose.reversible_on(domain, p.transa)
        }),
        ({
            let swapped = Rewrite::row_major(op).swap_matrices;
            let once = ordered_pair(swapped, first, second);
            ordered_pair(swapped, once.0, once.1) == (first, second)
        }),
{
}

} // verus!
