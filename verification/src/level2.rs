//! What the matrix-vector operations compute, and the proof that a row-major
//! call restated by the rule table computes it.
//!
//! Each operation is written down once, for data in either storage order. The
//! kernels are the column-major instances. Each theorem takes a row-major call,
//! rewrites it by the table, and shows that the column-major operation on the
//! same buffers gives the result that the caller asked for. The arithmetic is
//! exact; rounding is outside the model.

use vstd::prelude::*;
use crate::exact::{
    lemma_scalar_laws, lemma_sum_of_conjugates, lemma_sum_of_equal_terms, sum, Scalar,
};
use crate::kernel::{Domain, Operation, ShapeClass};
use crate::layout::{input_len, native_params, ordered_pair, CallParams, Rewrite};
use crate::storage::{
    all_real, applied, lemma_other_order_is_transpose, lemma_other_triangle,
    lemma_views_of_transpose, self_adjoint, stored, triangular, Matrix, Storage, TriangleFormat,
    Vector,
};
use crate::types::CBLAS_ORDER;

verus! {

/// The vector `alpha A x + beta y`, where `A` has `cols` columns.
pub open spec fn mat_vec(
    a: Matrix,
    cols: int,
    alpha: Scalar,
    x: Vector,
    beta: Scalar,
    y: Vector,
) -> Vector {
    |i: int| alpha.times(sum(|j: int| a(i, j).times(x(j)), cols)).plus(beta.times(y(i)))
}

/// The vector `x`, conjugated element by element if `wanted`.
pub open spec fn conj_vector(wanted: bool, x: Vector) -> Vector {
    |i: int| x(i).conj_if(wanted)
}

/// The storage format of the matrix of a general matrix-vector product: band
/// storage for the banded operation, full storage otherwise.
pub open spec fn general_format(op: Operation, p: CallParams, lda: int) -> Storage {
    if op == Operation::Gbmv {
        Storage::Band { ld: lda, kl: p.kl as int, ku: p.ku as int }
    } else {
        Storage::Full { ld: lda }
    }
}

/// General matrix times vector, full or banded: `alpha op(A) x + beta y` for
/// the `m` by `n` matrix `A` that `a` holds in the given order.
pub open spec fn general_mat_vec(
    order: CBLAS_ORDER,
    op: Operation,
    p: CallParams,
    alpha: Scalar,
    a: Seq<Scalar>,
    lda: int,
    x: Vector,
    beta: Scalar,
    y: Vector,
) -> Vector {
    mat_vec(
        applied(p.transa, stored(order, general_format(op, p, lda), a)),
        input_len(p),
        alpha,
        x,
        beta,
        y,
    )
}

/// Symmetric or Hermitian matrix times vector, full, banded or packed:
/// `alpha A x + beta y` for the matrix of order `n` whose triangle `uplo` the
/// buffer `a` holds in the given order.
pub open spec fn symmetric_mat_vec(
    order: CBLAS_ORDER,
    op: Operation,
    p: CallParams,
    format: TriangleFormat,
    alpha: Scalar,
    a: Seq<Scalar>,
    x: Vector,
    beta: Scalar,
    y: Vector,
) -> Vector {
    mat_vec(
        self_adjoint(op.is_conjugating(), p.uplo, stored(order, format.of(p.uplo), a)),
        p.n as int,
        alpha,
        x,
        beta,
        y,
    )
}

/// Triangular matrix times vector, full, banded or packed: `op(A) x` for the
/// triangular matrix of order `n` that `a` holds in the given order.
pub open spec fn triangular_mat_vec(
    order: CBLAS_ORDER,
    p: CallParams,
    format: TriangleFormat,
    a: Seq<Scalar>,
    x: Vector,
) -> Vector {
    |i: int|
        sum(
            |j: int|
                applied(
                    p.transa,
                    triangular(p.uplo, p.diag, stored(order, format.of(p.uplo), a)),
                )(i, j).times(x(j)),
            p.n as int,
        )
}

/// Whether `solution` solves the triangular system `op(A) x = rhs`.
pub open spec fn triangular_solved(
    order: CBLAS_ORDER,
    p: CallParams,
    format: TriangleFormat,
    a: Seq<Scalar>,
    solution: Vector,
    rhs: Vector,
) -> bool {
    forall|i: int|
        0 <= i < p.n ==> #[trigger] triangular_mat_vec(order, p, format, a, solution)(i) == rhs(i)
}

/// The element in row `i`, column `j` of a general matrix after the rank-one
/// update `A <- alpha x y^T + A`, or `A <- alpha x y^H + A` for the conjugating
/// form.
pub open spec fn rank_one_update(
    order: CBLAS_ORDER,
    op: Operation,
    alpha: Scalar,
    x: Vector,
    y: Vector,
    a: Seq<Scalar>,
    lda: int,
) -> Matrix {
    |i: int, j: int|
        stored(order, Storage::Full { ld: lda }, a)(i, j).plus(
            alpha.times(x(i).times(y(j).conj_if(op.is_conjugating()))),
        )
}

/// The element in row `i`, column `j` of a symmetric or Hermitian matrix, full
/// or packed, after the update `A <- alpha x x^T + A`, or
/// `A <- alpha x x^H + A` for the Hermitian form.
pub open spec fn symmetric_rank_one_update(
    order: CBLAS_ORDER,
    op: Operation,
    p: CallParams,
    format: TriangleFormat,
    alpha: Scalar,
    x: Vector,
    a: Seq<Scalar>,
) -> Matrix {
    |i: int, j: int|
        self_adjoint(op.is_conjugating(), p.uplo, stored(order, format.of(p.uplo), a))(i, j).plus(
            alpha.times(x(i).times(x(j).conj_if(op.is_conjugating()))),
        )
}

/// The element in row `i`, column `j` of a symmetric or Hermitian matrix, full
/// or packed, after the update `A <- alpha x y^T + alpha y x^T + A`, or
/// `A <- alpha x y^H + conj(alpha) y x^H + A` for the Hermitian form.
pub open spec fn symmetric_rank_two_update(
    order: CBLAS_ORDER,
    op: Operation,
    p: CallParams,
    format: TriangleFormat,
    alpha: Scalar,
    x: Vector,
    y: Vector,
    a: Seq<Scalar>,
) -> Matrix {
    |i: int, j: int|
        self_adjoint(op.is_conjugating(), p.uplo, stored(order, format.of(p.uplo), a))(i, j).plus(
            alpha.times(x(i).times(y(j).conj_if(op.is_conjugating()))),
        ).plus(
            alpha.conj_if(op.is_conjugating()).times(
                y(i).times(x(j).conj_if(op.is_conjugating())),
            ),
        )
}

/// General matrix times vector, full or banded: the kernel, called on the
/// buffers of a row-major call with the dimensions exchanged, the band widths
/// exchanged and the transposition flipped, computes every element of the
/// result that the caller asked for. Over the reals the matrix must be real.
pub proof fn general_mat_vec_row_major(
    op: Operation,
    domain: Domain,
    p: CallParams,
    alpha: Scalar,
    a: Seq<Scalar>,
    lda: int,
    x: Vector,
    beta: Scalar,
    y: Vector,
    i: int,
)
    requires
        op.class_of() == ShapeClass::GeneralMatVec,
        domain == Domain::Real ==> all_real(a),
    ensures
        general_mat_vec(
            CBLAS_ORDER::CblasColMajor,
            op,
            native_params(op, domain, CBLAS_ORDER::CblasRowMajor, p),
            alpha,
            a,
            lda,
            x,
            beta,
            y,
        )(i) == general_mat_vec(CBLAS_ORDER::CblasRowMajor, op, p, alpha, a, lda, x, beta, y)(i),
{
    let q = native_params(op, domain, CBLAS_ORDER::CblasRowMajor, p);
    let row = stored(CBLAS_ORDER::CblasRowMajor, general_format(op, p, lda), a);
    let col = stored(CBLAS_ORDER::CblasColMajor, general_format(op, q, lda), a);
    let public = applied(p.transa, row);
    let native = applied(q.transa, col);
    assert forall|r: int, c: int| #[trigger] native(r, c) == public(r, c) by {
        lemma_other_order_is_transpose(general_format(op, p, lda), a, r, c);
        lemma_other_order_is_transpose(general_format(op, p, lda), a, c, r);
    }
    lemma_sum_of_equal_terms(
        |j: int| native(i, j).times(x(j)),
        |j: int| public(i, j).times(x(j)),
        input_len(p),
    );
}

/// Symmetric or Hermitian matrix times vector, full, banded or packed: the
/// kernel, called on the buffers of a row-major call with the other triangle,
/// computes every element of the result that the caller asked for. For a
/// Hermitian matrix the kernel is given the conjugates of both scalars and of
/// both vectors, and its result is conjugated.
pub proof fn symmetric_mat_vec_row_major(
    op: Operation,
    domain: Domain,
    p: CallParams,
    format: TriangleFormat,
    alpha: Scalar,
    a: Seq<Scalar>,
    x: Vector,
    beta: Scalar,
    y: Vector,
    i: int,
)
    requires
        op.class_of() == ShapeClass::SymmetricMatVec,
    ensures
        ({
            let rule = Rewrite::row_major(op);
            symmetric_mat_vec(
                CBLAS_ORDER::CblasColMajor,
                op,
                native_params(op, domain, CBLAS_ORDER::CblasRowMajor, p),
                format,
                alpha.conj_if(rule.conj_scalars),
                a,
                conj_vector(rule.conj_vectors, x),
                beta.conj_if(rule.conj_scalars),
                conj_vector(rule.conj_vectors, y),
            )(i).conj_if(rule.conj_vectors) == symmetric_mat_vec(
                CBLAS_ORDER::CblasRowMajor,
                op,
                p,
                format,
                alpha,
                a,
                x,
                beta,
                y,
            )(i)
        }),
{
    let q = native_params(op, domain, CBLAS_ORDER::CblasRowMajor, p);
    let conjugating = op.is_conjugating();
    let row = stored(CBLAS_ORDER::CblasRowMajor, format.of(p.uplo), a);
    let col = stored(CBLAS_ORDER::CblasColMajor, format.of(q.uplo), a);
    let public = self_adjoint(conjugating, p.uplo, row);
    let native = self_adjoint(conjugating, q.uplo, col);
    let nx = conj_vector(conjugating, x);
    let public_terms = |j: int| public(i, j).times(x(j));
    let native_terms = |j: int| native(i, j).times(nx(j));
    assert forall|r: int, c: int| #[trigger] native(r, c) == public(r, c).conj_if(conjugating) by {
        lemma_other_triangle(format, p.uplo, r, c);
        lemma_other_order_is_transpose(format.of(p.uplo), a, r, c);
        lemma_other_order_is_transpose(format.of(p.uplo), a, c, r);
        lemma_views_of_transpose(p.uplo, p.diag, row, r, c);
    }
    if conjugating {
        assert forall|j: int| #[trigger] native_terms(j) == public_terms(j).conj() by {
            lemma_scalar_laws(public(i, j), x(j));
        }
        lemma_sum_of_conjugates(public_terms, native_terms, p.n as int);
        let total = sum(public_terms, p.n as int);
        lemma_scalar_laws(alpha, total);
        lemma_scalar_laws(beta, y(i));
        lemma_scalar_laws(alpha.times(total), beta.times(y(i)));
        lemma_scalar_laws(alpha.times(total).plus(beta.times(y(i))), beta);
    } else {
        lemma_sum_of_equal_terms(native_terms, public_terms, p.n as int);
    }
}

/// Triangular matrix times vector, full, banded or packed: the kernel, called
/// on the buffers of a row-major call with the other triangle and the
/// transposition flipped, computes every element of the result that the caller
/// asked for, and a vector solves the kernel's triangular system exactly if it
/// solves the caller's. Over the reals the matrix must be real.
pub proof fn triangular_mat_vec_row_major(
    op: Operation,
    domain: Domain,
    p: CallParams,
    format: TriangleFormat,
    a: Seq<Scalar>,
    x: Vector,
    rhs: Vector,
    i: int,
)
    requires
        op.class_of() == ShapeClass::TriangularMatVec,
        domain == Domain::Real ==> all_real(a),
    ensures
        triangular_mat_vec(
            CBLAS_ORDER::CblasColMajor,
            native_params(op, domain, CBLAS_ORDER::CblasRowMajor, p),
            format,
            a,
            x,
        )(i) == triangular_mat_vec(CBLAS_ORDER::CblasRowMajor, p, format, a, x)(i),
        triangular_solved(
            CBLAS_ORDER::CblasColMajor,
            native_params(op, domain, CBLAS_ORDER::CblasRowMajor, p),
            format,
            a,
            x,
            rhs,
        ) == triangular_solved(CBLAS_ORDER::CblasRowMajor, p, format, a, x, rhs),
{
    let q = native_params(op, domain, CBLAS_ORDER::CblasRowMajor, p);
    let row = stored(CBLAS_ORDER::CblasRowMajor, format.of(p.uplo), a);
    let col = stored(CBLAS_ORDER::CblasColMajor, format.of(q.uplo), a);
    let public = applied(p.transa, triangular(p.uplo, p.diag, row));
    let native = applied(q.transa, triangular(q.uplo, q.diag, col));
    assert forall|r: int, c: int| #[trigger] native(r, c) == public(r, c) by {
        lemma_other_triangle(format, p.uplo, r, c);
        lemma_other_triangle(format, p.uplo, c, r);
        lemma_other_order_is_transpose(format.of(p.uplo), a, r, c);
        lemma_other_order_is_transpose(format.of(p.uplo), a, c, r);
        lemma_scalar_laws(Scalar::zero(), Scalar::one());
    }
    let by_kernel = triangular_mat_vec(CBLAS_ORDER::CblasColMajor, q, format, a, x);
    let by_caller = triangular_mat_vec(CBLAS_ORDER::CblasRowMajor, p, format, a, x);
    assert forall|r: int| #![trigger by_kernel(r)] #![trigger by_caller(r)]
        by_kernel(r) == by_caller(r) by {
        lemma_sum_of_equal_terms(
            |j: int| native(r, j).times(x(j)),
            |j: int| public(r, j).times(x(j)),
            p.n as int,
        );
    }
}

/// General rank-one update: the kernel, called on the buffers of a row-major
/// call with the dimensions exchanged and the two vectors exchanged, leaves in
/// every place of the buffer the element that the caller asked for. For the
/// conjugating form the kernel is given the conjugates of both vectors.
pub proof fn rank_one_update_row_major(
    op: Operation,
    alpha: Scalar,
    x: Vector,
    y: Vector,
    a: Seq<Scalar>,
    lda: int,
    i: int,
    j: int,
)
    requires
        op == Operation::Ger || op == Operation::Geru || op == Operation::Gerc,
    ensures
        ({
            let rule = Rewrite::row_major(op);
            let vectors = ordered_pair(rule.swap_vectors, x, y);
            rank_one_update(
                CBLAS_ORDER::CblasColMajor,
                op,
                alpha.conj_if(rule.conj_scalars),
                conj_vector(rule.conj_vectors, vectors.0),
                conj_vector(rule.conj_vectors, vectors.1),
                a,
                lda,
            )(j, i) == rank_one_update(CBLAS_ORDER::CblasRowMajor, op, alpha, x, y, a, lda)(i, j)
        }),
{
    lemma_other_order_is_transpose(Storage::Full { ld: lda }, a, i, j);
    lemma_scalar_laws(x(i), y(j));
    lemma_scalar_laws(x(i), y(j).conj());
}

/// Symmetric or Hermitian rank-one update, full or packed: the kernel, called
/// on the buffers of a row-major call with the other triangle, leaves in every
/// place of the buffer the element that the caller asked for. For the Hermitian
/// form the kernel is given the conjugate of the vector.
pub proof fn symmetric_rank_one_update_row_major(
    op: Operation,
    domain: Domain,
    p: CallParams,
    format: TriangleFormat,
    alpha: Scalar,
    x: Vector,
    a: Seq<Scalar>,
    i: int,
    j: int,
)
    requires
        op == Operation::Syr || op == Operation::Her || op == Operation::Spr || op
            == Operation::Hpr,
    ensures
        ({
            let rule = Rewrite::row_major(op);
            symmetric_rank_one_update(
                CBLAS_ORDER::CblasColMajor,
                op,
                native_params(op, domain, CBLAS_ORDER::CblasRowMajor, p),
                format,
                alpha.conj_if(rule.conj_scalars),
                conj_vector(rule.conj_vectors, x),
                a,
            )(j, i) == symmetric_rank_one_update(
                CBLAS_ORDER::CblasRowMajor,
                op,
                p,
                format,
                alpha,
                x,
                a,
            )(i, j)
        }),
{
    let row = stored(CBLAS_ORDER::CblasRowMajor, format.of(p.uplo), a);
    lemma_other_triangle(format, p.uplo, i, j);
    lemma_other_triangle(format, p.uplo, j, i);
    lemma_other_order_is_transpose(format.of(p.uplo), a, i, j);
    lemma_other_order_is_transpose(format.of(p.uplo), a, j, i);
    lemma_views_of_transpose(p.uplo, p.diag, row, j, i);
    lemma_scalar_laws(x(i), x(j));
    lemma_scalar_laws(x(i), x(j).conj());
}

/// Symmetric or Hermitian rank-two update, full or packed: the kernel, called
/// on the buffers of a row-major call with the other triangle and the two
/// vectors exchanged, leaves in every place of the buffer the element that the
/// caller asked for. For the Hermitian form the kernel is given the conjugates
/// of both vectors.
pub proof fn symmetric_rank_two_update_row_major(
    op: Operation,
    domain: Domain,
    p: CallParams,
    format: TriangleFormat,
    alpha: Scalar,
    x: Vector,
    y: Vector,
    a: Seq<Scalar>,
    i: int,
    j: int,
)
    requires
        op == Operation::Syr2 || op == Operation::Her2 || op == Operation::Spr2 || op
            == Operation::Hpr2,
    ensures
        ({
            let rule = Rewrite::row_major(op);
            let vectors = ordered_pair(rule.swap_vectors, x, y);
            symmetric_rank_two_update(
                CBLAS_ORDER::CblasColMajor,
                op,
                native_params(op, domain, CBLAS_ORDER::CblasRowMajor, p),
                format,
                alpha.conj_if(rule.conj_scalars),
                conj_vector(rule.conj_vectors, vectors.0),
                conj_vector(rule.conj_vectors, vectors.1),
                a,
            )(j, i) == symmetric_rank_two_update(
                CBLAS_ORDER::CblasRowMajor,
                op,
                p,
                format,
                alpha,
                x,
                y,
                a,
            )(i, j)
        }),
{
    let row = stored(CBLAS_ORDER::CblasRowMajor, format.of(p.uplo), a);
    let conjugating = op.is_conjugating();
    let held = self_adjoint(conjugating, p.uplo, row)(i, j);
    lemma_other_triangle(format, p.uplo, i, j);
    lemma_other_triangle(format, p.uplo, j, i);
    lemma_other_order_is_transpose(format.of(p.uplo), a, i, j);
    lemma_other_order_is_transpose(format.of(p.uplo), a, j, i);
    lemma_views_of_transpose(p.uplo, p.diag, row, j, i);
    let first = alpha.times(x(i).times(y(j).conj_if(conjugating)));
    let second = alpha.conj_if(conjugating).times(y(i).times(x(j).conj_if(conjugating)));
    lemma_scalar_laws(x(i), y(j).conj_if(conjugating));
    lemma_scalar_laws(y(i), x(j).conj_if(conjugating));
    lemma_plus_reordered(held, first, second);
}

/// A sum of three numbers does not depend on the order of the last two.
proof fn lemma_plus_reordered(a: Scalar, b: Scalar, c: Scalar)
    ensures
        a.plus(b).plus(c) == a.plus(c).plus(b),
{
}

} // verus!
