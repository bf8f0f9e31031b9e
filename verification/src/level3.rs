//! What the matrix-matrix operations compute, and the proof that a row-major
//! call restated by the rule table computes it.
//!
//! The result of a kernel lands in the buffer of the caller's result matrix,
//! which the kernel reads and writes by columns and the caller by rows. The
//! element that the kernel calls row `j`, column `i` is the element that the
//! caller calls row `i`, column `j`; each theorem compares those two.

use vstd::prelude::*;
use crate::exact::{lemma_scalar_laws, lemma_sum_of_equal_terms, sum, Scalar};
use crate::kernel::{Domain, Operation, ShapeClass};
use crate::layout::{native_params, ordered_pair, CallParams, Rewrite};
use crate::storage::{
    all_real, applied, lemma_other_order_is_transpose, lemma_views_of_transpose, self_adjoint,
    stored, triangular, Matrix, Storage,
};
use crate::types::{CBLAS_ORDER, CBLAS_SIDE};

verus! {

/// The product of two matrices, the first with `k` columns.
pub open spec fn product(a: Matrix, b: Matrix, k: int) -> Matrix {
    |i: int, j: int| sum(|l: int| a(i, l).times(b(l, j)), k)
}

/// The matrix that `buf` holds in full storage with leading dimension `ld`.
pub open spec fn full(order: CBLAS_ORDER, buf: Seq<Scalar>, ld: int) -> Matrix {
    stored(order, Storage::Full { ld }, buf)
}

/// General matrix product: `alpha op(A) op(B) + beta C`, where `op(A)` has `k`
/// columns.
pub open spec fn gemm(
    order: CBLAS_ORDER,
    p: CallParams,
    k: int,
    alpha: Scalar,
    a: Seq<Scalar>,
    lda: int,
    b: Seq<Scalar>,
    ldb: int,
    beta: Scalar,
    c: Seq<Scalar>,
    ldc: int,
) -> Matrix {
    |i: int, j: int|
        alpha.times(
            product(
                applied(p.transa, full(order, a, lda)),
                applied(p.transb, full(order, b, ldb)),
                k,
            )(i, j),
        ).plus(beta.times(full(order, c, ldc)(i, j)))
}

/// Product with a symmetric or Hermitian matrix `A` of which `a` holds one
/// triangle: `alpha A B + beta C` if `A` stands on the left, `alpha B A + beta C`
/// if on the right, for `m` by `n` matrices `B` and `C`.
pub open spec fn symm(
    order: CBLAS_ORDER,
    op: Operation,
    p: CallParams,
    alpha: Scalar,
    a: Seq<Scalar>,
    lda: int,
    b: Seq<Scalar>,
    ldb: int,
    beta: Scalar,
    c: Seq<Scalar>,
    ldc: int,
) -> Matrix {
    let special = self_adjoint(op.is_conjugating(), p.uplo, full(order, a, lda));
    |i: int, j: int|
        alpha.times(
            if p.side == CBLAS_SIDE::CblasLeft {
                product(special, full(order, b, ldb), p.m as int)(i, j)
            } else {
                product(full(order, b, ldb), special, p.n as int)(i, j)
            },
        ).plus(beta.times(full(order, c, ldc)(i, j)))
}

/// Rank-k update of a symmetric or Hermitian matrix `C` of which `c` holds one
/// triangle: `alpha X X^T + beta C`, or `alpha X X^H + beta C` for the Hermitian
/// form, where `X = op(A)` has `k` columns.
pub open spec fn rank_k(
    order: CBLAS_ORDER,
    op: Operation,
    p: CallParams,
    k: int,
    alpha: Scalar,
    a: Seq<Scalar>,
    lda: int,
    beta: Scalar,
    c: Seq<Scalar>,
    ldc: int,
) -> Matrix {
    let x = applied(p.transa, full(order, a, lda));
    let held = self_adjoint(op.is_conjugating(), p.uplo, full(order, c, ldc));
    |i: int, j: int|
        alpha.times(sum(|l: int| x(i, l).times(x(j, l).conj_if(op.is_conjugating())), k)).plus(
            beta.times(held(i, j)),
        )
}

/// Rank-2k update of a symmetric or Hermitian matrix `C` of which `c` holds one
/// triangle: `alpha X Y^T + alpha Y X^T + beta C`, or
/// `alpha X Y^H + conj(alpha) Y X^H + beta C` for the Hermitian form, where
/// `X = op(A)` and `Y = op(B)` have `k` columns.
pub open spec fn rank_2k(
    order: CBLAS_ORDER,
    op: Operation,
    p: CallParams,
    k: int,
    alpha: Scalar,
    a: Seq<Scalar>,
    lda: int,
    b: Seq<Scalar>,
    ldb: int,
    beta: Scalar,
    c: Seq<Scalar>,
    ldc: int,
) -> Matrix {
    let x = applied(p.transa, full(order, a, lda));
    let y = applied(p.transa, full(order, b, ldb));
    let held = self_adjoint(op.is_conjugating(), p.uplo, full(order, c, ldc));
    |i: int, j: int|
        alpha.times(sum(|l: int| x(i, l).times(y(j, l).conj_if(op.is_conjugating())), k)).plus(
            alpha.conj_if(op.is_conjugating()).times(
                sum(|l: int| y(i, l).times(x(j, l).conj_if(op.is_conjugating())), k),
            ),
        ).plus(beta.times(held(i, j)))
}

/// The product of a triangular matrix `A` and an `m` by `n` matrix `X`, without
/// the scalar: `op(A) X` if `A` stands on the left, `X op(A)` if on the right.
pub open spec fn triangular_product(
    order: CBLAS_ORDER,
    p: CallParams,
    a: Seq<Scalar>,
    lda: int,
    x: Seq<Scalar>,
    ldx: int,
) -> Matrix {
    let special = applied(p.transa, triangular(p.uplo, p.diag, full(order, a, lda)));
    |i: int, j: int|
        if p.side == CBLAS_SIDE::CblasLeft {
            product(special, full(order, x, ldx), p.m as int)(i, j)
        } else {
            product(full(order, x, ldx), special, p.n as int)(i, j)
        }
}

/// Triangular matrix product: `alpha op(A) B` or `alpha B op(A)`.
pub open spec fn trmm(
    order: CBLAS_ORDER,
    p: CallParams,
    alpha: Scalar,
    a: Seq<Scalar>,
    lda: int,
    b: Seq<Scalar>,
    ldb: int,
) -> Matrix {
    |i: int, j: int| alpha.times(triangular_product(order, p, a, lda, b, ldb)(i, j))
}

/// Whether the `m` by `n` matrix that `solution` holds solves the triangular
/// system `op(A) X = alpha B`, or `X op(A) = alpha B` if `A` stands on the
/// right.
pub open spec fn trsm_solved(
    order: CBLAS_ORDER,
    p: CallParams,
    alpha: Scalar,
    a: Seq<Scalar>,
    lda: int,
    solution: Seq<Scalar>,
    b: Seq<Scalar>,
    ldb: int,
) -> bool {
    forall|i: int, j: int|
        0 <= i < p.m && 0 <= j < p.n ==> #[trigger] triangular_product(
            order,
            p,
            a,
            lda,
            solution,
            ldb,
        )(i, j) == alpha.times(full(order, b, ldb)(i, j))
}

/// General matrix product: the kernel, called on the buffers of a row-major
/// call with the two input matrices exchanged, each with its leading dimension
/// and its transpose mode, and with the row and column counts exchanged, leaves
/// in every place of the result buffer the element that the caller asked for.
pub proof fn gemm_row_major(
    domain: Domain,
    p: CallParams,
    k: int,
    alpha: Scalar,
    a: Seq<Scalar>,
    lda: int,
    b: Seq<Scalar>,
    ldb: int,
    beta: Scalar,
    c: Seq<Scalar>,
    ldc: int,
    i: int,
    j: int,
)
    ensures
        ({
            let rule = Rewrite::row_major(Operation::Gemm);
            let inputs = ordered_pair(rule.swap_matrices, (a, lda), (b, ldb));
            gemm(
                CBLAS_ORDER::CblasColMajor,
                native_params(Operation::Gemm, domain, CBLAS_ORDER::CblasRowMajor, p),
                k,
                alpha,
                inputs.0.0,
                inputs.0.1,
                inputs.1.0,
                inputs.1.1,
                beta,
                c,
                ldc,
            )(j, i) == gemm(
                CBLAS_ORDER::CblasRowMajor,
                p,
                k,
                alpha,
                a,
                lda,
                b,
                ldb,
                beta,
                c,
                ldc,
            )(i, j)
        }),
{
    let q = native_params(Operation::Gemm, domain, CBLAS_ORDER::CblasRowMajor, p);
    let left = applied(p.transa, full(CBLAS_ORDER::CblasRowMajor, a, lda));
    let right = applied(p.transb, full(CBLAS_ORDER::CblasRowMajor, b, ldb));
    let native_left = applied(q.transa, full(CBLAS_ORDER::CblasColMajor, b, ldb));
    let native_right = applied(q.transb, full(CBLAS_ORDER::CblasColMajor, a, lda));
    assert forall|l: int| #[trigger]
        native_left(j, l).times(native_right(l, i)) == left(i, l).times(right(l, j)) by {
        lemma_other_order_is_transpose(Storage::Full { ld: lda }, a, i, l);
        lemma_other_order_is_transpose(Storage::Full { ld: lda }, a, l, i);
        lemma_other_order_is_transpose(Storage::Full { ld: ldb }, b, j, l);
        lemma_other_order_is_transpose(Storage::Full { ld: ldb }, b, l, j);
        lemma_scalar_laws(left(i, l), right(l, j));
    }
    lemma_sum_of_equal_terms(
        |l: int| native_left(j, l).times(native_right(l, i)),
        |l: int| left(i, l).times(right(l, j)),
        k,
    );
    lemma_other_order_is_transpose(Storage::Full { ld: ldc }, c, i, j);
}

/// Product with a symmetric or Hermitian matrix: the kernel, called on the
/// buffers of a row-major call with the other side, the other triangle and the
/// row and column counts exchanged, leaves in every place of the result buffer
/// the element that the caller asked for. Nothing is conjugated, for the
/// Hermitian form either.
pub proof fn symm_row_major(
    op: Operation,
    domain: Domain,
    p: CallParams,
    alpha: Scalar,
    a: Seq<Scalar>,
    lda: int,
    b: Seq<Scalar>,
    ldb: int,
    beta: Scalar,
    c: Seq<Scalar>,
    ldc: int,
    i: int,
    j: int,
)
    requires
        op.class_of() == ShapeClass::SymmetricMatMat,
    ensures
        ({
            let rule = Rewrite::row_major(op);
            &&& !rule.conj_scalars && !rule.conj_vectors && !rule.swap_matrices
            &&& symm(
                CBLAS_ORDER::CblasColMajor,
                op,
                native_params(op, domain, CBLAS_ORDER::CblasRowMajor, p),
                alpha,
                a,
                lda,
                b,
                ldb,
                beta,
                c,
                ldc,
            )(j, i) == symm(
                CBLAS_ORDER::CblasRowMajor,
                op,
                p,
                alpha,
                a,
                lda,
                b,
                ldb,
                beta,
                c,
                ldc,
            )(i, j)
        }),
{
    let q = native_params(op, domain, CBLAS_ORDER::CblasRowMajor, p);
    let conjugating = op.is_conjugating();
    let row = full(CBLAS_ORDER::CblasRowMajor, a, lda);
    let special = self_adjoint(conjugating, p.uplo, row);
    let col = full(CBLAS_ORDER::CblasColMajor, a, lda);
    let native_special = self_adjoint(conjugating, q.uplo, col);
    let other = full(CBLAS_ORDER::CblasRowMajor, b, ldb);
    let native_other = full(CBLAS_ORDER::CblasColMajor, b, ldb);
    assert forall|r: int, s: int| #[trigger] native_special(r, s) == special(s, r) by {
        lemma_other_order_is_transpose(Storage::Full { ld: lda }, a, r, s);
        lemma_other_order_is_transpose(Storage::Full { ld: lda }, a, s, r);
        lemma_views_of_transpose(p.uplo, p.diag, row, r, s);
    }
    assert forall|r: int, s: int| #[trigger] native_other(r, s) == other(s, r) by {
        lemma_other_order_is_transpose(Storage::Full { ld: ldb }, b, s, r);
    }
    if p.side == CBLAS_SIDE::CblasLeft {
        assert forall|l: int| #[trigger]
            native_other(j, l).times(native_special(l, i)) == special(i, l).times(other(l, j)) by {
            lemma_scalar_laws(special(i, l), other(l, j));
        }
        lemma_sum_of_equal_terms(
            |l: int| native_other(j, l).times(native_special(l, i)),
            |l: int| special(i, l).times(other(l, j)),
            p.m as int,
        );
    } else {
        assert forall|l: int| #[trigger]
            native_special(j, l).times(native_other(l, i)) == other(i, l).times(special(l, j)) by {
            lemma_scalar_laws(other(i, l), special(l, j));
        }
        lemma_sum_of_equal_terms(
            |l: int| native_special(j, l).times(native_other(l, i)),
            |l: int| other(i, l).times(special(l, j)),
            p.n as int,
        );
    }
    lemma_other_order_is_transpose(Storage::Full { ld: ldc }, c, i, j);
}

/// Rank-k update: the kernel, called on the buffers of a row-major call with
/// the other triangle and the other of the operation's two transpose modes,
/// leaves in every place of the result buffer the element that the caller
/// asked for. The caller's mode must be one of the two, or the input matrix
/// real.
pub proof fn rank_k_row_major(
    op: Operation,
    domain: Domain,
    p: CallParams,
    k: int,
    alpha: Scalar,
    a: Seq<Scalar>,
    lda: int,
    beta: Scalar,
    c: Seq<Scalar>,
    ldc: int,
    i: int,
    j: int,
)
    requires
        op == Operation::Syrk || op == Operation::Herk,
        Rewrite::row_major(op).transpose.reversible_on(domain, p.transa) || all_real(a),
    ensures
        ({
            let rule = Rewrite::row_major(op);
            rank_k(
                CBLAS_ORDER::CblasColMajor,
                op,
                native_params(op, domain, CBLAS_ORDER::CblasRowMajor, p),
                k,
                alpha.conj_if(rule.conj_scalars),
                a,
                lda,
                beta,
                c,
                ldc,
            )(j, i) == rank_k(CBLAS_ORDER::CblasRowMajor, op, p, k, alpha, a, lda, beta, c, ldc)(
                i,
                j,
            )
        }),
{
    let q = native_params(op, domain, CBLAS_ORDER::CblasRowMajor, p);
    let conjugating = op.is_conjugating();
    let x = applied(p.transa, full(CBLAS_ORDER::CblasRowMajor, a, lda));
    let native_x = applied(q.transa, full(CBLAS_ORDER::CblasColMajor, a, lda));
    lemma_input_of_rank_k(op, domain, p, a, lda);
    assert forall|l: int| #[trigger]
        native_x(j, l).times(native_x(i, l).conj_if(conjugating)) == x(i, l).times(
            x(j, l).conj_if(conjugating),
        ) by {
        lemma_scalar_laws(x(i, l), x(j, l).conj_if(conjugating));
    }
    lemma_sum_of_equal_terms(
        |l: int| native_x(j, l).times(native_x(i, l).conj_if(conjugating)),
        |l: int| x(i, l).times(x(j, l).conj_if(conjugating)),
        k,
    );
    let held = full(CBLAS_ORDER::CblasRowMajor, c, ldc);
    lemma_other_order_is_transpose(Storage::Full { ld: ldc }, c, i, j);
    lemma_other_order_is_transpose(Storage::Full { ld: ldc }, c, j, i);
    lemma_views_of_transpose(p.uplo, p.diag, held, j, i);
}

/// Rank-2k update: the kernel, called on the buffers of a row-major call with
/// the other triangle and the other of the operation's two transpose modes,
/// leaves in every place of the result buffer the element that the caller
/// asked for. For the Hermitian form the kernel is given the conjugate of the
/// complex scalar. The caller's mode must be one of the two, or both input
/// matrices real.
pub proof fn rank_2k_row_major(
    op: Operation,
    domain: Domain,
    p: CallParams,
    k: int,
    alpha: Scalar,
    a: Seq<Scalar>,
    lda: int,
    b: Seq<Scalar>,
    ldb: int,
    beta: Scalar,
    c: Seq<Scalar>,
    ldc: int,
    i: int,
    j: int,
)
    requires
        op == Operation::Syr2k || op == Operation::Her2k,
        Rewrite::row_major(op).transpose.reversible_on(domain, p.transa) || (all_real(a)
            && all_real(b)),
    ensures
        ({
            let rule = Rewrite::row_major(op);
            rank_2k(
                CBLAS_ORDER::CblasColMajor,
                op,
                native_params(op, domain, CBLAS_ORDER::CblasRowMajor, p),
                k,
                alpha.conj_if(rule.conj_scalars),
                a,
                lda,
                b,
                ldb,
                beta,
                c,
                ldc,
            )(j, i) == rank_2k(
                CBLAS_ORDER::CblasRowMajor,
                op,
                p,
                k,
                alpha,
                a,
                lda,
                b,
                ldb,
                beta,
                c,
                ldc,
            )(i, j)
        }),
{
    let q = native_params(op, domain, CBLAS_ORDER::CblasRowMajor, p);
    let conjugating = op.is_conjugating();
    let x = applied(p.transa, full(CBLAS_ORDER::CblasRowMajor, a, lda));
    let y = applied(p.transa, full(CBLAS_ORDER::CblasRowMajor, b, ldb));
    let native_x = applied(q.transa, full(CBLAS_ORDER::CblasColMajor, a, lda));
    let native_y = applied(q.transa, full(CBLAS_ORDER::CblasColMajor, b, ldb));
    lemma_input_of_rank_k(op, domain, p, a, lda);
    lemma_input_of_rank_k(op, domain, p, b, ldb);
    assert forall|l: int| #[trigger]
        native_x(j, l).times(native_y(i, l).conj_if(conjugating)) == y(i, l).times(
            x(j, l).conj_if(conjugating),
        ) by {
        lemma_scalar_laws(y(i, l), x(j, l).conj_if(conjugating));
    }
    assert forall|l: int| #[trigger]
        native_y(j, l).times(native_x(i, l).conj_if(conjugating)) == x(i, l).times(
            y(j, l).conj_if(conjugating),
        ) by {
        lemma_scalar_laws(x(i, l), y(j, l).conj_if(conjugating));
    }
    lemma_sum_of_equal_terms(
        |l: int| native_x(j, l).times(native_y(i, l).conj_if(conjugating)),
        |l: int| y(i, l).times(x(j, l).conj_if(conjugating)),
        k,
    );
    lemma_sum_of_equal_terms(
        |l: int| native_y(j, l).times(native_x(i, l).conj_if(conjugating)),
        |l: int| x(i, l).times(y(j, l).conj_if(conjugating)),
        k,
    );
    let held = full(CBLAS_ORDER::CblasRowMajor, c, ldc);
    lemma_other_order_is_transpose(Storage::Full { ld: ldc }, c, i, j);
    lemma_other_order_is_transpose(Storage::Full { ld: ldc }, c, j, i);
    lemma_views_of_transpose(p.uplo, p.diag, held, j, i);
    lemma_scalar_laws(alpha, alpha);
    let first = alpha.times(sum(|l: int| x(i, l).times(y(j, l).conj_if(conjugating)), k));
    let second = alpha.conj_if(conjugating).times(
        sum(|l: int| y(i, l).times(x(j, l).conj_if(conjugating)), k),
    );
    lemma_scalar_laws(first, second);
}

/// The input of a rank-k update as the kernel reads it: for the symmetric form
/// the matrix that the caller described, for the Hermitian form its conjugate.
proof fn lemma_input_of_rank_k(
    op: Operation,
    domain: Domain,
    p: CallParams,
    a: Seq<Scalar>,
    lda: int,
)
    requires
        op.class_of() == ShapeClass::RankK,
        Rewrite::row_major(op).transpose.reversible_on(domain, p.transa) || all_real(a),
    ensures
        forall|r: int, l: int| #[trigger]
            applied(
                native_params(op, domain, CBLAS_ORDER::CblasRowMajor, p).transa,
                full(CBLAS_ORDER::CblasColMajor, a, lda),
            )(r, l) == applied(p.transa, full(CBLAS_ORDER::CblasRowMajor, a, lda))(r, l).conj_if(
                op.is_conjugating(),
            ),
{
    let q = native_params(op, domain, CBLAS_ORDER::CblasRowMajor, p);
    assert forall|r: int, l: int| #[trigger]
        applied(q.transa, full(CBLAS_ORDER::CblasColMajor, a, lda))(r, l) == applied(
            p.transa,
            full(CBLAS_ORDER::CblasRowMajor, a, lda),
        )(r, l).conj_if(op.is_conjugating()) by {
        lemma_other_order_is_transpose(Storage::Full { ld: lda }, a, r, l);
        lemma_other_order_is_transpose(Storage::Full { ld: lda }, a, l, r);
        let e = full(CBLAS_ORDER::CblasRowMajor, a, lda)(r, l);
        let f = full(CBLAS_ORDER::CblasRowMajor, a, lda)(l, r);
        lemma_scalar_laws(e, f);
    }
}

/// Triangular matrix product and triangular solve with many right-hand sides:
/// the kernel, called on the buffers of a row-major call with the other side,
/// the other triangle, the row and column counts exchanged and the transpose
/// mode as it was, leaves in every place of the result buffer the element that
/// the caller asked for, and a matrix solves the kernel's triangular system
/// exactly if it solves the caller's.
pub proof fn triangular_mat_mat_row_major(
    op: Operation,
    domain: Domain,
    p: CallParams,
    alpha: Scalar,
    a: Seq<Scalar>,
    lda: int,
    b: Seq<Scalar>,
    ldb: int,
    solution: Seq<Scalar>,
    i: int,
    j: int,
)
    requires
        op.class_of() == ShapeClass::TriangularMatMat,
    ensures
        native_params(op, domain, CBLAS_ORDER::CblasRowMajor, p).transa == p.transa,
        trmm(
            CBLAS_ORDER::CblasColMajor,
            native_params(op, domain, CBLAS_ORDER::CblasRowMajor, p),
            alpha,
            a,
            lda,
            b,
            ldb,
        )(j, i) == trmm(CBLAS_ORDER::CblasRowMajor, p, alpha, a, lda, b, ldb)(i, j),
        trsm_solved(
            CBLAS_ORDER::CblasColMajor,
            native_params(op, domain, CBLAS_ORDER::CblasRowMajor, p),
            alpha,
            a,
            lda,
            solution,
            b,
            ldb,
        ) == trsm_solved(CBLAS_ORDER::CblasRowMajor, p, alpha, a, lda, solution, b, ldb),
{
    let q = native_params(op, domain, CBLAS_ORDER::CblasRowMajor, p);
    lemma_triangular_product_of_transpose(op, domain, p, a, lda, b, ldb);
    lemma_triangular_product_of_transpose(op, domain, p, a, lda, solution, ldb);
    let by_kernel = triangular_product(CBLAS_ORDER::CblasColMajor, q, a, lda, solution, ldb);
    let by_caller = triangular_product(CBLAS_ORDER::CblasRowMajor, p, a, lda, solution, ldb);
    assert forall|r: int, s: int| #[trigger]
        full(CBLAS_ORDER::CblasColMajor, b, ldb)(s, r) == full(
            CBLAS_ORDER::CblasRowMajor,
            b,
            ldb,
        )(r, s) by {
        lemma_other_order_is_transpose(Storage::Full { ld: ldb }, b, r, s);
    }
    if trsm_solved(CBLAS_ORDER::CblasRowMajor, p, alpha, a, lda, solution, b, ldb) {
        assert forall|r: int, s: int| 0 <= r < q.m && 0 <= s < q.n implies #[trigger] by_kernel(
            r,
            s,
        ) == alpha.times(full(CBLAS_ORDER::CblasColMajor, b, ldb)(r, s)) by {
            assert(by_caller(s, r) == by_kernel(r, s));
        }
    }
    if trsm_solved(CBLAS_ORDER::CblasColMajor, q, alpha, a, lda, solution, b, ldb) {
        assert forall|r: int, s: int| 0 <= r < p.m && 0 <= s < p.n implies #[trigger] by_caller(
            r,
            s,
        ) == alpha.times(full(CBLAS_ORDER::CblasRowMajor, b, ldb)(r, s)) by {
            assert(by_kernel(s, r) == by_caller(r, s));
        }
    }
}

/// The triangular product as the kernel computes it is the transpose of the
/// product that the caller described.
proof fn lemma_triangular_product_of_transpose(
    op: Operation,
    domain: Domain,
    p: CallParams,
    a: Seq<Scalar>,
    lda: int,
    x: Seq<Scalar>,
    ldx: int,
)
    requires
        op.class_of() == ShapeClass::TriangularMatMat,
    ensures
        forall|r: int, s: int|
            triangular_product(
                CBLAS_ORDER::CblasColMajor,
                native_params(op, domain, CBLAS_ORDER::CblasRowMajor, p),
                a,
                lda,
                x,
                ldx,
            )(s, r) == #[trigger] triangular_product(
                CBLAS_ORDER::CblasRowMajor,
                p,
                a,
                lda,
                x,
                ldx,
            )(r, s),
{
    let q = native_params(op, domain, CBLAS_ORDER::CblasRowMajor, p);
    let row = full(CBLAS_ORDER::CblasRowMajor, a, lda);
    let special = applied(p.transa, triangular(p.uplo, p.diag, row));
    let native_special = applied(
        q.transa,
        triangular(q.uplo, q.diag, full(CBLAS_ORDER::CblasColMajor, a, lda)),
    );
    let other = full(CBLAS_ORDER::CblasRowMajor, x, ldx);
    let native_other = full(CBLAS_ORDER::CblasColMajor, x, ldx);
    assert forall|r: int, s: int| #[trigger] native_special(r, s) == special(s, r) by {
        lemma_other_order_is_transpose(Storage::Full { ld: lda }, a, r, s);
        lemma_other_order_is_transpose(Storage::Full { ld: lda }, a, s, r);
        lemma_views_of_transpose(p.uplo, p.diag, row, r, s);
        lemma_views_of_transpose(p.uplo, p.diag, row, s, r);
        lemma_scalar_laws(Scalar::zero(), Scalar::one());
    }
    assert forall|r: int, s: int| #[trigger] native_other(r, s) == other(s, r) by {
        lemma_other_order_is_transpose(Storage::Full { ld: ldx }, x, s, r);
    }
    assert forall|r: int, s: int|
        triangular_product(CBLAS_ORDER::CblasColMajor, q, a, lda, x, ldx)(s, r)
            == #[trigger] triangular_product(CBLAS_ORDER::CblasRowMajor, p, a, lda, x, ldx)(
            r,
            s,
        ) by {
        if p.side == CBLAS_SIDE::CblasLeft {
            assert forall|l: int| #[trigger]
                native_other(s, l).times(native_special(l, r)) == special(r, l).times(
                    other(l, s),
                ) by {
                lemma_scalar_laws(special(r, l), other(l, s));
            }
            lemma_sum_of_equal_terms(
                |l: int| native_other(s, l).times(native_special(l, r)),
                |l: int| special(r, l).times(other(l, s)),
                p.m as int,
            );
        } else {
            assert forall|l: int| #[trigger]
                native_special(s, l).times(native_other(l, r)) == other(r, l).times(
                    special(l, s),
                ) by {
                lemma_scalar_laws(other(r, l), special(l, s));
            }
            lemma_sum_of_equal_terms(
                |l: int| native_special(s, l).times(native_other(l, r)),
                |l: int| other(r, l).times(special(l, s)),
                p.n as int,
            );
        }
    }
}

} // verus!
