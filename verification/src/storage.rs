//! How a buffer holds a matrix, and the matrix that a kernel reads out of it.
//!
//! The same buffer read by rows and read by columns holds two matrices, each the
//! transpose of the other. That holds for full storage, for band storage once
//! the counts of sub- and super-diagonals change places, and for packed storage
//! once the triangle changes sides. Symmetric, Hermitian and triangular
//! matrices are read out of one triangle of what is stored.

use vstd::prelude::*;
use crate::exact::Scalar;
use crate::layout::{flipped_transpose, flipped_uplo, is_conjugated, is_transposed, transpose_mode};
use crate::types::{CBLAS_DIAG, CBLAS_ORDER, CBLAS_TRANSPOSE, CBLAS_UPLO};

verus! {

/// A matrix as a mathematical object: an element for every row and column.
pub type Matrix = spec_fn(int, int) -> Scalar;

/// A vector as a mathematical object: an element for every index.
pub type Vector = spec_fn(int) -> Scalar;

/// A storage format, with its parameters.
pub enum Storage {
    /// Every element is stored; successive rows (or columns) start `ld` places
    /// apart.
    Full { ld: int },
    /// Of each row, the `kl` elements left of the diagonal, the diagonal element
    /// and the `ku` elements right of it are stored; the rest is zero.
    Band { ld: int, kl: int, ku: int },
    /// One triangle of a matrix of order `n` is stored, without gaps.
    Packed { n: int, uplo: CBLAS_UPLO },
}

/// How the matrix of a symmetric, Hermitian or triangular operation is stored,
/// before the triangle is known.
pub enum TriangleFormat {
    /// Full storage with leading dimension `ld`, of which one triangle is read.
    Full { ld: int },
    /// Band storage of the diagonal and `k` further diagonals on one side.
    Band { ld: int, k: int },
    /// Packed storage of one triangle of a matrix of order `n`.
    Packed { n: int },
}

/// Whether row `i`, column `j` lies in the triangle, diagonal included.
pub open spec fn in_triangle(uplo: CBLAS_UPLO, i: int, j: int) -> bool {
    match uplo {
        CBLAS_UPLO::CblasUpper => i <= j,
        CBLAS_UPLO::CblasLower => i >= j,
    }
}

impl Storage {
    /// Whether the element of row `i`, column `j` has a place in the buffer.
    pub open spec fn holds(self, i: int, j: int) -> bool {
        match self {
            Storage::Full { ld } => true,
            Storage::Band { ld, kl, ku } => i - j <= kl && j - i <= ku,
            Storage::Packed { n, uplo } => in_triangle(uplo, i, j),
        }
    }

    /// The place in the buffer of the element of row `i`, column `j`.
    pub open spec fn place(self, order: CBLAS_ORDER, i: int, j: int) -> int {
        match order {
            CBLAS_ORDER::CblasColMajor => match self {
                Storage::Full { ld } => i + j * ld,
                Storage::Band { ld, kl, ku } => (ku + i - j) + j * ld,
                Storage::Packed { n, uplo } => match uplo {
                    CBLAS_UPLO::CblasUpper => i + j * (j + 1) / 2,
                    CBLAS_UPLO::CblasLower => i + j * (2 * n - j - 1) / 2,
                },
            },
            CBLAS_ORDER::CblasRowMajor => match self {
                Storage::Full { ld } => j + i * ld,
                Storage::Band { ld, kl, ku } => (kl + j - i) + i * ld,
                Storage::Packed { n, uplo } => match uplo {
                    CBLAS_UPLO::CblasUpper => j + i * (2 * n - i - 1) / 2,
                    CBLAS_UPLO::CblasLower => j + i * (i + 1) / 2,
                },
            },
        }
    }

    /// The format in which the same buffer, read in the other order, holds the
    /// transpose.
    pub open spec fn transposed(self) -> Storage {
        match self {
            Storage::Full { ld } => self,
            Storage::Band { ld, kl, ku } => Storage::Band { ld, kl: ku, ku: kl },
            Storage::Packed { n, uplo } => Storage::Packed { n, uplo: flipped_uplo(uplo) },
        }
    }
}

impl TriangleFormat {
    /// The storage format once the triangle is known.
    pub open spec fn of(self, uplo: CBLAS_UPLO) -> Storage {
        match self {
            TriangleFormat::Full { ld } => Storage::Full { ld },
            TriangleFormat::Band { ld, k } => match uplo {
                CBLAS_UPLO::CblasUpper => Storage::Band { ld, kl: 0, ku: k },
                CBLAS_UPLO::CblasLower => Storage::Band { ld, kl: k, ku: 0 },
            },
            TriangleFormat::Packed { n } => Storage::Packed { n, uplo },
        }
    }
}

/// What a buffer holds at a place. Places outside the buffer count as zero, so
/// that a matrix has an element for every row and column; a kernel that is
/// called within its contract never reads there.
pub open spec fn element_at(buf: Seq<Scalar>, place: int) -> Scalar {
    if 0 <= place < buf.len() {
        buf[place]
    } else {
        Scalar::zero()
    }
}

/// The matrix that `buf` holds in the given order and format: the stored
/// elements, and zero where nothing is stored.
pub open spec fn stored(order: CBLAS_ORDER, format: Storage, buf: Seq<Scalar>) -> Matrix {
    |i: int, j: int|
        if format.holds(i, j) {
            element_at(buf, format.place(order, i, j))
        } else {
            Scalar::zero()
        }
}

/// The transpose of a matrix.
pub open spec fn transpose(a: Matrix) -> Matrix {
    |i: int, j: int| a(j, i)
}

/// The matrix `op(A)` that a transpose mode makes of `A`.
pub open spec fn applied(trans: CBLAS_TRANSPOSE, a: Matrix) -> Matrix {
    |i: int, j: int|
        (if is_transposed(trans) {
            a(j, i)
        } else {
            a(i, j)
        }).conj_if(is_conjugated(trans))
}

/// The symmetric matrix whose triangle `uplo` is that of `a`.
pub open spec fn symmetric(uplo: CBLAS_UPLO, a: Matrix) -> Matrix {
    |i: int, j: int|
        if in_triangle(uplo, i, j) {
            a(i, j)
        } else {
            a(j, i)
        }
}

/// The Hermitian matrix whose triangle `uplo` is that of `a`. Of the diagonal
/// of `a` only the real parts count.
pub open spec fn hermitian(uplo: CBLAS_UPLO, a: Matrix) -> Matrix {
    |i: int, j: int|
        if i == j {
            a(i, i).real_part()
        } else if in_triangle(uplo, i, j) {
            a(i, j)
        } else {
            a(j, i).conj()
        }
}

/// The symmetric matrix, or the Hermitian one if `conjugating`, whose triangle
/// `uplo` is that of `a`.
pub open spec fn self_adjoint(conjugating: bool, uplo: CBLAS_UPLO, a: Matrix) -> Matrix {
    if conjugating {
        hermitian(uplo, a)
    } else {
        symmetric(uplo, a)
    }
}

/// The triangular matrix whose triangle `uplo` is that of `a`; with a unit
/// diagonal the diagonal of `a` is not read.
pub open spec fn triangular(uplo: CBLAS_UPLO, diag: CBLAS_DIAG, a: Matrix) -> Matrix {
    |i: int, j: int|
        if i == j && diag == CBLAS_DIAG::CblasUnit {
            Scalar::one()
        } else if in_triangle(uplo, i, j) {
            a(i, j)
        } else {
            Scalar::zero()
        }
}

/// Whether every element of the buffer is real.
pub open spec fn all_real(buf: Seq<Scalar>) -> bool {
    forall|k: int| 0 <= k < buf.len() ==> (#[trigger] buf[k]).is_real()
}

/// A buffer read by rows in one format and by columns in the transposed format
/// gives the same element for exchanged row and column: the two matrices are
/// transposes of each other, in all three storage formats.
pub proof fn lemma_other_order_is_transpose(format: Storage, buf: Seq<Scalar>, i: int, j: int)
    ensures
        format.place(CBLAS_ORDER::CblasRowMajor, i, j) == format.transposed().place(
            CBLAS_ORDER::CblasColMajor,
            j,
            i,
        ),
        format.holds(i, j) == format.transposed().holds(j, i),
        stored(CBLAS_ORDER::CblasColMajor, format.transposed(), buf)(j, i) == stored(
            CBLAS_ORDER::CblasRowMajor,
            format,
            buf,
        )(i, j),
        format.transposed().transposed() == format,
{
}

/// The format of a triangle-stored matrix for the other triangle is the
/// transposed format, and the other triangle holds the mirrored places.
pub proof fn lemma_other_triangle(format: TriangleFormat, uplo: CBLAS_UPLO, i: int, j: int)
    ensures
        format.of(flipped_uplo(uplo)) == format.of(uplo).transposed(),
        in_triangle(flipped_uplo(uplo), i, j) == in_triangle(uplo, j, i),
{
}

/// Transposing a matrix and flipping the transposition of the mode cancel; a
/// mode applied to the transpose gives the transpose of what it gives for the
/// matrix.
pub proof fn flipping_undoes_transposition(trans: CBLAS_TRANSPOSE, a: Matrix, i: int, j: int)
    ensures
        applied(flipped_transpose(trans), transpose(a))(i, j) == applied(trans, a)(i, j),
        applied(trans, transpose(a))(i, j) == applied(trans, a)(j, i),
        a(i, j).is_real() && a(j, i).is_real() ==> applied(
            transpose_mode(!is_transposed(trans), false),
            transpose(a),
        )(i, j) == applied(trans, a)(i, j),
{
}

/// The triangle views of a transposed matrix, taken from the other triangle,
/// are the transposes of the views of the matrix; a symmetric matrix is its own
/// transpose, and the transpose of a Hermitian matrix is its conjugate.
pub proof fn lemma_views_of_transpose(
    uplo: CBLAS_UPLO,
    diag: CBLAS_DIAG,
    a: Matrix,
    i: int,
    j: int,
)
    ensures
        symmetric(flipped_uplo(uplo), transpose(a))(i, j) == symmetric(uplo, a)(j, i),
        symmetric(uplo, a)(j, i) == symmetric(uplo, a)(i, j),
        hermitian(flipped_uplo(uplo), transpose(a))(i, j) == hermitian(uplo, a)(j, i),
        hermitian(uplo, a)(j, i) == hermitian(uplo, a)(i, j).conj(),
        triangular(flipped_uplo(uplo), diag, transpose(a))(i, j) == triangular(uplo, diag, a)(
            j,
            i,
        ),
{
}

} // verus!
