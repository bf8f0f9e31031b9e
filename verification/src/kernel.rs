//! The identity of a kernel: which operation it performs, at which precision,
//! over which domain. The operations fall into shape classes, and all operations
//! of one class are restated for row-major storage by the same rule.

use vstd::prelude::*;

verus! {

/// Whether the data of a kernel are real or complex numbers.
#[derive(Debug, Clone, Copy, PartialEq, Eq, Hash, Structural)]
pub enum Domain {
    Real,
    Complex,
}

/// The floating-point precision of a kernel.
#[derive(Debug, Clone, Copy, PartialEq, Eq, Hash, Structural)]
pub enum Precision {
    Single,
    Double,
}

/// A group of operations whose arguments are restated for row-major storage in
/// the same way.
#[derive(Debug, Clone, Copy, PartialEq, Eq, Hash, Structural)]
pub enum ShapeClass {
    /// Operations on vectors alone; the storage order has no meaning for them.
    Vector,
    /// General matrix times vector, full or banded.
    GeneralMatVec,
    /// Symmetric or Hermitian matrix times vector, full, banded or packed.
    SymmetricMatVec,
    /// Rank-one and rank-two updates of a matrix by vectors.
    RankUpdate,
    /// Triangular matrix times vector and triangular solve, full, banded or packed.
    TriangularMatVec,
    /// General matrix times matrix.
    GeneralMatMat,
    /// Symmetric or Hermitian matrix times matrix.
    SymmetricMatMat,
    /// Rank-k and rank-2k updates of a symmetric or Hermitian matrix.
    RankK,
    /// Triangular matrix times matrix and triangular solve with many right-hand sides.
    TriangularMatMat,
}

/// An operation of the BLAS, without its precision and domain.
#[derive(Debug, Clone, Copy, PartialEq, Eq, Hash, Structural)]
pub enum Operation {
    /// Exchange of two vectors.
    Swap,
    /// Copy of a vector.
    Copy,
    /// `y <- alpha x + y`.
    Axpy,
    /// Scaling of a vector by a scalar of its own domain.
    Scal,
    /// Scaling of a complex vector by a real scalar.
    RealScal,
    /// Application of a plane rotation.
    Rot,
    /// Construction of a plane rotation.
    Rotg,
    /// Application of a modified plane rotation.
    Rotm,
    /// Construction of a modified plane rotation.
    Rotmg,
    /// Sum of the absolute values of the two parts of a complex number.
    Cabs1,
    /// Dot product of two real vectors.
    Dot,
    /// Dot product of two complex vectors, neither conjugated.
    Dotu,
    /// Dot product of two complex vectors, the first conjugated.
    Dotc,
    /// Single-precision dot product accumulated in double precision, plus a scalar.
    Sdsdot,
    /// Double-precision dot product of two single-precision vectors.
    Dsdot,
    /// Euclidean norm.
    Nrm2,
    /// Sum of absolute values.
    Asum,
    /// Index of the element of largest absolute value.
    Iamax,
    /// `y <- alpha op(A) x + beta y`, `A` general.
    Gemv,
    /// `y <- alpha op(A) x + beta y`, `A` general banded.
    Gbmv,
    /// `y <- alpha A x + beta y`, `A` symmetric.
    Symv,
    /// `y <- alpha A x + beta y`, `A` Hermitian.
    Hemv,
    /// `y <- alpha A x + beta y`, `A` symmetric banded.
    Sbmv,
    /// `y <- alpha A x + beta y`, `A` Hermitian banded.
    Hbmv,
    /// `y <- alpha A x + beta y`, `A` symmetric packed.
    Spmv,
    /// `y <- alpha A x + beta y`, `A` Hermitian packed.
    Hpmv,
    /// `x <- op(A) x`, `A` triangular.
    Trmv,
    /// Solution of `op(A) x = b`, `A` triangular.
    Trsv,
    /// `x <- op(A) x`, `A` triangular banded.
    Tbmv,
    /// Solution of `op(A) x = b`, `A` triangular banded.
    Tbsv,
    /// `x <- op(A) x`, `A` triangular packed.
    Tpmv,
    /// Solution of `op(A) x = b`, `A` triangular packed.
    Tpsv,
    /// `A <- alpha x y^T + A`, real.
    Ger,
    /// `A <- alpha x y^T + A`, complex.
    Geru,
    /// `A <- alpha x y^H + A`.
    Gerc,
    /// `A <- alpha x x^T + A`, `A` symmetric.
    Syr,
    /// `A <- alpha x x^H + A`, `A` Hermitian.
    Her,
    /// `A <- alpha x y^T + alpha y x^T + A`, `A` symmetric.
    Syr2,
    /// `A <- alpha x y^H + conj(alpha) y x^H + A`, `A` Hermitian.
    Her2,
    /// `A <- alpha x x^T + A`, `A` symmetric packed.
    Spr,
    /// `A <- alpha x x^H + A`, `A` Hermitian packed.
    Hpr,
    /// `A <- alpha x y^T + alpha y x^T + A`, `A` symmetric packed.
    Spr2,
    /// `A <- alpha x y^H + conj(alpha) y x^H + A`, `A` Hermitian packed.
    Hpr2,
    /// `C <- alpha op(A) op(B) + beta C`.
    Gemm,
    /// `C <- alpha A B + beta C` or `C <- alpha B A + beta C`, `A` symmetric.
    Symm,
    /// `C <- alpha A B + beta C` or `C <- alpha B A + beta C`, `A` Hermitian.
    Hemm,
    /// `C <- alpha A A^T + beta C` or `C <- alpha A^T A + beta C`.
    Syrk,
    /// `C <- alpha A A^H + beta C` or `C <- alpha A^H A + beta C`.
    Herk,
    /// `C <- alpha A B^T + alpha B A^T + beta C`, or with the transposes on the left.
    Syr2k,
    /// `C <- alpha A B^H + conj(alpha) B A^H + beta C`, or with the conjugate
    /// transposes on the left.
    Her2k,
    /// `B <- alpha op(A) B` or `B <- alpha B op(A)`, `A` triangular.
    Trmm,
    /// Solution of `op(A) X = alpha B` or `X op(A) = alpha B`, `A` triangular.
    Trsm,
}

/// How many operations there are.
pub const OPERATION_COUNT: usize = 52;

impl Operation {
    /// The position of the operation in the list of all operations.
    pub open spec fn index_of(self) -> int {
        match self {
            Operation::Swap => 0,
            Operation::Copy => 1,
            Operation::Axpy => 2,
            Operation::Scal => 3,
            Operation::RealScal => 4,
            Operation::Rot => 5,
            Operation::Rotg => 6,
            Operation::Rotm => 7,
            Operation::Rotmg => 8,
            Operation::Cabs1 => 9,
            Operation::Dot => 10,
            Operation::Dotu => 11,
            Operation::Dotc => 12,
            Operation::Sdsdot => 13,
            Operation::Dsdot => 14,
            Operation::Nrm2 => 15,
            Operation::Asum => 16,
            Operation::Iamax => 17,
            Operation::Gemv => 18,
            Operation::Gbmv => 19,
            Operation::Symv => 20,
            Operation::Hemv => 21,
            Operation::Sbmv => 22,
            Operation::Hbmv => 23,
            Operation::Spmv => 24,
            Operation::Hpmv => 25,
            Operation::Trmv => 26,
            Operation::Trsv => 27,
            Operation::Tbmv => 28,
            Operation::Tbsv => 29,
            Operation::Tpmv => 30,
            Operation::Tpsv => 31,
            Operation::Ger => 32,
            Operation::Geru => 33,
            Operation::Gerc => 34,
            Operation::Syr => 35,
            Operation::Her => 36,
            Operation::Syr2 => 37,
            Operation::Her2 => 38,
            Operation::Spr => 39,
            Operation::Hpr => 40,
            Operation::Spr2 => 41,
            Operation::Hpr2 => 42,
            Operation::Gemm => 43,
            Operation::Symm => 44,
            Operation::Hemm => 45,
            Operation::Syrk => 46,
            Operation::Herk => 47,
            Operation::Syr2k => 48,
            Operation::Her2k => 49,
            Operation::Trmm => 50,
            Operation::Trsm => 51,
        }
    }

    /// The shape class that the operation belongs to.
    pub open spec fn class_of(self) -> ShapeClass {
        match self {
            Operation::Swap | Operation::Copy | Operation::Axpy | Operation::Scal
            | Operation::RealScal | Operation::Rot | Operation::Rotg | Operation::Rotm
            | Operation::Rotmg | Operation::Cabs1 | Operation::Dot | Operation::Dotu
            | Operation::Dotc | Operation::Sdsdot | Operation::Dsdot | Operation::Nrm2
            | Operation::Asum | Operation::Iamax => ShapeClass::Vector,
            Operation::Gemv | Operation::Gbmv => ShapeClass::GeneralMatVec,
            Operation::Symv | Operation::Hemv | Operation::Sbmv | Operation::Hbmv
            | Operation::Spmv | Operation::Hpmv => ShapeClass::SymmetricMatVec,
            Operation::Trmv | Operation::Trsv | Operation::Tbmv | Operation::Tbsv
            | Operation::Tpmv | Operation::Tpsv => ShapeClass::TriangularMatVec,
            Operation::Ger | Operation::Geru | Operation::Gerc | Operation::Syr
            | Operation::Her | Operation::Syr2 | Operation::Her2 | Operation::Spr
            | Operation::Hpr | Operation::Spr2 | Operation::Hpr2 => ShapeClass::RankUpdate,
            Operation::Gemm => ShapeClass::GeneralMatMat,
            Operation::Symm | Operation::Hemm => ShapeClass::SymmetricMatMat,
            Operation::Syrk | Operation::Herk | Operation::Syr2k | Operation::Her2k => {
                ShapeClass::RankK
            },
            Operation::Trmm | Operation::Trsm => ShapeClass::TriangularMatMat,
        }
    }

    /// Whether the operation is a Hermitian or conjugating form: one whose
    /// definition conjugates an operand, so that transposing it is not free.
    pub open spec fn is_conjugating(self) -> bool {
        self == Operation::Hemv || self == Operation::Hbmv || self == Operation::Hpmv
            || self == Operation::Gerc || self == Operation::Her || self == Operation::Her2
            || self == Operation::Hpr || self == Operation::Hpr2 || self == Operation::Hemm
            || self == Operation::Herk || self == Operation::Her2k
    }

    /// Whether the operation takes two vector operands that both enter a matrix update.
    pub open spec fn has_two_update_vectors(self) -> bool {
        self == Operation::Ger || self == Operation::Geru || self == Operation::Gerc
            || self == Operation::Syr2 || self == Operation::Her2 || self == Operation::Spr2
            || self == Operation::Hpr2
    }

    /// Whether the operation takes a matrix with separate row and column counts.
    pub open spec fn is_rectangular(self) -> bool {
        self == Operation::Gemv || self == Operation::Gbmv || self == Operation::Ger
            || self == Operation::Geru || self == Operation::Gerc || self == Operation::Gemm
            || self == Operation::Symm || self == Operation::Hemm || self == Operation::Trmm
            || self == Operation::Trsm
    }

    /// Whether the operation takes a triangle selector.
    pub open spec fn has_triangle(self) -> bool {
        self.class_of() == ShapeClass::SymmetricMatVec
            || self.class_of() == ShapeClass::TriangularMatVec
            || self.class_of() == ShapeClass::SymmetricMatMat
            || self.class_of() == ShapeClass::RankK
            || self.class_of() == ShapeClass::TriangularMatMat
            || (self.class_of() == ShapeClass::RankUpdate && !self.is_rectangular())
    }

    /// Whether the operation takes a side selector.
    pub open spec fn has_side(self) -> bool {
        self.class_of() == ShapeClass::SymmetricMatMat
            || self.class_of() == ShapeClass::TriangularMatMat
    }

    /// The position of the operation in the list of all operations.
    pub fn index(self) -> (i: usize)
        ensures
            i == self.index_of(),
            i < OPERATION_COUNT,
    {
        match self {
            Operation::Swap => 0,
            Operation::Copy => 1,
            Operation::Axpy => 2,
            Operation::Scal => 3,
            Operation::RealScal => 4,
            Operation::Rot => 5,
            Operation::Rotg => 6,
            Operation::Rotm => 7,
            Operation::Rotmg => 8,
            Operation::Cabs1 => 9,
            Operation::Dot => 10,
            Operation::Dotu => 11,
            Operation::Dotc => 12,
            Operation::Sdsdot => 13,
            Operation::Dsdot => 14,
            Operation::Nrm2 => 15,
            Operation::Asum => 16,
            Operation::Iamax => 17,
            Operation::Gemv => 18,
            Operation::Gbmv => 19,
            Operation::Symv => 20,
            Operation::Hemv => 21,
            Operation::Sbmv => 22,
            Operation::Hbmv => 23,
            Operation::Spmv => 24,
            Operation::Hpmv => 25,
            Operation::Trmv => 26,
            Operation::Trsv => 27,
            Operation::Tbmv => 28,
            Operation::Tbsv => 29,
            Operation::Tpmv => 30,
            Operation::Tpsv => 31,
            Operation::Ger => 32,
            Operation::Geru => 33,
            Operation::Gerc => 34,
            Operation::Syr => 35,
            Operation::Her => 36,
            Operation::Syr2 => 37,
            Operation::Her2 => 38,
            Operation::Spr => 39,
            Operation::Hpr => 40,
            Operation::Spr2 => 41,
            Operation::Hpr2 => 42,
            Operation::Gemm => 43,
            Operation::Symm => 44,
            Operation::Hemm => 45,
            Operation::Syrk => 46,
            Operation::Herk => 47,
            Operation::Syr2k => 48,
            Operation::Her2k => 49,
            Operation::Trmm => 50,
            Operation::Trsm => 51,
        }
    }

    /// The shape class that the operation belongs to.
    pub fn shape_class(self) -> (class: ShapeClass)
        ensures
            class == self.class_of(),
    {
        match self {
            Operation::Swap | Operation::Copy | Operation::Axpy | Operation::Scal
            | Operation::RealScal | Operation::Rot | Operation::Rotg | Operation::Rotm
            | Operation::Rotmg | Operation::Cabs1 | Operation::Dot | Operation::Dotu
            | Operation::Dotc | Operation::Sdsdot | Operation::Dsdot | Operation::Nrm2
            | Operation::Asum | Operation::Iamax => ShapeClass::Vector,
            Operation::Gemv | Operation::Gbmv => ShapeClass::GeneralMatVec,
            Operation::Symv | Operation::Hemv | Operation::Sbmv | Operation::Hbmv
            | Operation::Spmv | Operation::Hpmv => ShapeClass::SymmetricMatVec,
            Operation::Trmv | Operation::Trsv | Operation::Tbmv | Operation::Tbsv
            | Operation::Tpmv | Operation::Tpsv => ShapeClass::TriangularMatVec,
            Operation::Ger | Operation::Geru | Operation::Gerc | Operation::Syr
            | Operation::Her | Operation::Syr2 | Operation::Her2 | Operation::Spr
            | Operation::Hpr | Operation::Spr2 | Operation::Hpr2 => ShapeClass::RankUpdate,
            Operation::Gemm => ShapeClass::GeneralMatMat,
            Operation::Symm | Operation::Hemm => ShapeClass::SymmetricMatMat,
            Operation::Syrk | Operation::Herk | Operation::Syr2k | Operation::Her2k => {
                ShapeClass::RankK
            },
            Operation::Trmm | Operation::Trsm => ShapeClass::TriangularMatMat,
        }
    }

    /// No two operations share a position.
    pub proof fn index_is_one_to_one(a: Operation, b: Operation)
        ensures
            a.index_of() == b.index_of() <==> a == b,
            0 <= a.index_of() < OPERATION_COUNT,
    {
    }
}

/// The identity of one kernel: an operation at a precision over a domain.
#[derive(Debug, Clone, Copy, PartialEq, Eq, Hash, Structural)]
pub struct KernelId {
    pub op: Operation,
    pub precision: Precision,
    pub domain: Domain,
}

/// How many kernel identities there are.
pub const SLOT_COUNT: usize = 208;

impl KernelId {
    /// The position of the kernel among all kernel identities: four consecutive
    /// positions for each operation, ordered as the letters `s`, `c`, `d`, `z`.
    pub open spec fn slot_of(self) -> int {
        4 * self.op.index_of() + match self.precision {
            Precision::Single => 0int,
            Precision::Double => 2int,
        } + match self.domain {
            Domain::Real => 0int,
            Domain::Complex => 1int,
        }
    }

    /// The identity with the given parts.
    pub fn new(op: Operation, precision: Precision, domain: Domain) -> (id: KernelId)
        ensures
            id == (KernelId { op, precision, domain }),
    {
        KernelId { op, precision, domain }
    }

    /// The single-precision real kernel of an operation (letter `s`).
    pub fn s(op: Operation) -> (id: KernelId)
        ensures
            id == (KernelId { op, precision: Precision::Single, domain: Domain::Real }),
    {
        KernelId { op, precision: Precision::Single, domain: Domain::Real }
    }

    /// The double-precision real kernel of an operation (letter `d`).
    pub fn d(op: Operation) -> (id: KernelId)
        ensures
            id == (KernelId { op, precision: Precision::Double, domain: Domain::Real }),
    {
        KernelId { op, precision: Precision::Double, domain: Domain::Real }
    }

    /// The single-precision complex kernel of an operation (letter `c`).
    pub fn c(op: Operation) -> (id: KernelId)
        ensures
            id == (KernelId { op, precision: Precision::Single, domain: Domain::Complex }),
    {
        KernelId { op, precision: Precision::Single, domain: Domain::Complex }
    }

    /// The double-precision complex kernel of an operation (letter `z`).
    pub fn z(op: Operation) -> (id: KernelId)
        ensures
            id == (KernelId { op, precision: Precision::Double, domain: Domain::Complex }),
    {
        KernelId { op, precision: Precision::Double, domain: Domain::Complex }
    }

    /// The position of the kernel among all kernel identities.
    pub fn slot(self) -> (i: usize)
        ensures
            i == self.slot_of(),
            i < SLOT_COUNT,
    {
        let base: usize = 4 * self.op.index();
        let p: usize = match self.precision {
            Precision::Single => 0,
            Precision::Double => 2,
        };
        let d: usize = match self.domain {
            Domain::Real => 0,
            Domain::Complex => 1,
        };
        base + p + d
    }

    /// No two kernel identities share a position, and every position below
    /// [`SLOT_COUNT`] belongs to a kernel identity.
    pub proof fn slot_is_one_to_one(a: KernelId, b: KernelId)
        ensures
            a.slot_of() == b.slot_of() <==> a == b,
            0 <= a.slot_of() < SLOT_COUNT,
    {
        Operation::index_is_one_to_one(a.op, b.op);
    }
}

} // verus!
