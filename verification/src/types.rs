//! Mode enumerations of the CBLAS calling convention, their integer encoding, and
//! the single-character flags by which a Fortran-convention kernel receives them.

use vstd::prelude::*;

verus! {

/// Integer type of dimensions, strides and indices (LP64: 32 bits).
pub type blasint = i32;

/// Index type returned by the index-of-maximum operations.
pub type CBLAS_INDEX = blasint;

/// Another name for [`CBLAS_ORDER`].
pub type CBLAS_LAYOUT = CBLAS_ORDER;

/// Storage order of a matrix.
#[derive(Debug, Clone, Copy, PartialEq, Eq, Hash, Structural)]
pub enum CBLAS_ORDER {
    /// Rows are contiguous (C style).
    CblasRowMajor,
    /// Columns are contiguous (Fortran style).
    CblasColMajor,
}

impl CBLAS_ORDER {
    /// The integer by which C callers write this value.
    pub open spec fn code_of(self) -> int {
        match self {
            CBLAS_ORDER::CblasRowMajor => 101,
            CBLAS_ORDER::CblasColMajor => 102,
        }
    }

    /// The value that a C caller's integer stands for, if it stands for any.
    pub open spec fn of_code(code: int) -> Option<CBLAS_ORDER> {
        if code == 101 {
            Some(CBLAS_ORDER::CblasRowMajor)
        } else if code == 102 {
            Some(CBLAS_ORDER::CblasColMajor)
        } else {
            None
        }
    }

    /// Encodes the value as its integer.
    pub fn code(self) -> (c: i32)
        ensures
            c == self.code_of(),
    {
        match self {
            CBLAS_ORDER::CblasRowMajor => 101,
            CBLAS_ORDER::CblasColMajor => 102,
        }
    }

    /// Decodes an integer; `None` for an integer that encodes no value.
    pub fn from_code(code: i32) -> (r: Option<CBLAS_ORDER>)
        ensures
            r == CBLAS_ORDER::of_code(code as int),
    {
        if code == 101 {
            Some(CBLAS_ORDER::CblasRowMajor)
        } else if code == 102 {
            Some(CBLAS_ORDER::CblasColMajor)
        } else {
            None
        }
    }

    /// Decoding undoes encoding, and only an encoding decodes to a value.
    pub proof fn code_round_trip(self, code: int)
        ensures
            CBLAS_ORDER::of_code(self.code_of()) == Some(self),
            CBLAS_ORDER::of_code(code) == Some(self) <==> code == self.code_of(),
    {
    }
}

/// The operation applied to a matrix operand before it is used.
#[derive(Debug, Clone, Copy, PartialEq, Eq, Hash, Structural)]
pub enum CBLAS_TRANSPOSE {
    /// The matrix as stored.
    CblasNoTrans,
    /// The transpose.
    CblasTrans,
    /// The conjugate transpose.
    CblasConjTrans,
    /// The conjugate, not transposed. Kernels in the OpenBLAS convention know
    /// this mode; the reference kernels do not.
    CblasConjNoTrans,
}

impl CBLAS_TRANSPOSE {
    /// The integer by which C callers write this value.
    pub open spec fn code_of(self) -> int {
        match self {
            CBLAS_TRANSPOSE::CblasNoTrans => 111,
            CBLAS_TRANSPOSE::CblasTrans => 112,
            CBLAS_TRANSPOSE::CblasConjTrans => 113,
            CBLAS_TRANSPOSE::CblasConjNoTrans => 114,
        }
    }

    /// The value that a C caller's integer stands for, if it stands for any.
    pub open spec fn of_code(code: int) -> Option<CBLAS_TRANSPOSE> {
        if code == 111 {
            Some(CBLAS_TRANSPOSE::CblasNoTrans)
        } else if code == 112 {
            Some(CBLAS_TRANSPOSE::CblasTrans)
        } else if code == 113 {
            Some(CBLAS_TRANSPOSE::CblasConjTrans)
        } else if code == 114 {
            Some(CBLAS_TRANSPOSE::CblasConjNoTrans)
        } else {
            None
        }
    }

    /// Encodes the value as its integer.
    pub fn code(self) -> (c: i32)
        ensures
            c == self.code_of(),
    {
        match self {
            CBLAS_TRANSPOSE::CblasNoTrans => 111,
            CBLAS_TRANSPOSE::CblasTrans => 112,
            CBLAS_TRANSPOSE::CblasConjTrans => 113,
            CBLAS_TRANSPOSE::CblasConjNoTrans => 114,
        }
    }

    /// Decodes an integer; `None` for an integer that encodes no value.
    pub fn from_code(code: i32) -> (r: Option<CBLAS_TRANSPOSE>)
        ensures
            r == CBLAS_TRANSPOSE::of_code(code as int),
    {
        if code == 111 {
            Some(CBLAS_TRANSPOSE::CblasNoTrans)
        } else if code == 112 {
            Some(CBLAS_TRANSPOSE::CblasTrans)
        } else if code == 113 {
            Some(CBLAS_TRANSPOSE::CblasConjTrans)
        } else if code == 114 {
            Some(CBLAS_TRANSPOSE::CblasConjNoTrans)
        } else {
            None
        }
    }

    /// Decoding undoes encoding, and only an encoding decodes to a value.
    pub proof fn code_round_trip(self, code: int)
        ensures
            CBLAS_TRANSPOSE::of_code(self.code_of()) == Some(self),
            CBLAS_TRANSPOSE::of_code(code) == Some(self) <==> code == self.code_of(),
    {
    }
}

/// Which triangle of a symmetric, Hermitian or triangular matrix is stored.
#[derive(Debug, Clone, Copy, PartialEq, Eq, Hash, Structural)]
pub enum CBLAS_UPLO {
    /// The upper triangle.
    CblasUpper,
    /// The lower triangle.
    CblasLower,
}

impl CBLAS_UPLO {
    /// The integer by which C callers write this value.
    pub open spec fn code_of(self) -> int {
        match self {
            CBLAS_UPLO::CblasUpper => 121,
            CBLAS_UPLO::CblasLower => 122,
        }
    }

    /// The value that a C caller's integer stands for, if it stands for any.
    pub open spec fn of_code(code: int) -> Option<CBLAS_UPLO> {
        if code == 121 {
            Some(CBLAS_UPLO::CblasUpper)
        } else if code == 122 {
            Some(CBLAS_UPLO::CblasLower)
        } else {
            None
        }
    }

    /// Encodes the value as its integer.
    pub fn code(self) -> (c: i32)
        ensures
            c == self.code_of(),
    {
        match self {
            CBLAS_UPLO::CblasUpper => 121,
            CBLAS_UPLO::CblasLower => 122,
        }
    }

    /// Decodes an integer; `None` for an integer that encodes no value.
    pub fn from_code(code: i32) -> (r: Option<CBLAS_UPLO>)
        ensures
            r == CBLAS_UPLO::of_code(code as int),
    {
        if code == 121 {
            Some(CBLAS_UPLO::CblasUpper)
        } else if code == 122 {
            Some(CBLAS_UPLO::CblasLower)
        } else {
            None
        }
    }

    /// Decoding undoes encoding, and only an encoding decodes to a value.
    pub proof fn code_round_trip(self, code: int)
        ensures
            CBLAS_UPLO::of_code(self.code_of()) == Some(self),
            CBLAS_UPLO::of_code(code) == Some(self) <==> code == self.code_of(),
    {
    }
}

/// Whether the diagonal of a triangular matrix is stored or taken to be all ones.
#[derive(Debug, Clone, Copy, PartialEq, Eq, Hash, Structural)]
pub enum CBLAS_DIAG {
    /// The diagonal is stored.
    CblasNonUnit,
    /// The diagonal is taken to be all ones.
    CblasUnit,
}

impl CBLAS_DIAG {
    /// The integer by which C callers write this value.
    pub open spec fn code_of(self) -> int {
        match self {
            CBLAS_DIAG::CblasNonUnit => 131,
            CBLAS_DIAG::CblasUnit => 132,
        }
    }

    /// The value that a C caller's integer stands for, if it stands for any.
    pub open spec fn of_code(code: int) -> Option<CBLAS_DIAG> {
        if code == 131 {
            Some(CBLAS_DIAG::CblasNonUnit)
        } else if code == 132 {
            Some(CBLAS_DIAG::CblasUnit)
        } else {
            None
        }
    }

    /// Encodes the value as its integer.
    pub fn code(self) -> (c: i32)
        ensures
            c == self.code_of(),
    {
        match self {
            CBLAS_DIAG::CblasNonUnit => 131,
            CBLAS_DIAG::CblasUnit => 132,
        }
    }

    /// Decodes an integer; `None` for an integer that encodes no value.
    pub fn from_code(code: i32) -> (r: Option<CBLAS_DIAG>)
        ensures
            r == CBLAS_DIAG::of_code(code as int),
    {
        if code == 131 {
            Some(CBLAS_DIAG::CblasNonUnit)
        } else if code == 132 {
            Some(CBLAS_DIAG::CblasUnit)
        } else {
            None
        }
    }

    /// Decoding undoes encoding, and only an encoding decodes to a value.
    pub proof fn code_round_trip(self, code: int)
        ensures
            CBLAS_DIAG::of_code(self.code_of()) == Some(self),
            CBLAS_DIAG::of_code(code) == Some(self) <==> code == self.code_of(),
    {
    }
}

/// On which side of the other operand the special matrix stands.
#[derive(Debug, Clone, Copy, PartialEq, Eq, Hash, Structural)]
pub enum CBLAS_SIDE {
    /// The special matrix multiplies from the left.
    CblasLeft,
    /// The special matrix multiplies from the right.
    CblasRight,
}

impl CBLAS_SIDE {
    /// The integer by which C callers write this value.
    pub open spec fn code_of(self) -> int {
        match self {
            CBLAS_SIDE::CblasLeft => 141,
            CBLAS_SIDE::CblasRight => 142,
        }
    }

    /// The value that a C caller's integer stands for, if it stands for any.
    pub open spec fn of_code(code: int) -> Option<CBLAS_SIDE> {
        if code == 141 {
            Some(CBLAS_SIDE::CblasLeft)
        } else if code == 142 {
            Some(CBLAS_SIDE::CblasRight)
        } else {
            None
        }
    }

    /// Encodes the value as its integer.
    pub fn code(self) -> (c: i32)
        ensures
            c == self.code_of(),
    {
        match self {
            CBLAS_SIDE::CblasLeft => 141,
            CBLAS_SIDE::CblasRight => 142,
        }
    }

    /// Decodes an integer; `None` for an integer that encodes no value.
    pub fn from_code(code: i32) -> (r: Option<CBLAS_SIDE>)
        ensures
            r == CBLAS_SIDE::of_code(code as int),
    {
        if code == 141 {
            Some(CBLAS_SIDE::CblasLeft)
        } else if code == 142 {
            Some(CBLAS_SIDE::CblasRight)
        } else {
            None
        }
    }

    /// Decoding undoes encoding, and only an encoding decodes to a value.
    pub proof fn code_round_trip(self, code: int)
        ensures
            CBLAS_SIDE::of_code(self.code_of()) == Some(self),
            CBLAS_SIDE::of_code(code) == Some(self) <==> code == self.code_of(),
    {
    }
}

/// How a Fortran kernel hands back a complex scalar.
#[derive(Debug, Clone, Copy, PartialEq, Eq, Hash, Structural)]
pub enum ComplexReturnStyle {
    /// The value comes back as the function's result.
    ReturnValue,
    /// The kernel writes the value through an extra leading pointer argument.
    HiddenArgument,
}

impl ComplexReturnStyle {
    /// The integer by which C callers write this value.
    pub open spec fn code_of(self) -> int {
        match self {
            ComplexReturnStyle::ReturnValue => 0,
            ComplexReturnStyle::HiddenArgument => 1,
        }
    }

    /// The value that a C caller's integer stands for, if it stands for any.
    pub open spec fn of_code(code: int) -> Option<ComplexReturnStyle> {
        if code == 0 {
            Some(ComplexReturnStyle::ReturnValue)
        } else if code == 1 {
            Some(ComplexReturnStyle::HiddenArgument)
        } else {
            None
        }
    }

    /// Encodes the value as its integer.
    pub fn code(self) -> (c: i32)
        ensures
            c == self.code_of(),
    {
        match self {
            ComplexReturnStyle::ReturnValue => 0,
            ComplexReturnStyle::HiddenArgument => 1,
        }
    }

    /// Decodes an integer; `None` for an integer that encodes no value.
    pub fn from_code(code: i32) -> (r: Option<ComplexReturnStyle>)
        ensures
            r == ComplexReturnStyle::of_code(code as int),
    {
        if code == 0 {
            Some(ComplexReturnStyle::ReturnValue)
        } else if code == 1 {
            Some(ComplexReturnStyle::HiddenArgument)
        } else {
            None
        }
    }

    /// Decoding undoes encoding, and only an encoding decodes to a value.
    pub proof fn code_round_trip(self, code: int)
        ensures
            ComplexReturnStyle::of_code(self.code_of()) == Some(self),
            ComplexReturnStyle::of_code(code) == Some(self) <==> code == self.code_of(),
    {
    }
}

impl Default for ComplexReturnStyle {
    /// The convention in force when none was chosen: the value is the function's result.
    fn default() -> (style: ComplexReturnStyle)
        ensures
            style == ComplexReturnStyle::ReturnValue,
    {
        ComplexReturnStyle::ReturnValue
    }
}

/// ASCII `C`.
pub const FLAG_C: u8 = 67;

/// ASCII `L`.
pub const FLAG_L: u8 = 76;

/// ASCII `N`.
pub const FLAG_N: u8 = 78;

/// ASCII `R`.
pub const FLAG_R: u8 = 82;

/// ASCII `T`.
pub const FLAG_T: u8 = 84;

/// ASCII `U`.
pub const FLAG_U: u8 = 85;

/// The flag character of a transpose mode: `N`, `T`, `C`, and `R` for the
/// conjugate without transposition.
pub open spec fn transpose_flag(trans: CBLAS_TRANSPOSE) -> u8 {
    match trans {
        CBLAS_TRANSPOSE::CblasNoTrans => FLAG_N,
        CBLAS_TRANSPOSE::CblasTrans => FLAG_T,
        CBLAS_TRANSPOSE::CblasConjTrans => FLAG_C,
        CBLAS_TRANSPOSE::CblasConjNoTrans => FLAG_R,
    }
}

/// The flag character of a triangle selector: `U` or `L`.
pub open spec fn uplo_flag(uplo: CBLAS_UPLO) -> u8 {
    match uplo {
        CBLAS_UPLO::CblasUpper => FLAG_U,
        CBLAS_UPLO::CblasLower => FLAG_L,
    }
}

/// The flag character of a diagonal kind: `N` or `U`.
pub open spec fn diag_flag(diag: CBLAS_DIAG) -> u8 {
    match diag {
        CBLAS_DIAG::CblasNonUnit => FLAG_N,
        CBLAS_DIAG::CblasUnit => FLAG_U,
    }
}

/// The flag character of a side: `L` or `R`.
pub open spec fn side_flag(side: CBLAS_SIDE) -> u8 {
    match side {
        CBLAS_SIDE::CblasLeft => FLAG_L,
        CBLAS_SIDE::CblasRight => FLAG_R,
    }
}

/// Converts a transpose mode to the character a Fortran kernel expects.
pub fn transpose_to_char(trans: CBLAS_TRANSPOSE) -> (c: u8)
    ensures
        c == transpose_flag(trans),
{
    match trans {
        CBLAS_TRANSPOSE::CblasNoTrans => FLAG_N,
        CBLAS_TRANSPOSE::CblasTrans => FLAG_T,
        CBLAS_TRANSPOSE::CblasConjTrans => FLAG_C,
        CBLAS_TRANSPOSE::CblasConjNoTrans => FLAG_R,
    }
}

/// Converts a triangle selector to the character a Fortran kernel expects.
pub fn uplo_to_char(uplo: CBLAS_UPLO) -> (c: u8)
    ensures
        c == uplo_flag(uplo),
{
    match uplo {
        CBLAS_UPLO::CblasUpper => FLAG_U,
        CBLAS_UPLO::CblasLower => FLAG_L,
    }
}

/// Converts a diagonal kind to the character a Fortran kernel expects.
pub fn diag_to_char(diag: CBLAS_DIAG) -> (c: u8)
    ensures
        c == diag_flag(diag),
{
    match diag {
        CBLAS_DIAG::CblasNonUnit => FLAG_N,
        CBLAS_DIAG::CblasUnit => FLAG_U,
    }
}

/// Converts a side to the character a Fortran kernel expects.
pub fn side_to_char(side: CBLAS_SIDE) -> (c: u8)
    ensures
        c == side_flag(side),
{
    match side {
        CBLAS_SIDE::CblasLeft => FLAG_L,
        CBLAS_SIDE::CblasRight => FLAG_R,
    }
}

/// Within each enumeration no two values share a flag character, so a kernel
/// that reads the character knows the value.
pub proof fn flags_are_one_to_one(
    t1: CBLAS_TRANSPOSE,
    t2: CBLAS_TRANSPOSE,
    u1: CBLAS_UPLO,
    u2: CBLAS_UPLO,
    d1: CBLAS_DIAG,
    d2: CBLAS_DIAG,
    s1: CBLAS_SIDE,
    s2: CBLAS_SIDE,
)
    ensures
        transpose_flag(t1) == transpose_flag(t2) <==> t1 == t2,
        uplo_flag(u1) == uplo_flag(u2) <==> u1 == u2,
        diag_flag(d1) == diag_flag(d2) <==> d1 == d2,
        side_flag(s1) == side_flag(s2) <==> s1 == s2,
{
}

} // verus!
