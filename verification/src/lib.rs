//! A CBLAS-style calling layer over Fortran BLAS kernels that are registered at
//! run time.
//!
//! The C convention lets a caller store matrices by rows or by columns. The
//! kernels know columns only. A row-major call is carried out without copying a
//! matrix: the buffer of a row-major matrix, read by columns, holds the
//! transpose, and every operation can be restated for its transposed operands by
//! relabelling flags, dimensions and operand roles. This crate holds those
//! rules and proves them.
//!
//! - [`types`]: the mode enumerations, their integer codes and flag characters.
//! - [`kernel`]: operations, shape classes and kernel identities.
//! - [`layout`]: the rule table and the function that applies it.
//! - [`registry`]: write-once slots for kernels and for the complex return style.
//! - [`dispatch`]: how a complex dot product is called; index conversion.
//! - [`stride`], [`matrix`]: where the elements of vectors and matrices lie.
//! - [`diagnostic`]: the text of the message about an illegal parameter.
//! - [`exact`], [`storage`], [`level2`], [`level3`]: what the operations compute,
//!   in exact arithmetic, and the proofs that each rule of the table makes a
//!   column-major kernel compute what the row-major caller asked for.
//!
//! The crate calls no kernel and touches no buffer: it decides how a kernel is to
//! be called. Floating point, raw pointers and process-wide state are the
//! business of the code around it.

#![allow(non_camel_case_types)]

pub mod diagnostic;
pub mod dispatch;
pub mod exact;
pub mod kernel;
pub mod layout;
pub mod level2;
pub mod level3;
pub mod matrix;
pub mod registry;
pub mod storage;
pub mod stride;
pub mod types;

pub use diagnostic::{xerbla_message, Routine};
pub use dispatch::{
    dispatch_complex_dot, get_cdotc_ptr, get_cdotu_ptr, get_zdotc_ptr, get_zdotu_ptr,
    zero_based_index, ComplexDot, DotCall,
};
pub use kernel::{Domain, KernelId, Operation, Precision, ShapeClass};
pub use layout::{
    flip_side, flip_transpose, flip_uplo, normalize_transpose_real, pick_pair, rewrite_for,
    to_native, CallParams, Rewrite, TransposeRule,
};
pub use matrix::MatrixDescriptor;
pub use registry::{
    get_complex_return_style, is_cgemm_registered, is_dgemm_registered, is_sgemm_registered,
    is_zgemm_registered, set_complex_return_style, Registry, RegistryError, RegistryState,
};
pub use stride::{element_offset, vector_span, PACKED_STRIDE};
pub use types::{
    blasint, diag_to_char, side_to_char, transpose_to_char, uplo_to_char, CBLAS_DIAG,
    CBLAS_INDEX, CBLAS_LAYOUT, CBLAS_ORDER, CBLAS_SIDE, CBLAS_TRANSPOSE, CBLAS_UPLO,
    ComplexReturnStyle,
};
pub use types::CBLAS_DIAG::{CblasNonUnit, CblasUnit};
pub use types::CBLAS_ORDER::{CblasColMajor, CblasRowMajor};
pub use types::CBLAS_SIDE::{CblasLeft, CblasRight};
pub use types::CBLAS_TRANSPOSE::{CblasConjNoTrans, CblasConjTrans, CblasNoTrans, CblasTrans};
pub use types::CBLAS_UPLO::{CblasLower, CblasUpper};
