//! The description of a matrix in full storage: its shape, its storage order
//! and its leading dimension.
//!
//! The leading dimension is the distance in the buffer between the starts of
//! two successive rows of a row-major matrix, or of two successive columns of a
//! column-major one. It is at least the length of a row, or of a column, and at
//! least one. The same buffer with the same leading dimension, read in the other
//! order, holds the transpose.

use vstd::prelude::*;
use crate::storage::Storage;
use crate::types::{blasint, CBLAS_ORDER};

verus! {

/// The shape and layout of a matrix in full storage.
#[derive(Debug, Clone, Copy, PartialEq, Eq, Structural)]
pub struct MatrixDescriptor {
    pub order: CBLAS_ORDER,
    pub rows: blasint,
    pub cols: blasint,
    /// The leading dimension.
    pub ld: blasint,
}

impl MatrixDescriptor {
    /// The length of what lies contiguous: of a row in row-major order, of a
    /// column in column-major order.
    pub open spec fn minor_dim(self) -> int {
        match self.order {
            CBLAS_ORDER::CblasRowMajor => self.cols as int,
            CBLAS_ORDER::CblasColMajor => self.rows as int,
        }
    }

    /// The count of rows in row-major order, of columns in column-major order.
    pub open spec fn major_dim(self) -> int {
        match self.order {
            CBLAS_ORDER::CblasRowMajor => self.rows as int,
            CBLAS_ORDER::CblasColMajor => self.cols as int,
        }
    }

    /// Whether the description is sound: no negative dimension, and a leading
    /// dimension of at least one that leaves room for a whole row or column.
    pub open spec fn well_formed(self) -> bool {
        &&& self.rows >= 0
        &&& self.cols >= 0
        &&& self.ld >= 1
        &&& self.ld >= self.minor_dim()
    }

    /// The description of what the same buffer holds when read in the other
    /// order: the transpose, with the same leading dimension.
    pub open spec fn other_order(self) -> MatrixDescriptor {
        MatrixDescriptor {
            order: match self.order {
                CBLAS_ORDER::CblasRowMajor => CBLAS_ORDER::CblasColMajor,
                CBLAS_ORDER::CblasColMajor => CBLAS_ORDER::CblasRowMajor,
            },
            rows: self.cols,
            cols: self.rows,
            ld: self.ld,
        }
    }

    /// The place in the buffer of the element in row `i`, column `j`.
    pub open spec fn place_of(self, i: int, j: int) -> int {
        Storage::Full { ld: self.ld as int }.place(self.order, i, j)
    }

    /// How many places of the buffer the matrix spans: none if it has no
    /// element.
    pub open spec fn span_of(self) -> int {
        if self.rows <= 0 || self.cols <= 0 {
            0
        } else {
            (self.major_dim() - 1) * self.ld + self.minor_dim()
        }
    }

    /// Tells whether the description is sound.
    pub fn is_well_formed(&self) -> (ok: bool)
        ensures
            ok == self.well_formed(),
    {
        let minor = match self.order {
            CBLAS_ORDER::CblasRowMajor => self.cols,
            CBLAS_ORDER::CblasColMajor => self.rows,
        };
        self.rows >= 0 && self.cols >= 0 && self.ld >= 1 && self.ld >= minor
    }

    /// Describes what the same buffer holds when read in the other order.
    pub fn reinterpret(&self) -> (other: MatrixDescriptor)
        ensures
            other == self.other_order(),
    {
        MatrixDescriptor {
            order: match self.order {
                CBLAS_ORDER::CblasRowMajor => CBLAS_ORDER::CblasColMajor,
                CBLAS_ORDER::CblasColMajor => CBLAS_ORDER::CblasRowMajor,
            },
            rows: self.cols,
            cols: self.rows,
            ld: self.ld,
        }
    }

    /// Computes the place in the buffer of the element in row `i`, column `j`.
    pub fn place(&self, i: blasint, j: blasint) -> (at: i64)
        requires
            self.well_formed(),
            0 <= i < self.rows,
            0 <= j < self.cols,
        ensures
            at == self.place_of(i as int, j as int),
            0 <= at < self.span_of(),
    {
        proof {
            self.lemma_place_in_span(i as int, j as int);
        }
        let ld: i64 = self.ld as i64;
        match self.order {
            CBLAS_ORDER::CblasRowMajor => {
                assert(0 <= (i as i64) * ld <= 0x7fff_ffff * 0x7fff_ffff) by (nonlinear_arith)
                    requires
                        0 <= i <= 0x7fff_ffff,
                        0 <= ld <= 0x7fff_ffff,
                ;
                j as i64 + (i as i64) * ld
            },
            CBLAS_ORDER::CblasColMajor => {
                assert(0 <= (j as i64) * ld <= 0x7fff_ffff * 0x7fff_ffff) by (nonlinear_arith)
                    requires
                        0 <= j <= 0x7fff_ffff,
                        0 <= ld <= 0x7fff_ffff,
                ;
                i as i64 + (j as i64) * ld
            },
        }
    }

    /// Every element of a soundly described matrix lies inside its span.
    pub proof fn lemma_place_in_span(self, i: int, j: int)
        requires
            self.well_formed(),
            0 <= i < self.rows,
            0 <= j < self.cols,
        ensures
            0 <= self.place_of(i, j) < self.span_of(),
    {
        let ld = self.ld as int;
        match self.order {
            CBLAS_ORDER::CblasRowMajor => {
                assert(0 <= i * ld <= (self.rows - 1) * ld) by (nonlinear_arith)
                    requires
                        0 <= i <= self.rows - 1,
                        0 <= ld,
                ;
            },
            CBLAS_ORDER::CblasColMajor => {
                assert(0 <= j * ld <= (self.cols - 1) * ld) by (nonlinear_arith)
                    requires
                        0 <= j <= self.cols - 1,
                        0 <= ld,
                ;
            },
        }
    }

    /// Reading a buffer in the other order gives the transpose and loses
    /// nothing: the element in row `i`, column `j` lies where the other
    /// description has row `j`, column `i`; the other description is sound
    /// exactly if this one is, spans the same places, and read in the other
    /// order once more is this one again.
    pub proof fn other_order_is_transpose(self, i: int, j: int)
        ensures
            self.place_of(i, j) == self.other_order().place_of(j, i),
            self.other_order().well_formed() == self.well_formed(),
            self.other_order().span_of() == self.span_of(),
            self.other_order().minor_dim() == self.minor_dim(),
            self.other_order().other_order() == self,
    {
    }

    /// In a soundly described matrix no two elements share a place.
    pub proof fn places_are_distinct(self, i1: int, j1: int, i2: int, j2: int)
        requires
            self.well_formed(),
            0 <= i1 < self.rows,
            0 <= j1 < self.cols,
            0 <= i2 < self.rows,
            0 <= j2 < self.cols,
        ensures
            self.place_of(i1, j1) == self.place_of(i2, j2) <==> i1 == i2 && j1 == j2,
    {
        let ld = self.ld as int;
        match self.order {
            CBLAS_ORDER::CblasRowMajor => {
                if i1 < i2 {
                    assert(i2 * ld >= i1 * ld + ld) by (nonlinear_arith)
                        requires
                            i2 >= i1 + 1,
                            ld >= 0,
                    ;
                } else if i2 < i1 {
                    assert(i1 * ld >= i2 * ld + ld) by (nonlinear_arith)
                        requires
                            i1 >= i2 + 1,
                            ld >= 0,
                    ;
                }
            },
            CBLAS_ORDER::CblasColMajor => {
                if j1 < j2 {
                    assert(j2 * ld >= j1 * ld + ld) by (nonlinear_arith)
                        requires
                            j2 >= j1 + 1,
                            ld >= 0,
                    ;
                } else if j2 < j1 {
                    assert(j1 * ld >= j2 * ld + ld) by (nonlinear_arith)
                        requires
                            j1 >= j2 + 1,
                            ld >= 0,
                    ;
                }
            },
        }
    }
}

} // verus!
