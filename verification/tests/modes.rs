use cblas_inject::{
    diag_to_char, side_to_char, transpose_to_char, uplo_to_char, CblasColMajor, CblasConjNoTrans,
    CblasConjTrans, CblasLeft, CblasLower, CblasNoTrans, CblasNonUnit, CblasRight, CblasRowMajor,
    CblasTrans, CblasUnit, CblasUpper, ComplexReturnStyle, CBLAS_DIAG, CBLAS_ORDER, CBLAS_SIDE,
    CBLAS_TRANSPOSE, CBLAS_UPLO,
};

#[test]
fn transpose_flags_are_n_t_c_r() {
    assert_eq!(transpose_to_char(CblasNoTrans), b'N');
    assert_eq!(transpose_to_char(CblasTrans), b'T');
    assert_eq!(transpose_to_char(CblasConjTrans), b'C');
    assert_eq!(transpose_to_char(CblasConjNoTrans), b'R');
}

#[test]
fn uplo_flags_are_u_l() {
    assert_eq!(uplo_to_char(CblasUpper), b'U');
    assert_eq!(uplo_to_char(CblasLower), b'L');
}

#[test]
fn diag_flags_are_n_u() {
    assert_eq!(diag_to_char(CblasNonUnit), b'N');
    assert_eq!(diag_to_char(CblasUnit), b'U');
}

#[test]
fn side_flags_are_l_r() {
    assert_eq!(side_to_char(CblasLeft), b'L');
    assert_eq!(side_to_char(CblasRight), b'R');
}

#[test]
fn codes_follow_the_c_header() {
    assert_eq!(CblasRowMajor.code(), 101);
    assert_eq!(CblasColMajor.code(), 102);
    assert_eq!(CblasNoTrans.code(), 111);
    assert_eq!(CblasTrans.code(), 112);
    assert_eq!(CblasConjTrans.code(), 113);
    assert_eq!(CblasConjNoTrans.code(), 114);
    assert_eq!(CblasUpper.code(), 121);
    assert_eq!(CblasLower.code(), 122);
    assert_eq!(CblasNonUnit.code(), 131);
    assert_eq!(CblasUnit.code(), 132);
    assert_eq!(CblasLeft.code(), 141);
    assert_eq!(CblasRight.code(), 142);
    assert_eq!(ComplexReturnStyle::ReturnValue.code(), 0);
    assert_eq!(ComplexReturnStyle::HiddenArgument.code(), 1);
}

#[test]
fn decoding_undoes_encoding() {
    for code in 0..200 {
        if let Some(order) = CBLAS_ORDER::from_code(code) {
            assert_eq!(order.code(), code);
        }
        if let Some(trans) = CBLAS_TRANSPOSE::from_code(code) {
            assert_eq!(trans.code(), code);
        }
        if let Some(uplo) = CBLAS_UPLO::from_code(code) {
            assert_eq!(uplo.code(), code);
        }
        if let Some(diag) = CBLAS_DIAG::from_code(code) {
            assert_eq!(diag.code(), code);
        }
        if let Some(side) = CBLAS_SIDE::from_code(code) {
            assert_eq!(side.code(), code);
        }
        if let Some(style) = ComplexReturnStyle::from_code(code) {
            assert_eq!(style.code(), code);
        }
    }
    assert_eq!(CBLAS_TRANSPOSE::from_code(114), Some(CblasConjNoTrans));
    assert_eq!(CBLAS_ORDER::from_code(101), Some(CblasRowMajor));
    assert_eq!(ComplexReturnStyle::from_code(1), Some(ComplexReturnStyle::HiddenArgument));
}

#[test]
fn unknown_codes_decode_to_nothing() {
    assert_eq!(CBLAS_ORDER::from_code(100), None);
    assert_eq!(CBLAS_ORDER::from_code(103), None);
    assert_eq!(CBLAS_TRANSPOSE::from_code(115), None);
    assert_eq!(CBLAS_TRANSPOSE::from_code(110), None);
    assert_eq!(CBLAS_UPLO::from_code(123), None);
    assert_eq!(CBLAS_DIAG::from_code(130), None);
    assert_eq!(CBLAS_SIDE::from_code(143), None);
    assert_eq!(CBLAS_SIDE::from_code(-141), None);
    assert_eq!(ComplexReturnStyle::from_code(2), None);
    assert_eq!(ComplexReturnStyle::from_code(-1), None);
}

#[test]
fn default_style_is_return_value() {
    assert_eq!(ComplexReturnStyle::default(), ComplexReturnStyle::ReturnValue);
}
