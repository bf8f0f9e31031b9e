use cblas_inject::{
    diag_to_char, rewrite_for, to_native, transpose_to_char, uplo_to_char, CallParams,
    CblasColMajor, CblasConjNoTrans, CblasConjTrans, CblasLower, CblasNoTrans, CblasNonUnit,
    CblasRowMajor, CblasTrans, CblasUnit, CblasUpper, Domain, Operation, CBLAS_DIAG, CBLAS_ORDER,
    CBLAS_TRANSPOSE, CBLAS_UPLO,
};
use num_complex::Complex64;

type C = Complex64;

const ORDERS: [CBLAS_ORDER; 2] = [CblasRowMajor, CblasColMajor];
const UPLOS: [CBLAS_UPLO; 2] = [CblasUpper, CblasLower];
const DIAGS: [CBLAS_DIAG; 2] = [CblasNonUnit, CblasUnit];
const TRANSPOSES: [CBLAS_TRANSPOSE; 4] =
    [CblasNoTrans, CblasTrans, CblasConjTrans, CblasConjNoTrans];

/// A value that no result may depend on.
const POISON: f64 = 1.0e30;

fn zero() -> C {
    C::new(0.0, 0.0)
}

fn poison() -> C {
    C::new(POISON, POISON)
}

/// The element in row `i`, column `j` of the sample matrix with this seed.
fn sample(seed: i32, i: usize, j: usize) -> C {
    let k = (i * 11 + j * 3) as i32;
    C::new(((k * 3 + seed) % 7 - 3) as f64, ((k * 5 + 2 * seed) % 5 - 2) as f64)
}

fn in_triangle(uplo: CBLAS_UPLO, i: usize, j: usize) -> bool {
    match uplo {
        CBLAS_UPLO::CblasUpper => i <= j,
        CBLAS_UPLO::CblasLower => i >= j,
    }
}

fn op_entry(t: CBLAS_TRANSPOSE, a: &dyn Fn(usize, usize) -> C, i: usize, j: usize) -> C {
    match t {
        CBLAS_TRANSPOSE::CblasNoTrans => a(i, j),
        CBLAS_TRANSPOSE::CblasTrans => a(j, i),
        CBLAS_TRANSPOSE::CblasConjTrans => a(j, i).conj(),
        CBLAS_TRANSPOSE::CblasConjNoTrans => a(i, j).conj(),
    }
}

fn col_flag(flag: u8, a: &dyn Fn(usize, usize) -> C, i: usize, j: usize) -> C {
    match flag {
        b'N' => a(i, j),
        b'T' => a(j, i),
        b'C' => a(j, i).conj(),
        b'R' => a(i, j).conj(),
        _ => panic!("illegal transpose flag"),
    }
}

// Where the CBLAS storage formats keep an element.

fn band_place(order: CBLAS_ORDER, ld: usize, kl: usize, ku: usize, i: usize, j: usize) -> usize {
    match order {
        CBLAS_ORDER::CblasRowMajor => i * ld + (kl + j - i),
        CBLAS_ORDER::CblasColMajor => j * ld + (ku + i - j),
    }
}

fn packed_place(order: CBLAS_ORDER, uplo: CBLAS_UPLO, n: usize, i: usize, j: usize) -> usize {
    match (order, uplo) {
        (CBLAS_ORDER::CblasColMajor, CBLAS_UPLO::CblasUpper) => i + j * (j + 1) / 2,
        (CBLAS_ORDER::CblasColMajor, CBLAS_UPLO::CblasLower) => i + j * (2 * n - j - 1) / 2,
        (CBLAS_ORDER::CblasRowMajor, CBLAS_UPLO::CblasUpper) => j + i * (2 * n - i - 1) / 2,
        (CBLAS_ORDER::CblasRowMajor, CBLAS_UPLO::CblasLower) => j + i * (i + 1) / 2,
    }
}

// Column-major kernels in the Fortran convention.

fn k_band(ab: &[C], lda: i32, kl: i32, ku: i32, i: usize, j: usize) -> C {
    let (ii, jj) = (i as i32, j as i32);
    if ii - jj <= kl && jj - ii <= ku {
        ab[(ku + ii - jj) as usize + j * lda as usize]
    } else {
        zero()
    }
}

#[allow(clippy::too_many_arguments)]
fn k_gbmv(
    trans: u8, m: i32, n: i32, kl: i32, ku: i32, alpha: C, ab: &[C], lda: i32, x: &[C], beta: C,
    y: &mut [C],
) {
    let a = |i: usize, j: usize| k_band(ab, lda, kl, ku, i, j);
    let transposed = trans == b'T' || trans == b'C';
    let (rows, cols) = if transposed { (n, m) } else { (m, n) };
    for i in 0..rows as usize {
        let mut acc = zero();
        for j in 0..cols as usize {
            acc += col_flag(trans, &a, i, j) * x[j];
        }
        y[i] = alpha * acc + beta * y[i];
    }
}

fn k_triangle_band(uplo: u8, ab: &[C], lda: i32, k: i32, i: usize, j: usize) -> Option<C> {
    let (ii, jj) = (i as i32, j as i32);
    match uplo {
        b'U' if ii <= jj && jj - ii <= k => Some(ab[(k + ii - jj) as usize + j * lda as usize]),
        b'L' if ii >= jj && ii - jj <= k => Some(ab[(ii - jj) as usize + j * lda as usize]),
        b'U' | b'L' => None,
        _ => panic!("illegal triangle flag"),
    }
}

fn k_packed(uplo: u8, ap: &[C], n: i32, i: usize, j: usize) -> Option<C> {
    let n = n as usize;
    match uplo {
        b'U' if i <= j => Some(ap[i + j * (j + 1) / 2]),
        b'L' if i >= j => Some(ap[i + j * (2 * n - j - 1) / 2]),
        b'U' | b'L' => None,
        _ => panic!("illegal triangle flag"),
    }
}

/// The Hermitian or symmetric matrix of which `stored` gives one triangle.
fn self_adjoint(hermitian: bool, stored: &dyn Fn(usize, usize) -> Option<C>, i: usize, j: usize) -> C {
    if i == j && hermitian {
        return C::new(stored(i, i).unwrap().re, 0.0);
    }
    match stored(i, j) {
        Some(v) => v,
        None => match stored(j, i) {
            Some(v) => {
                if hermitian {
                    v.conj()
                } else {
                    v
                }
            }
            None => zero(),
        },
    }
}

/// `hbmv`, `sbmv`, `hpmv` and `spmv`: `stored` reads the triangle.
fn k_self_adjoint_mv(
    hermitian: bool, n: i32, alpha: C, stored: &dyn Fn(usize, usize) -> Option<C>, x: &[C],
    beta: C, y: &mut [C],
) {
    for i in 0..n as usize {
        let mut acc = zero();
        for j in 0..n as usize {
            acc += self_adjoint(hermitian, stored, i, j) * x[j];
        }
        y[i] = alpha * acc + beta * y[i];
    }
}

/// `tbmv` and `tpmv`: `stored` reads the triangle.
fn k_triangular_mv(
    trans: u8, diag: u8, n: i32, stored: &dyn Fn(usize, usize) -> Option<C>, x: &mut [C],
) {
    let t = |i: usize, j: usize| {
        if i == j && diag == b'U' {
            C::new(1.0, 0.0)
        } else {
            stored(i, j).unwrap_or(zero())
        }
    };
    let old = x.to_vec();
    for i in 0..n as usize {
        let mut acc = zero();
        for j in 0..n as usize {
            acc += col_flag(trans, &t, i, j) * old[j];
        }
        x[i] = acc;
    }
}

/// `hpr` and `spr`, and with a second vector `hpr2` and `spr2`.
fn k_packed_update(hermitian: bool, uplo: u8, n: i32, alpha: C, x: &[C], y: Option<&[C]>, ap: &mut [C]) {
    let adj = |v: C| if hermitian { v.conj() } else { v };
    let nn = n as usize;
    for i in 0..nn {
        for j in 0..nn {
            let at = match uplo {
                b'U' if i <= j => i + j * (j + 1) / 2,
                b'L' if i >= j => i + j * (2 * nn - j - 1) / 2,
                b'U' | b'L' => continue,
                _ => panic!("illegal triangle flag"),
            };
            ap[at] += match y {
                None => alpha * x[i] * adj(x[j]),
                Some(y) => alpha * x[i] * adj(y[j]) + adj(alpha) * y[i] * adj(x[j]),
            };
        }
    }
}

fn conj_all(wanted: bool, x: &[C]) -> Vec<C> {
    x.iter().map(|v| if wanted { v.conj() } else { *v }).collect()
}

fn conj_if(wanted: bool, v: C) -> C {
    if wanted {
        v.conj()
    } else {
        v
    }
}

fn vector(n: usize, seed: i32) -> Vec<C> {
    (0..n).map(|i| sample(seed, i, 2 * i + 1)).collect()
}

#[test]
fn gbmv_row_and_column_major_agree() {
    let (m, n, kl, ku) = (5usize, 4usize, 1usize, 2usize);
    let a = |i: usize, j: usize| {
        if i as i32 - j as i32 <= kl as i32 && j as i32 - i as i32 <= ku as i32 {
            sample(3, i, j)
        } else {
            zero()
        }
    };
    let alpha = C::new(2.0, -1.0);
    let beta = C::new(1.0, 3.0);
    let ld = kl + ku + 2;
    for trans in TRANSPOSES {
        let transposed = trans == CblasTrans || trans == CblasConjTrans;
        let (rows, cols) = if transposed { (n, m) } else { (m, n) };
        let x = vector(cols, 5);
        let y0 = vector(rows, 8);
        let expected: Vec<C> = (0..rows)
            .map(|i| {
                let acc: C = (0..cols).map(|j| op_entry(trans, &a, i, j) * x[j]).sum();
                alpha * acc + beta * y0[i]
            })
            .collect();
        for order in ORDERS {
            let major = if order == CblasRowMajor { m } else { n };
            let mut buf = vec![poison(); ld * major];
            for i in 0..m {
                for j in 0..n {
                    if i as i32 - j as i32 <= kl as i32 && j as i32 - i as i32 <= ku as i32 {
                        buf[band_place(order, ld, kl, ku, i, j)] = a(i, j);
                    }
                }
            }
            let p = CallParams {
                transa: trans,
                kl: kl as i32,
                ku: ku as i32,
                ..CallParams::plain(m as i32, n as i32)
            };
            let q = to_native(Operation::Gbmv, Domain::Complex, order, p);
            let mut y = y0.clone();
            k_gbmv(
                transpose_to_char(q.transa), q.m, q.n, q.kl, q.ku, alpha, &buf, ld as i32, &x,
                beta, &mut y,
            );
            assert_eq!(y, expected, "{:?} {:?}", order, trans);
        }
    }
}

fn triangle_band_buffer(
    order: CBLAS_ORDER, uplo: CBLAS_UPLO, n: usize, k: usize, ld: usize, skip_diagonal: bool,
    a: &dyn Fn(usize, usize) -> C,
) -> Vec<C> {
    let mut buf = vec![poison(); ld * n];
    let (kl, ku) = if uplo == CblasUpper { (0, k) } else { (k, 0) };
    for i in 0..n {
        for j in 0..n {
            let inside = in_triangle(uplo, i, j) && i.abs_diff(j) <= k;
            if inside && !(i == j && skip_diagonal) {
                buf[band_place(order, ld, kl, ku, i, j)] = a(i, j);
            }
        }
    }
    buf
}

fn packed_buffer(
    order: CBLAS_ORDER, uplo: CBLAS_UPLO, n: usize, skip_diagonal: bool,
    a: &dyn Fn(usize, usize) -> C,
) -> Vec<C> {
    let mut buf = vec![poison(); n * (n + 1) / 2];
    for i in 0..n {
        for j in 0..n {
            if in_triangle(uplo, i, j) && !(i == j && skip_diagonal) {
                buf[packed_place(order, uplo, n, i, j)] = a(i, j);
            }
        }
    }
    buf
}

#[test]
fn band_and_packed_self_adjoint_mat_vec_row_and_column_major_agree() {
    let (n, k) = (5usize, 2usize);
    let ld = k + 2;
    let alpha = C::new(1.0, 2.0);
    let beta = C::new(-2.0, 1.0);
    let x = vector(n, 4);
    let y0 = vector(n, 6);
    for op in [Operation::Hbmv, Operation::Sbmv, Operation::Hpmv, Operation::Spmv] {
        let hermitian = op == Operation::Hbmv || op == Operation::Hpmv;
        let banded = op == Operation::Hbmv || op == Operation::Sbmv;
        let a = move |i: usize, j: usize| {
            if banded && i.abs_diff(j) > k {
                zero()
            } else if i == j {
                C::new(sample(2, i, i).re, 0.0)
            } else if i < j {
                sample(2, i, j)
            } else if hermitian {
                sample(2, j, i).conj()
            } else {
                sample(2, j, i)
            }
        };
        let expected: Vec<C> = (0..n)
            .map(|i| {
                let acc: C = (0..n).map(|j| a(i, j) * x[j]).sum();
                alpha * acc + beta * y0[i]
            })
            .collect();
        for order in ORDERS {
            for uplo in UPLOS {
                let rule = rewrite_for(op, order);
                let p = CallParams { uplo, ..CallParams::plain(n as i32, n as i32) };
                let q = to_native(op, Domain::Complex, order, p);
                let flag = uplo_to_char(q.uplo);
                let buf = if banded {
                    triangle_band_buffer(order, uplo, n, k, ld, false, &a)
                } else {
                    packed_buffer(order, uplo, n, false, &a)
                };
                let stored = |i: usize, j: usize| {
                    if banded {
                        k_triangle_band(flag, &buf, ld as i32, k as i32, i, j)
                    } else {
                        k_packed(flag, &buf, q.n, i, j)
                    }
                };
                let mut y = conj_all(rule.conj_vectors, &y0);
                k_self_adjoint_mv(
                    hermitian,
                    q.n,
                    conj_if(rule.conj_scalars, alpha),
                    &stored,
                    &conj_all(rule.conj_vectors, &x),
                    conj_if(rule.conj_scalars, beta),
                    &mut y,
                );
                let y = conj_all(rule.conj_vectors, &y);
                assert_eq!(y, expected, "{:?} {:?} {:?}", op, order, uplo);
            }
        }
    }
}

#[test]
fn band_and_packed_triangular_mat_vec_row_and_column_major_agree() {
    let (n, k) = (5usize, 2usize);
    let ld = k + 3;
    let x0 = vector(n, 3);
    for op in [Operation::Tbmv, Operation::Tpmv] {
        let banded = op == Operation::Tbmv;
        for uplo in UPLOS {
            for diag in DIAGS {
                let t = move |i: usize, j: usize| {
                    if i == j && diag == CblasUnit {
                        C::new(1.0, 0.0)
                    } else if in_triangle(uplo, i, j) && !(banded && i.abs_diff(j) > k) {
                        sample(7, i, j)
                    } else {
                        zero()
                    }
                };
                for trans in TRANSPOSES {
                    let expected: Vec<C> = (0..n)
                        .map(|i| (0..n).map(|j| op_entry(trans, &t, i, j) * x0[j]).sum())
                        .collect();
                    for order in ORDERS {
                        let p = CallParams {
                            uplo,
                            transa: trans,
                            diag,
                            ..CallParams::plain(n as i32, n as i32)
                        };
                        let q = to_native(op, Domain::Complex, order, p);
                        let flag = uplo_to_char(q.uplo);
                        let unit = diag == CblasUnit;
                        let buf = if banded {
                            triangle_band_buffer(order, uplo, n, k, ld, unit, &t)
                        } else {
                            packed_buffer(order, uplo, n, unit, &t)
                        };
                        let stored = |i: usize, j: usize| {
                            if banded {
                                k_triangle_band(flag, &buf, ld as i32, k as i32, i, j)
                            } else {
                                k_packed(flag, &buf, q.n, i, j)
                            }
                        };
                        let mut x = x0.clone();
                        k_triangular_mv(
                            transpose_to_char(q.transa),
                            diag_to_char(q.diag),
                            q.n,
                            &stored,
                            &mut x,
                        );
                        assert_eq!(
                            x, expected,
                            "{:?} {:?} {:?} {:?} {:?}",
                            op, order, uplo, trans, diag
                        );
                    }
                }
            }
        }
    }
}

#[test]
fn packed_rank_updates_row_and_column_major_agree() {
    let n = 4usize;
    let x = vector(n, 2);
    let y = vector(n, 9);
    for op in [Operation::Spr, Operation::Hpr, Operation::Spr2, Operation::Hpr2] {
        let hermitian = op == Operation::Hpr || op == Operation::Hpr2;
        let two = op == Operation::Spr2 || op == Operation::Hpr2;
        let alpha = if op == Operation::Hpr { C::new(3.0, 0.0) } else { C::new(2.0, -1.0) };
        let adj = move |v: C| if hermitian { v.conj() } else { v };
        let a = move |i: usize, j: usize| {
            if i == j {
                C::new(sample(5, i, i).re, 0.0)
            } else if i < j {
                sample(5, i, j)
            } else {
                adj(sample(5, j, i))
            }
        };
        let (xc, yc) = (x.clone(), y.clone());
        let updated = move |i: usize, j: usize| {
            let update = if two {
                alpha * xc[i] * adj(yc[j]) + adj(alpha) * yc[i] * adj(xc[j])
            } else {
                alpha * xc[i] * adj(xc[j])
            };
            a(i, j) + update
        };
        for order in ORDERS {
            for uplo in UPLOS {
                let rule = rewrite_for(op, order);
                let p = CallParams { uplo, ..CallParams::plain(n as i32, n as i32) };
                let q = to_native(op, Domain::Complex, order, p);
                let mut buf = packed_buffer(order, uplo, n, false, &a);
                let (first, second) = if rule.swap_vectors { (&y, &x) } else { (&x, &y) };
                let first = conj_all(rule.conj_vectors, first);
                let second = conj_all(rule.conj_vectors, second);
                k_packed_update(
                    hermitian,
                    uplo_to_char(q.uplo),
                    q.n,
                    conj_if(rule.conj_scalars, alpha),
                    &first,
                    if two { Some(&second[..]) } else { None },
                    &mut buf,
                );
                let expected = packed_buffer(order, uplo, n, false, &updated);
                assert_eq!(buf, expected, "{:?} {:?} {:?}", op, order, uplo);
            }
        }
    }
}
