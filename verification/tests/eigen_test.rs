use russell::eigen::{mat_eigen_sym_jacobi, N_MAX_ITERATIONS, TOLERANCE_BITS};
use russell::matrix::Matrix;
use russell::vector::Vector;

const SQRT_2: f64 = std::f64::consts::SQRT_2;

fn mat_from<const N: usize>(data: &[[f64; N]; N]) -> Matrix {
    let mut a = Matrix::new(N, N);
    for i in 0..N {
        for j in 0..N {
            a.set(i, j, data[i][j].to_bits());
        }
    }
    a
}

fn mat_get(a: &Matrix, i: usize, j: usize) -> f64 {
    f64::from_bits(a.get(i, j))
}

fn vec_get(v: &Vector, i: usize) -> f64 {
    f64::from_bits(v.get(i))
}

fn calc_eigen<const N: usize>(data: &[[f64; N]; N]) -> (usize, Vector, Matrix) {
    let mut a = mat_from(data);
    let (m, n) = a.dims();
    let mut v = Matrix::new(m, n);
    let mut l = Vector::new(n);
    let nit = mat_eigen_sym_jacobi(&mut l, &mut v, &mut a).unwrap();
    (nit, l, v)
}

fn mat_approx_eq<const N: usize>(v: &Matrix, correct: &[[f64; N]; N], tol: f64) {
    for i in 0..N {
        for j in 0..N {
            let diff = (mat_get(v, i, j) - correct[i][j]).abs();
            assert!(
                diff <= tol,
                "matrix entry ({},{}) differs: {} vs {} (diff {})",
                i,
                j,
                mat_get(v, i, j),
                correct[i][j],
                diff
            );
        }
    }
}

fn vec_approx_eq(l: &Vector, correct: &[f64], tol: f64) {
    assert_eq!(l.dim(), correct.len());
    for i in 0..correct.len() {
        let diff = (vec_get(l, i) - correct[i]).abs();
        assert!(
            diff <= tol,
            "vector entry {} differs: {} vs {} (diff {})",
            i,
            vec_get(l, i),
            correct[i],
            diff
        );
    }
}

/// Checks the eigenpairs: every column k of V satisfies A·v_k = l_k·v_k, and
/// V is orthogonal (VᵀV = I), both within the given tolerance.
fn check_eigen_real<const N: usize>(data: &[[f64; N]; N], v: &Matrix, l: &Vector, tol: f64) {
    for i in 0..N {
        for k in 0..N {
            let mut av = 0.0;
            let mut vtv = 0.0;
            for j in 0..N {
                av += data[i][j] * mat_get(v, j, k);
                vtv += mat_get(v, j, i) * mat_get(v, j, k);
            }
            let diff = (av - vec_get(l, k) * mat_get(v, i, k)).abs();
            assert!(diff <= tol, "A*v differs from l*v at ({},{}): diff = {}", i, k, diff);
            let identity = if i == k { 1.0 } else { 0.0 };
            let odiff = (vtv - identity).abs();
            assert!(odiff <= tol, "VtV differs from I at ({},{}): diff = {}", i, k, odiff);
        }
    }
}

/// Checks that the decomposition reconstructs the input: the largest entry of
/// A − V·diag(L)·Vᵀ stays within the given tolerance.
fn check_reconstruction<const N: usize>(data: &[[f64; N]; N], v: &Matrix, l: &Vector, tol: f64) {
    for i in 0..N {
        for j in 0..N {
            let mut reconstructed = 0.0;
            for k in 0..N {
                reconstructed += mat_get(v, i, k) * vec_get(l, k) * mat_get(v, j, k);
            }
            let diff = (data[i][j] - reconstructed).abs();
            assert!(diff <= tol, "reconstruction differs at ({},{}): diff = {}", i, j, diff);
        }
    }
}

#[test]
fn constants_match_the_doubles_they_stand_for() {
    assert_eq!(TOLERANCE_BITS, 1e-15f64.to_bits());
    assert_eq!(russell::fp::ZERO_BITS, 0.0f64.to_bits());
    assert_eq!(russell::fp::ONE_BITS, 1.0f64.to_bits());
    assert_eq!(russell::fp::HALF_BITS, 0.5f64.to_bits());
    assert_eq!(N_MAX_ITERATIONS, 20);
}

#[test]
fn mat_eigen_sym_jacobi_handles_errors() {
    let mut a = Matrix::new(0, 1);
    let mut v = Matrix::new(1, 1);
    let mut l = Vector::new(0);
    assert_eq!(
        mat_eigen_sym_jacobi(&mut l, &mut v, &mut a).err(),
        Some("matrix must be square")
    );
    let mut a = Matrix::new(0, 0);
    assert_eq!(
        mat_eigen_sym_jacobi(&mut l, &mut v, &mut a).err(),
        Some("matrix dimension must be >= 1")
    );
    let mut a = Matrix::new(2, 2);
    assert_eq!(
        mat_eigen_sym_jacobi(&mut l, &mut v, &mut a).err(),
        Some("v and a matrices must have the same dimensions")
    );
    let mut a = Matrix::new(1, 1);
    assert_eq!(
        mat_eigen_sym_jacobi(&mut l, &mut v, &mut a).err(),
        Some("l vector has incompatible dimension")
    );
}

#[test]
fn mat_eigen_sym_jacobi_works_0() {
    // 1x1 matrix
    let data = &[[2.0]];
    let (nit, l, v) = calc_eigen(data);
    assert_eq!(nit, 1);
    mat_approx_eq(&v, &[[1.0]], 1e-15);
    vec_approx_eq(&l, &[2.0], 1e-15);

    // 2x2 matrix
    let data = &[[2.0, 1.0], [1.0, 2.0]];
    let (nit, l, v) = calc_eigen(data);
    assert_eq!(nit, 2);
    mat_approx_eq(
        &v,
        &[[1.0 / SQRT_2, 1.0 / SQRT_2], [-1.0 / SQRT_2, 1.0 / SQRT_2]],
        1e-15,
    );
    vec_approx_eq(&l, &[1.0, 3.0], 1e-15);
}

#[test]
fn mat_eigen_sym_jacobi_works_1() {
    let correct = &[
        [1.0, 0.0, 0.0],
        [0.0, 1.0, 0.0],
        [0.0, 0.0, 1.0],
    ];

    // all zero
    let data = &[
        [0.0, 0.0, 0.0],
        [0.0, 0.0, 0.0],
        [0.0, 0.0, 0.0],
    ];
    let (nit, l, v) = calc_eigen(data);
    assert_eq!(nit, 1);
    mat_approx_eq(&v, correct, 1e-15);
    vec_approx_eq(&l, &[0.0, 0.0, 0.0], 1e-15);

    // 2-repeated, with one zero diagonal entry
    let data = &[
        [2.0, 0.0, 0.0],
        [0.0, 2.0, 0.0],
        [0.0, 0.0, 0.0],
    ];
    let (nit, l, v) = calc_eigen(data);
    assert_eq!(nit, 1);
    mat_approx_eq(&v, correct, 1e-15);
    vec_approx_eq(&l, &[2.0, 2.0, 0.0], 1e-15);
    check_eigen_real(data, &v, &l, 1e-15);

    // 3-repeated / diagonal
    let data = &[
        [2.0, 0.0, 0.0],
        [0.0, 2.0, 0.0],
        [0.0, 0.0, 2.0],
    ];
    let (nit, l, v) = calc_eigen(data);
    assert_eq!(nit, 1);
    mat_approx_eq(&v, correct, 1e-15);
    vec_approx_eq(&l, &[2.0, 2.0, 2.0], 1e-15);
    check_eigen_real(data, &v, &l, 1e-15);
}

#[test]
fn mat_eigen_sym_jacobi_works_2() {
    let data = &[
        [2.0, 0.0, 0.0],
        [0.0, 3.0, 4.0],
        [0.0, 4.0, 9.0],
    ];
    let (nit, l, v) = calc_eigen(data);
    assert_eq!(nit, 2);
    let d = 1.0 / f64::sqrt(5.0);
    let correct = &[
        [1.0,  0.0,   0.0  ],
        [0.0,  2.0*d, 1.0*d],
        [0.0, -1.0*d, 2.0*d],
    ];
    mat_approx_eq(&v, correct, 1e-15);
    vec_approx_eq(&l, &[2.0, 1.0, 11.0], 1e-15);
    check_eigen_real(data, &v, &l, 1e-15);
}

#[test]
fn mat_eigen_sym_jacobi_works_3() {
    let data = &[
        [1.0, 2.0, 3.0],
        [2.0, 3.0, 2.0],
        [3.0, 2.0, 2.0],
    ];
    let (nit, l, v) = calc_eigen(data);
    assert_eq!(nit, 5);
    let correct = &[
        [ 7.81993314738381295e-01, 5.26633230856907386e-01,  3.33382506832158143e-01],
        [-7.14394870018381645e-02, 6.07084171793832561e-01, -7.91419742017035133e-01],
        [-6.19179178753124115e-01, 5.95068272145819699e-01,  5.12358171676802088e-01],
    ];
    mat_approx_eq(&v, correct, 1e-15);
    vec_approx_eq(
        &l,
        &[
            -1.55809924785903786e+00,
            6.69537390404459476e+00,
            8.62725343814443657e-01,
        ],
        1e-15,
    );
    check_eigen_real(data, &v, &l, 1e-14);
}

#[test]
fn mat_eigen_sym_jacobi_works_4() {
    let data = &[
        [1.0, 2.0, 3.0, 4.0, 5.0],
        [2.0, 3.0, 0.0, 2.0, 4.0],
        [3.0, 0.0, 2.0, 1.0, 3.0],
        [4.0, 2.0, 1.0, 1.0, 2.0],
        [5.0, 4.0, 3.0, 2.0, 1.0],
    ];
    let (nit, l, v) = calc_eigen(data);
    assert_eq!(nit, 6);
    let correct = &[
        [ 4.265261184874604e-01, 5.285232769688938e-01,  1.854383137677959e-01,  2.570216184506737e-01, -6.620355997875309e-01],
        [-3.636641874245161e-01, 4.182907021187977e-01, -7.200691218899387e-01, -3.444995789572199e-01, -2.358002271092630e-01],
        [-5.222548807800880e-01, 3.413546312786976e-01,  6.672573809673910e-01, -4.053509412317634e-01, -3.442465966457679e-02],
        [-4.133525029362699e-01, 3.807798553184266e-01, -3.950209555261502e-02,  7.608554466087614e-01,  3.220015278111787e-01],
        [ 4.921517823299884e-01, 5.330851261396132e-01, -1.789590676939640e-02, -2.684204380363021e-01,  6.334327718104180e-01],
    ];
    mat_approx_eq(&v, correct, 1e-13);
    vec_approx_eq(
        &l,
        &[
            -2.485704750172629e+00,
            1.244545682971212e+01,
            2.694072690168129e+00,
            2.073336609414627e-01,
            -4.861158430649138e+00,
        ],
        1e-12,
    );
    check_eigen_real(data, &v, &l, 1e-14);
}

#[test]
fn mat_eigen_sym_jacobi_works_5() {
    let samples = &[
        (
            // 0
            2,
            [[1.0, 2.0, 0.0], [2.0, -2.0, 0.0], [0.0, 0.0, -2.0]],
            1e-15,
        ),
        (
            // 1
            2,
            [[-100.0, 33.0, 0.0], [33.0, -200.0, 0.0], [0.0, 0.0, 150.0]],
            1e-13,
        ),
        (
            // 2
            4,
            [[1.0, 2.0, 4.0], [2.0, -2.0, 3.0], [4.0, 3.0, -2.0]],
            1e-14,
        ),
        (
            // 3
            4,
            [[-100.0, -10.0, 20.0], [-10.0, -200.0, 15.0], [20.0, 15.0, -300.0]],
            1e-13,
        ),
        (
            // 4
            2,
            [[-100.0, 0.0, -10.0], [0.0, -200.0, 0.0], [-10.0, 0.0, 100.0]],
            1e-13,
        ),
        (
            // 5
            2,
            [[0.13, 1.2, 0.0], [1.2, -20.0, 0.0], [0.0, 0.0, -28.0]],
            1e-14,
        ),
        (
            // 6
            2,
            [[-10.0, 3.3, 0.0], [3.3, -2.0, 0.0], [0.0, 0.0, 1.5]],
            1e-15,
        ),
        (
            // 7
            4,
            [[0.1, 0.2, 0.8], [0.2, -1.3, 0.3], [0.8, 0.3, -0.2]],
            1e-15,
        ),
        (
            // 8
            4,
            [[-10.0, -1.0, 2.0], [-1.0, -20.0, 1.0], [2.0, 1.0, -30.0]],
            1e-14,
        ),
        (
            // 9
            2,
            [[-10.0, 0.0, -1.0], [0.0, -20.0, 0.0], [-1.0, 0.0, 10.0]],
            1e-15,
        ),
    ];
    let mut test_id = 0;
    for (nit_correct, data, tol) in samples {
        println!("test = {}", test_id);
        let (nit, l, v) = calc_eigen(data);
        assert_eq!(nit, *nit_correct);
        check_eigen_real(data, &v, &l, *tol);
        test_id += 1;
    }
}

#[test]
fn mat_eigen_sym_jacobi_works_6() {
    let size = 8;

    let mut data = [[2.0f64; 8]; 8];
    let mut a = mat_from(&data);
    let mut v = Matrix::new(size, size);
    let mut l = Vector::new(size);
    let nit = mat_eigen_sym_jacobi(&mut l, &mut v, &mut a).unwrap();
    assert_eq!(nit, 4);
    check_eigen_real(&data, &v, &l, 1e-14);

    data = [[(size + 1) as f64; 8]; 8];
    for i in 0..(size - 1) {
        for j in (i + 1)..size {
            data[i][j] = (i + j) as f64;
            data[j][i] = (i + j) as f64;
        }
    }
    let mut a = mat_from(&data);
    let mut v = Matrix::new(size, size);
    let mut l = Vector::new(size);
    let nit = mat_eigen_sym_jacobi(&mut l, &mut v, &mut a).unwrap();
    assert_eq!(nit, 7);
    check_eigen_real(&data, &v, &l, 1e-12);
}

#[test]
fn mat_eigen_sym_jacobi_reports_non_convergence() {
    // a NaN off-diagonal entry keeps the off-diagonal sum from ever falling
    // below the tolerance: the sweep budget runs out and the call reports the
    // failure instead of looping or panicking
    let data = &[
        [1.0, f64::NAN, 2.0],
        [f64::NAN, 1.0, 3.0],
        [2.0, 3.0, 1.0],
    ];
    let mut a = mat_from(data);
    let mut v = Matrix::new(3, 3);
    let mut l = Vector::new(3);
    assert_eq!(
        mat_eigen_sym_jacobi(&mut l, &mut v, &mut a).err(),
        Some("Jacobi rotation did not converge")
    );
}

#[test]
fn mat_eigen_sym_jacobi_leaves_inputs_alone_on_error() {
    // dimension failures come before any mutation
    let mut a = Matrix::new(2, 3);
    a.set(0, 0, 7.5f64.to_bits());
    a.set(1, 2, (-3.25f64).to_bits());
    let mut v = Matrix::new(2, 3);
    v.set(1, 1, 42.0f64.to_bits());
    let mut l = Vector::new(2);
    l.set(0, 9.0f64.to_bits());
    assert!(mat_eigen_sym_jacobi(&mut l, &mut v, &mut a).is_err());
    assert_eq!(mat_get(&a, 0, 0), 7.5);
    assert_eq!(mat_get(&a, 1, 2), -3.25);
    assert_eq!(mat_get(&v, 1, 1), 42.0);
    assert_eq!(vec_get(&l, 0), 9.0);
    assert_eq!(mat_get(&v, 0, 0), 0.0);
}

#[test]
fn reconstruction_and_orthogonality_hold() {
    // small well-separated cases reconstruct to near machine precision
    let data3 = &[
        [2.0, 0.0, 0.0],
        [0.0, 3.0, 4.0],
        [0.0, 4.0, 9.0],
    ];
    let (_, l, v) = calc_eigen(data3);
    check_reconstruction(data3, &v, &l, 1e-14);

    let data3b = &[
        [1.0, 2.0, 3.0],
        [2.0, 3.0, 2.0],
        [3.0, 2.0, 2.0],
    ];
    let (_, l, v) = calc_eigen(data3b);
    check_reconstruction(data3b, &v, &l, 1e-14);

    // a dense 8x8 case reconstructs within a wider, size-appropriate tolerance
    let mut data8 = [[9.0f64; 8]; 8];
    for i in 0..7 {
        for j in (i + 1)..8 {
            data8[i][j] = (i + j) as f64;
            data8[j][i] = (i + j) as f64;
        }
    }
    let mut a = mat_from(&data8);
    let mut v = Matrix::new(8, 8);
    let mut l = Vector::new(8);
    mat_eigen_sym_jacobi(&mut l, &mut v, &mut a).unwrap();
    check_reconstruction(&data8, &v, &l, 1e-12);

    // orthogonality of the eigenvector matrix in each case
    let (_, l, v) = calc_eigen(data3);
    check_eigen_real(data3, &v, &l, 1e-14);
}
