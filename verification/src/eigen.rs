//! The cyclic Jacobi eigenvalue algorithm for dense symmetric matrices.
//!
//! The method applies a sequence of plane (Jacobi) rotations, each chosen to
//! annihilate one upper off-diagonal entry while slightly perturbing the
//! others; the total off-diagonal magnitude decreases from sweep to sweep
//! until it falls below a fixed tolerance. Accumulating the rotations gives
//! the matrix of eigenvectors, and the corrected diagonal gives the
//! eigenvalues.
//!
//! Every scalar is the bit pattern of an IEEE-754 double (see `fp`), and the
//! whole computation is pinned down by the spec functions below: they mirror
//! the algorithm over the named bit-level operations, so the result of
//! `mat_eigen_sym_jacobi` is a single mathematical function of the input
//! matrix, stated in its contract.

use vstd::prelude::*;
use crate::StrError;
use crate::fp::{
    abs_bits, add_bits, div_bits, lt_bits, le_bits, mul_bits, neg_bits, sub_bits, sqrt_bits,
    fp_abs, fp_add, fp_div, fp_le, fp_lt, fp_mul, fp_neg, fp_sqrt, fp_sub, HALF_BITS, ONE_BITS,
    ZERO_BITS,
};
use crate::matrix::Matrix;
use crate::vector::Vector;

verus! {

/// The bit pattern of 1e-15: the tolerance for the sum of the absolute
/// values of the upper off-diagonal entries.
pub const TOLERANCE_BITS: u64 = 0x3cd203af9ee75616;

/// The maximum number of sweeps.
pub const N_MAX_ITERATIONS: usize = 20;

/// The whole state carried between rotations: the working matrix, the
/// accumulated eigenvector matrix, the running eigenvalues, the base
/// diagonal accumulated from the start, and the sweep-local adjustment.
pub ghost struct JacobiState {
    pub a: Seq<Seq<u64>>,
    pub v: Seq<Seq<u64>>,
    pub l: Seq<u64>,
    pub b: Seq<u64>,
    pub z: Seq<u64>,
}

/// The rotation tangent for the diagonal difference `hd` and the
/// off-diagonal entry `apq`: one when the diagonal entries are nearly equal,
/// and otherwise the numerically stable tangent-half-angle formula.
pub open spec fn rot_tangent(hd: u64, apq: u64) -> u64 {
    if le_bits(abs_bits(hd), TOLERANCE_BITS) {
        ONE_BITS
    } else {
        let theta = div_bits(mul_bits(HALF_BITS, hd), apq);
        let t = div_bits(
            ONE_BITS,
            add_bits(abs_bits(theta), sqrt_bits(add_bits(ONE_BITS, mul_bits(theta, theta)))),
        );
        if lt_bits(theta, ZERO_BITS) {
            neg_bits(t)
        } else {
            t
        }
    }
}

/// The first half of the two-term rotation update: g - s*(h + g*tau).
pub open spec fn rot_g(g: u64, h: u64, s: u64, tau: u64) -> u64 {
    sub_bits(g, mul_bits(s, add_bits(h, mul_bits(g, tau))))
}

/// The second half of the two-term rotation update: h + s*(g - h*tau).
pub open spec fn rot_h(g: u64, h: u64, s: u64, tau: u64) -> u64 {
    add_bits(h, mul_bits(s, sub_bits(g, mul_bits(h, tau))))
}

/// One Jacobi rotation at the pair p < q: annihilates the entry (p,q),
/// updates the rest of the upper triangle in the three ranges j < p,
/// p < j < q, and q < j < n, applies the same rotation to the columns p and q
/// of the eigenvector matrix, and moves the diagonal correction h between the
/// running eigenvalues and the sweep accumulator.
pub open spec fn rotate_pair(st: JacobiState, n: int, p: int, q: int) -> JacobiState {
    let apq = st.a[p][q];
    let hd = sub_bits(st.l[q], st.l[p]);
    let t = rot_tangent(hd, apq);
    let c = div_bits(ONE_BITS, sqrt_bits(add_bits(ONE_BITS, mul_bits(t, t))));
    let s = mul_bits(t, c);
    let tau = div_bits(s, add_bits(ONE_BITS, c));
    let h = mul_bits(t, apq);
    JacobiState {
        a: Seq::new(
            n as nat,
            |i: int|
                Seq::new(
                    n as nat,
                    |j: int|
                        {
                            if i == p && j == q {
                                ZERO_BITS
                            } else if j == p && i < p {
                                rot_g(st.a[i][p], st.a[i][q], s, tau)
                            } else if j == q && i < p {
                                rot_h(st.a[i][p], st.a[i][q], s, tau)
                            } else if i == p && p < j && j < q {
                                rot_g(st.a[p][j], st.a[j][q], s, tau)
                            } else if j == q && p < i && i < q {
                                rot_h(st.a[p][i], st.a[i][q], s, tau)
                            } else if i == p && q < j {
                                rot_g(st.a[p][j], st.a[q][j], s, tau)
                            } else if i == q && q < j {
                                rot_h(st.a[p][j], st.a[q][j], s, tau)
                            } else {
                                st.a[i][j]
                            }
                        },
                ),
        ),
        v: Seq::new(
            n as nat,
            |i: int|
                Seq::new(
                    n as nat,
                    |j: int|
                        {
                            if j == p {
                                rot_g(st.v[i][p], st.v[i][q], s, tau)
                            } else if j == q {
                                rot_h(st.v[i][p], st.v[i][q], s, tau)
                            } else {
                                st.v[i][j]
                            }
                        },
                ),
        ),
        l: st.l.update(p, sub_bits(st.l[p], h)).update(q, add_bits(st.l[q], h)),
        b: st.b,
        z: st.z.update(p, sub_bits(st.z[p], h)).update(q, add_bits(st.z[q], h)),
    }
}

/// The rotations of one sweep, applied from the pair (p,q) on, in row-major
/// pair order (p outer, q inner).
pub open spec fn sweep_from(st: JacobiState, n: int, p: int, q: int) -> JacobiState
    decreases n - p, n - q,
        when 0 <= p < q
{
    if p + 1 >= n {
        st
    } else if q >= n {
        sweep_from(st, n, p + 1, p + 2)
    } else {
        sweep_from(rotate_pair(st, n, p, q), n, p, q + 1)
    }
}

/// The sum of the absolute values of the upper off-diagonal entries from the
/// pair (p,q) on, accumulated onto `acc` in row-major pair order.
pub open spec fn off_sum_from(a: Seq<Seq<u64>>, n: int, p: int, q: int, acc: u64) -> u64
    decreases n - p, n - q,
        when 0 <= p < q
{
    if p + 1 >= n {
        acc
    } else if q >= n {
        off_sum_from(a, n, p + 1, p + 2, acc)
    } else {
        off_sum_from(a, n, p, q + 1, add_bits(acc, abs_bits(a[p][q])))
    }
}

/// The sum of the absolute values of all upper off-diagonal entries: the
/// convergence measure of one sweep.
pub open spec fn off_diagonal_sum(a: Seq<Seq<u64>>, n: int) -> u64 {
    off_sum_from(a, n, 0, 1, ZERO_BITS)
}

/// The bookkeeping after a full sweep: fold the sweep adjustments into the
/// base diagonal, resynchronize the eigenvalues with it, and clear the
/// adjustments.
pub open spec fn fold_corrections(st: JacobiState, n: int) -> JacobiState {
    JacobiState {
        a: st.a,
        v: st.v,
        l: Seq::new(n as nat, |p: int| add_bits(st.b[p], st.z[p])),
        b: Seq::new(n as nat, |p: int| add_bits(st.b[p], st.z[p])),
        z: Seq::new(n as nat, |p: int| ZERO_BITS),
    }
}

/// Runs sweeps starting at the given iteration number until the off-diagonal
/// sum falls below the tolerance or the sweep budget runs out. Returns the
/// 1-based count of the sweep that converged (or nothing, on exhaustion),
/// together with the final state.
pub open spec fn run_sweeps(st: JacobiState, n: int, iteration: int) -> (Option<int>, JacobiState)
    decreases 20 - iteration,
        when iteration <= 20
{
    if iteration >= 20 {
        (None, st)
    } else {
        let sm = off_diagonal_sum(st.a, n);
        if lt_bits(sm, TOLERANCE_BITS) {
            (Some(iteration + 1), st)
        } else {
            run_sweeps(fold_corrections(sweep_from(st, n, 0, 1), n), n, iteration + 1)
        }
    }
}

/// The state the algorithm starts from: the working matrix is the input, the
/// eigenvalues and the base diagonal start at the input's diagonal, the sweep
/// adjustments start at zero, and the eigenvector matrix starts at the
/// identity.
pub open spec fn initial_state(a0: Seq<Seq<u64>>, n: int) -> JacobiState {
    JacobiState {
        a: a0,
        v: Seq::new(
            n as nat,
            |i: int| Seq::new(n as nat, |j: int| if i == j { ONE_BITS } else { ZERO_BITS }),
        ),
        l: Seq::new(n as nat, |p: int| a0[p][p]),
        b: Seq::new(n as nat, |p: int| a0[p][p]),
        z: Seq::new(n as nat, |p: int| ZERO_BITS),
    }
}

/// The whole outcome of the algorithm on an n-by-n input matrix: the 1-based
/// sweep count on convergence (or nothing, on exhaustion of the sweep
/// budget), and the final state.
pub open spec fn jacobi_outcome(a0: Seq<Seq<u64>>, n: int) -> (Option<int>, JacobiState) {
    run_sweeps(initial_state(a0, n), n, 0)
}

/// Applies one Jacobi rotation at the pair p < q to the working matrix, the
/// eigenvector matrix, the running eigenvalues, and the sweep accumulator,
/// exactly as `rotate_pair` states.
#[verifier::loop_isolation(false)]
#[verifier::rlimit(100)]
fn apply_rotation(
    l: &mut Vector,
    v: &mut Matrix,
    a: &mut Matrix,
    z: &mut Vec<u64>,
    p: usize,
    q: usize,
    Ghost(b_snap): Ghost<Seq<u64>>,
)
    requires
        old(a).wf(),
        old(v).wf(),
        old(a)@.len() == old(a).ncols(),
        old(v)@.len() == old(a)@.len(),
        old(v).ncols() == old(a).ncols(),
        old(l)@.len() == old(a)@.len(),
        old(z)@.len() == old(a)@.len(),
        p < q < old(a)@.len(),
    ensures
        final(a).wf(),
        final(v).wf(),
        final(a)@.len() == old(a)@.len(),
        final(a).ncols() == old(a).ncols(),
        final(v)@.len() == old(v)@.len(),
        final(v).ncols() == old(v).ncols(),
        final(l)@.len() == old(l)@.len(),
        final(z)@.len() == old(z)@.len(),
        ({
            let st0 = JacobiState {
                a: old(a)@,
                v: old(v)@,
                l: old(l)@,
                b: b_snap,
                z: old(z)@,
            };
            let st1 = rotate_pair(st0, old(a)@.len() as int, p as int, q as int);
            final(a)@ == st1.a && final(v)@ == st1.v && final(l)@ == st1.l && final(z)@ == st1.z
        }),
{
    let n = a.nrow();
    let ghost st0 = JacobiState { a: a@, v: v@, l: l@, b: b_snap, z: z@ };
    let ghost st1 = rotate_pair(st0, n as int, p as int, q as int);
    let ghost a0 = a@;
    let ghost v0 = v@;

    let apq = a.get(p, q);
    let hd = fp_sub(l.get(q), l.get(p));
    let t: u64;
    if fp_le(fp_abs(hd), TOLERANCE_BITS) {
        t = ONE_BITS;
    } else {
        let theta = fp_div(fp_mul(HALF_BITS, hd), apq);
        let t0 = fp_div(
            ONE_BITS,
            fp_add(fp_abs(theta), fp_sqrt(fp_add(ONE_BITS, fp_mul(theta, theta)))),
        );
        if fp_lt(theta, ZERO_BITS) {
            t = fp_neg(t0);
        } else {
            t = t0;
        }
    }
    let c = fp_div(ONE_BITS, fp_sqrt(fp_add(ONE_BITS, fp_mul(t, t))));
    let s = fp_mul(t, c);
    let tau = fp_div(s, fp_add(ONE_BITS, c));
    let h = fp_mul(t, apq);

    let zp = z[p];
    z[p] = fp_sub(zp, h);
    let zq = z[q];
    z[q] = fp_add(zq, h);
    let lp = l.get(p);
    l.set(p, fp_sub(lp, h));
    let lq = l.get(q);
    l.set(q, fp_add(lq, h));
    a.set(p, q, ZERO_BITS);

    proof {
        assert(z@ =~= st1.z);
        assert(l@ =~= st1.l);
        assert(a@ =~~= Seq::new(
            n as nat,
            |r: int|
                Seq::new(
                    n as nat,
                    |cc: int| if r == p && cc == q { ZERO_BITS } else { a0[r][cc] },
                ),
        ));
    }

    // rotations in the range 0 <= j < p
    for j in 0..p
        invariant
            a.wf(),
            a@.len() == n,
            a.ncols() == n as int,
            a@ =~~= Seq::new(
                n as nat,
                |r: int|
                    Seq::new(
                        n as nat,
                        |cc: int|
                            {
                                if r == p && cc == q {
                                    ZERO_BITS
                                } else if (cc == p || cc == q) && r < j {
                                    st1.a[r][cc]
                                } else {
                                    a0[r][cc]
                                }
                            },
                    ),
            ),
    {
        let g = a.get(j, p);
        let hh = a.get(j, q);
        a.set(j, p, fp_sub(g, fp_mul(s, fp_add(hh, fp_mul(g, tau)))));
        a.set(j, q, fp_add(hh, fp_mul(s, fp_sub(g, fp_mul(hh, tau)))));
    }

    // rotations in the range p < j < q
    for j in (p + 1)..q
        invariant
            a.wf(),
            a@.len() == n,
            a.ncols() == n as int,
            a@ =~~= Seq::new(
                n as nat,
                |r: int|
                    Seq::new(
                        n as nat,
                        |cc: int|
                            {
                                if r == p && cc == q {
                                    ZERO_BITS
                                } else if (cc == p || cc == q) && r < p {
                                    st1.a[r][cc]
                                } else if r == p && p < cc && cc < j {
                                    st1.a[r][cc]
                                } else if cc == q && p < r && r < j {
                                    st1.a[r][cc]
                                } else {
                                    a0[r][cc]
                                }
                            },
                    ),
            ),
    {
        let g = a.get(p, j);
        let hh = a.get(j, q);
        a.set(p, j, fp_sub(g, fp_mul(s, fp_add(hh, fp_mul(g, tau)))));
        a.set(j, q, fp_add(hh, fp_mul(s, fp_sub(g, fp_mul(hh, tau)))));
    }

    // rotations in the range q < j < n
    for j in (q + 1)..n
        invariant
            a.wf(),
            a@.len() == n,
            a.ncols() == n as int,
            a@ =~~= Seq::new(
                n as nat,
                |r: int|
                    Seq::new(
                        n as nat,
                        |cc: int|
                            {
                                if r == p && cc == q {
                                    ZERO_BITS
                                } else if (cc == p || cc == q) && r < p {
                                    st1.a[r][cc]
                                } else if r == p && p < cc && cc < q {
                                    st1.a[r][cc]
                                } else if cc == q && p < r && r < q {
                                    st1.a[r][cc]
                                } else if (r == p || r == q) && q < cc && cc < j {
                                    st1.a[r][cc]
                                } else {
                                    a0[r][cc]
                                }
                            },
                    ),
            ),
    {
        let g = a.get(p, j);
        let hh = a.get(q, j);
        a.set(p, j, fp_sub(g, fp_mul(s, fp_add(hh, fp_mul(g, tau)))));
        a.set(q, j, fp_add(hh, fp_mul(s, fp_sub(g, fp_mul(hh, tau)))));
    }

    proof {
        assert(a@ =~~= st1.a);
    }

    // accumulate the rotation into the eigenvector matrix
    for j in 0..n
        invariant
            v.wf(),
            v@.len() == n,
            v.ncols() == n as int,
            v@ =~~= Seq::new(
                n as nat,
                |r: int|
                    Seq::new(
                        n as nat,
                        |cc: int|
                            {
                                if (cc == p || cc == q) && r < j {
                                    st1.v[r][cc]
                                } else {
                                    v0[r][cc]
                                }
                            },
                    ),
            ),
    {
        let g = v.get(j, p);
        let hh = v.get(j, q);
        v.set(j, p, fp_sub(g, fp_mul(s, fp_add(hh, fp_mul(g, tau)))));
        v.set(j, q, fp_add(hh, fp_mul(s, fp_sub(g, fp_mul(hh, tau)))));
    }

    proof {
        assert(v@ =~~= st1.v);
    }
}

proof fn lemma_run_sweeps_count(st: JacobiState, n: int, iteration: int)
    requires
        0 <= iteration <= 20,
    ensures
        run_sweeps(st, n, iteration).0 matches Some(k) ==> iteration + 1 <= k <= 20,
    decreases 20 - iteration,
{
    if iteration < 20 {
        let sm = off_diagonal_sum(st.a, n);
        if !lt_bits(sm, TOLERANCE_BITS) {
            lemma_run_sweeps_count(
                fold_corrections(sweep_from(st, n, 0, 1), n),
                n,
                iteration + 1,
            );
        }
    }
}

/// Whenever the algorithm converges it reports a 1-based sweep count, never
/// zero and never more than the sweep budget.
pub proof fn lemma_sweep_count_bounds(a0: Seq<Seq<u64>>, n: int)
    ensures
        jacobi_outcome(a0, n).0 matches Some(k) ==> 1 <= k <= N_MAX_ITERATIONS as int,
{
    lemma_run_sweeps_count(initial_state(a0, n), n, 0);
}

/// Which dimension check fails first, in the order the checks are made, and
/// the message that failure carries; nothing when every check passes.
pub open spec fn spec_dimension_error(
    l: Seq<u64>,
    v: Seq<Seq<u64>>,
    v_cols: int,
    a: Seq<Seq<u64>>,
    a_cols: int,
) -> Option<Seq<char>> {
    if a.len() != a_cols {
        Some("matrix must be square"@)
    } else if a.len() == 0 {
        Some("matrix dimension must be >= 1"@)
    } else if v.len() != a.len() || v_cols != a_cols {
        Some("v and a matrices must have the same dimensions"@)
    } else if l.len() != a.len() {
        Some("l vector has incompatible dimension"@)
    } else {
        None
    }
}

/// Performs the Jacobi transformation of a symmetric matrix to find its
/// eigenvectors and eigenvalues.
///
/// The method is a sequence of orthogonal similarity transformations, each a
/// plane rotation chosen to annihilate one off-diagonal entry. Successive
/// rotations undo previously set zeros, but the off-diagonal entries get
/// smaller and smaller; the product of the rotations accumulates the
/// eigenvectors while the corrected diagonal converges to the eigenvalues.
///
/// # Input
///
/// * `a` -- the matrix to compute the eigenvalues of (symmetric and square),
///   each entry the bit pattern of a double; it is overwritten during the
///   run.
///
/// # Output
///
/// * `l` -- the eigenvalues (unsorted)
/// * `v` -- the matrix whose columns are the eigenvectors, aligned with `l`
/// * Returns the 1-based count of sweeps executed, or an error message when a
///   dimension check fails (then nothing is mutated) or when the sweep budget
///   is exhausted without convergence.
///
/// The contract pins the whole computation down: the result and the final
/// contents of `a`, `l` and `v` equal the outcome of `jacobi_outcome` on the
/// input, a single mathematical function of the input bit patterns.
#[verifier::loop_isolation(false)]
#[verifier::rlimit(100)]
pub fn mat_eigen_sym_jacobi(l: &mut Vector, v: &mut Matrix, a: &mut Matrix) -> (res: Result<
    usize,
    StrError,
>)
    requires
        old(a).wf(),
        old(v).wf(),
    ensures
        final(a).wf(),
        final(v).wf(),
        final(a)@.len() == old(a)@.len(),
        final(a).ncols() == old(a).ncols(),
        final(v)@.len() == old(v)@.len(),
        final(v).ncols() == old(v).ncols(),
        final(l)@.len() == old(l)@.len(),
        ({
            let derr = spec_dimension_error(
                old(l)@,
                old(v)@,
                old(v).ncols(),
                old(a)@,
                old(a).ncols(),
            );
            match derr {
                Some(msg) => (res matches Err(e) && e@ == msg) && final(a)@ == old(a)@
                    && final(v)@ == old(v)@ && final(l)@ == old(l)@,
                None => ({
                    let outcome = jacobi_outcome(old(a)@, old(a)@.len() as int);
                    &&& final(a)@ == outcome.1.a
                    &&& final(v)@ == outcome.1.v
                    &&& final(l)@ == outcome.1.l
                    &&& match outcome.0 {
                        Some(k) => res matches Ok(nit) && nit as int == k,
                        None => res matches Err(e) && e@
                            == "Jacobi rotation did not converge"@,
                    }
                }),
            }
        }),
{
    // check
    let (m, n) = a.dims();
    if m != n {
        return Err("matrix must be square");
    }
    if m == 0 {
        return Err("matrix dimension must be >= 1");
    }
    let (mm, nn) = v.dims();
    if mm != m || nn != n {
        return Err("v and a matrices must have the same dimensions");
    }
    if l.dim() != n {
        return Err("l vector has incompatible dimension");
    }

    let ghost a0 = a@;

    // auxiliary arrays; initialize b and l to the diagonal of A
    let mut b: Vec<u64> = Vec::new();
    let mut z: Vec<u64> = Vec::new();
    for p in 0..n
        invariant
            b@.len() == p,
            z@.len() == p,
            l@.len() == n,
            forall|i: int| 0 <= i < p ==> b@[i] == a0[i][i] && z@[i] == ZERO_BITS,
            forall|i: int| 0 <= i < p ==> l@[i] == a0[i][i],
    {
        let d = a.get(p, p);
        b.push(d);
        z.push(ZERO_BITS);
        l.set(p, d);
    }

    // initialize v to the identity matrix
    for i in 0..n
        invariant
            v.wf(),
            v@.len() == n,
            v.ncols() == n as int,
            forall|r: int, c: int|
                0 <= r < i && 0 <= c < n ==> #[trigger] v@[r][c] == (if r == c {
                    ONE_BITS
                } else {
                    ZERO_BITS
                }),
    {
        for j in 0..n
            invariant
                v.wf(),
                v@.len() == n,
                v.ncols() == n as int,
                forall|r: int, c: int|
                    0 <= r < i && 0 <= c < n ==> #[trigger] v@[r][c] == (if r == c {
                        ONE_BITS
                    } else {
                        ZERO_BITS
                    }),
                forall|c: int| 0 <= c < j ==> v@[i as int][c] == ZERO_BITS,
        {
            v.set(i, j, ZERO_BITS);
        }
        v.set(i, i, ONE_BITS);
    }

    proof {
        let st = JacobiState { a: a@, v: v@, l: l@, b: b@, z: z@ };
        let init = initial_state(a0, n as int);
        assert(st.v =~~= init.v);
        assert(st.l =~= init.l);
        assert(st.b =~= init.b);
        assert(st.z =~= init.z);
        assert(st == init);
    }

    // perform the sweeps
    for iteration in 0..N_MAX_ITERATIONS
        invariant
            a.wf(),
            v.wf(),
            a@.len() == n,
            a.ncols() == n as int,
            v@.len() == n,
            v.ncols() == n as int,
            l@.len() == n,
            b@.len() == n,
            z@.len() == n,
            run_sweeps(
                JacobiState { a: a@, v: v@, l: l@, b: b@, z: z@ },
                n as int,
                iteration as int,
            ) == jacobi_outcome(a0, n as int),
    {
        // sum the magnitudes of the upper off-diagonal entries
        let mut sm: u64 = ZERO_BITS;
        for p in 0..(n - 1)
            invariant
                off_sum_from(a@, n as int, p as int, p as int + 1, sm) == off_diagonal_sum(
                    a@,
                    n as int,
                ),
        {
            for q in (p + 1)..n
                invariant
                    off_sum_from(a@, n as int, p as int, q as int, sm) == off_diagonal_sum(
                        a@,
                        n as int,
                    ),
            {
                sm = fp_add(sm, fp_abs(a.get(p, q)));
            }
        }

        // exit point
        if fp_lt(sm, TOLERANCE_BITS) {
            return Ok(iteration + 1);
        }

        let ghost sweep_start = JacobiState { a: a@, v: v@, l: l@, b: b@, z: z@ };

        // rotations
        for p in 0..(n - 1)
            invariant
                a.wf(),
                v.wf(),
                a@.len() == n,
                a.ncols() == n as int,
                v@.len() == n,
                v.ncols() == n as int,
                l@.len() == n,
                z@.len() == n,
                b@ == sweep_start.b,
                sweep_from(
                    JacobiState { a: a@, v: v@, l: l@, b: b@, z: z@ },
                    n as int,
                    p as int,
                    p as int + 1,
                ) == sweep_from(sweep_start, n as int, 0, 1),
        {
            for q in (p + 1)..n
                invariant
                    a.wf(),
                    v.wf(),
                    a@.len() == n,
                    a.ncols() == n as int,
                    v@.len() == n,
                    v.ncols() == n as int,
                    l@.len() == n,
                    z@.len() == n,
                    b@ == sweep_start.b,
                    sweep_from(
                        JacobiState { a: a@, v: v@, l: l@, b: b@, z: z@ },
                        n as int,
                        p as int,
                        q as int,
                    ) == sweep_from(sweep_start, n as int, 0, 1),
            {
                let ghost before = JacobiState { a: a@, v: v@, l: l@, b: b@, z: z@ };
                apply_rotation(l, v, a, &mut z, p, q, Ghost(b@));
                proof {
                    let after = JacobiState { a: a@, v: v@, l: l@, b: b@, z: z@ };
                    assert(after == rotate_pair(before, n as int, p as int, q as int));
                }
            }
        }

        // fold the sweep adjustments into the base diagonal
        let ghost after_sweep = JacobiState { a: a@, v: v@, l: l@, b: b@, z: z@ };
        proof {
            assert(after_sweep == sweep_from(sweep_start, n as int, 0, 1));
        }
        for p in 0..n
            invariant
                b@.len() == n,
                z@.len() == n,
                l@.len() == n,
                forall|i: int|
                    0 <= i < p ==> b@[i] == add_bits(after_sweep.b[i], after_sweep.z[i]),
                forall|i: int|
                    0 <= i < p ==> l@[i] == add_bits(after_sweep.b[i], after_sweep.z[i]),
                forall|i: int| 0 <= i < p ==> z@[i] == ZERO_BITS,
                forall|i: int| p <= i < n ==> b@[i] == after_sweep.b[i],
                forall|i: int| p <= i < n ==> z@[i] == after_sweep.z[i],
                forall|i: int| p <= i < n ==> l@[i] == after_sweep.l[i],
        {
            let bp = b[p];
            let zp = z[p];
            let nb = fp_add(bp, zp);
            b[p] = nb;
            l.set(p, nb);
            z[p] = ZERO_BITS;
        }
        proof {
            let folded = JacobiState { a: a@, v: v@, l: l@, b: b@, z: z@ };
            let spec_folded = fold_corrections(after_sweep, n as int);
            assert(folded.l =~= spec_folded.l);
            assert(folded.b =~= spec_folded.b);
            assert(folded.z =~= spec_folded.z);
            assert(folded == spec_folded);
        }
    }

    Err("Jacobi rotation did not converge")
}

} // verus!
