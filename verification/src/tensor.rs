//! Index maps between the second-order tensor components (i,j) and the
//! m-th position of the vector representation, and between the fourth-order
//! tensor components (i,j,k,l) and the (m,n)-th position of the matrix
//! representation. The diagonal comes first, then the upper diagonal,
//! and finally the lower diagonal; the symmetric variants fold each
//! lower-diagonal position onto its upper-diagonal mirror.

use vstd::prelude::*;

verus! {

/// The tensor component (i,j) stored at position m of the vector representation.
pub open spec fn spec_m_to_ij(m: int) -> (int, int) {
    if m == 0 {
        (0, 0)
    } else if m == 1 {
        (1, 1)
    } else if m == 2 {
        (2, 2)
    } else if m == 3 {
        (0, 1)
    } else if m == 4 {
        (1, 2)
    } else if m == 5 {
        (0, 2)
    } else if m == 6 {
        (1, 0)
    } else if m == 7 {
        (2, 1)
    } else {
        (2, 0)
    }
}

/// The vector position that stores the tensor component (i,j).
pub open spec fn spec_ij_to_m(i: int, j: int) -> int {
    if i == 0 {
        if j == 0 {
            0
        } else if j == 1 {
            3
        } else {
            5
        }
    } else if i == 1 {
        if j == 0 {
            6
        } else if j == 1 {
            1
        } else {
            4
        }
    } else {
        if j == 0 {
            8
        } else if j == 1 {
            7
        } else {
            2
        }
    }
}

/// The vector position that stores the component (i,j) of a symmetric tensor:
/// each lower-diagonal component shares the position of its upper mirror.
pub open spec fn spec_ij_to_m_sym(i: int, j: int) -> int {
    if i <= j {
        spec_ij_to_m(i, j)
    } else {
        spec_ij_to_m(j, i)
    }
}

/// Maps the m-th position in the vector representation to the index (i,j) of
/// a second-order tensor.
pub fn m_to_ij(m: usize) -> (r: (usize, usize))
    requires
        m < 9,
    ensures
        (r.0 as int, r.1 as int) == spec_m_to_ij(m as int),
        r.0 < 3 && r.1 < 3,
{
    if m == 0 {
        (0, 0)
    } else if m == 1 {
        (1, 1)
    } else if m == 2 {
        (2, 2)
    } else if m == 3 {
        (0, 1)
    } else if m == 4 {
        (1, 2)
    } else if m == 5 {
        (0, 2)
    } else if m == 6 {
        (1, 0)
    } else if m == 7 {
        (2, 1)
    } else {
        (2, 0)
    }
}

/// Maps (i,j) of a second-order tensor to the m-th position in the vector
/// representation.
pub fn ij_to_m(i: usize, j: usize) -> (m: usize)
    requires
        i < 3,
        j < 3,
    ensures
        m as int == spec_ij_to_m(i as int, j as int),
        m < 9,
{
    if i == 0 {
        if j == 0 {
            0
        } else if j == 1 {
            3
        } else {
            5
        }
    } else if i == 1 {
        if j == 0 {
            6
        } else if j == 1 {
            1
        } else {
            4
        }
    } else {
        if j == 0 {
            8
        } else if j == 1 {
            7
        } else {
            2
        }
    }
}

/// Maps (i,j) of a symmetric second-order tensor to the m-th position in the
/// vector representation.
pub fn ij_to_m_sym(i: usize, j: usize) -> (m: usize)
    requires
        i < 3,
        j < 3,
    ensures
        m as int == spec_ij_to_m_sym(i as int, j as int),
        m < 6,
{
    if i <= j {
        ij_to_m(i, j)
    } else {
        ij_to_m(j, i)
    }
}

/// Maps the (m,n)-th position in the matrix representation to (i,j,k,l) of a
/// fourth-order tensor: row m gives (i,j) and column n gives (k,l).
pub fn mn_to_ijkl(m: usize, n: usize) -> (r: (usize, usize, usize, usize))
    requires
        m < 9,
        n < 9,
    ensures
        (r.0 as int, r.1 as int) == spec_m_to_ij(m as int),
        (r.2 as int, r.3 as int) == spec_m_to_ij(n as int),
        r.0 < 3 && r.1 < 3 && r.2 < 3 && r.3 < 3,
{
    let (i, j) = m_to_ij(m);
    let (k, l) = m_to_ij(n);
    (i, j, k, l)
}

/// Maps (i,j,k,l) of a fourth-order tensor to the (m,n)-th position in the
/// matrix representation.
pub fn ijkl_to_mn(i: usize, j: usize, k: usize, l: usize) -> (r: (usize, usize))
    requires
        i < 3,
        j < 3,
        k < 3,
        l < 3,
    ensures
        r.0 as int == spec_ij_to_m(i as int, j as int),
        r.1 as int == spec_ij_to_m(k as int, l as int),
{
    (ij_to_m(i, j), ij_to_m(k, l))
}

/// Maps (i,j,k,l) of a minor-symmetric fourth-order tensor to the (m,n)-th
/// position in the matrix representation.
pub fn ijkl_to_mn_sym(i: usize, j: usize, k: usize, l: usize) -> (r: (usize, usize))
    requires
        i < 3,
        j < 3,
        k < 3,
        l < 3,
    ensures
        r.0 as int == spec_ij_to_m_sym(i as int, j as int),
        r.1 as int == spec_ij_to_m_sym(k as int, l as int),
{
    (ij_to_m_sym(i, j), ij_to_m_sym(k, l))
}

/// The vector position of a symmetric tensor that corresponds to position m
/// of the full representation: lower-diagonal positions fold onto the upper.
pub open spec fn spec_sym_position(m: int) -> int {
    if m >= 6 {
        m - 3
    } else {
        m
    }
}

/// The position map and its inverse agree: reading the component (i,j) stored
/// at position m and mapping it back gives m again; under the symmetric map it
/// gives the upper-diagonal mirror of m.
pub proof fn lemma_tensor2_maps_inverse(m: int)
    requires
        0 <= m < 9,
    ensures
        spec_ij_to_m(spec_m_to_ij(m).0, spec_m_to_ij(m).1) == m,
        spec_ij_to_m_sym(spec_m_to_ij(m).0, spec_m_to_ij(m).1) == spec_sym_position(m),
{
}

/// Every component (i,j) is stored where the inverse map says it is: mapping
/// (i,j) to its vector position and back yields (i,j) again.
pub proof fn lemma_tensor2_positions_inverse(i: int, j: int)
    requires
        0 <= i < 3,
        0 <= j < 3,
    ensures
        spec_m_to_ij(spec_ij_to_m(i, j)) == (i, j),
        0 <= spec_ij_to_m(i, j) < 9,
{
}

} // verus!
