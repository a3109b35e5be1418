use russell::enums::{
    code_symmetry_mmp, code_symmetry_umf, enum_ordering, enum_scaling, str_enum_ordering,
    str_enum_scaling, str_mmp_ordering, str_mmp_scaling, str_umf_ordering, str_umf_scaling,
    LinSolKind, Ordering, Scaling, Symmetry,
};

#[test]
fn clone_copy_and_debug_work() {
    let symmetry = Symmetry::General;
    let copy = symmetry;
    let clone = symmetry.clone();
    assert_eq!(format!("{:?}", symmetry), "General");
    assert_eq!(format!("{:?}", copy), "General");
    assert_eq!(format!("{:?}", clone), "General");

    let lin_sol_kind = LinSolKind::Mmp;
    let copy = lin_sol_kind;
    let clone = lin_sol_kind.clone();
    assert_eq!(format!("{:?}", lin_sol_kind), "Mmp");
    assert_eq!(format!("{:?}", copy), "Mmp");
    assert_eq!(format!("{:?}", clone), "Mmp");

    let ordering = Ordering::Amd;
    let copy = ordering;
    let clone = ordering.clone();
    assert_eq!(format!("{:?}", ordering), "Amd");
    assert_eq!(format!("{:?}", copy), "Amd");
    assert_eq!(format!("{:?}", clone), "Amd");

    let scaling = Scaling::Column;
    let copy = scaling;
    let clone = scaling.clone();
    assert_eq!(format!("{:?}", scaling), "Column");
    assert_eq!(format!("{:?}", copy), "Column");
    assert_eq!(format!("{:?}", clone), "Column");
}

#[test]
fn enum_ordering_works() {
    assert!(matches!(enum_ordering("Amd"), Ordering::Amd));
    assert!(matches!(enum_ordering("Amf"), Ordering::Amf));
    assert!(matches!(enum_ordering("Auto"), Ordering::Auto));
    assert!(matches!(enum_ordering("Best"), Ordering::Best));
    assert!(matches!(enum_ordering("Cholmod"), Ordering::Cholmod));
    assert!(matches!(enum_ordering("Metis"), Ordering::Metis));
    assert!(matches!(enum_ordering("No"), Ordering::No));
    assert!(matches!(enum_ordering("Pord"), Ordering::Pord));
    assert!(matches!(enum_ordering("Qamd"), Ordering::Qamd));
    assert!(matches!(enum_ordering("Scotch"), Ordering::Scotch));
    assert!(matches!(enum_ordering("Unknown"), Ordering::Auto));
}

#[test]
fn enum_scaling_works() {
    assert!(matches!(enum_scaling("Auto"), Scaling::Auto));
    assert!(matches!(enum_scaling("Column"), Scaling::Column));
    assert!(matches!(enum_scaling("Diagonal"), Scaling::Diagonal));
    assert!(matches!(enum_scaling("Max"), Scaling::Max));
    assert!(matches!(enum_scaling("No"), Scaling::No));
    assert!(matches!(enum_scaling("RowCol"), Scaling::RowCol));
    assert!(matches!(enum_scaling("RowColIter"), Scaling::RowColIter));
    assert!(matches!(enum_scaling("RowColRig"), Scaling::RowColRig));
    assert!(matches!(enum_scaling("Sum"), Scaling::Sum));
    assert!(matches!(enum_scaling("Unknown"), Scaling::Auto));
}

#[test]
fn code_symmetry_works() {
    // mmp
    assert_eq!(code_symmetry_mmp(None), Ok(0));
    assert_eq!(code_symmetry_mmp(Some(Symmetry::General)), Ok(2));
    assert_eq!(code_symmetry_mmp(Some(Symmetry::PosDef)), Ok(1));
    // umf
    assert_eq!(code_symmetry_umf(None), Ok(0));
    assert_eq!(code_symmetry_umf(Some(Symmetry::General)), Ok(1));
    assert_eq!(code_symmetry_umf(Some(Symmetry::PosDef)), Ok(1));
}

#[test]
fn str_enum_ordering_works() {
    assert_eq!(str_enum_ordering(0), "Amd");
    assert_eq!(str_enum_ordering(1), "Amf (MMP-only, otherwise Auto)");
    assert_eq!(str_enum_ordering(2), "Auto");
    assert_eq!(str_enum_ordering(3), "Best (UMF-only, otherwise Auto)");
    assert_eq!(str_enum_ordering(4), "Cholmod (UMF-only, otherwise Auto)");
    assert_eq!(str_enum_ordering(5), "Metis");
    assert_eq!(str_enum_ordering(6), "No (UMF-only, otherwise Auto)");
    assert_eq!(str_enum_ordering(7), "Pord (MMP-only, otherwise Auto)");
    assert_eq!(str_enum_ordering(8), "Qamd (MMP-only, otherwise Auto)");
    assert_eq!(str_enum_ordering(9), "Scotch (MMP-only, otherwise Auto)");
}

#[test]
fn str_enum_scaling_works() {
    assert_eq!(str_enum_scaling(0), "Auto");
    assert_eq!(str_enum_scaling(1), "Column (MMP-only, otherwise Auto)");
    assert_eq!(str_enum_scaling(2), "Diagonal (MMP-only, otherwise Auto)");
    assert_eq!(str_enum_scaling(3), "Max (UMF-only, otherwise Auto)");
    assert_eq!(str_enum_scaling(4), "No");
    assert_eq!(str_enum_scaling(5), "RowCol (MMP-only, otherwise Auto)");
    assert_eq!(str_enum_scaling(6), "RowColIter (MMP-only, otherwise Auto)");
    assert_eq!(str_enum_scaling(7), "RowColRig (MMP-only, otherwise Auto)");
    assert_eq!(str_enum_scaling(8), "Sum (UMF-only, otherwise Auto)");
}

#[test]
fn str_mmp_ordering_works() {
    assert_eq!(str_mmp_ordering(0), "Amd");
    assert_eq!(str_mmp_ordering(1), "UserProvided");
    assert_eq!(str_mmp_ordering(2), "Amf");
    assert_eq!(str_mmp_ordering(3), "Scotch");
    assert_eq!(str_mmp_ordering(4), "Pord");
    assert_eq!(str_mmp_ordering(5), "Metis");
    assert_eq!(str_mmp_ordering(6), "Qamd");
    assert_eq!(str_mmp_ordering(7), "Auto");
    assert_eq!(str_mmp_ordering(123), "Unknown");
}

#[test]
fn str_mmp_scaling_works() {
    assert_eq!(str_mmp_scaling(-1), "UserProvided");
    assert_eq!(str_mmp_scaling(0), "No");
    assert_eq!(str_mmp_scaling(1), "Diagonal");
    assert_eq!(str_mmp_scaling(3), "Column");
    assert_eq!(str_mmp_scaling(4), "RowCol");
    assert_eq!(str_mmp_scaling(7), "RowColIter");
    assert_eq!(str_mmp_scaling(8), "RowColRig");
    assert_eq!(str_mmp_scaling(77), "Auto");
    assert_eq!(str_mmp_scaling(123), "Unknown");
}

#[test]
fn str_umf_ordering_works() {
    assert_eq!(str_umf_ordering(0), "Cholmod");
    assert_eq!(str_umf_ordering(1), "Amd");
    assert_eq!(str_umf_ordering(2), "UserProvided");
    assert_eq!(str_umf_ordering(3), "Metis");
    assert_eq!(str_umf_ordering(4), "Best");
    assert_eq!(str_umf_ordering(5), "No");
    assert_eq!(str_umf_ordering(6), "UserProvided");
    assert_eq!(str_umf_ordering(123), "Unknown");
}

#[test]
fn str_umf_scaling_works() {
    assert_eq!(str_umf_scaling(0), "No");
    assert_eq!(str_umf_scaling(1), "Sum");
    assert_eq!(str_umf_scaling(2), "Max");
    assert_eq!(str_umf_scaling(123), "Unknown");
}
