use raycore::cs::Cs;
use raycore::matrix::Matrix;
use raycore::point::Point;
use raycore::vector::Vector;

fn sample() -> Matrix {
    Matrix::from_lines([1, 2, 3, 4], [5, 6, 7, 8], [9, 10, 11, 12], [13, 14, 15, 16])
}

#[test]
fn from_lines_keeps_the_lines() {
    assert_eq!(
        sample().lines(),
        [[1, 2, 3, 4], [5, 6, 7, 8], [9, 10, 11, 12], [13, 14, 15, 16]]
    );
}

#[test]
fn from_columns_is_the_transpose_of_from_lines() {
    let m = Matrix::from_columns([1, 2, 3, 4], [5, 6, 7, 8], [9, 10, 11, 12], [13, 14, 15, 16]);
    assert_eq!(
        m.lines(),
        [[1, 5, 9, 13], [2, 6, 10, 14], [3, 7, 11, 15], [4, 8, 12, 16]]
    );
    assert_eq!(m, sample().transpose());
    assert_eq!(m.transpose(), sample());
}

#[test]
fn columns_are_handed_out_as_axes_and_origin() {
    let m = sample();
    assert_eq!(m.get_i(), Vector::new(1, 5, 9));
    assert_eq!(m.get_j(), Vector::new(2, 6, 10));
    assert_eq!(m.get_k(), Vector::new(3, 7, 11));
    assert_eq!(m.get_o(), Point::new(4, 8, 12));
}

#[test]
fn identity_translation_and_scaling() {
    assert_eq!(
        Matrix::identity().lines(),
        [[1, 0, 0, 0], [0, 1, 0, 0], [0, 0, 1, 0], [0, 0, 0, 1]]
    );
    assert_eq!(
        Matrix::translation(&Vector::new(7, -8, 9)).lines(),
        [[1, 0, 0, 7], [0, 1, 0, -8], [0, 0, 1, 9], [0, 0, 0, 1]]
    );
    assert_eq!(
        Matrix::scaling(-3).lines(),
        [[-3, 0, 0, 0], [0, -3, 0, 0], [0, 0, -3, 0], [0, 0, 0, 1]]
    );
}

#[test]
fn a_vector_ignores_the_last_column_and_a_point_does_not() {
    let m = sample();
    assert_eq!(m.mul_vector(&Vector::new(1, 1, 1)), Vector::new(6, 18, 30));
    assert_eq!(m.mul_point(&Point::new(1, 1, 1)), Point::new(10, 26, 42));
    assert_eq!(m.mul_vector(&Vector::new(2, -1, 3)), Vector::new(9, 25, 41));
    assert_eq!(m.mul_point(&Point::new(2, -1, 3)), Point::new(13, 33, 53));
}

#[test]
fn product_of_two_matrices() {
    let a = sample();
    let b = Matrix::from_lines([1, 0, 2, 0], [0, 1, 0, 3], [4, 0, 1, 0], [0, 5, 0, 1]);
    assert_eq!(
        a.mul(&b).lines(),
        [[13, 22, 5, 10], [33, 46, 17, 26], [53, 70, 29, 42], [73, 94, 41, 58]]
    );
    assert_eq!(a.mul(&Matrix::identity()), a);
    assert_eq!(Matrix::identity().mul(&a), a);
}

#[test]
fn product_applies_the_right_factor_first() {
    let t = Matrix::translation(&Vector::new(1, 2, 3));
    let s = Matrix::scaling(2);
    let p = Point::new(5, 6, 7);
    assert_eq!(t.mul(&s).mul_point(&p), t.mul_point(&s.mul_point(&p)));
    assert_eq!(t.mul(&s).mul_point(&p), Point::new(11, 14, 17));
    assert_eq!(s.mul(&t).mul_point(&p), Point::new(12, 16, 20));
}

#[test]
fn matrices_of_a_system_have_axes_as_columns_and_as_lines() {
    let cs = Cs::build(
        Point::new(1, 2, 3),
        Vector::new(0, 0, -1),
        Vector::new(0, 1, 0),
        Vector::new(1, 0, 0),
    )
    .unwrap();
    assert_eq!(
        cs.get_matrix_to_rcs().lines(),
        [[0, 0, 1, 1], [0, 1, 0, 2], [-1, 0, 0, 3], [0, 0, 0, 1]]
    );
    assert_eq!(
        cs.get_matrix_to_lcs().lines(),
        [[0, 0, -1, 3], [0, 1, 0, -2], [1, 0, 0, -1], [0, 0, 0, 1]]
    );
}

#[test]
fn round_trip_through_every_direct_base_of_the_lattice() {
    let axes = [
        Vector::new(1, 0, 0),
        Vector::new(-1, 0, 0),
        Vector::new(0, 1, 0),
        Vector::new(0, -1, 0),
        Vector::new(0, 0, 1),
        Vector::new(0, 0, -1),
    ];
    let o = Point::new(4, -5, 6);
    let p = Point::new(-7, 8, 9);
    let v = Vector::new(3, -2, 1);
    let mut bases: u32 = 0;
    for i in axes.iter() {
        for j in axes.iter() {
            if !i.is_normal_to(j) {
                continue;
            }
            let k = i.cross(j);
            let cs = Cs::build(o, *i, *j, k).unwrap();
            let to_rcs = cs.get_matrix_to_rcs();
            let to_lcs = cs.get_matrix_to_lcs();
            assert_eq!(to_lcs.mul_point(&to_rcs.mul_point(&p)), p);
            assert_eq!(to_rcs.mul_point(&to_lcs.mul_point(&p)), p);
            assert_eq!(to_lcs.mul_vector(&to_rcs.mul_vector(&v)), v);
            assert_eq!(to_rcs.mul_vector(&to_lcs.mul_vector(&v)), v);
            assert_eq!(to_lcs.mul(&to_rcs), Matrix::identity());
            assert_eq!(to_rcs.mul(&to_lcs), Matrix::identity());
            bases += 1;
        }
    }
    assert_eq!(bases, 24);
}

#[test]
fn translate_moves_the_origin_and_keeps_the_matrices_in_step() {
    let mut cs = Cs::build(
        Point::new(1, 2, 3),
        Vector::new(0, 0, -1),
        Vector::new(0, 1, 0),
        Vector::new(1, 0, 0),
    )
    .unwrap();
    let before_to_rcs = cs.get_matrix_to_rcs();
    let before_to_lcs = cs.get_matrix_to_lcs();
    let v = Vector::new(10, 20, 30);
    cs.translate(&v);
    assert_eq!(cs.o, Point::new(11, 22, 33));
    assert_eq!(cs.i, Vector::new(0, 0, -1));
    assert_eq!(cs.get_matrix_to_rcs(), Matrix::translation(&v).mul(&before_to_rcs));
    assert_eq!(cs.get_matrix_to_lcs(), before_to_lcs.mul(&Matrix::translation(&v.neg())));
    assert_eq!(cs.get_matrix_to_lcs().mul(&cs.get_matrix_to_rcs()), Matrix::identity());
}
