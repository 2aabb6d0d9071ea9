use grid::vector::constants;
use grid::vector::Vector;

#[test]
fn new_sets_components() {
    let v = Vector::new(5, 3);
    assert_eq!(v.x, 5);
    assert_eq!(v.y, 3);
    assert_eq!(v, Vector::new(5, 3));
}

#[test]
fn abs_componentwise() {
    assert_eq!(Vector::new(-3, 4).abs(), Vector::new(3, 4));
    assert_eq!(Vector::new(0, -7).abs(), Vector::new(0, 7));
}

#[test]
fn signum_componentwise() {
    assert_eq!(Vector::new(-9, 0).signum(), Vector::new(-1, 0));
    assert_eq!(Vector::new(12, -4).signum(), Vector::new(1, -1));
}

#[test]
fn min_max_componentwise() {
    let a = Vector::new(1, 7);
    let b = Vector::new(4, 2);
    assert_eq!(a.min(b), Vector::new(1, 2));
    assert_eq!(a.max(b), Vector::new(4, 7));
}

#[test]
fn clamp_componentwise() {
    let lo = Vector::new(0, 0);
    let hi = Vector::new(10, 5);
    assert_eq!(Vector::new(-3, 7).clamp(lo, hi), Vector::new(0, 5));
    assert_eq!(Vector::new(4, 3).clamp(lo, hi), Vector::new(4, 3));
}

#[test]
fn dot_product() {
    assert_eq!(Vector::new(1, 2).dot(Vector::new(3, 4)), 11);
    assert_eq!(Vector::new(2, -1).dot(Vector::new(1, 2)), 0);
}

#[test]
fn perp_quarter_turn() {
    assert_eq!(Vector::new(2, 3).perp(), Vector::new(-3, 2));
}

#[test]
fn perp_dot_product() {
    assert_eq!(Vector::new(1, 2).perp_dot(Vector::new(3, 4)), -2);
}

#[test]
fn horizontal_and_vertical() {
    let v = Vector::new(4, -6);
    assert_eq!(v.horizontal(), Vector::new(4, 0));
    assert_eq!(v.vertical(), Vector::new(0, -6));
}

#[test]
fn manhattan_distance() {
    assert_eq!(Vector::new(1, 2).manhattan(Vector::new(4, -2)), 7);
    assert_eq!(Vector::new(0, 0).manhattan(Vector::new(0, 0)), 0);
}

#[test]
fn arithmetic_operations() {
    let a = Vector::new(1, 2);
    let b = Vector::new(3, -5);
    assert_eq!(a.add(b), Vector::new(4, -3));
    assert_eq!(a.sub(b), Vector::new(-2, 7));
    assert_eq!(a.neg(), Vector::new(-1, -2));
    assert_eq!(a.mul(3), Vector::new(3, 6));
}

#[test]
fn division_truncates_towards_zero() {
    assert_eq!(Vector::new(7, -7).div(2), Vector::new(3, -3));
    assert_eq!(Vector::new(-9, 10).div(-3), Vector::new(3, -3));
    assert_eq!(Vector::new(1, -1).div(2), Vector::new(0, 0));
}

#[test]
fn compound_assignments() {
    let mut v = Vector::new(1, 2);
    v.add_assign(Vector::new(1, 3));
    assert_eq!(v, Vector::new(2, 5));
    v.sub_assign(Vector::new(2, 1));
    assert_eq!(v, Vector::new(0, 4));
    v.mul_assign(3);
    assert_eq!(v, Vector::new(0, 12));
    v.div_assign(5);
    assert_eq!(v, Vector::new(0, 2));
}

#[test]
fn compound_loop_example() {
    let mut v = Vector::new(1, 2);
    while v.x < 5 {
        v.add_assign(Vector::new(1, 3));
    }
    v.mul_assign(2);
    assert_eq!(v, Vector::new(10, 28));
}

#[test]
fn law_add_sub_cancel_example() {
    let a = Vector::new(17, -4);
    let b = Vector::new(-6, 9);
    assert_eq!(a.add(b).sub(b), a);
}

#[test]
fn law_neg_involution_example() {
    let a = Vector::new(-8, 13);
    assert_eq!(a.neg().neg(), a);
}

#[test]
fn law_mul_zero_example() {
    assert_eq!(Vector::new(21, -3).mul(0), constants::zero());
}

#[test]
fn law_perp_involution_example() {
    let a = Vector::new(5, -11);
    assert_eq!(a.perp().perp().perp().perp(), a);
}

#[test]
fn law_dot_comm_example() {
    let a = Vector::new(3, -2);
    let b = Vector::new(7, 5);
    assert_eq!(a.dot(b), b.dot(a));
}

#[test]
fn law_perp_dot_antisym_example() {
    let a = Vector::new(3, -2);
    let b = Vector::new(7, 5);
    assert_eq!(a.perp_dot(b), -b.perp_dot(a));
}

#[test]
fn law_manhattan_abs_example() {
    let a = Vector::new(3, -2);
    let b = Vector::new(-1, 5);
    let d = a.sub(b).abs();
    assert_eq!(a.manhattan(b), d.x + d.y);
}

#[test]
fn vector_text_form() {
    assert_eq!(Vector::new(1, 2).to_text(), "(1, 2)");
    assert_eq!(Vector::new(-3, 0).to_text(), "(-3, 0)");
    assert_eq!(Vector::new(0, -10).to_text(), "(0, -10)");
}

#[test]
fn vector_text_extremes() {
    let v = Vector::new(i64::MIN, i64::MAX);
    assert_eq!(
        v.to_text(),
        "(-9223372036854775808, 9223372036854775807)"
    );
    assert_eq!(Vector::new(1234567890, -42).to_text(), "(1234567890, -42)");
}

#[test]
fn cardinal_constants() {
    assert_eq!(constants::zero(), Vector::new(0, 0));
    assert_eq!(constants::east(), Vector::new(1, 0));
    assert_eq!(constants::north(), Vector::new(0, -1));
    assert_eq!(constants::west(), Vector::new(-1, 0));
    assert_eq!(constants::south(), Vector::new(0, 1));
    assert_eq!(constants::north_east(), Vector::new(1, -1));
    assert_eq!(constants::north_west(), Vector::new(-1, -1));
    assert_eq!(constants::south_west(), Vector::new(-1, 1));
    assert_eq!(constants::south_east(), Vector::new(1, 1));
}

#[test]
fn direction_arrays() {
    let e = constants::east();
    let n = constants::north();
    let w = constants::west();
    let s = constants::south();
    let ne = constants::north_east();
    let nw = constants::north_west();
    let sw = constants::south_west();
    let se = constants::south_east();
    let z = constants::zero();
    assert_eq!(constants::orthogonal(), [e, n, w, s]);
    assert_eq!(constants::diagonal(), [ne, nw, sw, se]);
    assert_eq!(constants::adjacent(), [e, ne, n, nw, w, sw, s, se]);
    assert_eq!(constants::orthogonal_zero(), [z, e, n, w, s]);
    assert_eq!(constants::diagonal_zero(), [z, ne, nw, sw, se]);
    assert_eq!(constants::adjacent_zero(), [z, e, ne, n, nw, w, sw, s, se]);
}
