use quaternion::Quaternion;
use quaternion::ScaledQuaternion;

#[test]
fn test_new() {
    let q = Quaternion::new(1, 2, 3, 4);
    assert_eq!(q.s, 1);
    assert_eq!(q.x, 2);
    assert_eq!(q.y, 3);
    assert_eq!(q.z, 4);
}

#[test]
fn test_conj() {
    let q = Quaternion::new(1, 2, 3, 4);
    let p = Quaternion::new(-13, -21, 80, -40);
    assert_eq!(q.conj(), Quaternion::new(1, -2, -3, -4));
    assert_eq!(q.conj().conj(), q);
    assert_eq!(p.mul(q).conj(), q.conj().mul(p.conj()));
    assert_eq!(p.add(q).conj(), p.conj().add(q.conj()));
    assert_eq!(q.mul(q.conj()), q.conj().mul(q));
}

#[test]
fn test_norm() {
    let q = Quaternion::new(1, 2, 3, 4);
    let p = Quaternion::new(-2, -2, 7, -4);
    assert_eq!(q.normsq(), 1 * 1 + 2 * 2 + 3 * 3 + 4 * 4);
    assert_eq!(q.conj().normsq(), q.normsq());
    assert_eq!(q.mul(p).normsq(), q.normsq() * p.normsq());
}

#[test]
fn test_dot() {
    let p = Quaternion::new(1, -2, -3, 1);
    let q = Quaternion::new(2, -2, 1, -3);
    assert_eq!(p.dot(q), 0);
}

#[test]
fn test_inv() {
    let p = Quaternion::new(1, -2, 3, 4);
    let r = p.inv();
    assert_eq!(r.num, Quaternion::new(1, 2, -3, -4));
    assert_eq!(r.den, 30);
    // p * (conj(p)/normsq(p)) == one: the numerator of the product is the
    // denominator times the identity quaternion.
    assert_eq!(p.mul(r.num), Quaternion::new(r.den, 0, 0, 0));
    assert_eq!(r.num.mul(p), Quaternion::new(r.den, 0, 0, 0));
}

#[test]
fn test_add() {
    let q1 = Quaternion::new(1, 2, 3, 4);
    let q2 = Quaternion::new(4, 3, 2, 1);
    let q3 = Quaternion::new(5, 5, 5, 5);
    let mut q0 = Quaternion::new(0, 0, 0, 0);
    q0.add_assign(q1);
    q0.add_assign_scalar(3);
    assert_eq!(q0, Quaternion::new(4, 2, 3, 4));
    assert_eq!(q1.add_scalar(3), Quaternion::new(4, 2, 3, 4)); // scalar addition right
    assert_eq!(Quaternion::scalar_add(3, q1), Quaternion::new(4, 2, 3, 4)); // scalar addition left
    assert_eq!(q1.add(q2), q3);
    assert_eq!(q1.add(q2), q2.add(q1));
    assert_eq!(q1.add(q2.add(q3)), q1.add(q2).add(q3));
}

#[test]
fn test_neg() {
    let q1 = Quaternion::new(1, 2, 3, 4);
    let q2 = Quaternion::new(-1, -2, -3, -4);
    assert_eq!(q1.neg(), q2);
}

#[test]
fn test_sub() {
    let q1 = Quaternion::new(1, 2, 3, 4);
    let q2 = Quaternion::new(4, 3, 2, 1);
    let q3 = Quaternion::new(-3, -1, 1, 3);
    let mut q0 = Quaternion::new(0, 0, 0, 0);
    q0.sub_assign(q1);
    q0.sub_assign_scalar(3);
    assert_eq!(q0, Quaternion::new(-4, -2, -3, -4));
    assert_eq!(q1.sub_scalar(3), Quaternion::new(-2, 2, 3, 4)); // scalar subtraction right
    assert_eq!(Quaternion::scalar_sub(3, q1), Quaternion::new(2, -2, -3, -4)); // scalar subtraction left
    assert_eq!(q1.sub(q2), q3);
    assert_eq!(q1.sub(q2), q2.sub(q1).neg());
    assert_eq!(q1.sub(q2.sub(q3)), q1.sub(q2).add(q3));
}

#[test]
fn test_mul() {
    let i = Quaternion::new(0, 1, 0, 0);
    let j = Quaternion::new(0, 0, 1, 0);
    let k = Quaternion::new(0, 0, 0, 1);
    let e = Quaternion::new(-1, 0, 0, 0);
    assert_eq!(i.mul(j).mul(k), e);
    assert_eq!(i.mul(i), e);
    assert_eq!(j.mul(j), e);
    assert_eq!(k.mul(k), e);
    assert_eq!(i.mul(j), k);
    assert_eq!(j.mul(i), k.neg());
    assert_eq!(j.mul(k), i);
    assert_eq!(k.mul(j), i.neg());
    assert_eq!(k.mul(i), j);
    assert_eq!(i.mul(k), j.neg());
}

#[test]
fn test_mulscalar() {
    let q1 = Quaternion::new(1, 2, 3, 4);
    let s = -14;
    assert_eq!(q1.mul_scalar(s), Quaternion::scalar_mul(s, q1));
}

#[test]
fn test_divscalar() {
    let q1 = Quaternion::new(1, 2, 3, 4);
    let r = q1.div_scalar(5);
    assert_eq!(r.num, q1);
    assert_eq!(r.den, 5);
}

#[test]
fn test_debug() {
    let q = Quaternion::new(1, 2, 3, 4);
    let result = format!("{:?}", q);
    let expect = "Quaternion { s: 1, x: 2, y: 3, z: 4 }";
    assert_eq!(expect, result);
}

#[test]
fn test_mul_exact_product() {
    let p = Quaternion::new(1, 2, 3, 4);
    let q = Quaternion::new(4, 3, 2, 1);
    // s = 1*4 - 2*3 - 3*2 - 4*1 = -12
    // x = 1*3 + 2*4 + 3*1 - 4*2 = 6
    // y = 1*2 + 3*4 + 4*3 - 2*1 = 24
    // z = 1*1 + 4*4 + 2*2 - 3*3 = 12
    assert_eq!(p.mul(q), Quaternion::new(-12, 6, 24, 12));
}

#[test]
fn test_mul_associative_distributive() {
    let p = Quaternion::new(1, -2, 3, -4);
    let q = Quaternion::new(2, 0, -1, 5);
    let r = Quaternion::new(-3, 1, 4, 2);
    assert_eq!(p.mul(q.mul(r)), p.mul(q).mul(r));
    assert_eq!(p.mul(q.add(r)), p.mul(q).add(p.mul(r)));
    assert_eq!(p.add(q).mul(r), p.mul(r).add(q.mul(r)));
}

#[test]
fn test_zero_quaternion() {
    let zero = Quaternion::new(0, 0, 0, 0);
    let q = Quaternion::new(1, 2, 3, 4);
    assert_eq!(zero.normsq(), 0);
    assert_eq!(q.add(zero), q);
    assert_eq!(q.mul(zero), zero);
    assert_eq!(zero.mul(q), zero);
    assert_eq!(q.sub(q), zero);
    let r = zero.inv();
    assert_eq!(r.den, 0); // the zero quaternion has no inverse: zero denominator
}

#[test]
fn test_one_is_identity() {
    let one = Quaternion::new(1, 0, 0, 0);
    let q = Quaternion::new(7, -5, 11, 13);
    assert_eq!(q.mul(one), q);
    assert_eq!(one.mul(q), q);
}

#[test]
fn test_large_components() {
    let big = 1 << 30;
    let q = Quaternion::new(big, -big, big, -big);
    assert_eq!(q.normsq(), 4 * big * big);
    assert_eq!(q.conj(), Quaternion::new(big, big, -big, big));
}

#[test]
fn test_scaled_quaternion_fields() {
    let q = Quaternion::new(6, -9, 12, 30);
    let r = ScaledQuaternion { num: q, den: 3 };
    assert_eq!(r.num.mul_scalar(2), Quaternion::new(12, -18, 24, 60));
    assert_eq!(r.den, 3);
}

#[test]
fn test_display() {
    let q = Quaternion::new(1, 2, 3, 4);
    let result = String::from_utf8(q.display_bytes()).unwrap();
    let expect = "1 + 2i + 3j + 4k";
    assert_eq!(expect, result);
}

#[test]
fn test_display_negative() {
    let q = Quaternion::new(-1, 0, -30, 4);
    let result = String::from_utf8(q.display_bytes()).unwrap();
    let expect = "-1 + 0i + -30j + 4k";
    assert_eq!(expect, result);
}

#[test]
fn test_dot_laws() {
    let p = Quaternion::new(1, -2, 3, -4);
    let q = Quaternion::new(5, 6, -7, 8);
    assert_eq!(p.dot(q), q.dot(p));
    assert_eq!(q.dot(q), q.normsq());
}

#[test]
fn test_scalar_embedding() {
    let q = Quaternion::new(1, 2, 3, 4);
    let c = Quaternion::new(3, 0, 0, 0);
    assert_eq!(q.mul(c), q.mul_scalar(3));
    assert_eq!(c.mul(q), q.mul_scalar(3));
}
