use std::cmp::Ordering;

use dimensional::{Quantity, RuntimeDimension};

fn length() -> RuntimeDimension {
    RuntimeDimension::new(1, 0, 0, 0, 0, 0, 0)
}

fn time() -> RuntimeDimension {
    RuntimeDimension::new(0, 0, 1, 0, 0, 0, 0)
}

#[test]
fn from_si_and_get_si_round_trip() {
    let q = Quantity::<i64>::from_si(42, length());
    assert_eq!(q.get_dimension(), length());
    assert_eq!(q.get_si(), 42);
}

#[test]
fn get_ref_si_borrows_the_magnitude() {
    let q = Quantity::<i64>::from_si(-7, time());
    assert_eq!(*q.get_ref_si(), -7);
}

#[test]
fn get_mut_si_mutates_only_the_magnitude() {
    let mut q = Quantity::<i64>::from_si(5, length());
    *q.get_mut_si() = 11;
    assert_eq!(q.get_si(), 11);
    let mut q2 = Quantity::<i64>::from_si(5, length());
    assert_eq!(q2.get_dimension(), length());
    *q2.get_mut_si() += 1;
    assert_eq!(q2.get_dimension(), length());
}

#[test]
fn as_ref_keeps_the_dimension() {
    let q = Quantity::<i64>::from_si(9, time());
    let r = q.as_ref();
    assert_eq!(*r.get_si(), 9);
    assert_eq!(r.get_dimension(), time());
}

#[test]
fn add_same_dimension_sums_magnitudes() {
    let a = Quantity::<i64>::from_si(3, length());
    let b = Quantity::<i64>::from_si(4, length());
    let c = a.add(b).unwrap();
    assert_eq!(c.get_dimension(), length());
    assert_eq!(c.get_si(), 7);
}

#[test]
fn add_mismatched_dimensions_is_rejected_with_both_descriptors() {
    let a = Quantity::<i64>::from_si(3, length());
    let b = Quantity::<i64>::from_si(4, time());
    let e = a.add(b).unwrap_err();
    assert_eq!(e.left, length());
    assert_eq!(e.right, time());
}

#[test]
fn sub_same_dimension_subtracts_magnitudes() {
    let a = Quantity::<i64>::from_si(10, length());
    let b = Quantity::<i64>::from_si(4, length());
    let c = a.sub(b).unwrap();
    assert_eq!(c.get_si(), 6);
    assert_eq!(c.get_dimension(), length());
}

#[test]
fn sub_mismatched_dimensions_is_rejected() {
    let a = Quantity::<i64>::from_si(10, length());
    let b = Quantity::<i64>::from_si(4, time());
    let e = a.sub(b).unwrap_err();
    assert_eq!(e.left, length());
    assert_eq!(e.right, time());
}

#[test]
fn rem_same_dimension_takes_the_remainder() {
    let a = Quantity::<i64>::from_si(10, length());
    let b = Quantity::<i64>::from_si(4, length());
    let c = a.rem(b).unwrap();
    assert_eq!(c.get_si(), 2);
    assert_eq!(c.get_dimension(), length());
}

#[test]
fn rem_mismatched_dimensions_is_rejected() {
    let a = Quantity::<i64>::from_si(10, length());
    let b = Quantity::<i64>::from_si(4, time());
    assert!(a.rem(b).is_err());
}

#[test]
fn mul_combines_dimensions() {
    let a = Quantity::<i64>::from_si(3, length());
    let b = Quantity::<i64>::from_si(5, time());
    let c = a.mul(b);
    assert_eq!(c.get_si(), 15);
    assert_eq!(c.get_dimension(), RuntimeDimension::new(1, 0, 1, 0, 0, 0, 0));
}

#[test]
fn div_combines_with_negated_divisor_dimension() {
    let a = Quantity::<i64>::from_si(10, length());
    let b = Quantity::<i64>::from_si(2, time());
    let c = a.div(b);
    assert_eq!(c.get_si(), 5);
    assert_eq!(c.get_dimension(), RuntimeDimension::new(1, 0, -1, 0, 0, 0, 0));
}

#[test]
fn neg_flips_the_sign_and_keeps_the_dimension() {
    let a = Quantity::<i64>::from_si(10, length());
    let b = a.neg();
    assert_eq!(b.get_si(), -10);
    assert_eq!(b.get_dimension(), length());
}

#[test]
fn add_assign_same_dimension_updates_in_place() {
    let mut a = Quantity::<i64>::from_si(3, length());
    a.add_assign(Quantity::<i64>::from_si(4, length())).unwrap();
    assert_eq!(a.get_si(), 7);
    assert_eq!(a.get_dimension(), length());
}

#[test]
fn add_assign_mismatch_leaves_the_quantity_unchanged() {
    let mut a = Quantity::<i64>::from_si(3, length());
    let e = a.add_assign(Quantity::<i64>::from_si(4, time())).unwrap_err();
    assert_eq!(e.left, length());
    assert_eq!(e.right, time());
    assert_eq!(a.get_si(), 3);
    assert_eq!(a.get_dimension(), length());
}

#[test]
fn sub_assign_same_dimension_updates_in_place() {
    let mut a = Quantity::<i64>::from_si(9, length());
    a.sub_assign(Quantity::<i64>::from_si(4, length())).unwrap();
    assert_eq!(a.get_si(), 5);
}

#[test]
fn rem_assign_same_dimension_updates_in_place() {
    let mut a = Quantity::<i64>::from_si(9, length());
    a.rem_assign(Quantity::<i64>::from_si(4, length())).unwrap();
    assert_eq!(a.get_si(), 1);
}

#[test]
fn mul_assign_combines_dimensions_in_place() {
    let mut a = Quantity::<i64>::from_si(3, length());
    a.mul_assign(Quantity::<i64>::from_si(5, time()));
    assert_eq!(a.get_si(), 15);
    assert_eq!(a.get_dimension(), RuntimeDimension::new(1, 0, 1, 0, 0, 0, 0));
}

#[test]
fn div_assign_combines_dimensions_in_place() {
    let mut a = Quantity::<i64>::from_si(10, length());
    a.div_assign(Quantity::<i64>::from_si(2, time()));
    assert_eq!(a.get_si(), 5);
    assert_eq!(a.get_dimension(), RuntimeDimension::new(1, 0, -1, 0, 0, 0, 0));
}

#[test]
fn compare_same_dimension_orders_magnitudes() {
    let a = Quantity::<i64>::from_si(3, length());
    let b = Quantity::<i64>::from_si(4, length());
    assert_eq!(a.compare(&b).unwrap(), Some(Ordering::Less));
    assert_eq!(b.compare(&a).unwrap(), Some(Ordering::Greater));
    assert_eq!(a.compare(&a).unwrap(), Some(Ordering::Equal));
}

#[test]
fn compare_mismatched_dimensions_is_rejected() {
    let a = Quantity::<i64>::from_si(3, length());
    let b = Quantity::<i64>::from_si(3, time());
    let e = a.compare(&b).unwrap_err();
    assert_eq!(e.left, length());
    assert_eq!(e.right, time());
}

#[test]
fn equals_same_dimension_tests_magnitudes() {
    let a = Quantity::<i64>::from_si(3, length());
    let b = Quantity::<i64>::from_si(3, length());
    let c = Quantity::<i64>::from_si(4, length());
    assert!(a.equals(&b).unwrap());
    assert!(!a.equals(&c).unwrap());
}

#[test]
fn equals_mismatched_dimensions_is_rejected() {
    let a = Quantity::<i64>::from_si(3, length());
    let b = Quantity::<i64>::from_si(3, time());
    assert!(a.equals(&b).is_err());
}
