use dimensional::{
    AmountOfSubstance, Dimension, Dimensionless, ElectricCurrent, Length, LuminousIntensity, Mass,
    RuntimeDimension, Temperature, Time,
};

#[test]
fn new_stores_all_seven_exponents() {
    let d = RuntimeDimension::new(1, 2, 3, 4, 5, 6, 7);
    assert_eq!(d.length(), 1);
    assert_eq!(d.mass(), 2);
    assert_eq!(d.time(), 3);
    assert_eq!(d.electric_current(), 4);
    assert_eq!(d.temperature(), 5);
    assert_eq!(d.amount_of_substance(), 6);
    assert_eq!(d.luminous_intensity(), 7);
}

#[test]
fn combine_adds_exponents_componentwise() {
    let a = RuntimeDimension::new(1, 0, -2, 0, 0, 0, 0);
    let b = RuntimeDimension::new(0, 1, 1, 0, 0, 0, 0);
    let c = a.combine(&b);
    assert_eq!(c, RuntimeDimension::new(1, 1, -1, 0, 0, 0, 0));
}

#[test]
fn combine_with_identity_changes_nothing() {
    let a = RuntimeDimension::new(3, -1, 4, 1, -5, 9, -2);
    assert_eq!(a.combine(&RuntimeDimension::identity()), a);
    assert_eq!(RuntimeDimension::identity().combine(&a), a);
}

#[test]
fn combine_with_negation_gives_identity() {
    let a = RuntimeDimension::new(3, -1, 4, 1, -5, 9, -2);
    assert_eq!(a.combine(&a.negate()), RuntimeDimension::identity());
}

#[test]
fn combine_is_associative() {
    let a = RuntimeDimension::new(1, 0, -1, 0, 0, 0, 0);
    let b = RuntimeDimension::new(0, 2, 1, -1, 0, 0, 0);
    let c = RuntimeDimension::new(-1, 1, 0, 0, 3, 0, 1);
    assert_eq!(a.combine(&b).combine(&c), a.combine(&b.combine(&c)));
}

#[test]
fn combine_is_commutative() {
    let a = RuntimeDimension::new(1, 0, -1, 0, 0, 0, 0);
    let b = RuntimeDimension::new(0, 2, 1, -1, 0, 0, 0);
    assert_eq!(a.combine(&b), b.combine(&a));
}

#[test]
fn difference_subtracts_exponents_componentwise() {
    let a = RuntimeDimension::new(1, 0, 0, 0, 0, 0, 0);
    let b = RuntimeDimension::new(0, 0, 1, 0, 0, 0, 0);
    assert_eq!(a.difference(&b), RuntimeDimension::new(1, 0, -1, 0, 0, 0, 0));
}

#[test]
fn negate_flips_every_exponent() {
    let a = RuntimeDimension::new(1, -2, 3, 0, 0, -1, 2);
    assert_eq!(a.negate(), RuntimeDimension::new(-1, 2, -3, 0, 0, 1, -2));
}

#[test]
fn default_is_dimensionless() {
    assert_eq!(RuntimeDimension::default(), RuntimeDimension::identity());
    assert_eq!(RuntimeDimension::identity(), RuntimeDimension::new(0, 0, 0, 0, 0, 0, 0));
}

#[test]
fn same_dimension_as_tests_all_exponents() {
    let a = RuntimeDimension::new(1, 0, -1, 0, 0, 0, 0);
    let b = RuntimeDimension::new(1, 0, -1, 0, 0, 0, 0);
    let c = RuntimeDimension::new(1, 0, 1, 0, 0, 0, 0);
    assert!(a.same_dimension_as(&b));
    assert!(!a.same_dimension_as(&c));
}

#[test]
fn equal_descriptors_print_identically() {
    let a = RuntimeDimension::new(2, 0, -2, 0, 0, 0, 0);
    let b = RuntimeDimension::new(1, 0, -1, 0, 0, 0, 0).combine(&RuntimeDimension::new(
        1, 0, -1, 0, 0, 0, 0,
    ));
    assert_eq!(a, b);
    assert_eq!(format!("{:?}", a), format!("{:?}", b));
}

#[test]
fn base_dimensions_materialize_their_exponents() {
    assert_eq!(Dimensionless::get_runtime_dim(), RuntimeDimension::new(0, 0, 0, 0, 0, 0, 0));
    assert_eq!(Length::get_runtime_dim(), RuntimeDimension::new(1, 0, 0, 0, 0, 0, 0));
    assert_eq!(Mass::get_runtime_dim(), RuntimeDimension::new(0, 1, 0, 0, 0, 0, 0));
    assert_eq!(Time::get_runtime_dim(), RuntimeDimension::new(0, 0, 1, 0, 0, 0, 0));
    assert_eq!(ElectricCurrent::get_runtime_dim(), RuntimeDimension::new(0, 0, 0, 1, 0, 0, 0));
    assert_eq!(Temperature::get_runtime_dim(), RuntimeDimension::new(0, 0, 0, 0, 1, 0, 0));
    assert_eq!(AmountOfSubstance::get_runtime_dim(), RuntimeDimension::new(0, 0, 0, 0, 0, 1, 0));
    assert_eq!(LuminousIntensity::get_runtime_dim(), RuntimeDimension::new(0, 0, 0, 0, 0, 0, 1));
}
