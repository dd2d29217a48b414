//! Units: conversion rules between a user-facing scale and the canonical
//! SI-derived scale carried by a [`Quantity`].
//!
//! A [`Unit`] converts in both directions and reports its dimension. A
//! proportional unit ([`SIProportionalUnit`]) carries a constant `k` with
//! `SI_value = user_value * k`; one shared conversion algorithm implements
//! [`Unit`] for every proportional unit that opts in through
//! [`AutoImplementSIProportionalUnit`]. The SI unit itself ([`SIUnit`])
//! converts by the exact identity function.

use vstd::prelude::*;

use crate::dimension::{DimExps, RuntimeDimension, dim_combine, dim_fits, dim_negate};
use crate::quantity::Quantity;
use crate::scalar::Scalar;

verus! {

/// A unit: a conversion rule between a user-facing numeric amount and the
/// canonical SI-based magnitude of a [`Quantity`], together with the unit's
/// dimension.
pub trait Unit<T: Scalar> {
    /// The forward conversion: the canonical SI magnitude that this unit
    /// assigns to a user-facing amount.
    spec fn spec_to_si(&self, amount: T) -> T;

    /// The inverse conversion: the user-facing amount that this unit reads
    /// from a canonical SI magnitude.
    spec fn spec_from_si(&self, si: T) -> T;

    /// The dimension vector of the unit.
    spec fn spec_dim(&self) -> DimExps;

    /// Creates a quantity with the given `amount` of the unit.
    fn set(&self, amount: T) -> (q: Quantity<T>)
        ensures
            q.spec_value() == self.spec_to_si(amount),
            q.spec_dim() == self.spec_dim(),
    ;

    /// Retrieves the amount of the unit from a quantity.
    fn get(&self, quantity: Quantity<T>) -> (r: T)
        ensures
            r == self.spec_from_si(quantity.spec_value()),
    ;

    /// Retrieves the dimension of the unit.
    fn get_dimension(&self) -> (d: RuntimeDimension)
        ensures
            d@ == self.spec_dim(),
    ;
}

/// A unit directly proportional to the SI unit of its dimension.
///
/// If `k` is the proportionality constant, `U` the unit and `SI` the SI
/// unit, then `SI = U * k`. A zero constant makes the unit meaningless and
/// leads to the scalar's division semantics for zero divisors when the unit
/// is read; keeping `k` nonzero is the caller's obligation, stated on the
/// constructors that accept a constant.
pub trait SIProportionalUnit<T: Scalar>: Sized {
    /// The proportionality constant between this unit and the SI unit.
    spec fn spec_k(&self) -> T;

    /// The dimension vector of this unit.
    spec fn spec_prop_dim(&self) -> DimExps;

    /// The value of the proportionality constant between this unit and the
    /// SI unit.
    fn prop_constant(&self) -> (k: T)
        ensures
            k == self.spec_k(),
    ;

    /// The runtime descriptor of this unit's dimension.
    fn prop_dimension(&self) -> (d: RuntimeDimension)
        ensures
            d@ == self.spec_prop_dim(),
    ;
}

/// Opt-in marker: implementing it lets a [`SIProportionalUnit`] receive its
/// [`Unit`] implementation from the one shared conversion algorithm.
pub trait AutoImplementSIProportionalUnit {}

impl<T: Scalar, U: SIProportionalUnit<T> + AutoImplementSIProportionalUnit> Unit<T> for U {
    /// Forward conversion of every proportional unit: `amount * k`.
    open spec fn spec_to_si(&self, amount: T) -> T {
        amount.spec_mul(self.spec_k())
    }

    /// Inverse conversion of every proportional unit: `si / k`.
    open spec fn spec_from_si(&self, si: T) -> T {
        si.spec_div(self.spec_k())
    }

    open spec fn spec_dim(&self) -> DimExps {
        self.spec_prop_dim()
    }

    fn set(&self, amount: T) -> (q: Quantity<T>) {
        Quantity::from_si(amount.mul(self.prop_constant()), self.prop_dimension())
    }

    fn get(&self, quantity: Quantity<T>) -> (r: T) {
        quantity.get_si().div(self.prop_constant())
    }

    fn get_dimension(&self) -> (d: RuntimeDimension) {
        self.prop_dimension()
    }
}

/// A proportional unit given by an explicit constant and dimension.
///
/// New units can be derived algebraically from existing ones with
/// [`SIPropUnit::mul`] and [`SIPropUnit::div`]; the additive combinations
/// exist for structural completeness of the algebra, not as a physical
/// idiom.
#[derive(Debug, Clone, Copy)]
pub struct SIPropUnit<T> {
    prop_constant: T,
    dimension: RuntimeDimension,
}

impl<T: Scalar + Copy> SIPropUnit<T> {
    /// Creates a new proportional unit with the given constant and
    /// dimension.
    ///
    /// The constant must be nonzero for the unit to be meaningful; this is
    /// not checked, and a zero constant surfaces through the scalar's
    /// division semantics when the unit is read.
    pub fn new(prop_constant: T, dimension: RuntimeDimension) -> (u: Self)
        ensures
            u.spec_k() == prop_constant,
            u.spec_prop_dim() == dimension@,
    {
        Self { prop_constant, dimension }
    }

    /// Multiplies two units: the constants multiply and the dimensions
    /// combine.
    pub fn mul(self, rhs: Self) -> (u: Self)
        requires
            dim_fits(dim_combine(self.spec_prop_dim(), rhs.spec_prop_dim())),
        ensures
            u.spec_k() == self.spec_k().spec_mul(rhs.spec_k()),
            u.spec_prop_dim() == dim_combine(self.spec_prop_dim(), rhs.spec_prop_dim()),
    {
        Self {
            prop_constant: self.prop_constant.mul(rhs.prop_constant),
            dimension: self.dimension.combine(&rhs.dimension),
        }
    }

    /// Divides two units: the constants divide and the dimension of the
    /// divisor is negated into the result.
    pub fn div(self, rhs: Self) -> (u: Self)
        requires
            dim_fits(dim_combine(self.spec_prop_dim(), dim_negate(rhs.spec_prop_dim()))),
        ensures
            u.spec_k() == self.spec_k().spec_div(rhs.spec_k()),
            u.spec_prop_dim() == dim_combine(self.spec_prop_dim(), dim_negate(rhs.spec_prop_dim())),
    {
        Self {
            prop_constant: self.prop_constant.div(rhs.prop_constant),
            dimension: self.dimension.difference(&rhs.dimension),
        }
    }

    /// Adds two units' constants, combining the dimensions; an internal
    /// algebraic building block without a direct physical meaning.
    pub fn add(self, rhs: Self) -> (u: Self)
        requires
            dim_fits(dim_combine(self.spec_prop_dim(), rhs.spec_prop_dim())),
        ensures
            u.spec_k() == self.spec_k().spec_add(rhs.spec_k()),
            u.spec_prop_dim() == dim_combine(self.spec_prop_dim(), rhs.spec_prop_dim()),
    {
        Self {
            prop_constant: self.prop_constant.add(rhs.prop_constant),
            dimension: self.dimension.combine(&rhs.dimension),
        }
    }

    /// Subtracts two units' constants, combining the dimensions with the
    /// divisor negated; an internal algebraic building block without a
    /// direct physical meaning.
    pub fn sub(self, rhs: Self) -> (u: Self)
        requires
            dim_fits(dim_combine(self.spec_prop_dim(), dim_negate(rhs.spec_prop_dim()))),
        ensures
            u.spec_k() == self.spec_k().spec_sub(rhs.spec_k()),
            u.spec_prop_dim() == dim_combine(self.spec_prop_dim(), dim_negate(rhs.spec_prop_dim())),
    {
        Self {
            prop_constant: self.prop_constant.sub(rhs.prop_constant),
            dimension: self.dimension.difference(&rhs.dimension),
        }
    }
}

impl<T: Scalar + Copy> SIPropUnit<T> {
    /// Multiplies by another unit in place.
    pub fn mul_assign(&mut self, rhs: Self)
        requires
            dim_fits(dim_combine(old(self).spec_prop_dim(), rhs.spec_prop_dim())),
        ensures
            final(self).spec_k() == old(self).spec_k().spec_mul(rhs.spec_k()),
            final(self).spec_prop_dim() == dim_combine(
                old(self).spec_prop_dim(),
                rhs.spec_prop_dim(),
            ),
    {
        let k = self.prop_constant.mul(rhs.prop_constant);
        self.prop_constant = k;
        self.dimension = self.dimension.combine(&rhs.dimension);
    }

    /// Divides by another unit in place.
    pub fn div_assign(&mut self, rhs: Self)
        requires
            dim_fits(dim_combine(old(self).spec_prop_dim(), dim_negate(rhs.spec_prop_dim()))),
        ensures
            final(self).spec_k() == old(self).spec_k().spec_div(rhs.spec_k()),
            final(self).spec_prop_dim() == dim_combine(
                old(self).spec_prop_dim(),
                dim_negate(rhs.spec_prop_dim()),
            ),
    {
        let k = self.prop_constant.div(rhs.prop_constant);
        self.prop_constant = k;
        self.dimension = self.dimension.difference(&rhs.dimension);
    }

    /// Adds another unit's constant in place, combining the dimensions; an
    /// internal algebraic building block without a direct physical meaning.
    pub fn add_assign(&mut self, rhs: Self)
        requires
            dim_fits(dim_combine(old(self).spec_prop_dim(), rhs.spec_prop_dim())),
        ensures
            final(self).spec_k() == old(self).spec_k().spec_add(rhs.spec_k()),
            final(self).spec_prop_dim() == dim_combine(
                old(self).spec_prop_dim(),
                rhs.spec_prop_dim(),
            ),
    {
        let k = self.prop_constant.add(rhs.prop_constant);
        self.prop_constant = k;
        self.dimension = self.dimension.combine(&rhs.dimension);
    }

    /// Subtracts another unit's constant in place, combining the dimensions
    /// with the divisor negated; an internal algebraic building block
    /// without a direct physical meaning.
    pub fn sub_assign(&mut self, rhs: Self)
        requires
            dim_fits(dim_combine(old(self).spec_prop_dim(), dim_negate(rhs.spec_prop_dim()))),
        ensures
            final(self).spec_k() == old(self).spec_k().spec_sub(rhs.spec_k()),
            final(self).spec_prop_dim() == dim_combine(
                old(self).spec_prop_dim(),
                dim_negate(rhs.spec_prop_dim()),
            ),
    {
        let k = self.prop_constant.sub(rhs.prop_constant);
        self.prop_constant = k;
        self.dimension = self.dimension.difference(&rhs.dimension);
    }
}

impl<T: Scalar + Copy> SIProportionalUnit<T> for SIPropUnit<T> {
    closed spec fn spec_k(&self) -> T {
        self.prop_constant
    }

    closed spec fn spec_prop_dim(&self) -> DimExps {
        self.dimension@
    }

    fn prop_constant(&self) -> (k: T) {
        self.prop_constant
    }

    fn prop_dimension(&self) -> (d: RuntimeDimension) {
        self.dimension
    }
}

impl<T> AutoImplementSIProportionalUnit for SIPropUnit<T> {

}

/// The SI (default) unit for a dimension: construction and extraction are
/// the exact identity function on the magnitude.
#[derive(Debug, Clone, Copy)]
pub struct SIUnit {
    dimension: RuntimeDimension,
}

impl SIUnit {
    /// Creates the SI unit of the given dimension.
    pub fn new(dimension: RuntimeDimension) -> (u: Self)
        ensures
            u.spec_si_dim() == dimension@,
    {
        Self { dimension }
    }

    /// The dimension vector of this SI unit.
    pub closed spec fn spec_si_dim(&self) -> DimExps {
        self.dimension@
    }
}

impl<T: Scalar> Unit<T> for SIUnit {
    /// The SI unit converts by the exact identity: no arithmetic touches
    /// the magnitude.
    open spec fn spec_to_si(&self, amount: T) -> T {
        amount
    }

    open spec fn spec_from_si(&self, si: T) -> T {
        si
    }

    open spec fn spec_dim(&self) -> DimExps {
        self.spec_si_dim()
    }

    fn set(&self, amount: T) -> (q: Quantity<T>) {
        Quantity::from_si(amount, self.dimension)
    }

    fn get(&self, quantity: Quantity<T>) -> (r: T) {
        quantity.get_si()
    }

    fn get_dimension(&self) -> (d: RuntimeDimension) {
        self.dimension
    }
}

/// The SI unit viewed as a proportional unit: its constant is the scalar's
/// multiplicative unit, so it also takes part in the proportional-unit
/// algebra and receives [`Unit`] through the shared conversion algorithm.
#[derive(Debug, Clone, Copy)]
pub struct SIUnitTyped {
    dimension: RuntimeDimension,
}

impl SIUnitTyped {
    /// Creates the SI unit of the given dimension, typed with a
    /// proportionality constant of one.
    pub fn new(dimension: RuntimeDimension) -> (u: Self)
        ensures
            u.spec_typed_dim() == dimension@,
    {
        Self { dimension }
    }

    /// The dimension vector of this SI unit.
    pub closed spec fn spec_typed_dim(&self) -> DimExps {
        self.dimension@
    }
}

impl<T: Scalar> SIProportionalUnit<T> for SIUnitTyped {
    /// The constant of the SI unit is the scalar's multiplicative unit.
    open spec fn spec_k(&self) -> T {
        T::spec_one()
    }

    open spec fn spec_prop_dim(&self) -> DimExps {
        self.spec_typed_dim()
    }

    fn prop_constant(&self) -> (k: T) {
        T::one()
    }

    fn prop_dimension(&self) -> (d: RuntimeDimension) {
        self.dimension
    }
}

impl AutoImplementSIProportionalUnit for SIUnitTyped {

}

/// The SI unit is transparent: both of its conversions are the exact
/// identity on the magnitude, so its round trip returns every magnitude
/// unchanged, with no arithmetic performed on it.
pub proof fn lemma_si_unit_round_trip<T: Scalar>(u: SIUnit, v: T)
    ensures
        <SIUnit as Unit<T>>::spec_to_si(&u, v) == v,
        <SIUnit as Unit<T>>::spec_from_si(&u, <SIUnit as Unit<T>>::spec_to_si(&u, v)) == v,
{
}

} // verus!
