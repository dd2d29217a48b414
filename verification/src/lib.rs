//! Dimensional analysis and unit conversion for scalar physical quantities.
//!
//! A physical dimension is a vector of seven signed integer exponents over
//! the SI base dimensions (length, mass, time, electric current,
//! thermodynamic temperature, amount of substance, luminous intensity);
//! dimensions form an abelian group under component-wise addition. A
//! [`Quantity`] carries a magnitude, always stored in the canonical
//! SI-derived scale, together with a [`RuntimeDimension`] descriptor that is
//! checked on every combining operation: sums demand identical dimensions,
//! products combine them. A [`Unit`] converts between a user-facing scale
//! and the canonical internal scale, and proportional units compose
//! algebraically into new ones.
//!
//! The magnitude type is generic: any [`Scalar`] implementor serves, and the
//! dimension bookkeeping is verified once for all of them.

mod dimension;
mod quantity;
mod scalar;
mod units;

pub use dimension::{
    AmountOfSubstance, DimExps, Dimension, Dimensionless, ElectricCurrent, Length,
    LuminousIntensity, Mass, RuntimeDimension, Temperature, Time, dim_combine, dim_fits,
    dim_identity, dim_negate, lemma_dim_combine_associative, lemma_dim_combine_commutative,
    lemma_dim_combine_identity, lemma_dim_combine_inverse,
};
pub use quantity::{DimensionMismatch, Quantity};
pub use scalar::Scalar;
pub use units::{
    AutoImplementSIProportionalUnit, SIPropUnit, SIProportionalUnit, SIUnit, SIUnitTyped, Unit,
    lemma_si_unit_round_trip,
};
