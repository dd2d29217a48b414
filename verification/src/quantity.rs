//! The [`Quantity`] structure: a magnitude tagged with a dimension.
//!
//! A quantity stores its magnitude exclusively in the canonical SI-derived
//! scale and carries a [`RuntimeDimension`] descriptor. Addition,
//! subtraction and remainder demand identical dimensions and reject a
//! mismatch with a [`DimensionMismatch`] carrying both descriptors;
//! multiplication and division combine the dimensions per the dimension
//! algebra; sign negation leaves the dimension unchanged.

use vstd::prelude::*;
use core::cmp::Ordering;

use crate::dimension::{DimExps, RuntimeDimension, dim_combine, dim_fits, dim_negate};
use crate::scalar::Scalar;

verus! {

/// The error of a combining operation on two quantities whose dimensions
/// differ. It carries both operand descriptors.
#[derive(Debug, Clone, Copy, PartialEq, Eq, Structural)]
pub struct DimensionMismatch {
    /// The dimension of the left operand.
    pub left: RuntimeDimension,
    /// The dimension of the right operand.
    pub right: RuntimeDimension,
}

/// A dimensioned value.
///
/// The magnitude is always expressed in the canonical SI-derived unit for
/// the quantity's dimension; it is set and read through a unit, or through
/// the `si` methods for interop.
#[derive(Debug, Clone, Copy)]
pub struct Quantity<T> {
    value: T,
    dimension: RuntimeDimension,
}

impl<T> Quantity<T> {
    /// The magnitude of this quantity, in the canonical SI-derived unit.
    pub closed spec fn spec_value(self) -> T {
        self.value
    }

    /// The dimension vector of this quantity.
    pub closed spec fn spec_dim(self) -> DimExps {
        self.dimension@
    }

    /// Creates a quantity from a magnitude given in the SI (default) unit of
    /// the given dimension.
    pub fn from_si(value: T, dimension: RuntimeDimension) -> (q: Self)
        ensures
            q.spec_value() == value,
            q.spec_dim() == dimension@,
    {
        Self { value, dimension }
    }

    /// Returns the magnitude of the quantity in its SI (default) unit.
    pub fn get_si(self) -> (v: T)
        ensures
            v == self.spec_value(),
    {
        self.value
    }

    /// Returns a reference to the magnitude of the quantity in its SI
    /// (default) unit.
    pub fn get_ref_si(&self) -> (v: &T)
        ensures
            *v == self.spec_value(),
    {
        &self.value
    }

    /// Returns a mutable reference to the magnitude of the quantity in its
    /// SI (default) unit. The dimension cannot be changed through it.
    pub fn get_mut_si(&mut self) -> (v: &mut T)
        ensures
            *v == old(self).spec_value(),
            final(self).spec_value() == *final(v),
            final(self).spec_dim() == old(self).spec_dim(),
    {
        &mut self.value
    }

    /// Returns the runtime descriptor of the quantity's dimension.
    pub fn get_dimension(&self) -> (d: RuntimeDimension)
        ensures
            d@ == self.spec_dim(),
    {
        self.dimension
    }

    /// Converts a `&Quantity<T>` into a `Quantity<&T>` of the same
    /// dimension.
    pub fn as_ref(&self) -> (q: Quantity<&T>)
        ensures
            q.spec_value() == &self.spec_value(),
            q.spec_dim() == self.spec_dim(),
    {
        Quantity { value: &self.value, dimension: self.dimension }
    }
}

impl<T: Scalar> Quantity<T> {
    /// Adds two quantities of identical dimension; rejects a dimension
    /// mismatch and returns both descriptors in the error.
    pub fn add(self, rhs: Self) -> (r: Result<Self, DimensionMismatch>)
        ensures
            self.spec_dim() == rhs.spec_dim() <==> r is Ok,
            r matches Ok(q) ==> {
                &&& q.spec_value() == self.spec_value().spec_add(rhs.spec_value())
                &&& q.spec_dim() == self.spec_dim()
            },
            r matches Err(e) ==> e.left@ == self.spec_dim() && e.right@ == rhs.spec_dim(),
    {
        if self.dimension.same_dimension_as(&rhs.dimension) {
            Ok(Self { value: self.value.add(rhs.value), dimension: self.dimension })
        } else {
            Err(DimensionMismatch { left: self.dimension, right: rhs.dimension })
        }
    }

    /// Subtracts a quantity from another of identical dimension; rejects a
    /// dimension mismatch and returns both descriptors in the error.
    pub fn sub(self, rhs: Self) -> (r: Result<Self, DimensionMismatch>)
        ensures
            self.spec_dim() == rhs.spec_dim() <==> r is Ok,
            r matches Ok(q) ==> {
                &&& q.spec_value() == self.spec_value().spec_sub(rhs.spec_value())
                &&& q.spec_dim() == self.spec_dim()
            },
            r matches Err(e) ==> e.left@ == self.spec_dim() && e.right@ == rhs.spec_dim(),
    {
        if self.dimension.same_dimension_as(&rhs.dimension) {
            Ok(Self { value: self.value.sub(rhs.value), dimension: self.dimension })
        } else {
            Err(DimensionMismatch { left: self.dimension, right: rhs.dimension })
        }
    }

    /// Remainder of a quantity by another of identical dimension; rejects a
    /// dimension mismatch and returns both descriptors in the error.
    pub fn rem(self, rhs: Self) -> (r: Result<Self, DimensionMismatch>)
        ensures
            self.spec_dim() == rhs.spec_dim() <==> r is Ok,
            r matches Ok(q) ==> {
                &&& q.spec_value() == self.spec_value().spec_rem(rhs.spec_value())
                &&& q.spec_dim() == self.spec_dim()
            },
            r matches Err(e) ==> e.left@ == self.spec_dim() && e.right@ == rhs.spec_dim(),
    {
        if self.dimension.same_dimension_as(&rhs.dimension) {
            Ok(Self { value: self.value.rem(rhs.value), dimension: self.dimension })
        } else {
            Err(DimensionMismatch { left: self.dimension, right: rhs.dimension })
        }
    }

    /// Multiplies two quantities; the result's dimension is the combination
    /// of the operands' dimensions.
    pub fn mul(self, rhs: Self) -> (r: Self)
        requires
            dim_fits(dim_combine(self.spec_dim(), rhs.spec_dim())),
        ensures
            r.spec_value() == self.spec_value().spec_mul(rhs.spec_value()),
            r.spec_dim() == dim_combine(self.spec_dim(), rhs.spec_dim()),
    {
        Self {
            value: self.value.mul(rhs.value),
            dimension: self.dimension.combine(&rhs.dimension),
        }
    }

    /// Divides a quantity by another; the result's dimension is the
    /// combination of the left dimension with the negation of the right one.
    /// A zero divisor magnitude follows the scalar's own division semantics.
    pub fn div(self, rhs: Self) -> (r: Self)
        requires
            dim_fits(dim_combine(self.spec_dim(), dim_negate(rhs.spec_dim()))),
        ensures
            r.spec_value() == self.spec_value().spec_div(rhs.spec_value()),
            r.spec_dim() == dim_combine(self.spec_dim(), dim_negate(rhs.spec_dim())),
    {
        Self {
            value: self.value.div(rhs.value),
            dimension: self.dimension.difference(&rhs.dimension),
        }
    }

    /// Negates the sign of the magnitude; the dimension is unchanged.
    pub fn neg(self) -> (r: Self)
        ensures
            r.spec_value() == self.spec_value().spec_neg(),
            r.spec_dim() == self.spec_dim(),
    {
        Self { value: self.value.neg(), dimension: self.dimension }
    }

    /// Compares the magnitudes of two quantities of identical dimension;
    /// rejects a cross-dimension comparison with both descriptors.
    pub fn compare(&self, other: &Self) -> (r: Result<Option<Ordering>, DimensionMismatch>)
        ensures
            self.spec_dim() == other.spec_dim() <==> r is Ok,
            r matches Ok(c) ==> c == self.spec_value().spec_partial_cmp(other.spec_value()),
            r matches Err(e) ==> e.left@ == self.spec_dim() && e.right@ == other.spec_dim(),
    {
        if self.dimension.same_dimension_as(&other.dimension) {
            Ok(self.value.partial_cmp_value(&other.value))
        } else {
            Err(DimensionMismatch { left: self.dimension, right: other.dimension })
        }
    }

    /// Tests the magnitudes of two quantities of identical dimension for
    /// equality; rejects a cross-dimension comparison with both descriptors.
    pub fn equals(&self, other: &Self) -> (r: Result<bool, DimensionMismatch>)
        ensures
            self.spec_dim() == other.spec_dim() <==> r is Ok,
            r matches Ok(b) ==> b == (self.spec_value().spec_partial_cmp(other.spec_value())
                == Some(Ordering::Equal)),
            r matches Err(e) ==> e.left@ == self.spec_dim() && e.right@ == other.spec_dim(),
    {
        if self.dimension.same_dimension_as(&other.dimension) {
            let c = self.value.partial_cmp_value(&other.value);
            Ok(matches!(c, Some(Ordering::Equal)))
        } else {
            Err(DimensionMismatch { left: self.dimension, right: other.dimension })
        }
    }
}

impl<T: Scalar + Copy> Quantity<T> {
    /// Adds a quantity of identical dimension in place; on a dimension
    /// mismatch leaves the quantity unchanged and reports both descriptors.
    pub fn add_assign(&mut self, rhs: Self) -> (r: Result<(), DimensionMismatch>)
        ensures
            old(self).spec_dim() == rhs.spec_dim() <==> r is Ok,
            r is Ok ==> {
                &&& final(self).spec_value() == old(self).spec_value().spec_add(rhs.spec_value())
                &&& final(self).spec_dim() == old(self).spec_dim()
            },
            r matches Err(e) ==> {
                &&& e.left@ == old(self).spec_dim() && e.right@ == rhs.spec_dim()
                &&& *final(self) == *old(self)
            },
    {
        if self.dimension.same_dimension_as(&rhs.dimension) {
            let v = self.value.add(rhs.value);
            self.value = v;
            Ok(())
        } else {
            Err(DimensionMismatch { left: self.dimension, right: rhs.dimension })
        }
    }

    /// Subtracts a quantity of identical dimension in place; on a dimension
    /// mismatch leaves the quantity unchanged and reports both descriptors.
    pub fn sub_assign(&mut self, rhs: Self) -> (r: Result<(), DimensionMismatch>)
        ensures
            old(self).spec_dim() == rhs.spec_dim() <==> r is Ok,
            r is Ok ==> {
                &&& final(self).spec_value() == old(self).spec_value().spec_sub(rhs.spec_value())
                &&& final(self).spec_dim() == old(self).spec_dim()
            },
            r matches Err(e) ==> {
                &&& e.left@ == old(self).spec_dim() && e.right@ == rhs.spec_dim()
                &&& *final(self) == *old(self)
            },
    {
        if self.dimension.same_dimension_as(&rhs.dimension) {
            let v = self.value.sub(rhs.value);
            self.value = v;
            Ok(())
        } else {
            Err(DimensionMismatch { left: self.dimension, right: rhs.dimension })
        }
    }

    /// Remainder by a quantity of identical dimension in place; on a
    /// dimension mismatch leaves the quantity unchanged and reports both
    /// descriptors.
    pub fn rem_assign(&mut self, rhs: Self) -> (r: Result<(), DimensionMismatch>)
        ensures
            old(self).spec_dim() == rhs.spec_dim() <==> r is Ok,
            r is Ok ==> {
                &&& final(self).spec_value() == old(self).spec_value().spec_rem(rhs.spec_value())
                &&& final(self).spec_dim() == old(self).spec_dim()
            },
            r matches Err(e) ==> {
                &&& e.left@ == old(self).spec_dim() && e.right@ == rhs.spec_dim()
                &&& *final(self) == *old(self)
            },
    {
        if self.dimension.same_dimension_as(&rhs.dimension) {
            let v = self.value.rem(rhs.value);
            self.value = v;
            Ok(())
        } else {
            Err(DimensionMismatch { left: self.dimension, right: rhs.dimension })
        }
    }

    /// Multiplies by another quantity in place; the dimension becomes the
    /// combination of both.
    pub fn mul_assign(&mut self, rhs: Self)
        requires
            dim_fits(dim_combine(old(self).spec_dim(), rhs.spec_dim())),
        ensures
            final(self).spec_value() == old(self).spec_value().spec_mul(rhs.spec_value()),
            final(self).spec_dim() == dim_combine(old(self).spec_dim(), rhs.spec_dim()),
    {
        let v = self.value.mul(rhs.value);
        self.value = v;
        self.dimension = self.dimension.combine(&rhs.dimension);
    }

    /// Divides by another quantity in place; the dimension becomes the
    /// combination of the old dimension with the negation of the divisor's.
    pub fn div_assign(&mut self, rhs: Self)
        requires
            dim_fits(dim_combine(old(self).spec_dim(), dim_negate(rhs.spec_dim()))),
        ensures
            final(self).spec_value() == old(self).spec_value().spec_div(rhs.spec_value()),
            final(self).spec_dim() == dim_combine(old(self).spec_dim(), dim_negate(rhs.spec_dim())),
    {
        let v = self.value.div(rhs.value);
        self.value = v;
        self.dimension = self.dimension.difference(&rhs.dimension);
    }
}

} // verus!
