//! The dimension algebra: seven signed integer exponents over the SI base
//! dimensions, combined component-wise.
//!
//! The mathematical model is [`DimExps`], a ghost vector of seven unbounded
//! integers; dimensions form an abelian group under [`dim_combine`], with
//! [`dim_identity`] (the dimensionless vector) as identity and [`dim_negate`]
//! as inverse. [`RuntimeDimension`] is the executable descriptor, holding the
//! exponents as `i64` fields.

use vstd::prelude::*;

verus! {

/// The mathematical view of a dimension: one unbounded integer exponent per
/// SI base dimension.
#[verifier::ext_equal]
pub ghost struct DimExps {
    /// Length exponent
    pub length: int,
    /// Mass exponent
    pub mass: int,
    /// Time exponent
    pub time: int,
    /// Electric current exponent
    pub electric_current: int,
    /// Thermodynamic temperature exponent
    pub temperature: int,
    /// Amount of substance exponent
    pub amount_of_substance: int,
    /// Luminous intensity exponent
    pub luminous_intensity: int,
}

/// The dimensionless vector: every exponent is zero. It is the identity of
/// the dimension group.
pub open spec fn dim_identity() -> DimExps {
    DimExps {
        length: 0,
        mass: 0,
        time: 0,
        electric_current: 0,
        temperature: 0,
        amount_of_substance: 0,
        luminous_intensity: 0,
    }
}

/// Component-wise sum of two dimension vectors: the dimension of a product
/// of quantities.
pub open spec fn dim_combine(a: DimExps, b: DimExps) -> DimExps {
    DimExps {
        length: a.length + b.length,
        mass: a.mass + b.mass,
        time: a.time + b.time,
        electric_current: a.electric_current + b.electric_current,
        temperature: a.temperature + b.temperature,
        amount_of_substance: a.amount_of_substance + b.amount_of_substance,
        luminous_intensity: a.luminous_intensity + b.luminous_intensity,
    }
}

/// Component-wise negation of a dimension vector: the dimension of a
/// reciprocal, and the group inverse.
pub open spec fn dim_negate(a: DimExps) -> DimExps {
    DimExps {
        length: -a.length,
        mass: -a.mass,
        time: -a.time,
        electric_current: -a.electric_current,
        temperature: -a.temperature,
        amount_of_substance: -a.amount_of_substance,
        luminous_intensity: -a.luminous_intensity,
    }
}

/// Whether every exponent of a dimension vector fits in an `i64` field of a
/// [`RuntimeDimension`]. The algebra itself is total; this only marks the
/// machine limit of the executable descriptor.
pub open spec fn dim_fits(a: DimExps) -> bool {
    &&& i64::MIN <= a.length <= i64::MAX
    &&& i64::MIN <= a.mass <= i64::MAX
    &&& i64::MIN <= a.time <= i64::MAX
    &&& i64::MIN <= a.electric_current <= i64::MAX
    &&& i64::MIN <= a.temperature <= i64::MAX
    &&& i64::MIN <= a.amount_of_substance <= i64::MAX
    &&& i64::MIN <= a.luminous_intensity <= i64::MAX
}

/// Combining with the identity changes nothing: `combine(a, identity) == a`.
pub proof fn lemma_dim_combine_identity(a: DimExps)
    ensures
        dim_combine(a, dim_identity()) == a,
        dim_combine(dim_identity(), a) == a,
{
    assert(dim_combine(a, dim_identity()) =~= a);
    assert(dim_combine(dim_identity(), a) =~= a);
}

/// Negation is the group inverse: `combine(a, negate(a)) == identity`.
pub proof fn lemma_dim_combine_inverse(a: DimExps)
    ensures
        dim_combine(a, dim_negate(a)) == dim_identity(),
{
    assert(dim_combine(a, dim_negate(a)) =~= dim_identity());
}

/// Combination is associative:
/// `combine(combine(a, b), c) == combine(a, combine(b, c))`.
pub proof fn lemma_dim_combine_associative(a: DimExps, b: DimExps, c: DimExps)
    ensures
        dim_combine(dim_combine(a, b), c) == dim_combine(a, dim_combine(b, c)),
{
    assert(dim_combine(dim_combine(a, b), c) =~= dim_combine(a, dim_combine(b, c)));
}

/// Combination is commutative: the dimension group is abelian.
pub proof fn lemma_dim_combine_commutative(a: DimExps, b: DimExps)
    ensures
        dim_combine(a, b) == dim_combine(b, a),
{
    assert(dim_combine(a, b) =~= dim_combine(b, a));
}

/// The executable dimension descriptor: seven signed exponents over the SI
/// base dimensions, used for introspection and for the runtime compatibility
/// checks on quantity arithmetic.
#[derive(Debug, Clone, Copy, PartialEq, Eq, Structural)]
#[verifier::ext_equal]
pub struct RuntimeDimension {
    length: i64,
    mass: i64,
    time: i64,
    electric_current: i64,
    temperature: i64,
    amount_of_substance: i64,
    luminous_intensity: i64,
}

impl View for RuntimeDimension {
    type V = DimExps;

    closed spec fn view(&self) -> DimExps {
        DimExps {
            length: self.length as int,
            mass: self.mass as int,
            time: self.time as int,
            electric_current: self.electric_current as int,
            temperature: self.temperature as int,
            amount_of_substance: self.amount_of_substance as int,
            luminous_intensity: self.luminous_intensity as int,
        }
    }
}

impl RuntimeDimension {
    /// Builds a [`RuntimeDimension`] from its seven exponents.
    pub fn new(
        length: i64,
        mass: i64,
        time: i64,
        electric_current: i64,
        temperature: i64,
        amount_of_substance: i64,
        luminous_intensity: i64,
    ) -> (d: Self)
        ensures
            d@ == (DimExps {
                length: length as int,
                mass: mass as int,
                time: time as int,
                electric_current: electric_current as int,
                temperature: temperature as int,
                amount_of_substance: amount_of_substance as int,
                luminous_intensity: luminous_intensity as int,
            }),
    {
        Self {
            length,
            mass,
            time,
            electric_current,
            temperature,
            amount_of_substance,
            luminous_intensity,
        }
    }

    /// The dimensionless descriptor, with every exponent zero.
    pub fn identity() -> (d: Self)
        ensures
            d@ == dim_identity(),
    {
        Self::new(0, 0, 0, 0, 0, 0, 0)
    }

    /// Component-wise sum of two descriptors: the dimension of a product.
    pub fn combine(&self, other: &Self) -> (d: Self)
        requires
            dim_fits(dim_combine(self@, other@)),
        ensures
            d@ == dim_combine(self@, other@),
    {
        Self {
            length: self.length + other.length,
            mass: self.mass + other.mass,
            time: self.time + other.time,
            electric_current: self.electric_current + other.electric_current,
            temperature: self.temperature + other.temperature,
            amount_of_substance: self.amount_of_substance + other.amount_of_substance,
            luminous_intensity: self.luminous_intensity + other.luminous_intensity,
        }
    }

    /// Component-wise difference: the dimension of a quotient.
    pub fn difference(&self, other: &Self) -> (d: Self)
        requires
            dim_fits(dim_combine(self@, dim_negate(other@))),
        ensures
            d@ == dim_combine(self@, dim_negate(other@)),
    {
        Self {
            length: self.length - other.length,
            mass: self.mass - other.mass,
            time: self.time - other.time,
            electric_current: self.electric_current - other.electric_current,
            temperature: self.temperature - other.temperature,
            amount_of_substance: self.amount_of_substance - other.amount_of_substance,
            luminous_intensity: self.luminous_intensity - other.luminous_intensity,
        }
    }

    /// Component-wise negation: the dimension of a reciprocal.
    pub fn negate(&self) -> (d: Self)
        requires
            dim_fits(dim_negate(self@)),
        ensures
            d@ == dim_negate(self@),
    {
        Self {
            length: -self.length,
            mass: -self.mass,
            time: -self.time,
            electric_current: -self.electric_current,
            temperature: -self.temperature,
            amount_of_substance: -self.amount_of_substance,
            luminous_intensity: -self.luminous_intensity,
        }
    }

    /// Tests whether two descriptors hold the same seven exponents.
    pub fn same_dimension_as(&self, other: &Self) -> (b: bool)
        ensures
            b <==> self@ == other@,
    {
        let b = *self == *other;
        proof {
            if self@ == other@ {
                assert(*self =~= *other);
            }
        }
        b
    }

    /// The length exponent.
    pub fn length(&self) -> (e: i64)
        ensures
            e as int == self@.length,
    {
        self.length
    }

    /// The mass exponent.
    pub fn mass(&self) -> (e: i64)
        ensures
            e as int == self@.mass,
    {
        self.mass
    }

    /// The time exponent.
    pub fn time(&self) -> (e: i64)
        ensures
            e as int == self@.time,
    {
        self.time
    }

    /// The electric current exponent.
    pub fn electric_current(&self) -> (e: i64)
        ensures
            e as int == self@.electric_current,
    {
        self.electric_current
    }

    /// The thermodynamic temperature exponent.
    pub fn temperature(&self) -> (e: i64)
        ensures
            e as int == self@.temperature,
    {
        self.temperature
    }

    /// The amount of substance exponent.
    pub fn amount_of_substance(&self) -> (e: i64)
        ensures
            e as int == self@.amount_of_substance,
    {
        self.amount_of_substance
    }

    /// The luminous intensity exponent.
    pub fn luminous_intensity(&self) -> (e: i64)
        ensures
            e as int == self@.luminous_intensity,
    {
        self.luminous_intensity
    }
}

impl Default for RuntimeDimension {
    /// The default descriptor is the dimensionless identity.
    fn default() -> (d: Self)
        ensures
            d@ == dim_identity(),
    {
        Self::identity()
    }
}

/// A statically known dimension: a marker type that resolves to its seven
/// exponents.
///
/// Implementors fix one point of the dimension algebra at the type level and
/// materialize it as a [`RuntimeDimension`] for introspection.
pub trait Dimension {
    /// The seven exponents of this dimension.
    spec fn spec_exponents() -> DimExps;

    /// Returns the [`RuntimeDimension`] corresponding to this dimension.
    fn get_runtime_dim() -> (d: RuntimeDimension)
        ensures
            d@ == Self::spec_exponents(),
    ;
}

/// The dimensionless dimension: every exponent is zero.
pub struct Dimensionless;

impl Dimension for Dimensionless {
    open spec fn spec_exponents() -> DimExps {
        dim_identity()
    }

    fn get_runtime_dim() -> (d: RuntimeDimension) {
        RuntimeDimension::new(0, 0, 0, 0, 0, 0, 0)
    }
}

/// The SI base dimension of length.
pub struct Length;

impl Dimension for Length {
    open spec fn spec_exponents() -> DimExps {
        DimExps { length: 1, ..dim_identity() }
    }

    fn get_runtime_dim() -> (d: RuntimeDimension) {
        RuntimeDimension::new(1, 0, 0, 0, 0, 0, 0)
    }
}

/// The SI base dimension of mass.
pub struct Mass;

impl Dimension for Mass {
    open spec fn spec_exponents() -> DimExps {
        DimExps { mass: 1, ..dim_identity() }
    }

    fn get_runtime_dim() -> (d: RuntimeDimension) {
        RuntimeDimension::new(0, 1, 0, 0, 0, 0, 0)
    }
}

/// The SI base dimension of time.
pub struct Time;

impl Dimension for Time {
    open spec fn spec_exponents() -> DimExps {
        DimExps { time: 1, ..dim_identity() }
    }

    fn get_runtime_dim() -> (d: RuntimeDimension) {
        RuntimeDimension::new(0, 0, 1, 0, 0, 0, 0)
    }
}

/// The SI base dimension of electric current.
pub struct ElectricCurrent;

impl Dimension for ElectricCurrent {
    open spec fn spec_exponents() -> DimExps {
        DimExps { electric_current: 1, ..dim_identity() }
    }

    fn get_runtime_dim() -> (d: RuntimeDimension) {
        RuntimeDimension::new(0, 0, 0, 1, 0, 0, 0)
    }
}

/// The SI base dimension of thermodynamic temperature.
pub struct Temperature;

impl Dimension for Temperature {
    open spec fn spec_exponents() -> DimExps {
        DimExps { temperature: 1, ..dim_identity() }
    }

    fn get_runtime_dim() -> (d: RuntimeDimension) {
        RuntimeDimension::new(0, 0, 0, 0, 1, 0, 0)
    }
}

/// The SI base dimension of amount of substance.
pub struct AmountOfSubstance;

impl Dimension for AmountOfSubstance {
    open spec fn spec_exponents() -> DimExps {
        DimExps { amount_of_substance: 1, ..dim_identity() }
    }

    fn get_runtime_dim() -> (d: RuntimeDimension) {
        RuntimeDimension::new(0, 0, 0, 0, 0, 1, 0)
    }
}

/// The SI base dimension of luminous intensity.
pub struct LuminousIntensity;

impl Dimension for LuminousIntensity {
    open spec fn spec_exponents() -> DimExps {
        DimExps { luminous_intensity: 1, ..dim_identity() }
    }

    fn get_runtime_dim() -> (d: RuntimeDimension) {
        RuntimeDimension::new(0, 0, 0, 0, 0, 0, 1)
    }
}

} // verus!
