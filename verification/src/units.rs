//! The boundary to the dimensional-analysis engine.
//!
//! Quantities, units and GPS times are values of the `astronomy` crate. This
//! module gives each of them a mathematical model and wraps every call that
//! the rest of the library makes into that crate, into `ndarray` or into
//! `rust_decimal`. The contracts of the wrappers are taken on trust from the
//! sources of those crates; everything built on top of them is proved.
//!
//! A real number is modelled by the 64 bits of its IEEE 754 binary64
//! encoding, held in a `u64`.

use astronomy::time::Time;
use astronomy::units::{Quantity, QuantityError, Unit, UnitProduct, HERTZ, SECOND};
use ndarray::Array1;
use rust_decimal::prelude::FromPrimitive;
use rust_decimal::Decimal;
use vstd::prelude::*;

verus! {

/// `astronomy::units::Quantity`: an array of real values with a unit.
#[verifier::external_type_specification]
#[verifier::external_body]
pub struct ExQuantity(astronomy::units::Quantity);

/// `astronomy::units::Unit`: a name, a scale factor and dimension exponents.
#[verifier::external_type_specification]
#[verifier::external_body]
pub struct ExUnit(astronomy::units::Unit);

/// `astronomy::time::Time`: a GPS time, held as a decimal count of seconds.
#[verifier::external_type_specification]
#[verifier::external_body]
pub struct ExTime(astronomy::time::Time);

/// `astronomy::units::QuantityError`: the error of the units crate. The
/// library reads nothing from it and reports errors of its own.
#[verifier::external_type_specification]
#[verifier::external_body]
pub struct ExQuantityError(astronomy::units::QuantityError);

/// What a unit is made of: its name, the bits of its scale factor relative
/// to SI, and its seven dimension exponents in the order length, mass, time,
/// electric current, temperature, amount of substance, luminous intensity.
pub struct UnitModel {
    pub name: Seq<char>,
    pub scale: u64,
    pub dims: Seq<int>,
}

/// The bits of the real number one.
pub const ONE_BITS: u64 = 0x3FF0_0000_0000_0000;

/// The bits of the real number zero, with the positive sign.
pub const ZERO_BITS: u64 = 0;

/// The bits encode `+0` or `-0`.
pub open spec fn is_zero(bits: u64) -> bool {
    bits == 0 || bits == 0x8000_0000_0000_0000
}

/// The bits encode no number at all (a NaN of either sign).
pub open spec fn is_nan(bits: u64) -> bool {
    (0x7FF0_0000_0000_0000 < bits && bits <= 0x7FFF_FFFF_FFFF_FFFF) || 0xFFF0_0000_0000_0000
        < bits
}

/// Two encoded reals compare equal: neither is a NaN, and they are the same
/// bits or both a zero.
pub open spec fn real_eq(a: u64, b: u64) -> bool {
    !is_nan(a) && !is_nan(b) && (a == b || (is_zero(a) && is_zero(b)))
}

/// Two units are the same unit: same name, equal scale, same dimensions.
pub open spec fn identical_units(a: UnitModel, b: UnitModel) -> bool {
    a.name == b.name && real_eq(a.scale, b.scale) && a.dims == b.dims
}

/// Some value of the sequence is a zero.
pub open spec fn has_zero(values: Seq<u64>) -> bool {
    exists|i: int| 0 <= i < values.len() && is_zero(#[trigger] values[i])
}

/// Two arrays of these lengths can be combined element by element: the
/// lengths agree, or one of the arrays has a single value that is repeated.
pub open spec fn broadcastable(n: nat, m: nat) -> bool {
    n == m || n == 1 || m == 1
}

/// The length of the element-wise combination of two arrays.
pub open spec fn broadcast_len(n: nat, m: nat) -> nat {
    if n == 1 {
        m
    } else {
        n
    }
}

/// Element-wise sums of two exponent vectors.
pub open spec fn exponent_sums(a: Seq<int>, b: Seq<int>) -> Seq<int> {
    Seq::new(a.len(), |i: int| a[i] + b[i])
}

/// Element-wise differences of two exponent vectors.
pub open spec fn exponent_differences(a: Seq<int>, b: Seq<int>) -> Seq<int> {
    Seq::new(a.len(), |i: int| a[i] - b[i])
}

/// Every exponent of `d` can be negated within 32 bits, and every exponent of
/// `a - d` fits in 32 bits.
pub open spec fn exponents_subtractable(a: Seq<int>, d: Seq<int>) -> bool {
    forall|i: int|
        0 <= i < a.len() && i < d.len() ==> -0x8000_0000 < #[trigger] d[i] && -0x8000_0000 <= a[i]
            - d[i] <= 0x7FFF_FFFF
}

/// Every exponent of `a + b` fits in 32 bits.
pub open spec fn exponents_addable(a: Seq<int>, b: Seq<int>) -> bool {
    forall|i: int|
        0 <= i < a.len() && i < b.len() ==> -0x8000_0000 <= #[trigger] a[i] + b[i] <= 0x7FFF_FFFF
}

/// The unit without a dimension: the empty name, scale one, all exponents
/// zero.
pub open spec fn dimensionless_model() -> UnitModel {
    UnitModel { name: Seq::empty(), scale: ONE_BITS, dims: seq![0int, 0, 0, 0, 0, 0, 0] }
}

/// The second: named `s`, scale one, time to the first power.
pub open spec fn second_model() -> UnitModel {
    UnitModel { name: seq!['s'], scale: ONE_BITS, dims: seq![0int, 0, 1, 0, 0, 0, 0] }
}

/// The hertz: named `Hz`, scale one, time to the power minus one.
pub open spec fn hertz_model() -> UnitModel {
    UnitModel { name: seq!['H', 'z'], scale: ONE_BITS, dims: seq![0int, 0, -1, 0, 0, 0, 0] }
}

/// The model of a unit.
pub uninterp spec fn unit_model(u: Unit) -> UnitModel;

/// The bits of the values that a quantity holds, in order.
pub uninterp spec fn quantity_values(q: Quantity) -> Seq<u64>;

/// The model of the unit that a quantity carries.
pub uninterp spec fn quantity_unit(q: Quantity) -> UnitModel;

/// The values that `Quantity::to` computes from values in a unit of scale
/// `from_scale` for a unit of scale `to_scale`.
pub uninterp spec fn converted_values(values: Seq<u64>, from_scale: u64, to_scale: u64) -> Seq<u64>;

/// Element-wise sum of two arrays, as `ndarray` adds them.
pub uninterp spec fn elementwise_sum(a: Seq<u64>, b: Seq<u64>) -> Seq<u64>;

/// Element-wise difference of two arrays, as `ndarray` subtracts them.
pub uninterp spec fn elementwise_difference(a: Seq<u64>, b: Seq<u64>) -> Seq<u64>;

/// Element-wise product of two arrays, as `ndarray` multiplies them.
pub uninterp spec fn elementwise_product(a: Seq<u64>, b: Seq<u64>) -> Seq<u64>;

/// Element-wise quotient of two arrays, as `ndarray` divides them.
pub uninterp spec fn elementwise_quotient(a: Seq<u64>, b: Seq<u64>) -> Seq<u64>;

/// The bits of the product of two scale factors.
pub uninterp spec fn product_scale(a: u64, b: u64) -> u64;

/// The bits of the quotient of two scale factors.
pub uninterp spec fn quotient_scale(a: u64, b: u64) -> u64;

/// Every value of an array multiplied by one factor.
pub uninterp spec fn values_scaled(values: Seq<u64>, factor: u64) -> Seq<u64>;

/// One offset added to every value of an array.
pub uninterp spec fn values_shifted(values: Seq<u64>, offset: u64) -> Seq<u64>;

/// The bits of the real number nearest to a sample position.
pub uninterp spec fn index_bits(i: usize) -> u64;

/// A real number as `Display` writes it.
pub uninterp spec fn real_text(bits: u64) -> Seq<char>;

/// The decimal number `mantissa * 10^-scale`, as a GPS time holds its count
/// of seconds.
pub struct DecimalModel {
    pub mantissa: int,
    pub scale: nat,
}

/// The decimal count of GPS seconds that a time holds.
pub uninterp spec fn time_model(t: Time) -> DecimalModel;

/// The real number that `Decimal::to_f64` gives for a decimal number.
pub uninterp spec fn real_of_decimal(d: DecimalModel) -> u64;

/// The decimal number that `Decimal::from_f64` gives for a real number; none
/// for a NaN, an infinity or a number too large.
pub uninterp spec fn decimal_of_real(bits: u64) -> Option<DecimalModel>;

/// The length of the value array of a quantity (`ndarray`'s `len`).
#[verifier::external_body]
pub(crate) fn quantity_len(q: &Quantity) -> (n: usize)
    ensures
        n == quantity_values(*q).len(),
{
    q.value.len()
}

/// The unit that a quantity carries (its public field `unit`).
#[verifier::external_body]
pub(crate) fn unit_of(q: &Quantity) -> (u: &Unit)
    ensures
        unit_model(*u) == quantity_unit(*q),
{
    &q.unit
}

/// The name of a unit as an owned string (`to_string` on the public field
/// `name`).
#[verifier::external_body]
pub(crate) fn unit_name(u: &Unit) -> (s: String)
    ensures
        s@ == unit_model(*u).name,
{
    u.name.to_string()
}

/// `Unit::is_equivalent`: the two units have the same dimension exponents.
#[verifier::external_body]
pub(crate) fn same_dimensions(a: &Unit, b: &Unit) -> (r: bool)
    ensures
        r == (unit_model(*a).dims == unit_model(*b).dims),
{
    a.is_equivalent(b)
}

/// `Quantity::clone`: the copy is the same quantity.
pub assume_specification[ <Quantity as Clone>::clone ](q: &Quantity) -> (r: Quantity)
    ensures
        r == *q,
;

/// `Unit::clone`: the copy is the same unit.
pub assume_specification[ <Unit as Clone>::clone ](u: &Unit) -> (r: Unit)
    ensures
        r == *u,
;

/// `Time::clone`: the copy is the same time.
pub assume_specification[ <Time as Clone>::clone ](t: &Time) -> (r: Time)
    ensures
        r == *t,
;

/// `Quantity::new` on the values of `q` and another unit: the values stay,
/// the unit is the one given.
#[verifier::external_body]
pub(crate) fn relabelled(q: Quantity, unit: Unit) -> (r: Quantity)
    ensures
        quantity_values(r) == quantity_values(q),
        quantity_unit(r) == unit_model(unit),
{
    Quantity::new(q.value, unit)
}

/// `Unit::new` with the empty name, scale one and `UnitProduct::zero()`.
#[verifier::external_body]
pub(crate) fn dimensionless() -> (u: Unit)
    ensures
        unit_model(u) == dimensionless_model(),
{
    Unit::new("", 1u8.into(), UnitProduct::zero())
}

/// The constant `SECOND` of the units crate.
#[verifier::external_body]
pub(crate) fn second() -> (u: Unit)
    ensures
        unit_model(u) == second_model(),
{
    SECOND
}

/// The constant `HERTZ` of the units crate.
#[verifier::external_body]
pub(crate) fn hertz() -> (u: Unit)
    ensures
        unit_model(u) == hertz_model(),
{
    HERTZ
}

/// `Quantity::to`: succeeds exactly when the dimensions of the two units
/// agree; the result then has as many values as `q`, rescaled, and carries
/// the target unit.
#[verifier::external_body]
pub(crate) fn quantity_to(q: &Quantity, target: &Unit) -> (r: Result<Quantity, QuantityError>)
    ensures
        r.is_ok() <==> quantity_unit(*q).dims == unit_model(*target).dims,
        r matches Ok(c) ==> {
            &&& quantity_values(c) == converted_values(
                quantity_values(*q),
                quantity_unit(*q).scale,
                unit_model(*target).scale,
            )
            &&& quantity_values(c).len() == quantity_values(*q).len()
            &&& quantity_unit(c) == unit_model(*target)
        },
{
    q.to(target)
}

/// `Quantity + Quantity`: succeeds exactly when the two units are identical;
/// the result then holds the element-wise sums and carries the unit of the
/// left operand. The arrays must be broadcastable where the units agree,
/// since `ndarray` panics on two arrays that are not.
#[verifier::external_body]
pub(crate) fn quantity_add(a: Quantity, b: Quantity) -> (r: Result<Quantity, QuantityError>)
    requires
        identical_units(quantity_unit(a), quantity_unit(b)) ==> broadcastable(
            quantity_values(a).len(),
            quantity_values(b).len(),
        ),
    ensures
        r.is_ok() <==> identical_units(quantity_unit(a), quantity_unit(b)),
        r matches Ok(s) ==> {
            &&& quantity_values(s) == elementwise_sum(quantity_values(a), quantity_values(b))
            &&& quantity_values(s).len() == broadcast_len(
                quantity_values(a).len(),
                quantity_values(b).len(),
            )
            &&& quantity_unit(s) == quantity_unit(a)
        },
{
    a + b
}

/// `Quantity - Quantity`: as the sum, with element-wise differences.
#[verifier::external_body]
pub(crate) fn quantity_sub(a: Quantity, b: Quantity) -> (r: Result<Quantity, QuantityError>)
    requires
        identical_units(quantity_unit(a), quantity_unit(b)) ==> broadcastable(
            quantity_values(a).len(),
            quantity_values(b).len(),
        ),
    ensures
        r.is_ok() <==> identical_units(quantity_unit(a), quantity_unit(b)),
        r matches Ok(s) ==> {
            &&& quantity_values(s) == elementwise_difference(
                quantity_values(a),
                quantity_values(b),
            )
            &&& quantity_values(s).len() == broadcast_len(
                quantity_values(a).len(),
                quantity_values(b).len(),
            )
            &&& quantity_unit(s) == quantity_unit(a)
        },
{
    a - b
}

/// `Quantity * Quantity`: never fails; the result holds the element-wise
/// products, and its unit has the two names joined by `*`, the product of the
/// scales and the sums of the exponents. The arrays must be broadcastable and
/// the exponent sums must fit, since the crates panic otherwise.
#[verifier::external_body]
pub(crate) fn quantity_mul(a: Quantity, b: Quantity) -> (p: Quantity)
    requires
        broadcastable(quantity_values(a).len(), quantity_values(b).len()),
        exponents_addable(quantity_unit(a).dims, quantity_unit(b).dims),
    ensures
        quantity_values(p) == elementwise_product(quantity_values(a), quantity_values(b)),
        quantity_values(p).len() == broadcast_len(
            quantity_values(a).len(),
            quantity_values(b).len(),
        ),
        quantity_unit(p) == (UnitModel {
            name: quantity_unit(a).name + seq!['*'] + quantity_unit(b).name,
            scale: product_scale(quantity_unit(a).scale, quantity_unit(b).scale),
            dims: exponent_sums(quantity_unit(a).dims, quantity_unit(b).dims),
        }),
{
    a * b
}

/// `Quantity / Quantity`: fails exactly when some value of the divisor is a
/// zero; otherwise the result holds the element-wise quotients, and its unit
/// has the two names joined by `/`, the quotient of the scales and the
/// differences of the exponents. Where no divisor value is zero the arrays
/// must be broadcastable and the exponent differences must fit.
#[verifier::external_body]
pub(crate) fn quantity_div(a: Quantity, b: Quantity) -> (r: Result<Quantity, QuantityError>)
    requires
        !has_zero(quantity_values(b)) ==> broadcastable(
            quantity_values(a).len(),
            quantity_values(b).len(),
        ) && exponents_subtractable(quantity_unit(a).dims, quantity_unit(b).dims),
    ensures
        r.is_ok() <==> !has_zero(quantity_values(b)),
        r matches Ok(q) ==> {
            &&& quantity_values(q) == elementwise_quotient(quantity_values(a), quantity_values(b))
            &&& quantity_values(q).len() == broadcast_len(
                quantity_values(a).len(),
                quantity_values(b).len(),
            )
            &&& quantity_unit(q) == (UnitModel {
                name: quantity_unit(a).name + seq!['/'] + quantity_unit(b).name,
                scale: quotient_scale(quantity_unit(a).scale, quantity_unit(b).scale),
                dims: exponent_differences(quantity_unit(a).dims, quantity_unit(b).dims),
            })
        },
{
    a / b
}

/// `Quantity::new` on sample positions turned into reals, one for one.
#[verifier::external_body]
pub(crate) fn positions_as_quantity(positions: &Vec<usize>, unit: Unit) -> (q: Quantity)
    ensures
        quantity_values(q) == Seq::new(positions@.len(), |k: int| index_bits(positions@[k])),
        quantity_unit(q) == unit_model(unit),
{
    Quantity::new(positions.iter().map(|i| *i as _).collect(), unit)
}

/// `ndarray`'s product of an array and a scalar, the scalar being the single
/// value of `factor`; the unit of `q` is kept.
#[verifier::external_body]
pub(crate) fn scaled_by(q: &Quantity, factor: &Quantity) -> (r: Quantity)
    requires
        quantity_values(*factor).len() == 1,
    ensures
        quantity_values(r) == values_scaled(quantity_values(*q), quantity_values(*factor)[0]),
        quantity_values(r).len() == quantity_values(*q).len(),
        quantity_unit(r) == quantity_unit(*q),
{
    Quantity::new(&q.value * factor.value[0], q.unit.clone())
}

/// `ndarray`'s sum of an array and a scalar, the scalar being the single
/// value of `offset`; the unit of `q` is kept.
#[verifier::external_body]
pub(crate) fn shifted_by(q: &Quantity, offset: &Quantity) -> (r: Quantity)
    requires
        quantity_values(*offset).len() == 1,
    ensures
        quantity_values(r) == values_shifted(quantity_values(*q), quantity_values(*offset)[0]),
        quantity_values(r).len() == quantity_values(*q).len(),
        quantity_unit(r) == quantity_unit(*q),
{
    Quantity::new(&q.value + offset.value[0], q.unit.clone())
}

/// The value at one position as a quantity of its own (`ndarray`'s indexing
/// and `arr1`), in the unit of `q`.
#[verifier::external_body]
pub(crate) fn element_at(q: &Quantity, i: usize) -> (r: Quantity)
    requires
        i < quantity_values(*q).len(),
    ensures
        quantity_values(r) == seq![quantity_values(*q)[i as int]],
        quantity_unit(r) == quantity_unit(*q),
{
    Quantity::new(ndarray::arr1(&[q.value[i]]), q.unit.clone())
}

/// The value at one position as text (`Display` of the real number).
#[verifier::external_body]
pub(crate) fn value_text(q: &Quantity, i: usize) -> (s: String)
    requires
        i < quantity_values(*q).len(),
    ensures
        s@ == real_text(quantity_values(*q)[i as int]),
{
    format!("{}", q.value[i])
}

/// `ndarray`'s element-wise difference of the two value arrays, in the unit
/// of `a`, whatever the unit of `b`.
#[verifier::external_body]
pub(crate) fn values_difference(a: &Quantity, b: &Quantity) -> (r: Quantity)
    requires
        broadcastable(quantity_values(*a).len(), quantity_values(*b).len()),
    ensures
        quantity_values(r) == elementwise_difference(quantity_values(*a), quantity_values(*b)),
        quantity_values(r).len() == broadcast_len(
            quantity_values(*a).len(),
            quantity_values(*b).len(),
        ),
        quantity_unit(r) == quantity_unit(*a),
{
    Quantity::new(&a.value - &b.value, a.unit.clone())
}

/// One zero in the given unit (`ndarray`'s `zeros`).
#[verifier::external_body]
pub(crate) fn zero_in(unit: Unit) -> (r: Quantity)
    ensures
        quantity_values(r) == seq![ZERO_BITS],
        quantity_unit(r) == unit_model(unit),
{
    Quantity::new(Array1::zeros(1), unit)
}

/// One one in the given unit (`ndarray`'s `ones`).
#[verifier::external_body]
pub(crate) fn one_in(unit: Unit) -> (r: Quantity)
    ensures
        quantity_values(r) == seq![ONE_BITS],
        quantity_unit(r) == unit_model(unit),
{
    Quantity::new(Array1::ones(1), unit)
}

/// `Time::as_gps_seconds_f64`, with the seconds held as a one-valued
/// quantity in the unit `SECOND`.
#[verifier::external_body]
pub(crate) fn time_as_quantity(t: &Time) -> (q: Quantity)
    ensures
        quantity_values(q) == seq![real_of_decimal(time_model(*t))],
        quantity_unit(q) == second_model(),
{
    Quantity::new(ndarray::arr1(&[t.as_gps_seconds_f64()]), SECOND)
}

/// `Decimal::from_f64` on the single value of `q`: whether a decimal number,
/// and so a time, exists for that count of seconds.
#[verifier::external_body]
pub(crate) fn has_time(q: &Quantity) -> (r: bool)
    requires
        quantity_values(*q).len() == 1,
    ensures
        r == decimal_of_real(quantity_values(*q)[0]).is_some(),
{
    Decimal::from_f64(q.value[0]).is_some()
}

/// `Time::from_gps_seconds` on the single value of `q`. It panics where no
/// decimal number holds the value, so such a value is left out.
#[verifier::external_body]
pub(crate) fn time_from_quantity(q: &Quantity) -> (t: Time)
    requires
        quantity_values(*q).len() == 1,
        decimal_of_real(quantity_values(*q)[0]).is_some(),
    ensures
        decimal_of_real(quantity_values(*q)[0]) == Some(time_model(t)),
{
    Time::from_gps_seconds(q.value[0])
}

} // verus!
