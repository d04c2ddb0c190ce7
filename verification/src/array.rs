//! A named numeric array with a unit.

use crate::channel::{borrow_optional_text, clone_optional_text, Channel};
use crate::error::DataError;
use crate::units::{
    broadcast_len, broadcastable, converted_values, dimensionless, dimensionless_model,
    elementwise_difference, elementwise_product, elementwise_quotient, elementwise_sum,
    exponent_differences, exponent_sums, exponents_addable, exponents_subtractable, has_zero,
    identical_units, product_scale, quantity_add, quantity_div, quantity_mul, quantity_sub,
    quantity_to, quantity_unit, quantity_values, quotient_scale, relabelled, unit_model,
    unit_name, unit_of, UnitModel,
};
use astronomy::time::Time;
use astronomy::units::{Quantity, Unit};
use std::ops::{Add, Div, Mul, Sub};
use vstd::prelude::*;
use vstd::std_specs::ops::{AddSpecImpl, DivSpecImpl, MulSpecImpl, SubSpecImpl};

verus! {

/// Numbers in a unit, with a name, an epoch and a channel beside them.
#[derive(Debug, Clone, PartialEq)]
pub struct GWArray {
    /// The numbers and their unit.
    pub quantity: Quantity,
    /// The name of the data.
    pub name: Option<String>,
    /// The GPS time at which the data start.
    pub epoch: Option<Time>,
    /// The channel that the data were read from.
    pub channel: Option<Channel>,
}

/// A copy of an optional channel.
pub fn clone_optional_channel(c: &Option<Channel>) -> (r: Option<Channel>)
    ensures
        r == *c,
{
    match c {
        Some(x) => Some(x.duplicate()),
        None => None,
    }
}

impl GWArray {
    /// The bits of the numbers, in order.
    pub open spec fn values(self) -> Seq<u64> {
        quantity_values(self.quantity)
    }

    /// The model of the unit.
    pub open spec fn unit_model(self) -> UnitModel {
        quantity_unit(self.quantity)
    }

    /// `self` has the name, epoch and channel of `source`.
    pub open spec fn labelled_as(self, source: GWArray) -> bool {
        self.name == source.name && self.epoch == source.epoch && self.channel == source.channel
    }

    /// The two arrays can be combined element by element.
    pub open spec fn fits(self, rhs: GWArray) -> bool {
        broadcastable(self.values().len(), rhs.values().len())
    }

    /// What a sum or a difference of `self` and `rhs` has in common: it
    /// exists only for identical units, carries the unit and labels of
    /// `self`, and has the broadcast length.
    pub open spec fn combines_to(self, rhs: GWArray, out: GWArray) -> bool {
        &&& out.values().len() == broadcast_len(self.values().len(), rhs.values().len())
        &&& out.unit_model() == self.unit_model()
        &&& out.labelled_as(self)
    }

    /// `out` is `self` converted to the unit `target`: the numbers rescaled,
    /// as many as before, in the target unit, with the labels of `self`.
    pub open spec fn converts_to(self, target: UnitModel, out: GWArray) -> bool {
        &&& out.values() == converted_values(
            self.values(),
            self.unit_model().scale,
            target.scale,
        )
        &&& out.values().len() == self.values().len()
        &&& out.unit_model() == target
        &&& out.labelled_as(self)
    }

    /// Makes an array from numbers and labels. The numbers are those of
    /// `values`, whose own unit is not read; the unit is `unit`, or the
    /// dimensionless unit where none is given.
    pub fn new(
        values: Quantity,
        unit: Option<Unit>,
        name: Option<String>,
        epoch: Option<Time>,
        channel: Option<Channel>,
    ) -> (a: GWArray)
        ensures
            a.values() == quantity_values(values),
            a.unit_model() == match unit {
                Some(u) => unit_model(u),
                None => dimensionless_model(),
            },
            a.name == name,
            a.epoch == epoch,
            a.channel == channel,
    {
        let actual_unit = match unit {
            Some(u) => u,
            None => dimensionless(),
        };
        GWArray { quantity: relabelled(values, actual_unit), name, epoch, channel }
    }

    /// The numbers, with their unit.
    pub fn value(&self) -> (q: &Quantity)
        ensures
            *q == self.quantity,
    {
        &self.quantity
    }

    /// The unit of the numbers.
    pub fn unit(&self) -> (u: &Unit)
        ensures
            unit_model(*u) == self.unit_model(),
    {
        unit_of(&self.quantity)
    }

    /// The name, where there is one.
    pub fn get_name(&self) -> (r: Option<&str>)
        ensures
            r.is_some() == self.name.is_some(),
            r matches Some(t) ==> self.name matches Some(u) && t@ == u@,
    {
        borrow_optional_text(&self.name)
    }

    /// The epoch, where there is one.
    pub fn get_epoch(&self) -> (r: Option<Time>)
        ensures
            r == self.epoch,
    {
        self.epoch
    }

    /// The channel, where there is one.
    pub fn get_channel(&self) -> (r: Option<&Channel>)
        ensures
            match r {
                Some(c) => self.channel == Some(*c),
                None => self.channel.is_none(),
            },
    {
        self.channel.as_ref()
    }

    /// A copy of the array.
    pub fn duplicate(&self) -> (a: GWArray)
        ensures
            a == *self,
    {
        GWArray {
            quantity: self.quantity.clone(),
            name: clone_optional_text(&self.name),
            epoch: self.epoch,
            channel: clone_optional_channel(&self.channel),
        }
    }

    /// The same data in another unit. This succeeds exactly when the two
    /// units have the same dimensions; the labels are kept.
    pub fn to(&self, target_unit: &Unit) -> (r: Result<GWArray, DataError>)
        ensures
            r.is_ok() <==> self.unit_model().dims == unit_model(*target_unit).dims,
            r matches Ok(a) ==> self.converts_to(unit_model(*target_unit), a),
            r matches Err(e) ==> e matches DataError::IncompatibleUnits { from, to }
                && from@ == self.unit_model().name && to@ == unit_model(*target_unit).name,
    {
        match quantity_to(&self.quantity, target_unit) {
            Ok(converted) => Ok(
                GWArray {
                    quantity: converted,
                    name: clone_optional_text(&self.name),
                    epoch: self.epoch,
                    channel: clone_optional_channel(&self.channel),
                },
            ),
            Err(_) => Err(
                DataError::IncompatibleUnits {
                    from: unit_name(unit_of(&self.quantity)),
                    to: unit_name(target_unit),
                },
            ),
        }
    }
}

/// An array converted to another unit and back has the unit, the number of
/// values and the labels that it started with, and the second conversion is
/// owed whenever the first one is.
pub proof fn round_trip_keeps_unit_length_and_labels(
    a: GWArray,
    there: UnitModel,
    converted: GWArray,
    back: GWArray,
)
    requires
        a.unit_model().dims == there.dims,
        a.converts_to(there, converted),
        converted.converts_to(a.unit_model(), back),
    ensures
        converted.unit_model().dims == a.unit_model().dims,
        back.unit_model() == a.unit_model(),
        back.values().len() == a.values().len(),
        back.labelled_as(a),
{
}

impl Add for GWArray {
    type Output = Result<GWArray, DataError>;

    /// The element-wise sum. It exists exactly when the two units are
    /// identical; the unit and the labels are those of the left operand.
    fn add(self, rhs: GWArray) -> (r: Result<GWArray, DataError>)
        ensures
            r.is_ok() <==> identical_units(self.unit_model(), rhs.unit_model()),
            r matches Ok(a) ==> a.values() == elementwise_sum(self.values(), rhs.values())
                && self.combines_to(rhs, a),
            r matches Err(e) ==> e matches DataError::IncompatibleAddition { lhs, rhs: right }
                && lhs@ == self.unit_model().name && right@ == rhs.unit_model().name,
    {
        let left = unit_name(unit_of(&self.quantity));
        let right = unit_name(unit_of(&rhs.quantity));
        match quantity_add(self.quantity, rhs.quantity) {
            Ok(sum) => Ok(
                GWArray { quantity: sum, name: self.name, epoch: self.epoch, channel: self.channel },
            ),
            Err(_) => Err(DataError::IncompatibleAddition { lhs: left, rhs: right }),
        }
    }
}

// The result of an operator holds values of the units crate, which no
// specification function can build. So each operator states its result in its
// own `ensures`; the specification impls below give its precondition only.
impl AddSpecImpl for GWArray {
    open spec fn obeys_add_spec() -> bool {
        false
    }

    open spec fn add_req(self, rhs: GWArray) -> bool {
        identical_units(self.unit_model(), rhs.unit_model()) ==> self.fits(rhs)
    }

    open spec fn add_spec(self, rhs: GWArray) -> Result<GWArray, DataError> {
        arbitrary()
    }
}

impl Sub for GWArray {
    type Output = Result<GWArray, DataError>;

    /// The element-wise difference. It exists exactly when the two units are
    /// identical; the unit and the labels are those of the left operand.
    fn sub(self, rhs: GWArray) -> (r: Result<GWArray, DataError>)
        ensures
            r.is_ok() <==> identical_units(self.unit_model(), rhs.unit_model()),
            r matches Ok(a) ==> a.values() == elementwise_difference(self.values(), rhs.values())
                && self.combines_to(rhs, a),
            r matches Err(e) ==> e matches DataError::IncompatibleSubtraction { lhs, rhs: right }
                && lhs@ == self.unit_model().name && right@ == rhs.unit_model().name,
    {
        let left = unit_name(unit_of(&self.quantity));
        let right = unit_name(unit_of(&rhs.quantity));
        match quantity_sub(self.quantity, rhs.quantity) {
            Ok(difference) => Ok(
                GWArray {
                    quantity: difference,
                    name: self.name,
                    epoch: self.epoch,
                    channel: self.channel,
                },
            ),
            Err(_) => Err(DataError::IncompatibleSubtraction { lhs: left, rhs: right }),
        }
    }
}

impl SubSpecImpl for GWArray {
    open spec fn obeys_sub_spec() -> bool {
        false
    }

    open spec fn sub_req(self, rhs: GWArray) -> bool {
        identical_units(self.unit_model(), rhs.unit_model()) ==> self.fits(rhs)
    }

    open spec fn sub_spec(self, rhs: GWArray) -> Result<GWArray, DataError> {
        arbitrary()
    }
}

impl Mul for GWArray {
    type Output = Result<GWArray, DataError>;

    /// The element-wise product. It always exists; its unit is the product
    /// of the two units and its labels are those of the left operand.
    fn mul(self, rhs: GWArray) -> (r: Result<GWArray, DataError>)
        ensures
            r matches Ok(a) && {
                &&& a.values() == elementwise_product(self.values(), rhs.values())
                &&& a.values().len() == broadcast_len(self.values().len(), rhs.values().len())
                &&& a.unit_model() == (UnitModel {
                    name: self.unit_model().name + seq!['*'] + rhs.unit_model().name,
                    scale: product_scale(self.unit_model().scale, rhs.unit_model().scale),
                    dims: exponent_sums(self.unit_model().dims, rhs.unit_model().dims),
                })
                &&& a.labelled_as(self)
            },
    {
        let product = quantity_mul(self.quantity, rhs.quantity);
        Ok(GWArray { quantity: product, name: self.name, epoch: self.epoch, channel: self.channel })
    }
}

impl MulSpecImpl for GWArray {
    open spec fn obeys_mul_spec() -> bool {
        false
    }

    open spec fn mul_req(self, rhs: GWArray) -> bool {
        self.fits(rhs) && exponents_addable(self.unit_model().dims, rhs.unit_model().dims)
    }

    open spec fn mul_spec(self, rhs: GWArray) -> Result<GWArray, DataError> {
        arbitrary()
    }
}

impl Div for GWArray {
    type Output = Result<GWArray, DataError>;

    /// The element-wise quotient. It exists exactly when no value of the
    /// divisor is a zero; its unit is the quotient of the two units and its
    /// labels are those of the left operand.
    fn div(self, rhs: GWArray) -> (r: Result<GWArray, DataError>)
        ensures
            r.is_ok() <==> !has_zero(rhs.values()),
            r matches Ok(a) ==> {
                &&& a.values() == elementwise_quotient(self.values(), rhs.values())
                &&& a.values().len() == broadcast_len(self.values().len(), rhs.values().len())
                &&& a.unit_model() == (UnitModel {
                    name: self.unit_model().name + seq!['/'] + rhs.unit_model().name,
                    scale: quotient_scale(self.unit_model().scale, rhs.unit_model().scale),
                    dims: exponent_differences(self.unit_model().dims, rhs.unit_model().dims),
                })
                &&& a.labelled_as(self)
            },
            r matches Err(e) ==> e == DataError::DivideByZero,
    {
        match quantity_div(self.quantity, rhs.quantity) {
            Ok(quotient) => Ok(
                GWArray {
                    quantity: quotient,
                    name: self.name,
                    epoch: self.epoch,
                    channel: self.channel,
                },
            ),
            Err(_) => Err(DataError::DivideByZero),
        }
    }
}

impl DivSpecImpl for GWArray {
    open spec fn obeys_div_spec() -> bool {
        false
    }

    open spec fn div_req(self, rhs: GWArray) -> bool {
        !has_zero(rhs.values()) ==> self.fits(rhs) && exponents_subtractable(
            self.unit_model().dims,
            rhs.unit_model().dims,
        )
    }

    open spec fn div_spec(self, rhs: GWArray) -> Result<GWArray, DataError> {
        arbitrary()
    }
}

} // verus!
