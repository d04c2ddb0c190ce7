//! A series: an array of values with a sampling axis beside it.
//!
//! The axis is either given in full, or derived from a start and a step as
//! the arithmetic progression `start + i * step`, or absent. Arithmetic on
//! two series merges their labels and axes, the left operand first.

use crate::array::{clone_optional_channel, GWArray};
use crate::channel::{clone_optional_quantity, clone_optional_text, Channel};
use crate::error::{length_mismatch_message, length_mismatch_text, DataError};
use crate::units::{
    broadcast_len, converted_values, dimensionless_model, elementwise_difference,
    elementwise_product, elementwise_quotient, elementwise_sum, exponent_differences,
    exponent_sums, exponents_addable, exponents_subtractable, has_zero, identical_units,
    index_bits, positions_as_quantity, product_scale, quantity_len, quantity_to, quantity_unit,
    quantity_values, quotient_scale, same_dimensions, scaled_by, shifted_by, unit_model,
    unit_name, unit_of, values_scaled, values_shifted, UnitModel,
};
use astronomy::time::Time;
use astronomy::units::{Quantity, Unit};
use std::ops::{Add, Div, Mul, Sub};
use vstd::pervasive::unreached;
use vstd::prelude::*;
use vstd::std_specs::ops::{AddSpecImpl, DivSpecImpl, MulSpecImpl, SubSpecImpl};
use vstd::string::*;

verus! {

/// The first of two optional values that is present.
pub open spec fn first_present<T>(a: Option<T>, b: Option<T>) -> Option<T> {
    if a.is_some() {
        a
    } else {
        b
    }
}

/// The first of two optional values that is present.
pub fn first_or<T>(a: Option<T>, b: Option<T>) -> (r: Option<T>)
    ensures
        r == first_present(a, b),
{
    match a {
        Some(x) => Some(x),
        None => b,
    }
}

/// The sample positions `0, 1, ..` below `n`, as reals.
pub open spec fn position_values(n: nat) -> Seq<u64> {
    Seq::new(n, |i: int| index_bits(i as usize))
}

/// The arithmetic progression `start + i * step` for the `n` positions
/// `i = 0, 1, ..`: each position is multiplied by the step, then the start is
/// added.
pub open spec fn progression(start: u64, step: u64, n: nat) -> Seq<u64> {
    values_shifted(values_scaled(position_values(n), step), start)
}

/// `q` holds exactly one value.
pub open spec fn is_scalar(q: Quantity) -> bool {
    quantity_values(q).len() == 1
}

/// `axis` is the progression of `n` values that starts at the value of
/// `start` and advances by the value of `step`, the step first converted to
/// the unit of the start; it carries the unit of the start.
pub open spec fn is_derived_axis(axis: Quantity, start: Quantity, step: Quantity, n: nat) -> bool {
    &&& quantity_values(axis) == progression(
        quantity_values(start)[0],
        converted_values(
            quantity_values(step),
            quantity_unit(step).scale,
            quantity_unit(start).scale,
        )[0],
        n,
    )
    &&& quantity_values(axis).len() == n
    &&& quantity_unit(axis) == quantity_unit(start)
}

/// The positions `0, 1, ..` below `n`.
pub fn positions(n: usize) -> (v: Vec<usize>)
    ensures
        v@ == Seq::new(n as nat, |i: int| i as usize),
{
    let mut v: Vec<usize> = Vec::new();
    let mut i: usize = 0;
    while i < n
        invariant
            i <= n,
            v@.len() == i,
            forall|k: int| 0 <= k < i ==> v@[k] == k as usize,
        decreases n - i,
    {
        v.push(i);
        i += 1;
    }
    assert(v@ =~= Seq::new(n as nat, |i: int| i as usize));
    v
}

/// Materialises the axis of `n` samples from a start and a step, both of one
/// value and of the same dimensions.
pub fn derive_axis(start: &Quantity, step: &Quantity, n: usize) -> (axis: Quantity)
    requires
        is_scalar(*start),
        is_scalar(*step),
        quantity_unit(*start).dims == quantity_unit(*step).dims,
    ensures
        is_derived_axis(axis, *start, *step, n as nat),
{
    let unit = unit_of(start);
    let converted = match quantity_to(step, unit) {
        Ok(c) => c,
        Err(_) => unreached(),
    };
    let places = positions(n);
    let ramp = positions_as_quantity(&places, unit.clone());
    assert(quantity_values(ramp) =~= position_values(n as nat));
    let scaled = scaled_by(&ramp, &converted);
    shifted_by(&scaled, start)
}

/// Values with labels and a sampling axis.
#[derive(Debug, Clone, PartialEq)]
pub struct Series {
    array_data: GWArray,
    x0: Option<Quantity>,
    dx: Option<Quantity>,
    xindex: Option<Quantity>,
}

/// The parts of a series, filled in one by one and checked by `build`.
pub struct SeriesBuilder {
    pub value: Option<Quantity>,
    pub unit: Option<Unit>,
    pub name: Option<String>,
    pub epoch: Option<Time>,
    pub channel: Option<Channel>,
    pub x0: Option<Quantity>,
    pub dx: Option<Quantity>,
    pub xindex: Option<Quantity>,
}

impl SeriesBuilder {
    /// The builder with no part filled in.
    pub open spec fn empty() -> SeriesBuilder {
        SeriesBuilder {
            value: None,
            unit: None,
            name: None,
            epoch: None,
            channel: None,
            x0: None,
            dx: None,
            xindex: None,
        }
    }

    /// The number of values given.
    pub open spec fn value_len(self) -> nat {
        quantity_values(self.value->Some_0).len()
    }

    /// No index is given in full, but a start and a step are.
    pub open spec fn derives_axis(self) -> bool {
        self.xindex.is_none() && self.x0.is_some() && self.dx.is_some()
    }

    /// The parts are enough for a series and fit together.
    pub open spec fn is_valid(self) -> bool {
        &&& self.value.is_some()
        &&& self.xindex matches Some(index) ==> quantity_values(index).len() == self.value_len()
        &&& self.derives_axis() ==> {
            &&& is_scalar(self.x0->Some_0)
            &&& is_scalar(self.dx->Some_0)
            &&& quantity_unit(self.x0->Some_0).dims == quantity_unit(self.dx->Some_0).dims
        }
    }

    /// `e` is the error that `build` owes for parts that are not valid: the
    /// first of missing values, an index of the wrong length, a start or step
    /// of more than one value, a start and step of different dimensions.
    pub open spec fn is_refusal(self, e: DataError) -> bool {
        if self.value.is_none() {
            e matches DataError::InvalidQuantity(m) && m@ == "Value is required to build Series"@
        } else if self.xindex.is_some() {
            e matches DataError::MismatchError(m) && m@ == length_mismatch_text(
                quantity_values(self.xindex->Some_0).len(),
                self.value_len(),
            )
        } else if !is_scalar(self.x0->Some_0) || !is_scalar(self.dx->Some_0) {
            e matches DataError::MismatchError(m) && m@
                == "x0 and dx must be single-value quantities"@
        } else {
            e matches DataError::IncompatibleUnits { from, to } && from@ == quantity_unit(
                self.x0->Some_0,
            ).name && to@ == quantity_unit(self.dx->Some_0).name
        }
    }

    /// `s` is the series that valid parts make: the values in the given or
    /// the dimensionless unit, the labels, the start and the step as given,
    /// and as axis the index given in full, else the progression from start
    /// and step, else none.
    pub open spec fn is_built(self, s: Series) -> bool {
        &&& s.array().values() == quantity_values(self.value->Some_0)
        &&& s.array().unit_model() == match self.unit {
            Some(u) => unit_model(u),
            None => dimensionless_model(),
        }
        &&& s.array().name == self.name
        &&& s.array().epoch == self.epoch
        &&& s.array().channel == self.channel
        &&& s.start() == self.x0
        &&& s.step() == self.dx
        &&& if self.xindex.is_some() {
            s.axis() == self.xindex
        } else if self.derives_axis() {
            s.axis() matches Some(axis) && is_derived_axis(
                axis,
                self.x0->Some_0,
                self.dx->Some_0,
                self.value_len(),
            )
        } else {
            s.axis().is_none()
        }
    }

    /// A builder with no part filled in.
    pub fn new() -> (b: SeriesBuilder)
        ensures
            b == SeriesBuilder::empty(),
    {
        SeriesBuilder {
            value: None,
            unit: None,
            name: None,
            epoch: None,
            channel: None,
            x0: None,
            dx: None,
            xindex: None,
        }
    }

    /// Sets the values; the unit of `value` itself is not read.
    pub fn value(self, value: Quantity) -> (b: SeriesBuilder)
        ensures
            b == (SeriesBuilder { value: Some(value), ..self }),
    {
        SeriesBuilder { value: Some(value), ..self }
    }

    /// Sets the unit of the values.
    pub fn unit(self, unit: Unit) -> (b: SeriesBuilder)
        ensures
            b == (SeriesBuilder { unit: Some(unit), ..self }),
    {
        SeriesBuilder { unit: Some(unit), ..self }
    }

    /// Sets the name.
    pub fn name(self, name: String) -> (b: SeriesBuilder)
        ensures
            b == (SeriesBuilder { name: Some(name), ..self }),
    {
        SeriesBuilder { name: Some(name), ..self }
    }

    /// Sets the epoch.
    pub fn epoch(self, epoch: Time) -> (b: SeriesBuilder)
        ensures
            b == (SeriesBuilder { epoch: Some(epoch), ..self }),
    {
        SeriesBuilder { epoch: Some(epoch), ..self }
    }

    /// Sets the channel.
    pub fn channel(self, channel: Channel) -> (b: SeriesBuilder)
        ensures
            b == (SeriesBuilder { channel: Some(channel), ..self }),
    {
        SeriesBuilder { channel: Some(channel), ..self }
    }

    /// Sets the start of the axis.
    pub fn x0(self, x0: Quantity) -> (b: SeriesBuilder)
        ensures
            b == (SeriesBuilder { x0: Some(x0), ..self }),
    {
        SeriesBuilder { x0: Some(x0), ..self }
    }

    /// Sets the step of the axis.
    pub fn dx(self, dx: Quantity) -> (b: SeriesBuilder)
        ensures
            b == (SeriesBuilder { dx: Some(dx), ..self }),
    {
        SeriesBuilder { dx: Some(dx), ..self }
    }

    /// Sets the axis in full.
    pub fn xindex(self, xindex: Quantity) -> (b: SeriesBuilder)
        ensures
            b == (SeriesBuilder { xindex: Some(xindex), ..self }),
    {
        SeriesBuilder { xindex: Some(xindex), ..self }
    }

    /// Checks the parts and makes the series. It succeeds exactly on valid
    /// parts; on others it returns the error that says what is wrong first.
    pub fn build(self) -> (r: Result<Series, DataError>)
        ensures
            r.is_ok() <==> self.is_valid(),
            r matches Ok(s) ==> self.is_built(s) && s.wf(),
            r matches Err(e) ==> self.is_refusal(e),
    {
        let value = match self.value {
            Some(v) => v,
            None => {
                return Err(
                    DataError::InvalidQuantity(
                        String::from_str("Value is required to build Series"),
                    ),
                );
            },
        };
        let data_len = quantity_len(&value);
        let array_data = GWArray::new(value, self.unit, self.name, self.epoch, self.channel);
        let resolved_index = match self.xindex {
            Some(index) => {
                let index_len = quantity_len(&index);
                if index_len != data_len {
                    return Err(
                        DataError::MismatchError(length_mismatch_message(index_len, data_len)),
                    );
                }
                Some(index)
            },
            None => match (&self.x0, &self.dx) {
                (Some(start), Some(step)) => {
                    if quantity_len(start) != 1 || quantity_len(step) != 1 {
                        return Err(
                            DataError::MismatchError(
                                String::from_str("x0 and dx must be single-value quantities"),
                            ),
                        );
                    }
                    if !same_dimensions(unit_of(start), unit_of(step)) {
                        return Err(
                            DataError::IncompatibleUnits {
                                from: unit_name(unit_of(start)),
                                to: unit_name(unit_of(step)),
                            },
                        );
                    }
                    Some(derive_axis(start, step, data_len))
                },
                _ => None,
            },
        };
        Ok(Series { array_data, x0: self.x0, dx: self.dx, xindex: resolved_index })
    }
}

impl Default for SeriesBuilder {
    fn default() -> (b: SeriesBuilder)
        ensures
            b == SeriesBuilder::empty(),
    {
        SeriesBuilder::new()
    }
}

/// A series that `build` made has an axis only of the length of its values.
pub proof fn built_axis_matches_values(parts: SeriesBuilder, s: Series)
    requires
        parts.is_valid(),
        parts.is_built(s),
    ensures
        s.wf(),
{
}

/// A combination takes each label from the left operand where the left
/// operand has it, and from the right operand only where the left has none.
pub proof fn merged_labels_prefer_left(
    lhs: Series,
    rhs: Series,
    values: Seq<u64>,
    unit: UnitModel,
    out: Series,
)
    requires
        lhs.is_merged(rhs, values, unit, out),
    ensures
        lhs.array().name.is_some() ==> out.array().name == lhs.array().name,
        lhs.array().name.is_none() ==> out.array().name == rhs.array().name,
        lhs.array().epoch.is_some() ==> out.array().epoch == lhs.array().epoch,
        lhs.array().epoch.is_none() ==> out.array().epoch == rhs.array().epoch,
        lhs.array().channel.is_some() ==> out.array().channel == lhs.array().channel,
        lhs.array().channel.is_none() ==> out.array().channel == rhs.array().channel,
        lhs.start().is_some() ==> out.start() == lhs.start(),
        lhs.start().is_none() ==> out.start() == rhs.start(),
        lhs.step().is_some() ==> out.step() == lhs.step(),
        lhs.step().is_none() ==> out.step() == rhs.step(),
        out.wf(),
{
}

impl Series {
    /// The values with their labels.
    pub closed spec fn array(self) -> GWArray {
        self.array_data
    }

    /// The start of the axis, as it was given.
    pub closed spec fn start(self) -> Option<Quantity> {
        self.x0
    }

    /// The step of the axis, as it was given.
    pub closed spec fn step(self) -> Option<Quantity> {
        self.dx
    }

    /// The axis, where the series has one.
    pub closed spec fn axis(self) -> Option<Quantity> {
        self.xindex
    }

    /// The axis, where there is one, has one value for each value of the
    /// series.
    pub open spec fn wf(self) -> bool {
        self.axis() matches Some(axis) ==> quantity_values(axis).len()
            == self.array().values().len()
    }

    /// The unit that `get_xunit` reports: that of the axis, else of the
    /// start, else of the step.
    pub open spec fn axis_unit(self) -> Option<UnitModel> {
        if self.axis().is_some() {
            Some(quantity_unit(self.axis()->Some_0))
        } else if self.start().is_some() {
            Some(quantity_unit(self.start()->Some_0))
        } else if self.step().is_some() {
            Some(quantity_unit(self.step()->Some_0))
        } else {
            None
        }
    }

    /// The values, with their unit.
    pub fn value(&self) -> (q: &Quantity)
        ensures
            *q == self.array().quantity,
    {
        self.array_data.value()
    }

    /// The unit of the values.
    pub fn unit(&self) -> (u: &Unit)
        ensures
            unit_model(*u) == self.array().unit_model(),
    {
        self.array_data.unit()
    }

    /// The name, where there is one.
    pub fn get_name(&self) -> (r: Option<&str>)
        ensures
            r.is_some() == self.array().name.is_some(),
            r matches Some(t) ==> self.array().name matches Some(u) && t@ == u@,
    {
        self.array_data.get_name()
    }

    /// The epoch, where there is one.
    pub fn get_epoch(&self) -> (r: Option<Time>)
        ensures
            r == self.array().epoch,
    {
        self.array_data.get_epoch()
    }

    /// The channel, where there is one.
    pub fn get_channel(&self) -> (r: Option<&Channel>)
        ensures
            match r {
                Some(c) => self.array().channel == Some(*c),
                None => self.array().channel.is_none(),
            },
    {
        self.array_data.get_channel()
    }

    /// The start of the axis, where one was given.
    pub fn get_x0(&self) -> (r: Option<&Quantity>)
        ensures
            match r {
                Some(q) => self.start() == Some(*q),
                None => self.start().is_none(),
            },
    {
        self.x0.as_ref()
    }

    /// The step of the axis, where one was given.
    pub fn get_dx(&self) -> (r: Option<&Quantity>)
        ensures
            match r {
                Some(q) => self.step() == Some(*q),
                None => self.step().is_none(),
            },
    {
        self.dx.as_ref()
    }

    /// The axis, where the series has one.
    pub fn get_xindex(&self) -> (r: Option<&Quantity>)
        ensures
            match r {
                Some(q) => self.axis() == Some(*q),
                None => self.axis().is_none(),
            },
    {
        self.xindex.as_ref()
    }

    /// The unit of the axis: that of the axis itself, else of the start, else
    /// of the step.
    pub fn get_xunit(&self) -> (r: Option<&Unit>)
        ensures
            match r {
                Some(u) => self.axis_unit() == Some(unit_model(*u)),
                None => self.axis_unit().is_none(),
            },
    {
        match &self.xindex {
            Some(index) => Some(unit_of(index)),
            None => match &self.x0 {
                Some(start) => Some(unit_of(start)),
                None => match &self.dx {
                    Some(step) => Some(unit_of(step)),
                    None => None,
                },
            },
        }
    }
}

impl Series {
    /// The number of values that a combination of `self` and `rhs` has.
    pub open spec fn result_len(self, rhs: Series) -> nat {
        broadcast_len(self.array().values().len(), rhs.array().values().len())
    }

    /// The start that a combination of `self` and `rhs` has.
    pub open spec fn merged_start(self, rhs: Series) -> Option<Quantity> {
        first_present(self.start(), rhs.start())
    }

    /// The step that a combination of `self` and `rhs` has.
    pub open spec fn merged_step(self, rhs: Series) -> Option<Quantity> {
        first_present(self.step(), rhs.step())
    }

    /// The axis of `self` or else of `rhs`, where it has `n` values.
    pub open spec fn reusable_axis(self, rhs: Series, n: nat) -> Option<Quantity> {
        let cached = first_present(self.axis(), rhs.axis());
        if cached.is_some() && quantity_values(cached->Some_0).len() == n {
            cached
        } else {
            None
        }
    }

    /// A combination of `self` and `rhs` of `n` values has to derive its axis
    /// anew: no axis of `n` values is at hand, and a start and a step of one
    /// value each are.
    pub open spec fn rederives_axis(self, rhs: Series, n: nat) -> bool {
        &&& self.reusable_axis(rhs, n).is_none()
        &&& self.merged_start(rhs).is_some()
        &&& self.merged_step(rhs).is_some()
        &&& is_scalar(self.merged_start(rhs)->Some_0)
        &&& is_scalar(self.merged_step(rhs)->Some_0)
    }

    /// Where a combination of `n` values derives its axis anew, the start and
    /// the step that it takes have the same dimensions.
    pub open spec fn can_merge(self, rhs: Series, n: nat) -> bool {
        self.rederives_axis(rhs, n) ==> quantity_unit(self.merged_start(rhs)->Some_0).dims
            == quantity_unit(self.merged_step(rhs)->Some_0).dims
    }

    /// `out` is the combination of `self` and `rhs` around the given values
    /// and unit: every label, the start and the step come from `self`, or
    /// from `rhs` where `self` has none; the axis is the one at hand if it
    /// has as many values as the result, else the progression from start and
    /// step, else none.
    pub open spec fn is_merged(self, rhs: Series, values: Seq<u64>, unit: UnitModel, out: Series) -> bool {
        &&& out.array().values() == values
        &&& out.array().unit_model() == unit
        &&& out.array().name == first_present(self.array().name, rhs.array().name)
        &&& out.array().epoch == first_present(self.array().epoch, rhs.array().epoch)
        &&& out.array().channel == first_present(self.array().channel, rhs.array().channel)
        &&& out.start() == self.merged_start(rhs)
        &&& out.step() == self.merged_step(rhs)
        &&& if self.reusable_axis(rhs, values.len()).is_some() {
            out.axis() == self.reusable_axis(rhs, values.len())
        } else if self.rederives_axis(rhs, values.len()) {
            out.axis() matches Some(axis) && is_derived_axis(
                axis,
                self.merged_start(rhs)->Some_0,
                self.merged_step(rhs)->Some_0,
                values.len(),
            )
        } else {
            out.axis().is_none()
        }
    }

    /// `self` and `rhs` can be added or subtracted: where their units are
    /// identical, the values can be combined element by element and the axis
    /// can be merged.
    pub open spec fn can_add(self, rhs: Series) -> bool {
        identical_units(self.array().unit_model(), rhs.array().unit_model()) ==> {
            &&& self.array().fits(rhs.array())
            &&& self.can_merge(rhs, self.result_len(rhs))
        }
    }

    /// `self` and `rhs` can be multiplied: the values can be combined element
    /// by element, the exponents of the units can be added and the axis can
    /// be merged.
    pub open spec fn can_multiply(self, rhs: Series) -> bool {
        &&& self.array().fits(rhs.array())
        &&& exponents_addable(self.array().unit_model().dims, rhs.array().unit_model().dims)
        &&& self.can_merge(rhs, self.result_len(rhs))
    }

    /// `self` can be divided by `rhs`: where no value of `rhs` is a zero, the
    /// values can be combined element by element, the exponents of the units
    /// can be subtracted and the axis can be merged.
    pub open spec fn can_divide(self, rhs: Series) -> bool {
        !has_zero(rhs.array().values()) ==> {
            &&& self.array().fits(rhs.array())
            &&& exponents_subtractable(
                self.array().unit_model().dims,
                rhs.array().unit_model().dims,
            )
            &&& self.can_merge(rhs, self.result_len(rhs))
        }
    }

    /// A copy of the series.
    pub fn duplicate(&self) -> (s: Series)
        ensures
            s == *self,
    {
        Series {
            array_data: self.array_data.duplicate(),
            x0: clone_optional_quantity(&self.x0),
            dx: clone_optional_quantity(&self.dx),
            xindex: clone_optional_quantity(&self.xindex),
        }
    }
}

/// Wraps the result of an operation on `lhs` and `rhs` into a series, with
/// labels and axis merged from the two operands, `lhs` first.
pub fn propagate_metadata_series(result_quantity: Quantity, lhs: &Series, rhs: &Series) -> (out:
    Series)
    requires
        lhs.can_merge(*rhs, quantity_values(result_quantity).len()),
    ensures
        lhs.is_merged(
            *rhs,
            quantity_values(result_quantity),
            quantity_unit(result_quantity),
            out,
        ),
        out.wf(),
{
    let new_name = first_or(
        clone_optional_text(&lhs.array_data.name),
        clone_optional_text(&rhs.array_data.name),
    );
    let new_epoch = first_or(lhs.array_data.epoch, rhs.array_data.epoch);
    let new_channel = first_or(
        clone_optional_channel(&lhs.array_data.channel),
        clone_optional_channel(&rhs.array_data.channel),
    );
    let start = first_or(clone_optional_quantity(&lhs.x0), clone_optional_quantity(&rhs.x0));
    let step = first_or(clone_optional_quantity(&lhs.dx), clone_optional_quantity(&rhs.dx));
    let cached = first_or(
        clone_optional_quantity(&lhs.xindex),
        clone_optional_quantity(&rhs.xindex),
    );
    let data_len = quantity_len(&result_quantity);
    let reusable = match cached {
        Some(index) => if quantity_len(&index) == data_len {
            Some(index)
        } else {
            None
        },
        None => None,
    };
    let axis = match reusable {
        Some(index) => Some(index),
        None => match (&start, &step) {
            (Some(a), Some(d)) => if quantity_len(a) != 1 || quantity_len(d) != 1 {
                None
            } else {
                Some(derive_axis(a, d, data_len))
            },
            _ => None,
        },
    };
    let unit = unit_of(&result_quantity).clone();
    Series {
        array_data: GWArray::new(result_quantity, Some(unit), new_name, new_epoch, new_channel),
        x0: start,
        dx: step,
        xindex: axis,
    }
}

impl Add for Series {
    type Output = Result<Series, DataError>;

    /// The sum of two series. It exists exactly when the units of the values
    /// are identical; labels and axis are merged, the left operand first.
    fn add(self, rhs: Series) -> (r: Result<Series, DataError>)
        ensures
            r.is_ok() <==> identical_units(self.array().unit_model(), rhs.array().unit_model()),
            r matches Ok(s) ==> s.array().values().len() == self.result_len(rhs) && s.wf(),
            r matches Ok(s) ==> self.is_merged(
                rhs,
                elementwise_sum(self.array().values(), rhs.array().values()),
                self.array().unit_model(),
                s,
            ),
            r matches Err(e) ==> e matches DataError::IncompatibleAddition { lhs, rhs: right }
                && lhs@ == self.array().unit_model().name && right@
                == rhs.array().unit_model().name,
    {
        match self.array_data.duplicate() + rhs.array_data.duplicate() {
            Ok(sum) => Ok(propagate_metadata_series(sum.quantity, &self, &rhs)),
            Err(e) => Err(e),
        }
    }
}

// The result of an operator holds values of the units crate, which no
// specification function can build. So each operator states its result in its
// own `ensures`; the specification impls below give its precondition only.
impl AddSpecImpl for Series {
    open spec fn obeys_add_spec() -> bool {
        false
    }

    open spec fn add_req(self, rhs: Series) -> bool {
        self.can_add(rhs)
    }

    open spec fn add_spec(self, rhs: Series) -> Result<Series, DataError> {
        arbitrary()
    }
}

impl Sub for Series {
    type Output = Result<Series, DataError>;

    /// The difference of two series. It exists exactly when the units of the
    /// values are identical; labels and axis are merged, the left operand
    /// first.
    fn sub(self, rhs: Series) -> (r: Result<Series, DataError>)
        ensures
            r.is_ok() <==> identical_units(self.array().unit_model(), rhs.array().unit_model()),
            r matches Ok(s) ==> s.array().values().len() == self.result_len(rhs) && s.wf(),
            r matches Ok(s) ==> self.is_merged(
                rhs,
                elementwise_difference(self.array().values(), rhs.array().values()),
                self.array().unit_model(),
                s,
            ),
            r matches Err(e) ==> e matches DataError::IncompatibleSubtraction { lhs, rhs: right }
                && lhs@ == self.array().unit_model().name && right@
                == rhs.array().unit_model().name,
    {
        match self.array_data.duplicate() - rhs.array_data.duplicate() {
            Ok(difference) => Ok(propagate_metadata_series(difference.quantity, &self, &rhs)),
            Err(e) => Err(e),
        }
    }
}

impl SubSpecImpl for Series {
    open spec fn obeys_sub_spec() -> bool {
        false
    }

    open spec fn sub_req(self, rhs: Series) -> bool {
        self.can_add(rhs)
    }

    open spec fn sub_spec(self, rhs: Series) -> Result<Series, DataError> {
        arbitrary()
    }
}

impl Mul for Series {
    type Output = Result<Series, DataError>;

    /// The product of two series. It always exists; labels and axis are
    /// merged, the left operand first.
    fn mul(self, rhs: Series) -> (r: Result<Series, DataError>)
        ensures
            r matches Ok(s) && s.array().values().len() == self.result_len(rhs) && s.wf(),
            r matches Ok(s) && self.is_merged(
                rhs,
                elementwise_product(self.array().values(), rhs.array().values()),
                UnitModel {
                    name: self.array().unit_model().name + seq!['*']
                        + rhs.array().unit_model().name,
                    scale: product_scale(
                        self.array().unit_model().scale,
                        rhs.array().unit_model().scale,
                    ),
                    dims: exponent_sums(
                        self.array().unit_model().dims,
                        rhs.array().unit_model().dims,
                    ),
                },
                s,
            ),
    {
        match self.array_data.duplicate() * rhs.array_data.duplicate() {
            Ok(product) => Ok(propagate_metadata_series(product.quantity, &self, &rhs)),
            Err(e) => Err(e),
        }
    }
}

impl MulSpecImpl for Series {
    open spec fn obeys_mul_spec() -> bool {
        false
    }

    open spec fn mul_req(self, rhs: Series) -> bool {
        self.can_multiply(rhs)
    }

    open spec fn mul_spec(self, rhs: Series) -> Result<Series, DataError> {
        arbitrary()
    }
}

impl Div for Series {
    type Output = Result<Series, DataError>;

    /// The quotient of two series. It exists exactly when no value of the
    /// divisor is a zero; labels and axis are merged, the left operand first.
    fn div(self, rhs: Series) -> (r: Result<Series, DataError>)
        ensures
            r.is_ok() <==> !has_zero(rhs.array().values()),
            r matches Ok(s) ==> s.array().values().len() == self.result_len(rhs) && s.wf(),
            r matches Ok(s) ==> self.is_merged(
                rhs,
                elementwise_quotient(self.array().values(), rhs.array().values()),
                UnitModel {
                    name: self.array().unit_model().name + seq!['/']
                        + rhs.array().unit_model().name,
                    scale: quotient_scale(
                        self.array().unit_model().scale,
                        rhs.array().unit_model().scale,
                    ),
                    dims: exponent_differences(
                        self.array().unit_model().dims,
                        rhs.array().unit_model().dims,
                    ),
                },
                s,
            ),
            r matches Err(e) ==> e == DataError::DivideByZero,
    {
        match self.array_data.duplicate() / rhs.array_data.duplicate() {
            Ok(quotient) => Ok(propagate_metadata_series(quotient.quantity, &self, &rhs)),
            Err(e) => Err(e),
        }
    }
}

impl DivSpecImpl for Series {
    open spec fn obeys_div_spec() -> bool {
        false
    }

    open spec fn div_req(self, rhs: Series) -> bool {
        self.can_divide(rhs)
    }

    open spec fn div_spec(self, rhs: Series) -> Result<Series, DataError> {
        arbitrary()
    }
}

} // verus!
