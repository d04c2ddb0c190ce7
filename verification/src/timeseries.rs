//! A series whose axis is GPS time, in seconds.

use crate::channel::Channel;
use crate::error::{length_mismatch_text, DataError};
use crate::series::{is_derived_axis, is_scalar, Series, SeriesBuilder};
use crate::units::{
    converted_values, decimal_of_real, dimensionless, dimensionless_model, element_at,
    elementwise_difference, elementwise_product, elementwise_quotient, elementwise_sum,
    exponent_differences, exponent_sums, exponents_subtractable, has_time, has_zero, hertz,
    hertz_model, identical_units, one_in, product_scale, quantity_div, quantity_len,
    quantity_to, quantity_unit, quantity_values, quotient_scale, real_of_decimal, relabelled,
    second, second_model, time_as_quantity, time_from_quantity, time_model, unit_model,
    unit_name, unit_of, values_difference, zero_in, DecimalModel, ONE_BITS, UnitModel,
    ZERO_BITS,
};
use astronomy::time::Time;
use astronomy::units::{Quantity, Unit};
use std::ops::{Add, Div, Mul, Sub};
use vstd::prelude::*;
use vstd::std_specs::ops::{AddSpecImpl, DivSpecImpl, MulSpecImpl, SubSpecImpl};
use vstd::string::*;

verus! {

/// The values of the reciprocal of a one-valued quantity, converted to a
/// unit of scale one such as the second or the hertz.
pub open spec fn reciprocal_values(rate: Quantity) -> Seq<u64> {
    converted_values(
        elementwise_quotient(seq![ONE_BITS], quantity_values(rate)),
        quotient_scale(ONE_BITS, quantity_unit(rate).scale),
        ONE_BITS,
    )
}

/// The reciprocal of a quantity in this unit has the dimensions of `target`.
pub open spec fn inverts_to(unit: UnitModel, target: UnitModel) -> bool {
    exponent_differences(dimensionless_model().dims, unit.dims) == target.dims
}

/// The reciprocal of `q` exists in `target`: no value of `q` is a zero, and
/// the reciprocal has the dimensions of `target`.
pub open spec fn has_reciprocal_in(q: Quantity, target: UnitModel) -> bool {
    &&& !has_zero(quantity_values(q))
    &&& inverts_to(quantity_unit(q), target)
}

/// The reciprocal of the one-valued quantity `q`, converted to `target`.
/// It fails with `DivideByZero` where the value is a zero, and with
/// `IncompatibleUnits` where the reciprocal has other dimensions than
/// `target`.
pub fn reciprocal_in(q: Quantity, target: &Unit) -> (r: Result<Quantity, DataError>)
    requires
        is_scalar(q),
        exponents_subtractable(dimensionless_model().dims, quantity_unit(q).dims),
    ensures
        r.is_ok() <==> has_reciprocal_in(q, unit_model(*target)),
        r matches Ok(p) ==> {
            &&& quantity_values(p) == converted_values(
                elementwise_quotient(seq![ONE_BITS], quantity_values(q)),
                quotient_scale(ONE_BITS, quantity_unit(q).scale),
                unit_model(*target).scale,
            )
            &&& is_scalar(p)
            &&& quantity_unit(p) == unit_model(*target)
        },
        r matches Err(e) ==> if has_zero(quantity_values(q)) {
            e == DataError::DivideByZero
        } else {
            e matches DataError::IncompatibleUnits { from, to } && from@ == seq!['/']
                + quantity_unit(q).name && to@ == unit_model(*target).name
        },
{
    let one = one_in(dimensionless());
    match quantity_div(one, q) {
        Ok(inverse) => match quantity_to(&inverse, target) {
            Ok(converted) => Ok(converted),
            Err(_) => {
                let from = unit_name(unit_of(&inverse));
                assert(from@ =~= seq!['/'] + quantity_unit(q).name);
                Err(DataError::IncompatibleUnits { from, to: unit_name(target) })
            },
        },
        Err(_) => Err(DataError::DivideByZero),
    }
}

/// A series over GPS time.
#[derive(Debug, Clone, PartialEq)]
pub struct TimeSeriesBase {
    series_data: Series,
}

/// The parts of a time series, filled in one by one and checked by `build`.
pub struct TimeSeriesBaseBuilder {
    pub value: Option<Quantity>,
    pub unit: Option<Unit>,
    pub name: Option<String>,
    pub channel: Option<Channel>,
    /// The GPS epoch, as a time.
    pub t0: Option<Time>,
    /// The time between two samples.
    pub dt: Option<Quantity>,
    /// The number of samples per second.
    pub sample_rate: Option<Quantity>,
    /// The time of every sample.
    pub times: Option<Quantity>,
    /// The GPS epoch, as a count of seconds in a quantity of one value.
    pub raw_t0: Option<Quantity>,
}

impl TimeSeriesBaseBuilder {
    /// The builder with no part filled in.
    pub open spec fn empty() -> TimeSeriesBaseBuilder {
        TimeSeriesBaseBuilder {
            value: None,
            unit: None,
            name: None,
            channel: None,
            t0: None,
            dt: None,
            sample_rate: None,
            times: None,
            raw_t0: None,
        }
    }

    /// The number of values given.
    pub open spec fn value_len(self) -> nat {
        quantity_values(self.value->Some_0).len()
    }

    /// The epoch is read from the count of seconds.
    pub open spec fn reads_raw_t0(self) -> bool {
        self.times.is_none() && self.t0.is_none() && self.raw_t0.is_some()
    }

    /// The step is computed from the sample rate.
    pub open spec fn reads_sample_rate(self) -> bool {
        self.times.is_none() && self.dt.is_none() && self.sample_rate.is_some()
    }

    /// A start is at hand.
    pub open spec fn has_start(self) -> bool {
        self.times.is_none() && (self.t0.is_some() || self.raw_t0.is_some())
    }

    /// A step is at hand.
    pub open spec fn has_step(self) -> bool {
        self.times.is_none() && (self.dt.is_some() || self.sample_rate.is_some())
    }

    /// The sample rate, where it is read and has one value, has exponents
    /// that can be negated.
    pub open spec fn rate_is_invertible(self) -> bool {
        self.value.is_some() && self.reads_sample_rate() && is_scalar(self.sample_rate->Some_0)
            && !(self.reads_raw_t0() && !is_scalar(self.raw_t0->Some_0)) ==> exponents_subtractable(
            dimensionless_model().dims,
            quantity_unit(self.sample_rate->Some_0).dims,
        )
    }

    /// The parts are enough for a time series and fit together.
    pub open spec fn is_valid(self) -> bool {
        &&& self.value.is_some()
        &&& self.times matches Some(times) ==> quantity_values(times).len() == self.value_len()
        &&& self.reads_raw_t0() ==> is_scalar(self.raw_t0->Some_0)
        &&& self.reads_sample_rate() ==> is_scalar(self.sample_rate->Some_0) && has_reciprocal_in(
            self.sample_rate->Some_0,
            second_model(),
        )
        &&& self.has_start() && self.times.is_none() && self.dt.is_some() ==> is_scalar(
            self.dt->Some_0,
        ) && quantity_unit(self.dt->Some_0).dims == second_model().dims
    }

    /// `e` is the error that `build` owes for parts that are not valid: the
    /// first of missing values, times of the wrong length, an epoch or a
    /// sample rate of more than one value, a sample rate without a
    /// reciprocal in seconds, a step of more than one value, a step that is
    /// no time.
    pub open spec fn is_refusal(self, e: DataError) -> bool {
        if self.value.is_none() {
            e matches DataError::InvalidQuantity(m) && m@
                == "Value is required to build TimeSeriesBase"@
        } else if self.times.is_some() {
            e matches DataError::MismatchError(m) && m@ == length_mismatch_text(
                quantity_values(self.times->Some_0).len(),
                self.value_len(),
            )
        } else if self.reads_raw_t0() && !is_scalar(self.raw_t0->Some_0) {
            e matches DataError::InvalidQuantity(m) && m@ == "t0 must be a scalar quantity."@
        } else if self.reads_sample_rate() {
            let rate = self.sample_rate->Some_0;
            if !is_scalar(rate) {
                e matches DataError::InvalidQuantity(m) && m@
                    == "Sample rate must be a scalar quantity."@
            } else if has_zero(quantity_values(rate)) {
                e == DataError::DivideByZero
            } else {
                e matches DataError::IncompatibleUnits { from, to } && from@ == seq!['/']
                    + quantity_unit(rate).name && to@ == second_model().name
            }
        } else if !is_scalar(self.dt->Some_0) {
            e matches DataError::MismatchError(m) && m@
                == "x0 and dx must be single-value quantities"@
        } else {
            e matches DataError::IncompatibleUnits { from, to } && from@ == second_model().name
                && to@ == quantity_unit(self.dt->Some_0).name
        }
    }

    /// `start` is the start that the parts give: the seconds of the epoch,
    /// else the count of seconds, read as seconds; none where times are given
    /// in full.
    pub open spec fn gives_start(self, start: Option<Quantity>) -> bool {
        if !self.has_start() {
            start.is_none()
        } else {
            start matches Some(q) && quantity_unit(q) == second_model() && quantity_values(q) == (
            if self.t0.is_some() {
                seq![real_of_decimal(time_model(self.t0->Some_0))]
            } else {
                quantity_values(self.raw_t0->Some_0)
            })
        }
    }

    /// `step` is the step that the parts give: the one given, else the
    /// reciprocal of the sample rate in seconds; none where times are given
    /// in full.
    pub open spec fn gives_step(self, step: Option<Quantity>) -> bool {
        if !self.has_step() {
            step.is_none()
        } else if self.dt.is_some() {
            step == self.dt
        } else {
            step matches Some(q) && quantity_unit(q) == second_model() && quantity_values(q)
                == reciprocal_values(self.sample_rate->Some_0)
        }
    }

    /// `ts` is the time series that valid parts make.
    pub open spec fn is_built(self, ts: TimeSeriesBase) -> bool {
        let s = ts.series();
        &&& s.array().values() == quantity_values(self.value->Some_0)
        &&& s.array().unit_model() == match self.unit {
            Some(u) => unit_model(u),
            None => dimensionless_model(),
        }
        &&& s.array().name == self.name
        &&& s.array().epoch.is_none()
        &&& s.array().channel == self.channel
        &&& self.gives_start(s.start())
        &&& self.gives_step(s.step())
        &&& if self.times.is_some() {
            s.axis() == self.times
        } else if self.has_start() && self.has_step() {
            s.axis() matches Some(axis) && is_derived_axis(
                axis,
                s.start()->Some_0,
                s.step()->Some_0,
                self.value_len(),
            )
        } else {
            s.axis().is_none()
        }
    }

    /// A builder with no part filled in.
    pub fn new() -> (b: TimeSeriesBaseBuilder)
        ensures
            b == TimeSeriesBaseBuilder::empty(),
    {
        TimeSeriesBaseBuilder {
            value: None,
            unit: None,
            name: None,
            channel: None,
            t0: None,
            dt: None,
            sample_rate: None,
            times: None,
            raw_t0: None,
        }
    }

    /// Sets the values; the unit of `value` itself is not read.
    pub fn value(self, value: Quantity) -> (b: TimeSeriesBaseBuilder)
        ensures
            b == (TimeSeriesBaseBuilder { value: Some(value), ..self }),
    {
        TimeSeriesBaseBuilder { value: Some(value), ..self }
    }

    /// Sets the unit of the values.
    pub fn unit(self, unit: Unit) -> (b: TimeSeriesBaseBuilder)
        ensures
            b == (TimeSeriesBaseBuilder { unit: Some(unit), ..self }),
    {
        TimeSeriesBaseBuilder { unit: Some(unit), ..self }
    }

    /// Sets the name.
    pub fn name(self, name: String) -> (b: TimeSeriesBaseBuilder)
        ensures
            b == (TimeSeriesBaseBuilder { name: Some(name), ..self }),
    {
        TimeSeriesBaseBuilder { name: Some(name), ..self }
    }

    /// Sets the channel.
    pub fn channel(self, channel: Channel) -> (b: TimeSeriesBaseBuilder)
        ensures
            b == (TimeSeriesBaseBuilder { channel: Some(channel), ..self }),
    {
        TimeSeriesBaseBuilder { channel: Some(channel), ..self }
    }

    /// Sets the GPS epoch as a time.
    pub fn epoch(self, epoch: Time) -> (b: TimeSeriesBaseBuilder)
        ensures
            b == (TimeSeriesBaseBuilder { t0: Some(epoch), ..self }),
    {
        TimeSeriesBaseBuilder { t0: Some(epoch), ..self }
    }

    /// Sets the GPS epoch as a count of seconds: a quantity of one value,
    /// whose own unit is not read.
    pub fn t0(self, t0: Quantity) -> (b: TimeSeriesBaseBuilder)
        ensures
            b == (TimeSeriesBaseBuilder { raw_t0: Some(t0), ..self }),
    {
        TimeSeriesBaseBuilder { raw_t0: Some(t0), ..self }
    }

    /// Sets the time between two samples.
    pub fn dt(self, dt: Quantity) -> (b: TimeSeriesBaseBuilder)
        ensures
            b == (TimeSeriesBaseBuilder { dt: Some(dt), ..self }),
    {
        TimeSeriesBaseBuilder { dt: Some(dt), ..self }
    }

    /// Sets the number of samples per second.
    pub fn sample_rate(self, sample_rate: Quantity) -> (b: TimeSeriesBaseBuilder)
        ensures
            b == (TimeSeriesBaseBuilder { sample_rate: Some(sample_rate), ..self }),
    {
        TimeSeriesBaseBuilder { sample_rate: Some(sample_rate), ..self }
    }

    /// Sets the time of every sample.
    pub fn times(self, times: Quantity) -> (b: TimeSeriesBaseBuilder)
        ensures
            b == (TimeSeriesBaseBuilder { times: Some(times), ..self }),
    {
        TimeSeriesBaseBuilder { times: Some(times), ..self }
    }

    /// Checks the parts and makes the time series. Times given in full
    /// become the axis. Otherwise the epoch (the time, else the count of
    /// seconds) becomes the start and the time between samples (as given,
    /// else the reciprocal of the sample rate) becomes the step, both in
    /// seconds. It succeeds exactly on valid parts.
    pub fn build(self) -> (r: Result<TimeSeriesBase, DataError>)
        requires
            self.rate_is_invertible(),
        ensures
            r.is_ok() <==> self.is_valid(),
            r matches Ok(ts) ==> self.is_built(ts) && ts.wf(),
            r matches Err(e) ==> self.is_refusal(e),
    {
        let value = match self.value {
            Some(v) => v,
            None => {
                return Err(
                    DataError::InvalidQuantity(
                        String::from_str("Value is required to build TimeSeriesBase"),
                    ),
                );
            },
        };
        let unit = match self.unit {
            Some(u) => u,
            None => dimensionless(),
        };
        let mut series_builder = SeriesBuilder::new().value(value).unit(unit);
        if let Some(name) = self.name {
            series_builder = series_builder.name(name);
        }
        if let Some(channel) = self.channel {
            series_builder = series_builder.channel(channel);
        }
        if let Some(times_quantity) = self.times {
            series_builder = series_builder.xindex(times_quantity);
        } else {
            let resolved_t0 = match self.t0 {
                Some(epoch_time) => Some(time_as_quantity(&epoch_time)),
                None => match self.raw_t0 {
                    Some(raw) => {
                        if quantity_len(&raw) != 1 {
                            return Err(
                                DataError::InvalidQuantity(
                                    String::from_str("t0 must be a scalar quantity."),
                                ),
                            );
                        }
                        Some(relabelled(raw, second()))
                    },
                    None => None,
                },
            };
            if let Some(t0_quantity) = resolved_t0 {
                series_builder = series_builder.x0(t0_quantity);
            }
            let resolved_dt = match self.dt {
                Some(dt_quantity) => Some(dt_quantity),
                None => match self.sample_rate {
                    Some(rate) => {
                        if quantity_len(&rate) != 1 {
                            return Err(
                                DataError::InvalidQuantity(
                                    String::from_str("Sample rate must be a scalar quantity."),
                                ),
                            );
                        }
                        match reciprocal_in(rate, &second()) {
                            Ok(period) => Some(period),
                            Err(e) => {
                                return Err(e);
                            },
                        }
                    },
                    None => None,
                },
            };
            if let Some(dt_quantity) = resolved_dt {
                series_builder = series_builder.dx(dt_quantity);
            }
        }
        proof {
            reveal_strlit("s");
            assert("s"@ =~= seq!['s']);
        }
        match series_builder.build() {
            Ok(series_data) => Ok(TimeSeriesBase { series_data }),
            Err(e) => Err(e),
        }
    }
}

impl Default for TimeSeriesBaseBuilder {
    fn default() -> (b: TimeSeriesBaseBuilder)
        ensures
            b == TimeSeriesBaseBuilder::empty(),
    {
        TimeSeriesBaseBuilder::new()
    }
}

impl TimeSeriesBase {
    /// The series underneath.
    pub closed spec fn series(self) -> Series {
        self.series_data
    }

    /// The start, where there is one, has exactly one value, and the axis,
    /// where there is one, has one value for each value of the series.
    pub open spec fn wf(self) -> bool {
        &&& self.series().start() matches Some(q) ==> is_scalar(q)
        &&& self.series().wf()
    }

    /// The decimal count of seconds at the start of the series, where the
    /// series has a start of one value and a decimal number exists for it.
    pub open spec fn epoch(self) -> Option<DecimalModel> {
        match self.series().start() {
            Some(q) => if is_scalar(q) {
                decimal_of_real(quantity_values(q)[0])
            } else {
                None
            },
            None => None,
        }
    }

    /// The sample rate can be computed: there is no step, or the step has a
    /// reciprocal in hertz.
    pub open spec fn has_rate(self) -> bool {
        self.series().step() matches Some(d) ==> {
            &&& is_scalar(d)
            &&& exponents_subtractable(dimensionless_model().dims, quantity_unit(d).dims)
            &&& has_reciprocal_in(d, hertz_model())
        }
    }

    /// The values, with their unit.
    pub fn value(&self) -> (q: &Quantity)
        ensures
            *q == self.series().array().quantity,
    {
        self.series_data.value()
    }

    /// The unit of the values.
    pub fn unit(&self) -> (u: &Unit)
        ensures
            unit_model(*u) == self.series().array().unit_model(),
    {
        self.series_data.unit()
    }

    /// The name, where there is one.
    pub fn get_name(&self) -> (r: Option<&str>)
        ensures
            r.is_some() == self.series().array().name.is_some(),
            r matches Some(t) ==> self.series().array().name matches Some(u) && t@ == u@,
    {
        self.series_data.get_name()
    }

    /// The channel, where there is one.
    pub fn get_channel(&self) -> (r: Option<&Channel>)
        ensures
            match r {
                Some(c) => self.series().array().channel == Some(*c),
                None => self.series().array().channel.is_none(),
            },
    {
        self.series_data.get_channel()
    }

    /// The start of the series in seconds, where there is one.
    pub fn get_t0(&self) -> (r: Option<&Quantity>)
        ensures
            match r {
                Some(q) => self.series().start() == Some(*q),
                None => self.series().start().is_none(),
            },
    {
        self.series_data.get_x0()
    }

    /// The time between two samples, where it is known.
    pub fn get_dt(&self) -> (r: Option<&Quantity>)
        ensures
            match r {
                Some(q) => self.series().step() == Some(*q),
                None => self.series().step().is_none(),
            },
    {
        self.series_data.get_dx()
    }

    /// The time of every sample, where the series has an axis.
    pub fn get_times(&self) -> (r: Option<&Quantity>)
        ensures
            match r {
                Some(q) => self.series().axis() == Some(*q),
                None => self.series().axis().is_none(),
            },
    {
        self.series_data.get_xindex()
    }

    /// The GPS time at the start of the series. There is none where the
    /// series has no start, or where no time exists at its count of seconds.
    pub fn get_epoch(&self) -> (r: Option<Time>)
        ensures
            match r {
                Some(t) => self.epoch() == Some(time_model(t)),
                None => self.epoch().is_none(),
            },
    {
        match self.get_t0() {
            Some(t0_quantity) => if quantity_len(t0_quantity) == 1 && has_time(t0_quantity) {
                Some(time_from_quantity(t0_quantity))
            } else {
                None
            },
            None => None,
        }
    }

    /// The number of samples per second: the reciprocal of the step, in
    /// hertz; none where the series has no step.
    pub fn get_sample_rate(&self) -> (r: Option<Quantity>)
        requires
            self.has_rate(),
        ensures
            r.is_some() == self.series().step().is_some(),
            r matches Some(rate) ==> {
                &&& quantity_values(rate) == reciprocal_values(self.series().step()->Some_0)
                &&& is_scalar(rate)
                &&& quantity_unit(rate) == hertz_model()
            },
    {
        match self.get_dt() {
            Some(dt_quantity) => match reciprocal_in(dt_quantity.clone(), &hertz()) {
                Ok(rate) => Some(rate),
                Err(_) => None,
            },
            None => None,
        }
    }

    /// The time from the first sample to the last, in the unit of the axis;
    /// one zero for an axis without samples; none where the series has no
    /// axis.
    pub fn duration(&self) -> (r: Option<Quantity>)
        ensures
            r.is_some() == self.series().axis().is_some(),
            r matches Some(d) ==> {
                let times = quantity_values(self.series().axis()->Some_0);
                &&& quantity_unit(d) == quantity_unit(self.series().axis()->Some_0)
                &&& is_scalar(d)
                &&& quantity_values(d) == if times.len() == 0 {
                    seq![ZERO_BITS]
                } else {
                    elementwise_difference(seq![times[times.len() - 1]], seq![times[0]])
                }
            },
    {
        match self.get_times() {
            Some(times_quantity) => {
                let n = quantity_len(times_quantity);
                if n == 0 {
                    Some(zero_in(unit_of(times_quantity).clone()))
                } else {
                    let start_time = element_at(times_quantity, 0);
                    let end_time = element_at(times_quantity, n - 1);
                    Some(values_difference(&end_time, &start_time))
                }
            },
            None => None,
        }
    }
}

impl Add for TimeSeriesBase {
    type Output = Result<TimeSeriesBase, DataError>;

    /// The sum of two time series: that of the series underneath.
    fn add(self, rhs: TimeSeriesBase) -> (r: Result<TimeSeriesBase, DataError>)
        ensures
            r.is_ok() <==> identical_units(
                self.series().array().unit_model(),
                rhs.series().array().unit_model(),
            ),
            r matches Ok(ts) ==> {
                &&& self.series().is_merged(
                    rhs.series(),
                    elementwise_sum(
                        self.series().array().values(),
                        rhs.series().array().values(),
                    ),
                    self.series().array().unit_model(),
                    ts.series(),
                )
                &&& ts.series().array().values().len() == self.series().result_len(rhs.series())
                &&& self.wf() && rhs.wf() ==> ts.wf()
            },
            r matches Err(e) ==> e matches DataError::IncompatibleAddition { lhs, rhs: right } && lhs@
                == self.series().array().unit_model().name && right@
                == rhs.series().array().unit_model().name,
    {
        match self.series_data + rhs.series_data {
            Ok(series_data) => Ok(TimeSeriesBase { series_data }),
            Err(e) => Err(e),
        }
    }
}

// The result of an operator holds values of the units crate, which no
// specification function can build. So each operator states its result in its
// own `ensures`; the specification impls below give its precondition only.
impl AddSpecImpl for TimeSeriesBase {
    open spec fn obeys_add_spec() -> bool {
        false
    }

    open spec fn add_req(self, rhs: TimeSeriesBase) -> bool {
        self.series().can_add(rhs.series())
    }

    open spec fn add_spec(self, rhs: TimeSeriesBase) -> Result<TimeSeriesBase, DataError> {
        arbitrary()
    }
}

impl Sub for TimeSeriesBase {
    type Output = Result<TimeSeriesBase, DataError>;

    /// The difference of two time series: that of the series underneath.
    fn sub(self, rhs: TimeSeriesBase) -> (r: Result<TimeSeriesBase, DataError>)
        ensures
            r.is_ok() <==> identical_units(
                self.series().array().unit_model(),
                rhs.series().array().unit_model(),
            ),
            r matches Ok(ts) ==> {
                &&& self.series().is_merged(
                    rhs.series(),
                    elementwise_difference(
                        self.series().array().values(),
                        rhs.series().array().values(),
                    ),
                    self.series().array().unit_model(),
                    ts.series(),
                )
                &&& ts.series().array().values().len() == self.series().result_len(rhs.series())
                &&& self.wf() && rhs.wf() ==> ts.wf()
            },
            r matches Err(e) ==> e matches DataError::IncompatibleSubtraction { lhs, rhs: right } && lhs@
                == self.series().array().unit_model().name && right@
                == rhs.series().array().unit_model().name,
    {
        match self.series_data - rhs.series_data {
            Ok(series_data) => Ok(TimeSeriesBase { series_data }),
            Err(e) => Err(e),
        }
    }
}

impl SubSpecImpl for TimeSeriesBase {
    open spec fn obeys_sub_spec() -> bool {
        false
    }

    open spec fn sub_req(self, rhs: TimeSeriesBase) -> bool {
        self.series().can_add(rhs.series())
    }

    open spec fn sub_spec(self, rhs: TimeSeriesBase) -> Result<TimeSeriesBase, DataError> {
        arbitrary()
    }
}

impl Mul for TimeSeriesBase {
    type Output = Result<TimeSeriesBase, DataError>;

    /// The product of two time series: that of the series underneath.
    fn mul(self, rhs: TimeSeriesBase) -> (r: Result<TimeSeriesBase, DataError>)
        ensures
            r matches Ok(ts) && {
                &&& self.series().is_merged(
                    rhs.series(),
                    elementwise_product(
                        self.series().array().values(),
                        rhs.series().array().values(),
                    ),
                    UnitModel {
                        name: self.series().array().unit_model().name + seq!['*']
                            + rhs.series().array().unit_model().name,
                        scale: product_scale(
                            self.series().array().unit_model().scale,
                            rhs.series().array().unit_model().scale,
                        ),
                        dims: exponent_sums(
                            self.series().array().unit_model().dims,
                            rhs.series().array().unit_model().dims,
                        ),
                    },
                    ts.series(),
                )
                &&& ts.series().array().values().len() == self.series().result_len(rhs.series())
                &&& self.wf() && rhs.wf() ==> ts.wf()
            },
    {
        match self.series_data * rhs.series_data {
            Ok(series_data) => Ok(TimeSeriesBase { series_data }),
            Err(e) => Err(e),
        }
    }
}

impl MulSpecImpl for TimeSeriesBase {
    open spec fn obeys_mul_spec() -> bool {
        false
    }

    open spec fn mul_req(self, rhs: TimeSeriesBase) -> bool {
        self.series().can_multiply(rhs.series())
    }

    open spec fn mul_spec(self, rhs: TimeSeriesBase) -> Result<TimeSeriesBase, DataError> {
        arbitrary()
    }
}

impl Div for TimeSeriesBase {
    type Output = Result<TimeSeriesBase, DataError>;

    /// The quotient of two time series: that of the series underneath.
    fn div(self, rhs: TimeSeriesBase) -> (r: Result<TimeSeriesBase, DataError>)
        ensures
            r.is_ok() <==> !has_zero(rhs.series().array().values()),
            r matches Ok(ts) ==> {
                &&& self.series().is_merged(
                    rhs.series(),
                    elementwise_quotient(
                        self.series().array().values(),
                        rhs.series().array().values(),
                    ),
                    UnitModel {
                        name: self.series().array().unit_model().name + seq!['/']
                            + rhs.series().array().unit_model().name,
                        scale: quotient_scale(
                            self.series().array().unit_model().scale,
                            rhs.series().array().unit_model().scale,
                        ),
                        dims: exponent_differences(
                            self.series().array().unit_model().dims,
                            rhs.series().array().unit_model().dims,
                        ),
                    },
                    ts.series(),
                )
                &&& ts.series().array().values().len() == self.series().result_len(rhs.series())
                &&& self.wf() && rhs.wf() ==> ts.wf()
            },
            r matches Err(e) ==> e == DataError::DivideByZero,
    {
        match self.series_data / rhs.series_data {
            Ok(series_data) => Ok(TimeSeriesBase { series_data }),
            Err(e) => Err(e),
        }
    }
}

impl DivSpecImpl for TimeSeriesBase {
    open spec fn obeys_div_spec() -> bool {
        false
    }

    open spec fn div_req(self, rhs: TimeSeriesBase) -> bool {
        self.series().can_divide(rhs.series())
    }

    open spec fn div_spec(self, rhs: TimeSeriesBase) -> Result<TimeSeriesBase, DataError> {
        arbitrary()
    }
}

} // verus!
