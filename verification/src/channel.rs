//! The descriptor of a detector channel: a flat record that the data types
//! carry along unchanged.

use crate::error::DataError;
use crate::units::{
    hertz, hertz_model, quantity_len, quantity_unit, quantity_values, real_text, relabelled,
    unit_model, unit_name, unit_of, value_text,
};

use astronomy::units::{Quantity, Unit};
use vstd::prelude::*;
use vstd::string::*;

verus! {

/// Why a channel could not be made.
#[derive(Debug, Clone, PartialEq, Eq)]
pub enum ChannelError {
    /// A unit was given as text that names no unit.
    UnitParseError(String),
    /// A quantity of the channel was refused.
    QuantityError(DataError),
}

/// A named data channel of a detector, such as `H1:GW-STRAIN`.
#[derive(Debug, Clone, PartialEq)]
pub struct Channel {
    /// The name, by convention `Detector:Channel`.
    pub name: String,
    /// The sample rate, in hertz.
    pub sample_rate: Option<Quantity>,
    /// The unit of the data.
    pub unit: Option<Unit>,
    /// The frequency range, a quantity of the two values low and high.
    pub frequency_range: Option<Quantity>,
    /// Whether the channel is safe to use.
    pub safe: Option<bool>,
    /// The type of the frames that hold the channel.
    pub frametype: Option<String>,
    /// The model of the detector.
    pub model: Option<String>,
}

/// A copy of an optional quantity.
pub fn clone_optional_quantity(q: &Option<Quantity>) -> (r: Option<Quantity>)
    ensures
        r == *q,
{
    match q {
        Some(x) => Some(x.clone()),
        None => None,
    }
}

/// A copy of an optional unit.
pub fn clone_optional_unit(u: &Option<Unit>) -> (r: Option<Unit>)
    ensures
        r == *u,
{
    match u {
        Some(x) => Some(x.clone()),
        None => None,
    }
}

/// A copy of an optional text.
pub fn clone_optional_text(s: &Option<String>) -> (r: Option<String>)
    ensures
        r == *s,
{
    match s {
        Some(x) => Some(x.clone()),
        None => None,
    }
}

/// The view of an optional text as a borrowed one.
pub fn borrow_optional_text(s: &Option<String>) -> (r: Option<&str>)
    ensures
        r.is_some() == s.is_some(),
        r matches Some(t) ==> s matches Some(u) && t@ == u@,
{
    match s {
        Some(x) => Some(x.as_str()),
        None => None,
    }
}

impl Channel {
    /// Makes a channel. The values of `sample_rate` are read as hertz,
    /// whatever unit the quantity was given in; all else is stored as it is.
    /// This never fails.
    pub fn new(
        name: &str,
        sample_rate: Option<Quantity>,
        unit: Option<Unit>,
        frequency_range: Option<Quantity>,
        safe: Option<bool>,
        frametype: Option<String>,
        model: Option<String>,
    ) -> (r: Result<Channel, ChannelError>)
        ensures
            r matches Ok(c) && {
                &&& c.name@ == name@
                &&& c.sample_rate.is_some() == sample_rate.is_some()
                &&& (c.sample_rate matches Some(q) ==> sample_rate matches Some(given) && {
                    &&& quantity_values(q) == quantity_values(given)
                    &&& quantity_unit(q) == hertz_model()
                })
                &&& c.unit == unit
                &&& c.frequency_range == frequency_range
                &&& c.safe == safe
                &&& c.frametype == frametype
                &&& c.model == model
            },
    {
        let rate = match sample_rate {
            Some(q) => Some(relabelled(q, hertz())),
            None => None,
        };
        Ok(
            Channel {
                name: String::from_str(name),
                sample_rate: rate,
                unit,
                frequency_range,
                safe,
                frametype,
                model,
            },
        )
    }

    /// The part of the description that gives the sample rate: its first
    /// value and the name of its unit; empty where no rate is known or the
    /// rate holds no value.
    pub open spec fn rate_text(self) -> Seq<char> {
        match self.sample_rate {
            Some(q) => if quantity_values(q).len() >= 1 {
                ", sample_rate="@ + real_text(quantity_values(q)[0]) + quantity_unit(q).name
            } else {
                Seq::empty()
            },
            None => Seq::empty(),
        }
    }

    /// The part of the description that gives the unit.
    pub open spec fn unit_text(self) -> Seq<char> {
        match self.unit {
            Some(u) => ", unit="@ + unit_model(u).name,
            None => Seq::empty(),
        }
    }

    /// The part of the description that gives the frequency range; empty
    /// where none is known or it does not hold exactly the two values low and
    /// high.
    pub open spec fn range_text(self) -> Seq<char> {
        match self.frequency_range {
            Some(q) => if quantity_values(q).len() == 2 {
                ", frequency_range=("@ + real_text(quantity_values(q)[0]) + ", "@ + real_text(
                    quantity_values(q)[1],
                ) + ")"@
            } else {
                Seq::empty()
            },
            None => Seq::empty(),
        }
    }

    /// The part of the description that says whether the channel is safe.
    pub open spec fn safe_text(self) -> Seq<char> {
        match self.safe {
            Some(true) => ", safe=true"@,
            Some(false) => ", safe=false"@,
            None => Seq::empty(),
        }
    }

    /// The part of the description that gives the frame type.
    pub open spec fn frametype_text(self) -> Seq<char> {
        match self.frametype {
            Some(t) => ", frametype='"@ + t@ + "'"@,
            None => Seq::empty(),
        }
    }

    /// The part of the description that gives the detector model.
    pub open spec fn model_text(self) -> Seq<char> {
        match self.model {
            Some(t) => ", model='"@ + t@ + "'"@,
            None => Seq::empty(),
        }
    }

    /// The description of the channel: its name, then every part that is
    /// known, in the order rate, unit, range, safety, frame type, model.
    pub open spec fn text(self) -> Seq<char> {
        "Channel(name='"@ + self.name@ + "'"@ + self.rate_text() + self.unit_text()
            + self.range_text() + self.safe_text() + self.frametype_text() + self.model_text()
            + ")"@
    }

    /// Describes the channel in one line.
    pub fn to_text(&self) -> (s: String)
        ensures
            s@ == self.text(),
    {
        let mut out = String::from_str("Channel(name='");
        out.append(self.name.as_str());
        out.append("'");
        let ghost head = out@;
        if let Some(rate) = &self.sample_rate {
            if quantity_len(rate) >= 1 {
                out.append(", sample_rate=");
                out.append(value_text(rate, 0).as_str());
                out.append(unit_name(unit_of(rate)).as_str());
            }
        }
        assert(out@ =~= head + self.rate_text());
        if let Some(unit) = &self.unit {
            out.append(", unit=");
            out.append(unit_name(unit).as_str());
        }
        assert(out@ =~= head + self.rate_text() + self.unit_text());
        if let Some(range) = &self.frequency_range {
            if quantity_len(range) == 2 {
                out.append(", frequency_range=(");
                out.append(value_text(range, 0).as_str());
                out.append(", ");
                out.append(value_text(range, 1).as_str());
                out.append(")");
            }
        }
        assert(out@ =~= head + self.rate_text() + self.unit_text() + self.range_text());
        if let Some(safe) = self.safe {
            if safe {
                out.append(", safe=true");
            } else {
                out.append(", safe=false");
            }
        }
        assert(out@ =~= head + self.rate_text() + self.unit_text() + self.range_text()
            + self.safe_text());
        if let Some(frametype) = &self.frametype {
            out.append(", frametype='");
            out.append(frametype.as_str());
            out.append("'");
        }
        assert(out@ =~= head + self.rate_text() + self.unit_text() + self.range_text()
            + self.safe_text() + self.frametype_text());
        if let Some(model) = &self.model {
            out.append(", model='");
            out.append(model.as_str());
            out.append("'");
        }
        assert(out@ =~= head + self.rate_text() + self.unit_text() + self.range_text()
            + self.safe_text() + self.frametype_text() + self.model_text());
        out.append(")");
        out
    }

    /// A copy of the channel.
    pub fn duplicate(&self) -> (c: Channel)
        ensures
            c == *self,
    {
        Channel {
            name: self.name.clone(),
            sample_rate: clone_optional_quantity(&self.sample_rate),
            unit: clone_optional_unit(&self.unit),
            frequency_range: clone_optional_quantity(&self.frequency_range),
            safe: self.safe,
            frametype: clone_optional_text(&self.frametype),
            model: clone_optional_text(&self.model),
        }
    }

    /// The name of the channel.
    pub fn get_name(&self) -> (s: &str)
        ensures
            s@ == self.name@,
    {
        self.name.as_str()
    }

    /// The sample rate, where one is known.
    pub fn get_sample_rate(&self) -> (r: Option<&Quantity>)
        ensures
            match r {
                Some(x) => self.sample_rate == Some(*x),
                None => self.sample_rate.is_none(),
            },
    {
        self.sample_rate.as_ref()
    }

    /// The unit of the data, where one is known.
    pub fn get_unit(&self) -> (r: Option<&Unit>)
        ensures
            match r {
                Some(x) => self.unit == Some(*x),
                None => self.unit.is_none(),
            },
    {
        self.unit.as_ref()
    }

    /// The frequency range, where one is known.
    pub fn get_frequency_range(&self) -> (r: Option<&Quantity>)
        ensures
            match r {
                Some(x) => self.frequency_range == Some(*x),
                None => self.frequency_range.is_none(),
            },
    {
        self.frequency_range.as_ref()
    }

    /// Whether the channel is safe, where that is known.
    pub fn is_safe(&self) -> (r: Option<bool>)
        ensures
            r == self.safe,
    {
        self.safe
    }

    /// The frame type, where one is known.
    pub fn get_frametype(&self) -> (r: Option<&str>)
        ensures
            r.is_some() == self.frametype.is_some(),
            r matches Some(t) ==> self.frametype matches Some(u) && t@ == u@,
    {
        borrow_optional_text(&self.frametype)
    }

    /// The detector model, where one is known.
    pub fn get_model(&self) -> (r: Option<&str>)
        ensures
            r.is_some() == self.model.is_some(),
            r matches Some(t) ==> self.model matches Some(u) && t@ == u@,
    {
        borrow_optional_text(&self.model)
    }
}

} // verus!
