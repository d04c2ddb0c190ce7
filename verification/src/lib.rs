//! Data model for instrument time series: unit-tagged arrays, series with a
//! sampling axis, time series, channel records and interval algebra.

pub mod array;
pub mod channel;
pub mod error;
pub mod segments;
pub mod series;
pub mod timeseries;
pub mod units;
