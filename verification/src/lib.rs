//! A typed model of a weather forecast document, the rule that decodes it
//! from a tree of JSON values, and the wording of its precipitation.

pub mod decode;
pub mod icon;
pub mod model;
pub mod number;
pub mod precipitation;
pub mod value;

pub use crate::decode::{decode_forecast, DecodeError};
pub use crate::icon::Icon;
pub use crate::model::{Block, Forecast, Point};
pub use crate::number::Number;
pub use crate::precipitation::Precipitation;
pub use crate::value::{Member, Value};
