//! Weather reports from Bright Sky observations.
//!
//! A response carries timestamped weather observations and the stations that
//! recorded them. Each observation is paired with the first station whose
//! record window holds the observation's instant, and the pairs are rendered
//! as a plain-text report.

pub mod categories;
pub mod error;
pub mod observation;
pub mod report;
pub mod station;
pub mod text;
pub mod timestamp;

pub use categories::{Condition, Icon, ObservationType};
pub use error::DecodeError;
pub use observation::WeatherData;
pub use report::{join_blocks, Response, WeatherDataSet};
pub use station::Source;
pub use timestamp::{deserialize, Moment, Timestamp};
