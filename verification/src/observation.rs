//! Observations and the station each one belongs to.

use crate::categories::Condition;
use crate::station::{lemma_first_covering_station_owns, lemma_uncovered_moment_has_no_owner};
use crate::station::{owner_index, Source};
use crate::timestamp::Timestamp;
use serde_json::Value;
use vstd::prelude::*;

verus! {

/// serde_json's value of any shape. An observation carries one along and
/// never looks inside.
#[verifier::external_type_specification]
#[verifier::external_body]
pub struct ExValue(Value);

/// One reading of the weather. Every number that is only shown or handed on
/// is kept as its decimal text.
#[derive(Debug, PartialEq)]
pub struct WeatherData {
    /// The instant of the reading.
    pub timestamp: Timestamp,
    /// The station the response names for the reading. The owner is found by
    /// time, not by this number.
    pub source_id: i32,
    /// Precipitation in millimetres.
    pub precipitation: String,
    /// Pressure at sea level in hectopascal.
    pub pressure_msl: String,
    /// Sunshine in minutes.
    pub sunshine: String,
    /// Temperature in degrees Celsius.
    pub temperature: String,
    /// Wind direction in degrees.
    pub wind_direction: String,
    /// Wind speed in kilometres an hour.
    pub wind_speed: String,
    /// Cloud cover in percent.
    pub cloud_cover: String,
    /// Dew point in degrees Celsius.
    pub dew_point: String,
    /// Relative humidity in percent, if it was measured.
    pub relative_humidity: Option<String>,
    /// Visibility in metres.
    pub visibility: String,
    /// Direction of the strongest gust in degrees, if it was measured.
    pub wind_gust_direction: Option<String>,
    /// Speed of the strongest gust in kilometres an hour.
    pub wind_gust_speed: String,
    /// The state of the sky.
    pub condition: Condition,
    /// The name of the picture that goes with the reading.
    pub icon: String,
    /// Stations that filled gaps in the reading, as the response gave them.
    pub fallback_source_ids: Option<Value>,
}

impl WeatherData {
    /// Finds the station that owns the observation: the first in `sources`
    /// whose window holds the observation's instant. The stations are tried in
    /// the order of the list, so where windows overlap the earlier station
    /// wins. No station is returned where no window holds the instant.
    pub fn source<'a>(&self, sources: &'a Vec<Source>) -> (found: Option<&'a Source>)
        ensures
            match owner_index(sources@, self.timestamp@) {
                Some(i) => found == Some(&sources@[i]),
                None => found is None,
            },
    {
        let mut i: usize = 0;
        while i < sources.len()
            invariant
                i <= sources@.len(),
                forall|j: int| 0 <= j < i ==> !(#[trigger] sources@[j]).covers(self.timestamp@),
            decreases sources@.len() - i,
        {
            if sources[i].contains(&self.timestamp) {
                proof {
                    lemma_first_covering_station_owns(sources@, self.timestamp@, i as int);
                }
                return Some(&sources[i]);
            }
            i += 1;
        }
        proof {
            lemma_uncovered_moment_has_no_owner(sources@, self.timestamp@);
        }
        None
    }
}

} // verus!
