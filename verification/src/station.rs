//! Stations and the span of time each one answers for.

use crate::categories::ObservationType;
use crate::timestamp::{Moment, Timestamp};
use vstd::prelude::*;

verus! {

/// A station: where observations come from. Every number that is only shown
/// or handed on is kept as its decimal text.
#[derive(Debug, PartialEq)]
pub struct Source {
    /// The number of the station within its response.
    pub id: i32,
    /// The station's code at the German weather service, if it has one.
    pub dwd_station_id: Option<String>,
    /// How the station's readings came about.
    pub observation_type: ObservationType,
    /// Latitude in degrees.
    pub lat: String,
    /// Longitude in degrees.
    pub lon: String,
    /// Height above sea level in metres.
    pub height: String,
    /// The name shown for the station.
    pub station_name: String,
    /// The station's code at the World Meteorological Organization.
    pub wmo_station_id: String,
    /// The first instant the station answers for.
    pub first_record: Timestamp,
    /// The last instant the station answers for.
    pub last_record: Timestamp,
    /// Distance from the place that was asked about.
    pub distance: String,
}

impl Source {
    /// Whether the moment lies in the station's window, both ends counted.
    pub open spec fn covers(&self, at: Moment) -> bool {
        self.first_record@.at_or_before(at) && at.at_or_before(self.last_record@)
    }

    /// Tells whether the instant lies in the station's window, both ends
    /// counted. Instants are compared as points in time, whatever their
    /// offsets.
    pub fn contains(&self, time: &Timestamp) -> (inside: bool)
        ensures
            inside == self.covers(time@),
    {
        self.first_record.at_or_before(time) && time.at_or_before(&self.last_record)
    }
}

/// The place in `stations` of the station that owns the moment: the first one
/// whose window covers it. There is none where no window covers it.
pub open spec fn owner_index(stations: Seq<Source>, at: Moment) -> Option<int>
    decreases stations.len(),
{
    if stations.len() == 0 {
        None
    } else if stations[0].covers(at) {
        Some(0)
    } else {
        match owner_index(stations.drop_first(), at) {
            Some(i) => Some(i + 1),
            None => None,
        }
    }
}

/// A station whose window covers the moment, with no such station before it,
/// is the owner.
pub proof fn lemma_first_covering_station_owns(stations: Seq<Source>, at: Moment, i: int)
    requires
        0 <= i < stations.len(),
        stations[i].covers(at),
        forall|j: int| 0 <= j < i ==> !(#[trigger] stations[j]).covers(at),
    ensures
        owner_index(stations, at) == Some(i),
    decreases stations.len(),
{
    if i > 0 {
        let rest = stations.drop_first();
        assert forall|j: int| 0 <= j < i - 1 implies !(#[trigger] rest[j]).covers(at) by {
            assert(rest[j] == stations[j + 1]);
        }
        lemma_first_covering_station_owns(rest, at, i - 1);
    }
}

/// Where no window covers the moment, there is no owner.
pub proof fn lemma_uncovered_moment_has_no_owner(stations: Seq<Source>, at: Moment)
    requires
        forall|j: int| 0 <= j < stations.len() ==> !(#[trigger] stations[j]).covers(at),
    ensures
        owner_index(stations, at) is None,
    decreases stations.len(),
{
    if stations.len() > 0 {
        let rest = stations.drop_first();
        assert forall|j: int| 0 <= j < rest.len() implies !(#[trigger] rest[j]).covers(at) by {
            assert(rest[j] == stations[j + 1]);
        }
        lemma_uncovered_moment_has_no_owner(rest, at);
    }
}

/// The owner's window covers the moment, and no window before it does. No
/// owner means that no window covers the moment.
pub proof fn lemma_owner_is_first_covering(stations: Seq<Source>, at: Moment)
    ensures
        match owner_index(stations, at) {
            Some(i) => {
                &&& 0 <= i < stations.len()
                &&& stations[i].covers(at)
                &&& forall|j: int| 0 <= j < i ==> !(#[trigger] stations[j]).covers(at)
            },
            None => forall|j: int|
                0 <= j < stations.len() ==> !(#[trigger] stations[j]).covers(at),
        },
    decreases stations.len(),
{
    if stations.len() > 0 && !stations[0].covers(at) {
        let rest = stations.drop_first();
        lemma_owner_is_first_covering(rest, at);
        match owner_index(rest, at) {
            Some(i) => {
                assert(rest[i] == stations[i + 1]);
                assert forall|j: int| 0 <= j < i + 1 implies !(#[trigger] stations[j]).covers(
                    at,
                ) by {
                    if j > 0 {
                        assert(rest[j - 1] == stations[j]);
                    }
                }
            },
            None => {
                assert forall|j: int| 0 <= j < stations.len() implies !(
                #[trigger] stations[j]).covers(at) by {
                    if j > 0 {
                        assert(rest[j - 1] == stations[j]);
                    }
                }
            },
        }
    }
}

/// A station alone in the list owns every moment of its window.
pub proof fn lemma_sole_station_owns_its_window(station: Source, at: Moment)
    requires
        station.covers(at),
    ensures
        owner_index(seq![station], at) == Some(0int),
{
    assert(seq![station][0] == station);
}

/// Of two stations whose windows both cover a moment, the one listed first
/// owns it.
pub proof fn lemma_first_listed_station_wins(first: Source, second: Source, at: Moment)
    requires
        first.covers(at),
        second.covers(at),
    ensures
        owner_index(seq![first, second], at) == Some(0int),
{
    assert(seq![first, second][0] == first);
}

/// A station whose window covers a moment has its first record at or before
/// its last: a window the wrong way round covers nothing.
pub proof fn lemma_covering_window_is_ordered(station: Source, at: Moment)
    requires
        station.covers(at),
    ensures
        station.first_record@.at_or_before(station.last_record@),
{
}

} // verus!
