//! Pairing observations with their stations and writing the report.

use crate::observation::WeatherData;
use crate::station::{lemma_uncovered_moment_has_no_owner, owner_index, Source};
use crate::timestamp::display_text;
use vstd::prelude::*;
use vstd::string::StringExecFns;

verus! {

/// The text that a report shows when it has no block.
pub open spec fn no_data_text() -> Seq<char> {
    "[no data]"@
}

/// What a block shows for the humidity: the reading and a percent sign, or a
/// dash where there is no reading.
pub open spec fn humidity_text(humidity: Option<String>) -> Seq<char> {
    match humidity {
        Some(reading) => reading@ + " %"@,
        None => "-"@,
    }
}

/// The block of one observation and its station: eleven labelled lines, with
/// `date` as the text of the observation's instant.
pub open spec fn block_text(observation: WeatherData, station: Source, date: Seq<char>) -> Seq<
    char,
> {
    "City: "@ + station.station_name@ + "\nDate: "@ + date + "\nType: "@
        + station.observation_type.label() + "\nCondition: "@ + observation.condition.label()
        + "\nTemperature: "@ + observation.temperature@ + " \u{b0}C"@ + "\nSunshine: "@
        + observation.sunshine@ + " min"@ + "\nPrecipitation: "@ + observation.precipitation@
        + " mm"@ + "\nWind Speed: "@ + observation.wind_speed@ + " km/h"@
        + "\nWind Gust Speed: "@ + observation.wind_gust_speed@ + " km/h"@ + "\nCloud Cover: "@
        + observation.cloud_cover@ + " %"@ + "\nHumidity: "@ + humidity_text(
        observation.relative_humidity,
    )
}

/// The block of a pair, dated as chrono displays the observation's instant.
pub open spec fn dated_block(pair: (WeatherData, Source)) -> Seq<char> {
    block_text(
        pair.0,
        pair.1,
        display_text(pair.0.timestamp@.seconds, pair.0.timestamp@.nanos, pair.0.timestamp@.offset),
    )
}

/// An observation together with the station that owns it.
pub struct WeatherDataSet<'a> {
    weather_data: &'a WeatherData,
    source: &'a Source,
}

impl<'a> View for WeatherDataSet<'a> {
    type V = (WeatherData, Source);

    closed spec fn view(&self) -> (WeatherData, Source) {
        (*self.weather_data, *self.source)
    }
}

impl<'a> WeatherDataSet<'a> {
    /// Pairs an observation with its station, where it has one.
    pub fn new(weather_data: &'a WeatherData, source: Option<&'a Source>) -> (set: Option<
        WeatherDataSet<'a>,
    >)
        ensures
            match source {
                Some(station) => set matches Some(pair) && pair@ == (*weather_data, *station),
                None => set is None,
            },
    {
        match source {
            Some(source) => Some(WeatherDataSet { weather_data, source }),
            None => None,
        }
    }

    /// The observation of the pair.
    pub fn weather_data(&self) -> (observation: &WeatherData)
        ensures
            *observation == self@.0,
    {
        self.weather_data
    }

    /// The station of the pair.
    pub fn source(&self) -> (station: &Source)
        ensures
            *station == self@.1,
    {
        self.source
    }

    /// Writes the block of the pair, with `date` as the text of the
    /// observation's instant.
    pub fn render_with_date(&self, date: &str) -> (text: String)
        ensures
            text@ == block_text(self@.0, self@.1, date@),
    {
        let observation = self.weather_data;
        let station = self.source;
        let mut text = String::from_str("City: ");
        text.append(station.station_name.as_str());
        text.append("\nDate: ");
        text.append(date);
        text.append("\nType: ");
        text.append(station.observation_type.as_str());
        text.append("\nCondition: ");
        text.append(observation.condition.as_str());
        text.append("\nTemperature: ");
        text.append(observation.temperature.as_str());
        text.append(" \u{b0}C");
        text.append("\nSunshine: ");
        text.append(observation.sunshine.as_str());
        text.append(" min");
        text.append("\nPrecipitation: ");
        text.append(observation.precipitation.as_str());
        text.append(" mm");
        text.append("\nWind Speed: ");
        text.append(observation.wind_speed.as_str());
        text.append(" km/h");
        text.append("\nWind Gust Speed: ");
        text.append(observation.wind_gust_speed.as_str());
        text.append(" km/h");
        text.append("\nCloud Cover: ");
        text.append(observation.cloud_cover.as_str());
        text.append(" %");
        text.append("\nHumidity: ");
        let ghost before = text@;
        match &observation.relative_humidity {
            Some(reading) => {
                text.append(reading.as_str());
                text.append(" %");
                assert(text@ =~= before + (reading@ + " %"@));
            },
            None => {
                text.append("-");
            },
        }
        text
    }

    /// Writes the block of the pair, dated as chrono displays the
    /// observation's instant.
    pub fn render(&self) -> (text: String)
        ensures
            text@ == dated_block(self@),
    {
        let date = self.weather_data.timestamp.to_text();
        self.render_with_date(date.as_str())
    }
}

/// The pairs of a response: each observation that has an owner among the
/// stations, with that owner, in the order of the observations.
pub open spec fn pairings(observations: Seq<WeatherData>, stations: Seq<Source>) -> Seq<
    (WeatherData, Source),
>
    decreases observations.len(),
{
    if observations.len() == 0 {
        seq![]
    } else {
        let earlier = pairings(observations.drop_last(), stations);
        let last = observations.last();
        match owner_index(stations, last.timestamp@) {
            Some(i) => earlier.push((last, stations[i])),
            None => earlier,
        }
    }
}

/// Blocks set one after the other with an empty line between two of them, or
/// the words for no data where there is no block.
pub open spec fn joined(blocks: Seq<Seq<char>>) -> Seq<char>
    decreases blocks.len(),
{
    if blocks.len() == 0 {
        no_data_text()
    } else if blocks.len() == 1 {
        blocks[0]
    } else {
        joined(blocks.drop_last()) + "\n\n"@ + blocks.last()
    }
}

/// The report of the given observations and stations.
pub open spec fn report_text(observations: Seq<WeatherData>, stations: Seq<Source>) -> Seq<char> {
    joined(pairings(observations, stations).map_values(|pair| dated_block(pair)))
}

/// An observation whose instant lies in no station's window is left out: the
/// pairs and the report are those of the other observations alone.
pub proof fn lemma_unowned_observation_is_left_out(
    observations: Seq<WeatherData>,
    stations: Seq<Source>,
    k: int,
)
    requires
        0 <= k < observations.len(),
        forall|j: int|
            0 <= j < stations.len() ==> !(#[trigger] stations[j]).covers(
                observations[k].timestamp@,
            ),
    ensures
        pairings(observations, stations) == pairings(observations.remove(k), stations),
        report_text(observations, stations) == report_text(observations.remove(k), stations),
    decreases observations.len(),
{
    let shorter = observations.drop_last();
    if k == observations.len() - 1 {
        lemma_uncovered_moment_has_no_owner(stations, observations[k].timestamp@);
        assert(observations.remove(k) =~= shorter);
    } else {
        lemma_unowned_observation_is_left_out(shorter, stations, k);
        assert(observations.remove(k).drop_last() =~= shorter.remove(k));
        assert(observations.remove(k).last() == observations.last());
    }
}

/// Where no observation's instant lies in a station's window, and so too
/// where there is no observation at all, there is no pair and the report is
/// `[no data]`.
pub proof fn lemma_report_without_owners_is_no_data(
    observations: Seq<WeatherData>,
    stations: Seq<Source>,
)
    requires
        forall|k: int, j: int|
            0 <= k < observations.len() && 0 <= j < stations.len() ==> !(
            #[trigger] stations[j]).covers((#[trigger] observations[k]).timestamp@),
    ensures
        pairings(observations, stations).len() == 0,
        report_text(observations, stations) == "[no data]"@,
    decreases observations.len(),
{
    if observations.len() > 0 {
        let shorter = observations.drop_last();
        assert forall|k: int, j: int|
            0 <= k < shorter.len() && 0 <= j < stations.len() implies !(
        #[trigger] stations[j]).covers((#[trigger] shorter[k]).timestamp@) by {
            assert(shorter[k] == observations[k]);
        }
        lemma_report_without_owners_is_no_data(shorter, stations);
        lemma_uncovered_moment_has_no_owner(stations, observations.last().timestamp@);
    }
}

/// Sets blocks one after the other with an empty line between two of them.
/// Without a block the result is `[no data]`.
pub fn join_blocks(blocks: &Vec<String>) -> (text: String)
    ensures
        text@ == joined(blocks@.map_values(|block: String| block@)),
{
    let ghost texts = blocks@.map_values(|block: String| block@);
    if blocks.len() == 0 {
        return String::from_str("[no data]");
    }
    let mut text = blocks[0].clone();
    assert(texts.take(1).len() == 1 && texts.take(1)[0] == texts[0]);
    let mut i: usize = 1;
    while i < blocks.len()
        invariant
            1 <= i <= blocks@.len(),
            texts == blocks@.map_values(|block: String| block@),
            text@ == joined(texts.take(i as int)),
        decreases blocks@.len() - i,
    {
        text.append("\n\n");
        text.append(blocks[i].as_str());
        proof {
            let longer = texts.take(i + 1);
            assert(longer.drop_last() =~= texts.take(i as int));
            assert(longer.last() == blocks@[i as int]@);
        }
        i += 1;
    }
    assert(texts.take(i as int) =~= texts);
    text
}

/// The observations of a response and the stations that made them.
#[derive(Debug, PartialEq)]
pub struct Response {
    weather: Vec<WeatherData>,
    sources: Vec<Source>,
}

impl Response {
    /// The observations, in the order of the response.
    pub closed spec fn observations(&self) -> Seq<WeatherData> {
        self.weather@
    }

    /// The stations, in the order of the response.
    pub closed spec fn stations(&self) -> Seq<Source> {
        self.sources@
    }

    /// Makes a response of observations and stations, keeping their order.
    pub fn new(weather: Vec<WeatherData>, sources: Vec<Source>) -> (response: Response)
        ensures
            response.observations() == weather@,
            response.stations() == sources@,
    {
        Response { weather, sources }
    }

    /// The observations, in the order of the response.
    pub fn weather_data(&self) -> (weather: &Vec<WeatherData>)
        ensures
            weather@ == self.observations(),
    {
        &self.weather
    }

    /// The stations, in the order of the response.
    pub fn sources(&self) -> (sources: &Vec<Source>)
        ensures
            sources@ == self.stations(),
    {
        &self.sources
    }

    /// Pairs each observation with the station that owns it. Observations
    /// without an owner are left out; the others keep their order.
    pub fn weather_data_sets(&self) -> (sets: Vec<WeatherDataSet<'_>>)
        ensures
            sets@.map_values(|set: WeatherDataSet| set@) == pairings(
                self.observations(),
                self.stations(),
            ),
    {
        let mut sets: Vec<WeatherDataSet<'_>> = Vec::new();
        let mut i: usize = 0;
        assert(self.weather@.take(0) =~= Seq::<WeatherData>::empty());
        while i < self.weather.len()
            invariant
                i <= self.weather@.len(),
                sets@.map_values(|set: WeatherDataSet| set@) =~= pairings(
                    self.weather@.take(i as int),
                    self.sources@,
                ),
            decreases self.weather@.len() - i,
        {
            let observation = &self.weather[i];
            let ghost before = sets@;
            proof {
                assert(self.weather@.take(i + 1).drop_last() =~= self.weather@.take(i as int));
                assert(self.weather@.take(i + 1).last() == self.weather@[i as int]);
            }
            match WeatherDataSet::new(observation, observation.source(&self.sources)) {
                Some(set) => {
                    sets.push(set);
                    assert(sets@.map_values(|set: WeatherDataSet| set@) =~= before.map_values(
                        |set: WeatherDataSet| set@,
                    ).push(set@));
                },
                None => {},
            }
            i += 1;
        }
        assert(self.weather@.take(i as int) =~= self.weather@);
        sets
    }

    /// Writes the report: the block of each observation that has an owner, in
    /// the order of the observations, with an empty line between two blocks.
    /// Where no observation has an owner the report is `[no data]`.
    pub fn render(&self) -> (text: String)
        ensures
            text@ == report_text(self.observations(), self.stations()),
    {
        let sets = self.weather_data_sets();
        let ghost pairs = sets@.map_values(|set: WeatherDataSet| set@);
        let mut blocks: Vec<String> = Vec::new();
        let mut i: usize = 0;
        while i < sets.len()
            invariant
                i <= sets@.len(),
                pairs == sets@.map_values(|set: WeatherDataSet| set@),
                blocks@.map_values(|block: String| block@) =~= pairs.take(i as int).map_values(
                    |pair| dated_block(pair),
                ),
            decreases sets@.len() - i,
        {
            let block = sets[i].render();
            let ghost before = blocks@;
            blocks.push(block);
            proof {
                assert(pairs[i as int] == sets@[i as int]@);
                assert(pairs.take(i + 1) =~= pairs.take(i as int).push(pairs[i as int]));
                assert(blocks@.map_values(|block: String| block@) =~= before.map_values(
                    |block: String| block@,
                ).push(block@));
            }
            i += 1;
        }
        assert(pairs.take(i as int) =~= pairs);
        join_blocks(&blocks)
    }
}

} // verus!
