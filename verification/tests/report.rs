use brightsky_rs::{
    deserialize, join_blocks, Condition, ObservationType, Response, Source, WeatherData,
    WeatherDataSet,
};
use serde_json::Value;

fn berlin() -> Source {
    Source {
        id: 1,
        dwd_station_id: None,
        observation_type: ObservationType::Synop,
        lat: format!("{}", 52.52f32),
        lon: format!("{}", 13.4f32),
        height: format!("{}", 34f32),
        station_name: "Berlin".to_string(),
        wmo_station_id: "10384".to_string(),
        first_record: deserialize("2020-04-21T00:00:00+02:00").unwrap(),
        last_record: deserialize("2020-04-22T00:00:00+02:00").unwrap(),
        distance: format!("{}", 0f32),
    }
}

fn potsdam() -> Source {
    Source {
        id: 2,
        dwd_station_id: Some("03987".to_string()),
        observation_type: ObservationType::Historical,
        lat: format!("{}", 52.38f32),
        lon: format!("{}", 13.06f32),
        height: format!("{}", 81f32),
        station_name: "Potsdam".to_string(),
        wmo_station_id: "10379".to_string(),
        first_record: deserialize("2020-04-22T00:00:01+02:00").unwrap(),
        last_record: deserialize("2020-04-23T00:00:00+02:00").unwrap(),
        distance: format!("{}", 27000f32),
    }
}

fn reading(time: &str, humidity: Option<f32>) -> WeatherData {
    WeatherData {
        timestamp: deserialize(time).unwrap(),
        source_id: 1,
        precipitation: format!("{}", 0f32),
        pressure_msl: format!("{}", 1015.1f32),
        sunshine: format!("{}", 0f32),
        temperature: format!("{}", 13.2f32),
        wind_direction: format!("{}", 270f32),
        wind_speed: format!("{}", 10f32),
        cloud_cover: format!("{}", 80f32),
        dew_point: format!("{}", 5.5f32),
        relative_humidity: humidity.map(|h| format!("{}", h)),
        visibility: format!("{}", 20000f32),
        wind_gust_direction: None,
        wind_gust_speed: format!("{}", 15f32),
        condition: Condition::Rain,
        icon: "rain".to_string(),
        fallback_source_ids: None,
    }
}

const BERLIN_BLOCK: &str = "City: Berlin
Date: 2020-04-21 02:00:00 +00:00
Type: SYNOP
Condition: Rain
Temperature: 13.2 °C
Sunshine: 0 min
Precipitation: 0 mm
Wind Speed: 10 km/h
Wind Gust Speed: 15 km/h
Cloud Cover: 80 %
Humidity: -";

#[test]
fn render_writes_the_block_of_a_matched_observation() {
    let response = Response::new(vec![reading("2020-04-21T02:00:00+00:00", None)], vec![berlin()]);
    assert_eq!(response.render(), BERLIN_BLOCK);
}

#[test]
fn render_shows_the_humidity_where_it_was_measured() {
    let response =
        Response::new(vec![reading("2020-04-21T02:00:00+00:00", Some(55.0))], vec![berlin()]);
    let expected = BERLIN_BLOCK.replace("Humidity: -", "Humidity: 55 %");
    assert_eq!(response.render(), expected);
}

#[test]
fn render_has_eleven_lines_in_a_block() {
    let response = Response::new(vec![reading("2020-04-21T02:00:00+00:00", None)], vec![berlin()]);
    let text = response.render();
    let labels: Vec<&str> = text.lines().map(|line| line.split(':').next().unwrap()).collect();
    assert_eq!(
        labels,
        vec![
            "City",
            "Date",
            "Type",
            "Condition",
            "Temperature",
            "Sunshine",
            "Precipitation",
            "Wind Speed",
            "Wind Gust Speed",
            "Cloud Cover",
            "Humidity",
        ]
    );
}

#[test]
fn render_without_observations_is_no_data() {
    assert_eq!(Response::new(vec![], vec![berlin()]).render(), "[no data]");
    assert_eq!(Response::new(vec![], vec![]).render(), "[no data]");
}

#[test]
fn render_without_a_match_is_no_data() {
    let response = Response::new(
        vec![
            reading("2020-04-20T21:59:59+00:00", None),
            reading("2020-04-25T00:00:00+00:00", Some(40.0)),
        ],
        vec![berlin(), potsdam()],
    );
    assert_eq!(response.render(), "[no data]");
    let response = Response::new(vec![reading("2020-04-21T02:00:00+00:00", None)], vec![]);
    assert_eq!(response.render(), "[no data]");
}

#[test]
fn render_leaves_out_an_observation_without_a_station() {
    let with_stray = Response::new(
        vec![
            reading("2020-04-19T00:00:00+00:00", None),
            reading("2020-04-21T02:00:00+00:00", None),
            reading("2020-04-30T00:00:00+00:00", None),
        ],
        vec![berlin()],
    );
    assert_eq!(with_stray.render(), BERLIN_BLOCK);
}

#[test]
fn render_parts_blocks_by_one_empty_line() {
    let response = Response::new(
        vec![
            reading("2020-04-21T02:00:00+00:00", None),
            reading("2020-04-22T10:00:00+02:00", Some(61.5)),
        ],
        vec![berlin(), potsdam()],
    );
    let second = "City: Potsdam
Date: 2020-04-22 10:00:00 +02:00
Type: Historical
Condition: Rain
Temperature: 13.2 °C
Sunshine: 0 min
Precipitation: 0 mm
Wind Speed: 10 km/h
Wind Gust Speed: 15 km/h
Cloud Cover: 80 %
Humidity: 61.5 %";
    assert_eq!(response.render(), format!("{}\n\n{}", BERLIN_BLOCK, second));
}

#[test]
fn render_keeps_the_order_of_the_observations() {
    let response = Response::new(
        vec![
            reading("2020-04-22T10:00:00+02:00", None),
            reading("2020-04-21T02:00:00+00:00", None),
            reading("2020-04-22T11:00:00+02:00", None),
        ],
        vec![berlin(), potsdam()],
    );
    let text = response.render();
    let cities: Vec<&str> = text.lines().filter(|line| line.starts_with("City: ")).collect();
    assert_eq!(cities, vec!["City: Potsdam", "City: Berlin", "City: Potsdam"]);
    assert_eq!(text.matches("\n\n").count(), 2);
    assert!(!text.ends_with('\n'));
}

#[test]
fn render_shows_a_dash_for_no_condition() {
    let mut observation = reading("2020-04-21T02:00:00+00:00", None);
    observation.condition = Condition::Null;
    let response = Response::new(vec![observation], vec![berlin()]);
    let expected = BERLIN_BLOCK.replace("Condition: Rain", "Condition: -");
    assert_eq!(response.render(), expected);
}

#[test]
fn render_shows_the_words_of_a_thunderstorm() {
    let mut observation = reading("2020-04-21T02:00:00+00:00", None);
    observation.condition = Condition::Thunderstorm;
    let response = Response::new(vec![observation], vec![berlin()]);
    assert!(response.render().contains("\nCondition: Thunder Storm\n"));
}

#[test]
fn weather_data_sets_pairs_each_observation_with_its_owner() {
    let response = Response::new(
        vec![
            reading("2020-04-22T10:00:00+02:00", None),
            reading("2020-04-19T00:00:00+00:00", None),
            reading("2020-04-21T02:00:00+00:00", Some(55.0)),
        ],
        vec![berlin(), potsdam()],
    );
    let sets = response.weather_data_sets();
    assert_eq!(sets.len(), 2);
    assert_eq!(sets[0].weather_data(), &response.weather_data()[0]);
    assert_eq!(sets[0].source(), &response.sources()[1]);
    assert_eq!(sets[1].weather_data(), &response.weather_data()[2]);
    assert_eq!(sets[1].source(), &response.sources()[0]);
}

#[test]
fn weather_data_sets_is_empty_without_a_match() {
    let response = Response::new(vec![reading("2020-04-19T00:00:00+00:00", None)], vec![berlin()]);
    assert!(response.weather_data_sets().is_empty());
}

#[test]
fn response_keeps_what_it_was_made_of() {
    let response = Response::new(
        vec![reading("2020-04-21T02:00:00+00:00", None), reading("2020-04-21T03:00:00+00:00", None)],
        vec![berlin(), potsdam()],
    );
    assert_eq!(response.weather_data().len(), 2);
    assert_eq!(response.weather_data()[1], reading("2020-04-21T03:00:00+00:00", None));
    assert_eq!(response.sources().len(), 2);
    assert_eq!(response.sources()[0], berlin());
    assert_eq!(response.sources()[1], potsdam());
}

#[test]
fn pair_is_made_only_with_a_station() {
    let observation = reading("2020-04-21T02:00:00+00:00", None);
    let station = berlin();
    assert!(WeatherDataSet::new(&observation, None).is_none());
    let pair = WeatherDataSet::new(&observation, Some(&station)).unwrap();
    assert_eq!(pair.weather_data(), &observation);
    assert_eq!(pair.source(), &station);
}

#[test]
fn pair_renders_its_block() {
    let observation = reading("2020-04-21T02:00:00+00:00", None);
    let station = berlin();
    let pair = WeatherDataSet::new(&observation, Some(&station)).unwrap();
    assert_eq!(pair.render(), BERLIN_BLOCK);
}

#[test]
fn pair_renders_the_date_it_is_given() {
    let observation = reading("2020-04-21T02:00:00+00:00", Some(55.0));
    let station = potsdam();
    let pair = WeatherDataSet::new(&observation, Some(&station)).unwrap();
    let expected = "City: Potsdam
Date: some day
Type: Historical
Condition: Rain
Temperature: 13.2 °C
Sunshine: 0 min
Precipitation: 0 mm
Wind Speed: 10 km/h
Wind Gust Speed: 15 km/h
Cloud Cover: 80 %
Humidity: 55 %";
    assert_eq!(pair.render_with_date("some day"), expected);
}

#[test]
fn pair_renders_the_date_in_the_offset_of_the_observation() {
    let observation = reading("2020-04-21T04:00:00+02:00", None);
    let station = berlin();
    let pair = WeatherDataSet::new(&observation, Some(&station)).unwrap();
    assert!(pair.render().contains("\nDate: 2020-04-21 04:00:00 +02:00\n"));
}

#[test]
fn join_blocks_without_blocks_is_no_data() {
    assert_eq!(join_blocks(&vec![]), "[no data]");
}

#[test]
fn join_blocks_of_one_block_is_that_block() {
    assert_eq!(join_blocks(&vec!["one".to_string()]), "one");
    assert_eq!(join_blocks(&vec![String::new()]), "");
}

#[test]
fn join_blocks_sets_an_empty_line_between_blocks() {
    let blocks = vec!["one".to_string(), "two".to_string(), "three".to_string()];
    assert_eq!(join_blocks(&blocks), "one\n\ntwo\n\nthree");
}

#[test]
fn fallback_sources_are_carried_along() {
    let mut observation = reading("2020-04-21T02:00:00+00:00", None);
    let mut ids = serde_json::Map::new();
    ids.insert("pressure_msl".to_string(), Value::from(11831));
    observation.fallback_source_ids = Some(Value::Object(ids.clone()));
    let response = Response::new(vec![observation], vec![berlin()]);
    assert_eq!(response.weather_data()[0].fallback_source_ids, Some(Value::Object(ids)));
    assert_eq!(response.render(), BERLIN_BLOCK);
}
