//! The closed sets of values that a response names by a tag.

use crate::error::DecodeError;
use crate::text::same_text;
use vstd::prelude::*;

verus! {

/// The state of the sky at an observation.
#[derive(Debug, Clone, Copy, PartialEq, Eq, Structural)]
pub enum Condition {
    /// No precipitation.
    Dry,
    /// Fog.
    Fog,
    /// Rain.
    Rain,
    /// Sleet.
    Sleet,
    /// Snow.
    Snow,
    /// Hail.
    Hail,
    /// A thunderstorm.
    Thunderstorm,
    /// No condition was recorded.
    Null,
}

impl Condition {
    /// The tag that stands for this value in a response.
    pub open spec fn tag(self) -> Seq<char> {
        match self {
            Condition::Dry => "dry"@,
            Condition::Fog => "fog"@,
            Condition::Rain => "rain"@,
            Condition::Sleet => "sleet"@,
            Condition::Snow => "snow"@,
            Condition::Hail => "hail"@,
            Condition::Thunderstorm => "thunderstorm"@,
            Condition::Null => "null"@,
        }
    }

    /// Decodes a tag. A text that is the tag of no value is refused with
    /// [`DecodeError::UnknownCondition`].
    pub fn from_tag(tag: &str) -> (decoded: Result<Condition, DecodeError>)
        ensures
            match decoded {
                Ok(value) => tag@ == value.tag(),
                Err(e) => e == DecodeError::UnknownCondition && forall|value: Condition|
                    tag@ != #[trigger] value.tag(),
            },
            forall|value: Condition|
                tag@ == #[trigger] value.tag() ==> decoded == Ok::<Condition, DecodeError>(value),
    {
        let decoded = if same_text(tag, "dry") {
            Ok(Condition::Dry)
        } else if same_text(tag, "fog") {
            Ok(Condition::Fog)
        } else if same_text(tag, "rain") {
            Ok(Condition::Rain)
        } else if same_text(tag, "sleet") {
            Ok(Condition::Sleet)
        } else if same_text(tag, "snow") {
            Ok(Condition::Snow)
        } else if same_text(tag, "hail") {
            Ok(Condition::Hail)
        } else if same_text(tag, "thunderstorm") {
            Ok(Condition::Thunderstorm)
        } else if same_text(tag, "null") {
            Ok(Condition::Null)
        } else {
            Err(DecodeError::UnknownCondition)
        };
        proof {
            assert forall|value: Condition| tag@ == #[trigger] value.tag() implies decoded == Ok::<
                Condition,
                DecodeError,
            >(value) by {
                match decoded {
                    Ok(found) => lemma_condition_tags_differ(found, value),
                    Err(_) => {},
                }
            }
        }
        decoded
    }

    /// The words a report shows for this value.
    pub open spec fn label(self) -> Seq<char> {
        match self {
            Condition::Dry => "Dry"@,
            Condition::Fog => "Fog"@,
            Condition::Rain => "Rain"@,
            Condition::Sleet => "Sleet"@,
            Condition::Snow => "Snow"@,
            Condition::Hail => "Hail"@,
            Condition::Thunderstorm => "Thunder Storm"@,
            Condition::Null => "-"@,
        }
    }

    /// Returns the words a report shows for this value.
    pub fn as_str(&self) -> (words: &'static str)
        ensures
            words@ == self.label(),
    {
        match self {
            Condition::Dry => "Dry",
            Condition::Fog => "Fog",
            Condition::Rain => "Rain",
            Condition::Sleet => "Sleet",
            Condition::Snow => "Snow",
            Condition::Hail => "Hail",
            Condition::Thunderstorm => "Thunder Storm",
            Condition::Null => "-",
        }
    }
}

/// No two values of [`Condition`] share a tag, so a tag decodes to one value
/// at most.
pub proof fn lemma_condition_tags_differ(a: Condition, b: Condition)
    requires
        a.tag() == b.tag(),
    ensures
        a == b,
{
    reveal_strlit("dry");
    reveal_strlit("fog");
    reveal_strlit("rain");
    reveal_strlit("sleet");
    reveal_strlit("snow");
    reveal_strlit("hail");
    reveal_strlit("thunderstorm");
    reveal_strlit("null");
    assert(a.tag().len() == match a {
        Condition::Dry => 3nat,
        Condition::Fog => 3,
        Condition::Rain => 4,
        Condition::Sleet => 5,
        Condition::Snow => 4,
        Condition::Hail => 4,
        Condition::Thunderstorm => 12,
        Condition::Null => 4,
    });
    assert(a.tag()[0] == match a {
        Condition::Dry => 'd',
        Condition::Fog => 'f',
        Condition::Rain => 'r',
        Condition::Sleet => 's',
        Condition::Snow => 's',
        Condition::Hail => 'h',
        Condition::Thunderstorm => 't',
        Condition::Null => 'n',
    });
    assert(b.tag().len() == match b {
        Condition::Dry => 3nat,
        Condition::Fog => 3,
        Condition::Rain => 4,
        Condition::Sleet => 5,
        Condition::Snow => 4,
        Condition::Hail => 4,
        Condition::Thunderstorm => 12,
        Condition::Null => 4,
    });
    assert(b.tag()[0] == match b {
        Condition::Dry => 'd',
        Condition::Fog => 'f',
        Condition::Rain => 'r',
        Condition::Sleet => 's',
        Condition::Snow => 's',
        Condition::Hail => 'h',
        Condition::Thunderstorm => 't',
        Condition::Null => 'n',
    });
}

/// The picture that goes with an observation.
#[derive(Debug, Clone, Copy, PartialEq, Eq, Structural)]
pub enum Icon {
    /// A clear sky by day.
    ClearDay,
    /// A clear sky by night.
    ClearNight,
    /// Some clouds by day.
    PartlyCloudyDay,
    /// Some clouds by night.
    PartlyCloudyNight,
    /// An overcast sky.
    Cloudy,
    /// Fog.
    Fog,
    /// Wind.
    Wind,
    /// Rain.
    Rain,
    /// Sleet.
    Sleet,
    /// Snow.
    Snow,
    /// Hail.
    Hail,
    /// A thunderstorm.
    Thunderstorm,
    /// No icon was chosen.
    Null,
}

impl Icon {
    /// The tag that stands for this value in a response.
    pub open spec fn tag(self) -> Seq<char> {
        match self {
            Icon::ClearDay => "clear-day"@,
            Icon::ClearNight => "clear-night"@,
            Icon::PartlyCloudyDay => "partly-cloudy-day"@,
            Icon::PartlyCloudyNight => "partly-cloudy-night"@,
            Icon::Cloudy => "cloudy"@,
            Icon::Fog => "fog"@,
            Icon::Wind => "wind"@,
            Icon::Rain => "rain"@,
            Icon::Sleet => "sleet"@,
            Icon::Snow => "snow"@,
            Icon::Hail => "hail"@,
            Icon::Thunderstorm => "thunderstorm"@,
            Icon::Null => "null"@,
        }
    }

    /// Decodes a tag. A text that is the tag of no value is refused with
    /// [`DecodeError::UnknownIcon`].
    pub fn from_tag(tag: &str) -> (decoded: Result<Icon, DecodeError>)
        ensures
            match decoded {
                Ok(value) => tag@ == value.tag(),
                Err(e) => e == DecodeError::UnknownIcon && forall|value: Icon|
                    tag@ != #[trigger] value.tag(),
            },
            forall|value: Icon|
                tag@ == #[trigger] value.tag() ==> decoded == Ok::<Icon, DecodeError>(value),
    {
        let decoded = if same_text(tag, "clear-day") {
            Ok(Icon::ClearDay)
        } else if same_text(tag, "clear-night") {
            Ok(Icon::ClearNight)
        } else if same_text(tag, "partly-cloudy-day") {
            Ok(Icon::PartlyCloudyDay)
        } else if same_text(tag, "partly-cloudy-night") {
            Ok(Icon::PartlyCloudyNight)
        } else if same_text(tag, "cloudy") {
            Ok(Icon::Cloudy)
        } else if same_text(tag, "fog") {
            Ok(Icon::Fog)
        } else if same_text(tag, "wind") {
            Ok(Icon::Wind)
        } else if same_text(tag, "rain") {
            Ok(Icon::Rain)
        } else if same_text(tag, "sleet") {
            Ok(Icon::Sleet)
        } else if same_text(tag, "snow") {
            Ok(Icon::Snow)
        } else if same_text(tag, "hail") {
            Ok(Icon::Hail)
        } else if same_text(tag, "thunderstorm") {
            Ok(Icon::Thunderstorm)
        } else if same_text(tag, "null") {
            Ok(Icon::Null)
        } else {
            Err(DecodeError::UnknownIcon)
        };
        proof {
            assert forall|value: Icon| tag@ == #[trigger] value.tag() implies decoded == Ok::<
                Icon,
                DecodeError,
            >(value) by {
                match decoded {
                    Ok(found) => lemma_icon_tags_differ(found, value),
                    Err(_) => {},
                }
            }
        }
        decoded
    }
}

/// No two values of [`Icon`] share a tag, so a tag decodes to one value
/// at most.
pub proof fn lemma_icon_tags_differ(a: Icon, b: Icon)
    requires
        a.tag() == b.tag(),
    ensures
        a == b,
{
    reveal_strlit("clear-day");
    reveal_strlit("clear-night");
    reveal_strlit("partly-cloudy-day");
    reveal_strlit("partly-cloudy-night");
    reveal_strlit("cloudy");
    reveal_strlit("fog");
    reveal_strlit("wind");
    reveal_strlit("rain");
    reveal_strlit("sleet");
    reveal_strlit("snow");
    reveal_strlit("hail");
    reveal_strlit("thunderstorm");
    reveal_strlit("null");
    assert(a.tag().len() == match a {
        Icon::ClearDay => 9nat,
        Icon::ClearNight => 11,
        Icon::PartlyCloudyDay => 17,
        Icon::PartlyCloudyNight => 19,
        Icon::Cloudy => 6,
        Icon::Fog => 3,
        Icon::Wind => 4,
        Icon::Rain => 4,
        Icon::Sleet => 5,
        Icon::Snow => 4,
        Icon::Hail => 4,
        Icon::Thunderstorm => 12,
        Icon::Null => 4,
    });
    assert(a.tag()[0] == match a {
        Icon::ClearDay => 'c',
        Icon::ClearNight => 'c',
        Icon::PartlyCloudyDay => 'p',
        Icon::PartlyCloudyNight => 'p',
        Icon::Cloudy => 'c',
        Icon::Fog => 'f',
        Icon::Wind => 'w',
        Icon::Rain => 'r',
        Icon::Sleet => 's',
        Icon::Snow => 's',
        Icon::Hail => 'h',
        Icon::Thunderstorm => 't',
        Icon::Null => 'n',
    });
    assert(b.tag().len() == match b {
        Icon::ClearDay => 9nat,
        Icon::ClearNight => 11,
        Icon::PartlyCloudyDay => 17,
        Icon::PartlyCloudyNight => 19,
        Icon::Cloudy => 6,
        Icon::Fog => 3,
        Icon::Wind => 4,
        Icon::Rain => 4,
        Icon::Sleet => 5,
        Icon::Snow => 4,
        Icon::Hail => 4,
        Icon::Thunderstorm => 12,
        Icon::Null => 4,
    });
    assert(b.tag()[0] == match b {
        Icon::ClearDay => 'c',
        Icon::ClearNight => 'c',
        Icon::PartlyCloudyDay => 'p',
        Icon::PartlyCloudyNight => 'p',
        Icon::Cloudy => 'c',
        Icon::Fog => 'f',
        Icon::Wind => 'w',
        Icon::Rain => 'r',
        Icon::Sleet => 's',
        Icon::Snow => 's',
        Icon::Hail => 'h',
        Icon::Thunderstorm => 't',
        Icon::Null => 'n',
    });
}

/// How the readings of a station came about.
#[derive(Debug, Clone, Copy, PartialEq, Eq, Structural)]
pub enum ObservationType {
    /// A forecast.
    Forecast,
    /// A SYNOP report of a weather station.
    Synop,
    /// The latest reading.
    Current,
    /// A reading of the last days.
    Recent,
    /// A reading from the archive.
    Historical,
}

impl ObservationType {
    /// The tag that stands for this value in a response.
    pub open spec fn tag(self) -> Seq<char> {
        match self {
            ObservationType::Forecast => "forecast"@,
            ObservationType::Synop => "synop"@,
            ObservationType::Current => "current"@,
            ObservationType::Recent => "recent"@,
            ObservationType::Historical => "historical"@,
        }
    }

    /// Decodes a tag. A text that is the tag of no value is refused with
    /// [`DecodeError::UnknownObservationType`].
    pub fn from_tag(tag: &str) -> (decoded: Result<ObservationType, DecodeError>)
        ensures
            match decoded {
                Ok(value) => tag@ == value.tag(),
                Err(e) => e == DecodeError::UnknownObservationType && forall|value: ObservationType|
                    tag@ != #[trigger] value.tag(),
            },
            forall|value: ObservationType|
                tag@ == #[trigger] value.tag() ==> decoded == Ok::<ObservationType, DecodeError>(value),
    {
        let decoded = if same_text(tag, "forecast") {
            Ok(ObservationType::Forecast)
        } else if same_text(tag, "synop") {
            Ok(ObservationType::Synop)
        } else if same_text(tag, "current") {
            Ok(ObservationType::Current)
        } else if same_text(tag, "recent") {
            Ok(ObservationType::Recent)
        } else if same_text(tag, "historical") {
            Ok(ObservationType::Historical)
        } else {
            Err(DecodeError::UnknownObservationType)
        };
        proof {
            assert forall|value: ObservationType| tag@ == #[trigger] value.tag() implies decoded == Ok::<
                ObservationType,
                DecodeError,
            >(value) by {
                match decoded {
                    Ok(found) => lemma_observation_type_tags_differ(found, value),
                    Err(_) => {},
                }
            }
        }
        decoded
    }

    /// The words a report shows for this value.
    pub open spec fn label(self) -> Seq<char> {
        match self {
            ObservationType::Forecast => "Forecast"@,
            ObservationType::Synop => "SYNOP"@,
            ObservationType::Current => "Current"@,
            ObservationType::Recent => "Recent"@,
            ObservationType::Historical => "Historical"@,
        }
    }

    /// Returns the words a report shows for this value.
    pub fn as_str(&self) -> (words: &'static str)
        ensures
            words@ == self.label(),
    {
        match self {
            ObservationType::Forecast => "Forecast",
            ObservationType::Synop => "SYNOP",
            ObservationType::Current => "Current",
            ObservationType::Recent => "Recent",
            ObservationType::Historical => "Historical",
        }
    }
}

/// No two values of [`ObservationType`] share a tag, so a tag decodes to one value
/// at most.
pub proof fn lemma_observation_type_tags_differ(a: ObservationType, b: ObservationType)
    requires
        a.tag() == b.tag(),
    ensures
        a == b,
{
    reveal_strlit("forecast");
    reveal_strlit("synop");
    reveal_strlit("current");
    reveal_strlit("recent");
    reveal_strlit("historical");
    assert(a.tag().len() == match a {
        ObservationType::Forecast => 8nat,
        ObservationType::Synop => 5,
        ObservationType::Current => 7,
        ObservationType::Recent => 6,
        ObservationType::Historical => 10,
    });
    assert(b.tag().len() == match b {
        ObservationType::Forecast => 8nat,
        ObservationType::Synop => 5,
        ObservationType::Current => 7,
        ObservationType::Recent => 6,
        ObservationType::Historical => 10,
    });
}

} // verus!
