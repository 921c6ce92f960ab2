//! The weather-condition icon table: which emoji stands for a condition
//! code of the weather service's responses.

use vstd::prelude::*;

verus! {

/// One condition entry of a weather response: the numeric condition code and
/// its human-readable description.
#[derive(Debug, PartialEq, Eq)]
pub struct WeatherResponseWeather {
    pub id: i64,
    pub description: String,
}

impl WeatherResponseWeather {
    /// The icon for this condition, if its code has one.
    pub fn icon(&self) -> (r: Option<&'static str>)
        ensures
            r == icon_spec(self.id),
    {
        get_icon(self.id)
    }
}

/// The icon for a condition code: codes group by hundreds (thunderstorm,
/// drizzle, rain, snow, atmosphere, clear/clouds), with the atmosphere and
/// clear/clouds groups refined by the remainder. Codes with no icon yield
/// nothing.
pub open spec fn icon_spec(id: i64) -> Option<&'static str> {
    if id < 0 {
        None
    } else {
        let group = id as int / 100;
        let remainder = id as int % 100;
        if group == 2 {
            Some("⛈")
        } else if group == 3 || group == 5 {
            Some("🌧")
        } else if group == 6 {
            Some("🌨")
        } else if group == 7 {
            if remainder == 1 || remainder == 21 || remainder == 41 {
                Some("🌫")
            } else if remainder == 11 {
                Some("🔥💨")
            } else if remainder == 31 || remainder == 51 || remainder == 61 {
                Some("🏜💨")
            } else if remainder == 62 {
                Some("🌋💨")
            } else if remainder == 71 || remainder == 81 {
                Some("🌪")
            } else {
                None
            }
        } else if group == 8 {
            if remainder == 0 {
                Some("☀️")
            } else if remainder == 1 {
                Some("🌤")
            } else if remainder == 2 {
                Some("⛅️")
            } else if remainder == 3 {
                Some("🌥")
            } else if remainder == 4 {
                Some("☁️")
            } else {
                None
            }
        } else {
            None
        }
    }
}

/// The icon shown beside a weather description, if the condition code has
/// one.
pub fn get_icon(id: i64) -> (r: Option<&'static str>)
    ensures
        r == icon_spec(id),
{
    if id < 0 {
        return None;
    }
    let code = id as u64;
    let group: u64 = code / 100;
    let remainder: u64 = code % 100;
    match group {
        2 => Some("⛈"),
        3 | 5 => Some("🌧"),
        6 => Some("🌨"),
        7 => match remainder {
            1 | 21 | 41 => Some("🌫"),
            11 => Some("🔥💨"),
            31 | 51 | 61 => Some("🏜💨"),
            62 => Some("🌋💨"),
            71 | 81 => Some("🌪"),
            _ => None,
        },
        8 => match remainder {
            0 => Some("☀️"),
            1 => Some("🌤"),
            2 => Some("⛅️"),
            3 => Some("🌥"),
            4 => Some("☁️"),
            _ => None,
        },
        _ => None,
    }
}

} // verus!
