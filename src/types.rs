//! Daily forecast records and their condensed per-day summaries.
use vstd::prelude::*;
use vstd::string::{StrSliceExecFns, StringExecFns};
use crate::text::spells_at;

verus! {

/// A forecast as the weather service reports it.
#[derive(Default, Debug, Clone, PartialEq)]
pub struct Weather {
    pub days: Vec<WeatherDay>,
    pub units: Units,
    pub issue_date_time: String,
}

/// One forecast day and its entries.
#[derive(Default, Debug, Clone, PartialEq)]
pub struct WeatherDay {
    pub date_time: String,
    pub entries: Vec<WeatherEntry>,
}

/// One forecast entry of a day.
#[derive(Default, Debug, Clone, PartialEq)]
pub struct WeatherEntry {
    pub date_time: String,
    pub precis_code: String,
    pub precis: String,
    pub precis_overlay_code: String,
    pub night: bool,
    pub min: i64,
    pub max: i64,
}

/// Units of the reported values.
#[derive(Default, Debug, Clone, PartialEq)]
pub struct Units {
    pub temperature: String,
}

/// What is shown of one day: its first entry's figures and a pictogram.
#[derive(Default, Debug, Clone, PartialEq)]
pub struct DaySummary {
    pub date_time: String,
    pub code: String,
    pub description: String,
    pub emoji: String,
    pub min: i64,
    pub max: i64,
}

/// The pictogram shown for a précis code; empty for an unknown code.
pub open spec fn precis_emoji(code: Seq<char>) -> Seq<char> {
    if code == "fine"@ {
        "☀️"@
    } else if code == "mostly-fine"@ {
        "🌤️"@
    } else if code == "high-cloud"@ {
        "☁️"@
    } else if code == "partly-cloudy"@ {
        "⛅"@
    } else if code == "mostly-cloudy"@ {
        "🌥️"@
    } else if code == "cloudy"@ {
        "☁️"@
    } else if code == "overcast"@ {
        "🌫️"@
    } else if code == "shower-or-two"@ {
        "🌦️"@
    } else if code == "chance-shower-fine"@ {
        "🌧️"@
    } else if code == "chance-shower-cloud"@ {
        "🌧️"@
    } else if code == "drizzle"@ {
        "🌧️"@
    } else if code == "few-showers"@ {
        "🌦️"@
    } else if code == "showers-rain"@ {
        "🌧️"@
    } else if code == "heavy-showers-rain"@ {
        "🌧️"@
    } else if code == "chance-thunderstorm-fine"@ {
        "⛈️"@
    } else if code == "chance-thunderstorm-cloud"@ {
        "⛈️"@
    } else if code == "chance-thunderstorm-showers"@ {
        "⛈️"@
    } else if code == "thunderstorm"@ {
        "⛈️"@
    } else if code == "chance-snow-fine"@ {
        "🌨️"@
    } else if code == "chance-snow-cloud"@ {
        "🌨️"@
    } else if code == "snow-and-rain"@ {
        "🌨️"@
    } else if code == "light-snow"@ {
        "🌨️"@
    } else if code == "snow"@ {
        "❄️"@
    } else if code == "heavy-snow"@ {
        "🌨️"@
    } else if code == "wind"@ {
        "💨"@
    } else if code == "frost"@ {
        "🧊"@
    } else if code == "fog"@ {
        "🌁"@
    } else if code == "hail"@ {
        "🌨️"@
    } else if code == "dust"@ {
        "🌪️"@
    } else {
        ""@
    }
}

/// Whether two strings hold the same characters.
pub fn same_text(a: &str, b: &str) -> (r: bool)
    ensures
        r == (a@ == b@),
{
    if a.unicode_len() != b.unicode_len() {
        return false;
    }
    assert(a@.subrange(0, b@.len() as int) =~= a@);
    spells_at(a, 0, b)
}

/// The pictogram for a précis code.
pub fn emoji_for(code: &str) -> (r: &'static str)
    ensures
        r@ == precis_emoji(code@),
{
    if same_text(code, "fine") {
        "☀️"
    } else if same_text(code, "mostly-fine") {
        "🌤️"
    } else if same_text(code, "high-cloud") {
        "☁️"
    } else if same_text(code, "partly-cloudy") {
        "⛅"
    } else if same_text(code, "mostly-cloudy") {
        "🌥️"
    } else if same_text(code, "cloudy") {
        "☁️"
    } else if same_text(code, "overcast") {
        "🌫️"
    } else if same_text(code, "shower-or-two") {
        "🌦️"
    } else if same_text(code, "chance-shower-fine") {
        "🌧️"
    } else if same_text(code, "chance-shower-cloud") {
        "🌧️"
    } else if same_text(code, "drizzle") {
        "🌧️"
    } else if same_text(code, "few-showers") {
        "🌦️"
    } else if same_text(code, "showers-rain") {
        "🌧️"
    } else if same_text(code, "heavy-showers-rain") {
        "🌧️"
    } else if same_text(code, "chance-thunderstorm-fine") {
        "⛈️"
    } else if same_text(code, "chance-thunderstorm-cloud") {
        "⛈️"
    } else if same_text(code, "chance-thunderstorm-showers") {
        "⛈️"
    } else if same_text(code, "thunderstorm") {
        "⛈️"
    } else if same_text(code, "chance-snow-fine") {
        "🌨️"
    } else if same_text(code, "chance-snow-cloud") {
        "🌨️"
    } else if same_text(code, "snow-and-rain") {
        "🌨️"
    } else if same_text(code, "light-snow") {
        "🌨️"
    } else if same_text(code, "snow") {
        "❄️"
    } else if same_text(code, "heavy-snow") {
        "🌨️"
    } else if same_text(code, "wind") {
        "💨"
    } else if same_text(code, "frost") {
        "🧊"
    } else if same_text(code, "fog") {
        "🌁"
    } else if same_text(code, "hail") {
        "🌨️"
    } else if same_text(code, "dust") {
        "🌪️"
    } else {
        ""
    }
}

/// Whether `s` summarises the day `d`: the figures of its first entry.
pub open spec fn summarises(s: DaySummary, d: WeatherDay) -> bool {
    let e = d.entries[0];
    &&& s.date_time@ == e.date_time@
    &&& s.code@ == e.precis_code@
    &&& s.description@ == e.precis@
    &&& s.emoji@ == precis_emoji(e.precis_code@)
    &&& s.min == e.min
    &&& s.max == e.max
}

/// One summary per day, in order, each from the day's first entry; `None`
/// when some day has no entry.
pub fn daily_summaries(weather: &Weather) -> (r: Option<Vec<DaySummary>>)
    ensures
        r is Some <==> forall|i: int|
            0 <= i < weather.days.len() ==> (#[trigger] weather.days[i]).entries.len() > 0,
        r matches Some(v) ==> v.len() == weather.days.len() && forall|i: int|
            0 <= i < v.len() ==> summarises(#[trigger] v[i], weather.days[i]),
{
    let mut out: Vec<DaySummary> = Vec::new();
    let mut i: usize = 0;
    while i < weather.days.len()
        invariant
            0 <= i <= weather.days.len(),
            out.len() == i,
            forall|k: int| 0 <= k < i ==> (#[trigger] weather.days[k]).entries.len() > 0,
            forall|k: int| 0 <= k < i ==> summarises(#[trigger] out[k], weather.days[k]),
        decreases weather.days.len() - i,
    {
        let day = &weather.days[i];
        if day.entries.len() == 0 {
            return None;
        }
        let e = &day.entries[0];
        out.push(
            DaySummary {
                date_time: e.date_time.clone(),
                code: e.precis_code.clone(),
                description: e.precis.clone(),
                emoji: String::from_str(emoji_for(e.precis_code.as_str())),
                min: e.min,
                max: e.max,
            },
        );
        i = i + 1;
    }
    Some(out)
}

} // verus!
