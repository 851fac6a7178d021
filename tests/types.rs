use bom_imagery::types::{daily_summaries, emoji_for, same_text, Weather, WeatherDay, WeatherEntry};

fn entry(date_time: &str, code: &str, precis: &str, min: i64, max: i64) -> WeatherEntry {
    WeatherEntry {
        date_time: date_time.to_string(),
        precis_code: code.to_string(),
        precis: precis.to_string(),
        precis_overlay_code: String::new(),
        night: false,
        min,
        max,
    }
}

#[test]
fn emoji_table() {
    assert_eq!(emoji_for("fine"), "☀️");
    assert_eq!(emoji_for("partly-cloudy"), "⛅");
    assert_eq!(emoji_for("snow"), "❄️");
    assert_eq!(emoji_for("dust"), "🌪️");
    assert_eq!(emoji_for("no-such-code"), "");
    assert_eq!(emoji_for(""), "");
}

#[test]
fn text_equality() {
    assert!(same_text("fog", "fog"));
    assert!(!same_text("fog", "frost"));
    assert!(!same_text("fo", "fog"));
}

#[test]
fn one_summary_per_day_from_first_entry() {
    let weather = Weather {
        days: vec![
            WeatherDay {
                date_time: "2025-04-14 00:00:00".to_string(),
                entries: vec![
                    entry("2025-04-14 00:00:00", "fine", "Sunny.", 12, 27),
                    entry("2025-04-14 12:00:00", "fog", "Fog.", 0, 0),
                ],
            },
            WeatherDay {
                date_time: "2025-04-15 00:00:00".to_string(),
                entries: vec![entry("2025-04-15 00:00:00", "wind", "Windy.", 10, 20)],
            },
        ],
        ..Default::default()
    };
    let days = daily_summaries(&weather).unwrap();
    assert_eq!(days.len(), 2);
    assert_eq!(days[0].code, "fine");
    assert_eq!(days[0].description, "Sunny.");
    assert_eq!(days[0].emoji, "☀️");
    assert_eq!((days[0].min, days[0].max), (12, 27));
    assert_eq!(days[1].emoji, "💨");
    assert_eq!(days[1].date_time, "2025-04-15 00:00:00");
}

#[test]
fn a_day_without_entries_gives_no_summaries() {
    let weather = Weather {
        days: vec![WeatherDay { date_time: "x".to_string(), entries: vec![] }],
        ..Default::default()
    };
    assert!(daily_summaries(&weather).is_none());
    assert_eq!(daily_summaries(&Weather::default()), Some(vec![]));
}
