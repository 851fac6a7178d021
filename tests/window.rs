use bom_imagery::naming::FrameKind;
use bom_imagery::window::{frames_of_subject, recent_frames, stamp_of_listed};

fn radar_listing() -> Vec<String> {
    let mut v: Vec<String> = Vec::new();
    for h in [3, 0, 6, 1, 5, 2, 4] {
        v.push(format!("/anon/gen/radar/IDR703.T.202504140{}00.png", h));
    }
    v.push("/anon/gen/radar/IDR704.T.202504140700.png".to_string());
    v.push("/anon/gen/radar/IDR703.T.202504140700.gif".to_string());
    v.push("/anon/gen/radar/IDR703.background.png".to_string());
    v
}

#[test]
fn seven_hourly_frames_are_all_selected_in_order() {
    let got = recent_frames(FrameKind::Radar, "IDR703", &radar_listing(), 7);
    let want: Vec<String> =
        (0..7).map(|h| format!("/anon/gen/radar/IDR703.T.202504140{}00.png", h)).collect();
    assert_eq!(got, want);
}

#[test]
fn window_keeps_only_the_most_recent() {
    let got = recent_frames(FrameKind::Radar, "IDR703", &radar_listing(), 3);
    assert_eq!(
        got,
        vec![
            "/anon/gen/radar/IDR703.T.202504140400.png".to_string(),
            "/anon/gen/radar/IDR703.T.202504140500.png".to_string(),
            "/anon/gen/radar/IDR703.T.202504140600.png".to_string(),
        ]
    );
    assert!(recent_frames(FrameKind::Radar, "IDR703", &radar_listing(), 0).is_empty());
    assert!(recent_frames(FrameKind::Radar, "IDR703", &vec![], 7).is_empty());
}

#[test]
fn duplicate_listing_entries_count_once() {
    let mut listing = radar_listing();
    listing.push("/anon/gen/radar/IDR703.T.202504140600.png".to_string());
    let got = recent_frames(FrameKind::Radar, "IDR703", &listing, 2);
    assert_eq!(
        got,
        vec![
            "/anon/gen/radar/IDR703.T.202504140500.png".to_string(),
            "/anon/gen/radar/IDR703.T.202504140600.png".to_string(),
        ]
    );
}

#[test]
fn satellite_listing_is_filtered_by_subject() {
    let listing = vec![
        "/anon/gen/gms/IDE00416.202504140010.jpg".to_string(),
        "/anon/gen/gms/IDE00417.202504140020.jpg".to_string(),
        "/anon/gen/gms/IDE00416.202504140000.jpg".to_string(),
        "/anon/gen/radar/IDE00416.202504140030.jpg".to_string(),
    ];
    assert_eq!(
        frames_of_subject(FrameKind::Satellite, "IDE00416", &listing),
        vec![
            "/anon/gen/gms/IDE00416.202504140010.jpg".to_string(),
            "/anon/gen/gms/IDE00416.202504140000.jpg".to_string(),
        ]
    );
    assert_eq!(
        recent_frames(FrameKind::Satellite, "IDE00416", &listing, 30),
        vec![
            "/anon/gen/gms/IDE00416.202504140000.jpg".to_string(),
            "/anon/gen/gms/IDE00416.202504140010.jpg".to_string(),
        ]
    );
}

#[test]
fn listed_stamp_is_the_twelve_digit_number() {
    assert_eq!(
        stamp_of_listed(FrameKind::Radar, "IDR703", "/anon/gen/radar/IDR703.T.202504140600.png"),
        Some(202504140600)
    );
    assert_eq!(stamp_of_listed(FrameKind::Radar, "IDR70", "/anon/gen/radar/IDR703.T.202504140600.png"), None);
    assert_eq!(stamp_of_listed(FrameKind::Radar, "IDR703", "IDR703.T.202504140600.png"), None);
}
