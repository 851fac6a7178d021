use bom_imagery::janitor::{is_expired, plan_cleanup};
use bom_imagery::naming::{is_radar_frame_name, is_satellite_frame_name, FrameKind};
use bom_imagery::text::basename_of;

const APRIL_14_0000: i64 = 1744588800;
const APRIL_15_0100: i64 = 1744678800;
const APRIL_14_2300: i64 = 1744671600;

#[test]
fn radar_frame_pattern() {
    assert!(is_radar_frame_name("IDR703.T.202504140000.png"));
    assert!(!is_radar_frame_name("IDR703.T.202504140000.png.bak"));
    assert!(!is_radar_frame_name("IDR7031.T.20250414000.png"));
    assert!(!is_radar_frame_name("IDR703.background.png"));
    assert!(!is_radar_frame_name("IDR70a.T.202504140000.png"));
    assert!(!is_radar_frame_name(""));
}

#[test]
fn satellite_frame_pattern() {
    assert!(is_satellite_frame_name("IDE00416.202504140000.jpg"));
    assert!(!is_satellite_frame_name("IDE00416.202504140000.png"));
    assert!(!is_satellite_frame_name("IDE0041.2025041400001.jpg"));
    assert!(!is_radar_frame_name("IDE00416.202504140000.jpg"));
}

#[test]
fn basename_is_last_component() {
    assert_eq!(basename_of("radar_cache/IDR703.T.202504140000.png"), "IDR703.T.202504140000.png");
    assert_eq!(basename_of("/anon/gen/radar/x.png"), "x.png");
    assert_eq!(basename_of("plain"), "plain");
    assert_eq!(basename_of("dir/"), "");
}

#[test]
fn frame_older_than_a_day_is_deleted() {
    let key = "radar_cache/IDR703.T.202504140000.png";
    assert!(is_expired(FrameKind::Radar, key, APRIL_15_0100));
}

#[test]
fn frame_younger_than_a_day_is_kept() {
    let key = "radar_cache/IDR703.T.202504140000.png";
    assert!(!is_expired(FrameKind::Radar, key, APRIL_14_2300));
}

#[test]
fn exactly_one_day_is_kept_and_a_minute_more_is_deleted() {
    let key = "radar_cache/IDR703.T.202504140000.png";
    assert!(!is_expired(FrameKind::Radar, key, APRIL_14_0000 + 86400));
    assert!(is_expired(FrameKind::Radar, key, APRIL_14_0000 + 86400 + 60));
    assert!(!is_expired(FrameKind::Radar, key, APRIL_14_0000 + 86401 - 1));
    assert!(is_expired(FrameKind::Radar, key, APRIL_14_0000 + 86401));
}

#[test]
fn non_matching_names_are_never_deleted() {
    let far_future = APRIL_14_0000 + 100 * 365 * 86400;
    assert!(!is_expired(FrameKind::Radar, "radar_cache/IDR703.background.png", far_future));
    assert!(!is_expired(FrameKind::Radar, "radar_cache/IDR.legend.0.png", far_future));
    assert!(!is_expired(FrameKind::Radar, "radar_cache/IDE00416.202504140000.jpg", far_future));
    assert!(!is_expired(FrameKind::Satellite, "satellite_cache/IDR703.T.202504140000.png", far_future));
}

#[test]
fn impossible_dates_are_skipped() {
    let far_future = APRIL_14_0000 + 100 * 365 * 86400;
    assert!(!is_expired(FrameKind::Radar, "radar_cache/IDR703.T.202513140000.png", far_future));
    assert!(!is_expired(FrameKind::Radar, "radar_cache/IDR703.T.202502300000.png", far_future));
    assert!(!is_expired(FrameKind::Satellite, "satellite_cache/IDE00416.202504142460.jpg", far_future));
}

#[test]
fn satellite_frames_age_out_too() {
    let key = "satellite_cache/IDE00416.202504140000.jpg";
    assert!(is_expired(FrameKind::Satellite, key, APRIL_15_0100));
    assert!(!is_expired(FrameKind::Satellite, key, APRIL_14_2300));
}

#[test]
fn sweep_plan_keeps_order_and_only_expired() {
    let keys = vec![
        "radar_cache/IDR703.T.202504140000.png".to_string(),
        "radar_cache/IDR703.background.png".to_string(),
        "radar_cache/IDR703.T.202504142300.png".to_string(),
        "radar_cache/IDR704.T.202504131200.png".to_string(),
    ];
    let plan = plan_cleanup(FrameKind::Radar, &keys, APRIL_15_0100);
    assert_eq!(
        plan,
        vec![
            "radar_cache/IDR703.T.202504140000.png".to_string(),
            "radar_cache/IDR704.T.202504131200.png".to_string(),
        ]
    );
    assert!(plan_cleanup(FrameKind::Radar, &vec![], APRIL_15_0100).is_empty());
}

#[test]
fn composites_and_timelapses_are_never_swept() {
    let far_future = APRIL_14_0000 + 100 * 365 * 86400;
    for kind in [FrameKind::Radar, FrameKind::Satellite] {
        assert!(!is_expired(kind, "IDR703.base.png", far_future));
        assert!(!is_expired(kind, "external/IDR703.202504140000.radar.gif", far_future));
        assert!(!is_expired(kind, "external/IDE00416.202504140000.satellite.gif", far_future));
    }
}

#[test]
fn keys_outside_the_prefix_are_never_deleted() {
    assert!(!is_expired(FrameKind::Radar, "radar_cache_old/IDR703.T.202504140000.png", APRIL_15_0100));
    assert!(!is_expired(FrameKind::Radar, "IDR703.T.202504140000.png", APRIL_15_0100));
    assert!(!is_expired(FrameKind::Satellite, "radar_cache/IDE00416.202504140000.jpg", APRIL_15_0100));
    assert!(is_expired(FrameKind::Radar, "radar_cache/nested/IDR703.T.202504140000.png", APRIL_15_0100));
}
