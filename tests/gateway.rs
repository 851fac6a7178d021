use bom_imagery::error::BOMError;
use bom_imagery::gateway::{
    frame_step, rgb_frame, shrink_to_box, FrameAction, FrameEvent, FrameJob, FramePhase,
};
use bom_imagery::naming::FrameKind;
use bom_imagery::raster::{decode_rgba, encode_png, Raster};

fn solid_png(width: u32, height: u32, px: [u8; 4]) -> Vec<u8> {
    let mut rgba = Vec::new();
    for _ in 0..width * height {
        rgba.extend_from_slice(&px);
    }
    encode_png(&Raster { width, height, rgba }).unwrap()
}

#[test]
fn job_keys_frames_by_basename_under_prefix() {
    let job = FrameJob::new(FrameKind::Radar, "/anon/gen/radar/IDR703.T.202504140000.png", true);
    assert_eq!(job.cache_key, "radar_cache/IDR703.T.202504140000.png");
    assert_eq!(job.mime(), "image/png");
    let job = FrameJob::new(FrameKind::Satellite, "/anon/gen/gms/IDE00416.202504140000.jpg", true);
    assert_eq!(job.cache_key, "satellite_cache/IDE00416.202504140000.jpg");
    assert_eq!(job.mime(), "image/jpg");
}

#[test]
fn passthrough_miss_stores_download_verbatim_then_delivers_it() {
    let job = FrameJob::new(FrameKind::Radar, "/anon/gen/radar/IDR703.T.202504140000.png", true);
    let (p, a) = frame_step(&job, FramePhase::Begin, FrameEvent::Start);
    assert!(matches!(&a, FrameAction::Head(k) if k == "radar_cache/IDR703.T.202504140000.png"));
    let (p, a) = frame_step(&job, p, FrameEvent::Presence(false));
    assert!(matches!(&a, FrameAction::Fetch(path) if path == "/anon/gen/radar/IDR703.T.202504140000.png"));
    let raw = vec![1u8, 2, 3, 4];
    let (p, a) = frame_step(&job, p, FrameEvent::Downloaded(raw.clone()));
    match &a {
        FrameAction::Put(k, b, m) => {
            assert_eq!(k, "radar_cache/IDR703.T.202504140000.png");
            assert_eq!(b, &raw);
            assert_eq!(m, "image/png");
        }
        _ => panic!("expected a put"),
    }
    let (p, a) = frame_step(&job, p, FrameEvent::Stored);
    assert!(matches!(&a, FrameAction::Deliver(b) if b == &raw));
    assert!(matches!(p, FramePhase::Done));
}

#[test]
fn passthrough_hit_reads_cache_and_never_fetches() {
    let job = FrameJob::new(FrameKind::Radar, "/anon/gen/radar/IDR703.T.202504140000.png", true);
    let (p, _) = frame_step(&job, FramePhase::Begin, FrameEvent::Start);
    let (p, a) = frame_step(&job, p, FrameEvent::Presence(true));
    assert!(matches!(&a, FrameAction::Get(k) if k == "radar_cache/IDR703.T.202504140000.png"));
    let (_, a) = frame_step(&job, p, FrameEvent::Cached(vec![9, 9]));
    assert!(matches!(&a, FrameAction::Deliver(b) if b == &vec![9u8, 9]));
}

#[test]
fn warming_a_cached_frame_does_nothing_more() {
    let job = FrameJob::new(FrameKind::Radar, "/anon/gen/radar/IDR703.T.202504140000.png", false);
    let (p, _) = frame_step(&job, FramePhase::Begin, FrameEvent::Start);
    let (_, a) = frame_step(&job, p, FrameEvent::Presence(true));
    assert!(matches!(a, FrameAction::Ready));
}

#[test]
fn shrink_mode_resizes_any_aspect_to_the_box() {
    for (w, h) in [(640u32, 200u32), (50, 900), (300, 300), (1, 1)] {
        let png = solid_png(w, h, [10, 20, 30, 255]);
        let img = shrink_to_box(&png).unwrap();
        assert_eq!((img.width, img.height, img.rgba.len()), (300, 300, 300 * 300 * 4));
        let frame = rgb_frame(&img);
        assert_eq!((frame.width, frame.height), (300, 300));
        assert_eq!(frame.rgb.len(), 300 * 300 * 3);
        assert_eq!(&frame.rgb[0..3], &[10, 20, 30]);
    }
}

#[test]
fn shrink_mode_stores_only_compressed_bytes() {
    let job = FrameJob::new(FrameKind::Satellite, "/anon/gen/gms/IDE00416.202504140000.jpg", true);
    let (p, _) = frame_step(&job, FramePhase::Begin, FrameEvent::Start);
    let (p, _) = frame_step(&job, p, FrameEvent::Presence(false));
    let raw = solid_png(400, 100, [1, 2, 3, 255]);
    let (p, a) = frame_step(&job, p, FrameEvent::Downloaded(raw.clone()));
    match &a {
        FrameAction::Compress(f) => assert_eq!((f.width, f.height, f.rgb.len()), (300, 300, 270000)),
        _ => panic!("expected compression"),
    }
    let jpeg = vec![0xFF, 0xD8, 0xFF, 0xD9];
    let (p, a) = frame_step(&job, p, FrameEvent::Compressed(jpeg.clone()));
    match &a {
        FrameAction::Put(k, b, m) => {
            assert_eq!(k, "satellite_cache/IDE00416.202504140000.jpg");
            assert_eq!(b, &jpeg);
            assert_ne!(b, &raw);
            assert_eq!(m, "image/jpg");
        }
        _ => panic!("expected a put"),
    }
    let (_, a) = frame_step(&job, p, FrameEvent::Stored);
    assert!(matches!(&a, FrameAction::Deliver(b) if b == &jpeg));
}

#[test]
fn shrink_mode_fails_on_undecodable_download() {
    let job = FrameJob::new(FrameKind::Satellite, "/anon/gen/gms/IDE00416.202504140000.jpg", true);
    let (_, a) = frame_step(&job, FramePhase::AwaitDownload, FrameEvent::Downloaded(vec![1, 2, 3]));
    assert!(matches!(a, FrameAction::Fail(BOMError::ImageDecode)));
    assert!(matches!(shrink_to_box(&[0u8, 1, 2]), Err(BOMError::ImageDecode)));
}

#[test]
fn out_of_order_event_fails() {
    let job = FrameJob::new(FrameKind::Radar, "/anon/gen/radar/IDR703.T.202504140000.png", true);
    let (_, a) = frame_step(&job, FramePhase::Begin, FrameEvent::Stored);
    assert!(matches!(a, FrameAction::Fail(BOMError::OutOfSequence)));
}

#[test]
fn decode_reads_pixels_not_bytes() {
    let png = solid_png(3, 2, [200, 100, 50, 255]);
    let img = decode_rgba(&png).unwrap();
    assert_eq!((img.width, img.height), (3, 2));
    assert_eq!(img.rgba.len(), 24);
    assert_eq!(&img.rgba[0..4], &[200, 100, 50, 255]);
    assert_ne!(img.rgba, png);
    assert_eq!(&png[1..4], b"PNG");
}
