use bom_imagery::error::BOMError;
use bom_imagery::raster::{decode_rgba, encode_gif, encode_png, Raster};
use bom_imagery::naming::FrameKind;
use bom_imagery::timelapse::{
    timelapse_step, TimelapseAction, TimelapseEvent, TimelapseJob, TimelapsePhase,
};
use image::AnimationDecoder;

const APRIL_14_0000: i64 = 1744588800;

fn solid_png(width: u32, height: u32, px: [u8; 4]) -> Vec<u8> {
    let mut rgba = Vec::new();
    for _ in 0..width * height {
        rgba.extend_from_slice(&px);
    }
    encode_png(&Raster { width, height, rgba }).unwrap()
}

fn gif_frames(bytes: &[u8]) -> Vec<image::Frame> {
    let decoder = image::codecs::gif::GifDecoder::new(std::io::Cursor::new(bytes)).unwrap();
    decoder.into_frames().collect_frames().unwrap()
}

fn loops_forever(bytes: &[u8]) -> bool {
    let tag = b"NETSCAPE2.0";
    bytes.windows(tag.len() + 4).any(|w| &w[..tag.len()] == tag && w[tag.len()..] == [3, 1, 0, 0])
}

#[test]
fn job_paths_and_url_follow_the_generation_minute() {
    let job = TimelapseJob::new(FrameKind::Radar, "IDR703", APRIL_14_0000 + 59).unwrap();
    assert_eq!(job.key, "202504140000");
    assert_eq!(job.path, "external/IDR703.202504140000.radar.gif");
    assert_eq!(job.url, "https://bom-images.anurag.sh/external/IDR703.202504140000.radar.gif");
    let job = TimelapseJob::new(FrameKind::Satellite, "IDE00416", APRIL_14_0000 + 60).unwrap();
    assert_eq!(job.path, "external/IDE00416.202504140001.satellite.gif");
}

#[test]
fn concurrent_requests_in_one_minute_share_the_artifact() {
    let a = TimelapseJob::new(FrameKind::Satellite, "IDE00416", APRIL_14_0000 + 5).unwrap();
    let b = TimelapseJob::new(FrameKind::Satellite, "IDE00416", APRIL_14_0000 + 55).unwrap();
    assert_eq!(a.url, b.url);
    assert_eq!(a.path, b.path);
    let c = TimelapseJob::new(FrameKind::Satellite, "IDE00416", APRIL_14_0000 + 65).unwrap();
    assert_ne!(a.url, c.url);
}

#[test]
fn existing_artifact_is_returned_without_listing() {
    let job = TimelapseJob::for_key(FrameKind::Satellite, "IDE00416", "202504140000");
    let (p, a) = timelapse_step(&job, TimelapsePhase::Begin, TimelapseEvent::Start);
    assert!(matches!(&a, TimelapseAction::Head(k) if k == "external/IDE00416.202504140000.satellite.gif"));
    let (p, a) = timelapse_step(&job, p, TimelapseEvent::Presence(true));
    assert!(matches!(&a, TimelapseAction::Get(k) if k == "external/IDE00416.202504140000.satellite.gif"));
    let stored = vec![71u8, 73, 70];
    let (p, a) = timelapse_step(&job, p, TimelapseEvent::Cached(stored.clone()));
    match a {
        TimelapseAction::Finish(url, bytes) => {
            assert_eq!(url, "https://bom-images.anurag.sh/external/IDE00416.202504140000.satellite.gif");
            assert_eq!(bytes, stored);
        }
        _ => panic!("expected the stored artifact"),
    }
    assert!(matches!(p, TimelapsePhase::Done));
}

#[test]
fn radar_timelapse_of_seven_hourly_frames() {
    let job = TimelapseJob::for_key(FrameKind::Radar, "IDR703", "202504140630");
    let (p, _) = timelapse_step(&job, TimelapsePhase::Begin, TimelapseEvent::Start);
    let (p, a) = timelapse_step(&job, p, TimelapseEvent::Presence(false));
    assert!(matches!(&a, TimelapseAction::List(d) if d == "/anon/gen/radar"));
    let mut listing: Vec<String> = Vec::new();
    for h in (0..7).rev() {
        listing.push(format!("/anon/gen/radar/IDR703.T.202504140{}00.png", h));
    }
    listing.push("/anon/gen/radar/IDR701.T.202504140600.png".to_string());
    let (p, a) = timelapse_step(&job, p, TimelapseEvent::Listed(listing));
    assert!(matches!(&a, TimelapseAction::Get(k) if k == "IDR703.base.png"));
    let (p, a) = timelapse_step(&job, p, TimelapseEvent::Cached(solid_png(4, 4, [255, 255, 255, 255])));
    let window = match a {
        TimelapseAction::Gather(w) => w,
        _ => panic!("expected frames to gather"),
    };
    let want: Vec<String> =
        (0..7).map(|h| format!("/anon/gen/radar/IDR703.T.202504140{}00.png", h)).collect();
    assert_eq!(window, want);
    let frames: Vec<Vec<u8>> = (0..7u8).map(|i| solid_png(2, 2, [i * 30, 0, 0, 255])).collect();
    let (p, a) = timelapse_step(&job, p, TimelapseEvent::Frames(frames));
    let gif = match a {
        TimelapseAction::Put(k, b, m) => {
            assert_eq!(k, "external/IDR703.202504140630.radar.gif");
            assert_eq!(m, "image/gif");
            b
        }
        _ => panic!("expected an upload"),
    };
    let decoded = gif_frames(&gif);
    assert_eq!(decoded.len(), 7);
    for f in &decoded {
        assert_eq!(f.delay().numer_denom_ms(), (350, 1));
        assert_eq!(f.buffer().dimensions(), (4, 4));
    }
    assert!(loops_forever(&gif));
    let (_, a) = timelapse_step(&job, p, TimelapseEvent::Stored);
    match a {
        TimelapseAction::Finish(url, bytes) => {
            assert_eq!(url, "https://bom-images.anurag.sh/external/IDR703.202504140630.radar.gif");
            assert_eq!(bytes, gif);
        }
        _ => panic!("expected the new artifact"),
    }
}

#[test]
fn satellite_timelapse_takes_last_thirty_frames() {
    let job = TimelapseJob::for_key(FrameKind::Satellite, "IDE00416", "202504141200");
    let mut listing: Vec<String> = Vec::new();
    for m in 0..40 {
        listing.push(format!("/anon/gen/gms/IDE00416.2025041410{:02}.jpg", m));
    }
    let (p, a) = timelapse_step(&job, TimelapsePhase::AwaitListing, TimelapseEvent::Listed(listing));
    let window = match a {
        TimelapseAction::Gather(w) => w,
        _ => panic!("expected frames to gather"),
    };
    assert_eq!(window.len(), 30);
    assert_eq!(window[0], "/anon/gen/gms/IDE00416.202504141010.jpg");
    assert_eq!(window[29], "/anon/gen/gms/IDE00416.202504141039.jpg");
    let frames: Vec<Vec<u8>> = (0..3u8).map(|i| solid_png(3, 3, [0, i * 50, 0, 255])).collect();
    let (_, a) = timelapse_step(&job, p, TimelapseEvent::Frames(frames));
    let gif = match a {
        TimelapseAction::Put(_, b, _) => b,
        _ => panic!("expected an upload"),
    };
    let decoded = gif_frames(&gif);
    assert_eq!(decoded.len(), 3);
    // GIF keeps delays in hundredths of a second: 215 ms is written as 21.
    assert_eq!(decoded[0].delay().numer_denom_ms(), (210, 1));
    assert!(loops_forever(&gif));
}

#[test]
fn undecodable_frame_fails_the_timelapse() {
    let job = TimelapseJob::for_key(FrameKind::Satellite, "IDE00416", "202504141200");
    let phase = TimelapsePhase::AwaitFrames(None);
    let (_, a) = timelapse_step(&job, phase, TimelapseEvent::Frames(vec![vec![1, 2, 3]]));
    assert!(matches!(a, TimelapseAction::Fail(BOMError::ImageDecode)));
}

#[test]
fn radar_frames_are_drawn_over_the_base() {
    let job = TimelapseJob::for_key(FrameKind::Radar, "IDR703", "202504140630");
    let base = decode_rgba(&solid_png(2, 1, [255, 255, 255, 255])).unwrap();
    let frame = {
        let rgba = vec![0, 0, 0, 0, 0, 0, 255, 255];
        encode_png(&Raster { width: 2, height: 1, rgba }).unwrap()
    };
    let (_, a) = timelapse_step(&job, TimelapsePhase::AwaitFrames(Some(base)), TimelapseEvent::Frames(vec![frame]));
    let gif = match a {
        TimelapseAction::Put(_, b, _) => b,
        _ => panic!("expected an upload"),
    };
    let decoded = gif_frames(&gif);
    let px = decoded[0].buffer();
    assert_eq!(px.get_pixel(0, 0).0, [255, 255, 255, 255]);
    assert_eq!(px.get_pixel(1, 0).0, [0, 0, 255, 255]);
}

#[test]
fn gif_encoding_makes_a_gif() {
    let frames = vec![Raster { width: 1, height: 1, rgba: vec![1, 2, 3, 255] }];
    let gif = encode_gif(&frames, 100, 10).unwrap();
    assert_eq!(&gif[0..6], b"GIF89a");
}
