use bom_imagery::composer::{base_path_of, compose_base, layer_paths, legend_path_of};
use bom_imagery::error::BOMError;
use bom_imagery::raster::{decode_rgba, encode_png, Raster};

fn png(width: u32, height: u32, pixels: &[[u8; 4]]) -> Vec<u8> {
    let rgba: Vec<u8> = pixels.iter().flat_map(|p| p.iter().copied()).collect();
    assert_eq!(rgba.len() as u32, 4 * width * height);
    encode_png(&Raster { width, height, rgba }).unwrap()
}

#[test]
fn layers_are_drawn_in_order_over_the_legend() {
    let legend = png(2, 1, &[[255, 255, 255, 255], [255, 255, 255, 255]]);
    let first = png(1, 1, &[[255, 0, 0, 255]]);
    let second = png(2, 1, &[[0, 0, 0, 0], [0, 0, 255, 255]]);
    let out = compose_base(&legend, &vec![first, second]).unwrap();
    let img = decode_rgba(&out).unwrap();
    assert_eq!((img.width, img.height), (2, 1));
    assert_eq!(&img.rgba[0..4], &[255, 0, 0, 255]);
    assert_eq!(&img.rgba[4..8], &[0, 0, 255, 255]);
}

#[test]
fn later_layer_covers_earlier_where_opaque() {
    let legend = png(1, 1, &[[255, 255, 255, 255]]);
    let red = png(1, 1, &[[255, 0, 0, 255]]);
    let green = png(1, 1, &[[0, 255, 0, 255]]);
    let img = decode_rgba(&compose_base(&legend, &vec![red.clone(), green.clone()]).unwrap()).unwrap();
    assert_eq!(&img.rgba[0..4], &[0, 255, 0, 255]);
    let img = decode_rgba(&compose_base(&legend, &vec![green, red]).unwrap()).unwrap();
    assert_eq!(&img.rgba[0..4], &[255, 0, 0, 255]);
}

#[test]
fn regenerating_from_same_layers_is_byte_identical() {
    let legend = png(2, 2, &[[1, 2, 3, 255]; 4]);
    let layers = vec![
        png(2, 2, &[[9, 9, 9, 128]; 4]),
        png(1, 2, &[[0, 200, 0, 255]; 2]),
        png(2, 1, &[[0, 0, 0, 0]; 2]),
        png(2, 2, &[[50, 60, 70, 10]; 4]),
    ];
    let a = compose_base(&legend, &layers).unwrap();
    let b = compose_base(&legend, &layers).unwrap();
    assert_eq!(a, b);
}

#[test]
fn undecodable_layer_fails_the_composite() {
    let legend = png(1, 1, &[[1, 2, 3, 255]]);
    assert_eq!(compose_base(&legend, &vec![vec![0, 1, 2]]), Err(BOMError::ImageDecode));
    assert_eq!(compose_base(&vec![7, 7], &vec![]), Err(BOMError::ImageDecode));
}

#[test]
fn composer_paths() {
    assert_eq!(legend_path_of(), "/anon/gen/radar_transparencies/IDR.legend.0.png");
    assert_eq!(
        layer_paths("IDR703"),
        vec![
            "/anon/gen/radar_transparencies/IDR703.background.png".to_string(),
            "/anon/gen/radar_transparencies/IDR703.topography.png".to_string(),
            "/anon/gen/radar_transparencies/IDR703.locations.png".to_string(),
            "/anon/gen/radar_transparencies/IDR703.range.png".to_string(),
        ]
    );
    assert_eq!(base_path_of("IDR703"), "IDR703.base.png");
}
