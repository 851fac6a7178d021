//! Decoded images as plain RGBA rasters, and the image codec operations on them.
use vstd::prelude::*;
use image::ImageEncoder;
use crate::error::BOMError;

verus! {

#[verifier::external_type_specification]
#[verifier::external_body]
pub struct ExImageError(image::ImageError);

/// A decoded image: `width` × `height` pixels, four bytes (R, G, B, A) each,
/// row by row from the top left.
pub struct Raster {
    pub width: u32,
    pub height: u32,
    pub rgba: Vec<u8>,
}

/// A raster as plain values: width, height and pixel bytes.
pub type RasterModel = (u32, u32, Seq<u8>);

impl Raster {
    pub open spec fn wf(&self) -> bool {
        self.rgba@.len() == 4 * self.width * self.height
    }

    pub open spec fn model(&self) -> RasterModel {
        (self.width, self.height, self.rgba@)
    }

    /// A copy of the raster with the same size and pixels.
    pub fn copy(&self) -> (r: Raster)
        ensures
            r.model() == self.model(),
    {
        Raster { width: self.width, height: self.height, rgba: self.rgba.clone() }
    }
}

/// The raster that image decodes from `bytes`, or `None` when they hold no
/// image it can read.
pub uninterp spec fn decoded_rgba(bytes: Seq<u8>) -> Option<RasterModel>;

/// The pixels of `bottom` after `top` is drawn over it at the origin.
pub uninterp spec fn overlaid(bottom: RasterModel, top: RasterModel) -> Seq<u8>;

/// The PNG encoding of a raster, or `None` when encoding fails.
pub uninterp spec fn png_encoded(image: RasterModel) -> Option<Seq<u8>>;

/// The looping GIF of `frames`, each shown for `delay_ms`, encoded at `speed`.
pub uninterp spec fn gif_encoded(frames: Seq<RasterModel>, delay_ms: u32, speed: i32) -> Option<
    Seq<u8>,
>;

/// The models of a list of rasters.
pub open spec fn models(frames: Seq<Raster>) -> Seq<RasterModel> {
    frames.map_values(|f: Raster| f.model())
}

/// Relies on image's `load_from_memory` (format guessed from the bytes),
/// the result converted to 8-bit RGBA.
#[verifier::external_body]
fn load_rgba(bytes: &[u8]) -> (r: Result<Raster, image::ImageError>)
    ensures
        r is Ok <==> decoded_rgba(bytes@) is Some,
        r matches Ok(img) ==> img.wf() && decoded_rgba(bytes@) == Some(img.model()),
{
    let img = image::load_from_memory(bytes)?.to_rgba8();
    Ok(Raster { width: img.width(), height: img.height(), rgba: img.into_raw() })
}

/// Decodes image bytes of any format image reads into a raster.
pub fn decode_rgba(bytes: &[u8]) -> (r: Result<Raster, BOMError>)
    ensures
        r is Ok <==> decoded_rgba(bytes@) is Some,
        r matches Ok(img) ==> img.wf() && decoded_rgba(bytes@) == Some(img.model()),
        r matches Err(e) ==> e == BOMError::ImageDecode,
{
    match load_rgba(bytes) {
        Ok(img) => Ok(img),
        Err(_) => Err(BOMError::ImageDecode),
    }
}

/// Relies on image's `imageops::overlay` at (0, 0): `top` is alpha-blended
/// over `bottom`, whose size is kept.
#[verifier::external_body]
pub(crate) fn overlay_at_origin(bottom: &mut Raster, top: &Raster)
    requires
        old(bottom).wf(),
        top.wf(),
    ensures
        final(bottom).width == old(bottom).width,
        final(bottom).height == old(bottom).height,
        final(bottom).wf(),
        final(bottom).rgba@ == overlaid(old(bottom).model(), top.model()),
{
    let pixels = std::mem::take(&mut bottom.rgba);
    let mut b = image::RgbaImage::from_raw(bottom.width, bottom.height, pixels).unwrap();
    let t = image::RgbaImage::from_raw(top.width, top.height, top.rgba.clone()).unwrap();
    image::imageops::overlay(&mut b, &t, 0, 0);
    bottom.rgba = b.into_raw();
}

/// Relies on image's `imageops::resize` with the Gaussian filter: the result
/// has exactly the asked size. Its pixels are not named: the filter weights
/// come from `f32::exp`, whose last bits may differ between machines.
#[verifier::external_body]
pub(crate) fn resize_to(source: &Raster, width: u32, height: u32) -> (r: Raster)
    requires
        source.wf(),
    ensures
        r.width == width,
        r.height == height,
        r.wf(),
{
    let s = image::RgbaImage::from_raw(source.width, source.height, source.rgba.clone()).unwrap();
    let out = image::imageops::resize(&s, width, height, image::imageops::FilterType::Gaussian);
    Raster { width, height, rgba: out.into_raw() }
}

/// Relies on image's `PngEncoder::write_image` with 8-bit RGBA pixels.
#[verifier::external_body]
fn write_png(image: &Raster) -> (r: Result<Vec<u8>, image::ImageError>)
    requires
        image.wf(),
    ensures
        r is Ok <==> png_encoded(image.model()) is Some,
        r matches Ok(b) ==> png_encoded(image.model()) == Some(b@),
{
    let mut out = Vec::new();
    image::codecs::png::PngEncoder::new(&mut out).write_image(
        &image.rgba,
        image.width,
        image.height,
        image::ExtendedColorType::Rgba8,
    )?;
    Ok(out)
}

/// Encodes a raster as a lossless PNG.
pub fn encode_png(image: &Raster) -> (r: Result<Vec<u8>, BOMError>)
    requires
        image.wf(),
    ensures
        r is Ok <==> png_encoded(image.model()) is Some,
        r matches Ok(b) ==> png_encoded(image.model()) == Some(b@),
        r matches Err(e) ==> e == BOMError::ImageEncode,
{
    match write_png(image) {
        Ok(b) => Ok(b),
        Err(_) => Err(BOMError::ImageEncode),
    }
}

/// Relies on image's `GifEncoder` (made with `new_with_speed`, set to repeat
/// forever, then `encode_frames`), each frame placed at the origin and shown
/// for `delay_ms` milliseconds.
#[verifier::external_body]
fn write_gif(frames: &Vec<Raster>, delay_ms: u32, speed: i32) -> (r: Result<Vec<u8>, image::ImageError>)
    requires
        1 <= speed <= 30,
        forall|i: int| 0 <= i < frames.len() ==> (#[trigger] frames[i]).wf(),
    ensures
        r is Ok <==> gif_encoded(models(frames@), delay_ms, speed) is Some,
        r matches Ok(b) ==> gif_encoded(models(frames@), delay_ms, speed) == Some(b@),
{
    let mut out = Vec::new();
    let mut encoder = image::codecs::gif::GifEncoder::new_with_speed(&mut out, speed);
    encoder.set_repeat(image::codecs::gif::Repeat::Infinite)?;
    encoder.encode_frames(frames.iter().map(|f| {
        let buffer = image::RgbaImage::from_raw(f.width, f.height, f.rgba.clone()).unwrap();
        image::Frame::from_parts(buffer, 0, 0, image::Delay::from_numer_denom_ms(delay_ms, 1))
    }))?;
    drop(encoder);
    Ok(out)
}

/// Encodes frames as an animated GIF that loops forever, each frame shown for
/// `delay_ms` milliseconds; `speed` trades quality (1) for encoding time (30).
pub fn encode_gif(frames: &Vec<Raster>, delay_ms: u32, speed: i32) -> (r: Result<Vec<u8>, BOMError>)
    requires
        1 <= speed <= 30,
        forall|i: int| 0 <= i < frames.len() ==> (#[trigger] frames[i]).wf(),
    ensures
        r is Ok <==> gif_encoded(models(frames@), delay_ms, speed) is Some,
        r matches Ok(b) ==> gif_encoded(models(frames@), delay_ms, speed) == Some(b@),
        r matches Err(e) ==> e == BOMError::ImageEncode,
{
    match write_gif(frames, delay_ms, speed) {
        Ok(b) => Ok(b),
        Err(_) => Err(BOMError::ImageEncode),
    }
}

/// The red, green and blue bytes of RGBA pixel bytes, alpha dropped.
pub open spec fn rgb_of(rgba: Seq<u8>) -> Seq<u8>
    decreases rgba.len(),
{
    if rgba.len() < 4 {
        Seq::empty()
    } else {
        let n = rgba.len() as int;
        rgb_of(rgba.subrange(0, n - 4)) + rgba.subrange(n - 4, n - 1)
    }
}

/// Drops the alpha byte of every pixel.
pub fn strip_alpha(image: &Raster) -> (r: Vec<u8>)
    requires
        image.wf(),
    ensures
        r@ == rgb_of(image.rgba@),
{
    let n = image.rgba.len();
    let mut out: Vec<u8> = Vec::new();
    let mut i: usize = 0;
    assert(image.rgba@.subrange(0, 0) =~= Seq::<u8>::empty());
    let ghost w = image.width as int;
    let ghost h = image.height as int;
    proof {
        assert(4 * w * h == (w * h) * 4) by (nonlinear_arith);
        vstd::arithmetic::div_mod::lemma_mod_multiples_basic(w * h, 4);
    }
    while i < n
        invariant
            n == image.rgba@.len(),
            i <= n,
            i % 4 == 0,
            n % 4 == 0,
            out@ == rgb_of(image.rgba@.subrange(0, i as int)),
        decreases n - i,
    {
        let ghost next = image.rgba@.subrange(0, i + 4);
        assert(next.subrange(0, i as int) =~= image.rgba@.subrange(0, i as int));
        assert(next.subrange(i as int, i + 3) =~= image.rgba@.subrange(i as int, i + 3));
        out.push(image.rgba[i]);
        out.push(image.rgba[i + 1]);
        out.push(image.rgba[i + 2]);
        assert(out@ =~= rgb_of(image.rgba@.subrange(0, i as int)) + image.rgba@.subrange(
            i as int,
            i + 3,
        ));
        i = i + 4;
    }
    assert(image.rgba@.subrange(0, n as int) =~= image.rgba@);
    out
}

} // verus!
