use vstd::prelude::*;
use base64::Engine;

verus! {

/// The error type of the `image` crate, carried through opaquely.
#[verifier::external_type_specification]
#[verifier::external_body]
pub struct ExImageError(image::ImageError);

/// Fixed configuration of one capture session.
#[derive(Debug, Clone, Copy, PartialEq, Eq, Structural)]
pub struct FrameSettings {
    /// Width every frame is scaled to before compression.
    pub target_width: u32,
    /// Height every frame is scaled to before compression.
    pub target_height: u32,
    /// Lossy compression quality, 1 (smallest) to 100 (best).
    pub quality: u8,
    /// Target time between the starts of consecutive iterations.
    pub period_micros: u64,
}

/// One captured frame: `width * height` pixels, four bytes (RGBA) each, row
/// by row.
#[derive(Debug)]
pub struct RawFrame {
    pub width: u32,
    pub height: u32,
    pub pixels: Vec<u8>,
}

/// Why one frame could not be turned into a payload.
#[derive(Debug, Clone, Copy, PartialEq, Eq, Structural)]
pub enum FrameError {
    /// The pixel buffer does not hold four bytes for each pixel.
    BadBuffer,
    /// The compressor refused the image.
    Encode,
    /// Scaling the frame would need a buffer larger than the address space.
    TooLarge,
}

/// Pixels of `width x height` RGB bytes scaled to `new_width x new_height`
/// with the nearest-neighbour filter of the `image` crate.
pub uninterp spec fn nearest_resized(
    pixels: Seq<u8>,
    width: u32,
    height: u32,
    new_width: u32,
    new_height: u32,
) -> Seq<u8>;

/// Baseline JPEG of `width x height` RGB pixels at `quality`, as the
/// `image` crate writes it.
pub uninterp spec fn jpeg_of(pixels: Seq<u8>, width: u32, height: u32, quality: u8) -> Seq<u8>;

/// Standard padded base64 text of `bytes`.
pub uninterp spec fn base64_of(bytes: Seq<u8>) -> Seq<char>;

/// The RGB bytes of RGBA pixels: each pixel keeps its first three channels.
pub open spec fn rgb_of(rgba: Seq<u8>) -> Seq<u8>
    decreases rgba.len(),
{
    if rgba.len() < 4 {
        Seq::empty()
    } else {
        let n = rgba.len() as int;
        rgb_of(rgba.subrange(0, n - 4)) + seq![rgba[n - 4], rgba[n - 3], rgba[n - 2]]
    }
}

/// Whether a JPEG of this size can be written: both sides in 1..=65535.
pub open spec fn jpeg_size_ok(width: u32, height: u32) -> bool {
    1 <= width <= 65535 && 1 <= height <= 65535
}

/// Whether a frame `width` pixels wide can be scaled to `new_height` rows:
/// the scaler's intermediate buffer of four values per pixel is addressable.
pub open spec fn scalable(width: u32, new_height: u32) -> bool {
    width as int * new_height as int * 4 <= usize::MAX
}

/// The payload text of a frame whose buffer is well formed.
pub open spec fn payload_of(frame: RawFrame, settings: FrameSettings) -> Seq<char> {
    base64_of(
        jpeg_of(
            nearest_resized(
                rgb_of(frame.pixels@),
                frame.width,
                frame.height,
                settings.target_width,
                settings.target_height,
            ),
            settings.target_width,
            settings.target_height,
            settings.quality,
        ),
    )
}

impl FrameSettings {
    /// The target size can be compressed and its RGB buffer addressed.
    pub open spec fn wf(self) -> bool {
        &&& jpeg_size_ok(self.target_width, self.target_height)
        &&& self.target_width as int * self.target_height as int * 3 <= usize::MAX
    }

    /// 1280 x 720 at quality 60, about 15 frames a second.
    pub fn standard() -> (r: FrameSettings)
        ensures
            r.wf(),
            r.target_width == 1280,
            r.target_height == 720,
            r.quality == 60,
            r.period_micros == 66_000,
    {
        FrameSettings { target_width: 1280, target_height: 720, quality: 60, period_micros: 66_000 }
    }
}

impl RawFrame {
    /// The buffer holds exactly four bytes for each pixel.
    pub open spec fn wf(self) -> bool {
        self.pixels@.len() == self.width as int * self.height as int * 4
    }
}

/// Drops the alpha channel of RGBA pixels.
pub fn drop_alpha(rgba: &Vec<u8>) -> (r: Vec<u8>)
    requires
        rgba.len() % 4 == 0,
    ensures
        r@ == rgb_of(rgba@),
        r.len() == rgba.len() / 4 * 3,
{
    let mut out: Vec<u8> = Vec::new();
    let mut i: usize = 0;
    while i < rgba.len()
        invariant
            rgba.len() % 4 == 0,
            i % 4 == 0,
            i <= rgba.len(),
            out@ == rgb_of(rgba@.subrange(0, i as int)),
            out.len() == i / 4 * 3,
        decreases rgba.len() - i,
    {
        out.push(rgba[i]);
        out.push(rgba[i + 1]);
        out.push(rgba[i + 2]);
        let next = i + 4;
        assert(rgba@.subrange(0, next as int).subrange(0, i as int) =~= rgba@.subrange(0, i as int));
        assert(out@ =~= rgb_of(rgba@.subrange(0, next as int)));
        i = next;
    }
    assert(rgba@.subrange(0, i as int) =~= rgba@);
    out
}

/// Relies on `image::imageops::resize` with `FilterType::Nearest`: the
/// scaled image, `new_width * new_height` RGB pixels. The bounds keep its
/// output and its intermediate `width x new_height` buffer addressable.
#[verifier::external_body]
fn resize_nearest(rgb: Vec<u8>, width: u32, height: u32, new_width: u32, new_height: u32) -> (r: Vec<u8>)
    requires
        rgb@.len() == width as int * height as int * 3,
        new_width as int * new_height as int * 3 <= usize::MAX,
        scalable(width, new_height),
    ensures
        r@ == nearest_resized(rgb@, width, height, new_width, new_height),
        r@.len() == new_width as int * new_height as int * 3,
{
    let source = image::RgbImage::from_raw(width, height, rgb).unwrap();
    image::imageops::resize(&source, new_width, new_height, image::imageops::FilterType::Nearest).into_raw()
}

/// Relies on `image::codecs::jpeg::JpegEncoder::new_with_quality` and
/// `encode`, writing RGB pixels into a `Vec`: writing to memory does not
/// fail, so it fails exactly when a side is 0 or above 65535.
#[verifier::external_body]
fn jpeg_encode(rgb: &Vec<u8>, width: u32, height: u32, quality: u8) -> (r: Result<Vec<u8>, image::ImageError>)
    requires
        rgb@.len() == width as int * height as int * 3,
    ensures
        r is Ok <==> jpeg_size_ok(width, height),
        r matches Ok(bytes) ==> bytes@ == jpeg_of(rgb@, width, height, quality),
{
    let mut buffer = Vec::new();
    let mut encoder = image::codecs::jpeg::JpegEncoder::new_with_quality(&mut buffer, quality);
    encoder.encode(rgb, width, height, image::ExtendedColorType::Rgb8)?;
    Ok(buffer)
}

/// Relies on `base64::engine::general_purpose::STANDARD.encode`. Its one
/// panic, an overflow of the output length, needs more than `isize::MAX`
/// input bytes, which no `Vec<u8>` holds.
#[verifier::external_body]
fn base64_encode(bytes: &Vec<u8>) -> (r: String)
    ensures
        r@ == base64_of(bytes@),
{
    base64::engine::general_purpose::STANDARD.encode(bytes)
}

/// Turns the compressor's answer into the transport payload: the text-safe
/// encoding of the compressed bytes, or `Encode` when it refused.
pub fn package_jpeg(compressed: Result<Vec<u8>, image::ImageError>) -> (r: Result<String, FrameError>)
    ensures
        compressed is Err ==> r == Err::<String, FrameError>(FrameError::Encode),
        compressed matches Ok(bytes) ==> (r matches Ok(text) && text@ == base64_of(bytes@)),
{
    match compressed {
        Ok(bytes) => Ok(base64_encode(&bytes)),
        Err(_) => Err(FrameError::Encode),
    }
}

/// Turns one captured frame into its transport payload: alpha dropped,
/// scaled to the target size, compressed, then encoded as text. On a 64-bit
/// target every well-formed frame is scalable.
pub fn encode_frame(frame: &RawFrame, settings: &FrameSettings) -> (r: Result<String, FrameError>)
    requires
        settings.wf(),
    ensures
        !frame.wf() ==> r == Err::<String, FrameError>(FrameError::BadBuffer),
        frame.wf() && !scalable(frame.width, settings.target_height) ==> r == Err::<String, FrameError>(
            FrameError::TooLarge,
        ),
        frame.wf() && scalable(frame.width, settings.target_height) ==> (r matches Ok(text) && text@
            == payload_of(*frame, *settings)),
{
    let w = frame.width as u128;
    let h = frame.height as u128;
    assert(w * h * 4 <= 0xffff_ffff * 0xffff_ffff * 4) by (nonlinear_arith)
        requires
            w <= 0xffff_ffff,
            h <= 0xffff_ffff,
    ;
    assert(w * (settings.target_height as u128) * 4 <= 0xffff_ffff * 0xffff_ffff * 4) by (nonlinear_arith)
        requires
            w <= 0xffff_ffff,
            settings.target_height <= 0xffff_ffff,
    ;
    let expected: u128 = w * h * 4;
    if frame.pixels.len() as u128 != expected {
        return Err(FrameError::BadBuffer);
    }
    let intermediate: u128 = w * (settings.target_height as u128) * 4;
    if intermediate > usize::MAX as u128 {
        return Err(FrameError::TooLarge);
    }
    let rgb = drop_alpha(&frame.pixels);
    let scaled = resize_nearest(
        rgb,
        frame.width,
        frame.height,
        settings.target_width,
        settings.target_height,
    );
    let compressed = jpeg_encode(&scaled, settings.target_width, settings.target_height, settings.quality);
    package_jpeg(compressed)
}

} // verus!
