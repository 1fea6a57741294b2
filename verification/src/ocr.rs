//! Preparation of a capture for Tesseract, and its setup message.
use vstd::prelude::*;
use crate::diff::RgbaFrame;
use crate::text::{split_on, split_char};

verus! {

/// How much a capture of `w x h` pixels is enlarged before OCR: small
/// captures are scaled up (Tesseract reads best at about 300 DPI).
pub open spec fn spec_upscale_factor(w: u32, h: u32) -> u32 {
    if w < 600 || h < 40 {
        if w < 300 || h < 20 {
            4
        } else {
            2
        }
    } else {
        1
    }
}

/// How much a capture is enlarged, in words: a capture that is narrower
/// than 300 pixels or lower than 20 is enlarged fourfold, whatever its
/// other side; one narrower than 600 or lower than 40 at least twofold; it
/// is left as it is exactly when it is at least 600 wide and 40 high; and
/// a smaller capture is never enlarged less than a larger one.
pub proof fn lemma_small_captures_enlarged(w: u32, h: u32, w2: u32, h2: u32)
    ensures
        w < 300 || h < 20 ==> spec_upscale_factor(w, h) == 4,
        w < 600 || h < 40 ==> spec_upscale_factor(w, h) >= 2,
        spec_upscale_factor(w, h) == 1 <==> (w >= 600 && h >= 40),
        spec_upscale_factor(w, h) == 1 || spec_upscale_factor(w, h) == 2 || spec_upscale_factor(w, h) == 4,
        w <= w2 && h <= h2 ==> spec_upscale_factor(w, h) >= spec_upscale_factor(w2, h2),
{
}

/// Executable `spec_upscale_factor`.
pub fn upscale_factor(w: u32, h: u32) -> (r: u32)
    ensures
        r == spec_upscale_factor(w, h),
{
    if w < 600 || h < 40 {
        if w < 300 || h < 20 {
            4
        } else {
            2
        }
    } else {
        1
    }
}

/// The size a capture is resized to before OCR, or `None` when it is read
/// as it is.
pub fn upscaled_size(w: u32, h: u32) -> (r: Option<(u32, u32)>)
    requires
        w * spec_upscale_factor(w, h) <= u32::MAX,
        h * spec_upscale_factor(w, h) <= u32::MAX,
    ensures
        spec_upscale_factor(w, h) == 1 ==> r is None,
        spec_upscale_factor(w, h) != 1 ==> r == Some(
            ((w * spec_upscale_factor(w, h)) as u32, (h * spec_upscale_factor(w, h)) as u32),
        ),
{
    let f = upscale_factor(w, h);
    if f == 1 {
        None
    } else {
        Some((w * f, h * f))
    }
}

/// The message shown when Tesseract cannot be set up for `lang`; it names
/// the package of the first language as an example.
pub open spec fn missing_tesseract_message(lang: Seq<char>) -> Seq<char> {
    "Tesseract not available for language '"@ + lang + "'. Install tesseract-ocr and the language pack (e.g. tesseract-ocr-"@
        + split_on(lang, '+')[0] + ")."@
}

/// Executable `missing_tesseract_message`.
pub fn tesseract_missing_message(lang: &str) -> (r: String)
    ensures
        r@ == missing_tesseract_message(lang@),
{
    let parts = split_char(lang, '+');
    proof {
        crate::text::lemma_split_nonempty(lang@, '+');
    }
    let mut m = String::from_str("Tesseract not available for language '");
    m.append(lang);
    m.append("'. Install tesseract-ocr and the language pack (e.g. tesseract-ocr-");
    m.append(parts[0].as_str());
    m.append(").");
    m
}


/// The grey levels of an RGBA image, one byte per pixel, as
/// `image::DynamicImage::to_luma8` computes them.
pub uninterp spec fn luma_of_rgba(data: Seq<u8>, w: u32, h: u32) -> Seq<u8>;

/// A `w x h` grey image resampled to `nw x nh` with the Lanczos3 filter, as
/// `image::imageops::resize` computes it.
pub uninterp spec fn lanczos3_resized(data: Seq<u8>, w: u32, h: u32, nw: u32, nh: u32) -> Seq<u8>;

/// The PNG file of a `w x h` grey image, as `image`'s PNG encoder writes it.
pub uninterp spec fn png_of_luma(data: Seq<u8>, w: u32, h: u32) -> Seq<u8>;

/// `DynamicImage::to_luma8` on an RGBA image: its grey levels, one per
/// pixel. The contract names the result and gives its length (one sample
/// per pixel, as the source allocates it).
#[verifier::external_body]
fn rgba_to_luma(frame: &RgbaFrame) -> (r: Vec<u8>)
    requires
        frame.wf(),
    ensures
        r@ == luma_of_rgba(frame.data@, frame.width, frame.height),
        r@.len() == frame.width * frame.height,
{
    let img = image::RgbaImage::from_raw(frame.width, frame.height, frame.data.clone()).unwrap();
    image::DynamicImage::ImageRgba8(img).to_luma8().into_raw()
}

/// `image::imageops::resize` with the Lanczos3 filter on a grey image. The
/// contract names the result and gives its length (the source allocates
/// an `nw x nh` image).
#[verifier::external_body]
fn resize_luma(data: &Vec<u8>, w: u32, h: u32, nw: u32, nh: u32) -> (r: Vec<u8>)
    requires
        data@.len() == w * h,
        nw * nh <= usize::MAX,
    ensures
        r@ == lanczos3_resized(data@, w, h, nw, nh),
        r@.len() == nw * nh,
{
    let img = image::GrayImage::from_raw(w, h, data.clone()).unwrap();
    image::imageops::resize(&img, nw, nh, image::imageops::FilterType::Lanczos3).into_raw()
}

/// `DynamicImage::write_to` in PNG format on a grey image, into memory.
/// The contract names the file, and says when the encoder refuses the
/// image (`None`): the PNG writer's header check rejects a zero width or
/// height, and for 8-bit grey samples written to memory nothing else fails.
#[verifier::external_body]
fn encode_png(data: &Vec<u8>, w: u32, h: u32) -> (r: Option<Vec<u8>>)
    requires
        data@.len() == w * h,
    ensures
        r is Some <==> (w > 0 && h > 0),
        r matches Some(b) ==> b@ == png_of_luma(data@, w, h),
{
    let img = image::GrayImage::from_raw(w, h, data.clone()).unwrap();
    let mut out: Vec<u8> = Vec::new();
    match image::DynamicImage::ImageLuma8(img).write_to(&mut std::io::Cursor::new(&mut out), image::ImageFormat::Png) {
        Ok(()) => Some(out),
        Err(_) => None,
    }
}

/// Why a capture could not be prepared for OCR.
#[derive(Debug, Clone, Copy, PartialEq, Eq, Structural)]
pub enum OcrError {
    /// The PNG encoder refused the image.
    EncodeFailed,
}

impl OcrError {
    /// Human-readable description.
    pub fn message(&self) -> (r: String)
        ensures
            r@ == "Failed to encode image as PNG for OCR"@,
    {
        String::from_str("Failed to encode image as PNG for OCR")
    }
}

/// The grey image handed to Tesseract: the capture's grey levels, enlarged
/// by `spec_upscale_factor` when that is not 1.
pub open spec fn ocr_samples(frame: RgbaFrame) -> Seq<u8> {
    let f = spec_upscale_factor(frame.width, frame.height);
    let luma = luma_of_rgba(frame.data@, frame.width, frame.height);
    if f == 1 {
        luma
    } else {
        lanczos3_resized(luma, frame.width, frame.height, (frame.width * f) as u32, (frame.height * f) as u32)
    }
}

/// The capture as a PNG file of its grey levels, enlarged when small. It
/// fails only on an empty capture (no columns or no rows), which the PNG
/// encoder refuses.
pub fn prepare_for_ocr(frame: &RgbaFrame) -> (r: Result<Vec<u8>, OcrError>)
    requires
        frame.wf(),
        frame.width * spec_upscale_factor(frame.width, frame.height) <= u32::MAX,
        frame.height * spec_upscale_factor(frame.width, frame.height) <= u32::MAX,
        (frame.width * spec_upscale_factor(frame.width, frame.height)) * (frame.height
            * spec_upscale_factor(frame.width, frame.height)) <= usize::MAX,
    ensures
        r matches Ok(b) ==> ({
            let f = spec_upscale_factor(frame.width, frame.height);
            b@ == png_of_luma(ocr_samples(*frame), (frame.width * f) as u32, (frame.height * f) as u32)
        }),
        r is Ok <==> (frame.width > 0 && frame.height > 0),
        r is Err ==> r == Err::<Vec<u8>, OcrError>(OcrError::EncodeFailed),
{
    let w = frame.width;
    let h = frame.height;
    let luma = rgba_to_luma(frame);
    let f = upscale_factor(w, h);
    let nw = w * f;
    let nh = h * f;
    let samples = if f == 1 {
        luma
    } else {
        resize_luma(&luma, w, h, nw, nh)
    };
    proof {
        assert(samples@.len() == nw * nh) by {
            if f == 1 {
                assert(nw == w && nh == h) by (nonlinear_arith)
                    requires
                        nw == w * f,
                        nh == h * f,
                        f == 1,
                ;
            }
        }
        assert((nw > 0 && nh > 0) <==> (w > 0 && h > 0)) by (nonlinear_arith)
            requires
                nw == w * f,
                nh == h * f,
                f >= 1,
        ;
    }
    match encode_png(&samples, nw, nh) {
        Some(png) => Ok(png),
        None => Err(OcrError::EncodeFailed),
    }
}

} // verus!
