use vstd::prelude::*;
use vstd::string::StringExecFns;
use barcoders::error::Error as SymbolError;
use barcoders::generators::image::{Color, Image, Rotation};
use crate::code::Code;

verus! {

/// Height of a rendered barcode image, in pixels.
pub const JPEG_RENDER_HEIGHT: u32 = 4;

/// Width of one bar module in a rendered barcode image, in pixels.
pub const JPEG_RENDER_BAR_WIDTH: u32 = 6;

/// The largest width or height of a JPEG image, in pixels.
pub const JPEG_MAX_SIDE: u32 = 65535;

/// How a barcode is rasterised: black bars on white, unrotated, as JPEG.
#[derive(Debug, Clone, Copy)]
pub struct RenderStyle {
    /// Image height in pixels.
    pub height: u32,
    /// Width of one module in pixels.
    pub bar_width: u32,
}

/// Why a barcode could not be rendered.
#[derive(Debug, Clone, Copy, PartialEq, Eq)]
pub enum RenderError {
    /// The symbol encoder rejected the barcode's data.
    EncodingFailed,
    /// The image generator could not produce the picture, or the picture
    /// would be empty or too wide for JPEG.
    ImageFailed,
}

/// What barcoders' JPEG generator makes of a module pattern at the given
/// height and module width (black on white, unrotated): the image bytes, or
/// `None` where the image encoder fails.
pub uninterp spec fn jpeg_of(pattern: Seq<u8>, height: u32, bar_width: u32) -> Option<Seq<u8>>;

/// Relies on barcoders' `Image::generate` for a black-on-white, unrotated
/// `Image::JPEG`: it draws each module `bar_width` pixels wide and `height`
/// pixels high and encodes the picture as JPEG. The size is kept within
/// what the JPEG header can record.
#[verifier::external_body]
fn jpeg_image(pattern: &Vec<u8>, height: u32, bar_width: u32) -> (r: Result<Vec<u8>, SymbolError>)
    requires
        1 <= height <= JPEG_MAX_SIDE,
        1 <= pattern@.len() * bar_width <= JPEG_MAX_SIDE,
    ensures
        r is Ok <==> jpeg_of(pattern@, height, bar_width) is Some,
        r matches Ok(v) ==> jpeg_of(pattern@, height, bar_width) == Some(v@),
{
    let image = Image::JPEG {
        height,
        xdim: bar_width,
        rotation: Rotation::Zero,
        foreground: Color::black(),
        background: Color::white(),
    };
    image.generate(&pattern[..])
}

impl RenderStyle {
    /// Both dimensions are positive and the height fits a JPEG image.
    pub open spec fn wf(&self) -> bool {
        &&& 1 <= self.height <= JPEG_MAX_SIDE
        &&& 1 <= self.bar_width
    }

    /// The style the catalogue uses.
    pub fn catalogue() -> (r: RenderStyle)
        ensures
            r.height == JPEG_RENDER_HEIGHT,
            r.bar_width == JPEG_RENDER_BAR_WIDTH,
            r.wf(),
    {
        RenderStyle { height: JPEG_RENDER_HEIGHT, bar_width: JPEG_RENDER_BAR_WIDTH }
    }
}

/// A picture of `pattern` in `style` is at least one pixel and at most
/// `JPEG_MAX_SIDE` pixels wide.
pub open spec fn fits_jpeg(pattern: Seq<u8>, style: RenderStyle) -> bool {
    1 <= pattern.len() * style.bar_width <= JPEG_MAX_SIDE
}

/// The outcome of rendering `code` in `style`.
pub open spec fn render_outcome(code: Code, style: RenderStyle) -> Result<Seq<u8>, RenderError> {
    match code.pattern() {
        None => Err(RenderError::EncodingFailed),
        Some(p) => if !fits_jpeg(p, style) {
            Err(RenderError::ImageFailed)
        } else {
            match jpeg_of(p, style.height, style.bar_width) {
            None => Err(RenderError::ImageFailed),
            Some(bytes) => Ok(bytes),
            }
        },
    }
}

/// Renders a barcode as JPEG image bytes.
pub fn render(code: &Code, style: &RenderStyle) -> (r: Result<Vec<u8>, RenderError>)
    requires
        code.wf(),
        style.wf(),
    ensures
        r is Ok <==> render_outcome(*code, *style) is Ok,
        r matches Ok(v) ==> render_outcome(*code, *style) == Ok::<Seq<u8>, RenderError>(v@),
        r matches Err(e) ==> render_outcome(*code, *style) == Err::<Seq<u8>, RenderError>(e),
{
    let pattern = match code.encode() {
        Ok(p) => p,
        Err(_) => {
            return Err(RenderError::EncodingFailed);
        },
    };
    let len = pattern.len();
    if len == 0 || len > (JPEG_MAX_SIDE / style.bar_width) as usize {
        assert(!fits_jpeg(pattern@, *style)) by (nonlinear_arith)
            requires
                len == 0 || len > JPEG_MAX_SIDE / style.bar_width,
                1 <= style.bar_width,
                len == pattern@.len(),
                fits_jpeg(pattern@, *style) == (1 <= pattern@.len() * style.bar_width
                    <= JPEG_MAX_SIDE),
        ;
        return Err(RenderError::ImageFailed);
    }
    assert(1 <= pattern@.len() * style.bar_width <= JPEG_MAX_SIDE) by (nonlinear_arith)
        requires
            1 <= len <= JPEG_MAX_SIDE / style.bar_width,
            1 <= style.bar_width,
            len == pattern@.len(),
    ;
    match jpeg_image(&pattern, style.height, style.bar_width) {
        Ok(bytes) => Ok(bytes),
        Err(_) => Err(RenderError::ImageFailed),
    }
}

/// The file extension of rendered images.
pub open spec fn jpeg_extension() -> Seq<char> {
    seq!['.', 'j', 'p', 'e', 'g']
}

/// The file name a rendered barcode is stored under: its display text and
/// the JPEG extension, such as `EAN8_00045933.jpeg`.
pub fn image_file_name(code: &Code) -> (r: String)
    ensures
        r@ == code.display_text() + jpeg_extension(),
{
    let mut r = code.display();
    proof {
        reveal_strlit(".jpeg");
    }
    r.append(".jpeg");
    r
}

} // verus!
