//! Texture images: the checkerboard generators and PNG/JPEG encoding of pixel data.

use vstd::prelude::*;
use image::ColorType as Ct;
use image::ImageEncoder;

verus! {

/// An error reported by the image encoder.
#[verifier::external_type_specification]
#[verifier::external_body]
pub struct ExImageError(image::ImageError);

/// Errors of texture processing.
#[derive(Debug)]
pub enum TextureError {
    /// The image encoder failed.
    ImageError(image::ImageError),
    /// Writing the encoded image failed.
    IoError(std::io::Error),
}

impl From<image::ImageError> for TextureError {
    /// Wraps an encoder error.
    fn from(err: image::ImageError) -> (r: TextureError) {
        TextureError::ImageError(err)
    }
}

impl vstd::std_specs::convert::FromSpecImpl<image::ImageError> for TextureError {
    open spec fn obeys_from_spec() -> bool {
        true
    }

    open spec fn from_spec(v: image::ImageError) -> TextureError {
        TextureError::ImageError(v)
    }
}

impl From<std::io::Error> for TextureError {
    /// Wraps an I/O error.
    fn from(err: std::io::Error) -> (r: TextureError) {
        TextureError::IoError(err)
    }
}

impl vstd::std_specs::convert::FromSpecImpl<std::io::Error> for TextureError {
    open spec fn obeys_from_spec() -> bool {
        true
    }

    open spec fn from_spec(v: std::io::Error) -> TextureError {
        TextureError::IoError(v)
    }
}

/// Result of texture operations.
pub type Result<T> = std::result::Result<T, TextureError>;

/// The encodings a texture image can be stored in.
#[derive(Debug, Clone, Copy, PartialEq, Eq, Structural)]
pub enum TextureFormat {
    PNG,
    JPEG,
}

/// The MIME type of each format, as the glTF `image.mimeType` member spells it.
pub open spec fn mime_type_of(format: TextureFormat) -> Seq<char> {
    match format {
        TextureFormat::PNG => "image/png"@,
        TextureFormat::JPEG => "image/jpeg"@,
    }
}

impl TextureFormat {
    /// The MIME type of the format: `image/png` or `image/jpeg`.
    pub fn mime_type(&self) -> (m: &'static str)
        ensures
            m@ == mime_type_of(*self),
    {
        match self {
            TextureFormat::PNG => "image/png",
            TextureFormat::JPEG => "image/jpeg",
        }
    }
}

/// The pixel layouts an image can have: the channels of a pixel and the size of each sample
/// (8 or 16 bits, or 32-bit floating point, kept as its bytes).
#[derive(Debug, Clone, Copy, PartialEq, Eq, Structural)]
pub enum ColorKind {
    L8,
    La8,
    Rgb8,
    Rgba8,
    L16,
    La16,
    Rgb16,
    Rgba16,
    Rgb32F,
    Rgba32F,
}

/// The number of bytes one pixel of `c` takes.
pub open spec fn bytes_per_pixel(c: ColorKind) -> int {
    match c {
        ColorKind::L8 => 1,
        ColorKind::La8 => 2,
        ColorKind::Rgb8 => 3,
        ColorKind::Rgba8 => 4,
        ColorKind::L16 => 2,
        ColorKind::La16 => 4,
        ColorKind::Rgb16 => 6,
        ColorKind::Rgba16 => 8,
        ColorKind::Rgb32F => 12,
        ColorKind::Rgba32F => 16,
    }
}

/// An image stored row by row: `color` says how each pixel is laid out, and `pixels` holds
/// the bytes of the samples (samples wider than a byte in the machine's byte order).
pub struct PixelImage {
    /// Width in pixels.
    pub width: u32,
    /// Height in pixels.
    pub height: u32,
    /// The layout of a pixel.
    pub color: ColorKind,
    /// The sample bytes: for [`ColorKind::Rgba8`], pixel (x, y) occupies bytes
    /// `4 * (y * width + x)` to `4 * (y * width + x) + 3` (red, green, blue, alpha).
    pub pixels: Vec<u8>,
}

impl PixelImage {
    /// The pixel data has exactly one pixel's bytes per pixel.
    pub open spec fn wf(&self) -> bool {
        self.pixels@.len() == self.width as int * self.height as int * bytes_per_pixel(self.color)
    }

    /// The byte of channel `c` of pixel (x, y).
    pub open spec fn channel(&self, x: int, y: int, c: int) -> u8 {
        self.pixels@[(y * self.width + x) * 4 + c]
    }
}

/// The color of pixel (x, y) on a checkerboard of `cell_size`-pixel cells: `color1` where the
/// cell column plus the cell row is even, `color2` where it is odd.
pub open spec fn checker_color(x: int, y: int, cell_size: int, color1: [u8; 4], color2: [u8; 4]) -> [u8; 4] {
    if (x / cell_size + y / cell_size) % 2 == 0 {
        color1
    } else {
        color2
    }
}

/// `img` is a `width` x `height` checkerboard of `cell_size`-pixel cells in the two colors.
pub open spec fn is_checkerboard(img: PixelImage, width: u32, height: u32, cell_size: u32, color1: [u8; 4], color2: [u8; 4]) -> bool {
    &&& img.width == width
    &&& img.height == height
    &&& img.color == ColorKind::Rgba8
    &&& img.wf()
    &&& forall|x: int, y: int, c: int|
        0 <= x < width && 0 <= y < height && 0 <= c < 4 ==> #[trigger] img.channel(x, y, c)
            == checker_color(x, y, cell_size as int, color1, color2)@[c]
}

/// Pixels come in row order: a pixel before (x, y) in that order has a smaller position.
proof fn lemma_row_order(xp: int, yp: int, x: int, y: int, w: int)
    requires
        0 <= xp < w,
        0 <= yp,
        (yp < y && 0 <= x) || (yp == y && xp < x),
    ensures
        yp * w + xp < y * w + x,
{
    if yp < y {
        assert(yp * w + xp < y * w + x) by (nonlinear_arith)
            requires
                0 <= xp < w,
                0 <= yp < y,
                0 <= x,
        ;
    }
}

/// A `width` x `height` checkerboard of `cell_size`-pixel cells: the pixel (x, y) gets
/// `color1` when `x / cell_size + y / cell_size` is even and `color2` otherwise. The cell size
/// must not be zero unless the image is empty.
pub fn generate_checkerboard(width: u32, height: u32, cell_size: u32, color1: [u8; 4], color2: [u8; 4]) -> (img: PixelImage)
    requires
        cell_size > 0 || width == 0 || height == 0,
        width as int * height as int * 4 <= usize::MAX,
    ensures
        is_checkerboard(img, width, height, cell_size, color1, color2),
{
    let ghost w = width as int;
    let mut pixels: Vec<u8> = Vec::new();
    let mut y: u32 = 0;
    while y < height
        invariant
            cell_size > 0 || width == 0 || height == 0,
            y <= height,
            w == width as int,
            width as int * height as int * 4 <= usize::MAX,
            pixels@.len() == (y as int * w) * 4,
            forall|xp: int, yp: int, c: int|
                0 <= xp < w && 0 <= yp < y && 0 <= c < 4 ==> #[trigger] pixels@[(yp * w + xp) * 4 + c]
                    == checker_color(xp, yp, cell_size as int, color1, color2)@[c],
        decreases height - y,
    {
        let mut x: u32 = 0;
        proof {
            assert(y as int * w <= height as int * w) by (nonlinear_arith)
                requires y <= height, w >= 0;
            assert((y as int + 1) * w == y as int * w + w) by (nonlinear_arith);
            assert((y as int + 1) * w <= height as int * w) by (nonlinear_arith)
                requires y < height, w >= 0;
        }
        while x < width
            invariant
                cell_size > 0 || width == 0,
                y < height,
                x <= width,
                w == width as int,
                width as int * height as int * 4 <= usize::MAX,
                (y as int + 1) * w <= height as int * w,
                pixels@.len() == (y as int * w + x) * 4,
                forall|xp: int, yp: int, c: int|
                    0 <= xp < w && 0 <= c < 4 && ((0 <= yp < y) || (yp == y && xp < x))
                        ==> #[trigger] pixels@[(yp * w + xp) * 4 + c] == checker_color(
                        xp,
                        yp,
                        cell_size as int,
                        color1,
                        color2,
                    )@[c],
            decreases width - x,
        {
            let cell_x = x / cell_size;
            let cell_y = y / cell_size;
            let color = if (cell_x as u64 + cell_y as u64) % 2 == 0 {
                color1
            } else {
                color2
            };
            let ghost before = pixels@;
            pixels.push(color[0]);
            pixels.push(color[1]);
            pixels.push(color[2]);
            pixels.push(color[3]);
            x = x + 1;
            proof {
                let base = (y as int * w + (x - 1)) * 4;
                assert forall|xp: int, yp: int, c: int|
                    0 <= xp < w && 0 <= c < 4 && ((0 <= yp < y) || (yp == y && xp < x))
                    implies #[trigger] pixels@[(yp * w + xp) * 4 + c] == checker_color(
                    xp,
                    yp,
                    cell_size as int,
                    color1,
                    color2,
                )@[c] by {
                    if yp == y && xp == x - 1 {
                        assert((yp * w + xp) * 4 + c == base + c);
                    } else {
                        lemma_row_order(xp, yp, x - 1, y as int, w);
                        assert((yp * w + xp) * 4 + c < base);
                        assert(pixels@[(yp * w + xp) * 4 + c] == before[(yp * w + xp) * 4 + c]);
                    }
                }
            }
        }
        y = y + 1;
        proof {
            assert((y as int - 1) * w + w == y as int * w) by (nonlinear_arith);
        }
    }
    assert(y as int * w * 4 == width as int * height as int * 4) by (nonlinear_arith)
        requires
            y == height,
            w == width as int,
    ;
    let img = PixelImage { width, height, color: ColorKind::Rgba8, pixels };
    assert forall|x: int, yy: int, c: int|
        0 <= x < width && 0 <= yy < height && 0 <= c < 4 implies #[trigger] img.channel(x, yy, c)
        == checker_color(x, yy, cell_size as int, color1, color2)@[c] by {
        assert(img.channel(x, yy, c) == img.pixels@[(yy * w + x) * 4 + c]);
    }
    img
}

/// The opaque version of the RGB color `c`.
pub open spec fn opaque(c: [u8; 3]) -> [u8; 4] {
    [c[0], c[1], c[2], 255u8]
}

/// Opaque white.
pub open spec fn white() -> [u8; 4] {
    [255u8, 255u8, 255u8, 255u8]
}

/// Opaque black.
pub open spec fn black() -> [u8; 4] {
    [0u8, 0u8, 0u8, 255u8]
}

/// A `width` x `height` black and white checkerboard of eight cells per row (white first).
/// Needs `width` of at least 8 unless the image is empty.
pub fn create_uv_test_pattern(width: u32, height: u32) -> (img: PixelImage)
    requires
        width >= 8 || width == 0 || height == 0,
        width as int * height as int * 4 <= usize::MAX,
    ensures
        is_checkerboard(img, width, height, width / 8, white(), black()),
{
    let img = generate_checkerboard(width, height, width / 8, [255, 255, 255, 255], [0, 0, 0, 255]);
    assert([255u8, 255u8, 255u8, 255u8] =~= white());
    assert([0u8, 0u8, 0u8, 255u8] =~= black());
    img
}

/// A `width` x `height` checkerboard of `cell_size`-pixel cells in two opaque colors.
pub fn create_colored_checkerboard(width: u32, height: u32, cell_size: u32, color1: [u8; 3], color2: [u8; 3]) -> (img: PixelImage)
    requires
        cell_size > 0 || width == 0 || height == 0,
        width as int * height as int * 4 <= usize::MAX,
    ensures
        is_checkerboard(img, width, height, cell_size, opaque(color1), opaque(color2)),
{
    let img = generate_checkerboard(
        width,
        height,
        cell_size,
        [color1[0], color1[1], color1[2], 255],
        [color2[0], color2[1], color2[2], 255],
    );
    assert([color1[0], color1[1], color1[2], 255u8] =~= opaque(color1));
    assert([color2[0], color2[1], color2[2], 255u8] =~= opaque(color2));
    img
}

/// The PNG file that the `image` crate's PNG encoder writes for a `width` x `height` image of
/// pixel layout `color` with these sample bytes, or `None` when it reports an error.
pub uninterp spec fn png_encoding(width: u32, height: u32, color: ColorKind, pixels: Seq<u8>) -> Option<Seq<u8>>;

/// The JPEG file that the `image` crate's JPEG encoder writes at this quality for a
/// `width` x `height` image of pixel layout `color` with these sample bytes, or `None` when it
/// reports an error.
pub uninterp spec fn jpeg_encoding(width: u32, height: u32, color: ColorKind, pixels: Seq<u8>, quality: u8) -> Option<Seq<u8>>;

/// Encodes sample bytes of the given layout as PNG with the `image` crate's
/// `PngEncoder::write_image` (what `DynamicImage::write_to` does for `ImageOutputFormat::Png`)
/// into an in-memory buffer. Trusted: the bytes (or the error) are what the encoder produces
/// for these arguments, named [`png_encoding`]; nothing more is claimed about them. The
/// encoder panics unless the data has one pixel's bytes per pixel, which `requires` rules out.
#[verifier::external_body]
fn encode_png(width: u32, height: u32, color: ColorKind, pixels: &Vec<u8>) -> (r: std::result::Result<Vec<u8>, image::ImageError>)
    requires
        pixels@.len() == width as int * height as int * bytes_per_pixel(color),
    ensures
        match r {
            Ok(b) => png_encoding(width, height, color, pixels@) == Some(b@),
            Err(_) => png_encoding(width, height, color, pixels@) is None,
        },
{
    let c = match color {
        ColorKind::L8 => Ct::L8, ColorKind::La8 => Ct::La8, ColorKind::Rgb8 => Ct::Rgb8, ColorKind::Rgba8 => Ct::Rgba8,
        ColorKind::L16 => Ct::L16, ColorKind::La16 => Ct::La16, ColorKind::Rgb16 => Ct::Rgb16,
        ColorKind::Rgba16 => Ct::Rgba16, ColorKind::Rgb32F => Ct::Rgb32F, ColorKind::Rgba32F => Ct::Rgba32F,
    };
    let mut bytes: Vec<u8> = Vec::new();
    let written = image::codecs::png::PngEncoder::new(&mut bytes).write_image(pixels.as_slice(), width, height, c);
    match written {
        Ok(()) => Ok(bytes),
        Err(e) => Err(e),
    }
}

/// Encodes sample bytes of the given layout as JPEG of the given quality with the `image`
/// crate's `JpegEncoder::write_image` (what `DynamicImage::write_to` does for
/// `ImageOutputFormat::Jpeg`) into an in-memory buffer. Trusted: the bytes (or the error) are
/// what the encoder produces for these arguments, named [`jpeg_encoding`]; nothing more is
/// claimed about them. The encoder panics unless the data has one pixel's bytes per pixel,
/// which `requires` rules out.
#[verifier::external_body]
fn encode_jpeg(width: u32, height: u32, color: ColorKind, pixels: &Vec<u8>, quality: u8) -> (r: std::result::Result<Vec<u8>, image::ImageError>)
    requires
        pixels@.len() == width as int * height as int * bytes_per_pixel(color),
    ensures
        match r {
            Ok(b) => jpeg_encoding(width, height, color, pixels@, quality) == Some(b@),
            Err(_) => jpeg_encoding(width, height, color, pixels@, quality) is None,
        },
{
    let c = match color {
        ColorKind::L8 => Ct::L8, ColorKind::La8 => Ct::La8, ColorKind::Rgb8 => Ct::Rgb8, ColorKind::Rgba8 => Ct::Rgba8,
        ColorKind::L16 => Ct::L16, ColorKind::La16 => Ct::La16, ColorKind::Rgb16 => Ct::Rgb16,
        ColorKind::Rgba16 => Ct::Rgba16, ColorKind::Rgb32F => Ct::Rgb32F, ColorKind::Rgba32F => Ct::Rgba32F,
    };
    let mut bytes: Vec<u8> = Vec::new();
    let encoder = image::codecs::jpeg::JpegEncoder::new_with_quality(&mut bytes, quality);
    let written = encoder.write_image(pixels.as_slice(), width, height, c);
    match written {
        Ok(()) => Ok(bytes),
        Err(e) => Err(e),
    }
}

/// The encoded file of `image` in `format` (JPEG at quality 90), if the encoder succeeds.
pub open spec fn encoding(image: PixelImage, format: TextureFormat) -> Option<Seq<u8>> {
    match format {
        TextureFormat::PNG => png_encoding(image.width, image.height, image.color, image.pixels@),
        TextureFormat::JPEG => jpeg_encoding(image.width, image.height, image.color, image.pixels@, 90),
    }
}

/// Encodes `image` as PNG; fails with `ImageError` exactly when the encoder does.
pub fn image_to_png_bytes(image: &PixelImage) -> (r: Result<Vec<u8>>)
    requires
        image.wf(),
    ensures
        match r {
            Ok(b) => png_encoding(image.width, image.height, image.color, image.pixels@) == Some(b@),
            Err(TextureError::ImageError(_)) => png_encoding(image.width, image.height, image.color, image.pixels@) is None,
            Err(TextureError::IoError(_)) => false,
        },
{
    match encode_png(image.width, image.height, image.color, &image.pixels) {
        Ok(bytes) => Ok(bytes),
        Err(e) => Err(TextureError::ImageError(e)),
    }
}

/// Encodes `image` as JPEG of the given quality; fails with `ImageError` exactly when the
/// encoder does.
pub fn image_to_jpeg_bytes(image: &PixelImage, quality: u8) -> (r: Result<Vec<u8>>)
    requires
        image.wf(),
    ensures
        match r {
            Ok(b) => jpeg_encoding(image.width, image.height, image.color, image.pixels@, quality) == Some(b@),
            Err(TextureError::ImageError(_)) => jpeg_encoding(image.width, image.height, image.color, image.pixels@, quality) is None,
            Err(TextureError::IoError(_)) => false,
        },
{
    match encode_jpeg(image.width, image.height, image.color, &image.pixels, quality) {
        Ok(bytes) => Ok(bytes),
        Err(e) => Err(TextureError::ImageError(e)),
    }
}

/// Encodes `image` in `format` (JPEG at quality 90); fails with `ImageError` exactly when the
/// encoder does.
pub fn image_to_bytes(image: &PixelImage, format: TextureFormat) -> (r: Result<Vec<u8>>)
    requires
        image.wf(),
    ensures
        match r {
            Ok(b) => encoding(*image, format) == Some(b@),
            Err(TextureError::ImageError(_)) => encoding(*image, format) is None,
            Err(TextureError::IoError(_)) => false,
        },
{
    match format {
        TextureFormat::PNG => image_to_png_bytes(image),
        TextureFormat::JPEG => image_to_jpeg_bytes(image, 90),
    }
}

} // verus!
