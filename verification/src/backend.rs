//! The calls into the `image`, `qrcode` and `url` crates and into
//! `std::path`.
//!
//! Nothing in this file is proved: each contract says what the function
//! called is taken to do, and the rest of the crate is verified against it.

use crate::format::ImageKind;
use crate::raster::covered;
use crate::raster::Raster;
use crate::validate::ParsedUrl;
use vstd::prelude::*;

verus! {

/// Calls `image::imageops::overlay` on two buffers of 8-bit RGB pixels, with
/// the top-left corner of `top` at column `x` of row `y` of `bottom`.
///
/// For pixels without alpha the `image` crate blends by replacing, so the
/// contract says: the result has the size of `bottom`; each of its pixels
/// that `top` covers is the pixel of `top` lying over it, and every other
/// pixel is that of `bottom`. The contract is stated only for a `top` that
/// lies wholly inside `bottom`.
#[verifier::external_body]
pub(crate) fn overlay_rgb(
    bottom: &Vec<u8>,
    bottom_width: u32,
    bottom_height: u32,
    top: &Vec<u8>,
    top_width: u32,
    top_height: u32,
    x: u32,
    y: u32,
) -> (out: Vec<u8>)
    requires
        Raster::of(bottom_width, bottom_height, bottom@).wf(),
        Raster::of(top_width, top_height, top@).wf(),
        x + top_width <= bottom_width,
        y + top_height <= bottom_height,
    ensures
        out@.len() == bottom@.len(),
        forall|px: int, py: int|
            0 <= px < bottom_width && 0 <= py < bottom_height ==> #[trigger] Raster::of(
                bottom_width,
                bottom_height,
                out@,
            ).pixel(px, py) == if covered(
                Raster::of(top_width, top_height, top@),
                x as int,
                y as int,
                px,
                py,
            ) {
                Raster::of(top_width, top_height, top@).pixel(px - x, py - y)
            } else {
                Raster::of(bottom_width, bottom_height, bottom@).pixel(px, py)
            },
{
    let mut canvas = image::RgbImage::from_raw(
        bottom_width,
        bottom_height,
        bottom.clone(),
    ).unwrap();
    let stamp = image::ImageBuffer::<image::Rgb<u8>, &[u8]>::from_raw(
        top_width,
        top_height,
        &top[..],
    ).unwrap();
    image::imageops::overlay(&mut canvas, &stamp, x, y);
    canvas.into_raw()
}

/// The extension that `std::path::Path::extension` finds in `path`: the part
/// of the file name behind its last dot, if the name has a dot and its last
/// dot is not its first character.
pub uninterp spec fn path_extension(path: Seq<char>) -> Option<Seq<char>>;

/// Calls `std::path::Path::extension` on `path` and gives the extension back
/// as text.
#[verifier::external_body]
pub(crate) fn extension(path: &str) -> (found: Option<String>)
    ensures
        found is Some <==> path_extension(path@) is Some,
        found matches Some(ext) ==> path_extension(path@) == Some(ext@),
{
    match std::path::Path::new(path).extension() {
        Some(ext) => match ext.to_str() {
            Some(text) => Some(text.to_string()),
            None => None,
        },
        None => None,
    }
}

/// Whether `std::path::Path::has_root` holds of `path`: on Unix, whether it
/// begins with `/`.
pub uninterp spec fn path_has_root(path: Seq<char>) -> bool;

/// Calls `std::path::Path::has_root` on `path`.
#[verifier::external_body]
pub(crate) fn has_root(path: &str) -> (rooted: bool)
    ensures
        rooted == path_has_root(path@),
{
    std::path::Path::new(path).has_root()
}

/// Whether `std::path::Path::is_relative` holds of `path`, that is, whether
/// it is not absolute.
pub uninterp spec fn path_is_relative(path: Seq<char>) -> bool;

/// Calls `std::path::Path::is_relative` on `path`.
#[verifier::external_body]
pub(crate) fn is_relative(path: &str) -> (relative: bool)
    ensures
        relative == path_is_relative(path@),
{
    std::path::Path::new(path).is_relative()
}

#[verifier::external_type_specification]
#[verifier::external_body]
pub struct ExUrlParseError(url::ParseError);

/// What `url::Url::parse` makes of `text`: `None` where it fails, else what
/// `url::Url::has_authority` says of the URL.
pub uninterp spec fn parsed_url(text: Seq<char>) -> Option<ParsedUrl>;

/// Calls `url::Url::parse` on `text` and, where that succeeds, asks the URL
/// `url::Url::has_authority`.
#[verifier::external_body]
pub(crate) fn parse_url(text: &str) -> (parsed: Result<ParsedUrl, url::ParseError>)
    ensures
        parsed matches Ok(url) ==> parsed_url(text@) == Some(url),
        parsed is Err ==> parsed_url(text@) is None,
{
    match url::Url::parse(text) {
        Ok(url) => Ok(ParsedUrl { has_authority: url.has_authority() }),
        Err(error) => Err(error),
    }
}

#[verifier::external_type_specification]
#[verifier::external_body]
pub struct ExImageError(image::ImageError);

#[verifier::external_type_specification]
#[verifier::external_body]
pub struct ExQrError(qrcode::types::QrError);

/// The picture that `image::load_from_memory` decodes from `bytes`, as 8-bit
/// RGB (`image::DynamicImage::into_rgb8`); `None` where decoding fails.
pub uninterp spec fn decoded_picture(bytes: Seq<u8>) -> Option<Raster>;

/// Calls `image::load_from_memory` on `bytes`, which guesses the file format
/// and decodes, and takes the picture apart into its width, its height and
/// its bytes as 8-bit RGB.
#[verifier::external_body]
pub(crate) fn decode_rgb(bytes: &[u8]) -> (decoded: Result<(u32, u32, Vec<u8>), image::ImageError>)
    ensures
        decoded matches Ok(parts) ==> decoded_picture(bytes@) == Some(
            Raster::of(parts.0, parts.1, parts.2@),
        ),
        decoded is Err ==> decoded_picture(bytes@) is None,
{
    match image::load_from_memory(bytes) {
        Ok(picture) => {
            let rgb = picture.into_rgb8();
            Ok((rgb.width(), rgb.height(), rgb.into_raw()))
        },
        Err(error) => Err(error),
    }
}

/// The picture of the QR symbol that `qrcode::QrCode::new` makes of the bytes
/// of `payload`, rendered with the defaults of `qrcode::QrCode::render` for
/// 8-bit gray pixels and widened to 8-bit RGB
/// (`image::DynamicImage::into_rgb8`); `None` where the payload cannot be
/// encoded.
pub uninterp spec fn qr_picture(payload: Seq<char>) -> Option<Raster>;

/// Calls `qrcode::QrCode::new` on the bytes of `payload`, renders the symbol
/// as 8-bit gray pixels (`render` and `build` with their defaults) and takes
/// the picture apart into its width, its height and its bytes as 8-bit RGB.
///
/// Besides naming the result, the contract says that the picture is gray:
/// the `image` crate widens a gray pixel by writing its one level into red,
/// green and blue.
#[verifier::external_body]
pub(crate) fn render_qr(payload: &str) -> (rendered: Result<
    (u32, u32, Vec<u8>),
    qrcode::types::QrError,
>)
    ensures
        rendered matches Ok(parts) ==> qr_picture(payload@) == Some(
            Raster::of(parts.0, parts.1, parts.2@),
        ),
        rendered matches Ok(parts) ==> Raster::of(parts.0, parts.1, parts.2@).is_gray(),
        rendered is Err ==> qr_picture(payload@) is None,
{
    match qrcode::QrCode::new(payload.as_bytes()) {
        Ok(code) => {
            let gray = code.render::<image::Luma<u8>>().build();
            let rgb = image::DynamicImage::ImageLuma8(gray).into_rgb8();
            Ok((rgb.width(), rgb.height(), rgb.into_raw()))
        },
        Err(error) => Err(error),
    }
}

/// The bytes of the file that `image::DynamicImage::write_to` writes for
/// `picture` in the format `kind`; `None` where encoding fails.
pub uninterp spec fn encoded_picture(picture: Raster, kind: ImageKind) -> Option<Seq<u8>>;

/// Calls `image::DynamicImage::write_to` on the picture with the given size
/// and 8-bit RGB bytes, writing into memory, with `image::ImageFormat::Jpeg`
/// or `image::ImageFormat::Png` as `kind` says.
#[verifier::external_body]
pub(crate) fn encode_rgb(width: u32, height: u32, data: &Vec<u8>, kind: ImageKind) -> (encoded:
    Result<Vec<u8>, image::ImageError>)
    requires
        Raster::of(width, height, data@).wf(),
    ensures
        encoded matches Ok(bytes) ==> encoded_picture(Raster::of(width, height, data@), kind)
            == Some(bytes@),
        encoded is Err ==> encoded_picture(Raster::of(width, height, data@), kind) is None,
{
    let pixels = image::RgbImage::from_raw(width, height, data.clone()).unwrap();
    let format = match kind {
        ImageKind::Jpeg => image::ImageFormat::Jpeg,
        ImageKind::Png => image::ImageFormat::Png,
    };
    let mut file: Vec<u8> = Vec::new();
    match image::DynamicImage::ImageRgb8(pixels).write_to(&mut file, format) {
        Ok(()) => Ok(file),
        Err(error) => Err(error),
    }
}

} // verus!
