//! The pipeline from the captured screenshot to the bytes of the output
//! file: decode, render the QR symbol, lay it over, encode.

use crate::backend::decode_rgb;
use crate::backend::decoded_picture;
use crate::backend::encode_rgb;
use crate::backend::encoded_picture;
use crate::backend::qr_picture;
use crate::backend::render_qr;
use crate::error::PipelineError;
use crate::format::get_image_format;
use crate::format::output_format;
use crate::raster::do_overlay;
use crate::raster::fits;
use crate::raster::lemma_overlay_keeps_the_rest;
use crate::raster::lemma_overlay_keeps_the_size;
use crate::raster::lemma_overlay_puts_top_in_corner;
use crate::raster::overlaid_in_corner;
use crate::raster::Raster;
use crate::raster::RasterImage;
use vstd::prelude::*;

verus! {

/// `found` if it is a picture with at least one pixel and exactly the bytes
/// of its pixels.
pub open spec fn usable(found: Option<Raster>) -> Option<Raster> {
    match found {
        Some(picture) => if picture.wf() {
            Some(picture)
        } else {
            None
        },
        None => None,
    }
}

/// The screenshot that the captured bytes hold, if they hold one.
pub open spec fn screenshot(captured: Seq<u8>) -> Option<Raster> {
    usable(decoded_picture(captured))
}

/// The picture of the QR symbol for `url`, if it can be encoded.
pub open spec fn qr_code(url: Seq<char>) -> Option<Raster> {
    usable(qr_picture(url))
}

/// What the pipeline makes of a URL, an output path and the bytes that the
/// browser captured for the URL: the bytes of the output file, or the stage
/// that failed first.
pub open spec fn pipeline_outcome(url: Seq<char>, output: Seq<char>, captured: Seq<u8>) -> Result<
    Seq<u8>,
    PipelineError,
> {
    match screenshot(captured) {
        None => Err(PipelineError::Capture),
        Some(bottom) => match qr_code(url) {
            None => Err(PipelineError::Encode),
            Some(top) => if !fits(top, bottom) {
                Err(PipelineError::CompositorPrecondition)
            } else {
                match encoded_picture(overlaid_in_corner(bottom, top), output_format(output)) {
                    None => Err(PipelineError::Write),
                    Some(file) => Ok(file),
                }
            },
        },
    }
}

/// Decodes what the browser captured for a URL into the screenshot that the
/// pipeline works on. Fails with `Capture` where the bytes hold no picture.
pub fn url2image(captured: &[u8]) -> (shot: Result<RasterImage, PipelineError>)
    ensures
        shot matches Ok(picture) ==> screenshot(captured@) == Some(picture@),
        shot matches Err(error) ==> screenshot(captured@) is None && error
            == PipelineError::Capture,
{
    match decode_rgb(captured) {
        Ok((width, height, data)) => match RasterImage::new(width, height, data) {
            Some(picture) => Ok(picture),
            None => Err(PipelineError::Capture),
        },
        Err(_) => Err(PipelineError::Capture),
    }
}

/// Renders the QR symbol that encodes `url`, as a gray picture. Fails with
/// `Encode` where the URL cannot be encoded, as when it is too long for a
/// symbol.
pub fn gen_qrcode(url: &str) -> (code: Result<RasterImage, PipelineError>)
    ensures
        code matches Ok(picture) ==> qr_code(url@) == Some(picture@),
        code matches Ok(picture) ==> picture@.is_gray(),
        code matches Err(error) ==> qr_code(url@) is None && error == PipelineError::Encode,
{
    match render_qr(url) {
        Ok((width, height, data)) => match RasterImage::new(width, height, data) {
            Some(picture) => Ok(picture),
            None => Err(PipelineError::Encode),
        },
        Err(_) => Err(PipelineError::Encode),
    }
}

/// Runs the pipeline on what the browser captured for `url`: decodes the
/// screenshot, renders the QR symbol of `url`, lays it into the bottom-right
/// corner of the screenshot and encodes the result in the format that
/// `output` asks for. Gives the bytes to write to `output`, or the first
/// stage that failed.
pub fn web2image(url: &str, output: &str, captured: &[u8]) -> (file: Result<
    Vec<u8>,
    PipelineError,
>)
    ensures
        file matches Ok(bytes) ==> pipeline_outcome(url@, output@, captured@) matches Ok(expected)
            && expected == bytes@,
        file matches Err(error) ==> pipeline_outcome(url@, output@, captured@) matches Err(stage)
            && stage == error,
{
    let mut bottom = url2image(captured)?;
    let top = gen_qrcode(url)?;
    do_overlay(&mut bottom, &top)?;
    let kind = get_image_format(output).unwrap();
    match encode_rgb(bottom.width(), bottom.height(), bottom.as_bytes(), kind) {
        Ok(bytes) => Ok(bytes),
        Err(_) => Err(PipelineError::Write),
    }
}

/// Where the pipeline succeeds, the file is the encoding, in the format that
/// the output path asks for, of a picture that has the size of the
/// screenshot and holds the QR symbol flush in its bottom-right corner:
/// pixel (`i`, `j`) of the symbol lies in column `width - symbol width + i`
/// of row `height - symbol height + j`. Every pixel to the left of or above
/// that corner is the screenshot's.
pub proof fn lemma_output_is_the_page_with_the_symbol(
    url: Seq<char>,
    output: Seq<char>,
    captured: Seq<u8>,
    i: int,
    j: int,
)
    requires
        pipeline_outcome(url, output, captured) is Ok,
    ensures
        screenshot(captured) is Some,
        qr_code(url) is Some,
        fits(qr_code(url).unwrap(), screenshot(captured).unwrap()),
        ({
            let page = screenshot(captured).unwrap();
            let symbol = qr_code(url).unwrap();
            let composed = overlaid_in_corner(page, symbol);
            let left = page.width - symbol.width;
            let top = page.height - symbol.height;
            &&& composed.wf()
            &&& composed.width == page.width
            &&& composed.height == page.height
            &&& encoded_picture(composed, output_format(output)) == Some(
                pipeline_outcome(url, output, captured).unwrap(),
            )
            &&& symbol.contains(i, j) ==> composed.pixel(left + i, top + j) == symbol.pixel(i, j)
            &&& page.contains(i, j) && (i < left || j < top) ==> composed.pixel(i, j) == page.pixel(
                i,
                j,
            )
        }),
{
    let page = screenshot(captured).unwrap();
    let symbol = qr_code(url).unwrap();
    lemma_overlay_keeps_the_size(page, symbol);
    if symbol.contains(i, j) {
        lemma_overlay_puts_top_in_corner(page, symbol, i, j);
    }
    if page.contains(i, j) && (i < page.width - symbol.width || j < page.height - symbol.height) {
        lemma_overlay_keeps_the_rest(page, symbol, i, j);
    }
}

} // verus!
