use web2image::error::PipelineError;
use web2image::pipeline::gen_qrcode;
use web2image::pipeline::url2image;
use web2image::pipeline::web2image;
use web2image::raster::RasterImage;
use web2image::raster::Rgb;

const URL: &str = "https://example.com";

fn page(width: u32, height: u32) -> image::RgbImage {
    image::RgbImage::from_fn(width, height, |x, y| {
        image::Rgb([(x / 64 * 7) as u8, (y / 64 * 11) as u8, 90])
    })
}

fn png_of(picture: image::DynamicImage) -> Vec<u8> {
    let mut file = Vec::new();
    picture.write_to(&mut file, image::ImageFormat::Png).unwrap();
    file
}

fn symbol(url: &str) -> image::GrayImage {
    qrcode::QrCode::new(url.as_bytes()).unwrap().render::<image::Luma<u8>>().build()
}

fn assert_is_page_with_symbol(found: &image::RgbImage, shot: &image::RgbImage, url: &str) {
    let code = symbol(url);
    let left = shot.width() - code.width();
    let top = shot.height() - code.height();
    assert_eq!(found.dimensions(), shot.dimensions());
    for (x, y, pixel) in found.enumerate_pixels() {
        if x >= left && y >= top {
            let gray = code.get_pixel(x - left, y - top).0[0];
            assert_eq!(pixel.0, [gray, gray, gray]);
        } else {
            assert_eq!(pixel, shot.get_pixel(x, y));
        }
    }
}

#[test]
fn url2image_decodes_a_png() {
    let shot = image::RgbImage::from_raw(2, 2, vec![1, 2, 3, 4, 5, 6, 7, 8, 9, 10, 11, 12]).unwrap();
    let decoded = url2image(&png_of(image::DynamicImage::ImageRgb8(shot))).unwrap();
    assert_eq!(
        decoded,
        RasterImage::new(2, 2, vec![1, 2, 3, 4, 5, 6, 7, 8, 9, 10, 11, 12]).unwrap()
    );
}

#[test]
fn url2image_drops_the_alpha_channel() {
    let shot = image::RgbaImage::from_raw(1, 2, vec![10, 20, 30, 255, 40, 50, 60, 128]).unwrap();
    let decoded = url2image(&png_of(image::DynamicImage::ImageRgba8(shot))).unwrap();
    assert_eq!(decoded, RasterImage::new(1, 2, vec![10, 20, 30, 40, 50, 60]).unwrap());
}

#[test]
fn url2image_fails_on_bytes_that_hold_no_picture() {
    assert_eq!(url2image(b"not a picture"), Err(PipelineError::Capture));
    assert_eq!(url2image(&[]), Err(PipelineError::Capture));
    let mut cut = png_of(image::DynamicImage::ImageRgb8(page(40, 30)));
    cut.truncate(40);
    assert_eq!(url2image(&cut), Err(PipelineError::Capture));
}

#[test]
fn gen_qrcode_renders_the_symbol_of_the_url() {
    let code = gen_qrcode(URL).unwrap();
    let expected = symbol(URL);
    assert_eq!(code.width(), 264);
    assert_eq!(code.height(), 264);
    assert_eq!((code.width(), code.height()), expected.dimensions());
    for (x, y, gray) in expected.enumerate_pixels() {
        let level = gray.0[0];
        assert_eq!(code.pixel(x, y), Some(Rgb { r: level, g: level, b: level }));
    }
}

#[test]
fn gen_qrcode_leaves_a_quiet_zone_and_draws_dark_modules() {
    let code = gen_qrcode(URL).unwrap();
    assert_eq!(code.pixel(0, 0), Some(Rgb { r: 255, g: 255, b: 255 }));
    assert_eq!(code.pixel(31, 31), Some(Rgb { r: 255, g: 255, b: 255 }));
    assert_eq!(code.pixel(32, 32), Some(Rgb { r: 0, g: 0, b: 0 }));
}

#[test]
fn gen_qrcode_renders_in_black_and_white() {
    let code = gen_qrcode(URL).unwrap();
    for y in 0..code.height() {
        for x in 0..code.width() {
            let pixel = code.pixel(x, y).unwrap();
            assert!(pixel == Rgb { r: 0, g: 0, b: 0 } || pixel == Rgb { r: 255, g: 255, b: 255 });
        }
    }
}

#[test]
fn gen_qrcode_differs_between_urls() {
    assert_ne!(gen_qrcode("https://example.com"), gen_qrcode("https://example.org"));
}

#[test]
fn gen_qrcode_fails_on_a_url_that_is_too_long() {
    let mut url = String::from("https://example.com/");
    while url.len() < 3000 {
        url.push('a');
    }
    assert_eq!(gen_qrcode(&url), Err(PipelineError::Encode));
}

#[test]
fn web2image_writes_a_png_of_the_page_with_its_symbol() {
    let shot = page(1920, 1080);
    let captured = png_of(image::DynamicImage::ImageRgb8(shot.clone()));
    let file = web2image(URL, "/tmp/out.png", &captured).unwrap();
    assert_eq!(image::guess_format(&file).unwrap(), image::ImageFormat::Png);
    let found = image::load_from_memory(&file).unwrap().into_rgb8();
    assert_eq!(found.dimensions(), (1920, 1080));
    assert_is_page_with_symbol(&found, &shot, URL);
    assert_eq!(&file[..8], b"\x89PNG\r\n\x1a\n");
    let corner = found.get_pixel(1920 - 264 + 32, 1080 - 264 + 32);
    assert_eq!(corner.0, [0, 0, 0]);
    let block = image::imageops::crop_imm(&found, 1920 - 264, 1080 - 264, 264, 264).to_image();
    assert!(block.pixels().all(|pixel| pixel.0[0] == pixel.0[1] && pixel.0[1] == pixel.0[2]));
    assert!(block.pixels().any(|pixel| pixel.0 == [0, 0, 0]));
    assert!(block.pixels().any(|pixel| pixel.0 == [255, 255, 255]));
}

#[test]
fn web2image_writes_a_jpeg_where_the_path_asks_for_one() {
    let captured = png_of(image::DynamicImage::ImageRgb8(page(400, 300)));
    for output in ["/tmp/out.jpg", "out.JPG", "out.jpeg"] {
        let file = web2image(URL, output, &captured).unwrap();
        assert_eq!(image::guess_format(&file).unwrap(), image::ImageFormat::Jpeg);
        let found = image::load_from_memory(&file).unwrap();
        assert_eq!(found.into_rgb8().dimensions(), (400, 300));
    }
}

#[test]
fn web2image_falls_back_to_png() {
    let shot = page(300, 280);
    let captured = png_of(image::DynamicImage::ImageRgb8(shot.clone()));
    for output in ["out.gif", "out", "/tmp/.jpg", ""] {
        let file = web2image(URL, output, &captured).unwrap();
        assert_eq!(image::guess_format(&file).unwrap(), image::ImageFormat::Png);
        let found = image::load_from_memory(&file).unwrap().into_rgb8();
        assert_is_page_with_symbol(&found, &shot, URL);
    }
}

#[test]
fn web2image_gives_the_same_bytes_for_the_same_capture() {
    let captured = png_of(image::DynamicImage::ImageRgb8(page(300, 300)));
    let first = web2image(URL, "out.png", &captured).unwrap();
    let second = web2image(URL, "out.png", &captured).unwrap();
    assert_eq!(first, second);
    let first = web2image(URL, "out.jpg", &captured).unwrap();
    let second = web2image(URL, "out.jpg", &captured).unwrap();
    assert_eq!(first, second);
}

#[test]
fn web2image_fails_at_capture_on_bytes_that_hold_no_picture() {
    assert_eq!(web2image(URL, "out.png", b"<html></html>"), Err(PipelineError::Capture));
}

#[test]
fn web2image_fails_at_encode_on_a_url_that_is_too_long() {
    let captured = png_of(image::DynamicImage::ImageRgb8(page(300, 300)));
    let url = "https://example.com/".repeat(200);
    assert_eq!(web2image(&url, "out.png", &captured), Err(PipelineError::Encode));
}

#[test]
fn web2image_reports_capture_before_encode() {
    let url = "https://example.com/".repeat(200);
    assert_eq!(web2image(&url, "out.png", b""), Err(PipelineError::Capture));
}

#[test]
fn web2image_fails_where_the_symbol_is_larger_than_the_page() {
    let narrow = png_of(image::DynamicImage::ImageRgb8(page(263, 400)));
    assert_eq!(web2image(URL, "out.png", &narrow), Err(PipelineError::CompositorPrecondition));
    let flat = png_of(image::DynamicImage::ImageRgb8(page(400, 263)));
    assert_eq!(web2image(URL, "out.png", &flat), Err(PipelineError::CompositorPrecondition));
    let exact = png_of(image::DynamicImage::ImageRgb8(page(264, 264)));
    assert!(web2image(URL, "out.png", &exact).is_ok());
}

#[test]
fn web2image_fails_at_write_on_a_page_too_wide_for_a_jpeg() {
    let wide = image::RgbImage::from_pixel(65536, 264, image::Rgb([200, 200, 200]));
    let captured = png_of(image::DynamicImage::ImageRgb8(wide));
    assert_eq!(web2image(URL, "out.jpg", &captured), Err(PipelineError::Write));
}
