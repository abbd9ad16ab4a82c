use web2image::error::PipelineError;
use web2image::raster::do_overlay;
use web2image::raster::RasterImage;
use web2image::raster::Rgb;

fn patterned(width: u32, height: u32, seed: u8) -> RasterImage {
    let mut data = Vec::new();
    for y in 0..height {
        for x in 0..width {
            data.push(seed.wrapping_add((x * 3) as u8));
            data.push(seed.wrapping_add((y * 5) as u8));
            data.push(seed.wrapping_add((x + y) as u8));
        }
    }
    RasterImage::new(width, height, data).unwrap()
}

#[test]
fn new_keeps_size_and_bytes() {
    let picture = RasterImage::new(2, 1, vec![1, 2, 3, 4, 5, 6]).unwrap();
    assert_eq!(picture.width(), 2);
    assert_eq!(picture.height(), 1);
    assert_eq!(picture.as_bytes(), &vec![1, 2, 3, 4, 5, 6]);
}

#[test]
fn new_rejects_bytes_that_do_not_match_the_size() {
    assert_eq!(RasterImage::new(2, 1, vec![1, 2, 3, 4, 5]), None);
    assert_eq!(RasterImage::new(2, 1, vec![1, 2, 3, 4, 5, 6, 7]), None);
    assert_eq!(RasterImage::new(2, 2, vec![0; 6]), None);
    assert_eq!(RasterImage::new(1, 1, vec![]), None);
}

#[test]
fn new_rejects_an_empty_picture() {
    assert_eq!(RasterImage::new(0, 0, vec![]), None);
    assert_eq!(RasterImage::new(0, 5, vec![]), None);
    assert_eq!(RasterImage::new(5, 0, vec![]), None);
}

#[test]
fn pixel_reads_row_after_row() {
    let picture =
        RasterImage::new(2, 2, vec![1, 2, 3, 4, 5, 6, 7, 8, 9, 10, 11, 12]).unwrap();
    assert_eq!(picture.pixel(0, 0), Some(Rgb { r: 1, g: 2, b: 3 }));
    assert_eq!(picture.pixel(1, 0), Some(Rgb { r: 4, g: 5, b: 6 }));
    assert_eq!(picture.pixel(0, 1), Some(Rgb { r: 7, g: 8, b: 9 }));
    assert_eq!(picture.pixel(1, 1), Some(Rgb { r: 10, g: 11, b: 12 }));
}

#[test]
fn pixel_finds_nothing_outside_the_picture() {
    let picture = patterned(3, 2, 0);
    assert_eq!(picture.pixel(3, 0), None);
    assert_eq!(picture.pixel(0, 2), None);
    assert_eq!(picture.pixel(u32::MAX, u32::MAX), None);
}

#[test]
fn clone_equals_what_it_was_made_from() {
    let picture = patterned(7, 5, 3);
    assert_eq!(picture.clone(), picture);
}

#[test]
fn do_overlay_puts_top_into_the_bottom_right_corner() {
    let before = patterned(100, 100, 0);
    let top = patterned(20, 20, 128);
    let mut bottom = before.clone();
    assert_eq!(do_overlay(&mut bottom, &top), Ok(()));
    assert_eq!(bottom.width(), 100);
    assert_eq!(bottom.height(), 100);
    assert_eq!(bottom.pixel(80, 80), top.pixel(0, 0));
    assert_eq!(bottom.pixel(99, 99), top.pixel(19, 19));
    for y in 0..100 {
        for x in 0..100 {
            if x >= 80 && y >= 80 {
                assert_eq!(bottom.pixel(x, y), top.pixel(x - 80, y - 80));
            } else {
                assert_eq!(bottom.pixel(x, y), before.pixel(x, y));
            }
        }
    }
}

#[test]
fn do_overlay_places_a_wide_flat_top_by_each_side_alone() {
    let before = patterned(10, 8, 1);
    let top = patterned(10, 2, 200);
    let mut bottom = before.clone();
    assert_eq!(do_overlay(&mut bottom, &top), Ok(()));
    for y in 0..8 {
        for x in 0..10 {
            if y >= 6 {
                assert_eq!(bottom.pixel(x, y), top.pixel(x, y - 6));
            } else {
                assert_eq!(bottom.pixel(x, y), before.pixel(x, y));
            }
        }
    }
}

#[test]
fn do_overlay_of_equal_sizes_replaces_everything() {
    let top = patterned(6, 4, 77);
    let mut bottom = patterned(6, 4, 0);
    assert_eq!(do_overlay(&mut bottom, &top), Ok(()));
    assert_eq!(bottom, top);
}

#[test]
fn do_overlay_fails_for_a_top_that_is_too_wide() {
    let before = patterned(100, 100, 0);
    let top = patterned(101, 20, 9);
    let mut bottom = before.clone();
    assert_eq!(do_overlay(&mut bottom, &top), Err(PipelineError::CompositorPrecondition));
    assert_eq!(bottom, before);
}

#[test]
fn do_overlay_fails_for_a_top_that_is_too_tall() {
    let before = patterned(100, 100, 0);
    let top = patterned(20, 200, 9);
    let mut bottom = before.clone();
    assert_eq!(do_overlay(&mut bottom, &top), Err(PipelineError::CompositorPrecondition));
    assert_eq!(bottom, before);
}

#[test]
fn pipeline_errors_name_their_stage() {
    assert!(PipelineError::Capture.message().starts_with("capture failed"));
    assert!(PipelineError::Encode.message().starts_with("encode failed"));
    assert!(PipelineError::CompositorPrecondition.message().starts_with("overlay failed"));
    assert!(PipelineError::Write.message().starts_with("write failed"));
}
