use thresher::raster::{threshold, Pixel, Raster, THRESHOLD_SUM};

fn px(r: u8, g: u8, b: u8, a: u8) -> Pixel {
    Pixel { r, g, b, a }
}

#[test]
fn threshold_constant_is_450() {
    assert_eq!(THRESHOLD_SUM, 450);
}

#[test]
fn threshold_two_by_one_end_to_end() {
    let img = Raster::from_pixels(2, 1, vec![px(0, 0, 0, 255), px(255, 255, 255, 128)]).unwrap();
    let out = threshold(&img);
    assert_eq!(out.width(), 2);
    assert_eq!(out.height(), 1);
    assert_eq!(out.get(0, 0), px(0, 0, 0, 255));
    assert_eq!(out.get(1, 0), px(255, 255, 255, 128));
}

#[test]
fn threshold_boundary_sum_450_is_white() {
    let img = Raster::from_pixels(1, 1, vec![px(150, 150, 150, 7)]).unwrap();
    let out = threshold(&img);
    assert_eq!(out.get(0, 0), px(255, 255, 255, 7));
}

#[test]
fn threshold_boundary_sum_449_is_black() {
    let img = Raster::from_pixels(1, 1, vec![px(150, 150, 149, 7)]).unwrap();
    let out = threshold(&img);
    assert_eq!(out.get(0, 0), px(0, 0, 0, 7));
}

#[test]
fn threshold_preserves_alpha() {
    let img = Raster::from_pixels(
        4,
        1,
        vec![px(0, 0, 0, 0), px(255, 255, 255, 1), px(10, 20, 30, 200), px(200, 200, 200, 255)],
    )
    .unwrap();
    let out = threshold(&img);
    assert_eq!(out.get(0, 0).a, 0);
    assert_eq!(out.get(1, 0).a, 1);
    assert_eq!(out.get(2, 0).a, 200);
    assert_eq!(out.get(3, 0).a, 255);
}

#[test]
fn threshold_preserves_dimensions() {
    let img = Raster::from_pixels(3, 2, vec![px(1, 2, 3, 4); 6]).unwrap();
    let out = threshold(&img);
    assert_eq!(out.width(), 3);
    assert_eq!(out.height(), 2);
}

#[test]
fn threshold_zero_dimension_raster() {
    let img = Raster::from_pixels(0, 0, vec![]).unwrap();
    let out = threshold(&img);
    assert_eq!(out.width(), 0);
    assert_eq!(out.height(), 0);
}

#[test]
fn from_pixels_rejects_wrong_length() {
    assert!(Raster::from_pixels(2, 2, vec![px(0, 0, 0, 0); 3]).is_none());
    assert!(Raster::from_pixels(0, 5, vec![px(0, 0, 0, 0); 1]).is_none());
}

#[test]
fn from_pixels_row_major_indexing() {
    let img = Raster::from_pixels(
        2,
        2,
        vec![px(1, 0, 0, 255), px(2, 0, 0, 255), px(3, 0, 0, 255), px(4, 0, 0, 255)],
    )
    .unwrap();
    assert_eq!(img.get(0, 0).r, 1);
    assert_eq!(img.get(1, 0).r, 2);
    assert_eq!(img.get(0, 1).r, 3);
    assert_eq!(img.get(1, 1).r, 4);
}
