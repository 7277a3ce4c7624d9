use rusty_boids::ConfigError;
use rusty_boids::PointsSimulator;
use rusty_boids::Raster;
use rusty_boids::WindowSizeInfo;
use rusty_boids::calculate_relative_brightness;
use rusty_boids::padded_stride;
use rusty_boids::unpack_frame;

fn solid_raster(width: u32, height: u32, rgb: (u8, u8, u8)) -> Raster {
    let mut data = Vec::new();
    for _ in 0..(width * height) {
        data.push(rgb.0);
        data.push(rgb.1);
        data.push(rgb.2);
    }
    Raster::new(width, height, data).unwrap()
}

#[test]
fn brightness_of_white_is_full_scale() {
    assert_eq!(calculate_relative_brightness(255, 255, 255), 1000);
}

#[test]
fn brightness_of_black_is_zero() {
    assert_eq!(calculate_relative_brightness(0, 0, 0), 0);
}

#[test]
fn brightness_of_pure_red_is_root_of_299() {
    let b = calculate_relative_brightness(255, 0, 0);
    assert_eq!(b, 546);
    let expected = (0.299f64).sqrt();
    assert!(((b as f64) / 1000.0 - expected).abs() < 2e-3);
}

#[test]
fn brightness_weights_follow_the_formula() {
    // 0.587 * (128/255)^2 scaled to squared milli-units is 147903,
    // whose integer square root is 384.
    assert_eq!(calculate_relative_brightness(0, 128, 0), 384);
    // 0.114 scaled is 114000, whose integer square root is 337.
    assert_eq!(calculate_relative_brightness(0, 0, 255), 337);
}

#[test]
fn sampling_is_clamped_beyond_the_domain() {
    // A 10 x 10 viewport over a raster whose left half is black and
    // whose right half is white: the two edges sample differently, so
    // the clamping is observable.
    let info = WindowSizeInfo { width: 10, height: 10 };
    let mut data = Vec::new();
    for _row in 0..2 {
        data.extend_from_slice(&[0, 0, 0, 255, 255, 255]);
    }
    let img = Raster::new(2, 2, data).unwrap();
    let sim = PointsSimulator::new(info, img, 1).unwrap();
    let at_origin = sim.get_pixel_brightness(0, 0);
    let at_far_corner = sim.get_pixel_brightness(10000, 10000);
    assert_eq!(at_origin, 0);
    assert_eq!(at_far_corner, 1000);
    assert_eq!(sim.get_pixel_brightness(-123456, 0), at_origin);
    assert_eq!(sim.get_pixel_brightness(0, -1), at_origin);
    assert_eq!(sim.get_pixel_brightness(4_000_000_000_000, 10000), at_far_corner);
    assert_eq!(sim.get_pixel_brightness(10000, 999999), at_far_corner);
}

#[test]
fn sampling_rescales_domain_onto_raster() {
    // Left raster half black, right half white, on a 100 x 100 viewport.
    let mut data = Vec::new();
    for _row in 0..2 {
        data.extend_from_slice(&[0, 0, 0, 255, 255, 255]);
    }
    let img = Raster::new(2, 2, data).unwrap();
    let info = WindowSizeInfo { width: 100, height: 100 };
    let sim = PointsSimulator::new(info, img, 1).unwrap();
    // 20000 milli-pixels of 100000 lands in the left column; 70000 in
    // the right one.
    assert_eq!(sim.get_pixel_brightness(20000, 20000), 0);
    assert_eq!(sim.get_pixel_brightness(70000, 20000), 1000);
}

#[test]
fn raster_rejects_empty_and_oversized_edges() {
    assert_eq!(Raster::new(0, 4, Vec::new()).unwrap_err(), ConfigError::BadImageSize);
    assert_eq!(Raster::new(4, 0, Vec::new()).unwrap_err(), ConfigError::BadImageSize);
    assert_eq!(Raster::new(10001, 4, Vec::new()).unwrap_err(), ConfigError::BadImageSize);
}

#[test]
fn raster_rejects_a_buffer_of_the_wrong_shape() {
    let data = vec![0u8; 11];
    assert_eq!(Raster::new(2, 2, data).unwrap_err(), ConfigError::BadImageShape);
}

#[test]
fn raster_hands_back_its_pixels() {
    let data = vec![1, 2, 3, 4, 5, 6, 7, 8, 9, 10, 11, 12];
    let img = Raster::new(2, 2, data).unwrap();
    assert_eq!(img.width(), 2);
    assert_eq!(img.height(), 2);
    assert_eq!(img.pixel(0, 0), (1, 2, 3));
    assert_eq!(img.pixel(1, 0), (4, 5, 6));
    assert_eq!(img.pixel(0, 1), (7, 8, 9));
    assert_eq!(img.pixel(1, 1), (10, 11, 12));
}

#[test]
fn padded_stride_rounds_rows_up_to_four_bytes() {
    assert_eq!(padded_stride(0), 0);
    assert_eq!(padded_stride(1), 4);
    assert_eq!(padded_stride(2), 8);
    assert_eq!(padded_stride(4), 12);
    assert_eq!(padded_stride(5), 16);
    assert_eq!(padded_stride(640), 1920);
}

#[test]
fn unpack_frame_flips_rows_and_strips_padding() {
    // A 2 x 2 frame read back bottom row first, each 6-byte row padded
    // to 8 bytes.
    let data = vec![
        // bottom row of the image: two pixels, then 2 padding bytes
        1, 2, 3, 4, 5, 6, 0, 0,
        // top row of the image
        7, 8, 9, 10, 11, 12, 0, 0,
    ];
    let img = unpack_frame(2, 2, &data);
    assert_eq!(img, vec![7, 8, 9, 10, 11, 12, 1, 2, 3, 4, 5, 6]);
}

#[test]
fn unpack_frame_keeps_an_unpadded_single_row() {
    let data = vec![9, 8, 7, 6, 5, 4, 3, 2, 1, 0, 10, 20];
    // 4 pixels in one row: 12 bytes, already a multiple of 4.
    let img = unpack_frame(4, 1, &data);
    assert_eq!(img, data);
}
