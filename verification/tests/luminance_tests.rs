use matugen_llava_seed::utils::average_luminance;

fn png_bytes(w: u32, h: u32, rgb: [u8; 3]) -> Vec<u8> {
    let img = image::RgbImage::from_pixel(w, h, image::Rgb(rgb));
    let dynimg = image::DynamicImage::ImageRgb8(img);
    let mut cursor = std::io::Cursor::new(Vec::new());
    dynimg
        .write_to(&mut cursor, image::ImageOutputFormat::Png)
        .expect("png encodes");
    cursor.into_inner()
}

#[test]
fn all_white_image_is_full_brightness() {
    let bytes = png_bytes(8, 8, [255, 255, 255]);
    assert_eq!(average_luminance(&bytes), Some(1000000));
}

#[test]
fn all_black_image_is_zero_brightness() {
    let bytes = png_bytes(8, 8, [0, 0, 0]);
    assert_eq!(average_luminance(&bytes), Some(0));
}

#[test]
fn mid_gray_matches_the_formula_exactly() {
    // Each pixel weighs in at (2126 + 7152 + 722) * 128, and the mean in
    // parts per million is 1280000 * 1000000 / 2550000, rounded down.
    let bytes = png_bytes(4, 4, [128, 128, 128]);
    assert_eq!(average_luminance(&bytes), Some(501960));
}

#[test]
fn brighter_pixels_never_lower_the_mean() {
    let darker = png_bytes(6, 3, [10, 20, 30]);
    let brighter = png_bytes(6, 3, [200, 210, 220]);
    let ld = average_luminance(&darker).expect("decodes");
    let lb = average_luminance(&brighter).expect("decodes");
    assert!(ld < lb);
}

#[test]
fn large_images_are_downscaled_before_averaging() {
    let bytes = png_bytes(200, 100, [255, 255, 255]);
    assert_eq!(average_luminance(&bytes), Some(1000000));
}

#[test]
fn undecodable_bytes_give_no_luminance() {
    assert_eq!(average_luminance(&vec![1, 2, 3, 4]), None);
    assert_eq!(average_luminance(&Vec::new()), None);
}
