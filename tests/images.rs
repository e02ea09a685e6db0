use image_classifier::error::ClassificationError;
use image_classifier::preprocess::{preprocess, MODEL_SIDE, TENSOR_LEN};
use std::io::Cursor;

fn png_of(image: &image::RgbImage) -> Vec<u8> {
    let mut bytes: Vec<u8> = Vec::new();
    image.write_to(&mut Cursor::new(&mut bytes), image::ImageFormat::Png).unwrap();
    bytes
}

fn uniform_png(width: u32, height: u32, value: u8) -> Vec<u8> {
    png_of(&image::RgbImage::from_pixel(width, height, image::Rgb([value, value, value])))
}

#[test]
fn any_size_gives_the_model_shape() {
    for (w, h) in [(1u32, 1u32), (50, 30), (300, 500), (224, 224)] {
        let t = preprocess(&uniform_png(w, h, 17)).unwrap();
        assert_eq!(t.shape(), (1, 224, 224, 3));
        assert_eq!(t.samples.len(), TENSOR_LEN);
    }
}

#[test]
fn black_image_gives_zeros() {
    let t = preprocess(&uniform_png(40, 90, 0)).unwrap();
    assert!(t.samples.iter().all(|&s| s == 0));
    assert!(t.samples.iter().all(|&s| s as f32 / 255.0 == 0.0));
}

#[test]
fn white_image_gives_ones() {
    let t = preprocess(&uniform_png(333, 101, 255)).unwrap();
    assert!(t.samples.iter().all(|&s| s == 255));
    assert!(t.samples.iter().all(|&s| s as f32 / 255.0 == 1.0));
}

#[test]
fn model_sized_image_keeps_its_pixels() {
    let side = MODEL_SIDE;
    let img = image::RgbImage::from_fn(side, side, |x, y| image::Rgb([x as u8, y as u8, (x ^ y) as u8]));
    let t = preprocess(&png_of(&img)).unwrap();
    assert_eq!(t.sample_at(5, 7, 0), 7);
    assert_eq!(t.sample_at(5, 7, 1), 5);
    assert_eq!(t.sample_at(5, 7, 2), 7 ^ 5);
    assert_eq!(t.sample_at(223, 10, 1), 223);
}

#[test]
fn resizing_changes_samples() {
    let img = image::RgbImage::from_fn(2, 1, |x, _| image::Rgb([if x == 0 { 0 } else { 255 }, 0, 0]));
    let t = preprocess(&png_of(&img)).unwrap();
    assert_eq!(t.sample_at(0, 0, 0), 0);
    assert_eq!(t.sample_at(0, 223, 0), 255);
    let middle = t.sample_at(100, 112, 0);
    assert!(middle > 0 && middle < 255);
}

#[test]
fn malformed_bytes_are_image_errors() {
    let r = preprocess(b"this is not an image");
    assert!(matches!(r, Err(ClassificationError::ImageError(_))));
    let mut truncated = uniform_png(10, 10, 3);
    truncated.truncate(20);
    assert!(matches!(preprocess(&truncated), Err(ClassificationError::ImageError(_))));
}

#[test]
fn preprocessing_twice_gives_the_same_tensor() {
    let bytes = png_of(&image::RgbImage::from_fn(31, 17, |x, y| image::Rgb([x as u8 * 8, y as u8 * 9, 1])));
    assert_eq!(preprocess(&bytes).unwrap().samples, preprocess(&bytes).unwrap().samples);
}
