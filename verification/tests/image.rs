use bevy_pixel_buffer::image::{
    blank_pixels, is_addressable, pixels_from_bytes, pixels_to_bytes,
};
use bevy_pixel_buffer::math::UVec2;
use bevy_pixel_buffer::pixel::Pixel;

#[test]
fn bytes_are_rgba_texels() {
    let bytes = [1u8, 2, 3, 4, 5, 6, 7, 8, 9, 10, 11, 12];
    let pixels = pixels_from_bytes(&bytes);
    assert_eq!(
        pixels,
        Some(vec![
            Pixel { r: 1, g: 2, b: 3, a: 4 },
            Pixel { r: 5, g: 6, b: 7, a: 8 },
            Pixel { r: 9, g: 10, b: 11, a: 12 },
        ])
    );
}

#[test]
fn bytes_that_are_no_texels() {
    assert_eq!(pixels_from_bytes(&[1u8, 2, 3]), None);
    assert_eq!(pixels_from_bytes(&[1u8, 2, 3, 4, 5]), None);
    assert_eq!(pixels_from_bytes(&[]), Some(vec![]));
}

#[test]
fn texels_are_rgba_bytes() {
    let pixels = [Pixel { r: 0xDD, g: 0xCC, b: 0xBB, a: 0xAA }, Pixel::red()];
    assert_eq!(pixels_to_bytes(&pixels), vec![0xDD, 0xCC, 0xBB, 0xAA, 255, 0, 0, 255]);
    assert_eq!(pixels_to_bytes(&[]), Vec::<u8>::new());
}

#[test]
fn texels_round_trip() {
    let pixels = vec![Pixel::red(), Pixel::green(), Pixel::blue(), Pixel { r: 1, g: 2, b: 3, a: 4 }];
    assert_eq!(pixels_from_bytes(&pixels_to_bytes(&pixels)), Some(pixels));
    let bytes: Vec<u8> = (0u8..32).collect();
    assert_eq!(pixels_to_bytes(&pixels_from_bytes(&bytes).unwrap()), bytes);
}

#[test]
fn blank_pixels_are_transparent() {
    assert_eq!(blank_pixels(UVec2::new(3, 2)), vec![Pixel::transparent(); 6]);
    assert_eq!(blank_pixels(UVec2::new(0, 9)), vec![]);
}

#[test]
fn addressable_sizes() {
    assert!(is_addressable(UVec2::new(0, 0)));
    assert!(is_addressable(UVec2::new(1920, 1080)));
    assert!(is_addressable(UVec2::new(65535, 65537)));
    assert!(!is_addressable(UVec2::new(65536, 65536)));
    assert!(!is_addressable(UVec2::new(u32::MAX, u32::MAX)));
}

#[test]
fn vector_conversions() {
    assert_eq!(UVec2::from((3u32, 4u32)), UVec2 { x: 3, y: 4 });
    assert_eq!(UVec2::from([5u32, 6u32]), UVec2 { x: 5, y: 6 });
    assert_eq!(UVec2::new(65536, 65536).area(), 1u64 << 32);
    assert_eq!(UVec2::new(u32::MAX, u32::MAX).area(), 18446744065119617025);
}
