use bevy_pixel_buffer::frame::{Frame, FrameError};
use bevy_pixel_buffer::image::Image;
use bevy_pixel_buffer::math::UVec2;
use bevy_pixel_buffer::pixel::Pixel;
use bevy_pixel_buffer::pixel_buffer::create_image;

#[test]
fn from_raw_parts_keeps_pixels_and_size() {
    let mut pixels = vec![Pixel::black(); 10 * 10];
    let frame = Frame::from_raw_parts(&mut pixels, UVec2::new(10, 10));
    assert_eq!(frame.size(), UVec2::new(10, 10));
    assert_eq!(frame.raw().len(), 100);
    assert!(frame.raw().iter().all(|p| *p == Pixel::black()));
}

#[test]
fn per_pixel_paints_everything() {
    let mut pixels = vec![Pixel::black(); 10 * 10];
    let mut frame = Frame::from_raw_parts(&mut pixels, UVec2::new(10, 10));
    // set all pixels to red
    frame.per_pixel(|_, _| Pixel::red());
    assert!(frame.raw().iter().all(|p| *p == Pixel::red()));
}

#[test]
fn per_pixel_gives_row_major_positions() {
    let mut pixels = vec![Pixel::transparent(); 3 * 2];
    let mut frame = Frame::from_raw_parts(&mut pixels, UVec2::new(3, 2));
    frame.per_pixel(|pos, _| Pixel { r: pos.x as u8, g: pos.y as u8, b: 0, a: 255 });
    let expected = vec![
        Pixel { r: 0, g: 0, b: 0, a: 255 },
        Pixel { r: 1, g: 0, b: 0, a: 255 },
        Pixel { r: 2, g: 0, b: 0, a: 255 },
        Pixel { r: 0, g: 1, b: 0, a: 255 },
        Pixel { r: 1, g: 1, b: 0, a: 255 },
        Pixel { r: 2, g: 1, b: 0, a: 255 },
    ];
    assert_eq!(pixels, expected);
}

#[test]
fn per_pixel_hands_over_the_prior_value() {
    let mut pixels = vec![
        Pixel { r: 1, g: 0, b: 0, a: 0 },
        Pixel { r: 2, g: 0, b: 0, a: 0 },
        Pixel { r: 3, g: 0, b: 0, a: 0 },
        Pixel { r: 4, g: 0, b: 0, a: 0 },
    ];
    let mut frame = Frame::from_raw_parts(&mut pixels, UVec2::new(2, 2));
    frame.per_pixel(|_, p| Pixel { r: p.r * 10, g: p.r, b: 0, a: 255 });
    assert_eq!(
        pixels,
        vec![
            Pixel { r: 10, g: 1, b: 0, a: 255 },
            Pixel { r: 20, g: 2, b: 0, a: 255 },
            Pixel { r: 30, g: 3, b: 0, a: 255 },
            Pixel { r: 40, g: 4, b: 0, a: 255 },
        ]
    );
}

#[test]
fn per_pixel_runs_once_per_position() {
    let calls = std::sync::atomic::AtomicUsize::new(0);
    let mut pixels = vec![Pixel::black(); 7 * 5];
    let mut frame = Frame::from_raw_parts(&mut pixels, UVec2::new(7, 5));
    frame.per_pixel(|_, p| {
        calls.fetch_add(1, std::sync::atomic::Ordering::SeqCst);
        p
    });
    assert_eq!(calls.load(std::sync::atomic::Ordering::SeqCst), 35);
}

#[test]
fn per_pixel_constant_is_idempotent() {
    let mut once = vec![Pixel::black(); 4 * 4];
    Frame::from_raw_parts(&mut once, UVec2::new(4, 4)).per_pixel(|_, _| Pixel::green());
    let mut twice = vec![Pixel::black(); 4 * 4];
    {
        let mut frame = Frame::from_raw_parts(&mut twice, UVec2::new(4, 4));
        frame.per_pixel(|_, _| Pixel::green());
        frame.per_pixel(|_, _| Pixel::green());
    }
    assert_eq!(once, twice);
    assert_eq!(once, vec![Pixel::green(); 16]);
}

#[test]
fn per_pixel_converts_what_the_function_returns() {
    let mut pixels = vec![Pixel::black(); 2];
    let mut frame = Frame::from_raw_parts(&mut pixels, UVec2::new(2, 1));
    frame.per_pixel(|pos, _| if pos.x == 0 { 0xAABBCCDDu32 } else { 0x01020304u32 });
    assert_eq!(
        pixels,
        vec![Pixel { r: 0xDD, g: 0xCC, b: 0xBB, a: 0xAA }, Pixel { r: 4, g: 3, b: 2, a: 1 }]
    );
}

#[test]
fn per_pixel_on_an_empty_frame() {
    let mut pixels: Vec<Pixel> = vec![];
    let mut frame = Frame::from_raw_parts(&mut pixels, UVec2::new(0, 5));
    frame.per_pixel(|_, _| Pixel::red());
    assert_eq!(frame.raw().len(), 0);
}

#[test]
fn per_pixel_par_matches_per_pixel() {
    let paint = |pos: UVec2, p: Pixel| Pixel {
        r: (pos.x * 3) as u8,
        g: (pos.y * 5) as u8,
        b: p.b.wrapping_add(1),
        a: 255,
    };
    let mut sequential = vec![Pixel { r: 0, g: 0, b: 7, a: 0 }; 16 * 9];
    Frame::from_raw_parts(&mut sequential, UVec2::new(16, 9)).per_pixel(paint);
    let mut parallel = vec![Pixel { r: 0, g: 0, b: 7, a: 0 }; 16 * 9];
    Frame::from_raw_parts(&mut parallel, UVec2::new(16, 9)).per_pixel_par(paint);
    assert_eq!(sequential, parallel);
    assert_eq!(parallel[16 + 2], Pixel { r: 6, g: 5, b: 8, a: 255 });
}

#[test]
fn per_pixel_par_changes_the_pixels() {
    let mut pixels = vec![Pixel::black(); 8 * 8];
    Frame::from_raw_parts(&mut pixels, UVec2::new(8, 8)).per_pixel_par(|_, _| Pixel::blue());
    assert_eq!(pixels, vec![Pixel::blue(); 64]);
}

#[test]
fn set_inside_writes_one_pixel() {
    let mut pixels = vec![Pixel::black(); 3 * 3];
    let mut frame = Frame::from_raw_parts(&mut pixels, UVec2::new(3, 3));
    assert_eq!(frame.set((1u32, 2u32), Pixel::red()), Ok(()));
    assert_eq!(frame.raw()[1 + 2 * 3], Pixel::red());
    let mut expected = vec![Pixel::black(); 9];
    expected[7] = Pixel::red();
    assert_eq!(pixels, expected);
}

#[test]
fn set_takes_anything_that_converts() {
    let mut pixels = vec![Pixel::black(); 2 * 2];
    let mut frame = Frame::from_raw_parts(&mut pixels, UVec2::new(2, 2));
    assert!(frame.set(UVec2::new(0, 0), [9u8, 8, 7, 6]).is_ok());
    assert!(frame.set([1u32, 1u32], 0xAABBCCDDu32).is_ok());
    assert_eq!(pixels[0], Pixel { r: 9, g: 8, b: 7, a: 6 });
    assert_eq!(pixels[3], Pixel { r: 0xDD, g: 0xCC, b: 0xBB, a: 0xAA });
}

#[test]
fn set_outside_fails_and_changes_nothing() {
    let mut pixels = vec![Pixel::black(); 3 * 2];
    let mut frame = Frame::from_raw_parts(&mut pixels, UVec2::new(3, 2));
    assert_eq!(
        frame.set((3u32, 0u32), Pixel::red()),
        Err(FrameError::LocationOutOfBounds {
            location: UVec2::new(3, 0),
            size: UVec2::new(3, 2),
        })
    );
    assert_eq!(
        frame.set((0u32, 2u32), Pixel::red()),
        Err(FrameError::LocationOutOfBounds {
            location: UVec2::new(0, 2),
            size: UVec2::new(3, 2),
        })
    );
    assert_eq!(
        frame.set((u32::MAX, u32::MAX), Pixel::red()),
        Err(FrameError::LocationOutOfBounds {
            location: UVec2::new(u32::MAX, u32::MAX),
            size: UVec2::new(3, 2),
        })
    );
    assert_eq!(pixels, vec![Pixel::black(); 6]);
}

#[test]
fn set_at_the_last_position() {
    let mut pixels = vec![Pixel::black(); 3 * 2];
    let mut frame = Frame::from_raw_parts(&mut pixels, UVec2::new(3, 2));
    assert!(frame.set((2u32, 1u32), Pixel::white()).is_ok());
    assert_eq!(pixels[5], Pixel::white());
}

#[test]
fn raw_mut_writes_through() {
    let mut pixels = vec![Pixel::black(); 4];
    let mut frame = Frame::from_raw_parts(&mut pixels, UVec2::new(2, 2));
    frame.raw_mut()[2] = Pixel::blue();
    assert_eq!(frame.raw()[2], Pixel::blue());
    assert_eq!(pixels[2], Pixel::blue());
}

#[test]
fn frame_of_an_image() {
    let mut image: Image = create_image(UVec2::new(4, 3).into());
    {
        let mut frame = Frame::get(&mut image);
        assert_eq!(frame.size(), UVec2::new(4, 3));
        assert_eq!(frame.raw().len(), 12);
        assert!(frame.set((3u32, 2u32), Pixel::red()).is_ok());
    }
    assert_eq!(image.data[11], Pixel::red());
    assert_eq!(image.data[0], Pixel::transparent());
    image.frame().per_pixel(|_, _| Pixel::green());
    assert_eq!(image.data, vec![Pixel::green(); 12]);
}
