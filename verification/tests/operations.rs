use image_editor::operations::{grayscale, invert};
use image_editor::picture::{Picture, PixelLayout};

fn weighted(r: u8, g: u8, b: u8) -> u8 {
    let grayscale = 0.3 * r as f32 + 0.59 * g as f32 + 0.11 * b as f32;
    grayscale.round() as u8
}

fn check_reds(from: u32, to: u32) {
    for r in from..to {
        let mut samples = Vec::with_capacity(256 * 256 * 4);
        for g in 0..256u32 {
            for b in 0..256u32 {
                samples.push(r as u8);
                samples.push(g as u8);
                samples.push(b as u8);
                samples.push(255u8);
            }
        }
        let picture = Picture::from_raw(256, 256, PixelLayout::Rgba, samples).unwrap();
        let grey = grayscale(&picture).unwrap();
        assert_eq!(grey.layout(), PixelLayout::Luma);
        assert_eq!(grey.width(), 256);
        assert_eq!(grey.height(), 256);
        let out = grey.samples();
        assert_eq!(out.len(), 256 * 256);
        for g in 0..256usize {
            for b in 0..256usize {
                assert_eq!(out[g * 256 + b], weighted(r as u8, g as u8, b as u8));
            }
        }
    }
}

#[test]
fn grayscale_agrees_with_single_precision_low_reds() {
    check_reds(0, 64);
}

#[test]
fn grayscale_agrees_with_single_precision_mid_low_reds() {
    check_reds(64, 128);
}

#[test]
fn grayscale_agrees_with_single_precision_mid_high_reds() {
    check_reds(128, 192);
}

#[test]
fn grayscale_agrees_with_single_precision_high_reds() {
    check_reds(192, 256);
}

#[test]
fn grayscale_of_known_colours() {
    let samples = vec![
        255, 0, 0, 255, // red
        0, 255, 0, 255, // green
        0, 0, 255, 255, // blue
        255, 255, 255, 0, // white, transparent
        0, 0, 0, 255, // black
        0, 5, 5, 255, // a tie that single precision rounds down
    ];
    let picture = Picture::from_raw(3, 2, PixelLayout::Rgba, samples).unwrap();
    let grey = grayscale(&picture).unwrap();
    assert_eq!(grey.width(), 3);
    assert_eq!(grey.height(), 2);
    assert_eq!(grey.layout(), PixelLayout::Luma);
    assert_eq!(grey.samples(), &vec![77u8, 150, 28, 255, 0, 3]);
}

#[test]
fn grayscale_of_grey_picture_is_the_picture() {
    let samples: Vec<u8> = (0..=255u8).collect();
    let picture = Picture::from_raw(16, 16, PixelLayout::Luma, samples.clone()).unwrap();
    let grey = grayscale(&picture).unwrap();
    assert_eq!(grey.samples(), &samples);
}

#[test]
fn grayscale_of_empty_picture() {
    let picture = Picture::from_raw(0, 7, PixelLayout::Rgba, Vec::new()).unwrap();
    let grey = grayscale(&picture).unwrap();
    assert_eq!(grey.width(), 0);
    assert_eq!(grey.height(), 7);
    assert!(grey.samples().is_empty());
}

#[test]
fn invert_takes_each_sample_from_255() {
    let picture = Picture::from_raw(2, 2, PixelLayout::Luma, vec![0, 1, 128, 255]).unwrap();
    let negative = invert(&picture).unwrap();
    assert_eq!(negative.width(), 2);
    assert_eq!(negative.height(), 2);
    assert_eq!(negative.layout(), PixelLayout::Luma);
    assert_eq!(negative.samples(), &vec![255u8, 254, 127, 0]);
}

#[test]
fn invert_declines_a_colour_picture() {
    let picture = Picture::from_raw(1, 1, PixelLayout::Rgba, vec![1, 2, 3, 4]).unwrap();
    assert!(invert(&picture).is_none());
}

#[test]
fn invert_twice_gives_the_picture_back() {
    let samples: Vec<u8> = (0..=255u8).collect();
    let picture = Picture::from_raw(32, 8, PixelLayout::Luma, samples.clone()).unwrap();
    let once = invert(&picture).unwrap();
    let twice = invert(&once).unwrap();
    assert_eq!(twice.width(), 32);
    assert_eq!(twice.height(), 8);
    assert_eq!(twice.samples(), &samples);
}

#[test]
fn from_raw_wants_one_group_of_samples_per_pixel() {
    assert!(Picture::from_raw(2, 2, PixelLayout::Luma, vec![0; 4]).is_some());
    assert!(Picture::from_raw(2, 2, PixelLayout::Luma, vec![0; 3]).is_none());
    assert!(Picture::from_raw(2, 2, PixelLayout::Luma, vec![0; 5]).is_none());
    assert!(Picture::from_raw(2, 2, PixelLayout::Rgba, vec![0; 16]).is_some());
    assert!(Picture::from_raw(2, 2, PixelLayout::Rgba, vec![0; 4]).is_none());
    assert!(Picture::from_raw(u32::MAX, u32::MAX, PixelLayout::Rgba, vec![0; 4]).is_none());
}

#[test]
fn to_rgba8_spreads_a_brightness_over_the_colours() {
    let grey = Picture::from_raw(2, 1, PixelLayout::Luma, vec![7, 200]).unwrap();
    assert_eq!(grey.to_rgba8(), vec![7u8, 7, 7, 255, 200, 200, 200, 255]);
    let colour = Picture::from_raw(1, 2, PixelLayout::Rgba, vec![1, 2, 3, 4, 5, 6, 7, 8]).unwrap();
    assert_eq!(colour.to_rgba8(), vec![1u8, 2, 3, 4, 5, 6, 7, 8]);
}

#[test]
fn clone_copies_every_sample() {
    let picture = Picture::from_raw(1, 2, PixelLayout::Rgba, vec![1, 2, 3, 4, 5, 6, 7, 8]).unwrap();
    let copy = picture.clone();
    assert_eq!(copy.width(), 1);
    assert_eq!(copy.height(), 2);
    assert_eq!(copy.layout(), PixelLayout::Rgba);
    assert_eq!(copy.samples(), picture.samples());
}

#[test]
fn brightness_is_nearest_to_the_weighted_mean() {
    for r in (0..256u32).step_by(5) {
        let mut samples = Vec::with_capacity(256 * 256 * 4);
        for g in 0..256u32 {
            for b in 0..256u32 {
                samples.extend_from_slice(&[r as u8, g as u8, b as u8, 0]);
            }
        }
        let picture = Picture::from_raw(256, 256, PixelLayout::Rgba, samples).unwrap();
        let grey = grayscale(&picture).unwrap();
        let out = grey.samples();
        for g in 0..256i64 {
            for b in 0..256i64 {
                let brightness = out[(g * 256 + b) as usize] as i64;
                let mean = 30 * r as i64 + 59 * g + 11 * b;
                assert!((100 * brightness - mean).abs() <= 50);
            }
        }
    }
}

#[test]
fn grayscale_twice_is_grayscale_once() {
    let mut state: u32 = 12345;
    let mut samples = Vec::new();
    for _ in 0..(17 * 13 * 4) {
        state = state.wrapping_mul(1664525).wrapping_add(1013904223);
        samples.push((state >> 24) as u8);
    }
    let picture = Picture::from_raw(17, 13, PixelLayout::Rgba, samples).unwrap();
    let once = grayscale(&picture).unwrap();
    let twice = grayscale(&once).unwrap();
    assert_eq!(once.width(), 17);
    assert_eq!(once.height(), 13);
    assert_eq!(twice.samples(), once.samples());
    let negative = invert(&once).unwrap();
    assert_eq!(invert(&negative).unwrap().samples(), once.samples());
}
