use huetrack::frame::{Frame, Hsv, CHANNELS};
use huetrack::hue::{hue_band, BoundPolicy, HueBand};
use huetrack::mask::{mask_frame, CLEAR, SET};

fn uniform(width: usize, height: usize, pixel: Hsv) -> Vec<u8> {
    let mut data = Vec::new();
    for _ in 0..width * height {
        data.push(pixel.hue);
        data.push(pixel.saturation);
        data.push(pixel.value);
    }
    data
}

#[test]
fn frame_needs_three_bytes_per_pixel() {
    assert_eq!(CHANNELS, 3);
    assert!(Frame::new(2, 2, vec![0; 12]).is_some());
    assert!(Frame::new(2, 2, vec![0; 11]).is_none());
    assert!(Frame::new(2, 2, vec![0; 13]).is_none());
    assert!(Frame::new(2, 2, vec![0; 4]).is_none());
    assert!(Frame::new(0, 5, Vec::new()).is_some());
    assert!(Frame::new(0, 5, vec![0; 3]).is_none());
}

#[test]
fn frame_size_that_overflows_is_refused() {
    assert!(Frame::new(usize::MAX, 2, Vec::new()).is_none());
    assert!(Frame::new(usize::MAX, usize::MAX, vec![0; 3]).is_none());
    assert!(Frame::new(usize::MAX / 2, 2, vec![0; 6]).is_none());
}

#[test]
fn frame_keeps_size_and_bytes() {
    let frame = Frame::new(3, 2, (0u8..18).collect()).unwrap();
    assert_eq!((frame.width(), frame.height()), (3, 2));
    assert_eq!(frame.pixel_count(), 6);
    assert_eq!(frame.data(), &(0u8..18).collect::<Vec<u8>>());
    assert_eq!(frame.pixel(0), Hsv { hue: 0, saturation: 1, value: 2 });
    assert_eq!(frame.pixel(4), Hsv { hue: 12, saturation: 13, value: 14 });
    assert_eq!(frame.pixel(5), Hsv { hue: 15, saturation: 16, value: 17 });
    let copy = frame.clone();
    assert_eq!((copy.width(), copy.height()), (3, 2));
    assert_eq!(copy.data(), frame.data());
}

#[test]
fn empty_frame_has_no_pixels() {
    let frame = Frame::empty();
    assert_eq!((frame.width(), frame.height(), frame.pixel_count()), (0, 0, 0));
    assert!(frame.data().is_empty());
}

#[test]
fn mask_marks_the_pixels_in_the_band() {
    let data = vec![
        29, 0, 0, //
        30, 255, 255, //
        31, 128, 7, //
        28, 128, 7, //
        32, 128, 7, //
        30, 0, 0,
    ];
    let frame = Frame::new(3, 2, data).unwrap();
    let mask = mask_frame(&frame, &hue_band(30, 1, BoundPolicy::Wrap));
    assert_eq!((mask.width(), mask.height()), (3, 2));
    assert_eq!(mask.data(), &vec![SET, SET, SET, CLEAR, CLEAR, SET]);
    assert_eq!((SET, CLEAR), (255, 0));
    assert!(!mask.is_blank());
    let copy = mask.clone();
    assert_eq!(copy.data(), mask.data());
    assert_eq!((copy.width(), copy.height()), (3, 2));
}

#[test]
fn mask_checks_every_channel() {
    let band = HueBand {
        lower: Hsv { hue: 10, saturation: 100, value: 50 },
        upper: Hsv { hue: 20, saturation: 200, value: 60 },
    };
    let data = vec![
        15, 150, 55, //
        15, 99, 55, //
        15, 150, 61, //
        21, 150, 55,
    ];
    let frame = Frame::new(4, 1, data).unwrap();
    assert_eq!(mask_frame(&frame, &band).data(), &vec![255, 0, 0, 0]);
}

#[test]
fn mask_of_a_frame_without_pixels_in_band_is_blank() {
    let frame = Frame::new(4, 3, uniform(4, 3, Hsv { hue: 0, saturation: 0, value: 0 })).unwrap();
    let mask = mask_frame(&frame, &hue_band(120, 1, BoundPolicy::Clamp));
    assert_eq!(mask.data(), &vec![0u8; 12]);
    assert!(mask.is_blank());
}

#[test]
fn mask_under_an_inverted_band_is_blank() {
    let frame = Frame::new(4, 3, uniform(4, 3, Hsv { hue: 0, saturation: 9, value: 9 })).unwrap();
    let wrapped = hue_band(0, 1, BoundPolicy::Wrap);
    assert!(wrapped.is_inverted());
    assert!(mask_frame(&frame, &wrapped).is_blank());
    let clamped = hue_band(0, 1, BoundPolicy::Clamp);
    assert_eq!(mask_frame(&frame, &clamped).data(), &vec![255u8; 12]);
}

#[test]
fn mask_of_the_empty_frame_is_empty() {
    let mask = mask_frame(&Frame::empty(), &hue_band(0, 1, BoundPolicy::Clamp));
    assert_eq!((mask.width(), mask.height()), (0, 0));
    assert!(mask.data().is_empty());
    assert!(mask.is_blank());
}
