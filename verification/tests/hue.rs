use huetrack::frame::{Frame, Hsv};
use huetrack::hue::{hue_band, hues, BoundPolicy, HueBand, HueSelector, FUDGE, HUE_COUNT, HUE_STEP};

fn fixed_selector() -> HueSelector {
    HueSelector::new(hues(&Frame::empty())).expect("the fixed list is not empty")
}

#[test]
fn hues_are_the_multiples_of_ten_up_to_240() {
    let list = hues(&Frame::empty());
    assert_eq!(list.len(), 25);
    assert_eq!(
        list,
        vec![
            0, 10, 20, 30, 40, 50, 60, 70, 80, 90, 100, 110, 120, 130, 140, 150, 160, 170, 180,
            190, 200, 210, 220, 230, 240
        ]
    );
}

#[test]
fn hues_do_not_depend_on_the_frame() {
    let frame = Frame::new(1, 1, vec![90, 200, 200]).unwrap();
    assert_eq!(hues(&frame), hues(&Frame::empty()));
}

#[test]
fn tuning_constants_have_their_values() {
    assert_eq!(FUDGE, 1);
    assert_eq!(HUE_COUNT, 25);
    assert_eq!(HUE_STEP, 10);
}

#[test]
fn band_inside_the_range_is_exact_under_both_policies() {
    for policy in [BoundPolicy::Wrap, BoundPolicy::Clamp] {
        let band = hue_band(100, 1, policy);
        assert_eq!(band.lower, Hsv { hue: 99, saturation: 0, value: 0 });
        assert_eq!(band.upper, Hsv { hue: 101, saturation: 255, value: 255 });
        assert!(!band.is_inverted());
    }
}

#[test]
fn band_touching_both_ends_is_exact() {
    for policy in [BoundPolicy::Wrap, BoundPolicy::Clamp] {
        assert_eq!(hue_band(1, 1, policy).lower.hue, 0);
        assert_eq!(hue_band(254, 1, policy).upper.hue, 255);
        let wide = hue_band(100, 100, policy);
        assert_eq!((wide.lower.hue, wide.upper.hue), (0, 200));
    }
}

#[test]
fn band_at_hue_zero_wraps_to_255() {
    let band = hue_band(0, 1, BoundPolicy::Wrap);
    assert_eq!(band.lower.hue, 255);
    assert_eq!(band.upper.hue, 1);
    assert!(band.is_inverted());
}

#[test]
fn band_at_hue_zero_clamps_to_zero() {
    let band = hue_band(0, 1, BoundPolicy::Clamp);
    assert_eq!(band.lower.hue, 0);
    assert_eq!(band.upper.hue, 1);
    assert!(!band.is_inverted());
}

#[test]
fn band_at_hue_255_wraps_or_clamps_above() {
    let wrapped = hue_band(255, 1, BoundPolicy::Wrap);
    assert_eq!((wrapped.lower.hue, wrapped.upper.hue), (254, 0));
    assert!(wrapped.is_inverted());
    let clamped = hue_band(255, 1, BoundPolicy::Clamp);
    assert_eq!((clamped.lower.hue, clamped.upper.hue), (254, 255));
}

#[test]
fn wide_tolerance_wraps_both_bounds() {
    let band = hue_band(128, 200, BoundPolicy::Wrap);
    assert_eq!((band.lower.hue, band.upper.hue), (184, 72));
    let clamped = hue_band(128, 200, BoundPolicy::Clamp);
    assert_eq!((clamped.lower.hue, clamped.upper.hue), (0, 255));
}

#[test]
fn clamped_band_is_never_inverted() {
    for hue in 0..=255u8 {
        for tolerance in [0u8, 1, 2, 127, 128, 255] {
            let band = hue_band(hue, tolerance, BoundPolicy::Clamp);
            assert!(!band.is_inverted());
            assert!(band.contains(Hsv { hue, saturation: 7, value: 250 }));
        }
    }
}

#[test]
fn band_bounds_are_inclusive() {
    let band = HueBand {
        lower: Hsv { hue: 10, saturation: 20, value: 30 },
        upper: Hsv { hue: 12, saturation: 40, value: 50 },
    };
    assert!(band.contains(Hsv { hue: 10, saturation: 20, value: 30 }));
    assert!(band.contains(Hsv { hue: 12, saturation: 40, value: 50 }));
    assert!(band.contains(Hsv { hue: 11, saturation: 30, value: 40 }));
    assert!(!band.contains(Hsv { hue: 9, saturation: 30, value: 40 }));
    assert!(!band.contains(Hsv { hue: 13, saturation: 30, value: 40 }));
    assert!(!band.contains(Hsv { hue: 11, saturation: 19, value: 40 }));
    assert!(!band.contains(Hsv { hue: 11, saturation: 41, value: 40 }));
    assert!(!band.contains(Hsv { hue: 11, saturation: 30, value: 29 }));
    assert!(!band.contains(Hsv { hue: 11, saturation: 30, value: 51 }));
}

#[test]
fn inverted_band_holds_no_pixel() {
    let band = hue_band(0, 1, BoundPolicy::Wrap);
    for hue in 0..=255u8 {
        assert!(!band.contains(Hsv { hue, saturation: 128, value: 128 }));
    }
}

#[test]
fn selector_needs_a_candidate() {
    assert!(HueSelector::new(Vec::new()).is_none());
    assert!(HueSelector::new(vec![42]).is_some());
}

#[test]
fn selector_starts_at_the_first_candidate() {
    let selector = fixed_selector();
    assert_eq!(selector.index(), 0);
    assert_eq!(selector.len(), 25);
    assert_eq!(selector.current_hue(), 0);
}

#[test]
fn advance_moves_to_the_next_candidate() {
    let mut selector = fixed_selector();
    selector.advance();
    assert_eq!(selector.index(), 1);
    assert_eq!(selector.current_hue(), 10);
    selector.advance();
    assert_eq!(selector.index(), 2);
    assert_eq!(selector.current_hue(), 20);
}

#[test]
fn advance_goes_from_the_last_candidate_to_the_first() {
    let mut selector = HueSelector::new(vec![5, 6, 7]).unwrap();
    selector.advance();
    selector.advance();
    assert_eq!((selector.index(), selector.current_hue()), (2, 7));
    selector.advance();
    assert_eq!((selector.index(), selector.current_hue()), (0, 5));
}

#[test]
fn advancing_once_per_candidate_returns_to_the_start() {
    let mut selector = fixed_selector();
    for start in 0..selector.len() {
        assert_eq!(selector.index(), start);
        for _ in 0..selector.len() {
            selector.advance();
        }
        assert_eq!(selector.index(), start);
        selector.advance();
    }
}

#[test]
fn single_candidate_stays_selected() {
    let mut selector = HueSelector::new(vec![77]).unwrap();
    selector.advance();
    assert_eq!((selector.index(), selector.current_hue()), (0, 77));
}

#[test]
fn current_band_surrounds_the_selected_hue() {
    let mut selector = fixed_selector();
    selector.advance();
    selector.advance();
    selector.advance();
    let band = selector.current_band(FUDGE, BoundPolicy::Wrap);
    assert_eq!(band, hue_band(30, 1, BoundPolicy::Wrap));
    assert_eq!((band.lower.hue, band.upper.hue), (29, 31));
    let first = fixed_selector();
    assert_eq!(first.current_band(FUDGE, BoundPolicy::Wrap).lower.hue, 255);
    assert_eq!(first.current_band(FUDGE, BoundPolicy::Clamp).lower.hue, 0);
}
