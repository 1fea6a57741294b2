use eyeclipse::diff::{images_differ, ChangeRatio, RgbaFrame};

fn create_solid_image(width: u32, height: u32, r: u8, g: u8, b: u8) -> RgbaFrame {
    let mut data = Vec::new();
    for _ in 0..(width * height) {
        data.extend_from_slice(&[r, g, b, 255]);
    }
    RgbaFrame::from_raw(width, height, data).unwrap()
}

fn ratio(numerator: u32, denominator: u32) -> ChangeRatio {
    ChangeRatio { numerator, denominator }
}

#[test]
fn test_identical_images_no_diff() {
    let a = create_solid_image(100, 100, 128, 128, 128);
    let b = create_solid_image(100, 100, 128, 128, 128);
    assert!(!images_differ(&a, &b, 0, ratio(1, 100)));
}

#[test]
fn test_completely_different_images() {
    let a = create_solid_image(100, 100, 0, 0, 0);
    let b = create_solid_image(100, 100, 255, 255, 255);
    assert!(images_differ(&a, &b, 0, ratio(1, 100)));
}

#[test]
fn test_slight_difference_below_threshold() {
    let a = create_solid_image(100, 100, 128, 128, 128);
    let b = create_solid_image(100, 100, 130, 128, 128);
    assert!(!images_differ(&a, &b, 5, ratio(1, 100)));
}

#[test]
fn test_slight_difference_above_threshold() {
    let a = create_solid_image(100, 100, 128, 128, 128);
    let b = create_solid_image(100, 100, 140, 128, 128);
    assert!(images_differ(&a, &b, 5, ratio(1, 100)));
}

#[test]
fn test_different_dimensions_always_differ() {
    let a = create_solid_image(100, 100, 128, 128, 128);
    let b = create_solid_image(50, 50, 128, 128, 128);
    assert!(images_differ(&a, &b, 0, ratio(1, 100)));
}

#[test]
fn test_change_ratio_filters_sparse_changes() {
    let a = create_solid_image(100, 100, 128, 128, 128);
    let mut b = create_solid_image(100, 100, 128, 128, 128);
    let i = ((50 * 100 + 50) * 4) as usize;
    b.data[i..i + 4].copy_from_slice(&[255, 0, 0, 255]);

    // 1 pixel = 0.01% of 10000, change_ratio=1% requires 100 pixels
    assert!(!images_differ(&a, &b, 0, ratio(1, 100)));

    // But with a very low ratio, it should detect
    assert!(images_differ(&a, &b, 0, ratio(1, 10000)));
}

#[test]
fn test_zero_threshold_exact_match() {
    let a = create_solid_image(10, 10, 100, 100, 100);
    let b = create_solid_image(10, 10, 101, 100, 100);
    assert!(images_differ(&a, &b, 0, ratio(1, 100)));
}

#[test]
fn test_empty_images() {
    let a = create_solid_image(1, 1, 0, 0, 0);
    let b = create_solid_image(1, 1, 0, 0, 0);
    assert!(!images_differ(&a, &b, 0, ratio(1, 2)));
}

#[test]
fn from_raw_checks_the_length() {
    assert!(RgbaFrame::from_raw(2, 2, vec![0; 16]).is_some());
    assert!(RgbaFrame::from_raw(2, 2, vec![0; 15]).is_none());
}

#[test]
fn alpha_only_change_counts_only_with_zero_ratio() {
    let a = create_solid_image(4, 4, 10, 10, 10);
    let mut b = create_solid_image(4, 4, 10, 10, 10);
    b.data[3] = 0;
    assert!(!images_differ(&a, &b, 0, ratio(1, 100)));
    assert!(images_differ(&a, &b, 0, ratio(0, 100)));
}

#[test]
fn comparison_is_symmetric_on_example() {
    let a = create_solid_image(10, 10, 0, 0, 0);
    let b = create_solid_image(10, 10, 20, 0, 0);
    assert_eq!(images_differ(&a, &b, 10, ratio(1, 2)), images_differ(&b, &a, 10, ratio(1, 2)));
    assert!(images_differ(&a, &b, 10, ratio(1, 2)));
    assert!(!images_differ(&a, &b, 20, ratio(1, 2)));
}

#[test]
fn smaller_tolerances_keep_a_detected_change() {
    // 10 of 100 pixels change by 30 in red
    let a = create_solid_image(10, 10, 100, 100, 100);
    let mut data = Vec::new();
    for i in 0..100u32 {
        let r = if i < 10 { 130 } else { 100 };
        data.extend_from_slice(&[r, 100, 100, 255]);
    }
    let b = RgbaFrame::from_raw(10, 10, data).unwrap();
    // detected with tolerance 20 and a tenth of the pixels ...
    assert!(images_differ(&a, &b, 20, ratio(1, 10)));
    // ... so also with any smaller tolerance and fraction
    assert!(images_differ(&a, &b, 0, ratio(1, 100)));
    assert!(images_differ(&a, &b, 20, ratio(1, 20)));
    // a larger fraction or tolerance can miss it
    assert!(!images_differ(&a, &b, 20, ratio(11, 100)));
    assert!(!images_differ(&a, &b, 30, ratio(1, 10)));
}
