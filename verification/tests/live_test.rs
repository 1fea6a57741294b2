use eyeclipse::diff::RgbaFrame;
use eyeclipse::live::LiveMonitor;

fn solid(w: u32, h: u32, v: u8) -> RgbaFrame {
    let mut data = Vec::new();
    for _ in 0..(w * h) {
        data.extend_from_slice(&[v, v, v, 255]);
    }
    RgbaFrame::from_raw(w, h, data).unwrap()
}

#[test]
fn first_frame_is_always_read() {
    let mut m = LiveMonitor::new();
    assert!(m.observe_frame(solid(10, 10, 0)));
    assert!(m.prev_frame.is_some());
}

#[test]
fn unchanged_frame_is_not_read_again() {
    let mut m = LiveMonitor::new();
    assert!(m.observe_frame(solid(10, 10, 50)));
    // a change of 10 per sample is within the tolerance
    assert!(!m.observe_frame(solid(10, 10, 60)));
    assert!(m.observe_frame(solid(10, 10, 61)));
    assert!(!m.observe_frame(solid(10, 10, 61)));
}

#[test]
fn text_is_translated_after_two_identical_reads() {
    let mut m = LiveMonitor::new();
    assert_eq!(m.observe_text(Some("hello".to_string())), None);
    assert_eq!(m.observe_text(Some("hello".to_string())), Some("hello".to_string()));
    m.record_translation("hello".to_string());
    assert_eq!(m.observe_text(Some("hello".to_string())), None);
}

#[test]
fn changing_text_restarts_the_count() {
    let mut m = LiveMonitor::new();
    assert_eq!(m.observe_text(Some("a".to_string())), None);
    assert_eq!(m.observe_text(Some("b".to_string())), None);
    assert_eq!(m.stable_count, 1);
    assert_eq!(m.observe_text(Some("b".to_string())), Some("b".to_string()));
}

#[test]
fn empty_read_forgets_pending_text_and_failure_changes_nothing() {
    let mut m = LiveMonitor::new();
    assert_eq!(m.observe_text(Some("a".to_string())), None);
    assert_eq!(m.observe_text(None), None);
    assert_eq!(m.stable_count, 1);
    assert_eq!(m.observe_text(Some(String::new())), None);
    assert_eq!(m.stable_count, 0);
    assert_eq!(m.last_ocr_text, None);
    assert_eq!(m.observe_text(Some("a".to_string())), None);
    assert_eq!(m.observe_text(Some("a".to_string())), Some("a".to_string()));
}

#[test]
fn untranslated_text_keeps_being_offered() {
    // a failed translation is not recorded, so the text is offered again
    let mut m = LiveMonitor::new();
    m.observe_text(Some("x".to_string()));
    assert_eq!(m.observe_text(Some("x".to_string())), Some("x".to_string()));
    assert_eq!(m.observe_text(Some("x".to_string())), Some("x".to_string()));
}

#[test]
fn unchanged_capture_is_not_read_after_a_text() {
    let mut m = LiveMonitor::new();
    let frame = solid(10, 10, 80);
    assert!(m.observe_frame(frame.clone()));
    assert_eq!(m.observe_text(Some("hello".to_string())), None);
    // the same capture again: no OCR, so no second read
    assert!(!m.observe_frame(frame.clone()));
    // a capture that differs and reads the same text confirms it
    assert!(m.observe_frame(solid(10, 10, 120)));
    assert_eq!(m.observe_text(Some("hello".to_string())), Some("hello".to_string()));
    m.record_translation("hello".to_string());
    assert!(!m.observe_frame(solid(10, 10, 120)));
}

#[test]
fn frames_of_another_size_always_count_as_changed() {
    let mut m = LiveMonitor::new();
    assert!(m.observe_frame(solid(10, 10, 80)));
    assert!(m.observe_frame(solid(20, 10, 80)));
    assert!(!m.observe_frame(solid(20, 10, 80)));
}

#[test]
fn still_region_after_an_empty_read_is_not_read_again() {
    let mut m = LiveMonitor::new();
    let frame = solid(10, 10, 80);
    assert!(m.observe_frame(frame.clone()));
    assert_eq!(m.observe_text(Some(String::new())), None);
    assert!(!m.observe_frame(frame));
}
