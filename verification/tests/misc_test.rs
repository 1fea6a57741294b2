use eyeclipse::capture::{crop_to_region, monitor_relative, pick_monitor, CaptureError, MonitorRect};
use eyeclipse::config::{AppConfig, TranslationMode};
use eyeclipse::events::{
    app_event_from_hotkey, app_event_from_tray, handle_app_event, oneshot_overlay_text, should_translate, AppAction,
    AppEvent,
};
use eyeclipse::hotkey::HotkeyAction;
use eyeclipse::ocr::{prepare_for_ocr, tesseract_missing_message, upscale_factor, upscaled_size, OcrError};
use eyeclipse::overlay::{compute_overlay_position, overlay_width, OverlayResult};
use eyeclipse::selector::Region;
use eyeclipse::translate::TranslateError;
use eyeclipse::config::ApiBackend;
use eyeclipse::tray::{create_default_icon, TrayEvent};

#[test]
fn monitor_holding_the_origin_is_picked() {
    let mons = vec![
        MonitorRect { x: 0, y: 0, width: 1920, height: 1080 },
        MonitorRect { x: 1920, y: 0, width: 1280, height: 1024 },
    ];
    assert_eq!(pick_monitor(&mons, 2000, 10), Some(1));
    assert_eq!(pick_monitor(&mons, 10, 10), Some(0));
    assert_eq!(pick_monitor(&mons, 5000, 5000), Some(0));
    assert_eq!(pick_monitor(&vec![], 0, 0), None);
    assert_eq!(monitor_relative(2000, 10, 1920, 0), (80, 10));
    assert_eq!(monitor_relative(-5, 10, 0, 20), (0, 0));
}

#[test]
fn small_captures_are_enlarged() {
    assert_eq!(upscale_factor(200, 100), 4);
    assert_eq!(upscale_factor(400, 100), 2);
    assert_eq!(upscale_factor(800, 30), 2);
    assert_eq!(upscale_factor(800, 10), 4);
    assert_eq!(upscale_factor(800, 100), 1);
    assert_eq!(upscaled_size(400, 100), Some((800, 200)));
    assert_eq!(upscaled_size(800, 100), None);
}

#[test]
fn missing_tesseract_message_names_first_language() {
    assert_eq!(
        tesseract_missing_message("jpn+eng"),
        "Tesseract not available for language 'jpn+eng'. Install tesseract-ocr and the language pack (e.g. tesseract-ocr-jpn)."
    );
}

#[test]
fn overlay_goes_below_or_above() {
    assert_eq!(compute_overlay_position(100, 100, 80, 50, 250, 5, Some(1080)), (100, 155));
    assert_eq!(compute_overlay_position(-20, 900, 80, 50, 250, 5, None), (0, 645));
    assert_eq!(compute_overlay_position(0, 100, 80, 900, 250, 5, Some(1080)), (0, 0));
    assert_eq!(overlay_width(50), 200);
    assert_eq!(overlay_width(640), 640);
    let r = OverlayResult::new("hi".to_string(), Region { x: 1, y: 2, width: 3, height: 4 });
    assert_eq!((r.region_x, r.region_y, r.region_width, r.region_height), (1, 2, 3, 4));
}

#[test]
fn tray_icon_is_a_blue_disc() {
    let icon = create_default_icon();
    assert_eq!(icon.len(), 16 * 16 * 4);
    let at = |x: usize, y: usize| &icon[(y * 16 + x) * 4..(y * 16 + x) * 4 + 4];
    assert_eq!(at(8, 8), &[0x4a, 0x9e, 0xff, 0xff]);
    assert_eq!(at(2, 8), &[0x4a, 0x9e, 0xff, 0xff]);
    assert_eq!(at(1, 8), &[0, 0, 0, 0]);
    assert_eq!(at(0, 0), &[0, 0, 0, 0]);
}

#[test]
fn events_drive_the_main_loop() {
    assert_eq!(app_event_from_hotkey(HotkeyAction::CaptureRegion), AppEvent::CaptureRegion);
    assert_eq!(app_event_from_tray(TrayEvent::OpenConfig), AppEvent::OpenSettings);
    assert_eq!(app_event_from_tray(TrayEvent::Quit), AppEvent::Quit);
    let mut c = AppConfig::default();
    assert_eq!(handle_app_event(&mut c, Some(AppEvent::ToggleMode)), AppAction::SaveConfig);
    assert_eq!(c.mode, TranslationMode::Live);
    assert_eq!(handle_app_event(&mut c, Some(AppEvent::CaptureRegion)), AppAction::Capture);
    assert_eq!(handle_app_event(&mut c, None), AppAction::Exit);
    assert_eq!(c.mode, TranslationMode::Live);
}

#[test]
fn oneshot_texts() {
    assert!(!should_translate(""));
    assert!(should_translate("x"));
    assert_eq!(oneshot_overlay_text(Ok("Hello".to_string())), "Hello");
    let e = TranslateError::Empty { service: ApiBackend::Deepl };
    assert_eq!(oneshot_overlay_text(Err(e)), "[Translation error: DeepL returned no translations]");
}

fn gradient(w: u32, h: u32) -> eyeclipse::diff::RgbaFrame {
    let mut data = Vec::new();
    for y in 0..h {
        for x in 0..w {
            data.extend_from_slice(&[x as u8, y as u8, 7, 255]);
        }
    }
    eyeclipse::diff::RgbaFrame::from_raw(w, h, data).unwrap()
}

#[test]
fn region_is_cut_out_of_the_monitor_capture() {
    let mon = gradient(10, 8);
    let c = crop_to_region(&mon, 100, 50, 103, 52, 4, 2).unwrap();
    assert_eq!((c.width, c.height), (4, 2));
    assert_eq!(&c.data[0..4], &[3, 2, 7, 255]);
    assert_eq!(&c.data[(1 * 4 + 3) * 4..(1 * 4 + 3) * 4 + 4], &[6, 3, 7, 255]);
    // clipped at the monitor's right edge, negative offsets clamped
    let d = crop_to_region(&mon, 100, 50, 90, 56, 20, 20).unwrap();
    assert_eq!((d.width, d.height), (10, 2));
    assert_eq!(&d.data[0..4], &[0, 6, 7, 255]);
}

#[test]
fn region_outside_the_capture_is_an_error() {
    let mon = gradient(10, 8);
    let e = crop_to_region(&mon, 0, 0, 50, 0, 4, 4).unwrap_err();
    assert_eq!(
        e,
        CaptureError::EmptyCrop { rel_x: 50, rel_y: 0, width: 4, height: 4, monitor_width: 10, monitor_height: 8 }
    );
    assert_eq!(e.message(), "Crop resulted in empty image: rel (50, 0) 4x4 on 10x8 monitor");
    assert_eq!(CaptureError::NoMonitor.message(), "No monitor found");
}

#[test]
fn capture_is_prepared_as_png_for_ocr() {
    let png = prepare_for_ocr(&gradient(30, 10)).unwrap();
    assert_eq!(&png[0..8], &[0x89, b'P', b'N', b'G', 0x0d, 0x0a, 0x1a, 0x0a]);
    // the IHDR chunk records the enlarged size: 4 x (30 x 10)
    assert_eq!(&png[16..24], &[0, 0, 0, 120, 0, 0, 0, 40]);
    let big = prepare_for_ocr(&gradient(700, 50)).unwrap();
    assert_eq!(&big[16..24], &[0, 0, 2, 188, 0, 0, 0, 50]);
}

#[test]
fn empty_capture_cannot_be_encoded_for_ocr() {
    assert_eq!(prepare_for_ocr(&gradient(0, 10)), Err(OcrError::EncodeFailed));
    assert_eq!(prepare_for_ocr(&gradient(30, 0)), Err(OcrError::EncodeFailed));
    assert_eq!(OcrError::EncodeFailed.message(), "Failed to encode image as PNG for OCR");
    assert!(prepare_for_ocr(&gradient(1, 1)).is_ok());
}
