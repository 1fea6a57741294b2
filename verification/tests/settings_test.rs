use eyeclipse::config::AppConfig;
use eyeclipse::selector;
use eyeclipse::settings::{
    check_lang_code, join_lang_list, source_lang_label, split_lang_list, target_lang_label, target_langs,
    tesseract_langs_from_output, SettingsApp,
};

#[test]
fn test_select_region_struct_fields() {
    let region = selector::Region { x: 100, y: 200, width: 300, height: 400 };
    assert_eq!(region.x, 100);
    assert_eq!(region.y, 200);
    assert_eq!(region.width, 300);
    assert_eq!(region.height, 400);
}

#[test]
fn test_config_ocr_lang_splitting() {
    let ocr_lang = "jpn+eng+chi_sim";
    let parts = split_lang_list(ocr_lang);
    assert_eq!(parts, vec!["jpn", "eng", "chi_sim"]);
}

#[test]
fn test_config_ocr_lang_joining() {
    let selected = vec!["eng".to_string(), "jpn".to_string()];
    let joined = join_lang_list(&selected);
    assert_eq!(joined, "eng+jpn");
}

#[test]
fn test_config_ocr_lang_empty_join() {
    let selected: Vec<String> = vec![];
    let joined = join_lang_list(&selected);
    assert_eq!(joined, "");
}

#[test]
fn test_config_target_lang_codes() {
    let codes = ["en", "vi", "ja", "zh", "ko", "fr", "de", "es", "pt", "ru"];
    let table = target_langs();
    for code in &codes {
        assert!(!code.is_empty());
        assert!(code.len() <= 4);
        assert!(code.chars().all(|c| c.is_ascii_lowercase()));
        assert!(check_lang_code(code));
        assert!(table.iter().any(|(_, c)| c == code));
    }
}

#[test]
fn lang_code_check_rejects_bad_codes() {
    assert!(!check_lang_code(""));
    assert!(!check_lang_code("abcde"));
    assert!(!check_lang_code("EN"));
    assert!(check_lang_code("auto"));
}

#[test]
fn split_of_empty_setting_is_one_empty_language() {
    assert_eq!(split_lang_list(""), vec![""]);
    assert_eq!(split_lang_list("eng+"), vec!["eng", ""]);
}

#[test]
fn settings_tick_the_configured_languages() {
    let config = AppConfig { ocr_lang: "jpn+eng".to_string(), ..AppConfig::default() };
    let avail = vec!["eng".to_string(), "jpn".to_string(), "chi_sim".to_string()];
    let app = SettingsApp::new(config, avail);
    assert_eq!(app.selected_ocr_langs, vec![true, true, false]);
    assert_eq!(app.build_ocr_lang_string(), "eng+jpn");
    assert!(!app.saved);
}

#[test]
fn settings_keep_setting_when_untouched() {
    let config = AppConfig { ocr_lang: "jpn+eng".to_string(), ..AppConfig::default() };
    let avail = vec!["jpn".to_string(), "eng".to_string()];
    let app = SettingsApp::new(config, avail);
    assert_eq!(app.build_ocr_lang_string(), "jpn+eng");
}

#[test]
fn sync_refuses_an_empty_selection() {
    let config = AppConfig::default();
    let mut app = SettingsApp::new(config, vec!["kor".to_string()]);
    assert_eq!(app.sync_ocr_lang(), None);
    assert_eq!(app.config.ocr_lang, "jpn+eng");
    app.selected_ocr_langs[0] = true;
    assert_eq!(app.sync_ocr_lang(), Some("kor".to_string()));
    assert_eq!(app.config.ocr_lang, "kor");
}

#[test]
fn language_labels() {
    assert_eq!(source_lang_label("auto"), "Auto-detect");
    assert_eq!(source_lang_label("ja"), "Japanese");
    assert_eq!(target_lang_label("zh"), "Chinese (Simplified)");
    assert_eq!(target_lang_label("xx"), "xx");
}

#[test]
fn tesseract_listing_is_read() {
    let out = Some((
        String::new(),
        "List of available languages in \"/usr/share/tessdata/\" (3):\neng\njpn\r\n  osd \n\n".to_string(),
    ));
    assert_eq!(tesseract_langs_from_output(out), vec!["eng", "jpn", "osd"]);
}

#[test]
fn tesseract_listing_header_on_stderr() {
    let out = Some(("List of available languages (2):\n".to_string(), "eng\nList of x\nkor\n".to_string()));
    assert_eq!(tesseract_langs_from_output(out), vec!["eng", "kor"]);
}

#[test]
fn tesseract_missing_falls_back_to_english() {
    assert_eq!(tesseract_langs_from_output(None), vec!["eng"]);
}

#[test]
fn tesseract_header_only_falls_back_to_english() {
    let out = Some((String::new(), "List of available languages in \"/usr/share/tessdata/\" (0):\n".to_string()));
    assert_eq!(tesseract_langs_from_output(out), vec!["eng"]);
    assert_eq!(tesseract_langs_from_output(Some((String::new(), String::new()))), vec!["eng"]);
}

#[test]
fn test_detect_tesseract_langs_returns_vec() {
    let outputs = vec![
        None,
        Some((String::new(), String::new())),
        Some(("List of available languages (0):\n".to_string(), String::new())),
        Some((String::new(), "List of available languages (2):\neng\njpn\n".to_string())),
    ];
    for out in outputs {
        let langs = tesseract_langs_from_output(out);
        assert!(!langs.is_empty(), "detect_tesseract_langs should never return empty");
    }
}

#[test]
fn test_detect_tesseract_langs_no_header_lines() {
    let out = Some((
        "List of available languages (3):\n".to_string(),
        "eng\n\n  List of extra\njpn\r\n".to_string(),
    ));
    let langs = tesseract_langs_from_output(out);
    for lang in &langs {
        assert!(!lang.contains("List of"), "Should not contain header text, got: {}", lang);
        assert!(!lang.is_empty(), "Should not contain empty strings");
    }
    assert_eq!(langs, vec!["eng", "jpn"]);
}

#[test]
fn test_detect_tesseract_langs_has_eng() {
    let out = Some((String::new(), "List of available languages (3):\nchi_sim\neng\nosd\n".to_string()));
    let langs = tesseract_langs_from_output(out);
    assert!(langs.iter().any(|l| l == "eng"), "Should detect 'eng' language pack, got: {:?}", langs);
}

#[test]
fn ocr_setting_round_trips_through_the_window() {
    let avail: Vec<String> = vec!["eng".into(), "jpn".into(), "chi_sim".into(), "kor".into()];
    let mut app = SettingsApp::new(AppConfig { ocr_lang: String::new(), ..AppConfig::default() }, avail.clone());
    app.selected_ocr_langs = vec![true, false, true, false];
    let built = app.build_ocr_lang_string();
    assert_eq!(built, "eng+chi_sim");
    assert_eq!(built.split('+').collect::<Vec<_>>(), vec!["eng", "chi_sim"]);
    let reopened = SettingsApp::new(AppConfig { ocr_lang: built, ..AppConfig::default() }, avail.clone());
    assert_eq!(reopened.selected_ocr_langs, vec![true, false, true, false]);
    app.selected_ocr_langs = vec![false; 4];
    assert_eq!(app.build_ocr_lang_string(), "");
}
