use eyeclipse::config::{ApiBackend, AppConfig};
use eyeclipse::translate::deepl::DeeplBackend;
use eyeclipse::translate::libretranslate::LibreTranslateBackend;
use eyeclipse::translate::openai::OpenAIBackend;
use eyeclipse::translate::{check_status, create_backend, Backend, TranslateError};

#[test]
fn deepl_picks_free_or_paid_server() {
    assert_eq!(DeeplBackend::new("abc:fx".to_string(), None).base_url, "https://api-free.deepl.com");
    assert_eq!(DeeplBackend::new("abc".to_string(), None).base_url, "https://api.deepl.com");
    assert_eq!(
        DeeplBackend::new("abc:fx".to_string(), Some("http://x".to_string())).base_url,
        "http://x"
    );
}

#[test]
fn deepl_request() {
    let b = DeeplBackend::new("test-key".to_string(), Some("http://127.0.0.1:1".to_string()));
    let r = b.request("Say \"hi\"", "en");
    assert_eq!(r.url, "http://127.0.0.1:1/v2/translate");
    assert_eq!(r.authorization.as_deref(), Some("DeepL-Auth-Key test-key"));
    assert_eq!(r.body, r#"{"target_lang":"EN","text":["Say \"hi\""]}"#);
}

#[test]
fn libretranslate_request_with_and_without_key() {
    let b = LibreTranslateBackend::new(None, None);
    assert_eq!(b.base_url, "http://localhost:5000");
    let r = b.request("Hello world", "en", "fr");
    assert_eq!(r.url, "http://localhost:5000/translate");
    assert_eq!(r.authorization, None);
    assert_eq!(r.body, r#"{"format":"text","q":"Hello world","source":"en","target":"fr"}"#);
    let k = LibreTranslateBackend::new(Some("http://h".to_string()), Some("k1".to_string()));
    assert_eq!(
        k.request("a\nb", "en", "fr").body,
        r#"{"api_key":"k1","format":"text","q":"a\nb","source":"en","target":"fr"}"#
    );
}

#[test]
fn openai_request() {
    let b = OpenAIBackend::new("sk".to_string(), None);
    assert_eq!(b.base_url, "https://api.openai.com");
    let r = b.request("Original text", "en", "ja");
    assert_eq!(r.url, "https://api.openai.com/v1/chat/completions");
    assert_eq!(r.authorization.as_deref(), Some("Bearer sk"));
    assert_eq!(
        r.body,
        "{\"messages\":[{\"content\":\"You are a translator. Translate the following text from en to ja. \
         Output ONLY the translated text, nothing else.\",\"role\":\"system\"},{\"content\":\"Original text\",\
         \"role\":\"user\"}],\"model\":\"gpt-4o-mini\",\"temperature\":0.0}"
    );
}

#[test]
fn answers_are_read() {
    assert_eq!(
        DeeplBackend::read_answer(Some(vec!["Hello world".to_string(), "x".to_string()])).unwrap(),
        "Hello world"
    );
    assert_eq!(DeeplBackend::read_answer(Some(vec![])).unwrap_err().message(), "DeepL returned no translations");
    assert_eq!(
        DeeplBackend::read_answer(None).unwrap_err().message(),
        "Failed to parse DeepL response"
    );
    assert_eq!(
        LibreTranslateBackend::read_answer(Some("Bonjour le monde".to_string())).unwrap(),
        "Bonjour le monde"
    );
    assert_eq!(
        OpenAIBackend::read_answer(Some(vec!["  Translated text here\n".to_string()])).unwrap(),
        "Translated text here"
    );
    assert_eq!(OpenAIBackend::read_answer(Some(vec![])).unwrap_err().message(), "OpenAI returned no choices");
}

#[test]
fn error_statuses_are_reported() {
    assert!(check_status(ApiBackend::Deepl, 200, Some("OK".to_string()), String::new()).is_ok());
    let e = check_status(ApiBackend::Deepl, 403, Some("Forbidden".to_string()), "Forbidden".to_string())
        .unwrap_err();
    assert_eq!(e.message(), "DeepL API error (403 Forbidden): Forbidden");
    let e = check_status(ApiBackend::Openai, 429, Some("Too Many Requests".to_string()), "Rate limited".to_string())
        .unwrap_err();
    assert!(e.message().contains("429"));
    let e = check_status(ApiBackend::LibreTranslate, 599, None, String::new()).unwrap_err();
    assert_eq!(e.message(), "LibreTranslate error (599 <unknown status code>): ");
    let e = TranslateError::RequestFailed { service: ApiBackend::Openai, detail: "refused".to_string() };
    assert_eq!(e.message(), "OpenAI API request failed");
}

#[test]
fn backend_follows_configuration() {
    let c = AppConfig { api_backend: ApiBackend::LibreTranslate, ..AppConfig::default() };
    match create_backend(&c) {
        Backend::LibreTranslate(b) => {
            assert_eq!(b.base_url, "http://localhost:5000");
            assert_eq!(b.api_key, None);
        }
        _ => panic!("wrong backend"),
    }
    let c = AppConfig {
        api_backend: ApiBackend::Openai,
        api_key: "k".to_string(),
        api_url: "http://o".to_string(),
        ..AppConfig::default()
    };
    let b = create_backend(&c);
    assert_eq!(b.service(), ApiBackend::Openai);
    assert_eq!(b.request("t", "ja", "en").url, "http://o/v1/chat/completions");
    let c = AppConfig { api_key: "x:fx".to_string(), ..AppConfig::default() };
    match create_backend(&c) {
        Backend::Deepl(b) => assert_eq!(b.base_url, "https://api-free.deepl.com"),
        _ => panic!("wrong backend"),
    }
}

/// The `text` of each entry of `translations`, as the client decodes it.
fn deepl_texts(body: &str) -> Option<Vec<String>> {
    let v: serde_json::Value = serde_json::from_str(body).ok()?;
    v.get("translations")?
        .as_array()?
        .iter()
        .map(|t| t.get("text").and_then(|s| s.as_str()).map(|s| s.to_string()))
        .collect()
}

#[test]
fn test_deepl_translate_success() {
    let backend = DeeplBackend::new("test-key".to_string(), Some("http://127.0.0.1:4545".to_string()));
    let req = backend.request("こんにちは世界", "en");
    assert!(req.url.ends_with("/v2/translate"));
    assert_eq!(req.authorization.as_deref(), Some("DeepL-Auth-Key test-key"));
    assert!(check_status(ApiBackend::Deepl, 200, Some("OK".to_string()), String::new()).is_ok());
    let body = r#"{"translations":[{"detected_source_language":"JA","text":"Hello world"}]}"#;
    let result = DeeplBackend::read_answer(deepl_texts(body));
    assert!(result.is_ok());
    assert_eq!(result.unwrap(), "Hello world");
}

#[test]
fn test_deepl_translate_api_error() {
    let backend = DeeplBackend::new("bad-key".to_string(), Some("http://127.0.0.1:4545".to_string()));
    let req = backend.request("test", "en");
    assert!(req.url.ends_with("/v2/translate"));
    let result = check_status(ApiBackend::Deepl, 403, Some("Forbidden".to_string()), "Forbidden".to_string());
    assert!(result.is_err());
    let err_msg = result.unwrap_err().message();
    assert!(err_msg.contains("403"));
}

#[test]
fn test_libretranslate_success() {
    let backend = LibreTranslateBackend::new(Some("http://127.0.0.1:4545".to_string()), None);
    let req = backend.request("Hello world", "en", "fr");
    assert!(req.url.ends_with("/translate"));
    let v: serde_json::Value = serde_json::from_str(r#"{"translatedText":"Bonjour le monde"}"#).unwrap();
    let text = v.get("translatedText").and_then(|s| s.as_str()).map(|s| s.to_string());
    let result = LibreTranslateBackend::read_answer(text);
    assert!(result.is_ok());
    assert_eq!(result.unwrap(), "Bonjour le monde");
}

#[test]
fn test_libretranslate_error() {
    let result = check_status(
        ApiBackend::LibreTranslate,
        500,
        Some("Internal Server Error".to_string()),
        "Internal Server Error".to_string(),
    );
    assert!(result.is_err());
}

#[test]
fn test_openai_translate_success() {
    let backend = OpenAIBackend::new("test-openai-key".to_string(), Some("http://127.0.0.1:4545".to_string()));
    let req = backend.request("Original text", "en", "ja");
    assert!(req.url.ends_with("/v1/chat/completions"));
    assert_eq!(req.authorization.as_deref(), Some("Bearer test-openai-key"));
    let v: serde_json::Value =
        serde_json::from_str(r#"{"choices":[{"message":{"content":"Translated text here"}}]}"#).unwrap();
    let contents: Option<Vec<String>> = v.get("choices").and_then(|c| c.as_array()).map(|cs| {
        cs.iter()
            .filter_map(|c| c.get("message")?.get("content")?.as_str().map(|s| s.to_string()))
            .collect()
    });
    let result = OpenAIBackend::read_answer(contents);
    assert!(result.is_ok());
    assert_eq!(result.unwrap(), "Translated text here");
}

#[test]
fn test_openai_translate_error() {
    let result = check_status(ApiBackend::Openai, 429, Some("Too Many Requests".to_string()), "Rate limited".to_string());
    assert!(result.is_err());
    let err_msg = result.unwrap_err().message();
    assert!(err_msg.contains("429"));
}

#[test]
fn test_backend_dyn_dispatch() {
    let backend = Backend::Deepl(DeeplBackend::new("key".to_string(), Some("http://127.0.0.1:4545".to_string())));
    let req = backend.request("test", "ja", "en");
    assert!(req.url.ends_with("/v2/translate"));
    let result = DeeplBackend::read_answer(deepl_texts(r#"{"translations":[{"text":"dynamic dispatch works"}]}"#));
    assert!(result.is_ok());
    assert_eq!(result.unwrap(), "dynamic dispatch works");
}

#[test]
fn request_bodies_escape_text_as_json() {
    let b = LibreTranslateBackend::new(None, None);
    let r = b.request("q\"\\\u{8}\t\n\u{c}\r\u{1}\u{1f} é", "en", "fr");
    assert_eq!(
        r.body,
        r#"{"format":"text","q":"q\"\\\b\t\n\f\r\u0001\u001f é","source":"en","target":"fr"}"#
    );
}
