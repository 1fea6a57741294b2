//! Translation services: which service a configuration asks, the HTTP
//! request each service gets, and how its answer is read. The transfer
//! itself is done by the caller, which hands the status line and the
//! decoded JSON answer back to these functions.
use vstd::prelude::*;
use crate::config::{ApiBackend, AppConfig};
use crate::text::{decimal, format_decimal, opt_view};

pub mod deepl;
pub mod libretranslate;
pub mod openai;

use deepl::DeeplBackend;
use libretranslate::LibreTranslateBackend;
use openai::OpenAIBackend;

verus! {

/// The lower-case hexadecimal digit of `d` (for `0 <= d < 16`).
pub open spec fn hex_digit(d: int) -> char {
    seq!['0', '1', '2', '3', '4', '5', '6', '7', '8', '9', 'a', 'b', 'c', 'd', 'e', 'f'][d]
}

/// How one character is written inside a JSON string: `"` and `\` behind
/// a backslash; backspace, tab, line feed, form feed and carriage return as
/// `\b`, `\t`, `\n`, `\f`, `\r`; any other character below U+0020 as
/// `\u00` and two lower-case hex digits; every other character as it is.
pub open spec fn json_escape_char(c: char) -> Seq<char> {
    if c == '"' {
        seq!['\\', '"']
    } else if c == '\\' {
        seq!['\\', '\\']
    } else if c == '\u{8}' {
        seq!['\\', 'b']
    } else if c == '\t' {
        seq!['\\', 't']
    } else if c == '\n' {
        seq!['\\', 'n']
    } else if c == '\u{c}' {
        seq!['\\', 'f']
    } else if c == '\r' {
        seq!['\\', 'r']
    } else if (c as int) < 0x20 {
        seq!['\\', 'u', '0', '0', hex_digit((c as int) / 16), hex_digit((c as int) % 16)]
    } else {
        seq![c]
    }
}

/// The characters of `s`, each written as `json_escape_char` gives.
pub open spec fn json_escaped(s: Seq<char>) -> Seq<char>
    decreases s.len(),
{
    if s.len() == 0 {
        Seq::empty()
    } else {
        json_escaped(s.drop_last()) + json_escape_char(s.last())
    }
}

/// The JSON string literal for `s`: a quote, its escaped characters, and a
/// quote, as `serde_json` writes a string.
pub open spec fn json_string_literal(s: Seq<char>) -> Seq<char> {
    seq!['"'] + json_escaped(s) + seq!['"']
}

/// The upper-case form of `s` under Unicode's case mapping, as
/// `str::to_uppercase` computes it.
pub uninterp spec fn unicode_uppercase(s: Seq<char>) -> Seq<char>;

/// `serde_json::to_string` on a string slice: the JSON string literal of
/// `s`, with the escapes that `json_escape_char` lists (serde_json's
/// escape table: only `"`, `\` and the bytes below 0x20 are escaped, all
/// of them ASCII, so the statement per character is exact). Serialising a
/// `str` into memory cannot fail, so the error arm is never taken.
#[verifier::external_body]
pub(crate) fn json_quote(s: &str) -> (r: String)
    ensures
        r@ == json_string_literal(s@),
{
    serde_json::to_string(s).unwrap_or_default()
}

/// `str::to_uppercase` from std. The contract names the result.
#[verifier::external_body]
pub(crate) fn to_upper(s: &str) -> (r: String)
    ensures
        r@ == unicode_uppercase(s@),
{
    s.to_uppercase()
}

/// A POST request with a JSON body.
#[derive(Debug, Clone)]
pub struct HttpRequest {
    pub url: String,
    /// Value of the `Authorization` header, if one is sent.
    pub authorization: Option<String>,
    /// The JSON body, as text.
    pub body: String,
}

/// `r` is the request to `url` with header `auth` and body `body`.
pub open spec fn request_is(r: HttpRequest, url: Seq<char>, auth: Option<Seq<char>>, body: Seq<char>) -> bool {
    &&& r.url@ == url
    &&& opt_view(r.authorization) == auth
    &&& r.body@ == body
}

/// Why a translation failed.
#[derive(Debug, Clone)]
pub enum TranslateError {
    /// The request could not be sent or its answer not received.
    RequestFailed { service: ApiBackend, detail: String },
    /// The service answered with a status outside 200-299.
    Api { service: ApiBackend, status: u16, reason: Option<String>, body: String },
    /// The answer was not the JSON the service documents.
    BadResponse { service: ApiBackend },
    /// The answer held no translation.
    Empty { service: ApiBackend },
}

/// How a service is named in error messages about its requests.
pub open spec fn service_name(s: ApiBackend) -> Seq<char> {
    match s {
        ApiBackend::Deepl => "DeepL"@,
        ApiBackend::LibreTranslate => "LibreTranslate"@,
        ApiBackend::Openai => "OpenAI"@,
    }
}

/// The start of the message for an error status of a service.
pub open spec fn api_error_prefix(s: ApiBackend) -> Seq<char> {
    match s {
        ApiBackend::Deepl => "DeepL API error ("@,
        ApiBackend::LibreTranslate => "LibreTranslate error ("@,
        ApiBackend::Openai => "OpenAI API error ("@,
    }
}

/// An HTTP status as it is displayed: the code, a space and the reason
/// phrase (or `<unknown status code>`).
pub open spec fn status_text(status: u16, reason: Option<Seq<char>>) -> Seq<char> {
    decimal(status as nat) + " "@ + match reason {
        Some(r) => r,
        None => "<unknown status code>"@,
    }
}

/// The message of an error, as the application reports it.
pub open spec fn error_message(e: TranslateError) -> Seq<char> {
    match e {
        TranslateError::RequestFailed { service, .. } => service_name(service) + " API request failed"@,
        TranslateError::Api { service, status, reason, body } => api_error_prefix(service)
            + status_text(status, opt_view(reason)) + "): "@ + body@,
        TranslateError::BadResponse { service } => "Failed to parse "@ + service_name(service)
            + " response"@,
        TranslateError::Empty { service } => match service {
            ApiBackend::Openai => "OpenAI returned no choices"@,
            _ => service_name(service) + " returned no translations"@,
        },
    }
}

fn service_label(s: ApiBackend) -> (r: String)
    ensures
        r@ == service_name(s),
{
    match s {
        ApiBackend::Deepl => String::from_str("DeepL"),
        ApiBackend::LibreTranslate => String::from_str("LibreTranslate"),
        ApiBackend::Openai => String::from_str("OpenAI"),
    }
}

impl TranslateError {
    /// The message shown for this error.
    pub fn message(&self) -> (r: String)
        ensures
            r@ == error_message(*self),
    {
        match self {
            TranslateError::RequestFailed { service, .. } => {
                let mut m = service_label(*service);
                m.append(" API request failed");
                m
            },
            TranslateError::Api { service, status, reason, body } => {
                let mut m = match service {
                    ApiBackend::Deepl => String::from_str("DeepL API error ("),
                    ApiBackend::LibreTranslate => String::from_str("LibreTranslate error ("),
                    ApiBackend::Openai => String::from_str("OpenAI API error ("),
                };
                let code = format_decimal(*status as u64);
                m.append(code.as_str());
                m.append(" ");
                match reason {
                    Some(r) => m.append(r.as_str()),
                    None => m.append("<unknown status code>"),
                }
                m.append("): ");
                m.append(body.as_str());
                m
            },
            TranslateError::BadResponse { service } => {
                let mut m = String::from_str("Failed to parse ");
                let n = service_label(*service);
                m.append(n.as_str());
                m.append(" response");
                m
            },
            TranslateError::Empty { service } => match service {
                ApiBackend::Openai => String::from_str("OpenAI returned no choices"),
                _ => {
                    let mut m = service_label(*service);
                    m.append(" returned no translations");
                    m
                },
            },
        }
    }
}

/// A status that counts as success (`StatusCode::is_success`).
pub open spec fn is_success(status: u16) -> bool {
    200 <= status <= 299
}

/// Accepts a success status; any other status becomes an `Api` error that
/// carries the status and the answer's body.
pub fn check_status(service: ApiBackend, status: u16, reason: Option<String>, body: String) -> (r: Result<
    (),
    TranslateError,
>)
    ensures
        is_success(status) ==> r is Ok,
        !is_success(status) ==> (r matches Err(TranslateError::Api { service: s, status: c, reason: rs, body: b })
            && s == service && c == status && opt_view(rs) == opt_view(reason) && b@ == body@),
{
    if 200 <= status && status <= 299 {
        Ok(())
    } else {
        Err(TranslateError::Api { service, status, reason, body })
    }
}

/// A configured translation service.
#[derive(Debug, Clone)]
pub enum Backend {
    Deepl(DeeplBackend),
    LibreTranslate(LibreTranslateBackend),
    Openai(OpenAIBackend),
}

/// The optional URL setting: `None` when it is empty.
pub open spec fn optional_setting(s: Seq<char>) -> Option<Seq<char>> {
    if s.len() == 0 {
        None
    } else {
        Some(s)
    }
}

fn optional(s: &String) -> (r: Option<String>)
    ensures
        opt_view(r) == optional_setting(s@),
{
    if s.as_str().is_empty() {
        None
    } else {
        Some(s.clone())
    }
}

/// The service that `config` selects, set up with its key and URL (an
/// empty URL or key stands for "not set").
pub fn create_backend(config: &AppConfig) -> (r: Backend)
    ensures
        match config.api_backend {
            ApiBackend::Deepl => r matches Backend::Deepl(b) && b.api_key@ == config.api_key@
                && b.base_url@ == deepl::default_deepl_url(
                config.api_key@,
                optional_setting(config.api_url@),
            ),
            ApiBackend::LibreTranslate => r matches Backend::LibreTranslate(b) && b.base_url@
                == libretranslate::libretranslate_url(optional_setting(config.api_url@))
                && opt_view(b.api_key) == optional_setting(config.api_key@),
            ApiBackend::Openai => r matches Backend::Openai(b) && b.api_key@ == config.api_key@
                && b.base_url@ == openai::openai_url(optional_setting(config.api_url@)),
        },
{
    match config.api_backend {
        ApiBackend::Deepl => Backend::Deepl(DeeplBackend::new(config.api_key.clone(), optional(&config.api_url))),
        ApiBackend::LibreTranslate => Backend::LibreTranslate(
            LibreTranslateBackend::new(optional(&config.api_url), optional(&config.api_key)),
        ),
        ApiBackend::Openai => Backend::Openai(OpenAIBackend::new(config.api_key.clone(), optional(&config.api_url))),
    }
}

impl Backend {
    /// Which service this is.
    pub fn service(&self) -> (r: ApiBackend)
        ensures
            r == match self {
                Backend::Deepl(_) => ApiBackend::Deepl,
                Backend::LibreTranslate(_) => ApiBackend::LibreTranslate,
                Backend::Openai(_) => ApiBackend::Openai,
            },
    {
        match self {
            Backend::Deepl(_) => ApiBackend::Deepl,
            Backend::LibreTranslate(_) => ApiBackend::LibreTranslate,
            Backend::Openai(_) => ApiBackend::Openai,
        }
    }

    /// The request that asks this service to translate `text` from
    /// `source` to `target`.
    pub fn request(&self, text: &str, source: &str, target: &str) -> (r: HttpRequest)
        ensures
            match self {
                Backend::Deepl(b) => b.describes(r, text@, target@),
                Backend::LibreTranslate(b) => b.describes(r, text@, source@, target@),
                Backend::Openai(b) => b.describes(r, text@, source@, target@),
            },
    {
        match self {
            Backend::Deepl(b) => b.request(text, target),
            Backend::LibreTranslate(b) => b.request(text, source, target),
            Backend::Openai(b) => b.request(text, source, target),
        }
    }
}

} // verus!
