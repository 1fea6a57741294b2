//! LibreTranslate: `POST {base}/translate`, key (if any) in the body.
use vstd::prelude::*;
use crate::config::ApiBackend;
use crate::text::opt_view;
use super::{json_quote, json_string_literal, request_is, HttpRequest, TranslateError};

verus! {

/// A LibreTranslate server and the key it wants, if any.
#[derive(Debug, Clone)]
pub struct LibreTranslateBackend {
    pub base_url: String,
    pub api_key: Option<String>,
}

/// The server: the given URL, else a local one on port 5000.
pub open spec fn libretranslate_url(base_url: Option<Seq<char>>) -> Seq<char> {
    match base_url {
        Some(u) => u,
        None => "http://localhost:5000"@,
    }
}

/// The JSON body: the key (when there is one), plain-text format, the
/// text, and both languages.
pub open spec fn libretranslate_body(
    api_key: Option<Seq<char>>,
    text: Seq<char>,
    source: Seq<char>,
    target: Seq<char>,
) -> Seq<char> {
    "{"@ + match api_key {
        Some(k) => "\"api_key\":"@ + json_string_literal(k) + ","@,
        None => Seq::<char>::empty(),
    } + "\"format\":\"text\",\"q\":"@ + json_string_literal(text) + ",\"source\":"@
        + json_string_literal(source) + ",\"target\":"@ + json_string_literal(target) + "}"@
}

impl LibreTranslateBackend {
    /// A client for the server at `base_url` (the local default when not
    /// given), with an optional key.
    pub fn new(base_url: Option<String>, api_key: Option<String>) -> (r: Self)
        ensures
            r.base_url@ == libretranslate_url(opt_view(base_url)),
            r.api_key == api_key,
    {
        let base_url = match base_url {
            Some(u) => u,
            None => String::from_str("http://localhost:5000"),
        };
        LibreTranslateBackend { base_url, api_key }
    }

    /// `r` asks this server to translate `text` from `source` to `target`.
    pub open spec fn describes(&self, r: HttpRequest, text: Seq<char>, source: Seq<char>, target: Seq<char>) -> bool {
        request_is(
            r,
            self.base_url@ + "/translate"@,
            None,
            libretranslate_body(opt_view(self.api_key), text, source, target),
        )
    }

    /// The request that translates `text` from `source` to `target`.
    pub fn request(&self, text: &str, source: &str, target: &str) -> (r: HttpRequest)
        ensures
            self.describes(r, text@, source@, target@),
    {
        let mut url = self.base_url.clone();
        url.append("/translate");
        let mut body = String::from_str("{");
        let ghost head = body@;
        match &self.api_key {
            Some(k) => {
                body.append("\"api_key\":");
                let kq = json_quote(k.as_str());
                body.append(kq.as_str());
                body.append(",");
                assert(body@ == head + ("\"api_key\":"@ + json_string_literal(k@) + ","@));
            },
            None => {
                assert(body@ == head + Seq::<char>::empty());
            },
        }
        body.append("\"format\":\"text\",\"q\":");
        let q = json_quote(text);
        body.append(q.as_str());
        body.append(",\"source\":");
        let s = json_quote(source);
        body.append(s.as_str());
        body.append(",\"target\":");
        let t = json_quote(target);
        body.append(t.as_str());
        body.append("}");
        HttpRequest { url, authorization: None, body }
    }

    /// Reads the decoded answer: its `translatedText`, or
    /// `None` when the answer did not decode.
    pub fn read_answer(translated_text: Option<String>) -> (r: Result<String, TranslateError>)
        ensures
            match translated_text {
                None => r matches Err(TranslateError::BadResponse { service }) && service
                    == ApiBackend::LibreTranslate,
                Some(t) => r matches Ok(u) && u@ == t@,
            },
    {
        match translated_text {
            None => Err(TranslateError::BadResponse { service: ApiBackend::LibreTranslate }),
            Some(t) => Ok(t),
        }
    }
}

} // verus!
