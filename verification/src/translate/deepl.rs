//! DeepL: `POST {base}/v2/translate`, key in the `Authorization` header.
use vstd::prelude::*;
use crate::config::ApiBackend;
use crate::text::{ends_with, ends_with_str};
use crate::text::opt_view;
use super::{json_quote, json_string_literal, request_is, to_upper, unicode_uppercase, HttpRequest, TranslateError};

verus! {

/// A DeepL account and the server that serves it.
#[derive(Debug, Clone)]
pub struct DeeplBackend {
    pub api_key: String,
    pub base_url: String,
}

/// The server for `api_key`: the given URL, else the free API for keys
/// ending in `:fx` and the paid API for the others.
pub open spec fn default_deepl_url(api_key: Seq<char>, base_url: Option<Seq<char>>) -> Seq<char> {
    match base_url {
        Some(u) => u,
        None => if ends_with(api_key, ":fx"@) {
            "https://api-free.deepl.com"@
        } else {
            "https://api.deepl.com"@
        },
    }
}

/// The JSON body: the text in a one-element list and the target language
/// in upper case.
pub open spec fn deepl_body(text: Seq<char>, target: Seq<char>) -> Seq<char> {
    "{\"target_lang\":"@ + json_string_literal(unicode_uppercase(target)) + ",\"text\":["@
        + json_string_literal(text) + "]}"@
}

impl DeeplBackend {
    /// A DeepL client for `api_key`, at `base_url` when given.
    pub fn new(api_key: String, base_url: Option<String>) -> (r: Self)
        ensures
            r.api_key == api_key,
            r.base_url@ == default_deepl_url(api_key@, opt_view(base_url)),
    {
        let base_url = match base_url {
            Some(u) => u,
            None => if ends_with_str(api_key.as_str(), ":fx") {
                String::from_str("https://api-free.deepl.com")
            } else {
                String::from_str("https://api.deepl.com")
            },
        };
        DeeplBackend { api_key, base_url }
    }

    /// `r` asks this account to translate `text` into `target`.
    pub open spec fn describes(&self, r: HttpRequest, text: Seq<char>, target: Seq<char>) -> bool {
        request_is(
            r,
            self.base_url@ + "/v2/translate"@,
            Some("DeepL-Auth-Key "@ + self.api_key@),
            deepl_body(text, target),
        )
    }

    /// The request that translates `text` into `target` (DeepL detects the
    /// source language itself).
    pub fn request(&self, text: &str, target: &str) -> (r: HttpRequest)
        ensures
            self.describes(r, text@, target@),
    {
        let mut url = self.base_url.clone();
        url.append("/v2/translate");
        let mut auth = String::from_str("DeepL-Auth-Key ");
        auth.append(self.api_key.as_str());
        let mut body = String::from_str("{\"target_lang\":");
        let upper = to_upper(target);
        let t = json_quote(upper.as_str());
        body.append(t.as_str());
        body.append(",\"text\":[");
        let q = json_quote(text);
        body.append(q.as_str());
        body.append("]}");
        HttpRequest { url, authorization: Some(auth), body }
    }

    /// Reads the decoded answer: the `text` of each entry of
    /// `translations`, or `None` when the answer did not decode.
    pub fn read_answer(translations: Option<Vec<String>>) -> (r: Result<String, TranslateError>)
        ensures
            match translations {
                None => r matches Err(TranslateError::BadResponse { service }) && service == ApiBackend::Deepl,
                Some(v) => if v@.len() == 0 {
                    r matches Err(TranslateError::Empty { service }) && service == ApiBackend::Deepl
                } else {
                    r matches Ok(t) && t@ == v@[0]@
                },
            },
    {
        match translations {
            None => Err(TranslateError::BadResponse { service: ApiBackend::Deepl }),
            Some(v) => {
                if v.len() == 0 {
                    Err(TranslateError::Empty { service: ApiBackend::Deepl })
                } else {
                    Ok(v[0].clone())
                }
            },
        }
    }
}

} // verus!
