//! OpenAI chat completions: `POST {base}/v1/chat/completions`, bearer key.
use vstd::prelude::*;
use crate::config::ApiBackend;
use crate::text::{trim, trim_str};
use crate::text::opt_view;
use super::{json_quote, json_string_literal, request_is, HttpRequest, TranslateError};

verus! {

/// An OpenAI key and the server that serves it.
#[derive(Debug, Clone)]
pub struct OpenAIBackend {
    pub api_key: String,
    pub base_url: String,
}

/// The server: the given URL, else OpenAI's.
pub open spec fn openai_url(base_url: Option<Seq<char>>) -> Seq<char> {
    match base_url {
        Some(u) => u,
        None => "https://api.openai.com"@,
    }
}

/// The system prompt that asks for a bare translation.
pub open spec fn system_prompt(source: Seq<char>, target: Seq<char>) -> Seq<char> {
    "You are a translator. Translate the following text from "@ + source + " to "@ + target
        + ". Output ONLY the translated text, nothing else."@
}

/// The JSON body: the system prompt and the text as two messages, the
/// model, and temperature zero.
pub open spec fn openai_body(text: Seq<char>, source: Seq<char>, target: Seq<char>) -> Seq<char> {
    "{\"messages\":[{\"content\":"@ + json_string_literal(system_prompt(source, target))
        + ",\"role\":\"system\"},{\"content\":"@ + json_string_literal(text)
        + ",\"role\":\"user\"}],\"model\":\"gpt-4o-mini\",\"temperature\":0.0}"@
}

impl OpenAIBackend {
    /// A client for `api_key`, at `base_url` when given.
    pub fn new(api_key: String, base_url: Option<String>) -> (r: Self)
        ensures
            r.api_key == api_key,
            r.base_url@ == openai_url(opt_view(base_url)),
    {
        let base_url = match base_url {
            Some(u) => u,
            None => String::from_str("https://api.openai.com"),
        };
        OpenAIBackend { api_key, base_url }
    }

    /// `r` asks this account to translate `text` from `source` to `target`.
    pub open spec fn describes(&self, r: HttpRequest, text: Seq<char>, source: Seq<char>, target: Seq<char>) -> bool {
        request_is(
            r,
            self.base_url@ + "/v1/chat/completions"@,
            Some("Bearer "@ + self.api_key@),
            openai_body(text, source, target),
        )
    }

    /// The request that translates `text` from `source` to `target`.
    pub fn request(&self, text: &str, source: &str, target: &str) -> (r: HttpRequest)
        ensures
            self.describes(r, text@, source@, target@),
    {
        let mut url = self.base_url.clone();
        url.append("/v1/chat/completions");
        let mut auth = String::from_str("Bearer ");
        auth.append(self.api_key.as_str());
        let mut prompt = String::from_str("You are a translator. Translate the following text from ");
        prompt.append(source);
        prompt.append(" to ");
        prompt.append(target);
        prompt.append(". Output ONLY the translated text, nothing else.");
        let mut body = String::from_str("{\"messages\":[{\"content\":");
        let p = json_quote(prompt.as_str());
        body.append(p.as_str());
        body.append(",\"role\":\"system\"},{\"content\":");
        let q = json_quote(text);
        body.append(q.as_str());
        body.append(",\"role\":\"user\"}],\"model\":\"gpt-4o-mini\",\"temperature\":0.0}");
        HttpRequest { url, authorization: Some(auth), body }
    }

    /// Reads the decoded answer: the message content of the
    /// first choice, trimmed, or `None` when the answer did not decode.
    pub fn read_answer(contents: Option<Vec<String>>) -> (r: Result<String, TranslateError>)
        ensures
            match contents {
                None => r matches Err(TranslateError::BadResponse { service }) && service == ApiBackend::Openai,
                Some(v) => if v@.len() == 0 {
                    r matches Err(TranslateError::Empty { service }) && service == ApiBackend::Openai
                } else {
                    r matches Ok(t) && t@ == trim(v@[0]@)
                },
            },
    {
        match contents {
            None => Err(TranslateError::BadResponse { service: ApiBackend::Openai }),
            Some(v) => {
                if v.len() == 0 {
                    Err(TranslateError::Empty { service: ApiBackend::Openai })
                } else {
                    Ok(trim_str(v[0].as_str()))
                }
            },
        }
    }
}

} // verus!
