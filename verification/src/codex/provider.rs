//! The Codex provider and its builder. The provider is streaming-only: text
//! generation without streaming is refused.

use vstd::prelude::*;

verus! {

use vstd::string::{StrSliceExecFns, StringExecFns};
use crate::chunk::LanguageModelResponse;
use crate::codex::decode::decode_codex_frame;
use crate::codex::events::OpenAiStreamEvent;
use crate::codex::settings::{default_codex_settings, CodexProviderSettings};
use crate::error::Error;
use crate::text::{spec_trim_chars, trim_str};
use crate::transport::{join_url, spec_join_url, valid_base_url, validate_base_url};

/// The Codex provider.
#[derive(Debug, Clone, PartialEq, Eq)]
pub struct Codex {
    /// Configuration settings for the Codex endpoint.
    pub settings: CodexProviderSettings,
    /// The model the requests name.
    pub model: String,
}

impl Codex {
    /// A builder with default settings and no key.
    pub fn builder() -> (r: CodexBuilder)
        ensures
            r.settings.provider_name@ == "codex"@,
            r.settings.base_url@ == "https://chatgpt.com/backend-api/codex"@,
            r.settings.api_key@ == Seq::<char>::empty(),
            r.settings.path matches Some(p) && p@ == "/responses"@,
            r.settings.instructions@ == Seq::<char>::empty(),
            r.model@ == Seq::<char>::empty(),
    {
        CodexBuilder { settings: default_codex_settings(), model: String::new() }
    }

    /// A provider over the given model name, with default settings; the key
    /// must then be supplied by the caller's configuration.
    pub fn model_name(name: &str) -> (r: Codex)
        ensures
            r.model@ == name@,
            r.settings.provider_name@ == "codex"@,
            r.settings.base_url@ == "https://chatgpt.com/backend-api/codex"@,
            r.settings.api_key@ == Seq::<char>::empty(),
            r.settings.path matches Some(p) && p@ == "/responses"@,
            r.settings.instructions@ == Seq::<char>::empty(),
    {
        Codex { settings: default_codex_settings(), model: name.to_owned() }
    }

    /// The model's name.
    pub fn name(&self) -> (r: String)
        ensures
            r == self.model,
    {
        self.model.clone()
    }

    /// The request path: the configured override, or `/responses`.
    pub fn path(&self) -> (r: String)
        ensures
            match self.settings.path {
                Some(p) => r == p,
                None => r@ == "/responses"@,
            },
    {
        match &self.settings.path {
            Some(p) => p.clone(),
            None => "/responses".to_owned(),
        }
    }

    /// The request method.
    pub fn method(&self) -> (r: String)
        ensures
            r@ == "POST"@,
    {
        "POST".to_owned()
    }

    /// The full request URL: base URL joined with the path.
    pub fn request_url(&self) -> (r: String)
        ensures
            match self.settings.path {
                Some(p) => r@ == spec_join_url(self.settings.base_url@, p@),
                None => r@ == spec_join_url(self.settings.base_url@, "/responses"@),
            },
    {
        let p = self.path();
        join_url(self.settings.base_url.as_str(), p.as_str())
    }

    /// The request headers: JSON content, the event-stream accept header, and
    /// the bearer token (trimmed of surrounding whitespace).
    pub fn headers(&self) -> (r: Vec<(String, String)>)
        ensures
            r@.len() == 3,
            r@[0].0@ == "content-type"@ && r@[0].1@ == "application/json"@,
            r@[1].0@ == "accept"@ && r@[1].1@ == "text/event-stream"@,
            r@[2].0@ == "authorization"@ && r@[2].1@ == "Bearer "@ + spec_trim_chars(
                self.settings.api_key@,
            ),
    {
        let key = trim_str(self.settings.api_key.as_str());
        let mut r: Vec<(String, String)> = Vec::new();
        r.push(("content-type".to_owned(), "application/json".to_owned()));
        r.push(("accept".to_owned(), "text/event-stream".to_owned()));
        r.push(("authorization".to_owned(), "Bearer ".to_owned().concat(key.as_str())));
        r
    }

    /// The request's query parameters: none.
    pub fn query_params(&self) -> (r: Vec<(String, String)>)
        ensures
            r@.len() == 0,
    {
        Vec::new()
    }

    /// Decodes one SSE frame payload into a stream event, under
    /// [`decode_codex_frame`]'s policy.
    pub fn parse_stream_sse(payload: &Vec<u8>) -> (r: Result<OpenAiStreamEvent, Error>)
        ensures
            crate::claudecode::decode::is_end_marker(payload@) ==> r == Ok::<
                OpenAiStreamEvent,
                Error,
            >(OpenAiStreamEvent::EndOfStream),
            !crate::claudecode::decode::is_end_marker(payload@) ==> match crate::json::json_doc(
                payload@,
            ) {
                None => {
                    &&& r matches Err(Error::ApiError { status_code, details })
                    &&& status_code is None
                    &&& details@ == "invalid JSON in SSE data"@
                },
                Some(doc) => r matches Ok(ev) && (exists|raw: String|
                    #![trigger crate::codex::decode::codex_classify_rel(doc, raw, ev)]
                    {
                        &&& crate::codex::decode::codex_classify_rel(doc, raw, ev)
                        &&& (vstd::utf8::valid_utf8(payload@) ==> raw@
                            == vstd::utf8::decode_utf8(payload@))
                    }),
            },
    {
        decode_codex_frame(payload)
    }

    /// Whether an event ends the stream.
    pub fn end_stream(event: &OpenAiStreamEvent) -> (r: bool)
        ensures
            r == crate::codex::normalize::spec_codex_terminal(*event),
    {
        crate::codex::normalize::codex_end_stream(event)
    }

    /// Non-streamed generation is not offered by this provider: every call
    /// returns the same error directing callers to the streaming path.
    pub fn generate_text(&self) -> (r: Result<LanguageModelResponse, Error>)
        ensures
            r matches Err(Error::Other(s)) && s@
                == "Codex provider supports streaming only; use stream_text()"@,
    {
        Err(Error::Other("Codex provider supports streaming only; use stream_text()".to_owned()))
    }
}

/// Builder for [`Codex`].
#[derive(Debug, Clone, PartialEq, Eq)]
pub struct CodexBuilder {
    /// The settings gathered so far.
    pub settings: CodexProviderSettings,
    /// The model name gathered so far.
    pub model: String,
}

impl CodexBuilder {
    /// Sets the model name.
    pub fn model_name(self, model_name: &str) -> (r: CodexBuilder)
        ensures
            r.model@ == model_name@,
            r.settings == self.settings,
    {
        CodexBuilder { settings: self.settings, model: model_name.to_owned() }
    }

    /// Sets the base URL of the API.
    pub fn base_url(self, base_url: &str) -> (r: CodexBuilder)
        ensures
            r.settings.base_url@ == base_url@,
            r.settings.provider_name == self.settings.provider_name,
            r.settings.api_key == self.settings.api_key,
            r.settings.path == self.settings.path,
            r.settings.instructions == self.settings.instructions,
            r.model == self.model,
    {
        let mut settings = self.settings;
        settings.base_url = base_url.to_owned();
        CodexBuilder { settings, model: self.model }
    }

    /// Sets the API key, trimmed of surrounding whitespace.
    pub fn api_key(self, api_key: &str) -> (r: CodexBuilder)
        ensures
            r.settings.api_key@ == spec_trim_chars(api_key@),
            r.settings.provider_name == self.settings.provider_name,
            r.settings.base_url == self.settings.base_url,
            r.settings.path == self.settings.path,
            r.settings.instructions == self.settings.instructions,
            r.model == self.model,
    {
        let mut settings = self.settings;
        settings.api_key = trim_str(api_key);
        CodexBuilder { settings, model: self.model }
    }

    /// Sets the provider's display name.
    pub fn provider_name(self, provider_name: &str) -> (r: CodexBuilder)
        ensures
            r.settings.provider_name@ == provider_name@,
            r.settings.base_url == self.settings.base_url,
            r.settings.api_key == self.settings.api_key,
            r.settings.path == self.settings.path,
            r.settings.instructions == self.settings.instructions,
            r.model == self.model,
    {
        let mut settings = self.settings;
        settings.provider_name = provider_name.to_owned();
        CodexBuilder { settings, model: self.model }
    }

    /// Sets a custom API path, overriding the default `/responses`.
    pub fn path(self, path: &str) -> (r: CodexBuilder)
        ensures
            r.settings.path matches Some(p) && p@ == path@,
            r.settings.provider_name == self.settings.provider_name,
            r.settings.base_url == self.settings.base_url,
            r.settings.api_key == self.settings.api_key,
            r.settings.instructions == self.settings.instructions,
            r.model == self.model,
    {
        let mut settings = self.settings;
        settings.path = Some(path.to_owned());
        CodexBuilder { settings, model: self.model }
    }

    /// Sets the request `instructions` field.
    pub fn instructions(self, instructions: &str) -> (r: CodexBuilder)
        ensures
            r.settings.instructions@ == instructions@,
            r.settings.provider_name == self.settings.provider_name,
            r.settings.base_url == self.settings.base_url,
            r.settings.api_key == self.settings.api_key,
            r.settings.path == self.settings.path,
            r.model == self.model,
    {
        let mut settings = self.settings;
        settings.instructions = instructions.to_owned();
        CodexBuilder { settings, model: self.model }
    }

    /// Builds the provider: the base URL must carry an HTTP scheme and the
    /// key, trimmed, must not be empty; each violation has its own error.
    pub fn build(self) -> (r: Result<Codex, Error>)
        ensures
            !valid_base_url(self.settings.base_url@) ==> r matches Err(Error::InvalidInput(_)),
            valid_base_url(self.settings.base_url@) && spec_trim_chars(
                self.settings.api_key@,
            ).len() == 0 ==> (r matches Err(Error::MissingField(f)) && f@ == "api_key"@),
            valid_base_url(self.settings.base_url@) && spec_trim_chars(
                self.settings.api_key@,
            ).len() > 0 ==> (r matches Ok(c) && c.settings.api_key@ == spec_trim_chars(
                self.settings.api_key@,
            ) && c.settings.provider_name == self.settings.provider_name
                && c.settings.base_url == self.settings.base_url && c.settings.path
                == self.settings.path && c.settings.instructions == self.settings.instructions
                && c.model == self.model),
    {
        match validate_base_url(self.settings.base_url.as_str()) {
            Err(e) => Err(e),
            Ok(_) => {
                let key = trim_str(self.settings.api_key.as_str());
                if key.as_str().is_empty() {
                    Err(Error::MissingField("api_key".to_owned()))
                } else {
                    let mut settings = self.settings;
                    settings.api_key = key;
                    Ok(Codex { settings, model: self.model })
                }
            },
        }
    }
}

} // verus!
