//! The Google provider: request shape and per-model endpoint paths.

use vstd::prelude::*;

verus! {

use vstd::string::StringExecFns;
use crate::error::Error;
use crate::google::decode::decode_google_frame;
use crate::google::events::GoogleStreamEvent;
use crate::google::normalize::{google_end_stream, spec_google_terminal};
use crate::transport::{join_url, spec_join_url};

/// Configuration of the Google endpoint.
#[derive(Debug, Clone, PartialEq, Eq)]
pub struct GoogleProviderSettings {
    /// The provider's display name.
    pub provider_name: String,
    /// The API base URL.
    pub base_url: String,
    /// The API key sent in the `x-goog-api-key` header.
    pub api_key: String,
}

/// Request options for the Google provider.
#[derive(Debug, Clone, PartialEq, Eq)]
pub struct GoogleOptions {
    /// The model the requests name.
    pub model: String,
    /// Whether the request streams.
    pub streaming: bool,
}

impl GoogleOptions {
    /// A builder with an empty model name and streaming off.
    pub fn builder() -> (r: GoogleOptionsBuilder)
        ensures
            r.options.model@ == Seq::<char>::empty(),
            !r.options.streaming,
    {
        GoogleOptionsBuilder {
            options: GoogleOptions { model: String::new(), streaming: false },
        }
    }
}

/// Builder for [`GoogleOptions`].
#[derive(Debug, Clone, PartialEq, Eq)]
pub struct GoogleOptionsBuilder {
    /// The options gathered so far.
    pub options: GoogleOptions,
}

impl GoogleOptionsBuilder {
    /// Sets the model name.
    pub fn model(self, v: &str) -> (r: GoogleOptionsBuilder)
        ensures
            r.options.model@ == v@,
            r.options.streaming == self.options.streaming,
    {
        let mut options = self.options;
        options.model = v.to_owned();
        GoogleOptionsBuilder { options }
    }

    /// Sets whether the request streams.
    pub fn streaming(self, v: bool) -> (r: GoogleOptionsBuilder)
        ensures
            r.options.streaming == v,
            r.options.model == self.options.model,
    {
        let mut options = self.options;
        options.streaming = v;
        GoogleOptionsBuilder { options }
    }

    /// Finishes the options; every field has a default, so this never fails.
    pub fn build(self) -> (r: Result<GoogleOptions, Error>)
        ensures
            r == Ok::<GoogleOptions, Error>(self.options),
    {
        Ok(self.options)
    }
}

/// The Google provider.
#[derive(Debug, Clone, PartialEq, Eq)]
pub struct Google {
    /// Configuration settings for the Google endpoint.
    pub settings: GoogleProviderSettings,
    /// The request options.
    pub options: GoogleOptions,
}

impl Google {
    /// A provider over the given model name, with default settings; the key
    /// must then be supplied by the caller's configuration.
    pub fn model_name(name: &str) -> (r: Google)
        ensures
            r.options.model@ == name@,
            !r.options.streaming,
            r.settings.provider_name@ == "google"@,
            r.settings.base_url@ == "https://generativelanguage.googleapis.com/v1beta/"@,
            r.settings.api_key@ == Seq::<char>::empty(),
    {
        Google {
            settings: GoogleProviderSettings {
                provider_name: "google".to_owned(),
                base_url: "https://generativelanguage.googleapis.com/v1beta/".to_owned(),
                api_key: String::new(),
            },
            options: GoogleOptions { model: name.to_owned(), streaming: false },
        }
    }

    /// The model's name.
    pub fn name(&self) -> (r: String)
        ensures
            r == self.options.model,
    {
        self.options.model.clone()
    }

    /// The request method.
    pub fn method(&self) -> (r: String)
        ensures
            r@ == "POST"@,
    {
        "POST".to_owned()
    }

    /// The request headers: JSON content and the API key header.
    pub fn headers(&self) -> (r: Vec<(String, String)>)
        ensures
            r@.len() == 2,
            r@[0].0@ == "content-type"@ && r@[0].1@ == "application/json"@,
            r@[1].0@ == "x-goog-api-key"@ && r@[1].1 == self.settings.api_key,
    {
        let mut r: Vec<(String, String)> = Vec::new();
        r.push(("content-type".to_owned(), "application/json".to_owned()));
        r.push(("x-goog-api-key".to_owned(), self.settings.api_key.clone()));
        r
    }

    /// The per-model path of the non-streaming endpoint.
    pub fn generate_path(&self) -> (r: String)
        ensures
            r@ == "models/"@ + self.options.model@ + ":generateContent"@,
    {
        "models/".to_owned().concat(self.options.model.as_str()).concat(":generateContent")
    }

    /// The per-model path of the streaming endpoint (callers add `alt=sse`).
    pub fn stream_path(&self) -> (r: String)
        ensures
            r@ == "models/"@ + self.options.model@ + ":streamGenerateContent"@,
    {
        "models/".to_owned().concat(self.options.model.as_str()).concat(":streamGenerateContent")
    }

    /// The full URL of the non-streaming endpoint.
    pub fn generate_url(&self) -> (r: String)
        ensures
            r@ == spec_join_url(
                self.settings.base_url@,
                "models/"@ + self.options.model@ + ":generateContent"@,
            ),
    {
        let p = self.generate_path();
        join_url(self.settings.base_url.as_str(), p.as_str())
    }

    /// The full URL of the streaming endpoint, with the SSE query.
    pub fn stream_url(&self) -> (r: String)
        ensures
            r@ == spec_join_url(
                self.settings.base_url@,
                "models/"@ + self.options.model@ + ":streamGenerateContent"@,
            ) + "?alt=sse"@,
    {
        let p = self.stream_path();
        join_url(self.settings.base_url.as_str(), p.as_str()).concat("?alt=sse")
    }

    /// Decodes one SSE frame payload into a stream event, under
    /// [`decode_google_frame`]'s policy.
    pub fn parse_stream_sse(payload: &Vec<u8>) -> (r: Result<GoogleStreamEvent, Error>)
        ensures
            crate::claudecode::decode::is_end_marker(payload@) ==> r == Ok::<
                GoogleStreamEvent,
                Error,
            >(GoogleStreamEvent::EndOfStream),
            !crate::claudecode::decode::is_end_marker(payload@) ==> match crate::json::json_doc(
                payload@,
            ) {
                None => {
                    &&& r matches Err(Error::ApiError { status_code, details })
                    &&& status_code is None
                    &&& details@ == "invalid JSON in SSE data"@
                },
                Some(doc) => r matches Ok(ev) && (exists|raw: String|
                    #![trigger crate::google::decode::google_classify_rel(doc, raw, ev)]
                    {
                        &&& crate::google::decode::google_classify_rel(doc, raw, ev)
                        &&& (vstd::utf8::valid_utf8(payload@) ==> raw@
                            == vstd::utf8::decode_utf8(payload@))
                    }),
            },
    {
        decode_google_frame(payload)
    }

    /// Whether an event ends the stream.
    pub fn end_stream(event: &GoogleStreamEvent) -> (r: bool)
        ensures
            r == spec_google_terminal(*event),
    {
        google_end_stream(event)
    }
}

} // verus!
