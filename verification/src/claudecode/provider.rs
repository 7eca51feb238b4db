//! The ClaudeCode provider: an Anthropic-family messages endpoint reached
//! with OAuth bearer authentication and the beta header it requires.

use vstd::prelude::*;

verus! {

use vstd::string::{StringExecFns, StrSliceExecFns};
use crate::chunk::{ContentItem, LanguageModelResponse, UsageRecord};
use crate::claudecode::decode::{decode_frame, spec_usage_of};
use crate::claudecode::events::AnthropicStreamEvent;
use crate::claudecode::run::{is_terminal, spec_is_terminal};
use crate::error::Error;
use crate::json::{
    emit_json, json_doc, member_string, parse_json, spec_emit, spec_get, JsonValue,
};
use crate::text::str_eq;
use crate::transport::{join_url, spec_join_url, valid_base_url, validate_base_url};

/// How deeply nested a value the library will render back to JSON text.
pub const EMIT_DEPTH: u32 = 64;

/// Configuration of an Anthropic-family endpoint.
#[derive(Debug, Clone, PartialEq, Eq)]
pub struct AnthropicProviderSettings {
    /// The provider's display name.
    pub provider_name: String,
    /// The API base URL.
    pub base_url: String,
    /// The bearer token sent in the authorization header.
    pub api_key: String,
    /// A custom API path, overriding the default `/messages`.
    pub path: Option<String>,
}

fn default_settings() -> (r: AnthropicProviderSettings)
    ensures
        r.provider_name@ == "claudecode"@,
        r.base_url@ == "https://api.anthropic.com/v1/"@,
        r.api_key@ == Seq::<char>::empty(),
        r.path is None,
{
    AnthropicProviderSettings {
        provider_name: "claudecode".to_owned(),
        base_url: "https://api.anthropic.com/v1/".to_owned(),
        api_key: String::new(),
        path: None,
    }
}

/// The ClaudeCode provider: behaves as the Anthropic messages API, but
/// authenticates with `Authorization: Bearer <token>` instead of an API-key
/// header, and adds the OAuth beta header.
#[derive(Debug, Clone, PartialEq, Eq)]
pub struct ClaudeCode {
    /// Configuration settings (base URL, token, path).
    pub settings: AnthropicProviderSettings,
    /// The model the requests name.
    pub model: String,
}

impl ClaudeCode {
    /// A builder with default settings and no token.
    pub fn builder() -> (r: ClaudeCodeBuilder)
        ensures
            r.settings.provider_name@ == "claudecode"@,
            r.settings.base_url@ == "https://api.anthropic.com/v1/"@,
            r.settings.api_key@ == Seq::<char>::empty(),
            r.settings.path is None,
            r.model@ == Seq::<char>::empty(),
    {
        ClaudeCodeBuilder { settings: default_settings(), model: String::new() }
    }

    /// A provider over the given model name, with default settings; the
    /// token must then be supplied by the caller's configuration.
    pub fn model_name(name: &str) -> (r: ClaudeCode)
        ensures
            r.model@ == name@,
            r.settings.provider_name@ == "claudecode"@,
            r.settings.base_url@ == "https://api.anthropic.com/v1/"@,
            r.settings.api_key@ == Seq::<char>::empty(),
            r.settings.path is None,
    {
        ClaudeCode { settings: default_settings(), model: name.to_owned() }
    }

    /// The model's name.
    pub fn name(&self) -> (r: String)
        ensures
            r == self.model,
    {
        self.model.clone()
    }

    /// The request path: the configured override, or `/messages`.
    pub fn path(&self) -> (r: String)
        ensures
            match self.settings.path {
                Some(p) => r == p,
                None => r@ == "/messages"@,
            },
    {
        match &self.settings.path {
            Some(p) => p.clone(),
            None => "/messages".to_owned(),
        }
    }

    /// The request method.
    pub fn method(&self) -> (r: String)
        ensures
            r@ == "POST"@,
    {
        "POST".to_owned()
    }

    /// The full request URL: base URL joined with the path.
    pub fn request_url(&self) -> (r: String)
        ensures
            match self.settings.path {
                Some(p) => r@ == spec_join_url(self.settings.base_url@, p@),
                None => r@ == spec_join_url(self.settings.base_url@, "/messages"@),
            },
    {
        let p = self.path();
        join_url(self.settings.base_url.as_str(), p.as_str())
    }

    /// The request headers: JSON content, the bearer token, the pinned API
    /// version, and the OAuth beta marker.
    pub fn headers(&self) -> (r: Vec<(String, String)>)
        ensures
            r@.len() == 4,
            r@[0].0@ == "content-type"@ && r@[0].1@ == "application/json"@,
            r@[1].0@ == "authorization"@ && r@[1].1@ == "Bearer "@ + self.settings.api_key@,
            r@[2].0@ == "anthropic-version"@ && r@[2].1@ == "2023-06-01"@,
            r@[3].0@ == "anthropic-beta"@ && r@[3].1@ == "oauth-2025-04-20"@,
    {
        let mut r: Vec<(String, String)> = Vec::new();
        r.push(("content-type".to_owned(), "application/json".to_owned()));
        r.push(
            (
                "authorization".to_owned(),
                "Bearer ".to_owned().concat(self.settings.api_key.as_str()),
            ),
        );
        r.push(("anthropic-version".to_owned(), "2023-06-01".to_owned()));
        r.push(("anthropic-beta".to_owned(), "oauth-2025-04-20".to_owned()));
        r
    }

    /// The request's query parameters: none.
    pub fn query_params(&self) -> (r: Vec<(String, String)>)
        ensures
            r@.len() == 0,
    {
        Vec::new()
    }

    /// Decodes one SSE frame payload into a stream event, under
    /// [`decode_frame`]'s policy.
    pub fn parse_stream_sse(payload: &Vec<u8>) -> (r: Result<AnthropicStreamEvent, Error>)
        ensures
            crate::claudecode::decode::is_end_marker(payload@) ==> r == Ok::<
                AnthropicStreamEvent,
                Error,
            >(AnthropicStreamEvent::EndOfStream),
            !crate::claudecode::decode::is_end_marker(payload@) ==> match json_doc(payload@) {
                None => {
                    &&& r matches Err(Error::ApiError { status_code, details })
                    &&& status_code is None
                    &&& details@ == "invalid JSON in SSE data"@
                },
                Some(doc) => r matches Ok(ev) && (exists|raw: String|
                    ev == #[trigger] crate::claudecode::decode::spec_classify(doc, raw) && (
                    vstd::utf8::valid_utf8(payload@) ==> raw@ == vstd::utf8::decode_utf8(
                        payload@,
                    ))),
            },
    {
        decode_frame(payload)
    }

    /// Whether an event ends the stream.
    pub fn end_stream(event: &AnthropicStreamEvent) -> (r: bool)
        ensures
            r == spec_is_terminal(*event),
    {
        is_terminal(event)
    }

    /// Maps a complete (non-streamed) messages-API response body to the
    /// normalized response.
    pub fn parse_response(body: &Vec<u8>) -> (r: Result<LanguageModelResponse, Error>)
        ensures
            json_doc(body@) is None ==> (r matches Err(Error::ApiError { status_code, details })
                && status_code is None),
            json_doc(body@) matches Some(doc) ==> r matches Ok(resp) && message_response_rel(
                doc,
                resp,
            ),
    {
        parse_message_response(body)
    }
}

/// Builder for [`ClaudeCode`].
#[derive(Debug, Clone, PartialEq, Eq)]
pub struct ClaudeCodeBuilder {
    /// The settings gathered so far.
    pub settings: AnthropicProviderSettings,
    /// The model name gathered so far.
    pub model: String,
}

impl ClaudeCodeBuilder {
    /// Sets the model name.
    pub fn model_name(self, model_name: &str) -> (r: ClaudeCodeBuilder)
        ensures
            r.model@ == model_name@,
            r.settings == self.settings,
    {
        ClaudeCodeBuilder { settings: self.settings, model: model_name.to_owned() }
    }

    /// Sets the base URL of the API.
    pub fn base_url(self, base_url: &str) -> (r: ClaudeCodeBuilder)
        ensures
            r.settings.base_url@ == base_url@,
            r.settings.provider_name == self.settings.provider_name,
            r.settings.api_key == self.settings.api_key,
            r.settings.path == self.settings.path,
            r.model == self.model,
    {
        let mut settings = self.settings;
        settings.base_url = base_url.to_owned();
        ClaudeCodeBuilder { settings, model: self.model }
    }

    /// Sets the OAuth token used in the authorization header.
    pub fn api_key(self, api_key: &str) -> (r: ClaudeCodeBuilder)
        ensures
            r.settings.api_key@ == api_key@,
            r.settings.provider_name == self.settings.provider_name,
            r.settings.base_url == self.settings.base_url,
            r.settings.path == self.settings.path,
            r.model == self.model,
    {
        let mut settings = self.settings;
        settings.api_key = api_key.to_owned();
        ClaudeCodeBuilder { settings, model: self.model }
    }

    /// Sets the provider's display name.
    pub fn provider_name(self, provider_name: &str) -> (r: ClaudeCodeBuilder)
        ensures
            r.settings.provider_name@ == provider_name@,
            r.settings.base_url == self.settings.base_url,
            r.settings.api_key == self.settings.api_key,
            r.settings.path == self.settings.path,
            r.model == self.model,
    {
        let mut settings = self.settings;
        settings.provider_name = provider_name.to_owned();
        ClaudeCodeBuilder { settings, model: self.model }
    }

    /// Sets a custom API path, overriding the default `/messages`.
    pub fn path(self, path: &str) -> (r: ClaudeCodeBuilder)
        ensures
            r.settings.path matches Some(p) && p@ == path@,
            r.settings.provider_name == self.settings.provider_name,
            r.settings.base_url == self.settings.base_url,
            r.settings.api_key == self.settings.api_key,
            r.model == self.model,
    {
        let mut settings = self.settings;
        settings.path = Some(path.to_owned());
        ClaudeCodeBuilder { settings, model: self.model }
    }

    /// Builds the provider: the base URL must carry an HTTP scheme and the
    /// token must not be empty; each violation has its own error.
    pub fn build(self) -> (r: Result<ClaudeCode, Error>)
        ensures
            !valid_base_url(self.settings.base_url@) ==> r matches Err(Error::InvalidInput(_)),
            valid_base_url(self.settings.base_url@) && self.settings.api_key@.len() == 0 ==> (r
                matches Err(Error::MissingField(f)) && f@ == "api_key"@),
            valid_base_url(self.settings.base_url@) && self.settings.api_key@.len() > 0 ==> (r
                matches Ok(c) && c.settings == self.settings && c.model == self.model),
    {
        match validate_base_url(self.settings.base_url.as_str()) {
            Err(e) => Err(e),
            Ok(_) => {
                if self.settings.api_key.as_str().is_empty() {
                    Err(Error::MissingField("api_key".to_owned()))
                } else {
                    Ok(ClaudeCode { settings: self.settings, model: self.model })
                }
            },
        }
    }
}

/// How one response content block maps to a content item when nothing about
/// it is recognized: carried verbatim as rendered JSON text.
pub open spec fn fallback_item_rel(b: JsonValue, item: ContentItem) -> bool {
    item matches ContentItem::NotSupported { raw } && (match spec_emit(b, EMIT_DEPTH as nat) {
        Some(a) => raw@ == a,
        None => raw@ == "unsupported content block"@,
    })
}

/// How one block of a complete response maps to a content item: text becomes
/// text, the reasoning forms become reasoning with their signature or
/// payload, and a tool invocation carries its input object rendered back to
/// JSON text; anything else is carried verbatim.
pub open spec fn response_item_rel(b: JsonValue, item: ContentItem) -> bool {
    match member_string(b, "type"@) {
        Some(t) => if t@ == "text"@ {
            match member_string(b, "text"@) {
                Some(s) => item == (ContentItem::Text { text: s }),
                None => fallback_item_rel(b, item),
            }
        } else if t@ == "thinking"@ {
            match member_string(b, "thinking"@) {
                Some(s) => item == (ContentItem::Reasoning {
                    text: s,
                    signature: member_string(b, "signature"@),
                }),
                None => fallback_item_rel(b, item),
            }
        } else if t@ == "redacted_thinking"@ {
            match member_string(b, "data"@) {
                Some(s) => item == (ContentItem::Reasoning { text: s, signature: None }),
                None => fallback_item_rel(b, item),
            }
        } else if t@ == "tool_use"@ {
            match (member_string(b, "id"@), member_string(b, "name"@), spec_get(b, "input"@)) {
                (Some(i), Some(n), Some(v)) => match spec_emit(v, EMIT_DEPTH as nat) {
                    Some(a) => item matches ContentItem::ToolCall { id, name, arguments } && id
                        == i && name == n && arguments@ == a,
                    None => fallback_item_rel(b, item),
                },
                _ => fallback_item_rel(b, item),
            }
        } else {
            fallback_item_rel(b, item)
        },
        None => fallback_item_rel(b, item),
    }
}

/// How a parsed complete response maps to the normalized response: one item
/// per content block, in order, and the usage member's counts.
pub open spec fn message_response_rel(doc: JsonValue, resp: LanguageModelResponse) -> bool {
    &&& match spec_get(doc, "content"@) {
        Some(JsonValue::Arr(items)) => resp.contents@.len() == items@.len() && (forall|i: int|
            0 <= i < items@.len() ==> response_item_rel(items@[i], #[trigger] resp.contents@[i])),
        _ => resp.contents@.len() == 0,
    }
    &&& resp.usage == (match spec_get(doc, "usage"@) {
        Some(u) => Some(spec_usage_of(u)),
        _ => None::<UsageRecord>,
    })
}

fn fallback_item(b: &JsonValue) -> (item: ContentItem)
    ensures
        fallback_item_rel(*b, item),
{
    match emit_json(b, EMIT_DEPTH) {
        Some(a) => ContentItem::NotSupported { raw: a },
        None => ContentItem::NotSupported { raw: "unsupported content block".to_owned() },
    }
}

fn response_item(b: &JsonValue) -> (item: ContentItem)
    ensures
        response_item_rel(*b, item),
{
    match b.get_str("type") {
        None => fallback_item(b),
        Some(t) => {
            if str_eq(t.as_str(), "text") {
                match b.get_str("text") {
                    Some(s) => ContentItem::Text { text: s.clone() },
                    None => fallback_item(b),
                }
            } else if str_eq(t.as_str(), "thinking") {
                match b.get_str("thinking") {
                    Some(s) => {
                        let signature = match b.get_str("signature") {
                            Some(g) => Some(g.clone()),
                            None => None,
                        };
                        ContentItem::Reasoning { text: s.clone(), signature }
                    },
                    None => fallback_item(b),
                }
            } else if str_eq(t.as_str(), "redacted_thinking") {
                match b.get_str("data") {
                    Some(s) => ContentItem::Reasoning { text: s.clone(), signature: None },
                    None => fallback_item(b),
                }
            } else if str_eq(t.as_str(), "tool_use") {
                match (b.get_str("id"), b.get_str("name"), b.get("input")) {
                    (Some(i), Some(n), Some(v)) => match emit_json(v, EMIT_DEPTH) {
                        Some(a) => ContentItem::ToolCall {
                            id: i.clone(),
                            name: n.clone(),
                            arguments: a,
                        },
                        None => fallback_item(b),
                    },
                    _ => fallback_item(b),
                }
            } else {
                fallback_item(b)
            }
        },
    }
}

fn parse_message_response(body: &Vec<u8>) -> (r: Result<LanguageModelResponse, Error>)
    ensures
        json_doc(body@) is None ==> (r matches Err(Error::ApiError { status_code, details })
            && status_code is None),
        json_doc(body@) matches Some(doc) ==> r matches Ok(resp) && message_response_rel(
            doc,
            resp,
        ),
{
    match parse_json(body) {
        None => Err(
            Error::ApiError {
                status_code: None,
                details: "invalid JSON in response body".to_owned(),
            },
        ),
        Some(doc) => {
            let mut contents: Vec<ContentItem> = Vec::new();
            match doc.get("content") {
                Some(JsonValue::Arr(items)) => {
                    let mut i: usize = 0;
                    while i < items.len()
                        invariant
                            0 <= i <= items@.len(),
                            contents@.len() == i,
                            forall|j: int|
                                0 <= j < i ==> response_item_rel(
                                    items@[j],
                                    #[trigger] contents@[j],
                                ),
                        decreases items@.len() - i,
                    {
                        let item = response_item(&items[i]);
                        contents.push(item);
                        i += 1;
                    }
                },
                _ => {},
            }
            let usage: Option<UsageRecord> = match doc.get("usage") {
                Some(u) => Some(
                    UsageRecord {
                        input_tokens: u.get_u64("input_tokens"),
                        output_tokens: u.get_u64("output_tokens"),
                        total_tokens: None,
                    },
                ),
                None => None,
            };
            Ok(LanguageModelResponse { contents, usage })
        },
    }
}

} // verus!
