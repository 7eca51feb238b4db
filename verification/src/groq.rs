//! The Groq provider: an OpenAI-compatible chat endpoint under Groq's base
//! URL and branding.

use vstd::prelude::*;

verus! {

use vstd::string::{StrSliceExecFns, StringExecFns};
use crate::error::Error;
use crate::transport::{valid_base_url, validate_base_url};

/// Marker for the Groq provider's settings; configuration is gathered by its
/// builder.
#[derive(Debug, Clone, PartialEq, Eq)]
pub struct GroqProviderSettings;

impl GroqProviderSettings {
    /// A builder with Groq's defaults.
    pub fn builder() -> (r: GroqProviderSettingsBuilder)
        ensures
            r.base_url@ == "https://api.groq.com/openai/v1"@,
            r.api_key@ == Seq::<char>::empty(),
            r.provider_name@ == "groq"@,
            r.model@ == Seq::<char>::empty(),
    {
        GroqProviderSettingsBuilder {
            base_url: "https://api.groq.com/openai/v1".to_owned(),
            api_key: String::new(),
            provider_name: "groq".to_owned(),
            model: String::new(),
        }
    }
}

/// The Groq provider.
#[derive(Debug, Clone, PartialEq, Eq)]
pub struct Groq {
    /// The provider's display name.
    pub provider_name: String,
    /// The API base URL.
    pub base_url: String,
    /// The API key sent as a bearer token.
    pub api_key: String,
    /// The model the requests name.
    pub model: String,
}

impl Groq {
    /// A provider over the given model name, with default settings; the key
    /// must then be supplied by the caller's configuration.
    pub fn new(model_name: &str) -> (r: Groq)
        ensures
            r.model@ == model_name@,
            r.base_url@ == "https://api.groq.com/openai/v1"@,
            r.api_key@ == Seq::<char>::empty(),
            r.provider_name@ == "groq"@,
    {
        Groq {
            provider_name: "groq".to_owned(),
            base_url: "https://api.groq.com/openai/v1".to_owned(),
            api_key: String::new(),
            model: model_name.to_owned(),
        }
    }

    /// A builder with Groq's defaults.
    pub fn builder() -> (r: GroqProviderSettingsBuilder)
        ensures
            r.base_url@ == "https://api.groq.com/openai/v1"@,
            r.api_key@ == Seq::<char>::empty(),
            r.provider_name@ == "groq"@,
            r.model@ == Seq::<char>::empty(),
    {
        GroqProviderSettings::builder()
    }

    /// The model's name.
    pub fn name(&self) -> (r: String)
        ensures
            r == self.model,
    {
        self.model.clone()
    }
}

/// Builder for [`Groq`].
#[derive(Debug, Clone, PartialEq, Eq)]
pub struct GroqProviderSettingsBuilder {
    /// The base URL gathered so far.
    pub base_url: String,
    /// The API key gathered so far.
    pub api_key: String,
    /// The display name gathered so far.
    pub provider_name: String,
    /// The model name gathered so far.
    pub model: String,
}

impl GroqProviderSettingsBuilder {
    /// Sets the base URL of the API.
    pub fn base_url(self, base_url: &str) -> (r: GroqProviderSettingsBuilder)
        ensures
            r.base_url@ == base_url@,
            r.api_key == self.api_key,
            r.provider_name == self.provider_name,
            r.model == self.model,
    {
        GroqProviderSettingsBuilder {
            base_url: base_url.to_owned(),
            api_key: self.api_key,
            provider_name: self.provider_name,
            model: self.model,
        }
    }

    /// Sets the API key.
    pub fn api_key(self, api_key: &str) -> (r: GroqProviderSettingsBuilder)
        ensures
            r.api_key@ == api_key@,
            r.base_url == self.base_url,
            r.provider_name == self.provider_name,
            r.model == self.model,
    {
        GroqProviderSettingsBuilder {
            base_url: self.base_url,
            api_key: api_key.to_owned(),
            provider_name: self.provider_name,
            model: self.model,
        }
    }

    /// Sets the provider's display name.
    pub fn provider_name(self, provider_name: &str) -> (r: GroqProviderSettingsBuilder)
        ensures
            r.provider_name@ == provider_name@,
            r.base_url == self.base_url,
            r.api_key == self.api_key,
            r.model == self.model,
    {
        GroqProviderSettingsBuilder {
            base_url: self.base_url,
            api_key: self.api_key,
            provider_name: provider_name.to_owned(),
            model: self.model,
        }
    }

    /// Sets the model name.
    pub fn model_name(self, model_name: &str) -> (r: GroqProviderSettingsBuilder)
        ensures
            r.model@ == model_name@,
            r.base_url == self.base_url,
            r.api_key == self.api_key,
            r.provider_name == self.provider_name,
    {
        GroqProviderSettingsBuilder {
            base_url: self.base_url,
            api_key: self.api_key,
            provider_name: self.provider_name,
            model: model_name.to_owned(),
        }
    }

    /// Builds the provider: the base URL must carry an HTTP scheme and the
    /// key must not be empty; each violation has its own error.
    pub fn build(self) -> (r: Result<Groq, Error>)
        ensures
            !valid_base_url(self.base_url@) ==> r matches Err(Error::InvalidInput(_)),
            valid_base_url(self.base_url@) && self.api_key@.len() == 0 ==> (r matches Err(
                Error::MissingField(f),
            ) && f@ == "api_key"@),
            valid_base_url(self.base_url@) && self.api_key@.len() > 0 ==> (r matches Ok(g)
                && g.base_url == self.base_url && g.api_key == self.api_key && g.provider_name
                == self.provider_name && g.model == self.model),
    {
        match validate_base_url(self.base_url.as_str()) {
            Err(e) => Err(e),
            Ok(_) => {
                if self.api_key.as_str().is_empty() {
                    Err(Error::MissingField("api_key".to_owned()))
                } else {
                    Ok(
                        Groq {
                            provider_name: self.provider_name,
                            base_url: self.base_url,
                            api_key: self.api_key,
                            model: self.model,
                        },
                    )
                }
            },
        }
    }
}

} // verus!
