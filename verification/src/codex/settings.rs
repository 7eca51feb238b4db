//! Settings for the Codex provider.

use vstd::prelude::*;

verus! {

use crate::error::Error;

/// Configuration of the Codex endpoint.
#[derive(Debug, Clone, PartialEq, Eq)]
pub struct CodexProviderSettings {
    /// The provider's display name.
    pub provider_name: String,
    /// The API base URL.
    pub base_url: String,
    /// The API key sent as a bearer token.
    pub api_key: String,
    /// A custom API path; when set, it is used instead of the default
    /// `/responses`.
    pub path: Option<String>,
    /// Instructions injected into each request body.
    pub instructions: String,
}

pub(crate) fn default_codex_settings() -> (r: CodexProviderSettings)
    ensures
        r.provider_name@ == "codex"@,
        r.base_url@ == "https://chatgpt.com/backend-api/codex"@,
        r.api_key@ == Seq::<char>::empty(),
        r.path matches Some(p) && p@ == "/responses"@,
        r.instructions@ == Seq::<char>::empty(),
{
    CodexProviderSettings {
        provider_name: "codex".to_owned(),
        base_url: "https://chatgpt.com/backend-api/codex".to_owned(),
        api_key: String::new(),
        path: Some("/responses".to_owned()),
        instructions: String::new(),
    }
}

impl CodexProviderSettings {
    /// A builder starting from the default settings.
    pub fn builder() -> (r: CodexProviderSettingsBuilder)
        ensures
            r.settings.provider_name@ == "codex"@,
            r.settings.base_url@ == "https://chatgpt.com/backend-api/codex"@,
            r.settings.api_key@ == Seq::<char>::empty(),
            r.settings.path matches Some(p) && p@ == "/responses"@,
            r.settings.instructions@ == Seq::<char>::empty(),
    {
        CodexProviderSettingsBuilder { settings: default_codex_settings() }
    }
}

/// Builder for [`CodexProviderSettings`]: every field starts at its default.
#[derive(Debug, Clone, PartialEq, Eq)]
pub struct CodexProviderSettingsBuilder {
    /// The settings gathered so far.
    pub settings: CodexProviderSettings,
}

impl CodexProviderSettingsBuilder {
    /// Sets the provider's display name.
    pub fn provider_name(self, v: &str) -> (r: CodexProviderSettingsBuilder)
        ensures
            r.settings.provider_name@ == v@,
            r.settings.base_url == self.settings.base_url,
            r.settings.api_key == self.settings.api_key,
            r.settings.path == self.settings.path,
            r.settings.instructions == self.settings.instructions,
    {
        let mut settings = self.settings;
        settings.provider_name = v.to_owned();
        CodexProviderSettingsBuilder { settings }
    }

    /// Sets the base URL.
    pub fn base_url(self, v: &str) -> (r: CodexProviderSettingsBuilder)
        ensures
            r.settings.base_url@ == v@,
            r.settings.provider_name == self.settings.provider_name,
            r.settings.api_key == self.settings.api_key,
            r.settings.path == self.settings.path,
            r.settings.instructions == self.settings.instructions,
    {
        let mut settings = self.settings;
        settings.base_url = v.to_owned();
        CodexProviderSettingsBuilder { settings }
    }

    /// Sets the API key.
    pub fn api_key(self, v: &str) -> (r: CodexProviderSettingsBuilder)
        ensures
            r.settings.api_key@ == v@,
            r.settings.provider_name == self.settings.provider_name,
            r.settings.base_url == self.settings.base_url,
            r.settings.path == self.settings.path,
            r.settings.instructions == self.settings.instructions,
    {
        let mut settings = self.settings;
        settings.api_key = v.to_owned();
        CodexProviderSettingsBuilder { settings }
    }

    /// Sets a custom API path.
    pub fn path(self, v: &str) -> (r: CodexProviderSettingsBuilder)
        ensures
            r.settings.path matches Some(p) && p@ == v@,
            r.settings.provider_name == self.settings.provider_name,
            r.settings.base_url == self.settings.base_url,
            r.settings.api_key == self.settings.api_key,
            r.settings.instructions == self.settings.instructions,
    {
        let mut settings = self.settings;
        settings.path = Some(v.to_owned());
        CodexProviderSettingsBuilder { settings }
    }

    /// Sets the request instructions.
    pub fn instructions(self, v: &str) -> (r: CodexProviderSettingsBuilder)
        ensures
            r.settings.instructions@ == v@,
            r.settings.provider_name == self.settings.provider_name,
            r.settings.base_url == self.settings.base_url,
            r.settings.api_key == self.settings.api_key,
            r.settings.path == self.settings.path,
    {
        let mut settings = self.settings;
        settings.instructions = v.to_owned();
        CodexProviderSettingsBuilder { settings }
    }

    /// Finishes the settings; every field has a default, so this never fails.
    pub fn build(self) -> (r: Result<CodexProviderSettings, Error>)
        ensures
            r == Ok::<CodexProviderSettings, Error>(self.settings),
    {
        Ok(self.settings)
    }
}

} // verus!
