//! The Codex provider: an OpenAI-responses-family endpoint, streaming only.

pub mod decode;
pub mod events;
pub mod normalize;
pub mod provider;
pub mod settings;

pub use events::{CodexOutputItem, CodexResponse, OpenAiStreamEvent};
pub use provider::{Codex, CodexBuilder};
pub use settings::{CodexProviderSettings, CodexProviderSettingsBuilder};
