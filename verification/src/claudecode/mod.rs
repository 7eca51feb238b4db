//! The Anthropic-family provider: OAuth-authenticated messages endpoint,
//! stream decoding, and the index-keyed block accumulator.

pub mod decode;
pub mod events;
pub mod provider;
pub mod run;
pub mod stream;

pub use events::{AnthropicContentBlock, AnthropicDelta, AnthropicStreamEvent};
pub use provider::{AnthropicProviderSettings, ClaudeCode, ClaudeCodeBuilder};
pub use stream::{AccumulatedBlock, StreamState};
