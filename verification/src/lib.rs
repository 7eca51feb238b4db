//! A client-side engine for vendor-independent streaming of language-model
//! output: it decodes vendor server-sent-event payloads, accumulates
//! index-keyed content blocks across incremental deltas, and emits one
//! normalized, ordered chunk sequence, with bounded retry on rate-limited
//! stream establishment.

pub mod chunk;
pub mod claudecode;
pub mod codex;
pub mod error;
pub mod google;
pub mod groq;
pub mod json;
pub mod openai;
pub mod retry;
pub mod sse;
pub mod text;
pub mod transport;
pub mod vercel;

pub use error::Error;
