//! The Google provider: a generate-content endpoint whose stream events are
//! whole response objects with per-candidate parts.

pub mod decode;
pub mod events;
pub mod normalize;
pub mod provider;

pub use events::{GoogleCandidate, GoogleFunctionCall, GooglePart, GoogleResponse,
    GoogleStreamEvent};
pub use provider::{Google, GoogleOptions, GoogleOptionsBuilder, GoogleProviderSettings};
