//! A streaming response adapter and protocol normalization layer for
//! LLM chat providers.
//!
//! The crate turns a provider-agnostic chat request into a provider's wire
//! format, splits the provider's SSE-style byte stream into lines, parses
//! each line into a normalized stream event, folds events into accumulated
//! text / thinking / usage state, and converts the final state back into a
//! unified response.  The transport itself (HTTP, credential storage, UI
//! event delivery) stays outside; this crate holds the logic and its
//! contracts.

pub mod anthropic;
pub mod cloudflare;
pub mod credentials;
pub mod endpoints;
pub mod json;
pub mod models;
pub mod registry;
pub mod session;
pub mod sse;
pub mod strutil;
