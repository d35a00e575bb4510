//! Clients for hosted LLM and OCR services (Anthropic, OpenAI, Gemini, Mistral OCR).
//!
//! The library holds what the clients decide: the request bodies they build,
//! how they read a decoded response, the errors they report. Each decision is
//! a verified function with a contract. Sending requests and decoding JSON
//! are done by the caller, which hands the decoded values to this library.
pub mod anthropic;
pub mod client;
pub mod error;
pub mod gemini;
pub mod mistral;
pub mod openai;
pub mod text;

pub use error::{ProviderError, Result};
