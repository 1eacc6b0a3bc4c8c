//! Prompt-chain invocation layer for a local-model translation service.
//!
//! The crate owns the logic of a small translation backend: a prompt
//! template with named placeholders, validated once at startup; parameter
//! substitution that rejects missing bindings before any model call; a
//! chain that binds the template to a model identifier and drives one
//! complete or streaming invocation; a relay that forwards stream
//! fragments to a presentation sink in production order; and a shared
//! handle that serializes every invocation against the single chain and
//! caches a fatal construction failure.
//!
//! The model runtime and the presentation sink are outside collaborators:
//! they appear only through the `ModelClient` and `FragmentSink` traits,
//! and every function here is specified for every value they may hand
//! back.

pub mod chain;
pub mod errors;
pub mod fanout;
pub mod handle;
pub mod params;
pub mod relay;
pub mod surface;
pub mod template;
pub mod text;
