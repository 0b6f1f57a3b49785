//! A local inference-serving core: a registry of named models, a table of
//! engines that generate text for them, an admission gate that bounds the
//! number of generations in flight, and the sessions that tie them together.
//!
//! The library is synchronous and owns no threads, locks or sockets. A host
//! drives it step by step and performs the waiting, sleeping and sending that
//! the steps ask for:
//!
//! - [`model_registry`] holds the models and their lifecycle status;
//! - [`engine`] defines what an engine is, and the reference engine;
//! - [`admission`] bounds the number of concurrent generations;
//! - [`app_state`] ties these together, and loads models;
//! - [`session`] checks a request and finds it a slot;
//! - [`stream`] holds the two ends of a streamed reply;
//! - [`api`] offers the operations of the gateway on plain values;
//! - [`decoding`] runs a quantized model token by token;
//! - [`text`] and [`types`] hold what the others share.

pub mod admission;
pub mod api;
pub mod app_state;
pub mod decoding;
pub mod engine;
pub mod model_registry;
pub mod session;
pub mod stream;
pub mod text;
pub mod types;
