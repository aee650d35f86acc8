//! A transport-agnostic HTTP API client core: request construction from URL
//! templates, an ordered interceptor chain, dispatch through a pluggable
//! transport, and typed endpoint descriptors with pluggable body codecs.

pub mod codec;
pub mod common;
pub mod endpoint;
pub mod header;
pub mod ident;
pub mod keyed;
pub mod laws;
pub mod locator;
pub mod multipart;
pub mod request;
pub mod simple_api;
pub mod simple_http;
pub mod stream;
pub mod template;
pub mod text;
