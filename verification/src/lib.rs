//! The provider layer and the forwarding decisions of an LLM gateway.
//!
//! [`providers`] rewrites a caller request into what one upstream expects;
//! [`proxy`] resolves the upstream of a request, decides what is sent there and
//! how the answer is handed back; [`relay`] hands a streamed answer on chunk by
//! chunk. [`json`] and [`headers`] are the boundary to `serde_json` and
//! `http`: what their values hold is modelled there, and every call into them
//! is stated in terms of that model.

use vstd::prelude::*;

pub mod error;
pub mod headers;
pub mod json;
pub mod providers;
pub mod proxy;
pub mod relay;
pub mod text;
