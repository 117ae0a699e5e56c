//! A pluggable serialization facade: an injector holds one encoding strategy
//! and forwards typed encode and decode calls to it, so that a call site is
//! bound to no particular encoder. Both directions can fail, and every
//! failure is an absent result.

pub mod injector;
pub mod json;
pub mod laws;
pub mod strategy;

pub use crate::injector::StrategyInjector;
pub use crate::json::{decode_json, encode_json, JsonStrategy};
pub use crate::strategy::{decodes, encodes, present_or_absent, text_of, Strategy};
