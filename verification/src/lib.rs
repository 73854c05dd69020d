//! Client-side bridge between Japanese-learning queries and two remote
//! services: a generative-language service that defines words and grammar
//! points, and a speech service that reads text aloud.
//!
//! The library decides what is sent and what the outcome means; sending
//! the one request of a call is left to the caller. A call therefore has
//! two halves: a request is built from the term and the key, and the
//! outcome of the exchange is settled into a record, into audio, or into a
//! failure.
//!
//! - `text`: trimming, and the removal of repeated prefixes and suffixes.
//! - `fence`: removal of the code fences around a reply.
//! - `json`: JSON values, their lookup, and their parsing.
//! - `records`: the records, and the rules by which a value is one.
//! - `error`: the failures and their messages.
//! - `transport`: requests, outcomes, and what an outcome means.
//! - `gemini_dictionary`: the definition service.
//! - `google_tts`: the speech service.

pub mod error;
pub mod fence;
pub mod gemini_dictionary;
pub mod google_tts;
pub mod json;
pub mod records;
pub mod text;
pub mod transport;
