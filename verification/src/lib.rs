//! Decoding and dispatch rules of a market-data feed client.
//!
//! A text frame is parsed into a [`json::Json`] tree, peeled of its `data`
//! envelopes and matched against the two payload shapes of the feed. The
//! dispatcher turns every inbound frame into the one action that the
//! connection owner has to perform.

pub mod json;
pub mod decimal;
pub mod models;
pub mod decoder;
pub mod dispatch;
