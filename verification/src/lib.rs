//! Verified core of a PC/SC NFC smart-card reader binding.
//!
//! The reader itself is driven through a C glue library; this crate holds the
//! decisions that surround each call into it: how reader states are
//! classified, which error a failing call reports, how the data that a card
//! returns is decoded, in which order a card transaction talks to the reader,
//! how the monitoring verb manages its background thread, and how the binding
//! configuration and its verbs are derived.
pub mod card;

pub mod error;
pub mod text;
pub mod client;
pub mod handle;
pub mod monitor;
pub mod binding;
