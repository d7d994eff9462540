//! Receiver-driven BDX serving over an authenticated Matter exchange.
//!
//! The source is read one negotiated block at a time. Image lookup and
//! authorization policy belong to the caller, who passes the selected source.
//!
//! [`serve`] decides, event by event, what is sent and how the transfer ends; the
//! caller receives and sends. [`answers`] states what each message and event is answered
//! with, and [`laws`] what holds of whole transfers.

pub mod answers;
pub mod codec;
pub mod laws;
pub mod serve;
