//! Verified message logic of a Matter node: secure-channel status reports and
//! ICD check-ins, the OTA software update provider, timed requests, and the
//! receiver-driven sending side of Bulk Data Exchange.
//!
//! Every module states what it computes over sequences and integers. Transport,
//! timers and cryptographic backends stay with the caller.

pub mod bdx;
pub mod buf;
pub mod bytes;
pub mod crypto;
pub mod epoch;
pub mod error;
pub mod icd;
pub mod le;
pub mod message;
pub mod ota;
pub mod sc;
pub mod timed;
pub mod tlv;
