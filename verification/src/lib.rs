//! Host-side decoder for the `stlog` compact logging scheme.
//!
//! A target device emits small integer message IDs instead of strings. The
//! host recovers the text and severity of each message by reading the symbol
//! table of the target's binary: sentinel symbols named
//! `__stlog_<level>_start__` delimit contiguous, severity-ordered address
//! ranges, and every data-object symbol in the same section is a message
//! whose name is the log text and whose address is its ID.
//!
//! The crate has two parts, used in sequence: a classifier that turns a list
//! of symbol-table entries into a map from message ID to decoded message
//! ([`classify::classify`]), and a decoder that resolves a stream of raw IDs
//! against that map under a minimum-severity filter ([`decode`]).

pub mod classify;
pub mod decode;
pub mod severity;
pub mod symbols;
pub mod table;
pub mod text;

pub use severity::Severity;
pub use symbols::{SymbolEntry, SymbolKind};
pub use table::{DecodedMessage, MessageTable};
