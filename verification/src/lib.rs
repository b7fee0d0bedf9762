//! Adapter between a streaming HTML engine and a client tree-construction
//! capability.
//!
//! The engine drives tokenization and tree construction on its own; this crate
//! covers the protocol around it: marshaling engine-native values (byte
//! spans, flat attribute arrays, enumerated codes) into owned client-facing
//! values, the callback bridge through which every tree mutation is routed,
//! the chunked-input feeding state machine with its pause/resume and
//! re-entrant insert semantics, and a reference tree-construction capability
//! whose bookkeeping (parent links, attribute precedence, reference counts)
//! is proved against the protocol's rules.

pub mod bridge;
pub mod marshal;
pub mod parser;
pub mod status;
pub mod tree;
pub mod types;
