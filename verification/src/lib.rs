//! Core of a collaborative-document server: the room registry, the change
//! ingest and fan-out rules, the catch-up protocol of a joining client and
//! the periodic merge of the change log into a snapshot.
//!
//! The library decides; the program around it performs the transport and
//! storage operations that the decisions call for.

pub mod ack;
pub mod change;
pub mod codec;
pub mod config;
pub mod context;
pub mod coupling;
pub mod document;
pub mod error;
pub mod ids;
pub mod merge;
pub mod rooms;
pub mod session;
pub mod text;
