//! A bounded, per-channel cache of recently seen chat messages, kept so that
//! edit and delete notifications can be answered locally.

pub mod embed;
pub mod message;
pub mod buffer;
pub mod cache;
pub mod laws;
