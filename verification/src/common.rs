//! The record types served by the registry feed, with their decoders.

pub mod package;
pub mod release;
