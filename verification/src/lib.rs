//! Availability search for names of a decentralized naming registry: the rules
//! that turn raw text into query keys and that drive a batch of lookups.

pub mod batch;
pub mod lookup;
pub mod normalize;
pub mod source;
pub mod text;
pub mod trace;
