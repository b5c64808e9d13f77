//! Adapter logic that correlates Lightning payment hashes with wallet-native
//! payment requests: identifier resolution, the durable correlation store,
//! notification translation, and the quote lifecycle rules.

pub mod errors;
pub mod events;
pub mod identifier;
pub mod quotes;
pub mod settings;
pub mod store;
