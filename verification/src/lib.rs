//! Resolution rules of a prediction market: oracle price validation,
//! the dispute window, supermajority vote counting and the administrative
//! fallback for deadlocked disputes.
pub mod errors;
pub mod types;
pub mod oracles;
pub mod resolution;
pub mod laws;
