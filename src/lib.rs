//! Static risk scoring of smart-contract source text: four fixed lexical detectors,
//! a weighted score, and a level and recommendation derived from that score.

pub mod analysis;
pub mod detect;
pub mod laws;
pub mod text;
