//! A diagnostic entry point for an on-chain program: it reports that the
//! program was reached, which program it is, the compute budget left, and the
//! accounts and instruction data it was handed.
pub mod laws;
pub mod processor;
pub mod reads;
pub mod runtime;
pub mod trace;
