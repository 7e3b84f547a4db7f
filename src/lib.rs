//! Stateless core of a small Solana helper service: key generation, message
//! signing and verification, and construction of unsigned token and transfer
//! instructions from textual addresses and amounts.

pub mod codec;
pub mod crypto;
pub mod error;
pub mod handlers;
pub mod instruction;
pub mod models;
pub mod laws;
