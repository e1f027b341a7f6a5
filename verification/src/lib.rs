//! Verified core of an Ethereum auction-and-escrow client and its web front:
//! contract call encoding and decoding, escrow and withdrawal rules,
//! configuration parsing, and wallet-session authentication.

pub mod abi;
pub mod client;
pub mod primitives;
pub mod text;
pub mod web;
