//! Two deterministic on-chain programs, with their rules verified: a
//! token claim program that pays a fixed fungible-token amount once per
//! eligible account, gated by a Merkle membership proof against an
//! owner-rotatable root; and a redeem program that provisions a child
//! non-fungible-token contract through a create-then-link handshake and
//! mints bounded-supply tokens against a monotone counter.
//!
//! The library works on plain values and returns the instructions for
//! the host to enqueue; the host-facing glue (storage, addresses,
//! message envelopes) stands outside it.

pub mod access;
pub mod claim;
pub mod cw721;
pub mod decimal;
pub mod hashing;
pub mod merkle;
pub mod redeem;
