//! Genesis state composition for a small test network.
//!
//! The crate resolves a network-variant identifier, derives the well-known
//! test identities for that variant, composes the full genesis state record
//! (consensus, balances, session, staking, governance, treasury, finality,
//! administrative root), and wraps it with network metadata into a chain
//! specification.

pub mod chain_spec;
pub mod fraction;
pub mod genesis;
pub mod identity;
