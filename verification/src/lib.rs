//! Verified decision logic of the Harvesta tree-planting contracts: the escrow
//! that holds sponsors' funds until a planting is verified, the registry of
//! planted trees with its indexes and milestone credits, and the impact
//! certificate collection.
//!
//! Each contract is a state machine. Its state is what the contract keeps in
//! ledger storage; each operation takes the state, the call's arguments and the
//! ledger time, and either fails with a contract error (leaving the state as it
//! was) or moves to the next state and appends to a list what the host does
//! next, in order: token transfers, calls into the other contracts, and
//! announcements. The authorizations a call needs are named by small
//! functions that the host asks before the operation, at the point where the
//! contract checks them. The host environment that runs the contracts lives
//! outside this crate.
#![allow(unused_imports)]

pub mod common;
pub mod escrow;
pub mod escrow_laws;
pub mod tree_registry;
pub mod nft_certificate;
pub mod registry_laws;
pub mod certificate_laws;
