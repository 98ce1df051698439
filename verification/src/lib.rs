//! A deterministic ledger of uniquely identified digital assets
//! ("kitties"), their ownership and lineage, and a small marketplace
//! that settles purchases against a fungible balance.
//!
//! The ledger state lives in a single [`pallet::Pallet`] value; every
//! operation is a synchronous state transition with an exact contract.
//! [`kitty`] holds the record type and the genetic derivation of a
//! child's identity from two parents, and [`migration`] upgrades
//! records stored under older layouts to the current one.

pub mod kitty;
pub mod migration;
pub mod pallet;
