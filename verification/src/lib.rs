//! The asset layer of a cross-chain bridge.
//!
//! Two things live here. The token registry ([`erc721`]) knows which
//! non-fungible tokens exist and who owns each of them. The transfer entry
//! points ([`orchestrator`]) turn a token, an amount of the native currency or
//! a hash into a message for the bridge, and apply what the bridge brings in
//! from other chains.
//!
//! The host runtime, the bridge and the currency are not part of the library.
//! A call comes in with what the host knows ([`dispatch`]) and goes out with
//! what the host has to do ([`bridge`]): a message to submit, a balance to
//! move, an event to publish. Nothing is stored outside the values that the
//! caller holds.
//!
//! Numbers of 256 bits are [`uint::U256`]; the arithmetic on them is that of
//! `sp_core`. The registry keeps its records in a [`storage::TokenMap`].
pub mod bridge;
pub mod dispatch;
pub mod erc721;
pub mod orchestrator;
pub mod storage;
pub mod uint;
