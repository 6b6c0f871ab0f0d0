//! What crosses to the bridge and to the currency.
//!
//! The bridge carries a [`TransferMessage`] to another chain: a destination, a
//! resource identifier that names the kind of asset, and a payload of bytes.
//! There are three payloads: a hash as it is; an amount and its recipient; a
//! token with its recipient and its metadata. The currency is asked for a
//! [`BalanceMove`].
use crate::dispatch::AccountId;
use crate::uint::{big_endian, U256};
use vstd::prelude::*;

verus! {

/// What names a chain that the bridge serves.
pub type ChainId = u8;

/// What names a kind of asset on both sides of the bridge.
pub type ResourceId = [u8; 32];

/// A request to the bridge to carry `payload` to the chain `dest_id`.
#[derive(Clone, Debug, PartialEq, Eq)]
pub struct TransferMessage {
    pub dest_id: ChainId,
    pub resource_id: ResourceId,
    pub payload: Vec<u8>,
}

/// A transfer message as a mathematical value.
pub struct MessageView {
    pub dest_id: ChainId,
    pub resource_id: ResourceId,
    pub payload: Seq<u8>,
}

impl View for TransferMessage {
    type V = MessageView;

    open spec fn view(&self) -> MessageView {
        MessageView { dest_id: self.dest_id, resource_id: self.resource_id, payload: self.payload@ }
    }
}

/// A request to the currency to move `amount` from `from` to `to`.
#[derive(Clone, Copy, Debug, PartialEq, Eq)]
pub struct BalanceMove {
    pub from: AccountId,
    pub to: AccountId,
    pub amount: u128,
    /// Whether the move may empty the account `from` so that it ceases to
    /// exist.
    pub allow_death: bool,
}

/// The message for some bytes that mean something to the other side only.
pub open spec fn generic_message(
    dest_id: ChainId,
    resource_id: ResourceId,
    metadata: Seq<u8>,
) -> MessageView {
    MessageView { dest_id, resource_id, payload: metadata }
}

/// The message for an amount: its 32 bytes, the most significant first, and
/// then the recipient.
pub open spec fn fungible_message(
    dest_id: ChainId,
    resource_id: ResourceId,
    to: Seq<u8>,
    amount: nat,
) -> MessageView {
    MessageView { dest_id, resource_id, payload: big_endian(amount, 32) + to }
}

/// The message for a token: the bytes of its identifier, the recipient, and
/// the metadata.
pub open spec fn nonfungible_message(
    dest_id: ChainId,
    resource_id: ResourceId,
    token_id: Seq<u8>,
    to: Seq<u8>,
    metadata: Seq<u8>,
) -> MessageView {
    MessageView { dest_id, resource_id, payload: token_id + to + metadata }
}

impl TransferMessage {
    /// Builds the message for some bytes that mean something to the other
    /// side only.
    pub fn generic(dest_id: ChainId, resource_id: ResourceId, metadata: Vec<u8>) -> (message:
        TransferMessage)
        ensures
            message@ == generic_message(dest_id, resource_id, metadata@),
    {
        TransferMessage { dest_id, resource_id, payload: metadata }
    }

    /// Builds the message for `amount`, to be credited to `to`.
    pub fn fungible(dest_id: ChainId, resource_id: ResourceId, to: Vec<u8>, amount: U256) -> (message:
        TransferMessage)
        ensures
            message@ == fungible_message(dest_id, resource_id, to@, amount@),
    {
        let amount_bytes = amount.to_big_endian();
        let mut payload: Vec<u8> = Vec::new();
        payload.extend_from_slice(amount_bytes.as_slice());
        payload.extend_from_slice(to.as_slice());
        assert(payload@ =~= big_endian(amount@, 32) + to@);
        TransferMessage { dest_id, resource_id, payload }
    }

    /// Builds the message for the token written as `token_id`, with its
    /// `metadata`, to be given to `to`.
    pub fn nonfungible(
        dest_id: ChainId,
        resource_id: ResourceId,
        token_id: Vec<u8>,
        to: Vec<u8>,
        metadata: Vec<u8>,
    ) -> (message: TransferMessage)
        ensures
            message@ == nonfungible_message(dest_id, resource_id, token_id@, to@, metadata@),
    {
        let mut payload = token_id;
        payload.extend_from_slice(to.as_slice());
        payload.extend_from_slice(metadata.as_slice());
        assert(payload@ =~= token_id@ + to@ + metadata@);
        TransferMessage { dest_id, resource_id, payload }
    }
}

} // verus!
