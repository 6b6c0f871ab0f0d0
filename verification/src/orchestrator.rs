//! The entry points for transfers to and from other chains.
//!
//! Outbound, a signer sends a hash, an amount of the native currency or a
//! token: [`Pallet::transfer_hash`], [`Pallet::transfer_native`],
//! [`Pallet::transfer_erc721`]. Each of them makes every test of its own
//! before it changes anything. Inbound, the bridge credits an amount, leaves
//! a remark or mints a token: [`Pallet::transfer`], [`Pallet::remark`],
//! [`Pallet::mint_erc721`].
//!
//! The bridge and the currency are not part of this library. What the host
//! learnt from them comes in as an argument: whether the bridge serves the
//! destination, which account the bridge has, what the bridge's own test of
//! an inbound caller said. What they are to do goes out as the result: a
//! [`TransferMessage`] to submit, a [`BalanceMove`] to carry out.
//!
//! Two sendings wait for an answer from outside, and each has a second step
//! that takes it. The message for an amount depends on the currency: the
//! result is a [`NativeTransfer`], which gives the message away only for the
//! currency's answer. A token is burnt before its message goes to the bridge:
//! the result is an [`Erc721Transfer`], and [`Erc721Transfer::settle`] takes
//! the bridge's answer. Where the bridge refused the message, the token is
//! put back, so that a send that fails leaves the registry as it was.
use crate::bridge::{
    fungible_message, generic_message, nonfungible_message, BalanceMove, ChainId, MessageView,
    ResourceId, TransferMessage,
};
use crate::dispatch::{ensure_signed, AccountId, BadOrigin, DispatchError, Origin};
use crate::erc721::{Erc721Token, State, TokenId, TokenView};
use crate::uint::{big_endian, U256};
use vstd::prelude::*;

verus! {

/// The resource identifiers under which the three kinds of asset travel.
#[derive(Clone, Copy, Debug, PartialEq, Eq)]
pub struct Config {
    /// For a hash.
    pub hash_id: ResourceId,
    /// For the native currency.
    pub native_token_id: ResourceId,
    /// For the tokens of the registry.
    pub erc721_id: ResourceId,
}

/// What a successful inbound call has to tell.
#[derive(Clone, Debug, PartialEq, Eq)]
pub enum Event {
    /// The bridge brought this hash.
    Remark(Vec<u8>),
}

/// Why a transfer was refused before anything was changed.
#[derive(Clone, Copy, Debug, PartialEq, Eq)]
pub enum Error {
    /// The destination is not one that the bridge serves, or the token to
    /// send does not exist.
    InvalidTransfer,
}

/// A token send that waits for the bridge, as a mathematical value: what the
/// burn had to tell, the message for the bridge, and the token as it was, with
/// its owner.
pub struct Erc721TransferView {
    pub burned: crate::erc721::Event,
    pub message: MessageView,
    pub owner: AccountId,
    pub token: TokenView,
}

impl Erc721TransferView {
    /// The registry after the bridge's answer. Where the bridge took the
    /// message, the registry stays as the burn left it. Where it refused, the
    /// token is minted again, as it was and for the owner it had.
    pub open spec fn settled(self, registry: State, accepted: bool) -> State {
        if accepted {
            registry
        } else {
            registry.mint_token(self.owner, self.token.id, self.token.metadata).0
        }
    }
}

impl Config {
    /// Sending a hash: any signer may, to any destination.
    pub open spec fn transfer_hash(self, origin: Origin, hash: Seq<u8>, dest_id: ChainId) -> Result<
        MessageView,
        DispatchError,
    > {
        match origin.signer() {
            Some(_) => Ok(generic_message(dest_id, self.hash_id, hash)),
            None => Err(DispatchError::BadOrigin),
        }
    }

    /// Sending an amount of the native currency: the signer's balance goes to
    /// the bridge's account, and the message says whom to credit on the other
    /// side. Refused where the bridge does not serve the destination.
    pub open spec fn transfer_native(
        self,
        origin: Origin,
        amount: u128,
        recipient: Seq<u8>,
        dest_id: ChainId,
        whitelisted: bool,
        bridge_account: AccountId,
    ) -> Result<(BalanceMove, MessageView), DispatchError> {
        match origin.signer() {
            None => Err(DispatchError::BadOrigin),
            Some(source) => if !whitelisted {
                Err(DispatchError::Transfer(Error::InvalidTransfer))
            } else {
                Ok(
                    (
                        BalanceMove { from: source, to: bridge_account, amount, allow_death: true },
                        fungible_message(dest_id, self.native_token_id, recipient, amount as nat),
                    ),
                )
            },
        }
    }

    /// Sending a token: it is burnt here, and the message carries its
    /// identifier, the recipient and its metadata. Refused where the bridge
    /// does not serve the destination, where the token does not exist, and
    /// where the signer does not own it; the registry is then as it was.
    /// What comes out of a send that went through remembers the token and its
    /// owner, for the case that the bridge refuses the message.
    pub open spec fn transfer_erc721(
        self,
        registry: State,
        origin: Origin,
        recipient: Seq<u8>,
        token_id: TokenId,
        dest_id: ChainId,
        whitelisted: bool,
    ) -> (State, Result<Erc721TransferView, DispatchError>) {
        match origin.signer() {
            None => (registry, Err(DispatchError::BadOrigin)),
            Some(source) => if !whitelisted {
                (registry, Err(DispatchError::Transfer(Error::InvalidTransfer)))
            } else {
                match registry.token(token_id) {
                    None => (registry, Err(DispatchError::Transfer(Error::InvalidTransfer))),
                    Some(token) => match registry.burn_token(source, token_id).1 {
                        Err(e) => (registry, Err(DispatchError::Erc721(e))),
                        Ok(burned) => (
                            registry.burn_token(source, token_id).0,
                            Ok(
                                Erc721TransferView {
                                    burned,
                                    message: nonfungible_message(
                                        dest_id,
                                        self.erc721_id,
                                        big_endian(token_id@, 32),
                                        recipient,
                                        token.metadata,
                                    ),
                                    owner: source,
                                    token,
                                },
                            ),
                        ),
                    },
                }
            },
        }
    }

    /// Crediting an amount that came over the bridge: out of the bridge's
    /// account, to `to`.
    pub open spec fn transfer(
        self,
        bridge_origin: Result<AccountId, BadOrigin>,
        to: AccountId,
        amount: u128,
        r_id: ResourceId,
    ) -> Result<BalanceMove, DispatchError> {
        match bridge_origin {
            Ok(source) => Ok(BalanceMove { from: source, to, amount, allow_death: true }),
            Err(_) => Err(DispatchError::BadOrigin),
        }
    }

    /// Minting a token that came over the bridge. Refused where a token with
    /// this identifier exists here.
    pub open spec fn mint_erc721(
        self,
        registry: State,
        bridge_origin: Result<AccountId, BadOrigin>,
        recipient: AccountId,
        id: TokenId,
        metadata: Seq<u8>,
        r_id: ResourceId,
    ) -> (State, Result<crate::erc721::Event, DispatchError>) {
        match bridge_origin {
            Ok(_) => State::dispatched(registry.mint_token(recipient, id, metadata)),
            Err(_) => (registry, Err(DispatchError::BadOrigin)),
        }
    }

    /// Sending is for signers: a call that nobody signed, or that comes from
    /// the privileged caller, is refused with [`DispatchError::BadOrigin`];
    /// there is no message, no balance is to be moved, and the registry is as
    /// it was.
    pub proof fn lemma_outbound_is_for_signers(
        self,
        registry: State,
        origin: Origin,
        amount: u128,
        bytes: Seq<u8>,
        token_id: TokenId,
        dest_id: ChainId,
        whitelisted: bool,
        bridge_account: AccountId,
    )
        requires
            !(origin is Signed),
        ensures
            self.transfer_hash(origin, bytes, dest_id) == Err::<MessageView, DispatchError>(
                DispatchError::BadOrigin,
            ),
            self.transfer_native(origin, amount, bytes, dest_id, whitelisted, bridge_account)
                == Err::<(BalanceMove, MessageView), DispatchError>(DispatchError::BadOrigin),
            self.transfer_erc721(registry, origin, bytes, token_id, dest_id, whitelisted) == (
                registry,
                Err::<Erc721TransferView, DispatchError>(
                    DispatchError::BadOrigin,
                ),
            ),
    {
    }

    /// An amount is sent only to a chain that the bridge serves: to any other
    /// destination the call of a signer is refused with
    /// [`Error::InvalidTransfer`], and no balance is to be moved.
    pub proof fn lemma_unserved_destination_keeps_balance(
        self,
        origin: Origin,
        amount: u128,
        recipient: Seq<u8>,
        dest_id: ChainId,
        bridge_account: AccountId,
    )
        requires
            origin is Signed,
        ensures
            self.transfer_native(origin, amount, recipient, dest_id, false, bridge_account)
                == Err::<(BalanceMove, MessageView), DispatchError>(
                DispatchError::Transfer(Error::InvalidTransfer),
            ),
    {
    }

    /// A token that a signer sends to a chain which the bridge does not serve
    /// stays where it is: the call is refused with
    /// [`Error::InvalidTransfer`], the token is not burnt, and its owner keeps
    /// it.
    pub proof fn lemma_unserved_destination_keeps_token(
        self,
        registry: State,
        origin: Origin,
        recipient: Seq<u8>,
        token_id: TokenId,
        dest_id: ChainId,
    )
        requires
            origin.signer() is Some,
        ensures
            self.transfer_erc721(registry, origin, recipient, token_id, dest_id, false) == (
                registry,
                Err::<Erc721TransferView, DispatchError>(
                    DispatchError::Transfer(Error::InvalidTransfer),
                ),
            ),
    {
    }

    /// A signer cannot send a token that another account owns: the call is
    /// refused with [`crate::erc721::Error::NotOwner`], and the token is not
    /// burnt.
    pub proof fn lemma_send_by_other_is_refused(
        self,
        registry: State,
        origin: Origin,
        recipient: Seq<u8>,
        token_id: TokenId,
        dest_id: ChainId,
    )
        requires
            registry.inv(),
            origin.signer() is Some,
            registry.owner_of(token_id) is Some,
            registry.owner_of(token_id) != origin.signer(),
        ensures
            self.transfer_erc721(registry, origin, recipient, token_id, dest_id, true) == (
                registry,
                Err::<Erc721TransferView, DispatchError>(
                    DispatchError::Erc721(crate::erc721::Error::NotOwner),
                ),
            ),
    {
        assert(registry.owners.dom().contains(token_id));
        assert(registry.tokens.dom().contains(token_id));
    }

    /// Sending a token either goes through or changes nothing: where the call
    /// is refused, for whatever reason, the registry is as it was; where it
    /// goes through, the token is gone and the registry keeps its invariant.
    pub proof fn lemma_send_is_all_or_nothing(
        self,
        registry: State,
        origin: Origin,
        recipient: Seq<u8>,
        token_id: TokenId,
        dest_id: ChainId,
        whitelisted: bool,
    )
        requires
            registry.inv(),
        ensures
            ({
                let (after, result) = self.transfer_erc721(
                    registry,
                    origin,
                    recipient,
                    token_id,
                    dest_id,
                    whitelisted,
                );
                &&& after.inv()
                &&& result is Err ==> after == registry
                &&& result is Ok ==> after.token(token_id) is None && after.owner_of(token_id)
                    is None && after.count + 1 == registry.count
            }),
    {
        if origin.signer() is Some {
            registry.lemma_calls_keep_inv(
                origin,
                origin.signer()->Some_0,
                origin.signer()->Some_0,
                token_id,
                recipient,
            );
            if registry.tokens.dom().contains(token_id) {
                assert(registry.tokens.dom().remove(token_id).len() + 1
                    == registry.tokens.dom().len());
            }
        }
    }

    /// A send that the bridge refuses leaves nothing behind: once the bridge's
    /// refusal is settled, the registry is what it was before the send, with
    /// the token, its owner and the counter as they were. Where the bridge
    /// took the message, the token stays burnt.
    pub proof fn lemma_refused_submission_restores_token(
        self,
        registry: State,
        origin: Origin,
        recipient: Seq<u8>,
        token_id: TokenId,
        dest_id: ChainId,
        whitelisted: bool,
    )
        requires
            registry.inv(),
            self.transfer_erc721(registry, origin, recipient, token_id, dest_id, whitelisted).1
                is Ok,
        ensures
            ({
                let (after, result) = self.transfer_erc721(
                    registry,
                    origin,
                    recipient,
                    token_id,
                    dest_id,
                    whitelisted,
                );
                let sent = result->Ok_0;
                &&& Some(sent.owner) == registry.owner_of(token_id)
                &&& Some(sent.token) == registry.token(token_id)
                &&& sent.settled(after, false) == registry
                &&& sent.settled(after, true) == after
                &&& sent.settled(after, true).token(token_id) is None
            }),
    {
        let source = origin.signer()->Some_0;
        let after = registry.burn_token(source, token_id).0;
        let back = after.mint_token(source, token_id, registry.tokens[token_id].metadata).0;
        assert(registry.tokens.dom().contains(token_id));
        assert(registry.tokens.dom().remove(token_id).len() + 1 == registry.tokens.dom().len());
        assert(back.tokens =~= registry.tokens);
        assert(back.owners =~= registry.owners);
        assert(back =~= registry);
    }

    /// What comes over the bridge is applied for the bridge only: where the
    /// bridge does not know the caller, the call is refused with
    /// [`DispatchError::BadOrigin`], no balance is to be moved and the
    /// registry is as it was.
    pub proof fn lemma_inbound_is_for_the_bridge(
        self,
        registry: State,
        refusal: BadOrigin,
        to: AccountId,
        amount: u128,
        id: TokenId,
        metadata: Seq<u8>,
        r_id: ResourceId,
    )
        ensures
            self.transfer(Err(refusal), to, amount, r_id) == Err::<BalanceMove, DispatchError>(
                DispatchError::BadOrigin,
            ),
            self.mint_erc721(registry, Err(refusal), to, id, metadata, r_id) == (
                registry,
                Err::<crate::erc721::Event, DispatchError>(DispatchError::BadOrigin),
            ),
    {
    }

    /// A token that comes over the bridge does not replace one that exists
    /// here under the same identifier: the call is refused with
    /// [`crate::erc721::Error::TokenAlreadyExists`], and the registry is as it
    /// was.
    pub proof fn lemma_inbound_mint_keeps_live_token(
        self,
        registry: State,
        bridge_account: AccountId,
        recipient: AccountId,
        id: TokenId,
        metadata: Seq<u8>,
        r_id: ResourceId,
    )
        requires
            registry.token(id) is Some,
        ensures
            self.mint_erc721(registry, Ok(bridge_account), recipient, id, metadata, r_id) == (
                registry,
                Err::<crate::erc721::Event, DispatchError>(
                    DispatchError::Erc721(crate::erc721::Error::TokenAlreadyExists),
                ),
            ),
    {
    }
}

/// An outbound transfer of the native currency that waits for the currency.
/// [`NativeTransfer::debit`] is what the currency has to carry out, and
/// [`NativeTransfer::settle`] takes its answer. Its view is the pair of the
/// debit and the message.
#[derive(Debug)]
#[must_use]
pub struct NativeTransfer {
    debit: BalanceMove,
    message: TransferMessage,
}

impl View for NativeTransfer {
    type V = (BalanceMove, MessageView);

    closed spec fn view(&self) -> (BalanceMove, MessageView) {
        (self.debit, self.message@)
    }
}

impl NativeTransfer {
    /// What the currency has to carry out before anything goes to the bridge.
    pub fn debit(&self) -> (debit: BalanceMove)
        ensures
            debit == self@.0,
    {
        self.debit
    }

    /// Takes the currency's answer to the debit. Where the balance was moved,
    /// the result is the message to submit. Where it was not, the result is
    /// the currency's refusal, and there is no message.
    pub fn settle<E>(self, moved: Result<(), E>) -> (r: Result<TransferMessage, E>)
        ensures
            match moved {
                Ok(_) => r is Ok && r->Ok_0@ == self@.1,
                Err(e) => r == Err::<TransferMessage, E>(e),
            },
    {
        match moved {
            Ok(_) => Ok(self.message),
            Err(e) => Err(e),
        }
    }
}

/// An outbound transfer of a token that waits for the bridge: the token is
/// burnt, `message` goes to the bridge, and [`Erc721Transfer::settle`] takes
/// the bridge's answer. `burned` is what to publish once the bridge has taken
/// the message. The token as it was and its owner are kept for the case that
/// the bridge refuses.
#[derive(Debug)]
#[must_use]
pub struct Erc721Transfer {
    pub burned: crate::erc721::Event,
    pub message: TransferMessage,
    owner: AccountId,
    token: Erc721Token,
}

impl View for Erc721Transfer {
    type V = Erc721TransferView;

    closed spec fn view(&self) -> Erc721TransferView {
        Erc721TransferView {
            burned: self.burned,
            message: self.message@,
            owner: self.owner,
            token: self.token@,
        }
    }
}

impl Erc721Transfer {
    /// Takes the bridge's answer to the message. Where the bridge took it,
    /// the send is done: the registry stays as it is, and the result is the
    /// event of the burn. Where the bridge refused, the token is minted again
    /// in `registry`, as it was and for the owner it had, and the result is
    /// the bridge's refusal.
    pub fn settle<E>(self, registry: &mut crate::erc721::Pallet, submitted: Result<(), E>) -> (r:
        Result<crate::erc721::Event, E>)
        ensures
            final(registry)@.inv(),
            final(registry)@ == self@.settled(old(registry)@, submitted is Ok),
            match submitted {
                Ok(_) => r == Ok::<crate::erc721::Event, E>(self@.burned),
                Err(e) => r == Err::<crate::erc721::Event, E>(e),
            },
    {
        match submitted {
            Ok(_) => {
                proof {
                    use_type_invariant(&*registry);
                }
                Ok(self.burned)
            },
            Err(e) => {
                let _ = registry.mint_token(self.owner, self.token.id, self.token.metadata);
                Err(e)
            },
        }
    }
}

/// The entry points, with the resource identifiers they tag their messages
/// with.
#[derive(Clone, Copy, Debug)]
pub struct Pallet {
    pub config: Config,
}

impl Pallet {
    /// The entry points for the resource identifiers of `config`.
    pub fn new(config: Config) -> (pallet: Pallet)
        ensures
            pallet.config == config,
    {
        Pallet { config }
    }

    /// A signer sends `hash` to the chain `dest_id`: the result is the message
    /// for the bridge. Whether the bridge serves that chain is left to the
    /// bridge.
    pub fn transfer_hash(&self, origin: Origin, hash: Vec<u8>, dest_id: ChainId) -> (r: Result<
        TransferMessage,
        DispatchError,
    >)
        ensures
            match self.config.transfer_hash(origin, hash@, dest_id) {
                Ok(message) => r is Ok && r->Ok_0@ == message,
                Err(e) => r == Err::<TransferMessage, DispatchError>(e),
            },
    {
        if ensure_signed(origin).is_err() {
            return Err(DispatchError::BadOrigin);
        }
        Ok(TransferMessage::generic(dest_id, self.config.hash_id, hash))
    }

    /// A signer sends `amount` of the native currency to `recipient` on the
    /// chain `dest_id`: the result holds the debit for the currency and, for
    /// the currency's answer to it, the message for the bridge. `whitelisted`
    /// says whether the bridge serves that chain, `bridge_account` in which
    /// account the bridge keeps what it carries.
    pub fn transfer_native(
        &self,
        origin: Origin,
        amount: u128,
        recipient: Vec<u8>,
        dest_id: ChainId,
        whitelisted: bool,
        bridge_account: AccountId,
    ) -> (r: Result<NativeTransfer, DispatchError>)
        ensures
            match self.config.transfer_native(
                origin,
                amount,
                recipient@,
                dest_id,
                whitelisted,
                bridge_account,
            ) {
                Ok(transfer) => r is Ok && r->Ok_0@ == transfer,
                Err(e) => r == Err::<NativeTransfer, DispatchError>(e),
            },
    {
        let source = match ensure_signed(origin) {
            Ok(source) => source,
            Err(_) => {
                return Err(DispatchError::BadOrigin);
            },
        };
        if !whitelisted {
            return Err(DispatchError::Transfer(Error::InvalidTransfer));
        }
        let debit = BalanceMove { from: source, to: bridge_account, amount, allow_death: true };
        let message = TransferMessage::fungible(
            dest_id,
            self.config.native_token_id,
            recipient,
            U256::from_u128(amount),
        );
        Ok(NativeTransfer { debit, message })
    }

    /// A signer sends its token `token_id` to `recipient` on the chain
    /// `dest_id`: the token is burnt in `registry`, and the result holds the
    /// message for the bridge. `whitelisted` says whether the bridge serves
    /// that chain. The bridge's answer to the message goes to
    /// [`Erc721Transfer::settle`], which undoes the burn where the bridge
    /// refused.
    pub fn transfer_erc721(
        &self,
        registry: &mut crate::erc721::Pallet,
        origin: Origin,
        recipient: Vec<u8>,
        token_id: TokenId,
        dest_id: ChainId,
        whitelisted: bool,
    ) -> (r: Result<Erc721Transfer, DispatchError>)
        ensures
            final(registry)@.inv(),
            final(registry)@ == self.config.transfer_erc721(
                old(registry)@,
                origin,
                recipient@,
                token_id,
                dest_id,
                whitelisted,
            ).0,
            match self.config.transfer_erc721(
                old(registry)@,
                origin,
                recipient@,
                token_id,
                dest_id,
                whitelisted,
            ).1 {
                Ok(sent) => r is Ok && r->Ok_0@ == sent,
                Err(e) => r == Err::<Erc721Transfer, DispatchError>(e),
            },
    {
        proof {
            use_type_invariant(&*registry);
        }
        let source = match ensure_signed(origin) {
            Ok(source) => source,
            Err(_) => {
                return Err(DispatchError::BadOrigin);
            },
        };
        if !whitelisted {
            return Err(DispatchError::Transfer(Error::InvalidTransfer));
        }
        match registry.tokens(token_id) {
            Some(token) => {
                let burned = match registry.burn_token(source, token_id) {
                    Ok(burned) => burned,
                    Err(e) => {
                        return Err(DispatchError::Erc721(e));
                    },
                };
                let tid = token_id.to_big_endian();
                let mut tid_bytes: Vec<u8> = Vec::new();
                tid_bytes.extend_from_slice(tid.as_slice());
                assert(tid_bytes@ =~= big_endian(token_id@, 32));
                let message = TransferMessage::nonfungible(
                    dest_id,
                    self.config.erc721_id,
                    tid_bytes,
                    recipient,
                    token.metadata.clone(),
                );
                Ok(Erc721Transfer { burned, message, owner: source, token })
            },
            None => Err(DispatchError::Transfer(Error::InvalidTransfer)),
        }
    }

    /// The bridge credits `amount`, which came from another chain, to `to`:
    /// the result is the balance move for the currency, out of the bridge's
    /// account. `bridge_origin` is what the bridge's own test of the caller
    /// said: the bridge's account, or that the caller is not the bridge.
    pub fn transfer(
        &self,
        bridge_origin: Result<AccountId, BadOrigin>,
        to: AccountId,
        amount: u128,
        r_id: ResourceId,
    ) -> (r: Result<BalanceMove, DispatchError>)
        ensures
            r == self.config.transfer(bridge_origin, to, amount, r_id),
    {
        match bridge_origin {
            Ok(source) => Ok(BalanceMove { from: source, to, amount, allow_death: true }),
            Err(_) => Err(DispatchError::BadOrigin),
        }
    }

    /// The bridge brings `hash` from another chain. Nothing changes; the
    /// result is the event that says that the hash arrived.
    pub fn remark(
        &self,
        bridge_origin: Result<AccountId, BadOrigin>,
        hash: Vec<u8>,
        r_id: ResourceId,
    ) -> (r: Result<Event, DispatchError>)
        ensures
            match bridge_origin {
                Ok(_) => r matches Ok(Event::Remark(noted)) && noted@ == hash@,
                Err(_) => r == Err::<Event, DispatchError>(DispatchError::BadOrigin),
            },
    {
        match bridge_origin {
            Ok(_) => Ok(Event::Remark(hash)),
            Err(_) => Err(DispatchError::BadOrigin),
        }
    }

    /// The bridge brings the token `id` from another chain: it is minted for
    /// `recipient` in `registry`.
    pub fn mint_erc721(
        &self,
        registry: &mut crate::erc721::Pallet,
        bridge_origin: Result<AccountId, BadOrigin>,
        recipient: AccountId,
        id: TokenId,
        metadata: Vec<u8>,
        r_id: ResourceId,
    ) -> (r: Result<crate::erc721::Event, DispatchError>)
        ensures
            final(registry)@.inv(),
            final(registry)@ == self.config.mint_erc721(
                old(registry)@,
                bridge_origin,
                recipient,
                id,
                metadata@,
                r_id,
            ).0,
            r == self.config.mint_erc721(
                old(registry)@,
                bridge_origin,
                recipient,
                id,
                metadata@,
                r_id,
            ).1,
    {
        if bridge_origin.is_err() {
            proof {
                use_type_invariant(&*registry);
            }
            return Err(DispatchError::BadOrigin);
        }
        match registry.mint_token(recipient, id, metadata) {
            Ok(event) => Ok(event),
            Err(e) => Err(DispatchError::Erc721(e)),
        }
    }
}

} // verus!
