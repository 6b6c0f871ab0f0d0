//! The token registry.
//!
//! A token is a 256-bit identifier with some bytes of metadata. The registry
//! knows which tokens exist, who owns each of them and how many there are.
//! Tokens come into being by [`Pallet::mint_token`], change hands by
//! [`Pallet::transfer_from`] and end by [`Pallet::burn_token`]; a call that is
//! refused changes nothing. What a successful call has to tell the world is
//! its result, an [`Event`].
//!
//! The contracts speak of the registry through its view, a [`State`], and say
//! of each call that it does what the function of the same name on `State`
//! does.
use crate::dispatch::{ensure_root, ensure_signed, AccountId, DispatchError, Origin};
use crate::storage::TokenMap;
use crate::uint::U256;
use vstd::prelude::*;

verus! {

/// What names a token.
pub type TokenId = U256;

/// A token: its identifier and the metadata it was minted with.
#[derive(PartialEq, Eq, Clone, Debug)]
pub struct Erc721Token {
    pub id: TokenId,
    pub metadata: Vec<u8>,
}

/// A token as a mathematical value.
pub struct TokenView {
    pub id: TokenId,
    pub metadata: Seq<u8>,
}

impl View for Erc721Token {
    type V = TokenView;

    open spec fn view(&self) -> TokenView {
        TokenView { id: self.id, metadata: self.metadata@ }
    }
}

/// What the configuration of a registry holds.
#[derive(Clone, Copy, Debug, PartialEq, Eq)]
pub struct Config {
    /// A name for this kind of token, as the bridge may know it. The registry
    /// keeps it and does nothing with it.
    pub identifier: [u8; 32],
}

/// What a successful call has to tell.
#[derive(Clone, Copy, Debug, PartialEq, Eq)]
pub enum Event {
    /// A token was created for an owner.
    Minted(AccountId, TokenId),
    /// A token went from its owner to another account.
    Transferred(AccountId, AccountId, TokenId),
    /// A token was destroyed.
    Burned(TokenId),
}

/// Why the registry refused a call.
#[derive(Clone, Copy, Debug, PartialEq, Eq)]
pub enum Error {
    /// No token has this identifier.
    TokenIdDoesNotExist,
    /// A token with this identifier exists, and has an owner.
    TokenAlreadyExists,
    /// The account is not the owner of the token.
    NotOwner,
}

/// The registry as a mathematical value: its configuration, the tokens by
/// identifier, the owner of each, and the supply counter.
#[verifier::ext_equal]
pub struct State {
    pub config: Config,
    pub tokens: Map<TokenId, TokenView>,
    pub owners: Map<TokenId, AccountId>,
    pub count: nat,
}

impl State {
    /// What holds of every registry: the tokens are finitely many, each is
    /// filed under its own identifier, a token has an owner if and only if it
    /// exists, and the counter is the number of tokens.
    pub open spec fn inv(self) -> bool {
        &&& self.tokens.dom().finite()
        &&& self.tokens.dom() == self.owners.dom()
        &&& self.count == self.tokens.dom().len()
        &&& forall|id: TokenId| self.tokens.contains_key(id) ==> (#[trigger] self.tokens[id]).id == id
    }

    /// The registry without any token.
    pub open spec fn empty(config: Config) -> State {
        State { config, tokens: Map::empty(), owners: Map::empty(), count: 0 }
    }

    /// The token `id`, if it exists.
    pub open spec fn token(self, id: TokenId) -> Option<TokenView> {
        if self.tokens.contains_key(id) {
            Some(self.tokens[id])
        } else {
            None
        }
    }

    /// The owner of the token `id`, if it exists.
    pub open spec fn owner_of(self, id: TokenId) -> Option<AccountId> {
        if self.owners.contains_key(id) {
            Some(self.owners[id])
        } else {
            None
        }
    }

    /// Creating the token `id` for `owner`: refused where `id` exists.
    pub open spec fn mint_token(self, owner: AccountId, id: TokenId, metadata: Seq<u8>) -> (
        State,
        Result<Event, Error>,
    ) {
        if self.tokens.contains_key(id) {
            (self, Err(Error::TokenAlreadyExists))
        } else {
            (
                State {
                    config: self.config,
                    tokens: self.tokens.insert(id, TokenView { id, metadata }),
                    owners: self.owners.insert(id, owner),
                    count: self.count + 1,
                },
                Ok(Event::Minted(owner, id)),
            )
        }
    }

    /// Handing the token `id` from `from` to `to`: refused where `id` does not
    /// exist, and where `from` does not own it.
    pub open spec fn transfer_from(self, from: AccountId, to: AccountId, id: TokenId) -> (
        State,
        Result<Event, Error>,
    ) {
        if !self.owners.contains_key(id) {
            (self, Err(Error::TokenIdDoesNotExist))
        } else if self.owners[id] != from {
            (self, Err(Error::NotOwner))
        } else {
            (
                State {
                    config: self.config,
                    tokens: self.tokens,
                    owners: self.owners.insert(id, to),
                    count: self.count,
                },
                Ok(Event::Transferred(from, to, id)),
            )
        }
    }

    /// Destroying the token `id` of `from`: refused where `id` does not exist,
    /// and where `from` does not own it.
    pub open spec fn burn_token(self, from: AccountId, id: TokenId) -> (
        State,
        Result<Event, Error>,
    ) {
        if !self.owners.contains_key(id) {
            (self, Err(Error::TokenIdDoesNotExist))
        } else if self.owners[id] != from {
            (self, Err(Error::NotOwner))
        } else {
            (
                State {
                    config: self.config,
                    tokens: self.tokens.remove(id),
                    owners: self.owners.remove(id),
                    count: (self.count - 1) as nat,
                },
                Ok(Event::Burned(id)),
            )
        }
    }

    /// A registry call as an entry point sees it: the same result, with the
    /// registry's refusal as a [`DispatchError`].
    pub open spec fn dispatched(step: (State, Result<Event, Error>)) -> (
        State,
        Result<Event, DispatchError>,
    ) {
        match step.1 {
            Ok(event) => (step.0, Ok(event)),
            Err(e) => (step.0, Err(DispatchError::Erc721(e))),
        }
    }

    /// The entry point that mints: open to the privileged caller only.
    pub open spec fn mint(self, origin: Origin, owner: AccountId, id: TokenId, metadata: Seq<u8>) -> (
        State,
        Result<Event, DispatchError>,
    ) {
        if origin is Root {
            Self::dispatched(self.mint_token(owner, id, metadata))
        } else {
            (self, Err(DispatchError::BadOrigin))
        }
    }

    /// The entry point that transfers: the signer hands over a token of its
    /// own.
    pub open spec fn transfer(self, origin: Origin, to: AccountId, id: TokenId) -> (
        State,
        Result<Event, DispatchError>,
    ) {
        match origin.signer() {
            Some(sender) => Self::dispatched(self.transfer_from(sender, to, id)),
            None => (self, Err(DispatchError::BadOrigin)),
        }
    }

    /// The entry point that burns: the privileged caller destroys a token,
    /// whoever owns it.
    pub open spec fn burn(self, origin: Origin, id: TokenId) -> (
        State,
        Result<Event, DispatchError>,
    ) {
        if !(origin is Root) {
            (self, Err(DispatchError::BadOrigin))
        } else {
            match self.owner_of(id) {
                Some(owner) => Self::dispatched(self.burn_token(owner, id)),
                None => (self, Err(DispatchError::Erc721(Error::TokenIdDoesNotExist))),
            }
        }
    }

    /// The registry without any token keeps the invariant.
    pub proof fn lemma_empty_inv(config: Config)
        ensures
            State::empty(config).inv(),
    {
        assert(State::empty(config).tokens.dom() =~= Set::<TokenId>::empty());
        assert(State::empty(config).owners.dom() =~= Set::<TokenId>::empty());
    }

    /// Whatever is asked of a registry, what comes of it keeps the invariant:
    /// every token has exactly one owner, no identifier stands twice, and the
    /// counter is the number of tokens.
    pub proof fn lemma_calls_keep_inv(
        self,
        origin: Origin,
        from: AccountId,
        to: AccountId,
        id: TokenId,
        metadata: Seq<u8>,
    )
        requires
            self.inv(),
        ensures
            self.mint_token(to, id, metadata).0.inv(),
            self.transfer_from(from, to, id).0.inv(),
            self.burn_token(from, id).0.inv(),
            self.mint(origin, to, id, metadata).0.inv(),
            self.transfer(origin, to, id).0.inv(),
            self.burn(origin, id).0.inv(),
    {
        let minted = self.mint_token(to, id, metadata).0;
        assert(minted.tokens.dom() =~= minted.owners.dom());
        let moved = self.transfer_from(from, to, id).0;
        assert(moved.tokens.dom() =~= moved.owners.dom());
        let burnt = self.burn_token(from, id).0;
        assert(burnt.tokens.dom() =~= burnt.owners.dom());
        if self.owners.contains_key(id) {
            assert(self.tokens.dom().contains(id));
            assert(self.tokens.dom().remove(id).len() + 1 == self.tokens.dom().len());
            let by_root = self.burn_token(self.owners[id], id).0;
            assert(by_root.tokens.dom() =~= by_root.owners.dom());
        }
        if origin.signer() is Some {
            let by_signer = self.transfer_from(origin.signer()->Some_0, to, id).0;
            assert(by_signer.tokens.dom() =~= by_signer.owners.dom());
        }
    }

    /// A call that is refused leaves the registry as it was.
    pub proof fn lemma_refusal_changes_nothing(
        self,
        origin: Origin,
        from: AccountId,
        to: AccountId,
        id: TokenId,
        metadata: Seq<u8>,
    )
        ensures
            self.mint_token(to, id, metadata).1 is Err ==> self.mint_token(to, id, metadata).0
                == self,
            self.transfer_from(from, to, id).1 is Err ==> self.transfer_from(from, to, id).0
                == self,
            self.burn_token(from, id).1 is Err ==> self.burn_token(from, id).0 == self,
            self.mint(origin, to, id, metadata).1 is Err ==> self.mint(origin, to, id, metadata).0
                == self,
            self.transfer(origin, to, id).1 is Err ==> self.transfer(origin, to, id).0 == self,
            self.burn(origin, id).1 is Err ==> self.burn(origin, id).0 == self,
    {
    }

    /// Minting and burning are for the privileged caller, and a transfer is
    /// for a signer: any other caller is refused with
    /// [`DispatchError::BadOrigin`], and the registry is as it was.
    pub proof fn lemma_entry_points_are_gated(
        self,
        origin: Origin,
        to: AccountId,
        id: TokenId,
        metadata: Seq<u8>,
    )
        ensures
            !(origin is Root) ==> self.mint(origin, to, id, metadata) == (
                self,
                Err::<Event, DispatchError>(DispatchError::BadOrigin),
            ),
            !(origin is Root) ==> self.burn(origin, id) == (
                self,
                Err::<Event, DispatchError>(DispatchError::BadOrigin),
            ),
            !(origin is Signed) ==> self.transfer(origin, to, id) == (
                self,
                Err::<Event, DispatchError>(DispatchError::BadOrigin),
            ),
    {
    }

    /// After a token was minted it is there, with the metadata it was minted
    /// with and the owner it was minted for, and there is one token more
    /// than before. Every other token is as it was.
    pub proof fn lemma_minted_token_is_there(self, owner: AccountId, id: TokenId, metadata: Seq<u8>)
        requires
            self.inv(),
            self.mint_token(owner, id, metadata).1 is Ok,
        ensures
            self.mint_token(owner, id, metadata).0.token(id) == Some(TokenView { id, metadata }),
            self.mint_token(owner, id, metadata).0.owner_of(id) == Some(owner),
            self.mint_token(owner, id, metadata).0.count == self.count + 1,
            self.mint_token(owner, id, metadata).0.tokens.dom().len() == self.tokens.dom().len()
                + 1,
            forall|other: TokenId|
                other != id ==> #[trigger] self.mint_token(owner, id, metadata).0.token(other)
                    == self.token(other),
            forall|other: TokenId|
                other != id ==> #[trigger] self.mint_token(owner, id, metadata).0.owner_of(other)
                    == self.owner_of(other),
    {
    }

    /// A transfer changes the owner of one token and nothing else: the token
    /// has its new owner, every token has the metadata it had, every other
    /// token has the owner it had, and the counter stands.
    pub proof fn lemma_transfer_moves_one_token(
        self,
        from: AccountId,
        to: AccountId,
        id: TokenId,
    )
        requires
            self.transfer_from(from, to, id).1 is Ok,
        ensures
            self.owner_of(id) == Some(from),
            self.transfer_from(from, to, id).0.owner_of(id) == Some(to),
            self.transfer_from(from, to, id).0.tokens == self.tokens,
            self.transfer_from(from, to, id).0.count == self.count,
            forall|other: TokenId|
                other != id ==> #[trigger] self.transfer_from(from, to, id).0.owner_of(other)
                    == self.owner_of(other),
    {
    }

    /// After a token was burnt it is gone, and so is the record of its owner;
    /// there is one token less than before, and every other token is as it
    /// was.
    pub proof fn lemma_burnt_token_is_gone(self, from: AccountId, id: TokenId)
        requires
            self.inv(),
            self.burn_token(from, id).1 is Ok,
        ensures
            self.owner_of(id) == Some(from),
            self.burn_token(from, id).0.token(id) is None,
            self.burn_token(from, id).0.owner_of(id) is None,
            self.burn_token(from, id).0.count + 1 == self.count,
            self.burn_token(from, id).0.tokens.dom().len() + 1 == self.tokens.dom().len(),
            forall|other: TokenId|
                other != id ==> #[trigger] self.burn_token(from, id).0.token(other) == self.token(
                    other,
                ),
            forall|other: TokenId|
                other != id ==> #[trigger] self.burn_token(from, id).0.owner_of(other)
                    == self.owner_of(other),
    {
        assert(self.tokens.dom().contains(id));
        assert(self.tokens.dom().remove(id).len() + 1 == self.tokens.dom().len());
    }

    /// An identifier cannot be minted twice: the second call is refused with
    /// [`Error::TokenAlreadyExists`], whoever asks and with whatever
    /// metadata, and the token and its owner stay as the first call made them.
    pub proof fn lemma_second_mint_is_refused(
        self,
        owner: AccountId,
        id: TokenId,
        metadata: Seq<u8>,
        other_owner: AccountId,
        other_metadata: Seq<u8>,
    )
        requires
            self.mint_token(owner, id, metadata).1 is Ok,
        ensures
            self.mint_token(owner, id, metadata).0.mint_token(other_owner, id, other_metadata) == (
                self.mint_token(owner, id, metadata).0,
                Err::<Event, Error>(Error::TokenAlreadyExists),
            ),
    {
    }

    /// An account that does not own a token cannot hand it over: the call is
    /// refused with [`Error::NotOwner`], and every token keeps its owner.
    pub proof fn lemma_transfer_by_other_is_refused(
        self,
        from: AccountId,
        to: AccountId,
        id: TokenId,
    )
        requires
            self.owner_of(id) is Some,
            self.owner_of(id) != Some(from),
        ensures
            self.transfer_from(from, to, id) == (self, Err::<Event, Error>(Error::NotOwner)),
    {
    }

    /// An identifier is free again once its token was burnt: it can be minted
    /// anew, and nothing of the old token is left. The new token has the new
    /// metadata and the new owner, and there are as many tokens as before the
    /// burn.
    pub proof fn lemma_burn_then_mint(
        self,
        from: AccountId,
        id: TokenId,
        owner: AccountId,
        metadata: Seq<u8>,
    )
        requires
            self.inv(),
            self.burn_token(from, id).1 is Ok,
        ensures
            self.burn_token(from, id).0.token(id) is None,
            self.burn_token(from, id).0.owner_of(id) is None,
            self.burn_token(from, id).0.count + 1 == self.count,
            self.burn_token(from, id).0.mint_token(owner, id, metadata).1 == Ok::<Event, Error>(
                Event::Minted(owner, id),
            ),
            self.burn_token(from, id).0.mint_token(owner, id, metadata).0.token(id) == Some(
                TokenView { id, metadata },
            ),
            self.burn_token(from, id).0.mint_token(owner, id, metadata).0.owner_of(id) == Some(
                owner,
            ),
            self.burn_token(from, id).0.mint_token(owner, id, metadata).0.count == self.count,
    {
        assert(self.tokens.dom().contains(id));
        assert(self.tokens.dom().remove(id).len() + 1 == self.tokens.dom().len());
    }
}

/// What a registry holds.
struct Ledger {
    config: Config,
    tokens: TokenMap<Erc721Token>,
    token_owner: TokenMap<AccountId>,
    token_count: U256,
}

impl View for Ledger {
    type V = State;

    closed spec fn view(&self) -> State {
        State {
            config: self.config,
            tokens: Map::new(
                |id: TokenId| self.tokens@.contains_key(id),
                |id: TokenId| self.tokens@[id]@,
            ),
            owners: self.token_owner@,
            count: self.token_count@,
        }
    }
}

impl Ledger {
    /// A ledger without any token.
    fn new(config: Config) -> (ledger: Ledger)
        ensures
            ledger@ == State::empty(config),
            ledger@.inv(),
    {
        let ledger = Ledger {
            config,
            tokens: TokenMap::new(),
            token_owner: TokenMap::new(),
            token_count: U256::zero(),
        };
        assert(ledger@.tokens =~= Map::<TokenId, TokenView>::empty());
        assert(ledger@ =~= State::empty(config));
        proof {
            State::lemma_empty_inv(config);
        }
        ledger
    }
}

/// The registry. Its state keeps [`State::inv`]: that holds of every value of
/// this type, and every function below says so of what it leaves behind.
pub struct Pallet {
    ledger: Ledger,
}

impl View for Pallet {
    type V = State;

    closed spec fn view(&self) -> State {
        self.ledger@
    }
}

impl Pallet {
    /// What holds of every registry: its state keeps [`State::inv`].
    #[verifier::type_invariant]
    pub open spec fn wf(self) -> bool {
        self@.inv()
    }

    /// A registry without any token.
    pub fn new(config: Config) -> (registry: Pallet)
        ensures
            registry@ == State::empty(config),
            registry@.inv(),
    {
        Pallet { ledger: Ledger::new(config) }
    }

    /// The configuration that the registry was made with.
    pub fn config(&self) -> (config: Config)
        ensures
            config == self@.config,
    {
        self.ledger.config
    }

    /// The token `id`, if it exists.
    pub fn tokens(&self, id: TokenId) -> (r: Option<Erc721Token>)
        ensures
            self@.inv(),
            match r {
                Some(token) => self@.token(id) == Some(token@),
                None => self@.token(id) is None,
            },
    {
        proof {
            use_type_invariant(self);
        }
        match self.ledger.tokens.get(&id) {
            Some(token) => Some(Erc721Token { id: token.id, metadata: token.metadata.clone() }),
            None => None,
        }
    }

    /// The owner of the token `id`, if it exists.
    pub fn owner_of(&self, id: TokenId) -> (r: Option<AccountId>)
        ensures
            self@.inv(),
            r == self@.owner_of(id),
    {
        proof {
            use_type_invariant(self);
        }
        match self.ledger.token_owner.get(&id) {
            Some(owner) => Some(*owner),
            None => None,
        }
    }

    /// The supply counter: how many tokens exist.
    pub fn token_count(&self) -> (count: U256)
        ensures
            self@.inv(),
            count@ == self@.count,
            count@ == self@.tokens.dom().len(),
    {
        proof {
            use_type_invariant(self);
        }
        self.ledger.token_count
    }

    /// Creates the token `id` with `metadata` and gives it to `owner`.
    pub fn mint_token(&mut self, owner: AccountId, id: TokenId, metadata: Vec<u8>) -> (r: Result<
        Event,
        Error,
    >)
        ensures
            final(self)@.inv(),
            final(self)@ == old(self)@.mint_token(owner, id, metadata@).0,
            r == old(self)@.mint_token(owner, id, metadata@).1,
    {
        proof {
            use_type_invariant(&*self);
        }
        if self.ledger.tokens.contains_key(&id) {
            return Err(Error::TokenAlreadyExists);
        }
        let ghost before = self@;
        proof {
            use_type_invariant(&self.ledger.tokens);
            self.ledger.tokens.lemma_finite();
            assert(before.tokens.dom() =~= self.ledger.tokens@.dom());
        }
        // The ledger leaves the registry while it changes: what stays behind
        // is the empty ledger, which is sound too.
        let mut ledger = Ledger::new(self.ledger.config);
        core::mem::swap(&mut ledger, &mut self.ledger);
        ledger.tokens.insert(id, Erc721Token { id, metadata });
        ledger.token_owner.insert(id, owner);
        ledger.token_count = ledger.token_count.saturating_add(U256::one());
        proof {
            let after = before.mint_token(owner, id, metadata@).0;
            assert(ledger@.tokens =~= after.tokens);
            assert(ledger@ =~= after);
            before.lemma_calls_keep_inv(Origin::Root, owner, owner, id, metadata@);
        }
        self.ledger = ledger;
        Ok(Event::Minted(owner, id))
    }

    /// Makes `to` the owner of the token `id`, which `from` owns.
    pub fn transfer_from(&mut self, from: AccountId, to: AccountId, id: TokenId) -> (r: Result<
        Event,
        Error,
    >)
        ensures
            final(self)@.inv(),
            final(self)@ == old(self)@.transfer_from(from, to, id).0,
            r == old(self)@.transfer_from(from, to, id).1,
    {
        proof {
            use_type_invariant(&*self);
        }
        let owner = match self.owner_of(id) {
            Some(owner) => owner,
            None => {
                return Err(Error::TokenIdDoesNotExist);
            },
        };
        if owner != from {
            return Err(Error::NotOwner);
        }
        let ghost before = self@;
        let mut ledger = Ledger::new(self.ledger.config);
        core::mem::swap(&mut ledger, &mut self.ledger);
        ledger.token_owner.insert(id, to);
        proof {
            let after = before.transfer_from(from, to, id).0;
            assert(ledger@.tokens =~= after.tokens);
            assert(ledger@ =~= after);
            before.lemma_calls_keep_inv(Origin::Root, from, to, id, Seq::empty());
        }
        self.ledger = ledger;
        Ok(Event::Transferred(from, to, id))
    }

    /// Destroys the token `id`, which `from` owns.
    pub fn burn_token(&mut self, from: AccountId, id: TokenId) -> (r: Result<Event, Error>)
        ensures
            final(self)@.inv(),
            final(self)@ == old(self)@.burn_token(from, id).0,
            r == old(self)@.burn_token(from, id).1,
    {
        proof {
            use_type_invariant(&*self);
        }
        let owner = match self.owner_of(id) {
            Some(owner) => owner,
            None => {
                return Err(Error::TokenIdDoesNotExist);
            },
        };
        if owner != from {
            return Err(Error::NotOwner);
        }
        let ghost before = self@;
        let mut ledger = Ledger::new(self.ledger.config);
        core::mem::swap(&mut ledger, &mut self.ledger);
        ledger.tokens.remove(&id);
        ledger.token_owner.remove(&id);
        ledger.token_count = ledger.token_count.saturating_sub(U256::one());
        proof {
            let after = before.burn_token(from, id).0;
            before.lemma_burnt_token_is_gone(from, id);
            assert(ledger@.tokens =~= after.tokens);
            assert(ledger@ =~= after);
            before.lemma_calls_keep_inv(Origin::Root, from, from, id, Seq::empty());
        }
        self.ledger = ledger;
        Ok(Event::Burned(id))
    }

    /// Entry point: the privileged caller creates the token `id` for `owner`.
    pub fn mint(&mut self, origin: Origin, owner: AccountId, id: TokenId, metadata: Vec<u8>) -> (r:
        Result<Event, DispatchError>)
        ensures
            final(self)@.inv(),
            final(self)@ == old(self)@.mint(origin, owner, id, metadata@).0,
            r == old(self)@.mint(origin, owner, id, metadata@).1,
    {
        if ensure_root(origin).is_err() {
            proof {
                use_type_invariant(&*self);
            }
            return Err(DispatchError::BadOrigin);
        }
        match self.mint_token(owner, id, metadata) {
            Ok(event) => Ok(event),
            Err(e) => Err(DispatchError::Erc721(e)),
        }
    }

    /// Entry point: the signer hands its token `id` to `to`.
    pub fn transfer(&mut self, origin: Origin, to: AccountId, id: TokenId) -> (r: Result<
        Event,
        DispatchError,
    >)
        ensures
            final(self)@.inv(),
            final(self)@ == old(self)@.transfer(origin, to, id).0,
            r == old(self)@.transfer(origin, to, id).1,
    {
        let sender = match ensure_signed(origin) {
            Ok(sender) => sender,
            Err(_) => {
                proof {
                    use_type_invariant(&*self);
                }
                return Err(DispatchError::BadOrigin);
            },
        };
        match self.transfer_from(sender, to, id) {
            Ok(event) => Ok(event),
            Err(e) => Err(DispatchError::Erc721(e)),
        }
    }

    /// Entry point: the privileged caller destroys the token `id`.
    pub fn burn(&mut self, origin: Origin, id: TokenId) -> (r: Result<Event, DispatchError>)
        ensures
            final(self)@.inv(),
            final(self)@ == old(self)@.burn(origin, id).0,
            r == old(self)@.burn(origin, id).1,
    {
        if ensure_root(origin).is_err() {
            proof {
                use_type_invariant(&*self);
            }
            return Err(DispatchError::BadOrigin);
        }
        let owner = match self.owner_of(id) {
            Some(owner) => owner,
            None => {
                return Err(DispatchError::Erc721(Error::TokenIdDoesNotExist));
            },
        };
        match self.burn_token(owner, id) {
            Ok(event) => Ok(event),
            Err(e) => Err(DispatchError::Erc721(e)),
        }
    }
}

} // verus!
