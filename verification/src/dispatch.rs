//! Who calls, and how a call can fail.
//!
//! The host decides where a call comes from and hands that over as an
//! [`Origin`]. The entry points of this library test it with [`ensure_root`]
//! and [`ensure_signed`] before they touch any state.
use vstd::prelude::*;
use vstd::std_specs::cmp::PartialEqSpecImpl;

verus! {

/// An account of the host ledger: 32 bytes, compared byte by byte.
#[derive(Clone, Copy, Debug)]
pub struct AccountId(pub [u8; 32]);

impl PartialEq for AccountId {
    fn eq(&self, other: &AccountId) -> (r: bool) {
        let mut i: usize = 0;
        while i < 32
            invariant
                i <= 32,
                forall|j: int| 0 <= j < i ==> self.0[j] == other.0[j],
            decreases 32 - i,
        {
            if self.0[i] != other.0[i] {
                return false;
            }
            i += 1;
        }
        assert(self.0 =~= other.0);
        true
    }
}

impl Eq for AccountId {

}

impl PartialEqSpecImpl for AccountId {
    open spec fn obeys_eq_spec() -> bool {
        true
    }

    open spec fn eq_spec(&self, other: &AccountId) -> bool {
        *self == *other
    }
}

/// Where a call comes from.
#[derive(Clone, Copy, Debug, PartialEq, Eq)]
pub enum Origin {
    /// The host itself: the privileged caller.
    Root,
    /// An account that signed the call.
    Signed(AccountId),
    /// Nobody signed the call.
    Unsigned,
}

/// The caller is not the one that the entry point is open to.
#[derive(Clone, Copy, Debug, PartialEq, Eq)]
pub struct BadOrigin;

/// Why an entry point refused a call.
#[derive(Clone, Copy, Debug, PartialEq, Eq)]
pub enum DispatchError {
    /// The caller lacks the privilege that the entry point asks for.
    BadOrigin,
    /// The token registry refused.
    Erc721(crate::erc721::Error),
    /// The transfer was refused before anything was changed.
    Transfer(crate::orchestrator::Error),
}

impl Origin {
    /// The account that signed, where one did.
    pub open spec fn signer(self) -> Option<AccountId> {
        match self {
            Origin::Signed(who) => Some(who),
            _ => None,
        }
    }
}

/// Lets the privileged caller through and nobody else.
pub fn ensure_root(origin: Origin) -> (r: Result<(), BadOrigin>)
    ensures
        r is Ok <==> origin is Root,
{
    match origin {
        Origin::Root => Ok(()),
        _ => Err(BadOrigin),
    }
}

/// Lets a signed call through, with the account that signed it.
pub fn ensure_signed(origin: Origin) -> (r: Result<AccountId, BadOrigin>)
    ensures
        match origin.signer() {
            Some(who) => r == Ok::<AccountId, BadOrigin>(who),
            None => r is Err,
        },
{
    match origin {
        Origin::Signed(who) => Ok(who),
        _ => Err(BadOrigin),
    }
}

} // verus!
