//! Who is calling: the capability that every operation receives.

use vstd::prelude::*;

verus! {

/// Identifier of an account.
pub type AccountId = u64;

/// The capability a caller presents to an operation.
#[derive(Clone, Copy, Debug, PartialEq, Eq, Structural)]
pub enum Origin {
    /// The privileged caller.
    Root,
    /// An authenticated account.
    Signed(AccountId),
    /// An anonymous caller.
    Anonymous,
}

impl Origin {
    /// The account behind a signed origin, if the origin is one.
    pub open spec fn signer(self) -> Option<AccountId> {
        match self {
            Origin::Signed(who) => Some(who),
            _ => None,
        }
    }

    /// Whether the origin holds the privileged capability.
    pub open spec fn is_root(self) -> bool {
        self is Root
    }
}

/// Returns the account of a signed origin, and `None` for every other origin.
pub fn ensure_signed(origin: Origin) -> (who: Option<AccountId>)
    ensures
        who == origin.signer(),
{
    match origin {
        Origin::Signed(who) => Some(who),
        _ => None,
    }
}

/// Tells whether the origin is the privileged one.
pub fn ensure_root(origin: Origin) -> (ok: bool)
    ensures
        ok == origin.is_root(),
{
    match origin {
        Origin::Root => true,
        _ => false,
    }
}

} // verus!
