use crate::keys::Key;
use vstd::prelude::*;

verus! {

/// A balance of one asset (its mint), held by an owner at an address.
#[derive(Clone, Copy, Debug)]
pub struct TokenAccount {
    pub key: Key,
    pub mint: Key,
    pub owner: Key,
    pub amount: u64,
}

impl TokenAccount {
    /// The account with its balance set to `amount`.
    pub open spec fn with_amount(self, amount: int) -> TokenAccount {
        TokenAccount { amount: amount as u64, ..self }
    }
}

/// Moves `amount` units from one balance to another. The caller has checked
/// the authority and the assets.
pub fn transfer(from: &mut TokenAccount, to: &mut TokenAccount, amount: u64)
    requires
        old(from).amount >= amount,
        old(to).amount + amount <= u64::MAX,
    ensures
        *final(from) == old(from).with_amount(old(from).amount - amount),
        *final(to) == old(to).with_amount(old(to).amount + amount),
{
    from.amount = from.amount - amount;
    to.amount = to.amount + amount;
}

} // verus!
