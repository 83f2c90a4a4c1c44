//! Token accounts and the transfer between them.
//!
//! The ledger moves tokens from one account to another in one step: it debits the source
//! and credits the destination, or it refuses and changes neither. This module holds the
//! balances the escrow reasons about and the rule by which a transfer is accepted.
use crate::errors::M2Errors;
use crate::identity::Key;
use vstd::prelude::*;

verus! {

/// A party's own token account: the source that funds a promise, or the destination of a
/// payment or of a reclamation.
#[derive(Clone, Copy, Debug, PartialEq, Eq)]
pub struct TokenWallet {
    /// The party that controls the account.
    pub owner: Key,
    /// The asset type the account holds.
    pub mint: Key,
    /// The balance.
    pub amount: u64,
}

/// The token account that holds the funds of one promise.
#[derive(Clone, Copy, Debug, PartialEq, Eq)]
pub struct Vault {
    /// The address at which the vault lives.
    pub address: Key,
    /// The identity that controls the vault. Once the promise exists this is the key-less
    /// address derived from the creator and the promise's number.
    pub authority: Key,
    /// The asset type the vault holds.
    pub mint: Key,
    /// The balance.
    pub amount: u64,
}

/// Why the ledger refuses to move `amount` tokens on the word of `signer`, if it does.
/// The first of these that applies decides: the source holds less than `amount`; the two
/// accounts hold different assets; `signer` does not control the source; the destination's
/// balance would no longer fit in 64 bits.
pub open spec fn transfer_refusal(
    source_amount: u64,
    source_mint: Key,
    source_owner: Key,
    target_amount: u64,
    target_mint: Key,
    signer: Key,
    amount: u64,
) -> Option<M2Errors> {
    if source_amount < amount {
        Some(M2Errors::InsufficientFunds)
    } else if source_mint != target_mint {
        Some(M2Errors::WrongMint)
    } else if source_owner != signer {
        Some(M2Errors::WrongAuthority)
    } else if target_amount + amount > u64::MAX {
        Some(M2Errors::Overflow)
    } else {
        None
    }
}

impl Vault {
    /// A new, empty vault for asset `mint` at `address`, controlled by `authority`.
    pub fn open(address: Key, mint: Key, authority: Key) -> (vault: Vault)
        ensures
            vault == (Vault { address, authority, mint, amount: 0 }),
    {
        Vault { address, authority, mint, amount: 0 }
    }

    /// Hands control of the vault to `new_authority`, on the word of `signer`. Refused with
    /// `WrongAuthority` exactly when `signer` does not control the vault.
    pub fn set_authority(&mut self, signer: &Key, new_authority: Key) -> (r: Result<(), M2Errors>)
        ensures
            r is Ok <==> old(self).authority == *signer,
            r is Err ==> r == Err::<(), M2Errors>(M2Errors::WrongAuthority),
            r is Ok ==> *final(self) == (Vault { authority: new_authority, ..*old(self) }),
            r is Err ==> *final(self) == *old(self),
    {
        if self.authority != *signer {
            return Err(M2Errors::WrongAuthority);
        }
        self.authority = new_authority;
        Ok(())
    }

    /// Whether the ledger moves `amount` tokens from `from` into the vault on the word of
    /// `signer`.
    pub open spec fn deposit_outcome(self, from: TokenWallet, signer: Key, amount: u64) -> Result<
        (),
        M2Errors,
    > {
        match transfer_refusal(
            from.amount,
            from.mint,
            from.owner,
            self.amount,
            self.mint,
            signer,
            amount,
        ) {
            Some(e) => Err(e),
            None => Ok(()),
        }
    }

    /// Whether the ledger moves `amount` tokens out of the vault into `to` on the word of
    /// `signer`.
    pub open spec fn release_outcome(self, to: TokenWallet, signer: Key, amount: u64) -> Result<
        (),
        M2Errors,
    > {
        match transfer_refusal(
            self.amount,
            self.mint,
            self.authority,
            to.amount,
            to.mint,
            signer,
            amount,
        ) {
            Some(e) => Err(e),
            None => Ok(()),
        }
    }

    /// Moves `amount` tokens from `from` into the vault on the word of `signer`, or refuses
    /// and changes nothing.
    pub fn deposit(&mut self, from: &mut TokenWallet, signer: &Key, amount: u64) -> (r: Result<
        (),
        M2Errors,
    >)
        ensures
            r == old(self).deposit_outcome(*old(from), *signer, amount),
            r is Ok ==> *final(self) == (Vault {
                amount: (old(self).amount + amount) as u64,
                ..*old(self)
            }) && *final(from) == (TokenWallet {
                amount: (old(from).amount - amount) as u64,
                ..*old(from)
            }),
            r is Err ==> *final(self) == *old(self) && *final(from) == *old(from),
    {
        if from.amount < amount {
            return Err(M2Errors::InsufficientFunds);
        }
        if from.mint != self.mint {
            return Err(M2Errors::WrongMint);
        }
        if from.owner != *signer {
            return Err(M2Errors::WrongAuthority);
        }
        if amount > u64::MAX - self.amount {
            return Err(M2Errors::Overflow);
        }
        from.amount = from.amount - amount;
        self.amount = self.amount + amount;
        Ok(())
    }

    /// Moves `amount` tokens out of the vault into `to` on the word of `signer`, or refuses
    /// and changes nothing.
    pub fn release(&mut self, to: &mut TokenWallet, signer: &Key, amount: u64) -> (r: Result<
        (),
        M2Errors,
    >)
        ensures
            r == old(self).release_outcome(*old(to), *signer, amount),
            r is Ok ==> *final(self) == (Vault {
                amount: (old(self).amount - amount) as u64,
                ..*old(self)
            }) && *final(to) == (TokenWallet {
                amount: (old(to).amount + amount) as u64,
                ..*old(to)
            }),
            r is Err ==> *final(self) == *old(self) && *final(to) == *old(to),
    {
        if self.amount < amount {
            return Err(M2Errors::InsufficientFunds);
        }
        if self.mint != to.mint {
            return Err(M2Errors::WrongMint);
        }
        if self.authority != *signer {
            return Err(M2Errors::WrongAuthority);
        }
        if amount > u64::MAX - to.amount {
            return Err(M2Errors::Overflow);
        }
        self.amount = self.amount - amount;
        to.amount = to.amount + amount;
        Ok(())
    }
}

} // verus!
