//! The four operations of the escrow, each on the records and accounts it touches.
//!
//! An operation either completes, and then every change it makes is visible, or it is
//! refused, and then nothing has changed. Each checks everything before it changes
//! anything.
use crate::errors::M2Errors;
use crate::identity::{derived_address, spec_vault_seeds, vault_authority, Key};
use crate::records::{M2Promise, M2User};
use crate::vault::{transfer_refusal, TokenWallet, Vault};
use vstd::prelude::*;

verus! {

/// What registering a user touches.
#[derive(Clone, Debug, PartialEq, Eq)]
pub struct IniUser {
    /// The record to fill.
    pub user: M2User,
    /// The party that registers.
    pub sender: Key,
}

/// What creating a promise touches.
#[derive(Clone, Debug, PartialEq, Eq)]
pub struct IniPromise {
    /// The promise record to fill.
    pub promise: M2Promise,
    /// The asset type to lock.
    pub mint: Key,
    /// The vault to open.
    pub promise_wallet: Vault,
    /// The account the funds come from.
    pub fund_wallet: TokenWallet,
    /// The creator's user record.
    pub user: M2User,
    /// The party that creates the promise.
    pub sender: Key,
    /// The program under which addresses are derived.
    pub program_id: Key,
}

/// What a payment touches.
#[derive(Clone, Copy, Debug, PartialEq, Eq)]
pub struct Pay {
    /// The promise paid from.
    pub promise: M2Promise,
    /// The party that asks for the payment.
    pub sender: Key,
    /// The promise's vault.
    pub promise_wallet: Vault,
    /// The account to be paid.
    pub beneficiary_token_account: TokenWallet,
    /// The account named as the vault's authority.
    pub authority: Key,
    /// The program under which addresses are derived.
    pub program_id: Key,
}

/// What a reclamation touches.
#[derive(Clone, Copy, Debug, PartialEq, Eq)]
pub struct CollectFailure {
    /// The promise that was not kept.
    pub promise: M2Promise,
    /// The promise's vault.
    pub promise_wallet: Vault,
    /// The account that receives what is left.
    pub destination_wallet: TokenWallet,
    /// The party that asks for the reclamation.
    pub sender: Key,
    /// The program under which addresses are derived.
    pub program_id: Key,
}

/// Registers the sender: fills the record with the name, the slug, a counter of zero and
/// the sender's identity. Never refused: whether a record may be created under the slug
/// is decided where the record is allotted, by `UserRegistry::register`.
pub fn init_user(ctx: &mut IniUser, name: String, slug: String) -> (r: Result<(), M2Errors>)
    ensures
        r is Ok,
        final(ctx).user == (M2User { slug, name, promise_count: 0, user_pk: old(ctx).sender }),
        final(ctx).sender == old(ctx).sender,
{
    ctx.user.name = name;
    ctx.user.slug = slug;
    ctx.user.promise_count = 0;
    ctx.user.user_pk = ctx.sender;
    Ok(())
}

impl IniPromise {
    /// Whether a promise of `amount` is created, given the address derived for its vault.
    /// The first of these that applies refuses it: the sender is not the registrant of the
    /// user record; no address could be derived; the funding account cannot pay `amount`
    /// on the sender's word into an empty vault of the asset; the user's counter is at its
    /// last value.
    pub open spec fn outcome(self, amount: u64, derived: Option<(Key, u8)>) -> Result<
        (),
        M2Errors,
    > {
        if self.user.user_pk != self.sender {
            Err(M2Errors::WrongAuthority)
        } else {
            match derived {
                None => Err(M2Errors::NoDerivedAddress),
                Some((authority, _)) => match transfer_refusal(
                    self.fund_wallet.amount,
                    self.fund_wallet.mint,
                    self.fund_wallet.owner,
                    0,
                    self.mint,
                    self.sender,
                    amount,
                ) {
                    Some(e) => Err(e),
                    None => if self.user.promise_count == u64::MAX {
                        Err(M2Errors::Overflow)
                    } else {
                        Ok(())
                    },
                },
            }
        }
    }

    /// The state after a promise of `amount` was created with the vault at `authority`:
    /// the record names the sender as beneficiary and `amount` both as still locked and as
    /// locked at first; the vault lives at `authority`, is controlled by it and holds
    /// `amount`; the funding account holds `amount` less; the user's counter is one more.
    pub open spec fn created(
        self,
        timeout: i64,
        referee: Key,
        amount: u64,
        authority: Key,
    ) -> IniPromise {
        IniPromise {
            promise: M2Promise {
                beneficiary: self.sender,
                timeout,
                referee,
                amount,
                init_amount: amount,
                mint: self.mint,
            },
            promise_wallet: Vault { address: authority, authority, mint: self.mint, amount },
            fund_wallet: TokenWallet {
                amount: (self.fund_wallet.amount - amount) as u64,
                ..self.fund_wallet
            },
            user: M2User {
                promise_count: (self.user.promise_count + 1) as u64,
                ..self.user
            },
            ..self
        }
    }
}

/// Creates a promise of `amount` with the given deadline and referee, given the address
/// derived for the vault of the sender's next promise. Opens the vault at that address
/// under the sender's control, hands its control to that address, moves `amount` from the
/// funding account into it on the sender's word, fills the promise record and advances
/// the user's counter.
pub fn init_promise_with(
    ctx: &mut IniPromise,
    timeout: i64,
    referee: Key,
    amount: u64,
    derived: Option<(Key, u8)>,
) -> (r: Result<(), M2Errors>)
    ensures
        r == old(ctx).outcome(amount, derived),
        r is Ok ==> (derived matches Some((authority, _)) && *final(ctx) == old(ctx).created(
            timeout,
            referee,
            amount,
            authority,
        )),
        r is Ok ==> final(ctx).promise_wallet.amount == amount && final(ctx).promise.amount
            == amount && final(ctx).promise.init_amount == amount,
        r is Err ==> *final(ctx) == *old(ctx),
{
    if ctx.user.user_pk != ctx.sender {
        return Err(M2Errors::WrongAuthority);
    }
    let authority = match derived {
        None => {
            return Err(M2Errors::NoDerivedAddress);
        },
        Some((authority, _)) => authority,
    };
    let mut vault = Vault::open(authority, ctx.mint, ctx.sender);
    match vault.set_authority(&ctx.sender, authority) {
        Err(e) => {
            return Err(e);
        },
        Ok(()) => {},
    }
    let mut fund = ctx.fund_wallet;
    match vault.deposit(&mut fund, &ctx.sender, amount) {
        Err(e) => {
            return Err(e);
        },
        Ok(()) => {},
    }
    if ctx.user.promise_count == u64::MAX {
        return Err(M2Errors::Overflow);
    }
    ctx.promise = M2Promise {
        beneficiary: ctx.sender,
        timeout,
        referee,
        amount,
        init_amount: amount,
        mint: ctx.mint,
    };
    ctx.promise_wallet = vault;
    ctx.fund_wallet = fund;
    ctx.user.promise_count = ctx.user.promise_count + 1;
    Ok(())
}

/// Creates a promise of `amount` with the given deadline and referee. The vault's address
/// and authority are derived from the sender and the user's counter.
pub fn init_promise(ctx: &mut IniPromise, timeout: i64, referee: Key, amount: u64) -> (r: Result<
    (),
    M2Errors,
>)
    ensures
        r == old(ctx).outcome(
            amount,
            derived_address(
                spec_vault_seeds(old(ctx).sender, old(ctx).user.promise_count),
                old(ctx).program_id,
            ),
        ),
        r is Ok ==> (derived_address(
            spec_vault_seeds(old(ctx).sender, old(ctx).user.promise_count),
            old(ctx).program_id,
        ) matches Some((authority, _)) && *final(ctx) == old(ctx).created(
            timeout,
            referee,
            amount,
            authority,
        )),
        r is Ok ==> final(ctx).promise_wallet.amount == amount && final(ctx).promise.amount
            == amount && final(ctx).promise.init_amount == amount,
        r is Err ==> *final(ctx) == *old(ctx),
{
    let derived = vault_authority(&ctx.sender, ctx.user.promise_count, &ctx.program_id);
    init_promise_with(ctx, timeout, referee, amount, derived)
}

impl Pay {
    /// Whether a payment of `amount` at time `now` is made, given the address derived for
    /// the vault's authority. The first of these that applies refuses it: the sender is
    /// not the referee; the account to be paid is not the beneficiary's; the deadline has
    /// passed; less than `amount` is still locked; no address could be derived; the
    /// account named as authority is not at the derived address; the ledger refuses to
    /// move `amount` out of the vault on that authority's word.
    pub open spec fn outcome(self, amount: u64, now: i64, derived: Option<(Key, u8)>) -> Result<
        (),
        M2Errors,
    > {
        if self.sender != self.promise.referee {
            Err(M2Errors::WrongReferee)
        } else if self.beneficiary_token_account.owner != self.promise.beneficiary {
            Err(M2Errors::WrongBeneficiary)
        } else if self.promise.timeout < now {
            Err(M2Errors::TimeLimitExceed)
        } else if self.promise.amount < amount {
            Err(M2Errors::InsufficientFunds)
        } else {
            match derived {
                None => Err(M2Errors::NoDerivedAddress),
                Some((authority, _)) => if self.authority != authority {
                    Err(M2Errors::WrongAuthority)
                } else {
                    self.promise_wallet.release_outcome(
                        self.beneficiary_token_account,
                        authority,
                        amount,
                    )
                },
            }
        }
    }

    /// The state after a payment of `amount`: the promise has `amount` less locked, the
    /// vault holds `amount` less and the paid account `amount` more.
    pub open spec fn paid(self, amount: u64) -> Pay {
        Pay {
            promise: M2Promise {
                amount: (self.promise.amount - amount) as u64,
                ..self.promise
            },
            promise_wallet: Vault {
                amount: (self.promise_wallet.amount - amount) as u64,
                ..self.promise_wallet
            },
            beneficiary_token_account: TokenWallet {
                amount: (self.beneficiary_token_account.amount + amount) as u64,
                ..self.beneficiary_token_account
            },
            ..self
        }
    }
}

/// Pays `amount` out of the vault to the beneficiary's account at time `now`, given the
/// address derived for the vault's authority.
pub fn pay_with(ctx: &mut Pay, amount: u64, now: i64, derived: Option<(Key, u8)>) -> (r: Result<
    (),
    M2Errors,
>)
    ensures
        r == old(ctx).outcome(amount, now, derived),
        r is Ok ==> *final(ctx) == old(ctx).paid(amount),
        r is Err ==> *final(ctx) == *old(ctx),
        old(ctx).sender != old(ctx).promise.referee ==> r == Err::<(), M2Errors>(
            M2Errors::WrongReferee,
        ),
{
    if ctx.sender != ctx.promise.referee {
        return Err(M2Errors::WrongReferee);
    }
    if ctx.beneficiary_token_account.owner != ctx.promise.beneficiary {
        return Err(M2Errors::WrongBeneficiary);
    }
    if ctx.promise.timeout < now {
        return Err(M2Errors::TimeLimitExceed);
    }
    if ctx.promise.amount < amount {
        return Err(M2Errors::InsufficientFunds);
    }
    let authority = match derived {
        None => {
            return Err(M2Errors::NoDerivedAddress);
        },
        Some((authority, _)) => authority,
    };
    if ctx.authority != authority {
        return Err(M2Errors::WrongAuthority);
    }
    match ctx.promise_wallet.release(&mut ctx.beneficiary_token_account, &authority, amount) {
        Err(e) => {
            return Err(e);
        },
        Ok(()) => {},
    }
    ctx.promise.amount = ctx.promise.amount - amount;
    Ok(())
}

/// Pays `amount` out of the vault of promise number `promise_id` to the beneficiary's
/// account at time `now`. The vault's authority is derived anew from the recorded
/// beneficiary and `promise_id`; where these are not what the vault was created with, the
/// derived authority does not control the vault and the ledger refuses. No other test
/// ties the record to the vault handed in.
pub fn pay(ctx: &mut Pay, amount: u64, promise_id: u64, now: i64) -> (r: Result<(), M2Errors>)
    ensures
        r == old(ctx).outcome(
            amount,
            now,
            derived_address(
                spec_vault_seeds(old(ctx).promise.beneficiary, promise_id),
                old(ctx).program_id,
            ),
        ),
        r is Ok ==> *final(ctx) == old(ctx).paid(amount),
        r is Err ==> *final(ctx) == *old(ctx),
        old(ctx).sender != old(ctx).promise.referee ==> r == Err::<(), M2Errors>(
            M2Errors::WrongReferee,
        ),
{
    let derived = vault_authority(&ctx.promise.beneficiary, promise_id, &ctx.program_id);
    pay_with(ctx, amount, now, derived)
}

impl CollectFailure {
    /// Whether the vault is swept at time `now`, given the address derived for the vault's
    /// authority. The first of these that applies refuses it: the deadline has not passed;
    /// no address could be derived; the vault does not live at the derived address; the
    /// vault is empty; the ledger refuses to move the vault's whole balance out of it on
    /// that authority's word.
    pub open spec fn outcome(self, now: i64, derived: Option<(Key, u8)>) -> Result<(), M2Errors> {
        if self.promise.timeout >= now {
            Err(M2Errors::NotExpired)
        } else {
            match derived {
                None => Err(M2Errors::NoDerivedAddress),
                Some((authority, _)) => if self.promise_wallet.address != authority {
                    Err(M2Errors::WrongAuthority)
                } else if self.promise_wallet.amount == 0 {
                    Err(M2Errors::InsufficientFunds)
                } else {
                    self.promise_wallet.release_outcome(
                        self.destination_wallet,
                        authority,
                        self.promise_wallet.amount,
                    )
                },
            }
        }
    }

    /// The state after a reclamation: the vault is empty and the destination holds what
    /// the vault held on top of its own. The record is as before: only payments change it.
    pub open spec fn reclaimed(self) -> CollectFailure {
        CollectFailure {
            promise_wallet: Vault { amount: 0, ..self.promise_wallet },
            destination_wallet: TokenWallet {
                amount: (self.destination_wallet.amount + self.promise_wallet.amount) as u64,
                ..self.destination_wallet
            },
            ..self
        }
    }
}

/// Sweeps the whole balance of the vault to the destination at time `now`, given the
/// address derived for the vault's authority. Any party may ask, and may name any
/// destination. The amount is never the caller's choice: it is what the vault holds. A
/// vault that holds nothing is not swept again.
pub fn collect_broken_promises_with(
    ctx: &mut CollectFailure,
    now: i64,
    derived: Option<(Key, u8)>,
) -> (r: Result<(), M2Errors>)
    ensures
        r == old(ctx).outcome(now, derived),
        r is Ok ==> *final(ctx) == old(ctx).reclaimed(),
        r is Ok ==> final(ctx).promise_wallet.amount == 0
            && final(ctx).destination_wallet.amount == old(ctx).destination_wallet.amount + old(
            ctx,
        ).promise_wallet.amount,
        r is Err ==> *final(ctx) == *old(ctx),
{
    if ctx.promise.timeout >= now {
        return Err(M2Errors::NotExpired);
    }
    let authority = match derived {
        None => {
            return Err(M2Errors::NoDerivedAddress);
        },
        Some((authority, _)) => authority,
    };
    if ctx.promise_wallet.address != authority {
        return Err(M2Errors::WrongAuthority);
    }
    let balance = ctx.promise_wallet.amount;
    if balance == 0 {
        return Err(M2Errors::InsufficientFunds);
    }
    ctx.promise_wallet.release(&mut ctx.destination_wallet, &authority, balance)
}

/// Sweeps the whole balance of the vault of promise number `promise_id` to the destination
/// at time `now`. Any party may ask, and may name any destination: the only conditions
/// are that the deadline has passed, that the authority derived from the recorded
/// beneficiary and `promise_id` is the vault's own, and that the vault holds something.
/// No other test ties the record to the vault handed in.
pub fn collect_broken_promises(ctx: &mut CollectFailure, promise_id: u64, now: i64) -> (r: Result<
    (),
    M2Errors,
>)
    ensures
        r == old(ctx).outcome(
            now,
            derived_address(
                spec_vault_seeds(old(ctx).promise.beneficiary, promise_id),
                old(ctx).program_id,
            ),
        ),
        r is Ok ==> *final(ctx) == old(ctx).reclaimed(),
        r is Ok ==> final(ctx).promise_wallet.amount == 0
            && final(ctx).destination_wallet.amount == old(ctx).destination_wallet.amount + old(
            ctx,
        ).promise_wallet.amount,
        r is Err ==> *final(ctx) == *old(ctx),
{
    let derived = vault_authority(&ctx.promise.beneficiary, promise_id, &ctx.program_id);
    collect_broken_promises_with(ctx, now, derived)
}

} // verus!
