//! What holds of the escrow whatever the inputs: the balances after creation, the
//! conservation of funds over any run of payments, the two sides of the deadline, and the
//! one-record-per-slug rule of the registry.
use crate::errors::M2Errors;
use crate::identity::{
    derived_address, lemma_be_bytes_injective, spec_slug_seed, spec_user_seeds, spec_vault_seeds,
    Key,
};
use crate::instructions::{CollectFailure, IniPromise, Pay};
use crate::records::M2User;
use crate::registry::{keyed_by_slug, registration_outcome};
use vstd::utf8::encode_utf8;
use vstd::prelude::*;

verus! {

/// No two vaults share their seeds: the seed tuple tells the owner and the counter value it
/// was built from. Since every creation advances the owner's counter, the seeds of one
/// promise are never those of another.
pub proof fn lemma_vault_seeds_injective(owner: Key, sequence: u64, other: Key, other_sequence: u64)
    requires
        spec_vault_seeds(owner, sequence) == spec_vault_seeds(other, other_sequence),
    ensures
        owner == other,
        sequence == other_sequence,
{
    let a = spec_vault_seeds(owner, sequence);
    let b = spec_vault_seeds(other, other_sequence);
    assert(a[1] == b[1] && a[2] == b[2]);
    Key::lemma_view_injective(owner, other);
    lemma_be_bytes_injective(sequence, other_sequence);
}

/// Right after a promise is created the vault holds exactly the amount asked for, and the
/// record shows that amount both as still locked and as locked at first. The vault lives
/// at the derived address and only that address controls it.
pub proof fn lemma_creation_locks_amount(
    ctx: IniPromise,
    timeout: i64,
    referee: Key,
    amount: u64,
    derived: Option<(Key, u8)>,
)
    requires
        ctx.outcome(amount, derived) is Ok,
    ensures
        derived matches Some((authority, _)) && ({
            let after = ctx.created(timeout, referee, amount, authority);
            &&& after.promise_wallet.amount == amount
            &&& after.promise.amount == amount
            &&& after.promise.init_amount == amount
            &&& after.promise.wf()
            &&& after.promise_wallet.address == authority
            &&& after.promise_wallet.authority == authority
            &&& after.fund_wallet.amount + amount == ctx.fund_wallet.amount
            &&& after.user.promise_count == ctx.user.promise_count + 1
        }),
{
}

/// One payment of a run: the state it was asked on, and what was asked.
pub struct Payment {
    pub before: Pay,
    pub amount: u64,
    pub promise_id: u64,
    pub now: i64,
}

impl Payment {
    /// Whether the payment is made.
    pub open spec fn succeeds(self) -> bool {
        self.before.outcome(
            self.amount,
            self.now,
            derived_address(
                spec_vault_seeds(self.before.promise.beneficiary, self.promise_id),
                self.before.program_id,
            ),
        ) is Ok
    }

    /// The state the payment leaves.
    pub open spec fn after(self) -> Pay {
        self.before.paid(self.amount)
    }
}

/// A run of payments on one promise: each is made, and each finds the promise and its
/// vault as the payment before it left them. Who asks, at what time and which account is
/// paid may differ from one payment to the next.
pub open spec fn is_run(run: Seq<Payment>) -> bool {
    &&& forall|i: int| 0 <= i < run.len() ==> (#[trigger] run[i]).succeeds()
    &&& forall|i: int|
        0 < i < run.len() ==> (#[trigger] run[i]).before.promise == run[i - 1].after().promise
            && run[i].before.promise_wallet == run[i - 1].after().promise_wallet
}

/// The sum of the amounts of the first `n` payments of a run.
pub open spec fn total_paid(run: Seq<Payment>, n: nat) -> int
    decreases n,
{
    if n == 0 {
        0
    } else {
        total_paid(run, (n - 1) as nat) + run[n - 1].amount
    }
}

/// Over any run of payments that starts on a promise as its creation left it, what has
/// been paid and what the vault still holds add up to the amount locked at first, after
/// every payment of the run. The record's current amount is the vault's balance
/// throughout, and neither the amount it shows as locked at first nor its deadline ever
/// changes.
pub proof fn lemma_payments_conserve(run: Seq<Payment>, n: nat)
    requires
        is_run(run),
        0 < n <= run.len(),
        run[0].before.promise_wallet.amount == run[0].before.promise.amount,
        run[0].before.promise.amount == run[0].before.promise.init_amount,
    ensures
        total_paid(run, n) + run[n - 1].after().promise_wallet.amount
            == run[0].before.promise.init_amount,
        run[n - 1].after().promise.amount == run[n - 1].after().promise_wallet.amount,
        run[n - 1].after().promise.init_amount == run[0].before.promise.init_amount,
        run[n - 1].after().promise.timeout == run[0].before.promise.timeout,
        run[n - 1].after().promise.wf(),
    decreases n,
{
    assert(run[n - 1].succeeds());
    if n == 1 {
        assert(total_paid(run, 1) == total_paid(run, 0) + run[0].amount);
    } else {
        lemma_payments_conserve(run, (n - 1) as nat);
        assert(run[n - 1].before.promise == run[n - 2].after().promise);
    }
}

/// A payment is refused with `WrongReferee` exactly when the party that asks is not the
/// recorded referee, whatever else is asked and whenever.
pub proof fn lemma_only_the_referee_pays(
    ctx: Pay,
    amount: u64,
    now: i64,
    derived: Option<(Key, u8)>,
)
    ensures
        ctx.sender != ctx.promise.referee <==> ctx.outcome(amount, now, derived) == Err::<
            (),
            M2Errors,
        >(M2Errors::WrongReferee),
{
}

/// The deadline is the last moment for a payment. After it no payment is made, and one
/// asked by the referee for the beneficiary's account is refused with `TimeLimitExceed`.
/// At the deadline itself a payment fares as it would at any earlier time.
pub proof fn lemma_payment_deadline(
    ctx: Pay,
    amount: u64,
    now: i64,
    earlier: i64,
    derived: Option<(Key, u8)>,
)
    requires
        earlier <= ctx.promise.timeout,
    ensures
        now > ctx.promise.timeout ==> ctx.outcome(amount, now, derived) is Err,
        now > ctx.promise.timeout && ctx.sender == ctx.promise.referee
            && ctx.beneficiary_token_account.owner == ctx.promise.beneficiary ==> ctx.outcome(
            amount,
            now,
            derived,
        ) == Err::<(), M2Errors>(M2Errors::TimeLimitExceed),
        ctx.outcome(amount, ctx.promise.timeout, derived) == ctx.outcome(amount, earlier, derived),
        ctx.outcome(amount, ctx.promise.timeout, derived) != Err::<(), M2Errors>(
            M2Errors::TimeLimitExceed,
        ),
{
}

/// A reclamation is refused with `NotExpired` exactly when the deadline has not passed:
/// at the deadline itself the funds still wait for the beneficiary.
pub proof fn lemma_reclamation_deadline(ctx: CollectFailure, now: i64, derived: Option<(Key, u8)>)
    ensures
        now <= ctx.promise.timeout <==> ctx.outcome(now, derived) == Err::<(), M2Errors>(
            M2Errors::NotExpired,
        ),
{
}

/// Once the deadline has passed, a reclamation from a vault that holds something, that
/// lives at the derived address and is controlled by it, into a destination of the same
/// asset whose balance has room, is made, whoever asks, whatever the destination and
/// whatever the record shows as locked: it empties the vault and credits the destination
/// with all that the vault held.
pub proof fn lemma_reclamation_empties_vault(
    ctx: CollectFailure,
    now: i64,
    authority: Key,
    bump: u8,
)
    requires
        now > ctx.promise.timeout,
        ctx.promise_wallet.address == authority,
        ctx.promise_wallet.authority == authority,
        ctx.promise_wallet.mint == ctx.destination_wallet.mint,
        ctx.promise_wallet.amount > 0,
        ctx.destination_wallet.amount + ctx.promise_wallet.amount <= u64::MAX,
    ensures
        ctx.outcome(now, Some((authority, bump))) is Ok,
        ctx.reclaimed().promise_wallet.amount == 0,
        ctx.reclaimed().destination_wallet.amount == ctx.destination_wallet.amount
            + ctx.promise_wallet.amount,
        ctx.reclaimed().promise == ctx.promise,
{
}

/// Every reclamation that is made leaves the vault empty, and a vault that is empty is
/// never swept: once a promise has been reclaimed, or paid out in full, a further
/// reclamation is refused, with `InsufficientFunds` where nothing else stands against it.
pub proof fn lemma_reclamation_happens_once(
    ctx: CollectFailure,
    now: i64,
    again: i64,
    derived: Option<(Key, u8)>,
)
    ensures
        ctx.outcome(now, derived) is Ok ==> ctx.reclaimed().promise_wallet.amount == 0,
        ctx.promise_wallet.amount == 0 ==> ctx.outcome(now, derived) is Err,
        ctx.outcome(now, derived) is Ok && again > ctx.promise.timeout ==> ctx.reclaimed().outcome(
            again,
            derived,
        ) == Err::<(), M2Errors>(M2Errors::InsufficientFunds),
{
}

/// Funds leave a vault only on the word of the authority derived anew for the operation.
/// A payment or a reclamation is made only if an address could be derived from the
/// recorded beneficiary and the promise number asked for, and that address controls the
/// vault. A payment also needs the account named as authority to be that address, and a
/// reclamation needs the vault to live at it. So an operation asked under a promise number
/// or for a beneficiary that derives another address is refused.
pub proof fn lemma_funds_leave_on_derived_authority(
    payment: Pay,
    amount: u64,
    reclamation: CollectFailure,
    now: i64,
    derived: Option<(Key, u8)>,
)
    ensures
        payment.outcome(amount, now, derived) is Ok ==> (derived matches Some((authority, _))
            && payment.promise_wallet.authority == authority && payment.authority == authority),
        reclamation.outcome(now, derived) is Ok ==> (derived matches Some((authority, _))
            && reclamation.promise_wallet.authority == authority
            && reclamation.promise_wallet.address == authority),
{
}

/// No slug is registered twice. Once a registration under a slug has been accepted, every
/// later one under that slug, or under any slug with the same first 32 bytes, is refused
/// with `DuplicateUser`, whoever asks and however many other users have registered since.
pub proof fn lemma_one_record_per_slug(
    users: Map<Key, M2User>,
    first: M2User,
    later: Map<Key, M2User>,
    slug: Seq<u8>,
    again: Seq<u8>,
    program_id: Key,
)
    requires
        spec_slug_seed(slug) == spec_slug_seed(again),
        registration_outcome(users, derived_address(spec_user_seeds(slug), program_id)) is Ok,
        users.insert(
            registration_outcome(users, derived_address(spec_user_seeds(slug), program_id))->Ok_0,
            first,
        ).dom().subset_of(later.dom()),
    ensures
        registration_outcome(later, derived_address(spec_user_seeds(again), program_id)) == Err::<
            Key,
            M2Errors,
        >(M2Errors::DuplicateUser),
{
    let address = registration_outcome(
        users,
        derived_address(spec_user_seeds(slug), program_id),
    )->Ok_0;
    assert(users.insert(address, first).dom().contains(address));
}

/// In a registry keyed by slug no two records share a slug: two records at different
/// addresses have slugs that differ, and differ within their first 32 bytes.
pub proof fn lemma_slugs_are_distinct(
    users: Map<Key, M2User>,
    program_id: Key,
    one: Key,
    other: Key,
)
    requires
        keyed_by_slug(users, program_id),
        users.dom().contains(one),
        users.dom().contains(other),
        one != other,
    ensures
        spec_slug_seed(encode_utf8(users[one].slug@)) != spec_slug_seed(
            encode_utf8(users[other].slug@),
        ),
        users[one].slug@ != users[other].slug@,
{
}

/// In a registry keyed by slug, a registration under the slug of a record that is there,
/// or under any slug with the same first 32 bytes, is refused with `DuplicateUser`,
/// whoever asks and under whatever name.
pub proof fn lemma_taken_slug_is_refused(
    users: Map<Key, M2User>,
    program_id: Key,
    taken: Key,
    again: Seq<u8>,
)
    requires
        keyed_by_slug(users, program_id),
        users.dom().contains(taken),
        spec_slug_seed(encode_utf8(users[taken].slug@)) == spec_slug_seed(again),
    ensures
        registration_outcome(users, derived_address(spec_user_seeds(again), program_id)) == Err::<
            Key,
            M2Errors,
        >(M2Errors::DuplicateUser),
{
}

} // verus!
