//! The two records the escrow keeps: one per registered user, one per promise.
use crate::identity::Key;
use vstd::prelude::*;
use vstd::string::StringSliceAdditionalSpecFns;

verus! {

/// Bytes that precede every stored record and tell its kind.
pub const DISCRIMINATOR_LENGTH: usize = 8;

/// Bytes of a stored identity.
pub const PUBLIC_KEY_LENGTH: usize = 32;

/// Bytes of a stored 64-bit number.
pub const U64_LENGTH: usize = 8;

/// Bytes that precede a stored string and give its length.
pub const STRING_PREFIX_LENGTH: usize = 4;

/// A registered party. Its counter numbers the promises it has created: promise number
/// `promise_count` is the next one, and no number is handed out twice.
#[derive(Clone, Debug, PartialEq, Eq)]
pub struct M2User {
    /// The routing slug, from which the record's own address is derived.
    pub slug: String,
    /// The display name.
    pub name: String,
    /// How many promises the party has created so far.
    pub promise_count: u64,
    /// The identity of the party that registered.
    pub user_pk: Key,
}

impl M2User {
    /// Stored size of a user record without its two strings.
    pub const LEN: usize = DISCRIMINATOR_LENGTH + U64_LENGTH + PUBLIC_KEY_LENGTH;

    /// Stored size of a user record whose name and slug have the given UTF-8 bytes.
    pub open spec fn spec_space(name: Seq<u8>, slug: Seq<u8>) -> nat {
        M2User::LEN as nat + 4 + slug.len() + 4 + name.len()
    }

    /// Returns the stored size of a user record with this name and this slug: the fixed
    /// part, and for each string a length prefix and its bytes.
    pub fn space(name: &str, slug: &str) -> (size: usize)
        requires
            M2User::spec_space(name.spec_bytes(), slug.spec_bytes()) <= usize::MAX,
        ensures
            size == M2User::spec_space(name.spec_bytes(), slug.spec_bytes()),
    {
        M2User::LEN + STRING_PREFIX_LENGTH + slug.len() + STRING_PREFIX_LENGTH + name.len()
    }
}

/// One escrow: who is to be paid, who may release the funds, until when, in which asset,
/// and how much is still locked of how much was locked at first.
#[derive(Clone, Copy, Debug, PartialEq, Eq)]
pub struct M2Promise {
    /// The party to be paid.
    pub beneficiary: Key,
    /// The deadline, in seconds of ledger time. Payments are accepted up to and including
    /// it; reclamation only after it.
    pub timeout: i64,
    /// The party that may release funds to the beneficiary.
    pub referee: Key,
    /// The amount still locked.
    pub amount: u64,
    /// The amount locked at creation.
    pub init_amount: u64,
    /// The asset type of the locked funds.
    pub mint: Key,
}

impl M2Promise {
    /// Stored size of a promise record.
    pub const LEN: usize = DISCRIMINATOR_LENGTH + PUBLIC_KEY_LENGTH + U64_LENGTH
        + PUBLIC_KEY_LENGTH + U64_LENGTH + U64_LENGTH + PUBLIC_KEY_LENGTH;

    /// No more is locked than was locked at creation.
    pub open spec fn wf(self) -> bool {
        self.amount <= self.init_amount
    }
}

} // verus!
