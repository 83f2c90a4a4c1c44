//! The ways an escrow operation can be refused.
use vstd::prelude::*;

verus! {

/// Why an operation was refused. A refused operation changes nothing.
#[derive(Clone, Copy, Debug, PartialEq, Eq, Structural)]
pub enum M2Errors {
    /// A payment was requested by someone other than the promise's referee.
    WrongReferee,
    /// The account to be paid does not belong to the promise's beneficiary.
    WrongBeneficiary,
    /// A payment was requested after the promise's deadline.
    TimeLimitExceed,
    /// A reclamation was requested while the deadline had not yet passed.
    NotExpired,
    /// A user record already exists at the address derived from the slug.
    DuplicateUser,
    /// A transfer asked for more than its source holds.
    InsufficientFunds,
    /// The identity that authorises a step does not control the account it acts on.
    WrongAuthority,
    /// A transfer was asked between accounts of different asset types.
    WrongMint,
    /// A counter or a balance would no longer fit in 64 bits.
    Overflow,
    /// No bump seed yields a key-less address for the seeds.
    NoDerivedAddress,
}

impl M2Errors {
    /// The text shown to a caller for this error.
    pub open spec fn message_text(self) -> Seq<char> {
        match self {
            M2Errors::WrongReferee => "Wrong referee"@,
            M2Errors::WrongBeneficiary => "Wrong beneficiary"@,
            M2Errors::TimeLimitExceed => "Time Limit Exceed"@,
            M2Errors::NotExpired => "Not expired"@,
            M2Errors::DuplicateUser => "Duplicate user"@,
            M2Errors::InsufficientFunds => "Insufficient funds"@,
            M2Errors::WrongAuthority => "Wrong authority"@,
            M2Errors::WrongMint => "Wrong mint"@,
            M2Errors::Overflow => "Overflow"@,
            M2Errors::NoDerivedAddress => "No derived address"@,
        }
    }

    /// Returns the text shown to a caller for this error.
    pub fn message(&self) -> (text: &'static str)
        ensures
            text@ == self.message_text(),
    {
        match self {
            M2Errors::WrongReferee => "Wrong referee",
            M2Errors::WrongBeneficiary => "Wrong beneficiary",
            M2Errors::TimeLimitExceed => "Time Limit Exceed",
            M2Errors::NotExpired => "Not expired",
            M2Errors::DuplicateUser => "Duplicate user",
            M2Errors::InsufficientFunds => "Insufficient funds",
            M2Errors::WrongAuthority => "Wrong authority",
            M2Errors::WrongMint => "Wrong mint",
            M2Errors::Overflow => "Overflow",
            M2Errors::NoDerivedAddress => "No derived address",
        }
    }
}

} // verus!
