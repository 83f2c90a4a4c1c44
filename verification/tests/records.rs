use m2::errors::M2Errors;
use m2::records::{DISCRIMINATOR_LENGTH, PUBLIC_KEY_LENGTH, STRING_PREFIX_LENGTH, U64_LENGTH};
use m2::{M2Promise, M2User};

#[test]
fn record_sizes() {
    assert_eq!(DISCRIMINATOR_LENGTH, 8);
    assert_eq!(PUBLIC_KEY_LENGTH, 32);
    assert_eq!(U64_LENGTH, 8);
    assert_eq!(STRING_PREFIX_LENGTH, 4);
    assert_eq!(M2User::LEN, 48);
    assert_eq!(M2Promise::LEN, 128);
}

#[test]
fn space_adds_prefixes_and_bytes() {
    assert_eq!(M2User::space("", ""), 56);
    assert_eq!(M2User::space("Alice", "alice"), 66);
    assert_eq!(M2User::space("ab", "cde"), 61);
    assert_eq!(M2User::space("é", ""), 58);
}

#[test]
fn error_messages() {
    assert_eq!(M2Errors::WrongReferee.message(), "Wrong referee");
    assert_eq!(M2Errors::WrongBeneficiary.message(), "Wrong beneficiary");
    assert_eq!(M2Errors::TimeLimitExceed.message(), "Time Limit Exceed");
    assert_eq!(M2Errors::NotExpired.message(), "Not expired");
    assert_eq!(M2Errors::DuplicateUser.message(), "Duplicate user");
    assert_eq!(M2Errors::InsufficientFunds.message(), "Insufficient funds");
    assert_eq!(M2Errors::WrongAuthority.message(), "Wrong authority");
    assert_eq!(M2Errors::WrongMint.message(), "Wrong mint");
    assert_eq!(M2Errors::Overflow.message(), "Overflow");
    assert_eq!(M2Errors::NoDerivedAddress.message(), "No derived address");
}
