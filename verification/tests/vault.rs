use m2::{Key, M2Errors, TokenWallet, Vault};

fn vt_key(b: u8) -> Key {
    Key { bytes: [b; 32] }
}

fn vt_wallet(owner: u8, mint: u8, amount: u64) -> TokenWallet {
    TokenWallet { owner: vt_key(owner), mint: vt_key(mint), amount }
}

fn vt_vault(authority: u8, mint: u8, amount: u64) -> Vault {
    Vault { address: vt_key(authority), authority: vt_key(authority), mint: vt_key(mint), amount }
}

#[test]
fn open_gives_an_empty_vault() {
    let vault = Vault::open(vt_key(1), vt_key(2), vt_key(3));
    assert_eq!(
        vault,
        Vault { address: vt_key(1), mint: vt_key(2), authority: vt_key(3), amount: 0 }
    );
}

#[test]
fn set_authority_needs_the_current_authority() {
    let mut vault = vt_vault(1, 9, 10);
    assert_eq!(vault.set_authority(&vt_key(2), vt_key(3)), Err(M2Errors::WrongAuthority));
    assert_eq!(vault, vt_vault(1, 9, 10));
    assert_eq!(vault.set_authority(&vt_key(1), vt_key(3)), Ok(()));
    assert_eq!(
        vault,
        Vault { address: vt_key(1), authority: vt_key(3), mint: vt_key(9), amount: 10 }
    );
    assert_eq!(vault.set_authority(&vt_key(1), vt_key(4)), Err(M2Errors::WrongAuthority));
}

#[test]
fn deposit_moves_the_amount() {
    let mut vault = vt_vault(1, 9, 10);
    let mut from = vt_wallet(5, 9, 100);
    assert_eq!(vault.deposit(&mut from, &vt_key(5), 30), Ok(()));
    assert_eq!(vault, vt_vault(1, 9, 40));
    assert_eq!(from, vt_wallet(5, 9, 70));
    assert_eq!(vault.deposit(&mut from, &vt_key(5), 70), Ok(()));
    assert_eq!(vault.amount, 110);
    assert_eq!(from.amount, 0);
    assert_eq!(vault.deposit(&mut from, &vt_key(5), 0), Ok(()));
}

#[test]
fn deposit_refusals_in_order() {
    let mut vault = vt_vault(1, 9, 10);
    let mut from = vt_wallet(5, 8, 100);
    assert_eq!(vault.deposit(&mut from, &vt_key(6), 101), Err(M2Errors::InsufficientFunds));
    assert_eq!(vault.deposit(&mut from, &vt_key(6), 100), Err(M2Errors::WrongMint));
    from.mint = vt_key(9);
    assert_eq!(vault.deposit(&mut from, &vt_key(6), 100), Err(M2Errors::WrongAuthority));
    vault.amount = u64::MAX - 99;
    assert_eq!(vault.deposit(&mut from, &vt_key(5), 100), Err(M2Errors::Overflow));
    assert_eq!(vault, vt_vault(1, 9, u64::MAX - 99));
    assert_eq!(from, vt_wallet(5, 9, 100));
    assert_eq!(vault.deposit(&mut from, &vt_key(5), 99), Ok(()));
    assert_eq!(vault.amount, u64::MAX);
    assert_eq!(from.amount, 1);
}

#[test]
fn release_moves_the_amount() {
    let mut vault = vt_vault(1, 9, 1000);
    let mut to = vt_wallet(5, 9, 7);
    assert_eq!(vault.release(&mut to, &vt_key(1), 400), Ok(()));
    assert_eq!(vault, vt_vault(1, 9, 600));
    assert_eq!(to, vt_wallet(5, 9, 407));
}

#[test]
fn release_refusals_in_order() {
    let mut vault = vt_vault(1, 9, 600);
    let mut to = vt_wallet(5, 8, u64::MAX);
    assert_eq!(vault.release(&mut to, &vt_key(2), 700), Err(M2Errors::InsufficientFunds));
    assert_eq!(vault.release(&mut to, &vt_key(2), 600), Err(M2Errors::WrongMint));
    to.mint = vt_key(9);
    assert_eq!(vault.release(&mut to, &vt_key(2), 600), Err(M2Errors::WrongAuthority));
    assert_eq!(vault.release(&mut to, &vt_key(1), 1), Err(M2Errors::Overflow));
    assert_eq!(vault, vt_vault(1, 9, 600));
    assert_eq!(to, vt_wallet(5, 9, u64::MAX));
    assert_eq!(vault.release(&mut to, &vt_key(1), 0), Ok(()));
}

#[test]
fn the_owner_of_a_vault_address_does_not_control_it() {
    let mut vault =
        Vault { address: vt_key(1), authority: vt_key(2), mint: vt_key(9), amount: 5 };
    let mut to = vt_wallet(5, 9, 0);
    assert_eq!(vault.release(&mut to, &vt_key(1), 5), Err(M2Errors::WrongAuthority));
    assert_eq!(vault.release(&mut to, &vt_key(2), 5), Ok(()));
}
