//! A conditional-payment escrow: a payer locks tokens in a vault, a referee releases them
//! to the beneficiary until a deadline, and what is left after the deadline can be swept
//! to a fallback destination.
pub mod errors;
pub mod identity;
pub mod instructions;
pub mod laws;
pub mod records;
pub mod registry;
pub mod vault;

pub use crate::errors::M2Errors;
pub use crate::identity::Key;
pub use crate::instructions::{
    collect_broken_promises, collect_broken_promises_with, init_promise, init_promise_with,
    init_user, pay, pay_with, CollectFailure, IniPromise, IniUser, Pay,
};
pub use crate::records::{M2Promise, M2User};
pub use crate::registry::UserRegistry;
pub use crate::vault::{TokenWallet, Vault};
