//! Creates accounts at addresses derived from a base account and a seed, and
//! hands them to an owner program of the caller's choice.

pub mod accounts;
pub mod address;
pub mod instruction;
pub mod program;

pub use accounts::{AccountView, CreateAccountWithOwner, Initialize};
pub use address::{derive_address, Address, DeriveError};
pub use instruction::{AccountMeta, Instruction};
pub use program::{create_account_with_owner, initialize};
