//! The user-account operations: each submodule holds one command's
//! arguments and assembles its ledger call plan.

pub mod create;
pub mod deposit;
pub mod deposit_auth_badge;
pub mod freeze_account;
pub mod login;
pub mod transfer_to;
pub mod unfreeze_account;
