//! The stable-coin operations: each submodule holds one command's arguments
//! and assembles its ledger call plan.

pub mod blacklist_user;
pub mod create_new_admin;
pub mod create_new_user;
pub mod decrease_supply;
pub mod deposit;
pub mod get_user_data;
pub mod increase_supply;
pub mod instantiate;
pub mod login;
pub mod remove_from_blacklist;
pub mod set_user_data;
pub mod total_supply;
pub mod withdraw;
