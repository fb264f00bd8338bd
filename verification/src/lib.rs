//! Authenticated JSON-RPC request dispatch: bearer-token authentication with
//! signed claims, a method router, a generic handler contract, the error
//! taxonomy that maps internal failures to protocol responses, and the
//! settings rows that back the settings handlers.

pub mod account;
pub mod cli;
pub mod coin;
pub mod daemon_client;
pub mod error;
pub mod handlers;
pub mod instructions;
pub mod rpc;
pub mod serialization;
pub mod settings;
pub mod strutil;
pub mod template_address;
pub mod types;
