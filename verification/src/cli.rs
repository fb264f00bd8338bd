//! The service-administration command surface: which command was asked for,
//! as plain data. Argument parsing itself is the host's work.

use vstd::prelude::*;

verus! {

/// The top-level command.
#[derive(Clone, Debug)]
pub enum Command {
    Issuer(IssuerSubcommand),
}

/// The issuer-administration subcommands.
#[derive(Clone, Debug)]
pub enum IssuerSubcommand {
    Init,
    Create(IssuerCreateSubcommand),
}

/// The arguments of issuer creation.
#[derive(Clone, Debug)]
pub struct IssuerCreateSubcommand {
    pub public_key: String,
}

} // verus!
