//! Creating a user account from the account template.

use crate::instructions::{CallArg, CallPlan, InstructionPlan};
use vstd::prelude::*;

verus! {

/// The arguments of `create`.
#[derive(Clone, Debug)]
pub struct Command {
    pub issuer_component: String,
    pub user_public_key: String,
    pub admin_proof: String,
}

impl Command {
    /// The call plan: one call of the template's `create` function with the
    /// three arguments in order, needing no declared inputs.
    pub fn plan(&self, template: &str) -> (r: CallPlan)
        ensures
            r.instructions@.len() == 1,
            r.instructions@[0] matches InstructionPlan::CallFunction { template: t, function, args }
                && t@ == template@ && function@ == "create"@ && args@.len() == 3 && (args@[0]
                matches CallArg::Text(a) && a@ == self.issuer_component@) && (args@[1] matches
                CallArg::Text(a) && a@ == self.user_public_key@) && (args@[2] matches
                CallArg::Text(a) && a@ == self.admin_proof@),
            r.inputs@.len() == 0,
    {
        let mut args: Vec<CallArg> = Vec::new();
        args.push(CallArg::Text(self.issuer_component.clone()));
        args.push(CallArg::Text(self.user_public_key.clone()));
        args.push(CallArg::Text(self.admin_proof.clone()));
        let mut instructions: Vec<InstructionPlan> = Vec::new();
        instructions.push(
            InstructionPlan::CallFunction {
                template: template.to_owned(),
                function: "create".to_owned(),
                args,
            },
        );
        CallPlan { instructions, inputs: Vec::new() }
    }
}

} // verus!
