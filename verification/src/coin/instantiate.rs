//! Instantiating the stable-coin template.

use crate::instructions::{CallArg, CallPlan, InstructionPlan};
use vstd::prelude::*;

verus! {

/// The arguments of `instantiate`.
#[derive(Clone, Debug)]
pub struct Command {
    pub initial_token_supply: String,
    pub token_symbol: String,
    pub token_metadata: String,
}

impl Command {
    /// The call plan: one call of the template's `instantiate` function with
    /// the three arguments in order, needing no declared inputs.
    pub fn plan(&self, template: &str) -> (r: CallPlan)
        ensures
            r.instructions@.len() == 1,
            r.instructions@[0] matches InstructionPlan::CallFunction { template: t, function, args }
                && t@ == template@ && function@ == "instantiate"@ && args@.len() == 3 && (args@[0]
                matches CallArg::Text(a) && a@ == self.initial_token_supply@) && (args@[1] matches
                CallArg::Text(a) && a@ == self.token_symbol@) && (args@[2] matches CallArg::Text(a)
                && a@ == self.token_metadata@),
            r.inputs@.len() == 0,
    {
        let mut args: Vec<CallArg> = Vec::new();
        args.push(CallArg::Text(self.initial_token_supply.clone()));
        args.push(CallArg::Text(self.token_symbol.clone()));
        args.push(CallArg::Text(self.token_metadata.clone()));
        let mut instructions: Vec<InstructionPlan> = Vec::new();
        instructions.push(
            InstructionPlan::CallFunction {
                template: template.to_owned(),
                function: "instantiate".to_owned(),
                args,
            },
        );
        CallPlan { instructions, inputs: Vec::new() }
    }
}

} // verus!
