//! Withdrawing coins from the component.

use crate::instructions::{single_method_call, CallArg, CallPlan, InstructionPlan};
use vstd::prelude::*;

verus! {

/// The arguments of `withdraw`.
#[derive(Clone, Debug)]
pub struct Command {
    pub component_address: String,
    pub amount: String,
}

impl Command {
    /// The call plan: `withdraw(amount)` on the component.
    pub fn plan(&self) -> (r: CallPlan)
        ensures
            r.instructions@.len() == 1,
            r.instructions@[0] matches InstructionPlan::CallMethod { component, method, args }
                && component@ == self.component_address@ && method@ == "withdraw"@ && args@.len()
                == 1 && (args@[0] matches CallArg::Text(a) && a@ == self.amount@),
            r.inputs@.len() == 1,
            r.inputs@[0]@ == "component_"@ + self.component_address@,
    {
        let mut args: Vec<CallArg> = Vec::new();
        args.push(CallArg::Text(self.amount.clone()));
        single_method_call(self.component_address.as_str(), "withdraw", args)
    }
}

} // verus!
