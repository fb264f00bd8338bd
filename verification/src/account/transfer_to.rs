//! Transferring funds to another account.

use crate::instructions::{single_method_call, CallArg, CallPlan, InstructionPlan};
use vstd::prelude::*;

verus! {

/// The arguments of `transfer_to`.
#[derive(Clone, Debug)]
pub struct Command {
    pub component_address: String,
    pub destination_account: String,
    pub withdraw_proof: String,
}

impl Command {
    /// The call plan: `transfer_to(destination, proof)` on the component.
    pub fn plan(&self) -> (r: CallPlan)
        ensures
            r.instructions@.len() == 1,
            r.instructions@[0] matches InstructionPlan::CallMethod { component, method, args }
                && component@ == self.component_address@ && method@ == "transfer_to"@
                && args@.len() == 2 && (args@[0] matches CallArg::Text(a) && a@
                == self.destination_account@) && (args@[1] matches CallArg::Text(a) && a@
                == self.withdraw_proof@),
            r.inputs@.len() == 1,
            r.inputs@[0]@ == "component_"@ + self.component_address@,
    {
        let mut args: Vec<CallArg> = Vec::new();
        args.push(CallArg::Text(self.destination_account.clone()));
        args.push(CallArg::Text(self.withdraw_proof.clone()));
        single_method_call(self.component_address.as_str(), "transfer_to", args)
    }
}

} // verus!
