//! Unfreezing an account.

use crate::instructions::{single_method_call, CallArg, CallPlan, InstructionPlan};
use vstd::prelude::*;

verus! {

/// The arguments of `unfreeze_account`.
#[derive(Clone, Debug)]
pub struct Command {
    pub component_address: String,
    pub admin_proof: String,
}

impl Command {
    /// The call plan: `unfreeze_account(admin_proof)` on the component.
    pub fn plan(&self) -> (r: CallPlan)
        ensures
            r.instructions@.len() == 1,
            r.instructions@[0] matches InstructionPlan::CallMethod { component, method, args }
                && component@ == self.component_address@ && method@ == "unfreeze_account"@
                && args@.len() == 1 && (args@[0] matches CallArg::Text(a) && a@
                == self.admin_proof@),
            r.inputs@.len() == 1,
            r.inputs@[0]@ == "component_"@ + self.component_address@,
    {
        let mut args: Vec<CallArg> = Vec::new();
        args.push(CallArg::Text(self.admin_proof.clone()));
        single_method_call(self.component_address.as_str(), "unfreeze_account", args)
    }
}

} // verus!
