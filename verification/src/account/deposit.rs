//! Depositing funds into the account: withdraw a bucket from another
//! component, park it on the workspace, then hand it to `deposit` with the
//! caller's proof.

use crate::instructions::{component_input, CallArg, CallPlan, InstructionPlan};
use vstd::prelude::*;

verus! {

/// The arguments of `deposit`.
#[derive(Clone, Debug)]
pub struct Command {
    pub component_address: String,
    pub proof: String,
    pub funds_amount: u64,
    pub funds_resource: String,
    pub funds_withdraw_from_component: String,
}

impl Command {
    /// The call plan: withdraw the funds from their component, park them
    /// under `bucket_funds`, then call `deposit` with the proof and the
    /// bucket; the target component is the declared input.
    pub fn plan(&self) -> (r: CallPlan)
        ensures
            r.instructions@.len() == 3,
            r.instructions@[0] matches InstructionPlan::CallMethod { component, method, args }
                && component@ == self.funds_withdraw_from_component@ && method@ == "withdraw"@
                && args@.len() == 2 && (args@[0] matches CallArg::Resource(a) && a@
                == self.funds_resource@) && (args@[1] matches CallArg::Amount(a) && a
                == self.funds_amount),
            r.instructions@[1] matches InstructionPlan::PutLastOutputOnWorkspace { key } && key@
                == "bucket_funds"@,
            r.instructions@[2] matches InstructionPlan::CallMethod { component, method, args }
                && component@ == self.component_address@ && method@ == "deposit"@ && args@.len()
                == 2 && (args@[0] matches CallArg::Text(a) && a@ == self.proof@) && (args@[1]
                matches CallArg::Workspace(a) && a@ == "bucket_funds"@),
            r.inputs@.len() == 1,
            r.inputs@[0]@ == "component_"@ + self.component_address@,
    {
        let mut withdraw_args: Vec<CallArg> = Vec::new();
        withdraw_args.push(CallArg::Resource(self.funds_resource.clone()));
        withdraw_args.push(CallArg::Amount(self.funds_amount));
        let mut deposit_args: Vec<CallArg> = Vec::new();
        deposit_args.push(CallArg::Text(self.proof.clone()));
        deposit_args.push(CallArg::Workspace("bucket_funds".to_owned()));
        let mut instructions: Vec<InstructionPlan> = Vec::new();
        instructions.push(
            InstructionPlan::CallMethod {
                component: self.funds_withdraw_from_component.clone(),
                method: "withdraw".to_owned(),
                args: withdraw_args,
            },
        );
        instructions.push(
            InstructionPlan::PutLastOutputOnWorkspace { key: "bucket_funds".to_owned() },
        );
        instructions.push(
            InstructionPlan::CallMethod {
                component: self.component_address.clone(),
                method: "deposit".to_owned(),
                args: deposit_args,
            },
        );
        let mut inputs: Vec<String> = Vec::new();
        inputs.push(component_input(self.component_address.as_str()));
        CallPlan { instructions, inputs }
    }
}

} // verus!
