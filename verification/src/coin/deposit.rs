//! Depositing coins into the component: withdraw a bucket from another
//! component, park it on the workspace, then hand it to `deposit`.

use crate::instructions::{component_input, CallArg, CallPlan, InstructionPlan};
use vstd::prelude::*;

verus! {

/// The arguments of `deposit`.
#[derive(Clone, Debug)]
pub struct Command {
    pub component_address: String,
    pub bucket_amount: u64,
    pub bucket_resource: String,
    pub bucket_withdraw_from_component: String,
}

impl Command {
    /// The call plan: withdraw the bucket from its component, park it under
    /// `bucket_bucket`, then call `deposit` with it; the target component is
    /// the declared input.
    pub fn plan(&self) -> (r: CallPlan)
        ensures
            r.instructions@.len() == 3,
            r.instructions@[0] matches InstructionPlan::CallMethod { component, method, args }
                && component@ == self.bucket_withdraw_from_component@ && method@ == "withdraw"@
                && args@.len() == 2 && (args@[0] matches CallArg::Resource(a) && a@
                == self.bucket_resource@) && (args@[1] matches CallArg::Amount(a) && a
                == self.bucket_amount),
            r.instructions@[1] matches InstructionPlan::PutLastOutputOnWorkspace { key } && key@
                == "bucket_bucket"@,
            r.instructions@[2] matches InstructionPlan::CallMethod { component, method, args }
                && component@ == self.component_address@ && method@ == "deposit"@ && args@.len()
                == 1 && (args@[0] matches CallArg::Workspace(a) && a@ == "bucket_bucket"@),
            r.inputs@.len() == 1,
            r.inputs@[0]@ == "component_"@ + self.component_address@,
    {
        let mut withdraw_args: Vec<CallArg> = Vec::new();
        withdraw_args.push(CallArg::Resource(self.bucket_resource.clone()));
        withdraw_args.push(CallArg::Amount(self.bucket_amount));
        let mut deposit_args: Vec<CallArg> = Vec::new();
        deposit_args.push(CallArg::Workspace("bucket_bucket".to_owned()));
        let mut instructions: Vec<InstructionPlan> = Vec::new();
        instructions.push(
            InstructionPlan::CallMethod {
                component: self.bucket_withdraw_from_component.clone(),
                method: "withdraw".to_owned(),
                args: withdraw_args,
            },
        );
        instructions.push(
            InstructionPlan::PutLastOutputOnWorkspace { key: "bucket_bucket".to_owned() },
        );
        instructions.push(
            InstructionPlan::CallMethod {
                component: self.component_address.clone(),
                method: "deposit".to_owned(),
                args: deposit_args,
            },
        );
        let mut inputs: Vec<String> = Vec::new();
        inputs.push(component_input(self.component_address.as_str()));
        CallPlan { instructions, inputs }
    }
}

} // verus!
