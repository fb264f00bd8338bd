//! Depositing an auth badge into the account: withdraw the badge from
//! another component, park it on the workspace, then hand it to
//! `deposit_auth_badge` with the admin proof.

use crate::instructions::{component_input, CallArg, CallPlan, InstructionPlan};
use vstd::prelude::*;

verus! {

/// The arguments of `deposit_auth_badge`.
#[derive(Clone, Debug)]
pub struct Command {
    pub component_address: String,
    pub admin_proof: String,
    pub badge_amount: u64,
    pub badge_resource: String,
    pub badge_withdraw_from_component: String,
}

impl Command {
    /// The call plan: withdraw the badge from its component, park it under
    /// `bucket_badge`, then call `deposit_auth_badge` with the proof and the
    /// bucket; the target component is the declared input.
    pub fn plan(&self) -> (r: CallPlan)
        ensures
            r.instructions@.len() == 3,
            r.instructions@[0] matches InstructionPlan::CallMethod { component, method, args }
                && component@ == self.badge_withdraw_from_component@ && method@ == "withdraw"@
                && args@.len() == 2 && (args@[0] matches CallArg::Resource(a) && a@
                == self.badge_resource@) && (args@[1] matches CallArg::Amount(a) && a
                == self.badge_amount),
            r.instructions@[1] matches InstructionPlan::PutLastOutputOnWorkspace { key } && key@
                == "bucket_badge"@,
            r.instructions@[2] matches InstructionPlan::CallMethod { component, method, args }
                && component@ == self.component_address@ && method@ == "deposit_auth_badge"@
                && args@.len() == 2 && (args@[0] matches CallArg::Text(a) && a@
                == self.admin_proof@) && (args@[1] matches CallArg::Workspace(a) && a@
                == "bucket_badge"@),
            r.inputs@.len() == 1,
            r.inputs@[0]@ == "component_"@ + self.component_address@,
    {
        let mut withdraw_args: Vec<CallArg> = Vec::new();
        withdraw_args.push(CallArg::Resource(self.badge_resource.clone()));
        withdraw_args.push(CallArg::Amount(self.badge_amount));
        let mut deposit_args: Vec<CallArg> = Vec::new();
        deposit_args.push(CallArg::Text(self.admin_proof.clone()));
        deposit_args.push(CallArg::Workspace("bucket_badge".to_owned()));
        let mut instructions: Vec<InstructionPlan> = Vec::new();
        instructions.push(
            InstructionPlan::CallMethod {
                component: self.badge_withdraw_from_component.clone(),
                method: "withdraw".to_owned(),
                args: withdraw_args,
            },
        );
        instructions.push(
            InstructionPlan::PutLastOutputOnWorkspace { key: "bucket_badge".to_owned() },
        );
        instructions.push(
            InstructionPlan::CallMethod {
                component: self.component_address.clone(),
                method: "deposit_auth_badge".to_owned(),
                args: deposit_args,
            },
        );
        let mut inputs: Vec<String> = Vec::new();
        inputs.push(component_input(self.component_address.as_str()));
        CallPlan { instructions, inputs }
    }
}

} // verus!
