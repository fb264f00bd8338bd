//! Reading a user's data record.

use crate::instructions::{single_method_call, CallArg, CallPlan, InstructionPlan};
use vstd::prelude::*;

verus! {

/// The arguments of `get_user_data`.
#[derive(Clone, Debug)]
pub struct Command {
    pub component_address: String,
    pub user_id: String,
}

impl Command {
    /// The call plan: `get_user_data(user_id)` on the component.
    pub fn plan(&self) -> (r: CallPlan)
        ensures
            r.instructions@.len() == 1,
            r.instructions@[0] matches InstructionPlan::CallMethod { component, method, args }
                && component@ == self.component_address@ && method@ == "get_user_data"@
                && args@.len() == 1 && (args@[0] matches CallArg::Text(a) && a@ == self.user_id@),
            r.inputs@.len() == 1,
            r.inputs@[0]@ == "component_"@ + self.component_address@,
    {
        let mut args: Vec<CallArg> = Vec::new();
        args.push(CallArg::Text(self.user_id.clone()));
        single_method_call(self.component_address.as_str(), "get_user_data", args)
    }
}

} // verus!
