//! Writing a user's data record.

use crate::instructions::{single_method_call, CallArg, CallPlan, InstructionPlan};
use vstd::prelude::*;

verus! {

/// The arguments of `set_user_data`.
#[derive(Clone, Debug)]
pub struct Command {
    pub component_address: String,
    pub user_id: String,
    pub data: String,
}

impl Command {
    /// The call plan: `set_user_data(user_id, data)` on the component.
    pub fn plan(&self) -> (r: CallPlan)
        ensures
            r.instructions@.len() == 1,
            r.instructions@[0] matches InstructionPlan::CallMethod { component, method, args }
                && component@ == self.component_address@ && method@ == "set_user_data"@
                && args@.len() == 2 && (args@[0] matches CallArg::Text(a) && a@ == self.user_id@)
                && (args@[1] matches CallArg::Text(a) && a@ == self.data@),
            r.inputs@.len() == 1,
            r.inputs@[0]@ == "component_"@ + self.component_address@,
    {
        let mut args: Vec<CallArg> = Vec::new();
        args.push(CallArg::Text(self.user_id.clone()));
        args.push(CallArg::Text(self.data.clone()));
        single_method_call(self.component_address.as_str(), "set_user_data", args)
    }
}

} // verus!
