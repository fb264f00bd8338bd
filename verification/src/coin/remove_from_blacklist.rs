//! Removing a user from the blacklist.

use crate::instructions::{single_method_call, CallArg, CallPlan, InstructionPlan};
use vstd::prelude::*;

verus! {

/// The arguments of `remove_from_blacklist`.
#[derive(Clone, Debug)]
pub struct Command {
    pub component_address: String,
    pub user_id: String,
}

impl Command {
    /// The call plan: `remove_from_blacklist(user_id)` on the component.
    pub fn plan(&self) -> (r: CallPlan)
        ensures
            r.instructions@.len() == 1,
            r.instructions@[0] matches InstructionPlan::CallMethod { component, method, args }
                && component@ == self.component_address@ && method@ == "remove_from_blacklist"@
                && args@.len() == 1 && (args@[0] matches CallArg::Text(a) && a@ == self.user_id@),
            r.inputs@.len() == 1,
            r.inputs@[0]@ == "component_"@ + self.component_address@,
    {
        let mut args: Vec<CallArg> = Vec::new();
        args.push(CallArg::Text(self.user_id.clone()));
        single_method_call(self.component_address.as_str(), "remove_from_blacklist", args)
    }
}

} // verus!
