//! Blacklisting a user's vault.

use crate::instructions::{single_method_call, CallArg, CallPlan, InstructionPlan};
use vstd::prelude::*;

verus! {

/// The arguments of `blacklist_user`.
#[derive(Clone, Debug)]
pub struct Command {
    pub component_address: String,
    pub vault_id: String,
    pub user_id: String,
}

impl Command {
    /// The call plan: `blacklist_user(vault_id, user_id)` on the component.
    pub fn plan(&self) -> (r: CallPlan)
        ensures
            r.instructions@.len() == 1,
            r.instructions@[0] matches InstructionPlan::CallMethod { component, method, args }
                && component@ == self.component_address@ && method@ == "blacklist_user"@
                && args@.len() == 2 && (args@[0] matches CallArg::Text(a) && a@ == self.vault_id@)
                && (args@[1] matches CallArg::Text(a) && a@ == self.user_id@),
            r.inputs@.len() == 1,
            r.inputs@[0]@ == "component_"@ + self.component_address@,
    {
        let mut args: Vec<CallArg> = Vec::new();
        args.push(CallArg::Text(self.vault_id.clone()));
        args.push(CallArg::Text(self.user_id.clone()));
        single_method_call(self.component_address.as_str(), "blacklist_user", args)
    }
}

} // verus!
