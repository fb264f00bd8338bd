//! Creating a new admin badge.

use crate::instructions::{single_method_call, CallPlan, InstructionPlan};
use vstd::prelude::*;

verus! {

/// The arguments of `create_new_admin`.
#[derive(Clone, Debug)]
pub struct Command {
    pub component_address: String,
}

impl Command {
    /// The call plan: `create_new_admin()` on the component.
    pub fn plan(&self) -> (r: CallPlan)
        ensures
            r.instructions@.len() == 1,
            r.instructions@[0] matches InstructionPlan::CallMethod { component, method, args }
                && component@ == self.component_address@ && method@ == "create_new_admin"@
                && args@.len() == 0,
            r.inputs@.len() == 1,
            r.inputs@[0]@ == "component_"@ + self.component_address@,
    {
        single_method_call(self.component_address.as_str(), "create_new_admin", Vec::new())
    }
}

} // verus!
