//! Reading the coin's total supply.

use crate::instructions::{single_method_call, CallPlan, InstructionPlan};
use vstd::prelude::*;

verus! {

/// The arguments of `total_supply`.
#[derive(Clone, Debug)]
pub struct Command {
    pub component_address: String,
}

impl Command {
    /// The call plan: `total_supply()` on the component.
    pub fn plan(&self) -> (r: CallPlan)
        ensures
            r.instructions@.len() == 1,
            r.instructions@[0] matches InstructionPlan::CallMethod { component, method, args }
                && component@ == self.component_address@ && method@ == "total_supply"@
                && args@.len() == 0,
            r.inputs@.len() == 1,
            r.inputs@[0]@ == "component_"@ + self.component_address@,
    {
        single_method_call(self.component_address.as_str(), "total_supply", Vec::new())
    }
}

} // verus!
