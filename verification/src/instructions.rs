//! The ledger call plans the command-line operations assemble: which
//! template function or component method to call, with which arguments, and
//! which substates the transaction needs. Submitting a plan to the remote
//! wallet daemon is the host's work; assembling it is verified here.

use vstd::prelude::*;
use vstd::string::StringExecFns;

verus! {

/// One argument of a ledger call, still in its plain form.
#[derive(Debug)]
pub enum CallArg {
    /// A value the chain client parses from its text form.
    Text(String),
    /// A resource address given in hex.
    Resource(String),
    /// A plain amount.
    Amount(u64),
    /// The value a previous instruction left on the workspace under a key.
    Workspace(String),
}

/// One planned ledger instruction.
#[derive(Debug)]
pub enum InstructionPlan {
    /// Call a function of a template, addressed in hex.
    CallFunction { template: String, function: String, args: Vec<CallArg> },
    /// Call a method of a component, addressed in hex.
    CallMethod { component: String, method: String, args: Vec<CallArg> },
    /// Park the previous instruction's output on the workspace under a key.
    PutLastOutputOnWorkspace { key: String },
}

/// A full call plan: the instructions to submit and the substates the
/// transaction declares as inputs.
#[derive(Debug)]
pub struct CallPlan {
    pub instructions: Vec<InstructionPlan>,
    pub inputs: Vec<String>,
}

/// A plan of one method call on a component, declaring that component as
/// the transaction's input.
pub fn single_method_call(component_address: &str, method: &str, args: Vec<CallArg>) -> (r:
    CallPlan)
    ensures
        r.instructions@.len() == 1,
        r.instructions@[0] matches InstructionPlan::CallMethod { component, method: m, args: a }
            && component@ == component_address@ && m@ == method@ && a == args,
        r.inputs@.len() == 1,
        r.inputs@[0]@ == "component_"@ + component_address@,
{
    let mut instructions: Vec<InstructionPlan> = Vec::new();
    instructions.push(
        InstructionPlan::CallMethod {
            component: component_address.to_owned(),
            method: method.to_owned(),
            args,
        },
    );
    let mut inputs: Vec<String> = Vec::new();
    inputs.push(component_input(component_address));
    CallPlan { instructions, inputs }
}

/// The substate requirement naming a component, `component_` before its hex
/// address.
pub fn component_input(component_address: &str) -> (r: String)
    ensures
        r@ == "component_"@ + component_address@,
{
    let mut input = "component_".to_owned();
    input.append(component_address);
    input
}

} // verus!
