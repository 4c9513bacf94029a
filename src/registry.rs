//! The modules that the program offers, built once at start.
use vstd::prelude::*;

use crate::merge_request::{first_phase, Args, Module};

verus! {

/// The program's modules.
pub struct Registry {
    pub merge_request_module: Module,
}

impl Registry {
    /// The modules, with the merge request run set up for `args` and not started.
    pub fn new(args: Args) -> (r: Registry)
        ensures
            r.merge_request_module.args == args,
            r.merge_request_module.next == 0,
            r.merge_request_module.phase == first_phase(args.target_branches.len() as int),
            r.merge_request_module.created@.len() == 0,
    {
        Registry { merge_request_module: Module::new(args) }
    }
}

} // verus!
