//! The kind of script context a worker hosts, and the identifier each kind
//! exposes into the script environment.

use vstd::prelude::*;

verus! {

/// The flavor of worker being spawned.
#[derive(Debug, Copy, Clone, PartialEq, Eq, Structural)]
pub enum WorkerThreadType {
    /// Classic script worker, used mainly for testing.
    Classic,
    /// Regular module worker.
    Module,
    /// Embedding-specific worker-thread flavor.
    Node,
}

impl WorkerThreadType {
    /// The identifier for this kind of worker, as the script environment
    /// observes it.
    pub open spec fn spec_name(self) -> Seq<char> {
        match self {
            WorkerThreadType::Classic => "classic"@,
            WorkerThreadType::Module => "module"@,
            WorkerThreadType::Node => "node"@,
        }
    }

    /// Returns the identifier that is bound into the script environment for
    /// this kind of worker.
    pub fn name(&self) -> (r: &'static str)
        ensures
            r@ == self.spec_name(),
    {
        match self {
            WorkerThreadType::Classic => "classic",
            WorkerThreadType::Module => "module",
            WorkerThreadType::Node => "node",
        }
    }
}

} // verus!
