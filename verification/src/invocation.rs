//! How the worker is invoked: a fixed configuration.

use vstd::prelude::*;

verus! {

/// The worker's invocation: the bundled program to run, its one argument and
/// the one environment override it is launched with.
#[derive(Debug, Clone, Copy, PartialEq, Eq)]
pub struct Invocation {
    pub program: &'static str,
    pub argument: &'static str,
    pub env_name: &'static str,
    pub env_value: &'static str,
}

/// The invocation of the backend: `octopus-server start`, with cross-origin
/// access to its listening interface allowed from every origin.
pub open spec fn backend_invocation() -> Invocation {
    Invocation {
        program: "octopus-server",
        argument: "start",
        env_name: "OCTOPUS_CORS_ALLOW_ORIGINS",
        env_value: "*",
    }
}

/// The invocation that every start resolves.
pub fn invocation() -> (fixed: Invocation)
    ensures
        fixed == backend_invocation(),
{
    Invocation {
        program: "octopus-server",
        argument: "start",
        env_name: "OCTOPUS_CORS_ALLOW_ORIGINS",
        env_value: "*",
    }
}

} // verus!
