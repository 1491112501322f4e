//! The limits that a stage runs under.
use crate::retries;
use crate::retries::Nanos;
use vstd::prelude::*;

verus! {

#[derive(Clone, Copy, Debug, PartialEq, Eq)]
pub struct Policy {
    /// How long a stage may go without a turn before it counts as blocked.
    pub tick_timeout: Option<Nanos>,
    pub bootstrap_retry: retries::Policy,
    pub work_retry: retries::Policy,
    pub teardown_retry: retries::Policy,
}

impl Default for Policy {
    fn default() -> (policy: Policy)
        ensures
            policy.tick_timeout is None,
            policy.bootstrap_retry == retries::Policy::no_retry(),
            policy.work_retry == retries::Policy::no_retry(),
            policy.teardown_retry == retries::Policy::no_retry(),
    {
        Policy {
            tick_timeout: None,
            bootstrap_retry: retries::Policy::no_retry(),
            work_retry: retries::Policy::no_retry(),
            teardown_retry: retries::Policy::no_retry(),
        }
    }
}

} // verus!
