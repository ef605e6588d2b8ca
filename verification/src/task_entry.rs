use vstd::prelude::*;

verus! {

/// The entry point that a task is created to run.
#[derive(Clone, Copy, PartialEq, Eq, Structural, Debug)]
pub enum TaskEntry {
    Unbound,
    KernelInit,
    Kthreadd,
    UserChild,
    SmokeScheduler,
}

} // verus!
