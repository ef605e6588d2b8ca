//! The choice between the native PLIC driver and the Linux one: the checks made before
//! a source is enabled and before an external interrupt is handled.
use vstd::prelude::*;
use crate::linux_plic_shim::{plic_setup_error, LinuxPlicShim};
use crate::state::{failed_condition, EventError, EventResult, LifecycleEvent, State};

verus! {

/// What the PLIC reports of itself.
#[derive(Clone, Copy, PartialEq, Eq, Structural, Debug)]
pub struct PlicView {
    pub state: State,
    pub source_count: u32,
    pub source_enable_ready: bool,
    pub chained_handler_ready: bool,
    pub claim_action_ready: bool,
    pub complete_action_ready: bool,
    pub claim_loop_until_zero: bool,
    pub zero_claim_stops_dispatch: bool,
    pub completes_each_claimed_source: bool,
    pub claim_before_dispatch: bool,
    pub complete_after_handler: bool,
}

/// Whether a source may be enabled: the PLIC is ready to enable sources, the source is
/// one of its sources (1 to its count) and the logical interrupt is valid. When this
/// holds the provider enables the source.
pub fn enable_mapped_source_allowed(plic: PlicView, source: u32, logical_irq_valid: bool) -> (r: bool)
    ensures
        r == (plic.state == State::Ready && plic.source_enable_ready && source != 0 && source
            <= plic.source_count && logical_irq_valid),
{
    plic.state == State::Ready && plic.source_enable_ready && source != 0 && source
        <= plic.source_count && logical_irq_valid
}

/// Whether external interrupts can be handled: the PLIC's claim-dispatch-complete loop,
/// the interrupt domain's dispatch and the handler registry are all ready.
pub fn runtime_ready(
    plic: PlicView,
    domain_state: State,
    domain_dispatch_ops_ready: bool,
    registry_state: State,
    registry_dispatch_ready: bool,
) -> (r: bool)
    ensures
        r == (plic.state == State::Ready && plic.chained_handler_ready && plic.claim_action_ready
            && plic.complete_action_ready && plic.claim_loop_until_zero
            && plic.zero_claim_stops_dispatch && plic.completes_each_claimed_source
            && plic.claim_before_dispatch && plic.complete_after_handler && domain_state
            == State::Ready && domain_dispatch_ops_ready && registry_state == State::Ready
            && registry_dispatch_ready),
{
    plic.state == State::Ready && plic.chained_handler_ready && plic.claim_action_ready
        && plic.complete_action_ready && plic.claim_loop_until_zero && plic.zero_claim_stops_dispatch
        && plic.completes_each_claimed_source && plic.claim_before_dispatch
        && plic.complete_after_handler && domain_state == State::Ready && domain_dispatch_ops_ready
        && registry_state == State::Ready && registry_dispatch_ready
}

/// The check between the Linux initcalls and the probe: after the initcalls (whose
/// outcome is `initcalls`) a driver must be registered with a probe function
/// (`driver_probe`, read from the driver).
pub fn registered_provider_ready(shim: &LinuxPlicShim, initcalls: EventResult, driver_probe: usize) -> (r: EventResult)
    ensures
        initcalls is Err ==> r == initcalls,
        initcalls == Ok::<(), EventError>(()) ==> (r == Ok::<(), EventError>(()) <==> (
        shim.driver_registered && shim.driver_ptr != 0 && driver_probe != 0)),
        initcalls == Ok::<(), EventError>(()) && r is Err ==> r == Err::<(), EventError>(
            plic_setup_error(),
        ),
{
    if initcalls.is_err() {
        return initcalls;
    }
    if !shim.platform_driver_registered() || shim.platform_driver_probe_ptr(driver_probe) == 0 {
        return failed_condition(LifecycleEvent::Setup, State::Base, State::Ready, State::Ready);
    }
    Ok(())
}

/// The interrupts the provider claimed.
pub fn claim_count(shim: &LinuxPlicShim) -> (r: usize)
    ensures
        r == shim.runtime_claim_count,
{
    shim.runtime_claim_count
}

/// The claims that returned no source.
pub fn zero_claim_count(shim: &LinuxPlicShim) -> (r: usize)
    ensures
        r == shim.runtime_zero_claim_count,
{
    shim.runtime_zero_claim_count
}

/// The claimed interrupts dispatched to a handler.
pub fn dispatch_count(shim: &LinuxPlicShim) -> (r: usize)
    ensures
        r == shim.runtime_dispatch_count,
{
    shim.runtime_dispatch_count
}

/// The claimed interrupts completed.
pub fn complete_count(shim: &LinuxPlicShim) -> (r: usize)
    ensures
        r == shim.runtime_complete_count,
{
    shim.runtime_complete_count
}

/// The times the claim loop ran dry and ended.
pub fn loop_exit_count(shim: &LinuxPlicShim) -> (r: usize)
    ensures
        r == shim.runtime_loop_exit_count,
{
    shim.runtime_loop_exit_count
}

/// The source claimed last.
pub fn last_claimed_source(shim: &LinuxPlicShim) -> (r: u32)
    ensures
        r == shim.runtime_last_claimed_source,
{
    shim.runtime_last_claimed_source
}

/// The source completed last.
pub fn last_completed_source(shim: &LinuxPlicShim) -> (r: u32)
    ensures
        r == shim.runtime_last_completed_source,
{
    shim.runtime_last_completed_source
}


} // verus!
