//! The ordering of kernel parameter processing: early parameters first, then boot
//! parameters, the hook after them, and the payload parameters.
use vstd::prelude::*;
use crate::state::{condition_error, failed_condition, EventError, EventResult, Lifecycle, LifecycleEvent, State};

verus! {

pub struct Params {
    pub lifecycle: Lifecycle,
}

impl Params {
    pub fn new() -> (s: Self)
        ensures
            s.lifecycle@ == State::Base,
    {
        Self { lifecycle: Lifecycle::new(State::Base) }
    }

    pub fn state(&self) -> (r: State)
        ensures
            r == self.lifecycle@,
    {
        self.lifecycle.state()
    }

    pub open spec fn preset_guard(
        &self,
        command_line_state: State,
        kernel_cmdline_state: State,
        sbi_state: State,
        printk_prepared: bool,
        early_param_state: State,
    ) -> bool {
        &&& self.lifecycle@ == State::Base
        &&& command_line_state == State::Prepared
        &&& kernel_cmdline_state == State::Ready
        &&& sbi_state == State::Ready
        &&& printk_prepared
        &&& early_param_state == State::Base
    }

    /// Processes the early parameters. Once the guards hold the caller sets the early
    /// parameters up and passes the outcome as `early_param_setup`.
    pub fn preset(
        &mut self,
        command_line_state: State,
        kernel_cmdline_state: State,
        sbi_state: State,
        printk_prepared: bool,
        early_param_state: State,
        early_param_setup: EventResult,
    ) -> (r: EventResult)
        ensures
            !old(self).preset_guard(
                command_line_state,
                kernel_cmdline_state,
                sbi_state,
                printk_prepared,
                early_param_state,
            ) ==> r == Err::<(), EventError>(
                condition_error(LifecycleEvent::Preset, old(self).lifecycle@, State::Base, State::Prepared),
            ) && *final(self) == *old(self),
            old(self).preset_guard(
                command_line_state,
                kernel_cmdline_state,
                sbi_state,
                printk_prepared,
                early_param_state,
            ) && early_param_setup is Err ==> r == early_param_setup && *final(self) == *old(self),
            old(self).preset_guard(
                command_line_state,
                kernel_cmdline_state,
                sbi_state,
                printk_prepared,
                early_param_state,
            ) && early_param_setup == Ok::<(), EventError>(()) ==> r == Ok::<(), EventError>(())
                && final(self).lifecycle@ == State::Prepared,
    {
        if self.lifecycle.state() != State::Base || command_line_state != State::Prepared
            || kernel_cmdline_state != State::Ready || sbi_state != State::Ready || !printk_prepared
            || early_param_state != State::Base {
            return failed_condition(
                LifecycleEvent::Preset,
                self.lifecycle.state(),
                State::Base,
                State::Prepared,
            );
        }
        if early_param_setup.is_err() {
            return early_param_setup;
        }
        self.lifecycle.transition(LifecycleEvent::Preset, State::Base, State::Prepared)
    }

    pub open spec fn setup_guard(
        &self,
        early_param_state: State,
        static_command_line_state: State,
        boot_param_state: State,
        payload_param_state: State,
    ) -> bool {
        &&& self.lifecycle@ == State::Prepared
        &&& early_param_state == State::Ready
        &&& static_command_line_state == State::Ready
        &&& boot_param_state == State::Base
        &&& payload_param_state == State::Base
    }

    /// Processes the boot parameters, runs the hook after them and then the payload
    /// parameters. Once the guards hold the caller runs these three steps in order,
    /// stopping at the first that fails, and passes their outcomes.
    pub fn setup(
        &mut self,
        early_param_state: State,
        static_command_line_state: State,
        boot_param_state: State,
        payload_param_state: State,
        boot_param_setup: EventResult,
        after_boot_param: EventResult,
        payload_param_setup: EventResult,
    ) -> (r: EventResult)
        ensures
            !old(self).setup_guard(
                early_param_state,
                static_command_line_state,
                boot_param_state,
                payload_param_state,
            ) ==> r == Err::<(), EventError>(
                condition_error(LifecycleEvent::Setup, old(self).lifecycle@, State::Prepared, State::Ready),
            ) && *final(self) == *old(self),
            old(self).setup_guard(
                early_param_state,
                static_command_line_state,
                boot_param_state,
                payload_param_state,
            ) ==> if boot_param_setup is Err {
                r == boot_param_setup && *final(self) == *old(self)
            } else if after_boot_param is Err {
                r == after_boot_param && *final(self) == *old(self)
            } else if payload_param_setup is Err {
                r == payload_param_setup && *final(self) == *old(self)
            } else {
                r == Ok::<(), EventError>(()) && final(self).lifecycle@ == State::Ready
            },
    {
        if self.lifecycle.state() != State::Prepared || early_param_state != State::Ready
            || static_command_line_state != State::Ready || boot_param_state != State::Base
            || payload_param_state != State::Base {
            return failed_condition(
                LifecycleEvent::Setup,
                self.lifecycle.state(),
                State::Prepared,
                State::Ready,
            );
        }
        if boot_param_setup.is_err() {
            return boot_param_setup;
        }
        if after_boot_param.is_err() {
            return after_boot_param;
        }
        if payload_param_setup.is_err() {
            return payload_param_setup;
        }
        self.lifecycle.transition(LifecycleEvent::Setup, State::Prepared, State::Ready)
    }
}

} // verus!
