use vstd::prelude::*;
use crate::state::{condition_error, failed_condition, EventError, EventResult, Lifecycle, LifecycleEvent, State};

verus! {

/// CPU-local binding for instruction, load and store page faults.
pub struct PageFaultExceptionType {
    pub lifecycle: Lifecycle,
    pub fallback_ready: bool,
    pub handler_ready: bool,
    pub context_matrix_ready: bool,
    pub recovery_online: bool,
}

impl PageFaultExceptionType {
    pub fn new() -> (s: Self)
        ensures
            s.lifecycle@ == State::Base,
            !s.fallback_ready,
            !s.handler_ready,
            !s.context_matrix_ready,
            !s.recovery_online,
    {
        Self {
            lifecycle: Lifecycle::new(State::Base),
            fallback_ready: false,
            handler_ready: false,
            context_matrix_ready: false,
            recovery_online: false,
        }
    }

    pub fn preset(&mut self) -> (r: EventResult)
        ensures
            !(old(self).lifecycle@ != State::Base) ==> {
                &&& r == Ok::<(), EventError>(())
                &&& final(self).lifecycle@ == State::Prepared
                &&& *final(self) == (PageFaultExceptionType {
                    fallback_ready: true,
                    lifecycle: final(self).lifecycle,
                    ..*old(self)
                })
            },
            old(self).lifecycle@ != State::Base ==> {
                &&& r == Err::<(), EventError>(
                    condition_error(
                        LifecycleEvent::Preset,
                        old(self).lifecycle@,
                        State::Base,
                        State::Prepared,
                    ),
                )
                &&& *final(self) == *old(self)
            },
    {
        if self.lifecycle.state() != State::Base {
            return failed_condition(
                LifecycleEvent::Preset,
                self.lifecycle.state(),
                State::Base,
                State::Prepared,
            );
        }
        self.fallback_ready = true;
        self.lifecycle.transition(LifecycleEvent::Preset, State::Base, State::Prepared)
    }

    /// Binds the page-fault handler; once this succeeds the caller installs the page-fault
    /// policy in the exception vector.
    pub fn setup(&mut self, exception_state: State) -> (r: EventResult)
        ensures
            !(exception_state != State::Prepared || old(self).lifecycle@ != State::Prepared || !old(self).fallback_ready ) ==> {
                &&& r == Ok::<(), EventError>(())
                &&& final(self).lifecycle@ == State::Ready
                &&& *final(self) == (PageFaultExceptionType {
                    handler_ready: true,
                    context_matrix_ready: true,
                    lifecycle: final(self).lifecycle,
                    ..*old(self)
                })
            },
            exception_state != State::Prepared || old(self).lifecycle@ != State::Prepared || !old(self).fallback_ready  ==> {
                &&& r == Err::<(), EventError>(
                    condition_error(
                        LifecycleEvent::Setup,
                        old(self).lifecycle@,
                        State::Prepared,
                        State::Ready,
                    ),
                )
                &&& *final(self) == *old(self)
            },
    {
        if exception_state != State::Prepared || self.lifecycle.state() != State::Prepared || !self.fallback_ready  {
            return failed_condition(
                LifecycleEvent::Setup,
                self.lifecycle.state(),
                State::Prepared,
                State::Ready,
            );
        }
        self.handler_ready = true;
        self.context_matrix_ready = true;
        self.lifecycle.transition(LifecycleEvent::Setup, State::Prepared, State::Ready)
    }

    pub fn enable(&mut self, exception_state: State) -> (r: EventResult)
        ensures
            !(exception_state != State::Ready || old(self).lifecycle@ != State::Ready || !old(self).handler_ready || !old(self).context_matrix_ready ) ==> {
                &&& r == Ok::<(), EventError>(())
                &&& final(self).lifecycle@ == State::Online
                &&& *final(self) == (PageFaultExceptionType {
                    recovery_online: true,
                    lifecycle: final(self).lifecycle,
                    ..*old(self)
                })
            },
            exception_state != State::Ready || old(self).lifecycle@ != State::Ready || !old(self).handler_ready || !old(self).context_matrix_ready  ==> {
                &&& r == Err::<(), EventError>(
                    condition_error(
                        LifecycleEvent::Enable,
                        old(self).lifecycle@,
                        State::Ready,
                        State::Online,
                    ),
                )
                &&& *final(self) == *old(self)
            },
    {
        if exception_state != State::Ready || self.lifecycle.state() != State::Ready || !self.handler_ready || !self.context_matrix_ready  {
            return failed_condition(
                LifecycleEvent::Enable,
                self.lifecycle.state(),
                State::Ready,
                State::Online,
            );
        }
        self.recovery_online = true;
        self.lifecycle.transition(LifecycleEvent::Enable, State::Ready, State::Online)
    }

    pub fn state(&self) -> (r: State)
        ensures
            r == self.lifecycle@,
    {
        self.lifecycle.state()
    }

    pub fn fallback_ready(&self) -> (r: bool)
        ensures
            r == self.fallback_ready,
    {
        self.fallback_ready
    }

    pub fn handler_ready(&self) -> (r: bool)
        ensures
            r == self.handler_ready,
    {
        self.handler_ready
    }

    pub fn context_matrix_ready(&self) -> (r: bool)
        ensures
            r == self.context_matrix_ready,
    {
        self.context_matrix_ready
    }

    pub fn recovery_online(&self) -> (r: bool)
        ensures
            r == self.recovery_online,
    {
        self.recovery_online
    }

    /// Takes the exception type from its initial state straight to online, for a secondary
    /// CPU that adopts what the boot CPU set up.
    pub(crate) fn adopt_secondary_online(&mut self) -> (r: EventResult)
        ensures
            old(self).lifecycle@ != State::Base ==> r == Err::<(), EventError>(
                condition_error(
                    LifecycleEvent::Enable,
                    old(self).lifecycle@,
                    State::Base,
                    State::Online,
                ),
            ) && *final(self) == *old(self),
            old(self).lifecycle@ == State::Base ==> r == Ok::<(), EventError>(())
                && final(self).lifecycle@ == State::Online && *final(self) == (
            PageFaultExceptionType {
                fallback_ready: true,
                handler_ready: true,
                context_matrix_ready: true,
                recovery_online: true,
                lifecycle: final(self).lifecycle,
                ..*old(self)
            }),
    {
        if self.lifecycle.state() != State::Base {
            return failed_condition(
                LifecycleEvent::Enable,
                self.lifecycle.state(),
                State::Base,
                State::Online,
            );
        }
        self.fallback_ready = true;
        self.handler_ready = true;
        self.context_matrix_ready = true;
        self.recovery_online = true;
        self.lifecycle.transition(LifecycleEvent::Preset, State::Base, State::Prepared)?;
        self.lifecycle.transition(LifecycleEvent::Setup, State::Prepared, State::Ready)?;
        self.lifecycle.transition(LifecycleEvent::Enable, State::Ready, State::Online)
    }
}

} // verus!
