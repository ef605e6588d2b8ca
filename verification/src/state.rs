use vstd::prelude::*;

verus! {

/// Lifecycle state shared by every kernel object.
#[derive(Clone, Copy, PartialEq, Eq, Structural, Debug)]
pub enum State {
    Base,
    Prepared,
    Ready,
    Online,
    Offline,
    OnCpu,
    Destroyed,
}

/// The lifecycle event that a transition or a failed condition belongs to.
#[derive(Clone, Copy, PartialEq, Eq, Structural, Debug)]
pub enum LifecycleEvent {
    Preset,
    Setup,
    Enable,
    Disable,
    Continue,
    Cleanup,
    Dispatch,
}

/// Why an event failed.
#[derive(Clone, Copy, PartialEq, Eq, Structural, Debug)]
pub enum EventErrorCode {
    /// A precondition of the event (a dependency's state, an argument) did not hold.
    ConditionFailed,
    /// The object was not in the state that the transition starts from.
    InvalidTransition,
}

/// A refused lifecycle event: what was attempted, from which state, towards which state.
#[derive(Clone, Copy, PartialEq, Eq, Structural, Debug)]
pub struct EventError {
    pub code: EventErrorCode,
    pub event: LifecycleEvent,
    pub current: State,
    pub expected: State,
    pub target: State,
}

pub type EventResult = Result<(), EventError>;

impl EventError {
    pub open spec fn spec_failed(
        code: EventErrorCode,
        event: LifecycleEvent,
        current: State,
        expected: State,
        target: State,
    ) -> EventError {
        EventError { code, event, current, expected, target }
    }

    pub fn failed(
        code: EventErrorCode,
        event: LifecycleEvent,
        current: State,
        expected: State,
        target: State,
    ) -> (e: EventError)
        ensures
            e == EventError::spec_failed(code, event, current, expected, target),
    {
        EventError { code, event, current, expected, target }
    }
}

/// The error value of a failed condition.
pub open spec fn condition_error(
    event: LifecycleEvent,
    current: State,
    expected: State,
    target: State,
) -> EventError {
    EventError::spec_failed(EventErrorCode::ConditionFailed, event, current, expected, target)
}

/// The error value of a transition attempted from the wrong state.
pub open spec fn transition_error(
    event: LifecycleEvent,
    current: State,
    expected: State,
    target: State,
) -> EventError {
    EventError::spec_failed(EventErrorCode::InvalidTransition, event, current, expected, target)
}

pub fn failed_condition(
    event: LifecycleEvent,
    current: State,
    expected: State,
    target: State,
) -> (r: EventResult)
    ensures
        r == Err::<(), EventError>(condition_error(event, current, expected, target)),
{
    Err(EventError::failed(EventErrorCode::ConditionFailed, event, current, expected, target))
}

/// The lifecycle state machine embedded in every kernel object.
#[derive(Clone, Copy, PartialEq, Eq, Structural, Debug)]
pub struct Lifecycle {
    state: State,
}

/// A lifecycle transition succeeds exactly from its expected state and then lands in its
/// target; from any other state it changes nothing and reports the transition error for the
/// state it was in.
pub proof fn lemma_transition_law(event: LifecycleEvent, current: State, expected: State, target: State)
    ensures
        current == expected ==> transition_result(event, current, expected, target) is Ok
            && transition_state(current, expected, target) == target,
        current != expected ==> transition_result(event, current, expected, target) == Err::<
            (),
            EventError,
        >(
            EventError::spec_failed(
                EventErrorCode::InvalidTransition,
                event,
                current,
                expected,
                target,
            ),
        ) && transition_state(current, expected, target) == current,
{
}

/// What a transition from `expected` to `target` does to a lifecycle in state `current`.
pub open spec fn transition_result(
    event: LifecycleEvent,
    current: State,
    expected: State,
    target: State,
) -> EventResult {
    if current == expected {
        Ok(())
    } else {
        Err(transition_error(event, current, expected, target))
    }
}

/// The state after a transition from `expected` to `target` attempted in state `current`.
pub open spec fn transition_state(current: State, expected: State, target: State) -> State {
    if current == expected {
        target
    } else {
        current
    }
}

impl Lifecycle {
    pub closed spec fn view(&self) -> State {
        self.state
    }

    /// The lifecycle in state `state`.
    pub closed spec fn spec_with_state(state: State) -> Lifecycle {
        Lifecycle { state }
    }

    /// A lifecycle is determined by its state.
    pub proof fn lemma_with_state(l: Lifecycle)
        ensures
            l == Lifecycle::spec_with_state(l@),
            Lifecycle::spec_with_state(l@)@ == l@,
    {
    }

    pub proof fn lemma_view_with_state(state: State)
        ensures
            Lifecycle::spec_with_state(state)@ == state,
    {
    }

    pub fn new(state: State) -> (l: Lifecycle)
        ensures
            l@ == state,
    {
        Lifecycle { state }
    }

    pub fn state(&self) -> (s: State)
        ensures
            s == self@,
    {
        self.state
    }

    /// Moves from `expected` to `target`; refused, with no change, in any other state.
    pub fn transition(&mut self, event: LifecycleEvent, expected: State, target: State) -> (r:
        EventResult)
        ensures
            r == transition_result(event, old(self)@, expected, target),
            final(self)@ == transition_state(old(self)@, expected, target),
            old(self)@ != expected ==> *final(self) == *old(self),
    {
        if self.state != expected {
            return Err(
                EventError::failed(
                    EventErrorCode::InvalidTransition,
                    event,
                    self.state,
                    expected,
                    target,
                ),
            );
        }
        self.state = target;
        Ok(())
    }
}

} // verus!
