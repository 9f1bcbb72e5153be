//! Input signals for an actor and the action each one asks for.
use vstd::prelude::*;

verus! {

/// An input signal for one actor in one step.
#[derive(Clone, Copy, Debug, PartialEq, Eq, Structural)]
pub enum AvianPickupEvent {
    /// The primary button was just pressed this step.
    JustPressedL,
    /// The secondary button was just pressed this step.
    JustPressedR,
    /// The secondary button is held down.
    PressedR,
}

/// What an actor is doing. An actor has exactly one state at every moment.
#[derive(Clone, Copy, Debug, PartialEq, Eq, Structural)]
pub enum AvianPickupActorState {
    /// Not interacting with any prop.
    Idle,
    /// Drawing the prop toward itself, not yet holding it.
    Pulling(usize),
    /// Holding the prop.
    Holding(usize),
}

/// The action that a signal asks of an actor.
#[derive(Clone, Copy, Debug, PartialEq, Eq, Structural)]
pub enum Verb {
    /// Nothing changes.
    Ignore,
    /// Look for a prop to pull.
    Pull,
    /// Keep drawing the prop that is being pulled.
    DrawIn,
    /// Throw the held prop.
    Throw,
    /// Drop the held prop.
    Drop,
}

/// The action that `event` asks of an actor in `state`. Throwing, dropping
/// and starting a pull wait until the cooldown has run out (`ready`);
/// drawing in a prop that is already being pulled does not.
pub open spec fn verb_of(state: AvianPickupActorState, ready: bool, event: AvianPickupEvent) -> Verb {
    match state {
        AvianPickupActorState::Idle => match event {
            AvianPickupEvent::JustPressedL => Verb::Ignore,
            _ => if ready {
                Verb::Pull
            } else {
                Verb::Ignore
            },
        },
        AvianPickupActorState::Pulling(_) => match event {
            AvianPickupEvent::JustPressedL => Verb::Ignore,
            _ => Verb::DrawIn,
        },
        AvianPickupActorState::Holding(_) => match event {
            AvianPickupEvent::JustPressedL => if ready {
                Verb::Throw
            } else {
                Verb::Ignore
            },
            AvianPickupEvent::JustPressedR => if ready {
                Verb::Drop
            } else {
                Verb::Ignore
            },
            AvianPickupEvent::PressedR => Verb::Ignore,
        },
    }
}

/// Routes a signal for an actor in `state` to the action it asks for.
pub fn usher_event(state: AvianPickupActorState, ready: bool, event: AvianPickupEvent) -> (r: Verb)
    ensures
        r == verb_of(state, ready, event),
        state == AvianPickupActorState::Idle && event == AvianPickupEvent::JustPressedL ==> r
            == Verb::Ignore,
        !ready && !(state is Pulling) ==> r == Verb::Ignore,
{
    match state {
        AvianPickupActorState::Idle => match event {
            AvianPickupEvent::JustPressedL => Verb::Ignore,
            _ => if ready {
                Verb::Pull
            } else {
                Verb::Ignore
            },
        },
        AvianPickupActorState::Pulling(_) => match event {
            AvianPickupEvent::JustPressedL => Verb::Ignore,
            _ => Verb::DrawIn,
        },
        AvianPickupActorState::Holding(_) => match event {
            AvianPickupEvent::JustPressedL => if ready {
                Verb::Throw
            } else {
                Verb::Ignore
            },
            AvianPickupEvent::JustPressedR => if ready {
                Verb::Drop
            } else {
                Verb::Ignore
            },
            AvianPickupEvent::PressedR => Verb::Ignore,
        },
    }
}

} // verus!
