use vstd::prelude::*;
use crate::error::BridgeError;
use crate::registry::WindowRegistry;
use crate::window::TrackedWindow;

verus! {

/// What the display server delivers to the render loop.
#[derive(Clone, Copy, Debug, PartialEq, Eq, Structural)]
pub enum Event {
    /// The content of a window changed.
    DamageNotify { window: u32 },
    /// Anything else.
    Other,
}

/// Where an error arose.
#[derive(Clone, Copy, Debug, PartialEq, Eq, Structural)]
pub enum Phase {
    /// While a candidate window was being mapped.
    Mapping,
    /// While an event was being handled.
    EventHandling,
}

/// What follows an error.
#[derive(Clone, Copy, Debug, PartialEq, Eq, Structural)]
pub enum Reaction {
    /// Give up this window and go on with the next candidate.
    SkipWindow,
    /// Stop the render loop.
    Terminate,
}

/// What the render loop does with an event.
#[derive(Clone, Copy, Debug, PartialEq, Eq, Structural)]
pub enum LoopStep {
    /// Nothing.
    Ignore,
    /// Acknowledge the damage under `damage`, then render `window`.
    Render { window: u32, damage: u32 },
}

/// The step that belongs to an event, or the logic error of a damage
/// notification for a window that is not tracked.
pub open spec fn step_for(windows: Map<u32, TrackedWindow>, event: Event) -> Result<
    LoopStep,
    BridgeError,
> {
    match event {
        Event::DamageNotify { window } => if windows.contains_key(window) {
            Ok(LoopStep::Render { window, damage: windows[window].damage })
        } else {
            Err(BridgeError::Logic)
        },
        Event::Other => Ok(LoopStep::Ignore),
    }
}

/// An error stops the loop when it arises while an event is handled; while
/// a candidate is mapped it costs only that candidate.
pub open spec fn reaction_to(phase: Phase) -> Reaction {
    match phase {
        Phase::Mapping => Reaction::SkipWindow,
        Phase::EventHandling => Reaction::Terminate,
    }
}

/// Says what follows an error that arose in `phase`.
pub fn react(phase: Phase, error: BridgeError) -> (out: Reaction)
    ensures
        out == reaction_to(phase),
{
    match phase {
        Phase::Mapping => Reaction::SkipWindow,
        Phase::EventHandling => Reaction::Terminate,
    }
}

impl WindowRegistry {
    /// Decides what the render loop does with an event. Damage to a tracked
    /// window is acknowledged and the window rendered; damage to a window
    /// that is not tracked is a logic error; other events are ignored.
    pub fn dispatch(&self, event: Event) -> (out: Result<LoopStep, BridgeError>)
        ensures
            out == step_for(self@, event),
    {
        match event {
            Event::DamageNotify { window } => match self.get(window) {
                Some(found) => Ok(LoopStep::Render { window, damage: found.damage }),
                None => Err(BridgeError::Logic),
            },
            Event::Other => Ok(LoopStep::Ignore),
        }
    }
}

/// Damage that is reported for a window that is not tracked is never
/// passed over: it is a logic error, and the error stops the loop.
pub proof fn lemma_untracked_damage_stops_loop(windows: Map<u32, TrackedWindow>, window: u32)
    requires
        !windows.contains_key(window),
    ensures
        step_for(windows, Event::DamageNotify { window }) == Err::<LoopStep, BridgeError>(
            BridgeError::Logic,
        ),
        reaction_to(Phase::EventHandling) == Reaction::Terminate,
{
}

} // verus!
