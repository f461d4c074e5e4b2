//! The state machine of the supervision loop.

use vstd::prelude::*;
use crate::classifier::{is_ad, is_ad_track};
use crate::error::SupervisorError;
use crate::notification::PropertyChange;

verus! {

/// A change in who owns the player's name on the bus.
#[derive(Clone, Copy, Debug, PartialEq, Eq, Structural)]
pub enum OwnershipEvent {
    /// A process now owns the name.
    Gained,
    /// No process owns the name.
    Lost,
}

/// What the next loss of ownership means.
#[derive(Clone, Copy, Debug, PartialEq, Eq, Structural)]
pub enum OwnerLossPolicy {
    /// The player quit or crashed: supervision ends.
    ExitOnLoss,
    /// The supervisor itself has just restarted the player: the loss is
    /// expected and passed over, once.
    IgnoreNextLoss,
}

/// One event from either subscription.
#[derive(Debug, PartialEq, Eq)]
pub enum Event {
    /// Properties of the player changed.
    PropertyChanged(PropertyChange),
    /// The ownership of the player's name changed.
    OwnershipChanged(OwnershipEvent),
    /// A subscription reached its end: the connection is gone.
    StreamEnded,
}

/// What the loop does after an event.
#[derive(Clone, Copy, Debug, PartialEq, Eq, Structural)]
pub enum Action {
    /// Wait for the next event.
    Continue,
    /// Restart the player and resume playback, then report how that went.
    Restart,
    /// Leave the loop; supervision ends without an error.
    Exit,
}

/// The mutable state of the supervision loop.
#[derive(Clone, Copy, Debug, PartialEq, Eq, Structural)]
pub struct SupervisorState {
    /// How the next loss of ownership is treated.
    pub policy: OwnerLossPolicy,
}

/// The event is a notification whose track identifier names an
/// advertisement.
pub open spec fn is_ad_event(event: Event) -> bool {
    event matches Event::PropertyChanged(change) && change.track_identifier() matches Some(id)
        && is_ad_track(id)
}

/// The action that an event calls for under a policy.
pub open spec fn action_for(policy: OwnerLossPolicy, event: Event) -> Action {
    match event {
        Event::PropertyChanged(_) => if is_ad_event(event) {
            Action::Restart
        } else {
            Action::Continue
        },
        Event::OwnershipChanged(OwnershipEvent::Gained) => Action::Continue,
        Event::OwnershipChanged(OwnershipEvent::Lost) => match policy {
            OwnerLossPolicy::IgnoreNextLoss => Action::Continue,
            OwnerLossPolicy::ExitOnLoss => Action::Exit,
        },
        Event::StreamEnded => Action::Exit,
    }
}

/// The policy after an event. Only a loss of ownership changes it: the loss
/// uses up a pending `IgnoreNextLoss`.
pub open spec fn policy_after(policy: OwnerLossPolicy, event: Event) -> OwnerLossPolicy {
    match event {
        Event::OwnershipChanged(OwnershipEvent::Lost) => OwnerLossPolicy::ExitOnLoss,
        _ => policy,
    }
}

/// The policy once a restart has run: after one that succeeded the next
/// loss of ownership is the supervisor's own doing; one that failed changes
/// nothing.
pub open spec fn policy_after_restart(
    policy: OwnerLossPolicy,
    outcome: Result<(), SupervisorError>,
) -> OwnerLossPolicy {
    if outcome is Ok {
        OwnerLossPolicy::IgnoreNextLoss
    } else {
        policy
    }
}

impl OwnershipEvent {
    /// The event that a notification with the new owner of the name stands
    /// for: an owner means the name was gained, none that it was lost. Who
    /// the owner is plays no part.
    pub fn from_owner(new_owner: Option<&str>) -> (event: OwnershipEvent)
        ensures
            event == (if new_owner is Some {
                OwnershipEvent::Gained
            } else {
                OwnershipEvent::Lost
            }),
    {
        match new_owner {
            Some(_) => OwnershipEvent::Gained,
            None => OwnershipEvent::Lost,
        }
    }
}

impl SupervisorState {
    /// The state at startup: a loss of ownership ends supervision.
    pub fn new() -> (state: SupervisorState)
        ensures
            state.policy == OwnerLossPolicy::ExitOnLoss,
    {
        SupervisorState { policy: OwnerLossPolicy::ExitOnLoss }
    }

    /// Handles one event and says what the loop does next.
    ///
    /// A notification with the track identifier of an advertisement asks for
    /// a restart and leaves the policy as it is: the policy changes only once
    /// the restart has succeeded, through `restart_finished`. A notification
    /// without a track identifier, or with that of another track, is passed
    /// over. A gain of ownership is passed over. A loss of ownership is
    /// passed over once after a restart and ends the loop otherwise; after
    /// it the policy is `ExitOnLoss` in either case. The end of a
    /// subscription ends the loop.
    pub fn on_event(&mut self, event: &Event) -> (action: Action)
        ensures
            action == action_for(old(self).policy, *event),
            final(self).policy == policy_after(old(self).policy, *event),
    {
        match event {
            Event::PropertyChanged(change) => match change.track_id() {
                Some(id) => if is_ad(id.as_str()) {
                    Action::Restart
                } else {
                    Action::Continue
                },
                None => Action::Continue,
            },
            Event::OwnershipChanged(OwnershipEvent::Gained) => Action::Continue,
            Event::OwnershipChanged(OwnershipEvent::Lost) => match self.policy {
                OwnerLossPolicy::IgnoreNextLoss => {
                    self.policy = OwnerLossPolicy::ExitOnLoss;
                    Action::Continue
                },
                OwnerLossPolicy::ExitOnLoss => Action::Exit,
            },
            Event::StreamEnded => Action::Exit,
        }
    }

    /// Takes the outcome of the restart that `on_event` asked for. After a
    /// restart that succeeded the next loss of ownership is the supervisor's
    /// own doing, and the loop goes on. A restart that failed is fatal: its
    /// error is handed back as it came and the state stays as it was.
    pub fn restart_finished(&mut self, outcome: Result<(), SupervisorError>) -> (verdict: Result<
        (),
        SupervisorError,
    >)
        ensures
            verdict == outcome,
            final(self).policy == policy_after_restart(old(self).policy, outcome),
    {
        if outcome.is_ok() {
            self.policy = OwnerLossPolicy::IgnoreNextLoss;
        }
        outcome
    }
}

impl Default for OwnerLossPolicy {
    fn default() -> (policy: OwnerLossPolicy)
        ensures
            policy == OwnerLossPolicy::ExitOnLoss,
    {
        OwnerLossPolicy::ExitOnLoss
    }
}

impl Default for SupervisorState {
    fn default() -> (state: SupervisorState)
        ensures
            state.policy == OwnerLossPolicy::ExitOnLoss,
    {
        SupervisorState::new()
    }
}

} // verus!
