//! What a simulating device remembers between the events that it replays:
//! where its own mouse is, and where the replayed mouse should be.
//!
//! A position is whatever the input library calls one; it is only kept and
//! handed back.

use vstd::prelude::*;

verus! {

/// The positions that a simulator keeps.
pub struct SimulatorState<P> {
    /// Where the device's own mouse was seen last.
    pub initial_position: Option<P>,
    /// Where the replayed mouse stands, while the device is the target.
    pub desired_position: Option<P>,
}

impl<P: Copy> SimulatorState<P> {
    /// A simulator that has seen no mouse and is not the target.
    pub fn new() -> (state: Self)
        ensures
            state == (SimulatorState::<P> { initial_position: None, desired_position: None }),
    {
        SimulatorState { initial_position: None, desired_position: None }
    }

    /// The device's own mouse was seen at `position`.
    pub fn local_mouse_changed(&mut self, position: P)
        ensures
            *final(self) == (SimulatorState {
                initial_position: Some(position),
                desired_position: old(self).desired_position,
            }),
    {
        self.initial_position = Some(position);
    }

    /// The device has become the target: replay starts where the device's
    /// own mouse was seen last.
    pub fn targetted(&mut self)
        ensures
            *final(self) == (SimulatorState {
                initial_position: old(self).initial_position,
                desired_position: old(self).initial_position,
            }),
    {
        self.desired_position = self.initial_position;
    }

    /// The device is no longer the target: nothing is replayed until it is
    /// targetted again.
    pub fn untargetted(&mut self)
        ensures
            *final(self) == (SimulatorState {
                initial_position: old(self).initial_position,
                desired_position: None,
            }),
    {
        self.desired_position = None;
    }

    /// Where an input event is to be replayed from. There is no such place
    /// while the device is not the target, or before its mouse was ever
    /// seen: the event is then dropped.
    pub fn replay_from(&self) -> (position: Option<P>)
        ensures
            position == self.desired_position,
    {
        self.desired_position
    }

    /// An event was replayed. If it moved the mouse, `moved_to` is where the
    /// mouse stands now.
    pub fn replayed(&mut self, moved_to: Option<P>)
        ensures
            *final(self) == (SimulatorState {
                initial_position: old(self).initial_position,
                desired_position: match moved_to {
                    Some(position) => Some(position),
                    None => old(self).desired_position,
                },
            }),
    {
        if let Some(position) = moved_to {
            self.desired_position = Some(position);
        }
    }
}

} // verus!
