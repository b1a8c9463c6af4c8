//! The actor that the user steers.

use vstd::prelude::*;
use crate::actor::Actor;
use crate::util::Position;

verus! {

/// The user's own actor, kept apart from the others of the world.
#[derive(Clone, Copy, PartialEq, Eq, Debug, Structural)]
pub struct Player {
    pub actor: Actor,
}

impl Player {
    /// A player whose actor is fresh and stands on the cell `pos`.
    pub fn new(pos: Position) -> (p: Player)
        ensures
            p.actor == Actor::spawned(pos),
    {
        Player { actor: Actor::new(pos) }
    }

    /// Lets `duration` units of time pass for the player's actor.
    pub fn update(&mut self, duration: u32)
        ensures
            final(self).actor == old(self).actor.advanced(duration),
    {
        self.actor.update(duration);
    }
}

} // verus!
