//! What the keys do.

use vstd::prelude::*;
use vstd::string::StringExecFns;
use crate::actor::{ActionFailureReason, ActionKind};
use crate::console::KeyCode;
use crate::description::{Describe, DescriptionView, Descriptions};
use crate::log::{has_room, with_message, MessageLog};
use crate::util::Direction;
use crate::world::World;

verus! {

/// What the keys are read as. For now there is one way to read them: as
/// the keys of the game itself.
#[derive(Clone, Copy, PartialEq, Eq, Debug, Structural)]
pub enum InputState {
    Toplevel,
}

/// The reader of the keys.
pub struct Input {
    state: InputState,
    key_config: (),
}

/// The direction that a key stands for: the arrow keys and the even keys
/// of the number pad for the four sides, its corner keys for the
/// diagonals.
pub open spec fn direction_of(key: KeyCode) -> Option<Direction> {
    match key {
        KeyCode::Up | KeyCode::NumPad8 => Some(Direction::North),
        KeyCode::Down | KeyCode::NumPad2 => Some(Direction::South),
        KeyCode::Left | KeyCode::NumPad4 => Some(Direction::West),
        KeyCode::Right | KeyCode::NumPad6 => Some(Direction::East),
        KeyCode::NumPad7 => Some(Direction::NorthWest),
        KeyCode::NumPad9 => Some(Direction::NorthEast),
        KeyCode::NumPad1 => Some(Direction::SouthWest),
        KeyCode::NumPad3 => Some(Direction::SouthEast),
        KeyCode::Enter | KeyCode::Other => None,
    }
}

/// What the log is told of what is in the way: of a tile, that the
/// player is blocked by it, with its name; of an actor, that it is in the
/// way, with its name.
pub open spec fn complaint_about(
    reason: ActionFailureReason,
    descriptions: Map<Seq<char>, DescriptionView>,
) -> Seq<char> {
    match reason {
        ActionFailureReason::BlockedByTile(tile) => "You're blocked by "@
            + descriptions[tile.id()].name,
        ActionFailureReason::BlockedByActor(actor) => descriptions[actor.id()].name
            + " is in your way!"@,
    }
}

/// What the log is told when the player's step in direction `dir` is
/// blocked, by a solid tile or by one of the other actors of the world, or
/// `None` where the step begins.
pub open spec fn complaint(
    world: &World,
    dir: Direction,
    descriptions: Map<Seq<char>, DescriptionView>,
) -> Option<Seq<char>> {
    match world.player.actor.obstacle(dir, &world.map, world.actors@) {
        Some(reason) => Some(complaint_about(reason, descriptions)),
        None => None,
    }
}

/// Whether the key `key` can be taken: a key that stands for a direction
/// must find the player idle, and where the step is blocked, the
/// description of the tile or the actor in the way, and room in the log
/// for the complaint.
pub open spec fn ready_for(
    key: KeyCode,
    world: &World,
    descriptions: Map<Seq<char>, DescriptionView>,
    entries: Seq<(Seq<char>, u32)>,
) -> bool {
    match direction_of(key) {
        None => true,
        Some(dir) => {
            &&& world.player.actor.action.kind is Idle
            &&& match world.player.actor.obstacle(dir, &world.map, world.actors@) {
                None => true,
                Some(reason) => {
                    &&& descriptions.contains_key(reason.obstacle())
                    &&& has_room(entries, complaint_about(reason, descriptions))
                },
            }
        },
    }
}

/// What taking the key `key` does to the world and to the log. A key
/// that stands for no direction does nothing. One that does has the
/// player begin a step, or, where a solid tile or another actor blocks
/// the step, the log take in the complaint. The map, the other actors
/// and the queues stay as they are.
pub open spec fn key_taken(
    key: KeyCode,
    world: &World,
    world_after: &World,
    descriptions: Map<Seq<char>, DescriptionView>,
    log: &MessageLog,
    log_after: &MessageLog,
) -> bool {
    &&& world_after.map == world.map
    &&& world_after.actors == world.actors
    &&& world_after.items == world.items
    &&& world_after.spawns == world.spawns
    &&& log_after.scroll == log.scroll
    &&& match direction_of(key) {
        None => world_after.player == world.player && log_after.entries() == log.entries(),
        Some(dir) => match complaint(world, dir, descriptions) {
            Some(msg) => world_after.player == world.player && log_after.entries()
                == with_message(log.entries(), msg),
            None => world_after.player.actor == world.player.actor.moving_to(
                world.player.actor.destination(dir, &world.map)->0,
            ) && log_after.entries() == log.entries(),
        },
    }
}

/// Puts in words for the log what is in the player's way.
fn complain(reason: &ActionFailureReason, descriptions: &Descriptions) -> (message: String)
    requires
        descriptions@.contains_key(reason.obstacle()),
    ensures
        message@ == complaint_about(*reason, descriptions@),
{
    match reason {
        ActionFailureReason::BlockedByTile(tile) => {
            let mut message = String::from_str("You're blocked by ");
            message.append(tile.description(descriptions).name());
            message
        },
        ActionFailureReason::BlockedByActor(_) => reason.message(descriptions),
    }
}

impl Input {
    /// What the keys are read as.
    pub closed spec fn state(&self) -> InputState {
        self.state
    }

    /// A reader that reads the keys as those of the game itself.
    pub fn new() -> (input: Input)
        ensures
            input.state() == InputState::Toplevel,
    {
        Input { state: InputState::Toplevel, key_config: () }
    }

    /// Whether the key `key` can be taken.
    pub fn ready(
        key: KeyCode,
        world: &World,
        descriptions: &Descriptions,
        log: &MessageLog,
    ) -> (ready: bool)
        ensures
            ready == ready_for(key, world, descriptions@, log.entries()),
    {
        match Input::directional_key(key) {
            None => true,
            Some(direction) => {
                if world.player.actor.action.kind != ActionKind::Idle {
                    return false;
                }
                let mut trial = world.player.actor;
                match trial.move_direction(direction, &world.map, &world.actors) {
                    None => true,
                    Some(reason) => {
                        let found = match reason {
                            ActionFailureReason::BlockedByTile(tile) => descriptions.get(
                                tile.desc_id().as_str(),
                            ).is_some(),
                            ActionFailureReason::BlockedByActor(actor) => descriptions.get(
                                actor.desc_id().as_str(),
                            ).is_some(),
                        };
                        found && log.can_add(&complain(&reason, descriptions))
                    },
                }
            },
        }
    }

    /// Takes a key that was pressed. A key that stands for a direction has
    /// the player begin a step that way; where a solid tile or another
    /// actor of the world blocks the step, the log is told what is in
    /// the way. Other keys do nothing.
    pub fn update(
        &mut self,
        key: KeyCode,
        world: &mut World,
        descriptions: &Descriptions,
        log: &mut MessageLog,
    )
        requires
            ready_for(key, old(world), descriptions@, old(log).entries()),
        ensures
            final(self).state() == old(self).state(),
            key_taken(key, old(world), final(world), descriptions@, old(log), final(log)),
    {
        let new_state = match self.state {
            InputState::Toplevel => self.update_toplevel(key, world, descriptions, log),
        };
        if let Some(new_state) = new_state {
            self.state = new_state;
        }
    }

    fn update_toplevel(
        &mut self,
        key: KeyCode,
        world: &mut World,
        descriptions: &Descriptions,
        log: &mut MessageLog,
    ) -> (next: Option<InputState>)
        requires
            ready_for(key, old(world), descriptions@, old(log).entries()),
        ensures
            next is None,
            *final(self) == *old(self),
            key_taken(key, old(world), final(world), descriptions@, old(log), final(log)),
    {
        if let Some(direction) = Input::directional_key(key) {
            let maybe_reason = world.player.actor.move_direction(
                direction,
                &world.map,
                &world.actors,
            );
            if let Some(reason) = maybe_reason {
                log.add_message(complain(&reason, descriptions));
            }
        }
        None
    }

    /// The direction that a key stands for, if it stands for one.
    pub fn directional_key(key: KeyCode) -> (dir: Option<Direction>)
        ensures
            dir == direction_of(key),
    {
        match key {
            KeyCode::Up | KeyCode::NumPad8 => Some(Direction::North),
            KeyCode::Down | KeyCode::NumPad2 => Some(Direction::South),
            KeyCode::Left | KeyCode::NumPad4 => Some(Direction::West),
            KeyCode::Right | KeyCode::NumPad6 => Some(Direction::East),
            KeyCode::NumPad7 => Some(Direction::NorthWest),
            KeyCode::NumPad9 => Some(Direction::NorthEast),
            KeyCode::NumPad1 => Some(Direction::SouthWest),
            KeyCode::NumPad3 => Some(Direction::SouthEast),
            _ => None,
        }
    }
}

} // verus!
