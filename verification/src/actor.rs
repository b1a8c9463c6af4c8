//! Actors: what stands on the map and moves over it, one timed action at
//! a time.

use vstd::prelude::*;
use vstd::string::StringExecFns;
use crate::console::{Color, Glyph};
use crate::description::{Describe, DescriptionView, Descriptions};
use crate::map::{Tile, TileMap};
use crate::util::{Direction, Pos, Position};

verus! {

/// The numbers of an actor. `speed` is the time one step takes.
#[derive(Clone, Copy, PartialEq, Eq, Debug, Structural)]
pub struct Stats {
    pub health: u32,
    pub max_health: u32,
    pub speed: u32,
}

/// How an actor is drawn.
#[derive(Clone, Copy, PartialEq, Eq, Debug, Structural)]
pub struct Graphics {
    pub symbol: char,
    pub fg: Color,
    pub bg: Color,
}

/// Why a move was not begun.
#[derive(Clone, Copy, Debug)]
pub enum ActionFailureReason<'a> {
    /// The tile ahead is solid. Where the map ends, it ends in a wall.
    BlockedByTile(Tile),
    /// An active actor stands on the cell ahead.
    BlockedByActor(&'a Actor),
}

impl<'a> ActionFailureReason<'a> {
    /// The identifier of what is in the way.
    pub open spec fn obstacle(&self) -> Seq<char> {
        match self {
            ActionFailureReason::BlockedByTile(tile) => tile.id(),
            ActionFailureReason::BlockedByActor(actor) => actor.id(),
        }
    }

    /// What the user is told, with the name that `descriptions` give to
    /// what is in the way.
    pub open spec fn text(&self, descriptions: Map<Seq<char>, DescriptionView>) -> Seq<char> {
        match self {
            ActionFailureReason::BlockedByTile(tile) => "You were blocked by "@
                + descriptions[tile.id()].name,
            ActionFailureReason::BlockedByActor(actor) => descriptions[actor.id()].name
                + " is in your way!"@,
        }
    }

    /// Says in words why the move was not begun.
    pub fn message(&self, descriptions: &Descriptions) -> (message: String)
        requires
            descriptions@.contains_key(self.obstacle()),
        ensures
            message@ == self.text(descriptions@),
    {
        match self {
            ActionFailureReason::BlockedByTile(tile) => {
                let mut message = String::from_str("You were blocked by ");
                message.append(tile.description(descriptions).name());
                message
            },
            ActionFailureReason::BlockedByActor(actor) => {
                let mut message = String::from_str(actor.description(descriptions).name());
                message.append(" is in your way!");
                message
            },
        }
    }
}

/// What an action does once its time has passed. More kinds of action
/// may come.
#[derive(Clone, Copy, PartialEq, Eq, Debug, Structural)]
#[non_exhaustive]
pub enum ActionKind {
    /// Nothing: the actor is idle.
    Idle,
    /// The actor arrives on the cell.
    MoveTo(Position),
}

/// What an actor is busy with, and for how much longer.
#[derive(Clone, Copy, PartialEq, Eq, Debug, Structural)]
pub struct Action {
    pub duration: u32,
    pub kind: ActionKind,
}

impl Action {
    /// The action of an actor that does nothing.
    pub open spec fn idle() -> Action {
        Action { duration: 0, kind: ActionKind::Idle }
    }

    /// Only an action that does something takes time.
    pub open spec fn wf(self) -> bool {
        self.kind is Idle ==> self.duration == 0
    }

    /// The action of an actor that does nothing.
    pub fn none() -> (a: Action)
        ensures
            a == Action::idle(),
    {
        Action { duration: 0, kind: ActionKind::Idle }
    }
}

/// Something that stands on a cell of the map and acts.
#[derive(Clone, Copy, PartialEq, Eq, Debug, Structural)]
pub struct Actor {
    pub active: bool,
    pub action: Action,
    pub pos: Position,
    pub stats: Stats,
    pub graphics: Graphics,
}

/// Every actor is described under the same identifier for now.
impl Describe for Actor {
    open spec fn id(&self) -> Seq<char> {
        "placeholer"@
    }

    fn desc_id(&self) -> (id: String) {
        String::from_str("placeholer")
    }
}

impl Actor {
    /// A fresh actor on the cell `pos`.
    pub open spec fn spawned(pos: Position) -> Actor {
        Actor {
            active: true,
            action: Action::idle(),
            pos: pos,
            stats: Stats { health: 10, max_health: 10, speed: 100 },
            graphics: Graphics { symbol: 'a', fg: Color::white(), bg: Color::black() },
        }
    }

    /// A fresh actor on the cell `pos`: active, idle, in full health, and
    /// drawn as a white `a` on black.
    pub fn new(pos: Position) -> (a: Actor)
        ensures
            a == Actor::spawned(pos),
    {
        Actor {
            active: true,
            action: Action::none(),
            pos: pos,
            stats: Stats { health: 10, max_health: 10, speed: 100 },
            graphics: Graphics { symbol: 'a', fg: Color::white(), bg: Color::black() },
        }
    }

    /// This actor drawn as `symbol`.
    pub open spec fn with_symbol(self, symbol: char) -> Actor {
        Actor { graphics: Graphics { symbol: symbol, ..self.graphics }, ..self }
    }

    /// The cell one step from this actor in direction `dir`, if the map
    /// has such a cell.
    pub open spec fn destination(self, dir: Direction, map: &TileMap) -> Option<Position> {
        dir.neighbour(self.pos, map.width() as nat, map.height() as nat)
    }

    /// The tile that a step in direction `dir` meets. Beyond its edge the
    /// map counts as wall.
    pub open spec fn tile_ahead(self, dir: Direction, map: &TileMap) -> Tile {
        match self.destination(dir, map) {
            Some(dest) => map.tile(dest),
            None => Tile::Wall,
        }
    }

    /// This actor once it has begun to move to `dest`: the move takes as
    /// long as the actor's speed says, and until then the actor stays
    /// where it is.
    pub open spec fn moving_to(self, dest: Position) -> Actor {
        Actor {
            action: Action { duration: self.stats.speed, kind: ActionKind::MoveTo(dest) },
            ..self
        }
    }

    /// Whether this actor keeps others off the cell `cell`.
    pub open spec fn occupies(self, cell: Position) -> bool {
        self.active && self.pos == cell
    }

    /// This actor after `elapsed` units of time. An idle actor stays as it
    /// is. A pending action whose time is used up takes effect and leaves
    /// the actor idle; otherwise its time shrinks by `elapsed`.
    pub open spec fn advanced(self, elapsed: u32) -> Actor {
        match self.action.kind {
            ActionKind::Idle => self,
            ActionKind::MoveTo(dest) => if self.action.duration <= elapsed {
                Actor { pos: dest, action: Action::idle(), ..self }
            } else {
                Actor {
                    action: Action {
                        duration: (self.action.duration - elapsed) as u32,
                        kind: self.action.kind,
                    },
                    ..self
                }
            },
        }
    }

    /// This actor after each of `steps` has passed, one after the other.
    pub open spec fn advanced_through(self, steps: Seq<u32>) -> Actor
        decreases steps.len(),
    {
        if steps.len() == 0 {
            self
        } else {
            self.advanced_through(steps.drop_last()).advanced(steps.last())
        }
    }

    /// What keeps this actor from a step in direction `dir`, if anything
    /// does: the tile ahead where it is solid, or else the first of
    /// `others` that occupies the cell ahead.
    pub open spec fn obstacle<'a>(
        self,
        dir: Direction,
        map: &TileMap,
        others: Seq<Actor>,
    ) -> Option<ActionFailureReason<'a>> {
        if self.tile_ahead(dir, map).solid() {
            Some(ActionFailureReason::BlockedByTile(self.tile_ahead(dir, map)))
        } else {
            match first_occupant(others, self.destination(dir, map)->0) {
                Some(i) => Some(ActionFailureReason::BlockedByActor(&others[i])),
                None => None,
            }
        }
    }

    /// Begins a step in direction `dir`. The step is not begun, and
    /// nothing changes, where the tile ahead is solid or one of `others`
    /// occupies the cell ahead; of several occupants the first in
    /// `others` is named. Otherwise the step begins: it succeeds exactly
    /// where the cell ahead is on the map, not solid and not occupied.
    pub fn move_direction<'a>(
        &mut self,
        dir: Direction,
        map: &TileMap,
        others: &'a Vec<Actor>,
    ) -> (r: Option<ActionFailureReason<'a>>)
        requires
            old(self).action.kind is Idle,
        ensures
            r == old(self).obstacle(dir, map, others@),
            r is Some ==> *final(self) == *old(self),
            r is None ==> *final(self) == old(self).moving_to(
                old(self).destination(dir, map)->0,
            ),
            r is None <==> (old(self).destination(dir, map) matches Some(dest) && !map.tile(
                dest,
            ).solid() && forall|i: int|
                0 <= i < others@.len() ==> !(#[trigger] others@[i]).occupies(dest)),
    {
        match dir.try_offset_position(self.pos, map) {
            None => Some(ActionFailureReason::BlockedByTile(Tile::Wall)),
            Some(move_pos) => {
                let tile = map.tile_at(move_pos);
                if tile.is_solid() {
                    return Some(ActionFailureReason::BlockedByTile(tile));
                }
                let mut i: usize = 0;
                while i < others.len()
                    invariant
                        i <= others@.len(),
                        *self == *old(self),
                        old(self).destination(dir, map) == Some(move_pos),
                        !old(self).tile_ahead(dir, map).solid(),
                        forall|j: int| 0 <= j < i ==> !(#[trigger] others@[j]).occupies(move_pos),
                    decreases others@.len() - i,
                {
                    if others[i].active && others[i].pos == move_pos {
                        proof {
                            lemma_first_occupant(others@, move_pos, i as int);
                        }
                        return Some(ActionFailureReason::BlockedByActor(&others[i]));
                    }
                    i += 1;
                }
                proof {
                    lemma_no_occupant(others@, move_pos);
                }
                self.action = Action {
                    duration: self.stats.speed,
                    kind: ActionKind::MoveTo(move_pos),
                };
                None
            },
        }
    }

    /// How this actor is drawn: its symbol in its colours on its cell.
    pub open spec fn drawn(self) -> Glyph {
        Glyph {
            position: Pos { x: self.pos.x as i32, y: self.pos.y as i32 },
            symbol: self.graphics.symbol,
            fg: self.graphics.fg,
            bg: self.graphics.bg,
        }
    }

    /// The character to draw this actor with.
    pub fn render(&self) -> (glyph: Glyph)
        ensures
            glyph == self.drawn(),
    {
        Glyph {
            position: Pos {
                x: #[verifier::truncate] (self.pos.x as i32),
                y: #[verifier::truncate] (self.pos.y as i32),
            },
            symbol: self.graphics.symbol,
            fg: self.graphics.fg,
            bg: self.graphics.bg,
        }
    }

    /// Lets `duration` units of time pass for this actor.
    pub fn update(&mut self, duration: u32)
        ensures
            *final(self) == old(self).advanced(duration),
    {
        match self.action.kind {
            ActionKind::Idle => {},
            ActionKind::MoveTo(pos) => {
                if self.action.duration <= duration {
                    self.pos = pos;
                    self.action = Action::none();
                } else {
                    self.action.duration = self.action.duration - duration;
                }
            },
        }
    }
}

/// The time that `steps` take together.
pub open spec fn total(steps: Seq<u32>) -> nat
    decreases steps.len(),
{
    if steps.len() == 0 {
        0
    } else {
        total(steps.drop_last()) + steps.last() as nat
    }
}

/// Time that passes in two steps does to an actor what the same time
/// does in one.
pub proof fn lemma_advanced_twice(actor: Actor, first: u32, second: u32)
    requires
        first + second <= u32::MAX,
    ensures
        actor.advanced(first).advanced(second) == actor.advanced((first + second) as u32),
{
}

/// An actor on its way stays where it is, and on its way, for as long as
/// less time has passed than its move takes: what has passed is taken off
/// the time left.
pub proof fn lemma_move_pending(actor: Actor, dest: Position, steps: Seq<u32>)
    requires
        actor.action.kind == ActionKind::MoveTo(dest),
        total(steps) < actor.action.duration,
    ensures
        actor.advanced_through(steps) == (Actor {
            action: Action {
                duration: (actor.action.duration - total(steps)) as u32,
                kind: ActionKind::MoveTo(dest),
            },
            ..actor
        }),
        actor.advanced_through(steps).pos == actor.pos,
    decreases steps.len(),
{
    if steps.len() > 0 {
        lemma_move_pending(actor, dest, steps.drop_last());
    }
}

/// An actor on its way has arrived, and is idle, once time has passed at
/// least once and as much of it as the move takes, or more.
pub proof fn lemma_move_completes(actor: Actor, dest: Position, steps: Seq<u32>)
    requires
        actor.action.kind == ActionKind::MoveTo(dest),
        steps.len() > 0,
        total(steps) >= actor.action.duration,
    ensures
        actor.advanced_through(steps) == (Actor { pos: dest, action: Action::idle(), ..actor }),
    decreases steps.len(),
{
    let init = steps.drop_last();
    if init.len() > 0 && total(init) >= actor.action.duration {
        lemma_move_completes(actor, dest, init);
    } else if total(init) < actor.action.duration {
        lemma_move_pending(actor, dest, init);
    }
}

/// A move that has begun ends on the cell it was begun for: where an
/// actor sets out for `dest` and time passes in steps that together are
/// as long as the actor's speed, the actor stands on `dest` and is idle,
/// and nothing else about it has changed.
pub proof fn lemma_move_round_trip(actor: Actor, dest: Position, steps: Seq<u32>)
    requires
        steps.len() > 0,
        total(steps) == actor.stats.speed,
    ensures
        actor.moving_to(dest).advanced_through(steps) == (Actor {
            pos: dest,
            action: Action::idle(),
            ..actor
        }),
{
    lemma_move_completes(actor.moving_to(dest), dest, steps);
}

/// The place in `others` of the first actor that occupies `cell`.
pub open spec fn first_occupant(others: Seq<Actor>, cell: Position) -> Option<int>
    decreases others.len(),
{
    if others.len() == 0 {
        None
    } else if others[0].occupies(cell) {
        Some(0)
    } else {
        match first_occupant(others.drop_first(), cell) {
            Some(i) => Some(i + 1),
            None => None,
        }
    }
}

/// The actor at `i` is the first occupant of `cell` where it occupies the
/// cell and none before it does.
pub proof fn lemma_first_occupant(others: Seq<Actor>, cell: Position, i: int)
    requires
        0 <= i < others.len(),
        others[i].occupies(cell),
        forall|j: int| 0 <= j < i ==> !(#[trigger] others[j]).occupies(cell),
    ensures
        first_occupant(others, cell) == Some(i),
    decreases others.len(),
{
    if i > 0 {
        lemma_first_occupant(others.drop_first(), cell, i - 1);
    }
}

/// No cell has a first occupant among actors none of which occupies it.
pub proof fn lemma_no_occupant(others: Seq<Actor>, cell: Position)
    requires
        forall|j: int| 0 <= j < others.len() ==> !(#[trigger] others[j]).occupies(cell),
    ensures
        first_occupant(others, cell) is None,
    decreases others.len(),
{
    if others.len() > 0 {
        lemma_no_occupant(others.drop_first(), cell);
    }
}

} // verus!
