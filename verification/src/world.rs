//! The world: a map, the player, the other actors, and the clock that
//! all of them share.

use vstd::prelude::*;
use crate::actor::{lemma_advanced_twice, Action, Actor};
use crate::console::Glyph;
use crate::map::{MapConfig, MapLoadingError, TileMap};
use crate::player::Player;
use crate::util::Position;

verus! {

/// A request to bring something new into the world. The world keeps such
/// requests in a queue and drops them at the end of a turn: what they
/// should do is not settled yet.
#[derive(Clone, Copy, PartialEq, Eq, Debug, Structural)]
pub enum SpawnCommands {
    SpawnItem,
    SpawnActor(Position),
}

/// Something that lies on the map.
#[derive(Clone, Copy, PartialEq, Eq, Debug, Structural)]
pub struct Item {}

/// A map with everything on it. The player and the other actors each
/// have at most one action pending; a turn lets time pass for all of them
/// alike.
pub struct World {
    pub map: TileMap,
    pub player: Player,
    pub actors: Vec<Actor>,
    pub items: Vec<Item>,
    pub spawns: Vec<SpawnCommands>,
}

/// The shortest of the durations that are not zero, or zero where all
/// are.
pub open spec fn shortest_pending(durations: Seq<u32>) -> u32
    decreases durations.len(),
{
    if durations.len() == 0 {
        0
    } else {
        let rest = shortest_pending(durations.drop_last());
        let last = durations.last();
        if last != 0 && (rest == 0 || last < rest) {
            last
        } else {
            rest
        }
    }
}

/// The actors of `roster` after `elapsed` units of time, without those
/// that are not active.
pub open spec fn survivors(roster: Seq<Actor>, elapsed: u32) -> Seq<Actor> {
    roster.map_values(|a: Actor| a.advanced(elapsed)).filter(|a: Actor| a.active)
}

/// `shortest_pending` is zero exactly where every duration is. Otherwise
/// it is one of the durations, and no duration but zero is shorter.
pub proof fn lemma_shortest_pending(durations: Seq<u32>)
    ensures
        shortest_pending(durations) == 0 <==> forall|i: int|
            0 <= i < durations.len() ==> durations[i] == 0,
        shortest_pending(durations) != 0 ==> durations.contains(shortest_pending(durations)),
        forall|i: int|
            0 <= i < durations.len() && durations[i] != 0 ==> shortest_pending(durations)
                <= durations[i],
    decreases durations.len(),
{
    if durations.len() > 0 {
        let init = durations.drop_last();
        lemma_shortest_pending(init);
        assert forall|i: int| 0 <= i < init.len() implies durations[i] == init[i] by {}
    }
}

impl World {
    /// A world on the map that `config` describes. The player stands where
    /// the map says, and there is no other actor yet.
    pub fn new(config: MapConfig) -> (r: Result<World, MapLoadingError>)
        ensures
            match r {
                Ok(world) => {
                    &&& config.fault() is None
                    &&& world.map.built_from(&config)
                    &&& world.player.actor == Actor::spawned(config.player_position).with_symbol('@')
                    &&& world.actors@.len() == 0
                    &&& world.items@.len() == 0
                    &&& world.spawns@.len() == 0
                },
                Err(e) => config.fault() == Some(e),
            },
    {
        match TileMap::load(config) {
            Err(e) => Err(e),
            Ok(map) => {
                let mut player = Player::new(map.player_position());
                player.actor.graphics.symbol = '@';
                Ok(
                    World {
                        map: map,
                        player: player,
                        actors: Vec::new(),
                        items: Vec::new(),
                        spawns: Vec::new(),
                    },
                )
            },
        }
    }

    /// The time that each actor's action still takes: the player's first,
    /// then those of the others.
    pub open spec fn durations(&self) -> Seq<u32> {
        seq![self.player.actor.action.duration] + self.actors@.map_values(
            |a: Actor| a.action.duration,
        )
    }

    /// Whether no actor has time left on an action.
    pub open spec fn quiescent(&self) -> bool {
        &&& self.player.actor.action.duration == 0
        &&& forall|i: int| 0 <= i < self.actors@.len() ==> (#[trigger] self.actors@[i]).action.duration == 0
    }

    /// The time until the next action ends: the shortest of the times
    /// left, or zero where no actor has time left on an action.
    pub open spec fn next_step(&self) -> u32 {
        shortest_pending(self.durations())
    }

    /// Whether the player's action has time left.
    pub fn player_is_performing_action(&self) -> (b: bool)
        ensures
            b == (self.player.actor.action.duration > 0),
    {
        self.player.actor.action.duration > 0
    }

    /// The time until the next action ends.
    pub fn shortest_action_duration(&self) -> (d: u32)
        ensures
            d == self.next_step(),
            d == 0 <==> self.quiescent(),
    {
        let mut shortest: u32 = self.player.actor.action.duration;
        let ghost durations = self.durations();
        assert(durations.take(1).drop_last() =~= Seq::<u32>::empty());
        assert(shortest_pending(Seq::<u32>::empty()) == 0);
        assert(durations.take(1).last() == shortest);
        let mut i: usize = 0;
        while i < self.actors.len()
            invariant
                i <= self.actors@.len(),
                durations == self.durations(),
                shortest == shortest_pending(durations.take(i + 1)),
            decreases self.actors@.len() - i,
        {
            let duration: u32 = self.actors[i].action.duration;
            assert(durations.take(i + 2).drop_last() =~= durations.take(i + 1));
            if duration != 0 && (shortest == 0 || duration < shortest) {
                shortest = duration;
            }
            i = i + 1;
        }
        proof {
            assert(durations.take(i + 1) =~= durations);
            lemma_shortest_pending(durations);
            if shortest == 0 {
                assert forall|k: int| 0 <= k < self.actors@.len() implies (
                #[trigger] self.actors@[k]).action.duration == 0 by {
                    assert(durations[k + 1] == self.actors@[k].action.duration);
                }
            }
            if self.quiescent() {
                assert forall|k: int| 0 <= k < durations.len() implies durations[k] == 0 by {}
            }
        }
        shortest
    }

    /// One turn. Where no actor has time left on an action, nothing
    /// changes. Otherwise as much time passes for every actor as the
    /// shortest action still takes, the actors that are not active leave
    /// the world, and the queue of spawn requests is emptied. The time
    /// that has passed is returned.
    pub fn update(&mut self) -> (elapsed: u32)
        ensures
            elapsed == old(self).next_step(),
            old(self).quiescent() ==> elapsed == 0 && *final(self) == *old(self),
            !old(self).quiescent() ==> {
                &&& old(self).next_step() > 0
                &&& final(self).map == old(self).map
                &&& final(self).player.actor == old(self).player.actor.advanced(
                    old(self).next_step(),
                )
                &&& final(self).actors@ == survivors(old(self).actors@, old(self).next_step())
                &&& final(self).items == old(self).items
                &&& final(self).spawns@.len() == 0
                &&& forall|i: int|
                    0 <= i < final(self).actors@.len() ==> (#[trigger] final(self).actors@[i]).active
            },
    {
        let duration: u32 = self.shortest_action_duration();
        if duration == 0 {
            return 0;
        }
        self.player.update(duration);
        let ghost roster = self.actors@;
        let mut kept: Vec<Actor> = Vec::new();
        let mut i: usize = 0;
        proof {
            lemma_survivors_empty(duration);
        }
        while i < self.actors.len()
            invariant
                i <= roster.len(),
                roster == self.actors@,
                kept@ == survivors(roster.take(i as int), duration),
            decreases roster.len() - i,
        {
            let mut actor: Actor = self.actors[i];
            actor.update(duration);
            proof {
                assert(roster.take(i + 1) =~= roster.take(i as int).push(roster[i as int]));
                lemma_survivors_push(roster.take(i as int), roster[i as int], duration);
            }
            if actor.active {
                kept.push(actor);
            }
            i = i + 1;
        }
        proof {
            assert(roster.take(i as int) =~= roster);
            lemma_survivors_active(roster, duration);
        }
        self.actors = kept;
        self.spawns.clear();
        duration
    }

    /// How the world is drawn: the map first, over it the actors, over
    /// them the player.
    pub fn render(&self) -> (glyphs: Vec<Glyph>)
        ensures
            glyphs@ == self.map.drawn() + self.actors@.map_values(|a: Actor| a.drawn()).push(
                self.player.actor.drawn(),
            ),
    {
        let mut glyphs: Vec<Glyph> = self.map.render();
        let ghost below = glyphs@;
        let ghost drawn = self.actors@.map_values(|a: Actor| a.drawn());
        let mut i: usize = 0;
        while i < self.actors.len()
            invariant
                i <= self.actors@.len(),
                drawn == self.actors@.map_values(|a: Actor| a.drawn()),
                glyphs@ == below + drawn.take(i as int),
            decreases self.actors@.len() - i,
        {
            glyphs.push(self.actors[i].render());
            i = i + 1;
        }
        glyphs.push(self.player.actor.render());
        glyphs
    }

    /// Takes turns until the player's action has ended. All the time that
    /// the action still took has then passed for every actor, as if in one
    /// step.
    pub fn finish_player_action(&mut self)
        requires
            old(self).player.actor.action.wf(),
        ensures
            old(self).player.actor.action.duration == 0 ==> *final(self) == *old(self),
            old(self).player.actor.action.duration > 0 ==> {
                &&& final(self).map == old(self).map
                &&& final(self).player.actor == old(self).player.actor.advanced(
                    old(self).player.actor.action.duration,
                )
                &&& final(self).player.actor.action == Action::idle()
                &&& final(self).actors@ == survivors(
                    old(self).actors@,
                    old(self).player.actor.action.duration,
                )
                &&& final(self).items == old(self).items
                &&& final(self).spawns@.len() == 0
            },
    {
        let ghost first = *self;
        let ghost whole = self.player.actor.action.duration;
        let ghost passed: u32 = 0;
        while self.player_is_performing_action()
            invariant
                first == *old(self),
                whole == first.player.actor.action.duration,
                first.player.actor.action.wf(),
                passed <= whole,
                self.player.actor.action.duration == whole - passed,
                passed == 0 ==> *self == first,
                passed > 0 ==> {
                    &&& self.map == first.map
                    &&& self.player.actor == first.player.actor.advanced(passed)
                    &&& self.actors@ == survivors(first.actors@, passed)
                    &&& self.items == first.items
                    &&& self.spawns@.len() == 0
                },
            decreases self.player.actor.action.duration,
        {
            let ghost before = *self;
            proof {
                lemma_shortest_pending(self.durations());
                assert(self.durations()[0] == self.player.actor.action.duration);
            }
            let _ = self.update();
            proof {
                let step = before.next_step();
                lemma_advanced_twice(first.player.actor, passed, step);
                if passed > 0 {
                    lemma_survivors_twice(first.actors@, passed, step);
                }
                passed = (passed + step) as u32;
            }
        }
    }
}

/// An empty roster has no survivors.
pub proof fn lemma_survivors_empty(elapsed: u32)
    ensures
        survivors(Seq::<Actor>::empty(), elapsed) == Seq::<Actor>::empty(),
{
    reveal(Seq::filter);
    assert(Seq::<Actor>::empty().map_values(|a: Actor| a.advanced(elapsed)) =~= Seq::<
        Actor,
    >::empty());
}

/// The survivors of a roster and one more actor are those of the roster,
/// and the actor too where it is active.
pub proof fn lemma_survivors_push(roster: Seq<Actor>, actor: Actor, elapsed: u32)
    ensures
        survivors(roster.push(actor), elapsed) == if actor.active {
            survivors(roster, elapsed).push(actor.advanced(elapsed))
        } else {
            survivors(roster, elapsed)
        },
{
    let advance = |a: Actor| a.advanced(elapsed);
    let active = |a: Actor| a.active;
    assert(roster.push(actor).map_values(advance) =~= roster.map_values(advance).push(
        actor.advanced(elapsed),
    ));
    roster.map_values(advance).lemma_filter_push(actor.advanced(elapsed), active);
}

/// Turns that follow each other leave the actors that one turn of the
/// same length leaves.
pub proof fn lemma_survivors_twice(roster: Seq<Actor>, first: u32, second: u32)
    requires
        first + second <= u32::MAX,
    ensures
        survivors(survivors(roster, first), second) == survivors(roster, (first + second) as u32),
    decreases roster.len(),
{
    if roster.len() == 0 {
        lemma_survivors_empty(first);
        lemma_survivors_empty(second);
        lemma_survivors_empty((first + second) as u32);
    } else {
        let init = roster.drop_last();
        let last = roster.last();
        assert(roster =~= init.push(last));
        lemma_survivors_twice(init, first, second);
        lemma_survivors_push(init, last, first);
        lemma_survivors_push(init, last, (first + second) as u32);
        if last.active {
            lemma_survivors_push(survivors(init, first), last.advanced(first), second);
            lemma_advanced_twice(last, first, second);
        }
    }
}

/// Every survivor is active.
pub proof fn lemma_survivors_active(roster: Seq<Actor>, elapsed: u32)
    ensures
        forall|i: int|
            0 <= i < survivors(roster, elapsed).len() ==> (#[trigger] survivors(
                roster,
                elapsed,
            )[i]).active,
{
    let advanced = roster.map_values(|a: Actor| a.advanced(elapsed));
    let active = |a: Actor| a.active;
    assert forall|i: int| 0 <= i < advanced.filter(active).len() implies (
    #[trigger] advanced.filter(active)[i]).active by {
        advanced.lemma_filter_pred(active, i);
    }
}

} // verus!
