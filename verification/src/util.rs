//! Grid coordinates and the eight compass directions.

use vstd::prelude::*;
use crate::map::TileMap;

verus! {

/// A cell of the world grid.
pub type Position = Pos<u32>;

/// A cell of the screen.
pub type ScreenPos = Pos<i32>;

/// A pair of coordinates.
#[derive(Clone, Copy, PartialEq, Eq, Debug, Structural)]
pub struct Pos<N> {
    pub x: N,
    pub y: N,
}

impl<N> Pos<N> {
    /// The pair of `x` and `y`.
    pub fn new(x: N, y: N) -> (p: Pos<N>)
        ensures
            p == (Pos { x: x, y: y }),
    {
        Pos { x: x, y: y }
    }
}

/// A position as a pair, each coordinate converted.
impl<M: Into<N>, N> Into<(N, N)> for Pos<M> {
    fn into(self) -> (pair: (N, N)) {
        (self.x.into(), self.y.into())
    }
}

impl<M: Into<N>, N> vstd::std_specs::convert::IntoSpecImpl<(N, N)> for Pos<M> {
    open spec fn obeys_into_spec() -> bool {
        <M as vstd::std_specs::convert::IntoSpec<N>>::obeys_into_spec()
    }

    open spec fn into_spec(self) -> (N, N) {
        (
            <M as vstd::std_specs::convert::IntoSpec<N>>::into_spec(self.x),
            <M as vstd::std_specs::convert::IntoSpec<N>>::into_spec(self.y),
        )
    }
}

/// A pair as a position: `x` first, then `y`.
impl<N> From<(N, N)> for Pos<N> {
    fn from(crds: (N, N)) -> (p: Pos<N>) {
        Pos::new(crds.0, crds.1)
    }
}

impl<N> vstd::std_specs::convert::FromSpecImpl<(N, N)> for Pos<N> {
    open spec fn obeys_from_spec() -> bool {
        true
    }

    open spec fn from_spec(crds: (N, N)) -> Pos<N> {
        Pos { x: crds.0, y: crds.1 }
    }
}

/// One of the eight neighbours of a cell.
#[derive(Clone, Copy, PartialEq, Eq, Debug, Structural)]
pub enum Direction {
    North,
    East,
    South,
    West,
    NorthEast,
    NorthWest,
    SouthEast,
    SouthWest,
}

impl Direction {
    /// The step along the x axis: east is positive.
    pub open spec fn dx(self) -> int {
        match self {
            Direction::East | Direction::NorthEast | Direction::SouthEast => 1,
            Direction::West | Direction::NorthWest | Direction::SouthWest => -1,
            Direction::North | Direction::South => 0,
        }
    }

    /// The step along the y axis: south is positive.
    pub open spec fn dy(self) -> int {
        match self {
            Direction::South | Direction::SouthEast | Direction::SouthWest => 1,
            Direction::North | Direction::NorthEast | Direction::NorthWest => -1,
            Direction::East | Direction::West => 0,
        }
    }

    /// The neighbour of `pos` in this direction on a grid of `width` by
    /// `height` cells, or `None` where that neighbour would lie off the grid.
    pub open spec fn neighbour(self, pos: Position, width: nat, height: nat) -> Option<Position> {
        let x = pos.x + self.dx();
        let y = pos.y + self.dy();
        if 0 <= x < width && 0 <= y < height && x <= u32::MAX && y <= u32::MAX {
            Some(Pos { x: x as u32, y: y as u32 })
        } else {
            None
        }
    }

    /// Steps from `pos` in this direction, staying on the map.
    pub fn try_offset_position(self, pos: Position, map: &TileMap) -> (r: Option<Position>)
        ensures
            r == self.neighbour(pos, map.width() as nat, map.height() as nat),
    {
        let (ox, oy): (i64, i64) = match self {
            Direction::North => (0, -1),
            Direction::East => (1, 0),
            Direction::South => (0, 1),
            Direction::West => (-1, 0),
            Direction::NorthEast => (1, -1),
            Direction::NorthWest => (-1, -1),
            Direction::SouthEast => (1, 1),
            Direction::SouthWest => (-1, 1),
        };
        let x: i64 = pos.x as i64 + ox;
        let y: i64 = pos.y as i64 + oy;
        let width: usize = map.width();
        let height: usize = map.height();
        if 0 <= x && x <= u32::MAX as i64 && 0 <= y && y <= u32::MAX as i64
            && (x as u64) < width as u64 && (y as u64) < height as u64 {
            Some(Pos::new(x as u32, y as u32))
        } else {
            None
        }
    }

    /// Steps from `pos` in this direction; the caller has made sure that
    /// the neighbour is on the map.
    pub fn offset_position(self, pos: Position, map: &TileMap) -> (r: Position)
        requires
            self.neighbour(pos, map.width() as nat, map.height() as nat) is Some,
        ensures
            Some(r) == self.neighbour(pos, map.width() as nat, map.height() as nat),
    {
        match self.try_offset_position(pos, map) {
            Some(p) => p,
            None => vstd::pervasive::unreached(),
        }
    }
}

/// No step leaves the grid: a step to the west from the first column, to
/// the north from the first row, to the east from the last column or to
/// the south from the last row has no neighbour to arrive at. Nor has a
/// step to a cell whose coordinates no position can hold. A neighbour
/// that there is lies on the grid, one step away.
pub proof fn lemma_no_step_off_the_grid(dir: Direction, pos: Position, width: nat, height: nat)
    ensures
        pos.x == 0 && dir.dx() < 0 ==> dir.neighbour(pos, width, height) is None,
        pos.y == 0 && dir.dy() < 0 ==> dir.neighbour(pos, width, height) is None,
        pos.x + 1 >= width && dir.dx() > 0 ==> dir.neighbour(pos, width, height) is None,
        pos.y + 1 >= height && dir.dy() > 0 ==> dir.neighbour(pos, width, height) is None,
        pos.x == u32::MAX && dir.dx() > 0 ==> dir.neighbour(pos, width, height) is None,
        pos.y == u32::MAX && dir.dy() > 0 ==> dir.neighbour(pos, width, height) is None,
        dir.neighbour(pos, width, height) matches Some(next) ==> next.x < width && next.y
            < height && next.x == pos.x + dir.dx() && next.y == pos.y + dir.dy(),
{
}

} // verus!
