use atina::actor::{Action, ActionFailureReason, ActionKind, Actor};
use atina::map::{MapConfig, MapLoadingError, Tile, TileMap};
use atina::util::{Direction, Pos, Position};

fn config(width: usize, height: usize, player: (u32, u32), layout: &str) -> MapConfig {
    MapConfig {
        dimensions: Pos::new(width, height),
        player_position: Pos::new(player.0, player.1),
        layout: layout.to_string(),
    }
}

fn room() -> TileMap {
    TileMap::load(config(4, 3, (1, 1), "#..T\n. +.\n....\n")).unwrap()
}

#[test]
fn a_move_onto_open_ground_starts_an_action_of_the_actors_speed() {
    let map = room();
    let mut actor = Actor::new(Pos::new(1, 0));
    actor.stats.speed = 70;
    let nobody = Vec::new();
    let blocked = actor.move_direction(Direction::South, &map, &nobody);
    assert!(blocked.is_none());
    assert_eq!(actor.action, Action { duration: 70, kind: ActionKind::MoveTo(Pos::new(1, 1)) });
    assert_eq!(actor.pos, Pos::new(1, 0));
}

#[test]
fn a_move_into_a_solid_tile_changes_nothing_and_names_the_tile() {
    let map = room();
    let mut actor = Actor::new(Pos::new(1, 0));
    let before = actor;
    match actor.move_direction(Direction::West, &map, &Vec::new()) {
        Some(ActionFailureReason::BlockedByTile(tile)) => assert_eq!(tile, Tile::Wall),
        _ => panic!("the wall did not block"),
    }
    assert_eq!(actor, before);
    match actor.move_direction(Direction::SouthEast, &map, &Vec::new()) {
        Some(ActionFailureReason::BlockedByTile(tile)) => assert_eq!(tile, Tile::Rock),
        _ => panic!("the rock did not block"),
    }
    assert_eq!(actor, before);
}

#[test]
fn the_edge_of_the_map_blocks_like_a_wall() {
    let map = room();
    let mut actor = Actor::new(Pos::new(0, 1));
    let before = actor;
    match actor.move_direction(Direction::West, &map, &Vec::new()) {
        Some(ActionFailureReason::BlockedByTile(tile)) => assert_eq!(tile, Tile::Wall),
        _ => panic!("the edge did not block"),
    }
    assert_eq!(actor, before);
}

#[test]
fn no_step_leaves_the_map() {
    let map = room();
    let origin: Position = Pos::new(0, 0);
    assert_eq!(Direction::West.try_offset_position(origin, &map), None);
    assert_eq!(Direction::NorthWest.try_offset_position(origin, &map), None);
    assert_eq!(Direction::SouthWest.try_offset_position(origin, &map), None);
    assert_eq!(Direction::North.try_offset_position(origin, &map), None);
    assert_eq!(Direction::NorthEast.try_offset_position(origin, &map), None);
    assert_eq!(Direction::East.try_offset_position(origin, &map), Some(Pos::new(1, 0)));
    assert_eq!(Direction::South.try_offset_position(origin, &map), Some(Pos::new(0, 1)));
    assert_eq!(Direction::SouthEast.try_offset_position(origin, &map), Some(Pos::new(1, 1)));
    let corner: Position = Pos::new(3, 2);
    assert_eq!(Direction::East.try_offset_position(corner, &map), None);
    assert_eq!(Direction::South.try_offset_position(corner, &map), None);
    assert_eq!(Direction::SouthEast.try_offset_position(corner, &map), None);
    assert_eq!(Direction::NorthEast.try_offset_position(corner, &map), None);
    assert_eq!(Direction::SouthWest.try_offset_position(corner, &map), None);
    assert_eq!(Direction::NorthWest.try_offset_position(corner, &map), Some(Pos::new(2, 1)));
    let far: Position = Pos::new(u32::MAX, u32::MAX);
    assert_eq!(Direction::East.try_offset_position(far, &map), None);
    assert_eq!(Direction::West.try_offset_position(far, &map), None);
}

#[test]
fn a_map_is_read_row_by_row() {
    let map = room();
    assert_eq!(map.width(), 4);
    assert_eq!(map.height(), 3);
    assert_eq!(map.player_position(), Pos::new(1, 1));
    assert_eq!(map.tile_at(Pos::new(0, 0)), Tile::Wall);
    assert_eq!(map.tile_at(Pos::new(3, 0)), Tile::Tree);
    assert_eq!(map.tile_at(Pos::new(1, 1)), Tile::Floor);
    assert_eq!(map.tile_at(Pos::new(2, 1)), Tile::Rock);
    assert_eq!(map.tile_at(Pos::new(3, 2)), Tile::Ground);
}

#[test]
fn a_layout_of_the_wrong_shape_is_refused() {
    match TileMap::load(config(4, 2, (0, 0), "....\n....\n....")) {
        Err(MapLoadingError::InvalidHeight(3, 2)) => {}
        other => panic!("{:?}", other.map(|_| ())),
    }
    match TileMap::load(config(4, 2, (0, 0), "....\n...")) {
        Err(MapLoadingError::InvalidWidth(3, 4)) => {}
        other => panic!("{:?}", other.map(|_| ())),
    }
    match TileMap::load(config(4, 2, (0, 0), "..x.\n...")) {
        Err(MapLoadingError::InvalidTile('x')) => {}
        other => panic!("{:?}", other.map(|_| ())),
    }
}

#[test]
fn a_move_begins_exactly_where_the_cell_ahead_is_free() {
    let map = room();
    let others = vec![Actor::new(Pos::new(1, 1))];
    for (dir, free) in [
        (Direction::North, false),
        (Direction::NorthEast, false),
        (Direction::East, true),
        (Direction::SouthEast, false),
        (Direction::South, false),
        (Direction::SouthWest, true),
        (Direction::West, false),
        (Direction::NorthWest, false),
    ] {
        let mut actor = Actor::new(Pos::new(1, 0));
        let before = actor;
        let begun = actor.move_direction(dir, &map, &others).is_none();
        assert_eq!(begun, free, "{:?}", dir);
        assert_eq!(actor.action != Action::none(), free, "{:?}", dir);
        assert_eq!(actor.pos, before.pos);
        if !free {
            assert_eq!(actor, before);
        }
    }
}
