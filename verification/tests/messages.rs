use atina::actor::{ActionFailureReason, Actor};
use atina::description::{load_descriptions, Describe, Description, Descriptions};
use atina::log::{append_decimal, MessageLog, MAX_MESSAGES};
use atina::map::Tile;
use atina::util::Pos;

fn described(name: &str) -> Description {
    Description::new(name.to_string(), format!("This is {}.", name))
}

fn tiles() -> Descriptions {
    load_descriptions(vec![
        ("floor".to_string(), described("the floor")),
        ("ground".to_string(), described("the ground")),
        ("rock".to_string(), described("a rock")),
        ("tree".to_string(), described("a tree")),
        ("wall".to_string(), described("a wall")),
    ])
}

fn decimal(n: u32) -> String {
    let mut text = String::new();
    append_decimal(&mut text, n);
    text
}

#[test]
fn a_table_gives_back_what_was_put_in() {
    let mut table = Descriptions::new();
    assert!(table.get("tile.wall").is_none());
    table.insert("tile.wall".to_string(), described("a wall"));
    table.insert("tile.tree".to_string(), described("a tree"));
    assert_eq!(table.get("tile.wall").unwrap().name(), "a wall");
    assert_eq!(table.get("tile.tree").unwrap().name(), "a tree");
    assert!(table.get("tile.rock").is_none());
    assert!(table.get("wall").is_none());
    assert!(table.get("").is_none());
}

#[test]
fn a_later_description_takes_the_place_of_an_earlier_one() {
    let mut table = Descriptions::new();
    table.insert("tile.wall".to_string(), described("a wall"));
    table.insert("tile.wall".to_string(), described("a fence"));
    assert_eq!(table.get("tile.wall").unwrap().name(), "a fence");
    let twice = load_descriptions(vec![
        ("wall".to_string(), described("a wall")),
        ("rock".to_string(), described("a rock")),
        ("wall".to_string(), described("a hedge")),
    ]);
    assert_eq!(twice.get("tile.wall").unwrap().name(), "a hedge");
    assert_eq!(twice.get("tile.rock").unwrap().name(), "a rock");
}

#[test]
fn entries_of_a_file_are_kept_under_qualified_names() {
    let mut table = tiles();
    assert_eq!(table.get("tile.ground").unwrap().name(), "the ground");
    assert!(table.get("ground").is_none());
    table.load_file("actor", vec![("rat".to_string(), described("a rat"))]);
    assert_eq!(table.get("actor.rat").unwrap().name(), "a rat");
    assert!(table.get("tile.rat").is_none());
    assert_eq!(table.get("tile.floor").unwrap().name(), "the floor");
    table.load_file("", vec![("".to_string(), described("nothing"))]);
    assert_eq!(table.get(".").unwrap().name(), "nothing");
}

#[test]
fn a_thing_is_described_by_its_identifier() {
    let mut table = tiles();
    assert_eq!(Tile::Rock.description(&table).name(), "a rock");
    assert_eq!(Tile::Ground.description(&table).name(), "the ground");
    let actor = Actor::new(Pos::new(0, 0));
    assert_eq!(actor.desc_id(), "placeholer");
    table.insert(actor.desc_id(), described("Someone"));
    assert_eq!(actor.description(&table).name(), "Someone");
}

#[test]
fn a_blocked_move_is_put_in_words() {
    let mut table = tiles();
    table.insert("placeholer".to_string(), described("The rat"));
    assert_eq!(
        ActionFailureReason::BlockedByTile(Tile::Wall).message(&table),
        "You were blocked by a wall"
    );
    assert_eq!(
        ActionFailureReason::BlockedByTile(Tile::Tree).message(&table),
        "You were blocked by a tree"
    );
    let rat = Actor::new(Pos::new(1, 1));
    assert_eq!(ActionFailureReason::BlockedByActor(&rat).message(&table), "The rat is in your way!");
}

#[test]
fn numbers_are_written_in_decimal_digits() {
    assert_eq!(decimal(0), "0");
    assert_eq!(decimal(7), "7");
    assert_eq!(decimal(10), "10");
    assert_eq!(decimal(1234567890), "1234567890");
    assert_eq!(decimal(4294967295), "4294967295");
    let mut text = "x".to_string();
    append_decimal(&mut text, 305);
    assert_eq!(text, "x305");
}

#[test]
fn a_new_log_is_empty() {
    let log = MessageLog::new();
    assert!(log.messages.is_empty());
    assert_eq!(log.scroll, 0);
    assert!(log.render(10).is_empty());
    assert_eq!(MAX_MESSAGES, 100);
}

#[test]
fn a_repeated_message_is_counted() {
    let mut log = MessageLog::new();
    log.add_message("Ouch".to_string());
    log.add_message("Ouch".to_string());
    log.add_message("Hello".to_string());
    log.add_message("Ouch".to_string());
    for _ in 0..11 {
        log.add_message("Bump".to_string());
    }
    assert_eq!(
        log.messages,
        vec![
            ("Ouch".to_string(), 2),
            ("Hello".to_string(), 1),
            ("Ouch".to_string(), 1),
            ("Bump".to_string(), 11)
        ]
    );
    assert_eq!(log.render(10), vec!["Ouch x2", "Hello", "Ouch", "Bump x11"]);
}

#[test]
fn a_full_count_leaves_no_room_for_a_repeat() {
    let mut log = MessageLog::new();
    assert!(log.can_add(&"Bump".to_string()));
    log.messages.push(("Bump".to_string(), u32::MAX - 1));
    assert!(log.can_add(&"Bump".to_string()));
    log.add_message("Bump".to_string());
    assert_eq!(log.messages, vec![("Bump".to_string(), u32::MAX)]);
    assert!(!log.can_add(&"Bump".to_string()));
    assert!(log.can_add(&"Ouch".to_string()));
    assert_eq!(log.render(1), vec!["Bump x4294967295"]);
}

#[test]
fn a_log_is_read_from_the_lines_of_a_file() {
    let lines = vec!["one".to_string(), "two".to_string(), "two".to_string()];
    let mut log = MessageLog::from_file(lines);
    assert_eq!(
        log.messages,
        vec![("one".to_string(), 1), ("two".to_string(), 1), ("two".to_string(), 1)]
    );
    assert_eq!(log.scroll, 0);
    log.scroll = 2;
    log.load_messages(vec!["three".to_string()]);
    assert_eq!(log.messages, vec![("three".to_string(), 1)]);
    assert_eq!(log.scroll, 2);
    log.load_messages(Vec::new());
    assert!(log.messages.is_empty());
}

#[test]
fn the_window_shows_the_newest_messages() {
    let mut log = MessageLog::new();
    for text in ["a", "b", "c", "d", "e"] {
        log.add_message(text.to_string());
    }
    assert_eq!(log.render(3), vec!["c", "d", "e"]);
    assert_eq!(log.render(5), vec!["a", "b", "c", "d", "e"]);
    assert_eq!(log.render(8), vec!["a", "b", "c", "d", "e"]);
    assert_eq!(log.render(1), vec!["e"]);
    assert!(log.render(0).is_empty());
    assert_eq!(log.render(usize::MAX), vec!["a", "b", "c", "d", "e"]);
}

#[test]
fn the_window_ends_before_the_messages_scrolled_away() {
    let mut log = MessageLog::new();
    for text in ["a", "b", "c", "d", "e"] {
        log.add_message(text.to_string());
    }
    log.scroll = 1;
    assert_eq!(log.render(3), vec!["b", "c", "d"]);
    log.scroll = 2;
    assert_eq!(log.render(3), vec!["a", "b", "c"]);
    log.scroll = 3;
    assert_eq!(log.render(3), vec!["a", "b", "c"]);
    log.scroll = usize::MAX;
    assert_eq!(log.render(2), vec!["a", "b"]);
    assert_eq!(log.render(usize::MAX), vec!["a", "b", "c", "d", "e"]);
}
