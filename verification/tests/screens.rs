use atina::actor::{Action, ActionKind, Actor};
use atina::console::{Color, KeyCode, Marker, TextAlignment};
use atina::description::{load_descriptions, Description};
use atina::input::{Input, InputState};
use atina::log::MessageLog;
use atina::map::MapConfig;
use atina::menu::{MenuChoice, StartingMenu, EXIT, OPTIONS, PLAY_GAME};
use atina::ui::{SelectionList, TextField};
use atina::util::{Direction, Pos};
use atina::world::World;

fn list(entries: &[&str], wrapping: bool) -> SelectionList {
    SelectionList::new(
        entries.iter().map(|entry| entry.to_string()).collect(),
        Pos::new(40, 5),
        wrapping,
        TextAlignment::Center,
    )
}

fn cellar() -> World {
    World::new(MapConfig {
        dimensions: Pos::new(3, 3),
        player_position: Pos::new(1, 1),
        layout: "#..\n...\n.T.".to_string(),
    })
    .unwrap()
}

fn names() -> atina::description::Descriptions {
    load_descriptions(vec![
        ("wall".to_string(), Description::new("wall".to_string(), "It is in the way.".to_string())),
        ("tree".to_string(), Description::new("tree".to_string(), "It is green.".to_string())),
    ])
}

#[test]
fn a_text_field_is_printed_where_it_stands() {
    let field = TextField::new("Atina".to_string(), Pos::new(40, 2), TextAlignment::Right);
    let label = field.render();
    assert_eq!(label.position, Pos::new(40, 2));
    assert_eq!(label.alignment, TextAlignment::Right);
    assert_eq!(label.text, "Atina");
}

#[test]
fn a_list_that_wraps_goes_round() {
    let mut menu = list(&["a", "b", "c"], true);
    assert_eq!(menu.get_selection(), 0);
    menu.next_selection();
    assert_eq!(menu.get_selection(), 1);
    menu.next_selection();
    assert_eq!(menu.get_selection(), 2);
    menu.next_selection();
    assert_eq!(menu.get_selection(), 0);
    menu.prev_selection();
    assert_eq!(menu.get_selection(), 2);
    menu.prev_selection();
    assert_eq!(menu.get_selection(), 1);
    menu.move_selection(-1);
    assert_eq!(menu.get_selection(), 0);
    menu.move_selection(1);
    assert_eq!(menu.get_selection(), 1);
    let mut single = list(&["only"], true);
    single.next_selection();
    assert_eq!(single.get_selection(), 0);
    single.prev_selection();
    assert_eq!(single.get_selection(), 0);
}

#[test]
fn a_list_that_does_not_wrap_goes_back_to_its_first_entry() {
    let mut menu = list(&["a", "b", "c"], false);
    menu.next_selection();
    assert_eq!(menu.get_selection(), 0);
    menu.prev_selection();
    assert_eq!(menu.get_selection(), 0);
}

#[test]
fn keys_move_the_selection_and_enter_chooses() {
    let mut menu = list(&["a", "b", "c"], true);
    assert_eq!(menu.update(None), None);
    assert_eq!(menu.update(Some(KeyCode::Down)), None);
    assert_eq!(menu.get_selection(), 1);
    assert_eq!(menu.update(Some(KeyCode::Enter)), Some(1));
    assert_eq!(menu.get_selection(), 1);
    assert_eq!(menu.update(Some(KeyCode::Up)), None);
    assert_eq!(menu.update(Some(KeyCode::Up)), None);
    assert_eq!(menu.update(Some(KeyCode::Enter)), Some(2));
    assert_eq!(menu.update(Some(KeyCode::Left)), None);
    assert_eq!(menu.update(Some(KeyCode::NumPad8)), None);
    assert_eq!(menu.update(Some(KeyCode::Other)), None);
    assert_eq!(menu.get_selection(), 2);
}

#[test]
fn a_list_is_printed_from_the_top_with_an_arrow_at_the_selection() {
    let mut menu = list(&["Play Game", "Options", "Exit"], true);
    menu.next_selection();
    assert!(menu.fits_screen());
    let (labels, arrow) = menu.render();
    let texts: Vec<&str> = labels.iter().map(|label| label.text).collect();
    assert_eq!(texts, vec!["Play Game", "Options", "Exit"]);
    assert_eq!(labels[0].position, Pos::new(40, 5));
    assert_eq!(labels[1].position, Pos::new(40, 6));
    assert_eq!(labels[2].position, Pos::new(40, 7));
    assert!(labels.iter().all(|label| label.alignment == TextAlignment::Center));
    assert_eq!(arrow, Marker { position: Pos::new(35, 6), symbol: '\u{10}', fg: Color::white() });
}

#[test]
fn the_arrow_stands_left_of_the_widest_entry_counted_in_bytes() {
    let narrow = list(&["ab"], true);
    assert_eq!(narrow.render().1.position, Pos::new(38, 5));
    let accents = list(&["éé", "a"], true);
    assert_eq!(accents.render().1.position, Pos::new(37, 5));
    let empty = list(&[""], true);
    assert_eq!(empty.render().1.position, Pos::new(39, 5));
}

#[test]
fn a_list_must_fit_the_screen_to_be_printed() {
    let entries = || vec!["a".to_string(), "b".to_string()];
    let low = SelectionList::new(entries(), Pos::new(0, i32::MAX - 1), true, TextAlignment::Left);
    assert!(!low.fits_screen());
    let lowest = SelectionList::new(entries(), Pos::new(0, i32::MAX - 2), true, TextAlignment::Left);
    assert!(lowest.fits_screen());
    assert_eq!(lowest.render().0[1].position, Pos::new(0, i32::MAX - 1));
    let left = SelectionList::new(entries(), Pos::new(i32::MIN, 0), true, TextAlignment::Left);
    assert!(!left.fits_screen());
    let leftmost = SelectionList::new(entries(), Pos::new(i32::MIN + 1, 0), true, TextAlignment::Left);
    assert!(leftmost.fits_screen());
    assert_eq!(leftmost.render().1.position, Pos::new(i32::MIN, 0));
}

#[test]
fn the_starting_menu_stands_in_the_middle_of_the_screen() {
    let start = StartingMenu::new("Atina v0.1.0", 80);
    let title = start.title.render();
    assert_eq!(title.text, "Atina v0.1.0");
    assert_eq!(title.position, Pos::new(40, 2));
    assert_eq!(title.alignment, TextAlignment::Center);
    let (labels, arrow) = start.menu.render();
    let texts: Vec<&str> = labels.iter().map(|label| label.text).collect();
    assert_eq!(texts, vec!["Play Game", "Options", "Exit"]);
    assert_eq!(labels[0].position, Pos::new(40, 5));
    assert_eq!(arrow.position, Pos::new(35, 5));
    assert_eq!(StartingMenu::new("", 81).title.render().position, Pos::new(40, 2));
    assert_eq!(StartingMenu::new("", -3).title.render().position, Pos::new(-1, 2));
    assert_eq!((PLAY_GAME, OPTIONS, EXIT), (0, 1, 2));
}

#[test]
fn the_starting_menu_starts_the_game_or_leaves_it() {
    let mut start = StartingMenu::new("Atina", 80);
    assert_eq!(start.update(None), None);
    assert_eq!(start.update(Some(KeyCode::Other)), None);
    assert_eq!(start.update(Some(KeyCode::Down)), None);
    assert_eq!(start.menu.get_selection(), 1);
    assert_eq!(start.update(Some(KeyCode::Enter)), None);
    assert_eq!(start.update(Some(KeyCode::Down)), None);
    assert_eq!(start.update(Some(KeyCode::Enter)), Some(MenuChoice::Exit));
    assert_eq!(start.update(Some(KeyCode::Down)), None);
    assert_eq!(start.menu.get_selection(), 0);
    assert_eq!(start.update(Some(KeyCode::Enter)), Some(MenuChoice::StartGame));
    assert_eq!(start.update(Some(KeyCode::Up)), None);
    assert_eq!(start.update(Some(KeyCode::Enter)), Some(MenuChoice::Exit));
}

#[test]
fn arrow_keys_and_the_number_pad_stand_for_directions() {
    assert_eq!(Input::directional_key(KeyCode::Up), Some(Direction::North));
    assert_eq!(Input::directional_key(KeyCode::NumPad8), Some(Direction::North));
    assert_eq!(Input::directional_key(KeyCode::Down), Some(Direction::South));
    assert_eq!(Input::directional_key(KeyCode::NumPad2), Some(Direction::South));
    assert_eq!(Input::directional_key(KeyCode::Left), Some(Direction::West));
    assert_eq!(Input::directional_key(KeyCode::NumPad4), Some(Direction::West));
    assert_eq!(Input::directional_key(KeyCode::Right), Some(Direction::East));
    assert_eq!(Input::directional_key(KeyCode::NumPad6), Some(Direction::East));
    assert_eq!(Input::directional_key(KeyCode::NumPad7), Some(Direction::NorthWest));
    assert_eq!(Input::directional_key(KeyCode::NumPad9), Some(Direction::NorthEast));
    assert_eq!(Input::directional_key(KeyCode::NumPad1), Some(Direction::SouthWest));
    assert_eq!(Input::directional_key(KeyCode::NumPad3), Some(Direction::SouthEast));
    assert_eq!(Input::directional_key(KeyCode::Enter), None);
    assert_eq!(Input::directional_key(KeyCode::Other), None);
}

#[test]
fn a_direction_key_has_the_player_begin_a_step() {
    let mut world = cellar();
    let mut log = MessageLog::new();
    let mut input = Input::new();
    let table = names();
    assert!(Input::ready(KeyCode::Right, &world, &table, &log));
    input.update(KeyCode::Right, &mut world, &table, &mut log);
    assert_eq!(
        world.player.actor.action,
        Action { duration: 100, kind: ActionKind::MoveTo(Pos::new(2, 1)) }
    );
    assert_eq!(world.player.actor.pos, Pos::new(1, 1));
    assert!(log.messages.is_empty());
    assert!(!Input::ready(KeyCode::Left, &world, &table, &log));
    assert!(Input::ready(KeyCode::Enter, &world, &table, &log));
}

#[test]
fn a_blocked_step_is_told_to_the_log() {
    let mut world = cellar();
    let mut log = MessageLog::new();
    let mut input = Input::new();
    let table = names();
    let before = world.player;
    assert!(Input::ready(KeyCode::NumPad7, &world, &table, &log));
    input.update(KeyCode::NumPad7, &mut world, &table, &mut log);
    assert_eq!(world.player, before);
    assert_eq!(log.messages, vec![("You're blocked by wall".to_string(), 1)]);
    input.update(KeyCode::NumPad7, &mut world, &table, &mut log);
    input.update(KeyCode::Down, &mut world, &table, &mut log);
    assert_eq!(world.player, before);
    assert_eq!(
        log.messages,
        vec![
            ("You're blocked by wall".to_string(), 2),
            ("You're blocked by tree".to_string(), 1)
        ]
    );
}

#[test]
fn an_actor_in_the_way_is_told_to_the_log() {
    let mut world = cellar();
    let mut sleeper = Actor::new(Pos::new(1, 0));
    sleeper.active = false;
    world.actors.push(sleeper);
    world.actors.push(Actor::new(Pos::new(2, 1)));
    let mut log = MessageLog::new();
    let mut input = Input::new();
    let mut table = names();
    let before = world.player;
    assert!(!Input::ready(KeyCode::Right, &world, &table, &log));
    table.insert("placeholer".to_string(), Description::new("The rat".to_string(), "It bites.".to_string()));
    assert!(Input::ready(KeyCode::Right, &world, &table, &log));
    input.update(KeyCode::Right, &mut world, &table, &mut log);
    assert_eq!(world.player, before);
    assert_eq!(world.actors.len(), 2);
    assert_eq!(log.messages, vec![("The rat is in your way!".to_string(), 1)]);
    input.update(KeyCode::NumPad6, &mut world, &table, &mut log);
    assert_eq!(world.player, before);
    assert_eq!(log.messages, vec![("The rat is in your way!".to_string(), 2)]);
    log.messages[0].1 = u32::MAX;
    assert!(!Input::ready(KeyCode::Right, &world, &table, &log));
    assert!(Input::ready(KeyCode::Up, &world, &table, &log));
    input.update(KeyCode::Up, &mut world, &table, &mut log);
    assert_eq!(
        world.player.actor.action,
        Action { duration: 100, kind: ActionKind::MoveTo(Pos::new(1, 0)) }
    );
    assert_eq!(log.messages.len(), 1);
}

#[test]
fn other_keys_do_nothing() {
    let mut world = cellar();
    world.actors.push(Actor::new(Pos::new(0, 1)));
    let mut log = MessageLog::new();
    log.add_message("Welcome".to_string());
    let mut input = Input::new();
    let table = names();
    let before = world.player;
    input.update(KeyCode::Enter, &mut world, &table, &mut log);
    input.update(KeyCode::Other, &mut world, &table, &mut log);
    assert_eq!(world.player, before);
    assert_eq!(world.actors, vec![Actor::new(Pos::new(0, 1))]);
    assert_eq!(log.messages, vec![("Welcome".to_string(), 1)]);
}

#[test]
fn a_step_cannot_be_taken_without_the_words_to_refuse_it() {
    let world = cellar();
    let mut log = MessageLog::new();
    let nameless = load_descriptions(Vec::new());
    assert!(!Input::ready(KeyCode::NumPad7, &world, &nameless, &log));
    assert!(!Input::ready(KeyCode::Down, &world, &nameless, &log));
    assert!(Input::ready(KeyCode::Up, &world, &nameless, &log));
    let table = names();
    log.messages.push(("You're blocked by tree".to_string(), u32::MAX));
    assert!(!Input::ready(KeyCode::Down, &world, &table, &log));
    assert!(Input::ready(KeyCode::NumPad7, &world, &table, &log));
    assert_eq!(InputState::Toplevel, InputState::Toplevel);
}

#[test]
fn the_world_is_drawn_with_the_player_on_top() {
    let mut world = cellar();
    let mut rat = Actor::new(Pos::new(2, 2));
    rat.graphics.symbol = 'r';
    world.actors.push(rat);
    world.actors.push(Actor::new(Pos::new(1, 1)));
    let glyphs = world.render();
    assert_eq!(glyphs.len(), 12);
    let symbols: String = glyphs.iter().map(|glyph| glyph.symbol).collect();
    assert_eq!(symbols, "#......\u{5}.ra@");
    assert_eq!(glyphs[9].position, Pos::new(2, 2));
    assert_eq!(glyphs[10].position, Pos::new(1, 1));
    assert_eq!(glyphs[11].position, Pos::new(1, 1));
    assert_eq!(glyphs[7].position, Pos::new(1, 2));
}
