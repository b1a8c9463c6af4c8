//! The menu that the game starts with.

use vstd::prelude::*;
use vstd::string::StringExecFns;
use crate::console::{KeyCode, TextAlignment};
use crate::ui::{SelectionList, TextField};
use crate::util::Pos;

verus! {

/// What the user chose in the starting menu.
#[derive(Clone, Copy, PartialEq, Eq, Debug, Structural)]
pub enum MenuChoice {
    StartGame,
    Exit,
}

/// The place of the entry that starts the game.
pub const PLAY_GAME: usize = 0;

/// The place of the entry for the options, which does nothing yet.
pub const OPTIONS: usize = 1;

/// The place of the entry that leaves the game.
pub const EXIT: usize = 2;

/// What the entry `chosen` of the starting menu means, if anything.
pub open spec fn choice_of(chosen: Option<usize>) -> Option<MenuChoice> {
    if chosen == Some(PLAY_GAME) {
        Some(MenuChoice::StartGame)
    } else if chosen == Some(EXIT) {
        Some(MenuChoice::Exit)
    } else {
        None
    }
}

/// The middle column of a screen that is `width` cells wide: half the
/// width, rounded towards zero.
pub open spec fn middle(width: i32) -> i32 {
    if width >= 0 {
        (width / 2) as i32
    } else {
        (-((-width) / 2)) as i32
    }
}

/// The title of the game over a list of three entries.
pub struct StartingMenu {
    pub title: TextField,
    pub menu: SelectionList,
}

impl StartingMenu {
    /// The starting menu for a screen that is `width` cells wide: title
    /// and list are centred on the middle column, the title in the third
    /// row and the list from the sixth.
    pub fn new(title: &str, width: i32) -> (start: StartingMenu)
        ensures
            start.title.text() == title@,
            start.title.position() == (Pos { x: middle(width), y: 2i32 }),
            start.title.alignment() == TextAlignment::Center,
            start.menu.elements().len() == 3,
            start.menu.elements()[0]@ == "Play Game"@,
            start.menu.elements()[1]@ == "Options"@,
            start.menu.elements()[2]@ == "Exit"@,
            start.menu.position() == (Pos { x: middle(width), y: 5i32 }),
            start.menu.selected() == 0,
            start.menu.wrapping(),
            start.menu.alignment() == TextAlignment::Center,
    {
        let title_field = TextField::new(
            String::from_str(title),
            Pos::new(width / 2, 2),
            TextAlignment::Center,
        );
        let mut entries: Vec<String> = Vec::new();
        entries.push(String::from_str("Play Game"));
        entries.push(String::from_str("Options"));
        entries.push(String::from_str("Exit"));
        let menu = SelectionList::new(entries, Pos::new(width / 2, 5), true, TextAlignment::Center);
        StartingMenu { title: title_field, menu: menu }
    }

    /// Takes a key, and says what the user chose with it, if anything.
    pub fn update(&mut self, key: Option<KeyCode>) -> (choice: Option<MenuChoice>)
        ensures
            final(self).title == old(self).title,
            final(self).menu.elements() == old(self).menu.elements(),
            final(self).menu.position() == old(self).menu.position(),
            final(self).menu.wrapping() == old(self).menu.wrapping(),
            final(self).menu.alignment() == old(self).menu.alignment(),
            final(self).menu.selected() == if key == Some(KeyCode::Up) {
                SelectionList::stepped(
                    old(self).menu.elements().len(),
                    old(self).menu.selected(),
                    old(self).menu.wrapping(),
                    -1,
                )
            } else if key == Some(KeyCode::Down) {
                SelectionList::stepped(
                    old(self).menu.elements().len(),
                    old(self).menu.selected(),
                    old(self).menu.wrapping(),
                    1,
                )
            } else {
                old(self).menu.selected() as int
            },
            choice == if key == Some(KeyCode::Enter) {
                choice_of(Some(old(self).menu.selected()))
            } else {
                None
            },
    {
        match self.menu.update(key) {
            Some(chosen) => {
                if chosen == PLAY_GAME {
                    Some(MenuChoice::StartGame)
                } else if chosen == EXIT {
                    Some(MenuChoice::Exit)
                } else {
                    None
                }
            },
            None => None,
        }
    }
}

} // verus!
