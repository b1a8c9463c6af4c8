//! What is shown besides the world: a line of text, and a list to choose
//! from.

use vstd::prelude::*;
use crate::console::{Color, KeyCode, Label, Marker, TextAlignment};
use crate::layout::byte_len;
use crate::util::{Pos, ScreenPos};

verus! {

/// A line of text at a place of the screen.
pub struct TextField {
    position: ScreenPos,
    text: String,
    alignment: TextAlignment,
}

impl TextField {
    /// Where the text is printed.
    pub closed spec fn position(&self) -> ScreenPos {
        self.position
    }

    /// What is printed.
    pub closed spec fn text(&self) -> Seq<char> {
        self.text@
    }

    /// To which side of its position the text is set.
    pub closed spec fn alignment(&self) -> TextAlignment {
        self.alignment
    }

    /// The line `text` at `position`.
    pub fn new(text: String, position: ScreenPos, alignment: TextAlignment) -> (field: TextField)
        ensures
            field.text() == text@,
            field.position() == position,
            field.alignment() == alignment,
    {
        TextField { text: text, position: position, alignment: alignment }
    }

    /// The text to print, where and how.
    pub fn render(&self) -> (label: Label<'_>)
        ensures
            label.position == self.position(),
            label.alignment == self.alignment(),
            label.text@ == self.text(),
    {
        Label { position: self.position, alignment: self.alignment, text: self.text.as_str() }
    }
}

/// The greatest number of bytes that one of `elements` takes, or zero
/// where there is none.
pub open spec fn widest_of(elements: Seq<String>) -> nat
    decreases elements.len(),
{
    if elements.len() == 0 {
        0
    } else {
        let rest = widest_of(elements.drop_last());
        let last = byte_len(elements.last()@);
        if last > rest {
            last
        } else {
            rest
        }
    }
}

/// The arrow that marks the selected entry of a list.
pub open spec fn arrow() -> char {
    '\u{10}'
}

/// A list of texts, one under the other, of which one is selected.
pub struct SelectionList {
    position: ScreenPos,
    elements: Vec<String>,
    selected: usize,
    widest: usize,
    wrapping: bool,
    alignment: TextAlignment,
}

impl SelectionList {
    #[verifier::type_invariant]
    spec fn well_formed(&self) -> bool {
        &&& self.elements@.len() > 0
        &&& self.selected < self.elements@.len()
        &&& self.widest == widest_of(self.elements@)
    }

    /// Where the first entry is printed.
    pub closed spec fn position(&self) -> ScreenPos {
        self.position
    }

    /// The entries, from the top.
    pub closed spec fn elements(&self) -> Seq<String> {
        self.elements@
    }

    /// The place of the selected entry.
    pub closed spec fn selected(&self) -> usize {
        self.selected
    }

    /// Whether the selection goes round from the last entry to the first.
    pub closed spec fn wrapping(&self) -> bool {
        self.wrapping
    }

    /// To which side of its position each entry is set.
    pub closed spec fn alignment(&self) -> TextAlignment {
        self.alignment
    }

    /// A list of `elms` with its first entry selected.
    pub fn new(
        elms: Vec<String>,
        position: ScreenPos,
        wrapping: bool,
        alignment: TextAlignment,
    ) -> (list: SelectionList)
        requires
            elms@.len() > 0,
        ensures
            list.elements() == elms@,
            list.position() == position,
            list.selected() == 0,
            list.wrapping() == wrapping,
            list.alignment() == alignment,
    {
        let mut widest: usize = 0;
        let mut i: usize = 0;
        while i < elms.len()
            invariant
                i <= elms@.len(),
                widest == widest_of(elms@.take(i as int)),
            decreases elms@.len() - i,
        {
            let len: usize = elms[i].as_str().as_bytes().len();
            proof {
                assert(elms@.take(i + 1).drop_last() =~= elms@.take(i as int));
            }
            if len > widest {
                widest = len;
            }
            i = i + 1;
        }
        assert(elms@.take(i as int) =~= elms@);
        SelectionList {
            position: position,
            elements: elms,
            selected: 0,
            widest: widest,
            wrapping: wrapping,
            alignment: alignment,
        }
    }

    /// The entry that is selected after a step of `direction` from the
    /// entry `selected` of a list of `len` entries. A list that wraps goes
    /// round from its last entry to its first and back. One that does not
    /// goes back to its first entry.
    pub open spec fn stepped(len: nat, selected: usize, wrapping: bool, direction: int) -> int {
        if wrapping {
            (len + selected + direction) % (len as int)
        } else {
            0
        }
    }

    /// Moves the selection one entry down, for 1, or up, for -1.
    pub fn move_selection(&mut self, direction: isize)
        requires
            direction == 1 || direction == -1,
        ensures
            final(self).selected() == SelectionList::stepped(
                old(self).elements().len(),
                old(self).selected(),
                old(self).wrapping(),
                direction as int,
            ),
            final(self).elements() == old(self).elements(),
            final(self).position() == old(self).position(),
            final(self).wrapping() == old(self).wrapping(),
            final(self).alignment() == old(self).alignment(),
    {
        proof {
            use_type_invariant(&*self);
        }
        let len: usize = self.elements.len();
        if self.wrapping {
            if direction == 1 {
                if self.selected + 1 == len {
                    assert((len + self.selected + 1) % (len as int) == 0) by (nonlinear_arith)
                        requires
                            self.selected + 1 == len,
                            len > 0,
                    ;
                    self.selected = 0;
                } else {
                    assert((len + self.selected + 1) % (len as int) == self.selected + 1)
                        by (nonlinear_arith)
                        requires
                            self.selected + 1 < len,
                    ;
                    self.selected = self.selected + 1;
                }
            } else {
                if self.selected == 0 {
                    assert((len + 0 + -1) % (len as int) == len - 1) by (nonlinear_arith)
                        requires
                            len > 0,
                    ;
                    self.selected = len - 1;
                } else {
                    assert((len + self.selected + -1) % (len as int) == self.selected - 1)
                        by (nonlinear_arith)
                        requires
                            0 < self.selected < len,
                    ;
                    self.selected = self.selected - 1;
                }
            }
        } else {
            self.selected = 0;
        }
    }

    /// Moves the selection one entry down.
    pub fn next_selection(&mut self)
        ensures
            final(self).selected() == SelectionList::stepped(
                old(self).elements().len(),
                old(self).selected(),
                old(self).wrapping(),
                1,
            ),
            final(self).elements() == old(self).elements(),
            final(self).position() == old(self).position(),
            final(self).wrapping() == old(self).wrapping(),
            final(self).alignment() == old(self).alignment(),
    {
        self.move_selection(1);
    }

    /// Moves the selection one entry up.
    pub fn prev_selection(&mut self)
        ensures
            final(self).selected() == SelectionList::stepped(
                old(self).elements().len(),
                old(self).selected(),
                old(self).wrapping(),
                -1,
            ),
            final(self).elements() == old(self).elements(),
            final(self).position() == old(self).position(),
            final(self).wrapping() == old(self).wrapping(),
            final(self).alignment() == old(self).alignment(),
    {
        self.move_selection(-1);
    }

    /// The place of the selected entry.
    pub fn get_selection(&self) -> (selected: usize)
        ensures
            selected == self.selected(),
            selected < self.elements().len(),
    {
        proof {
            use_type_invariant(self);
        }
        self.selected
    }

    /// Takes a key. The arrow keys move the selection, and the enter key
    /// chooses: then the selected entry is returned.
    pub fn update(&mut self, key: Option<KeyCode>) -> (chosen: Option<usize>)
        ensures
            final(self).elements() == old(self).elements(),
            final(self).position() == old(self).position(),
            final(self).wrapping() == old(self).wrapping(),
            final(self).alignment() == old(self).alignment(),
            chosen == if key == Some(KeyCode::Enter) {
                Some(old(self).selected())
            } else {
                None
            },
            final(self).selected() == if key == Some(KeyCode::Up) {
                SelectionList::stepped(
                    old(self).elements().len(),
                    old(self).selected(),
                    old(self).wrapping(),
                    -1,
                )
            } else if key == Some(KeyCode::Down) {
                SelectionList::stepped(
                    old(self).elements().len(),
                    old(self).selected(),
                    old(self).wrapping(),
                    1,
                )
            } else {
                old(self).selected() as int
            },
    {
        match key {
            None => None,
            Some(KeyCode::Up) => {
                self.prev_selection();
                None
            },
            Some(KeyCode::Down) => {
                self.next_selection();
                None
            },
            Some(KeyCode::Enter) => Some(self.get_selection()),
            Some(_) => None,
        }
    }

    /// Whether the list and the arrow beside it have coordinates that a
    /// screen position can hold.
    pub open spec fn on_screen(&self) -> bool {
        &&& self.elements().len() <= i32::MAX
        &&& self.position().y + self.elements().len() <= i32::MAX
        &&& widest_of(self.elements()) <= i32::MAX
        &&& self.position().x - widest_of(self.elements()) / 2 - 1 >= i32::MIN
    }

    /// Where the arrow stands: left of the widest entry, in the row of the
    /// selected one.
    pub open spec fn arrow_position(&self) -> ScreenPos {
        Pos {
            x: (self.position().x - widest_of(self.elements()) / 2 - 1) as i32,
            y: (self.position().y + self.selected()) as i32,
        }
    }

    /// Whether the list can be printed.
    #[verifier::when_used_as_spec(on_screen)]
    pub fn fits_screen(&self) -> (fits: bool)
        ensures
            fits == self.on_screen(),
    {
        proof {
            use_type_invariant(self);
        }
        let len: usize = self.elements.len();
        len <= i32::MAX as usize && self.position.y <= i32::MAX - (len as i32) && self.widest
            <= i32::MAX as usize && self.position.x >= i32::MIN + 1 + (self.widest as i32) / 2
    }

    /// The texts to print, one for each entry from the top, and the arrow
    /// that marks the selected one.
    pub fn render(&self) -> (drawn: (Vec<Label<'_>>, Marker))
        requires
            self.on_screen(),
        ensures
            drawn.0@.len() == self.elements().len(),
            forall|i: int|
                0 <= i < drawn.0@.len() ==> {
                    &&& (#[trigger] drawn.0@[i]).position == (Pos {
                        x: self.position().x,
                        y: (self.position().y + i) as i32,
                    })
                    &&& drawn.0@[i].alignment == self.alignment()
                    &&& drawn.0@[i].text@ == self.elements()[i]@
                },
            drawn.1 == (Marker {
                position: self.arrow_position(),
                symbol: arrow(),
                fg: Color::white(),
            }),
    {
        proof {
            use_type_invariant(self);
        }
        let mut labels: Vec<Label<'_>> = Vec::new();
        let mut i: usize = 0;
        while i < self.elements.len()
            invariant
                i <= self.elements@.len() <= i32::MAX,
                self.position.y + self.elements@.len() <= i32::MAX,
                labels@.len() == i,
                forall|k: int|
                    0 <= k < i ==> {
                        &&& (#[trigger] labels@[k]).position == (Pos {
                            x: self.position.x,
                            y: (self.position.y + k) as i32,
                        })
                        &&& labels@[k].alignment == self.alignment
                        &&& labels@[k].text@ == self.elements@[k]@
                    },
            decreases self.elements@.len() - i,
        {
            labels.push(
                Label {
                    position: Pos { x: self.position.x, y: self.position.y + i as i32 },
                    alignment: self.alignment,
                    text: self.elements[i].as_str(),
                },
            );
            i = i + 1;
        }
        let x_pos: i32 = self.position.x - (self.widest as i32) / 2;
        let y_pos: i32 = self.position.y + self.selected as i32;
        (
            labels,
            Marker {
                position: Pos { x: x_pos - 1, y: y_pos },
                symbol: '\u{10}',
                fg: Color::white(),
            },
        )
    }
}

} // verus!
